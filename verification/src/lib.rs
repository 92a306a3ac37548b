//! Driver for the CH1115 monochrome OLED display controller.
//!
//! The driver owns a packed one-bit-per-pixel framebuffer, maps pixel
//! coordinates onto the controller's page-addressed RAM layout, and issues
//! the command sequences for reset, initialization and full-buffer flushes.
//! The bus transport, reset pin and delay source are supplied by the caller
//! through the capability traits in [`interface`].

pub mod driver;
pub mod framebuffer;
pub mod geometry;
pub mod instructions;
pub mod interface;

pub use driver::Ch1115;
pub use driver::Error;

pub use geometry::DisplaySize;
pub use geometry::Size128x64;
pub use geometry::Size88x48;
pub use instructions::Instruction;
pub use instructions::MaxBrightness;
pub use interface::BusError;
pub use interface::BusWrite;
pub use interface::DelaySource;
pub use interface::DisplayInterface;
pub use interface::NoResetPin;
pub use interface::PinLevel;
pub use interface::ResetPin;
pub use interface::Wait;
