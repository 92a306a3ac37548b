//! Capability traits for the driver's external collaborators: the
//! command/data bus transport, the reset line, and the delay source.
//!
//! Each trait carries a ghost history of the operations performed on it, so
//! that the driver's contracts can state exactly which bytes, pin levels and
//! waits an operation emits. Implementations live outside the driver: a real
//! one forwards to the hardware abstraction the platform provides, a test
//! double records into a vector.

use vstd::prelude::*;

verus! {

/// One write on the command/data bus: either a burst of command bytes or a
/// burst of data bytes.
pub enum BusWrite {
    Commands(Seq<u8>),
    Data(Seq<u8>),
}

/// One level driven onto the reset line.
#[derive(Copy, Clone, Debug, PartialEq, Eq)]
pub enum PinLevel {
    High,
    Low,
}

/// One wait performed by the delay source, with its requested duration.
#[derive(Copy, Clone, Debug, PartialEq, Eq)]
pub enum Wait {
    Ms(u32),
    Us(u32),
}

/// The error a bus write reports. The driver does not preserve the
/// transport's failure reason, so this carries no detail.
#[derive(Copy, Clone, Debug, PartialEq, Eq)]
pub struct BusError;

/// A write-only command/data bus to the display controller.
///
/// `writes()` is the history of bursts successfully sent so far. A
/// successful send appends exactly one burst; after a failed send the
/// history is unspecified, matching the driver's view that a failed
/// operation leaves the physical display state unknown.
pub trait DisplayInterface: Sized {
    /// The bursts sent over the bus so far, oldest first. Implementations
    /// meant for verified callers override this; the default leaves the
    /// history unspecified.
    open spec fn writes(&self) -> Seq<BusWrite> {
        arbitrary()
    }

    /// Sends one burst of command bytes.
    fn send_commands(&mut self, commands: &[u8]) -> (r: Result<(), BusError>)
        ensures
            r is Ok ==> final(self).writes() == old(self).writes().push(
                BusWrite::Commands(commands@),
            ),
    ;

    /// Sends one burst of data bytes.
    fn send_data(&mut self, data: &[u8]) -> (r: Result<(), BusError>)
        ensures
            r is Ok ==> final(self).writes() == old(self).writes().push(BusWrite::Data(data@)),
    ;
}

/// The controller's reset line.
///
/// `levels()` is the history of levels successfully driven onto the line. A
/// successful drive appends exactly one level; after a failure the history
/// is unspecified.
pub trait ResetPin: Sized {
    /// The error a failed drive reports.
    type PinError;

    /// The levels driven onto the line so far, oldest first.
    /// Implementations meant for verified callers override this; the
    /// default leaves the history unspecified.
    open spec fn levels(&self) -> Seq<PinLevel> {
        arbitrary()
    }

    /// Drives the line high.
    fn set_high(&mut self) -> (r: Result<(), Self::PinError>)
        ensures
            r is Ok ==> final(self).levels() == old(self).levels().push(PinLevel::High),
    ;

    /// Drives the line low.
    fn set_low(&mut self) -> (r: Result<(), Self::PinError>)
        ensures
            r is Ok ==> final(self).levels() == old(self).levels().push(PinLevel::Low),
    ;
}

/// A source of blocking waits; infallible.
///
/// `waits()` is the history of waits performed so far.
pub trait DelaySource: Sized {
    /// The waits performed so far, oldest first. Implementations meant for
    /// verified callers override this; the default leaves the history
    /// unspecified.
    open spec fn waits(&self) -> Seq<Wait> {
        arbitrary()
    }

    /// Waits for at least `ms` milliseconds.
    fn delay_ms(&mut self, ms: u32)
        ensures
            final(self).waits() == old(self).waits().push(Wait::Ms(ms)),
    ;

    /// Waits for at least `us` microseconds.
    fn delay_us(&mut self, us: u32)
        ensures
            final(self).waits() == old(self).waits().push(Wait::Us(us)),
    ;
}

/// A stand-in for boards whose reset line is not wired: every drive succeeds
/// and has no physical effect.
pub struct NoResetPin {
    history: Ghost<Seq<PinLevel>>,
}

impl NoResetPin {
    /// Creates the stand-in with an empty drive history.
    pub fn new() -> (r: NoResetPin)
        ensures
            r.levels() == Seq::<PinLevel>::empty(),
    {
        NoResetPin { history: Ghost(Seq::empty()) }
    }
}

impl ResetPin for NoResetPin {
    type PinError = core::convert::Infallible;

    closed spec fn levels(&self) -> Seq<PinLevel> {
        self.history@
    }

    fn set_high(&mut self) -> (r: Result<(), Self::PinError>) {
        self.history = Ghost(self.history@.push(PinLevel::High));
        Ok(())
    }

    fn set_low(&mut self) -> (r: Result<(), Self::PinError>) {
        self.history = Ghost(self.history@.push(PinLevel::Low));
        Ok(())
    }
}

} // verus!
