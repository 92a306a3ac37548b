//! The protocol sequencer: the driver type that owns the framebuffer and
//! the bus, pin and delay handles, and turns drawing and control requests
//! into the controller's command streams.

use vstd::prelude::*;
use vstd::slice::slice_subrange;
use vstd::arithmetic::mul::lemma_mul_inequality;
use crate::framebuffer::frame_len;
use crate::framebuffer::in_bounds;
use crate::framebuffer::lemma_pixel_index_in_range;
use crate::framebuffer::pixel_index;
use crate::framebuffer::spec_pixel;
use crate::framebuffer::spec_set_pixel;
use crate::framebuffer::zero_buffer;
use crate::framebuffer::zero_frame;
use crate::geometry::DisplaySize;
use crate::instructions::Instruction;
use crate::instructions::MaxBrightness;
use crate::interface::BusWrite;
use crate::interface::DelaySource;
use crate::interface::DisplayInterface;
use crate::interface::PinLevel;
use crate::interface::ResetPin;
use crate::interface::Wait;

verus! {

/// The two failures a driver operation can report: the bus transport
/// failed (the reason is not preserved), or a reset-pin drive failed (the
/// pin's own error is carried verbatim).
#[derive(Debug)]
pub enum Error<PinError> {
    DisplayError,
    Pin(PinError),
}

/// One command burst holding the single byte `b`.
pub open spec fn command_write(b: u8) -> BusWrite {
    BusWrite::Commands(seq![b])
}

/// The two command bursts that address column `column`: the lower nibble
/// OR-combined into `SetLowerColumnAddress`, then the higher nibble
/// OR-combined into `SetHigherColumnAddress`.
pub open spec fn column_writes(column: u8) -> Seq<BusWrite> {
    seq![
        command_write(Instruction::SetLowerColumnAddress.spec_value() | (column & 0x0F)),
        command_write(Instruction::SetHigherColumnAddress.spec_value() | ((column >> 4) & 0x0F)),
    ]
}

/// The four bursts that transfer page `page` of `buf`: the page address,
/// the column-address pair for `offset_x`, then the page's `width` bytes
/// as one data burst.
pub open spec fn page_writes(width: u8, offset_x: u8, buf: Seq<u8>, page: int) -> Seq<BusWrite> {
    seq![command_write(Instruction::SetPageAddress.spec_value() | page as u8)] + column_writes(
        offset_x,
    ) + seq![BusWrite::Data(buf.subrange(page * (width as int), (page + 1) * (width as int)))]
}

/// The bursts that transfer the first `n` pages of `buf`, in increasing
/// page order.
pub open spec fn flush_writes_up_to(width: u8, offset_x: u8, buf: Seq<u8>, n: int) -> Seq<BusWrite>
    decreases n,
{
    if n <= 0 {
        Seq::empty()
    } else {
        flush_writes_up_to(width, offset_x, buf, n - 1) + page_writes(width, offset_x, buf, n - 1)
    }
}

/// The full bus traffic of one flush: all `height / 8` pages of `buf`, in
/// increasing page order starting at page 0.
pub open spec fn flush_writes(width: u8, height: u8, offset_x: u8, buf: Seq<u8>) -> Seq<BusWrite> {
    flush_writes_up_to(width, offset_x, buf, height as int / 8)
}

/// Burst `i` of a flush, which belongs to page `i / 4`: slot 0 is the
/// page-address command, slots 1 and 2 the column-address pair for the
/// geometry's column offset, and slot 3 the page's data burst of exactly
/// `width` bytes.
pub open spec fn flush_slot(width: u8, offset_x: u8, buf: Seq<u8>, i: int) -> BusWrite {
    let page = i / 4;
    if i % 4 == 0 {
        command_write(Instruction::SetPageAddress.spec_value() | page as u8)
    } else if i % 4 == 1 {
        command_write(Instruction::SetLowerColumnAddress.spec_value() | (offset_x & 0x0F))
    } else if i % 4 == 2 {
        command_write(Instruction::SetHigherColumnAddress.spec_value() | ((offset_x >> 4) & 0x0F))
    } else {
        BusWrite::Data(buf.subrange(page * (width as int), (page + 1) * (width as int)))
    }
}

/// The first `n` pages' bursts, burst by burst.
proof fn lemma_flush_up_to_slots(width: u8, offset_x: u8, buf: Seq<u8>, n: int)
    requires
        0 <= n,
    ensures
        flush_writes_up_to(width, offset_x, buf, n) == Seq::new(
            (4 * n) as nat,
            |i: int| flush_slot(width, offset_x, buf, i),
        ),
    decreases n,
{
    if n > 0 {
        lemma_flush_up_to_slots(width, offset_x, buf, n - 1);
        assert(flush_writes_up_to(width, offset_x, buf, n) =~= Seq::new(
            (4 * n) as nat,
            |i: int| flush_slot(width, offset_x, buf, i),
        ));
    } else {
        assert(flush_writes_up_to(width, offset_x, buf, n) =~= Seq::new(
            (4 * n) as nat,
            |i: int| flush_slot(width, offset_x, buf, i),
        ));
    }
}

/// The shape of one flush's bus traffic: exactly `height / 8` page-address
/// commands, in strictly increasing page order starting at 0, each
/// immediately followed by one column-address pair and one data burst of
/// exactly `width` bytes.
pub proof fn lemma_flush_writes_shape(width: u8, height: u8, offset_x: u8, buf: Seq<u8>)
    requires
        buf.len() == frame_len(width, height),
    ensures
        flush_writes(width, height, offset_x, buf).len() == 4 * (height as int / 8),
        forall|i: int|
            0 <= i < 4 * (height as int / 8) ==> #[trigger] flush_writes(
                width,
                height,
                offset_x,
                buf,
            )[i] == flush_slot(width, offset_x, buf, i),
        forall|i: int|
            0 <= i < 4 * (height as int / 8) && i % 4 == 3 ==> (#[trigger] flush_writes(
                width,
                height,
                offset_x,
                buf,
            )[i]) is Data && flush_writes(width, height, offset_x, buf)[i]->Data_0.len()
                == width as int,
{
    lemma_flush_up_to_slots(width, offset_x, buf, height as int / 8);
    assert forall|i: int| 0 <= i < 4 * (height as int / 8) && i % 4 == 3 implies (
    #[trigger] flush_writes(width, height, offset_x, buf)[i]) is Data && flush_writes(
        width,
        height,
        offset_x,
        buf,
    )[i]->Data_0.len() == width as int by {
        let p = i / 4;
        let w = width as int;
        lemma_mul_inequality(p + 1, height as int / 8, w);
        assert(0 <= p * w && p * w + w == (p + 1) * w) by (nonlinear_arith)
            requires
                0 <= p,
                0 <= w,
        ;
    }
}

/// The breathing-effect parameter byte: bit 7 the enable flag, bits 6..3
/// the brightness-range selector, bits 2..0 `frames - 1`.
pub open spec fn breathing_byte(on: bool, max_brightness: MaxBrightness, frames: u8) -> u8
    recommends
        1 <= frames <= 8,
{
    (if on {
        0x80u8
    } else {
        0u8
    }) | (max_brightness.spec_value() << 3u8) | ((frames - 1) as u8)
}

/// The buffer after a batch of `(x, y, on)` pixel writes is applied in
/// order, off-canvas entries skipped.
pub open spec fn apply_pixels(buf: Seq<u8>, width: u8, height: u8, pixels: Seq<(i32, i32, bool)>) -> Seq<u8>
    decreases pixels.len(),
{
    if pixels.len() == 0 {
        buf
    } else {
        let rest = apply_pixels(buf, width, height, pixels.drop_last());
        let p = pixels.last();
        if in_bounds(width, height, p.0 as int, p.1 as int) {
            spec_set_pixel(rest, width, p.0 as int, p.1 as int, p.2)
        } else {
            rest
        }
    }
}

/// The pin levels of one hard reset: high, low, high.
pub open spec fn reset_levels() -> Seq<PinLevel> {
    seq![PinLevel::High, PinLevel::Low, PinLevel::High]
}

/// The waits of one hard reset: at least 1 ms high, at least 10 us (50 us
/// as configured) low, at least 2 ms (1 ms plus the controller's own
/// start-up margin) settling after release.
pub open spec fn reset_waits() -> Seq<Wait> {
    seq![Wait::Ms(1), Wait::Us(50), Wait::Ms(1)]
}

/// The one-time configuration commands `init` writes before the
/// framebuffer is cleared, in order.
pub open spec fn config_writes(height: u8) -> Seq<BusWrite> {
    seq![
        command_write(Instruction::SetDisplayOff.spec_value()),
        command_write(Instruction::SetDisplayClockDivide.spec_value()),
        command_write(0x80),
        command_write(Instruction::SetMultiplexRatio.spec_value()),
        command_write((height - 1) as u8),
        command_write(Instruction::SetDisplayOffset.spec_value()),
        command_write(0x00),
        command_write(Instruction::SetDisplayStartLine.spec_value() | 0x00),
        command_write(Instruction::SetDcDcControl.spec_value()),
        command_write(0x8B),
        command_write(Instruction::SetPumpVoltage.spec_value() | 0x02),
        command_write(Instruction::SetSegmentRemap.spec_value() | 0x01),
        command_write(Instruction::SetCommonOutputScanDir.spec_value() | 0x08),
        command_write(Instruction::SetSegPadsHardwareConfig.spec_value()),
        command_write(Instruction::SetContrastControl.spec_value()),
        command_write(0x80),
        command_write(Instruction::SetPreChargePeriod.spec_value()),
        command_write(0x22),
        command_write(Instruction::SetVcomDeselectLevel.spec_value()),
        command_write(0x35),
    ]
}

/// The full bus traffic of one `init`: the configuration commands, a flush
/// of the zeroed framebuffer, then resume-from-RAM, normal display mode
/// and display on.
pub open spec fn init_writes(width: u8, height: u8, offset_x: u8) -> Seq<BusWrite> {
    config_writes(height) + flush_writes(width, height, offset_x, zero_frame(
        frame_len(width, height),
    )) + seq![
        command_write(Instruction::SetEntireDisplayResume.spec_value()),
        command_write(Instruction::SetDisplayNormal.spec_value()),
        command_write(Instruction::SetDisplayOn.spec_value()),
    ]
}

/// The CH1115 driver: owns the packed framebuffer and the bus and
/// reset-pin handles, bound to one panel geometry for its lifetime.
pub struct Ch1115<DI, RST, SIZE> {
    di: DI,
    rst: RST,
    size: SIZE,
    buffer: Vec<u8>,
}

impl<DI, RST, SIZE> Ch1115<DI, RST, SIZE> where
    DI: DisplayInterface,
    RST: ResetPin,
    SIZE: DisplaySize,
 {
    /// The panel geometry this driver was constructed with.
    pub closed spec fn size_desc(&self) -> SIZE {
        self.size
    }

    /// The bursts sent over the bus so far.
    pub closed spec fn bus_writes(&self) -> Seq<BusWrite> {
        self.di.writes()
    }

    /// The levels driven onto the reset line so far.
    pub closed spec fn pin_levels(&self) -> Seq<PinLevel> {
        self.rst.levels()
    }

    /// The framebuffer contents.
    pub closed spec fn frame(&self) -> Seq<u8> {
        self.buffer@
    }

    /// The framebuffer has exactly the length the geometry implies.
    pub closed spec fn wf(&self) -> bool {
        self.buffer@.len() == frame_len(self.size.spec_width(), self.size.spec_height())
    }

    /// Constructs a driver bound to `size`, taking ownership of the bus and
    /// reset-pin handles and allocating a zeroed framebuffer.
    pub fn new(interface: DI, reset: RST, size: SIZE) -> (r: Self)
        ensures
            r.wf(),
            r.size_desc() == size,
            r.bus_writes() == interface.writes(),
            r.pin_levels() == reset.levels(),
            r.frame() == zero_frame(frame_len(size.spec_width(), size.spec_height())),
    {
        let width = size.width();
        let height = size.height();
        proof {
            size.geometry_facts();
            assert((height as int / 8) * (width as int) <= 2040) by (nonlinear_arith)
                requires
                    height as int <= 64,
                    width as int <= 255,
            ;
        }
        let len: usize = ((height as usize) / 8) * (width as usize);
        let buffer = zero_buffer(len);
        Ch1115 { di: interface, rst: reset, size, buffer }
    }

    /// Sends one command byte over the bus, collapsing a transport failure
    /// into `Error::DisplayError`.
    fn write_command(&mut self, command: u8) -> (r: Result<(), Error<RST::PinError>>)
        ensures
            final(self).wf() == old(self).wf(),
            final(self).size_desc() == old(self).size_desc(),
            final(self).frame() == old(self).frame(),
            final(self).pin_levels() == old(self).pin_levels(),
            r is Ok ==> final(self).bus_writes() == old(self).bus_writes().push(
                command_write(command),
            ),
            r is Err ==> r->Err_0 is DisplayError,
    {
        let mut burst: Vec<u8> = Vec::new();
        burst.push(command);
        proof {
            assert(burst@ =~= seq![command]);
        }
        match self.di.send_commands(burst.as_slice()) {
            Ok(()) => Ok(()),
            Err(_) => Err(Error::DisplayError),
        }
    }

    /// Addresses page `page` (0..=7). Values above 7 are outside the
    /// controller's page range and are silently ignored.
    pub fn set_page(&mut self, page: u8) -> (r: Result<(), Error<RST::PinError>>)
        ensures
            final(self).wf() == old(self).wf(),
            final(self).size_desc() == old(self).size_desc(),
            final(self).frame() == old(self).frame(),
            final(self).pin_levels() == old(self).pin_levels(),
            page > 7 ==> r is Ok && final(self).bus_writes() == old(self).bus_writes(),
            page <= 7 && r is Ok ==> final(self).bus_writes() == old(self).bus_writes().push(
                command_write(Instruction::SetPageAddress.spec_value() | page),
            ),
            r is Err ==> r->Err_0 is DisplayError,
    {
        if page > 7 {
            return Ok(());
        }
        self.write_command(Instruction::SetPageAddress.value() | page)
    }

    /// Addresses column `column` (0..=127) by its two nibbles. Values above
    /// 127 are outside the controller's column range and are silently
    /// ignored.
    pub fn set_column_address(&mut self, column: u8) -> (r: Result<(), Error<RST::PinError>>)
        ensures
            final(self).wf() == old(self).wf(),
            final(self).size_desc() == old(self).size_desc(),
            final(self).frame() == old(self).frame(),
            final(self).pin_levels() == old(self).pin_levels(),
            column > 127 ==> r is Ok && final(self).bus_writes() == old(self).bus_writes(),
            column <= 127 && r is Ok ==> final(self).bus_writes() == old(self).bus_writes()
                + column_writes(column),
            r is Err ==> r->Err_0 is DisplayError,
    {
        if column > 127 {
            return Ok(());
        }
        let lower_nibble = column & 0x0F;
        let higher_nibble = (column >> 4) & 0x0F;
        match self.write_command(Instruction::SetLowerColumnAddress.value() | lower_nibble) {
            Ok(()) => {},
            Err(e) => {
                return Err(e);
            },
        }
        match self.write_command(Instruction::SetHigherColumnAddress.value() | higher_nibble) {
            Ok(()) => {},
            Err(e) => {
                return Err(e);
            },
        }
        proof {
            assert(self.bus_writes() =~= old(self).bus_writes() + column_writes(column));
        }
        Ok(())
    }

    /// Configures the controller's breathing-light effect: `on` enables it,
    /// `max_brightness` picks the brightness range it cycles over, and
    /// `frames` (1..=8) its period. A frame count of 0 or above 8 is
    /// outside the hardware's cycle range and is silently ignored.
    pub fn set_breathing_effect(
        &mut self,
        on: bool,
        max_brightness: MaxBrightness,
        frames: u8,
    ) -> (r: Result<(), Error<RST::PinError>>)
        ensures
            final(self).wf() == old(self).wf(),
            final(self).size_desc() == old(self).size_desc(),
            final(self).frame() == old(self).frame(),
            final(self).pin_levels() == old(self).pin_levels(),
            (frames == 0 || frames > 8) ==> r is Ok && final(self).bus_writes() == old(
                self,
            ).bus_writes(),
            (1 <= frames <= 8) && r is Ok ==> final(self).bus_writes() == old(self).bus_writes()
                + seq![
                command_write(Instruction::SetBreathingLight.spec_value()),
                command_write(breathing_byte(on, max_brightness, frames)),
            ],
            r is Err ==> r->Err_0 is DisplayError,
    {
        if frames == 0 || frames > 8 {
            return Ok(());
        }
        match self.write_command(Instruction::SetBreathingLight.value()) {
            Ok(()) => {},
            Err(e) => {
                return Err(e);
            },
        }
        let parameter: u8 = (if on {
            0x80u8
        } else {
            0u8
        }) | (max_brightness.value() << 3u8) | (frames - 1);
        match self.write_command(parameter) {
            Ok(()) => {},
            Err(e) => {
                return Err(e);
            },
        }
        proof {
            assert(self.bus_writes() =~= old(self).bus_writes() + seq![
                command_write(Instruction::SetBreathingLight.spec_value()),
                command_write(breathing_byte(on, max_brightness, frames)),
            ]);
        }
        Ok(())
    }

    /// Drives pixel `(x, y)` to `on` in the framebuffer. Off-canvas
    /// coordinates (negative, or at least the panel's width or height) are
    /// silently ignored; the buffer and the bus are left untouched. Nothing
    /// is sent: the change becomes visible on the next flush.
    pub fn set_pixel(&mut self, x: i32, y: i32, on: bool)
        requires
            old(self).wf(),
        ensures
            final(self).wf(),
            final(self).size_desc() == old(self).size_desc(),
            final(self).bus_writes() == old(self).bus_writes(),
            final(self).pin_levels() == old(self).pin_levels(),
            in_bounds(
                old(self).size_desc().spec_width(),
                old(self).size_desc().spec_height(),
                x as int,
                y as int,
            ) ==> final(self).frame() == spec_set_pixel(
                old(self).frame(),
                old(self).size_desc().spec_width(),
                x as int,
                y as int,
                on,
            ),
            !in_bounds(
                old(self).size_desc().spec_width(),
                old(self).size_desc().spec_height(),
                x as int,
                y as int,
            ) ==> final(self).frame() == old(self).frame(),
    {
        let width = self.size.width();
        let height = self.size.height();
        if x < 0 || y < 0 || x >= width as i32 || y >= height as i32 {
            return ;
        }
        proof {
            self.size.geometry_facts();
            lemma_pixel_index_in_range(width, height, x as int, y as int);
            assert(((y as int) / 8) * (width as int) <= 1785) by (nonlinear_arith)
                requires
                    0 <= (y as int) && (y as int) < 64,
                    0 <= (width as int) && (width as int) <= 255,
            ;
        }
        let xu = x as usize;
        let yu = y as usize;
        let byte_index: usize = xu + (yu / 8) * (width as usize);
        let bit: u8 = (yu % 8) as u8;
        let mask: u8 = 1u8 << bit;
        let byte = self.buffer[byte_index];
        if on {
            self.buffer[byte_index] = byte | mask;
        } else {
            self.buffer[byte_index] = byte & !mask;
        }
    }

    /// Reads pixel `(x, y)` back through the inverse of the mapping.
    /// Off-canvas coordinates read as off.
    pub fn get_pixel(&self, x: i32, y: i32) -> (r: bool)
        requires
            self.wf(),
        ensures
            in_bounds(
                self.size_desc().spec_width(),
                self.size_desc().spec_height(),
                x as int,
                y as int,
            ) ==> r == spec_pixel(
                self.frame(),
                self.size_desc().spec_width(),
                x as int,
                y as int,
            ),
            !in_bounds(
                self.size_desc().spec_width(),
                self.size_desc().spec_height(),
                x as int,
                y as int,
            ) ==> r == false,
    {
        let width = self.size.width();
        let height = self.size.height();
        if x < 0 || y < 0 || x >= width as i32 || y >= height as i32 {
            return false;
        }
        proof {
            self.size.geometry_facts();
            lemma_pixel_index_in_range(width, height, x as int, y as int);
            assert(((y as int) / 8) * (width as int) <= 1785) by (nonlinear_arith)
                requires
                    0 <= (y as int) && (y as int) < 64,
                    0 <= (width as int) && (width as int) <= 255,
            ;
        }
        let xu = x as usize;
        let yu = y as usize;
        let byte_index: usize = xu + (yu / 8) * (width as usize);
        let bit: u8 = (yu % 8) as u8;
        let mask: u8 = 1u8 << bit;
        (self.buffer[byte_index] & mask) != 0u8
    }

    /// Applies a batch of `(x, y, on)` pixel writes in order, as
    /// [`Ch1115::set_pixel`] would one by one: off-canvas entries are
    /// silently skipped, and every entry's effect is applied before the
    /// call returns. Nothing is sent over the bus.
    pub fn draw_pixels(&mut self, pixels: &[(i32, i32, bool)])
        requires
            old(self).wf(),
        ensures
            final(self).wf(),
            final(self).size_desc() == old(self).size_desc(),
            final(self).bus_writes() == old(self).bus_writes(),
            final(self).pin_levels() == old(self).pin_levels(),
            final(self).frame() == apply_pixels(
                old(self).frame(),
                old(self).size_desc().spec_width(),
                old(self).size_desc().spec_height(),
                pixels@,
            ),
    {
        let mut k: usize = 0;
        while k < pixels.len()
            invariant
                self.wf(),
                self.size_desc() == old(self).size_desc(),
                self.bus_writes() == old(self).bus_writes(),
                self.pin_levels() == old(self).pin_levels(),
                k <= pixels@.len(),
                self.frame() == apply_pixels(
                    old(self).frame(),
                    old(self).size_desc().spec_width(),
                    old(self).size_desc().spec_height(),
                    pixels@.take(k as int),
                ),
            decreases pixels@.len() - k,
        {
            let (x, y, on) = pixels[k];
            self.set_pixel(x, y, on);
            proof {
                assert(pixels@.take(k as int + 1).drop_last() =~= pixels@.take(k as int));
                assert(pixels@.take(k as int + 1).last() == pixels@[k as int]);
            }
            k = k + 1;
        }
        proof {
            assert(pixels@.take(pixels@.len() as int) =~= pixels@);
        }
    }

    /// Transfers the framebuffer to the controller, page by page: for each
    /// page in increasing order, the page address, the column-address pair
    /// for the geometry's column offset, then the page's `width` bytes as
    /// one data burst. Each page needs its own addressing commands because
    /// the controller auto-increments the column within a page only.
    pub fn flush(&mut self) -> (r: Result<(), Error<RST::PinError>>)
        requires
            old(self).wf(),
        ensures
            final(self).wf(),
            final(self).size_desc() == old(self).size_desc(),
            final(self).frame() == old(self).frame(),
            final(self).pin_levels() == old(self).pin_levels(),
            r is Ok ==> final(self).bus_writes() == old(self).bus_writes() + flush_writes(
                old(self).size_desc().spec_width(),
                old(self).size_desc().spec_height(),
                old(self).size_desc().spec_offset_x(),
                old(self).frame(),
            ),
            r is Err ==> r->Err_0 is DisplayError,
    {
        proof {
            self.size.geometry_facts();
        }
        let width = self.size.width();
        let height = self.size.height();
        let offset_x = self.size.offset_x();
        let pages = height / 8;
        let ghost frame0 = self.frame();
        let mut page: u8 = 0;
        while page < pages
            invariant
                self.wf(),
                self.size_desc() == old(self).size_desc(),
                self.frame() == frame0,
                frame0 == old(self).frame(),
                self.pin_levels() == old(self).pin_levels(),
                width == self.size_desc().spec_width(),
                height == self.size_desc().spec_height(),
                offset_x == self.size_desc().spec_offset_x(),
                offset_x <= 127,
                pages == height / 8,
                pages <= 8,
                page <= pages,
                self.bus_writes() == old(self).bus_writes() + flush_writes_up_to(
                    width,
                    offset_x,
                    frame0,
                    page as int,
                ),
            decreases pages - page,
        {
            match self.set_page(page) {
                Ok(()) => {},
                Err(e) => {
                    return Err(e);
                },
            }
            match self.set_column_address(offset_x) {
                Ok(()) => {},
                Err(e) => {
                    return Err(e);
                },
            }
            proof {
                lemma_mul_inequality(page as int + 1, pages as int, width as int);
                assert((page as int) * (width as int) + (width as int) == (page as int + 1) * (
                width as int)) by (nonlinear_arith);
                assert((page as int) * (width as int) <= 1785) by (nonlinear_arith)
                    requires
                        0 <= (page as int) && (page as int) <= 7,
                        0 <= (width as int) && (width as int) <= 255,
                ;
            }
            let start: usize = (page as usize) * (width as usize);
            let end: usize = start + (width as usize);
            let data = slice_subrange(self.buffer.as_slice(), start, end);
            match self.di.send_data(data) {
                Ok(()) => {},
                Err(_) => {
                    return Err(Error::<RST::PinError>::DisplayError);
                },
            }
            proof {
                assert(self.bus_writes() =~= old(self).bus_writes() + flush_writes_up_to(
                    width,
                    offset_x,
                    frame0,
                    page as int + 1,
                ));
            }
            page = page + 1;
        }
        Ok(())
    }

    /// Zeroes the framebuffer (every pixel off) and flushes it. The buffer
    /// is zeroed even when the flush fails; the panel shows the blank image
    /// only once a flush succeeds.
    pub fn clear(&mut self) -> (r: Result<(), Error<RST::PinError>>)
        requires
            old(self).wf(),
        ensures
            final(self).wf(),
            final(self).size_desc() == old(self).size_desc(),
            final(self).pin_levels() == old(self).pin_levels(),
            final(self).frame() == zero_frame(
                frame_len(
                    old(self).size_desc().spec_width(),
                    old(self).size_desc().spec_height(),
                ),
            ),
            r is Ok ==> final(self).bus_writes() == old(self).bus_writes() + flush_writes(
                old(self).size_desc().spec_width(),
                old(self).size_desc().spec_height(),
                old(self).size_desc().spec_offset_x(),
                zero_frame(
                    frame_len(
                        old(self).size_desc().spec_width(),
                        old(self).size_desc().spec_height(),
                    ),
                ),
            ),
            r is Err ==> r->Err_0 is DisplayError,
    {
        let len = self.buffer.len();
        self.buffer = zero_buffer(len);
        self.flush()
    }

    /// Pulses the reset line: high, a wait of at least 1 ms, low, a wait of
    /// at least 10 us (50 us as configured), then high again followed by a
    /// settling wait. The low pulse's minimum width is a hardware timing
    /// requirement. Fails only if a pin drive fails, as `Error::Pin`.
    pub fn hard_reset<D: DelaySource>(&mut self, delay_source: &mut D) -> (r: Result<
        (),
        Error<RST::PinError>,
    >)
        ensures
            final(self).wf() == old(self).wf(),
            final(self).size_desc() == old(self).size_desc(),
            final(self).frame() == old(self).frame(),
            final(self).bus_writes() == old(self).bus_writes(),
            r is Ok ==> final(self).pin_levels() == old(self).pin_levels() + reset_levels(),
            r is Ok ==> final(delay_source).waits() == old(delay_source).waits() + reset_waits(),
            r is Err ==> r->Err_0 is Pin,
    {
        match self.rst.set_high() {
            Ok(()) => {},
            Err(e) => {
                return Err(Error::Pin(e));
            },
        }
        delay_source.delay_ms(1);
        match self.rst.set_low() {
            Ok(()) => {},
            Err(e) => {
                return Err(Error::Pin(e));
            },
        }
        delay_source.delay_us(50);
        match self.rst.set_high() {
            Ok(()) => {},
            Err(e) => {
                return Err(Error::Pin(e));
            },
        }
        delay_source.delay_ms(1);
        proof {
            assert(self.pin_levels() =~= old(self).pin_levels() + reset_levels());
            assert(delay_source.waits() =~= old(delay_source).waits() + reset_waits());
        }
        Ok(())
    }

    /// Brings the controller from power-on to a known displaying state: a
    /// hard reset, then the one-time configuration commands in strict
    /// order, a clear and flush of the framebuffer (so the panel shows a
    /// blank image rather than power-on RAM noise), and only then display
    /// on. Any single failure aborts the sequence and surfaces immediately;
    /// the caller must reattempt the whole sequence.
    pub fn init<D: DelaySource>(&mut self, delay_source: &mut D) -> (r: Result<
        (),
        Error<RST::PinError>,
    >)
        requires
            old(self).wf(),
        ensures
            final(self).wf(),
            final(self).size_desc() == old(self).size_desc(),
            r is Ok ==> final(self).pin_levels() == old(self).pin_levels() + reset_levels(),
            r is Ok ==> final(delay_source).waits() == old(delay_source).waits() + reset_waits(),
            r is Ok ==> final(self).frame() == zero_frame(
                frame_len(
                    old(self).size_desc().spec_width(),
                    old(self).size_desc().spec_height(),
                ),
            ),
            r is Ok ==> final(self).bus_writes() == old(self).bus_writes() + init_writes(
                old(self).size_desc().spec_width(),
                old(self).size_desc().spec_height(),
                old(self).size_desc().spec_offset_x(),
            ),
    {
        proof {
            self.size.geometry_facts();
        }
        let height = self.size.height();
        match self.hard_reset(delay_source) {
            Ok(()) => {},
            Err(e) => {
                return Err(e);
            },
        }
        match self.write_command(Instruction::SetDisplayOff.value()) {
            Ok(()) => {},
            Err(e) => {
                return Err(e);
            },
        }
        match self.write_command(Instruction::SetDisplayClockDivide.value()) {
            Ok(()) => {},
            Err(e) => {
                return Err(e);
            },
        }
        match self.write_command(0x80) {
            Ok(()) => {},
            Err(e) => {
                return Err(e);
            },
        }
        match self.write_command(Instruction::SetMultiplexRatio.value()) {
            Ok(()) => {},
            Err(e) => {
                return Err(e);
            },
        }
        match self.write_command(height - 1) {
            Ok(()) => {},
            Err(e) => {
                return Err(e);
            },
        }
        match self.write_command(Instruction::SetDisplayOffset.value()) {
            Ok(()) => {},
            Err(e) => {
                return Err(e);
            },
        }
        match self.write_command(0x00) {
            Ok(()) => {},
            Err(e) => {
                return Err(e);
            },
        }
        match self.write_command(Instruction::SetDisplayStartLine.value() | 0x00) {
            Ok(()) => {},
            Err(e) => {
                return Err(e);
            },
        }
        match self.write_command(Instruction::SetDcDcControl.value()) {
            Ok(()) => {},
            Err(e) => {
                return Err(e);
            },
        }
        match self.write_command(0x8B) {
            Ok(()) => {},
            Err(e) => {
                return Err(e);
            },
        }
        match self.write_command(Instruction::SetPumpVoltage.value() | 0x02) {
            Ok(()) => {},
            Err(e) => {
                return Err(e);
            },
        }
        match self.write_command(Instruction::SetSegmentRemap.value() | 0x01) {
            Ok(()) => {},
            Err(e) => {
                return Err(e);
            },
        }
        match self.write_command(Instruction::SetCommonOutputScanDir.value() | 0x08) {
            Ok(()) => {},
            Err(e) => {
                return Err(e);
            },
        }
        match self.write_command(Instruction::SetSegPadsHardwareConfig.value()) {
            Ok(()) => {},
            Err(e) => {
                return Err(e);
            },
        }
        match self.write_command(Instruction::SetContrastControl.value()) {
            Ok(()) => {},
            Err(e) => {
                return Err(e);
            },
        }
        match self.write_command(0x80) {
            Ok(()) => {},
            Err(e) => {
                return Err(e);
            },
        }
        match self.write_command(Instruction::SetPreChargePeriod.value()) {
            Ok(()) => {},
            Err(e) => {
                return Err(e);
            },
        }
        match self.write_command(0x22) {
            Ok(()) => {},
            Err(e) => {
                return Err(e);
            },
        }
        match self.write_command(Instruction::SetVcomDeselectLevel.value()) {
            Ok(()) => {},
            Err(e) => {
                return Err(e);
            },
        }
        match self.write_command(0x35) {
            Ok(()) => {},
            Err(e) => {
                return Err(e);
            },
        }
        proof {
            assert(self.bus_writes() =~= old(self).bus_writes() + config_writes(height));
        }
        match self.clear() {
            Ok(()) => {},
            Err(e) => {
                return Err(e);
            },
        }
        match self.write_command(Instruction::SetEntireDisplayResume.value()) {
            Ok(()) => {},
            Err(e) => {
                return Err(e);
            },
        }
        match self.write_command(Instruction::SetDisplayNormal.value()) {
            Ok(()) => {},
            Err(e) => {
                return Err(e);
            },
        }
        match self.write_command(Instruction::SetDisplayOn.value()) {
            Ok(()) => {},
            Err(e) => {
                return Err(e);
            },
        }
        proof {
            assert(self.bus_writes() =~= old(self).bus_writes() + init_writes(
                old(self).size_desc().spec_width(),
                old(self).size_desc().spec_height(),
                old(self).size_desc().spec_offset_x(),
            ));
        }
        Ok(())
    }
}

} // verus!
