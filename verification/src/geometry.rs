//! Panel geometry: one implementation of [`DisplaySize`] per supported
//! physical panel variant.

use vstd::prelude::*;

verus! {

/// A compile-time-fixed description of one panel variant: pixel width and
/// height, and the offsets of the visible area within the controller's
/// addressable RAM.
///
/// `geometry_facts` records the limits the controller imposes on any
/// variant: the height is a whole number of 8-pixel pages, at most 8 pages
/// exist, and the column offset stays inside the 7-bit column address
/// space. Every implementation must prove them.
pub trait DisplaySize: Sized {
    /// The panel's width in pixels.
    spec fn spec_width(&self) -> u8;

    /// The panel's height in pixels.
    spec fn spec_height(&self) -> u8;

    /// The column offset of the visible area within the controller's RAM.
    spec fn spec_offset_x(&self) -> u8;

    /// The row offset of the visible area within the controller's RAM.
    spec fn spec_offset_y(&self) -> u8;

    /// The controller's limits, which every panel variant satisfies.
    proof fn geometry_facts(&self)
        ensures
            0 < self.spec_width(),
            0 < self.spec_height(),
            self.spec_height() <= 64,
            self.spec_height() % 8 == 0,
            self.spec_offset_x() <= 127,
    ;

    /// Returns the panel's width in pixels.
    fn width(&self) -> (r: u8)
        ensures
            r == self.spec_width(),
    ;

    /// Returns the panel's height in pixels.
    fn height(&self) -> (r: u8)
        ensures
            r == self.spec_height(),
    ;

    /// Returns the column offset of the visible area.
    fn offset_x(&self) -> (r: u8)
        ensures
            r == self.spec_offset_x(),
    ;

    /// Returns the row offset of the visible area.
    fn offset_y(&self) -> (r: u8)
        ensures
            r == self.spec_offset_y(),
    ;
}

/// The framebuffer length a panel geometry implies: one bit per pixel,
/// eight vertical pixels per byte.
pub open spec fn buffer_len<S: DisplaySize>(size: &S) -> int {
    size.spec_width() * size.spec_height() / 8
}

/// The full-size 128x64 panel; its framebuffer holds 1024 bytes.
pub struct Size128x64;

impl DisplaySize for Size128x64 {
    open spec fn spec_width(&self) -> u8 {
        128
    }

    open spec fn spec_height(&self) -> u8 {
        64
    }

    open spec fn spec_offset_x(&self) -> u8 {
        0
    }

    open spec fn spec_offset_y(&self) -> u8 {
        0
    }

    proof fn geometry_facts(&self) {
    }

    fn width(&self) -> u8 {
        128
    }

    fn height(&self) -> u8 {
        64
    }

    fn offset_x(&self) -> u8 {
        0
    }

    fn offset_y(&self) -> u8 {
        0
    }
}

/// The 88x48 panel, whose visible area is inset 20 columns into a wider
/// native addressing space; its framebuffer holds 528 bytes.
pub struct Size88x48;

impl DisplaySize for Size88x48 {
    open spec fn spec_width(&self) -> u8 {
        88
    }

    open spec fn spec_height(&self) -> u8 {
        48
    }

    open spec fn spec_offset_x(&self) -> u8 {
        20
    }

    open spec fn spec_offset_y(&self) -> u8 {
        0
    }

    proof fn geometry_facts(&self) {
    }

    fn width(&self) -> u8 {
        88
    }

    fn height(&self) -> u8 {
        48
    }

    fn offset_x(&self) -> u8 {
        20
    }

    fn offset_y(&self) -> u8 {
        0
    }
}

} // verus!
