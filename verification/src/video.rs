//! Video sink: an off-screen frame buffer of packed RGB pixels.
//!
//! The emulation core writes one pixel at a time during scan-out; once a
//! frame is complete, the whole buffer is handed to the display subsystem.
//! The hardware resolution is fixed, so the buffer size never changes.
//! Writes outside the visible area are ignored, so the sink stays
//! well-defined even against a misbehaving core.

use vstd::prelude::*;

verus! {

/// Width of the emulated display, in pixels.
pub const FRAME_WIDTH: usize = 160;

/// Height of the emulated display, in pixels.
pub const FRAME_HEIGHT: usize = 144;

/// Packed RGB value every pixel starts out as (white).
pub const INITIAL_PIXEL: u32 = 0xFFFF_FFFF;

/// True when `(x, y)` addresses a pixel of the visible frame.
pub open spec fn pixel_in_bounds(x: int, y: int) -> bool {
    0 <= x < FRAME_WIDTH && 0 <= y < FRAME_HEIGHT
}

/// Row-major index of pixel `(x, y)`.
pub open spec fn pixel_index(x: int, y: int) -> int {
    x + y * FRAME_WIDTH
}

/// A fixed-size grid of `FRAME_WIDTH x FRAME_HEIGHT` packed RGB pixels,
/// indexed row-major. Exactly one writable instance exists at a time; the
/// core writes into it through `write_pixel` and the display reads it out
/// through `pixels` when a frame is presented.
pub struct FrameBuffer {
    pixels: Vec<u32>,
}

impl View for FrameBuffer {
    type V = Seq<u32>;

    closed spec fn view(&self) -> Seq<u32> {
        self.pixels@
    }
}

impl FrameBuffer {
    /// The buffer always holds exactly one value per visible pixel.
    pub open spec fn wf(&self) -> bool {
        self@.len() == FRAME_WIDTH * FRAME_HEIGHT
    }

    /// A fresh frame buffer, every pixel set to the initial color.
    pub fn new() -> (r: Self)
        ensures
            r.wf(),
            forall|i: int| 0 <= i < r@.len() ==> r@[i] == INITIAL_PIXEL,
    {
        let mut pixels: Vec<u32> = Vec::new();
        let total: usize = FRAME_WIDTH * FRAME_HEIGHT;
        let mut i: usize = 0;
        while i < total
            invariant
                i <= total,
                pixels@.len() == i,
                forall|j: int| 0 <= j < i ==> pixels@[j] == INITIAL_PIXEL,
            decreases total - i,
        {
            pixels.push(INITIAL_PIXEL);
            i = i + 1;
        }
        FrameBuffer { pixels }
    }

    /// Record one pixel write from the core. In-bounds writes update exactly
    /// the addressed pixel; out-of-bounds writes (possible only from a
    /// misbehaving core) are ignored, leaving the frame unchanged.
    pub fn write_pixel(&mut self, color: u32, x: u8, y: u8)
        requires
            old(self).wf(),
        ensures
            final(self).wf(),
            pixel_in_bounds(x as int, y as int) ==> final(self)@
                == old(self)@.update(pixel_index(x as int, y as int), color),
            !pixel_in_bounds(x as int, y as int) ==> final(self)@ == old(self)@,
    {
        if (x as usize) < FRAME_WIDTH && (y as usize) < FRAME_HEIGHT {
            let i: usize = x as usize + y as usize * FRAME_WIDTH;
            self.pixels.set(i, color);
        }
    }

    /// The pixel currently stored at `(x, y)`.
    pub fn pixel_at(&self, x: u8, y: u8) -> (r: u32)
        requires
            self.wf(),
            pixel_in_bounds(x as int, y as int),
        ensures
            r == self@[pixel_index(x as int, y as int)],
    {
        let i: usize = x as usize + y as usize * FRAME_WIDTH;
        self.pixels[i]
    }

    /// The completed frame, handed out for presentation. The display
    /// subsystem reads it; it is exactly the sequence of recorded writes.
    pub fn pixels(&self) -> (r: &Vec<u32>)
        ensures
            r@ == self@,
    {
        &self.pixels
    }
}

} // verus!
