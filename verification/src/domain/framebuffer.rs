//! The RGB888 output image, 160x144 pixels, three bytes per pixel, row by row.
use vstd::prelude::*;

verus! {

pub const FRAME_WIDTH: usize = 160;
pub const FRAME_HEIGHT: usize = 144;
pub const FRAME_CHANNELS: usize = 3;
pub const FRAME_SIZE: usize = 69120;

#[derive(Debug, Clone)]
pub struct Framebuffer {
    pub pixels: Vec<u8>,
}

impl Framebuffer {
    pub open spec fn wf(&self) -> bool {
        self.pixels@.len() == FRAME_SIZE
    }

    /// A black frame.
    pub fn new() -> (f: Self)
        ensures
            f.wf(),
            f.pixels@ == Seq::new(FRAME_SIZE as nat, |i: int| 0u8),
    {
        let mut pixels: Vec<u8> = Vec::new();
        let mut i: usize = 0;
        while i < FRAME_SIZE
            invariant
                i <= FRAME_SIZE,
                pixels@ == Seq::new(i as nat, |k: int| 0u8),
            decreases FRAME_SIZE - i,
        {
            pixels.push(0);
            i = i + 1;
            assert(pixels@ =~= Seq::new(i as nat, |k: int| 0u8));
        }
        Framebuffer { pixels }
    }

    pub fn as_slice(&self) -> (r: &[u8])
        ensures r@ == self.pixels@,
    {
        self.pixels.as_slice()
    }

    pub fn as_mut_slice(&mut self) -> (r: &mut [u8])
        ensures
            r@ == old(self).pixels@,
            final(self).pixels@ == final(r)@,
    {
        self.pixels.as_mut_slice()
    }

    pub fn len(&self) -> (r: usize)
        ensures r == self.pixels@.len(),
    {
        self.pixels.len()
    }
}

} // verus!
