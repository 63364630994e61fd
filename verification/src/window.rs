use vstd::prelude::*;

verus! {

/// Size of the window, in pixels.
#[derive(Debug, Copy, Clone)]
pub struct WindowDim {
    pub width: u32,
    pub height: u32,
}

impl WindowDim {
    pub fn new(width: u32, height: u32) -> (r: Self)
        ensures
            r.width == width,
            r.height == height,
    {
        Self { width, height }
    }

    pub fn resize(&mut self, width: u32, height: u32)
        ensures
            final(self).width == width,
            final(self).height == height,
    {
        self.width = width;
        self.height = height;
    }
}

} // verus!
