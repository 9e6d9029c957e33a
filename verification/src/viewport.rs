//! The viewport: the window of the screen through which a buffer is seen.

use vstd::prelude::*;
use crate::buffer::Buffer;

verus! {

/// A window on a buffer: where it starts and how large it is.
pub struct Viewport {
    pub buffer: Option<Box<Buffer>>,
    pub top: u16,
    pub left: u16,
    pub width: u16,
    pub height: u16,
}

impl Viewport {
    /// A viewport of `size` columns and rows at the start of the text, with
    /// no buffer behind it yet.
    pub fn new(size: (u16, u16)) -> (viewport: Viewport)
        ensures
            viewport.buffer is None,
            viewport.top == 0,
            viewport.left == 0,
            viewport.width == size.0,
            viewport.height == size.1,
    {
        Viewport { buffer: None, top: 0, left: 0, width: size.0, height: size.1 }
    }

    /// Puts `buf` behind the viewport. Its place and size stay.
    pub fn init_buffer(&mut self, buf: Box<Buffer>)
        ensures
            final(self).buffer == Some(buf),
            final(self).top == old(self).top,
            final(self).left == old(self).left,
            final(self).width == old(self).width,
            final(self).height == old(self).height,
    {
        self.buffer = Some(buf);
    }
}

} // verus!
