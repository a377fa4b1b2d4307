//! Where finished pictures go.
pub mod nop;

use vstd::prelude::*;

verus! {

/// A sink for the PPU's output: rows or whole frames of 4-byte pixels.
pub trait Renderer {
    fn draw_line(&mut self, line: &[u8], row: u32);

    fn draw_frame(&mut self, buf: &[u8]);
}

} // verus!
