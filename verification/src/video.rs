use vstd::prelude::*;
use crate::FRAME_BUFFER_LENGTH;

verus! {

/// One pixel in the host-negotiated layout: red, green and blue channels of
/// the engine's native representation placed into the three low bytes of a
/// 32-bit word, high byte zero. A straight per-channel copy, no conversion.
pub open spec fn spec_xrgb(r: u8, g: u8, b: u8) -> int {
    r * 0x1_0000 + g * 0x100 + b
}

pub fn xrgb_pixel(r: u8, g: u8, b: u8) -> (px: u32)
    ensures
        px == spec_xrgb(r, g, b),
{
    (r as u32) * 0x1_0000 + (g as u32) * 0x100 + (b as u32)
}

/// Overwrite the whole fixed-capacity frame buffer from the engine's native
/// frame: a flat sequence of three bytes per pixel in red, green, blue order.
/// Every pixel is rewritten on every call; the buffer is never resized.
pub fn blit(rgb: &Vec<u8>, frame_buffer: &mut Vec<u32>)
    requires
        rgb@.len() == 3 * FRAME_BUFFER_LENGTH,
        old(frame_buffer)@.len() == FRAME_BUFFER_LENGTH,
    ensures
        final(frame_buffer)@.len() == FRAME_BUFFER_LENGTH,
        forall|i: int| 0 <= i < FRAME_BUFFER_LENGTH ==> final(frame_buffer)@[i]
            == spec_xrgb(rgb@[3 * i], rgb@[3 * i + 1], rgb@[3 * i + 2]),
{
    let mut i: usize = 0;
    while i < FRAME_BUFFER_LENGTH
        invariant
            rgb@.len() == 3 * FRAME_BUFFER_LENGTH,
            frame_buffer@.len() == FRAME_BUFFER_LENGTH,
            i <= FRAME_BUFFER_LENGTH,
            forall|k: int| 0 <= k < i ==> frame_buffer@[k]
                == spec_xrgb(rgb@[3 * k], rgb@[3 * k + 1], rgb@[3 * k + 2]),
        decreases FRAME_BUFFER_LENGTH - i,
    {
        let px = xrgb_pixel(rgb[3 * i], rgb[3 * i + 1], rgb[3 * i + 2]);
        frame_buffer.set(i, px);
        i = i + 1;
    }
}

} // verus!
