//! The engine's side of a frame: the callbacks a front end provides, and the
//! conversion of the engine's screen buffer into texture bytes.

use vstd::prelude::*;
use crate::input::KeyData;

verus! {

/// What a front end provides to the engine: it shows frames, hands over key
/// events and names the window.
pub trait Doom {
    /// Shows a frame of `xres` by `yres` pixels, one ARGB word each.
    fn draw_frame(&mut self, screen_buffer: &[u32], xres: usize, yres: usize);

    /// The next key event, if one is waiting.
    fn get_key(&mut self) -> Option<KeyData>;

    /// Sets the window's title.
    fn set_window_title(&mut self, title: &str);
}

/// The four texture bytes (red, green, blue, alpha) of an engine pixel. The
/// engine's top byte counts transparency, so the alpha is its complement.
pub open spec fn rgba_of_argb(v: u32) -> Seq<u8> {
    seq![
        ((v >> 16u32) & 0xffu32) as u8,
        ((v >> 8u32) & 0xffu32) as u8,
        (v & 0xffu32) as u8,
        (255 - ((v >> 24u32) & 0xffu32)) as u8,
    ]
}

/// Converts the engine's ARGB screen buffer into RGBA texture bytes, four
/// per pixel in the same order.
pub fn argb_to_rgba(screen_buffer: &[u32]) -> (r: Vec<u8>)
    ensures
        r@.len() == 4 * screen_buffer@.len(),
        forall|i: int|
            0 <= i < screen_buffer@.len() ==> #[trigger] r@.subrange(4 * i, 4 * i + 4) == rgba_of_argb(
                screen_buffer@[i],
            ),
{
    let mut out: Vec<u8> = Vec::new();
    let mut i: usize = 0;
    while i < screen_buffer.len()
        invariant
            i <= screen_buffer@.len(),
            out@.len() == 4 * i,
            forall|j: int| 0 <= j < i ==> #[trigger] out@.subrange(4 * j, 4 * j + 4) == rgba_of_argb(screen_buffer@[j]),
        decreases screen_buffer@.len() - i,
    {
        let argb = screen_buffer[i];
        let alpha = (argb >> 24) & 0xff;
        assert(alpha <= 255) by (bit_vector)
            requires
                alpha == (argb >> 24u32) & 0xffu32,
        ;
        let ghost before = out@;
        out.push(((argb >> 16) & 0xff) as u8);
        out.push(((argb >> 8) & 0xff) as u8);
        out.push((argb & 0xff) as u8);
        out.push((255 - alpha) as u8);
        assert forall|j: int| 0 <= j < i + 1 implies #[trigger] out@.subrange(4 * j, 4 * j + 4) == rgba_of_argb(
            screen_buffer@[j],
        ) by {
            if j < i {
                assert(out@.subrange(4 * j, 4 * j + 4) =~= before.subrange(4 * j, 4 * j + 4));
            } else {
                assert(out@.subrange(4 * j, 4 * j + 4) =~= rgba_of_argb(screen_buffer@[j]));
            }
        }
        i = i + 1;
    }
    out
}

} // verus!
