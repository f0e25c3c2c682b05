//! The picture that the video RAM holds: 224 lines of 256 pixels, one bit
//! each, with the tint that the cabinet's overlay gives each line.

use vstd::prelude::*;

verus! {

/// The number of pixels in a line.
pub const SCREEN_WIDTH: usize = 256;

/// The number of lines.
pub const SCREEN_HEIGHT: usize = 224;

/// The number of bytes of video RAM.
pub const VRAM_SIZE: usize = 7168;

/// The colour of a pixel on the screen.
#[derive(Clone, Copy, Debug, PartialEq, Eq, Structural)]
pub enum Tint {
    Black,
    White,
    Green,
    Red,
}

/// Whether the pixel at column `x` of line `y` is lit: bit `x mod 8` of the
/// byte `32 * y + x / 8`.
pub open spec fn lit(vram: Seq<u8>, x: int, y: int) -> bool {
    (vram[y * 32 + x / 8] >> ((x % 8) as u8)) & 1 == 1
}

/// The colour of a pixel on line `y`: black when it is not lit, else green
/// on the lines below 80, red on the lines above 200 up to 220, and white on
/// the others.
pub open spec fn tinted(lit: bool, y: int) -> Tint {
    if !lit {
        Tint::Black
    } else if y < 80 {
        Tint::Green
    } else if 200 < y <= 220 {
        Tint::Red
    } else {
        Tint::White
    }
}

/// Whether the pixel at column `x` of line `y` is lit.
pub fn pixel(vram: &[u8; 7168], x: usize, y: usize) -> (r: bool)
    requires
        x < 256,
        y < 224,
    ensures
        r == lit(vram@, x as int, y as int),
{
    let byte = vram[y * 32 + x / 8];
    (byte >> ((x % 8) as u8)) & 1 == 1
}

/// The colour of a pixel on line `y`.
pub fn tint(lit: bool, y: usize) -> (r: Tint)
    ensures
        r == tinted(lit, y as int),
{
    if !lit {
        Tint::Black
    } else if y < 80 {
        Tint::Green
    } else if 200 < y && y <= 220 {
        Tint::Red
    } else {
        Tint::White
    }
}

/// The whole picture, line by line: the pixel at column `x` of line `y`
/// stands at index `256 * y + x`.
pub fn render(vram: &[u8; 7168]) -> (frame: Vec<Tint>)
    ensures
        frame@.len() == 256 * 224,
        forall|x: int, y: int|
            0 <= x < 256 && 0 <= y < 224 ==> #[trigger] frame@[y * 256 + x] == tinted(
                lit(vram@, x, y),
                y,
            ),
{
    let mut frame: Vec<Tint> = Vec::new();
    let mut y: usize = 0;
    while y < 224
        invariant
            y <= 224,
            frame@.len() == y * 256,
            forall|i: int|
                0 <= i < y * 256 ==> #[trigger] frame@[i] == tinted(
                    lit(vram@, i % 256, i / 256),
                    i / 256,
                ),
        decreases 224 - y,
    {
        let mut x: usize = 0;
        while x < 256
            invariant
                y < 224,
                x <= 256,
                frame@.len() == y * 256 + x,
                forall|i: int|
                    0 <= i < y * 256 + x ==> #[trigger] frame@[i] == tinted(
                        lit(vram@, i % 256, i / 256),
                        i / 256,
                    ),
            decreases 256 - x,
        {
            let on = pixel(vram, x, y);
            frame.push(tint(on, y));
            x += 1;
        }
        y += 1;
    }
    assert forall|x: int, y: int| 0 <= x < 256 && 0 <= y < 224 implies #[trigger] frame@[y * 256
        + x] == tinted(lit(vram@, x, y), y) by {
        let i = y * 256 + x;
        assert(i % 256 == x && i / 256 == y);
    }
    frame
}

} // verus!
