//! The frame: which pixel each traced colour belongs to, and the bytes that
//! are uploaded to the screen texture.
use vstd::prelude::*;

verus! {

/// An 8-bit-per-channel colour, laid out red, green, blue, alpha.
#[derive(Debug, Clone, Copy, PartialEq, Eq, Structural)]
pub struct Rgba {
    pub r: u8,
    pub g: u8,
    pub b: u8,
    pub a: u8,
}

/// The number of pixels of a `width` by `height` frame; a frame with a side
/// that is not positive has none.
pub open spec fn pixel_count(width: i32, height: i32) -> int {
    if width <= 0 || height <= 0 { 0 } else { height * width }
}

/// The coordinates `(x, y)` of every pixel of a `width` by `height` frame, in
/// the order in which the frame's colours are stored: row by row from the
/// top (`y == 0`), each row from the left (`x == 0`).
pub fn pixel_grid(width: i32, height: i32) -> (v: Vec<(i32, i32)>)
    requires
        pixel_count(width, height) <= usize::MAX,
    ensures
        v.len() == pixel_count(width, height),
        forall|x: int, y: int|
            0 <= x < width && 0 <= y < height ==> #[trigger] v@[y * width + x] == (x as i32, y as i32),
{
    let mut v: Vec<(i32, i32)> = Vec::new();
    if width <= 0 || height <= 0 {
        return v;
    }
    let mut y: i32 = 0;
    while y < height
        invariant
            0 < width,
            0 <= y <= height,
            pixel_count(width, height) <= usize::MAX,
            v.len() == y * width,
            forall|px: int, py: int|
                0 <= px < width && 0 <= py < y ==> #[trigger] v@[py * width + px] == (px as i32, py as i32),
        decreases height - y,
    {
        proof {
            assert((y + 1) * width <= height * width) by (nonlinear_arith)
                requires y + 1 <= height, 0 < width;
        }
        let mut x: i32 = 0;
        while x < width
            invariant
                0 < width,
                0 <= y < height,
                0 <= x <= width,
                (y + 1) * width <= usize::MAX,
                v.len() == y * width + x,
                forall|px: int, py: int|
                    0 <= px < width && 0 <= py < y ==> #[trigger] v@[py * width + px] == (px as i32, py as i32),
                forall|px: int| 0 <= px < x ==> #[trigger] v@[y * width + px] == (px as i32, y as i32),
            decreases width - x,
        {
            proof {
                assert((y + 1) * width == y * width + width) by (nonlinear_arith);
            }
            let ghost before = v@;
            v.push((x, y));
            proof {
                assert forall|px: int, py: int|
                    0 <= px < width && 0 <= py < y implies #[trigger] v@[py * width + px] == (px as i32, py as i32) by {
                    assert(py * width + px < y * width) by (nonlinear_arith)
                        requires px < width, py + 1 <= y, 0 < width;
                    assert(v@[py * width + px] == before[py * width + px]);
                }
            }
            x = x + 1;
        }
        proof {
            assert((y + 1) * width == y * width + width) by (nonlinear_arith);
            assert forall|px: int, py: int|
                0 <= px < width && 0 <= py < y + 1 implies #[trigger] v@[py * width + px] == (px as i32, py as i32) by {
                if py == y as int {
                } 
            }
        }
        y = y + 1;
    }
    v
}

/// The bytes of a frame as the screen texture takes them: four bytes per
/// pixel, red, green, blue and alpha, pixels in order.
pub fn frame_bytes(pixels: &Vec<Rgba>) -> (bytes: Vec<u8>)
    requires
        4 * pixels.len() <= usize::MAX,
    ensures
        bytes.len() == 4 * pixels.len(),
        forall|i: int|
            0 <= i < pixels.len() ==> {
                &&& #[trigger] bytes@[4 * i] == pixels@[i].r
                &&& bytes@[4 * i + 1] == pixels@[i].g
                &&& bytes@[4 * i + 2] == pixels@[i].b
                &&& bytes@[4 * i + 3] == pixels@[i].a
            },
{
    let mut bytes: Vec<u8> = Vec::new();
    let n = pixels.len();
    let mut i: usize = 0;
    while i < n
        invariant
            n == pixels.len(),
            4 * n <= usize::MAX,
            0 <= i <= n,
            bytes.len() == 4 * i,
            forall|j: int|
                0 <= j < i ==> {
                    &&& #[trigger] bytes@[4 * j] == pixels@[j].r
                    &&& bytes@[4 * j + 1] == pixels@[j].g
                    &&& bytes@[4 * j + 2] == pixels@[j].b
                    &&& bytes@[4 * j + 3] == pixels@[j].a
                },
        decreases n - i,
    {
        let p = pixels[i];
        let ghost before = bytes@;
        bytes.push(p.r);
        bytes.push(p.g);
        bytes.push(p.b);
        bytes.push(p.a);
        proof {
            assert(bytes@ == before + seq![p.r, p.g, p.b, p.a]);
            assert forall|j: int| 0 <= j < i + 1 implies {
                &&& #[trigger] bytes@[4 * j] == pixels@[j].r
                &&& bytes@[4 * j + 1] == pixels@[j].g
                &&& bytes@[4 * j + 2] == pixels@[j].b
                &&& bytes@[4 * j + 3] == pixels@[j].a
            } by {
                if j < i {
                    assert(bytes@[4 * j] == before[4 * j]);
                    assert(bytes@[4 * j + 1] == before[4 * j + 1]);
                    assert(bytes@[4 * j + 2] == before[4 * j + 2]);
                    assert(bytes@[4 * j + 3] == before[4 * j + 3]);
                }
            }
        }
        i = i + 1;
    }
    bytes
}

} // verus!
