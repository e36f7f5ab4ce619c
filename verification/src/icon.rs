//! The tray icon drawn when the icon theme has none: a blue disc on a
//! transparent square.
use vstd::prelude::*;

verus! {

/// The icon's width and height in pixels.
pub const ICON_SIZE: usize = 22;

/// Whether the pixel at column `x`, row `y` lies on the disc: its offset from
/// the centre `(11, 11)` is at most the radius 11.
pub open spec fn on_disc(x: int, y: int) -> bool {
    (x - 11) * (x - 11) + (y - 11) * (y - 11) <= 121
}

/// The four ARGB bytes of the pixel at column `x`, row `y`: opaque blue
/// `#3584D1` on the disc, transparent elsewhere.
pub open spec fn icon_pixel(x: int, y: int) -> Seq<u8> {
    if on_disc(x, y) {
        seq![255u8, 53u8, 132u8, 209u8]
    } else {
        seq![0u8, 0u8, 0u8, 0u8]
    }
}

/// The icon's pixels, row by row, four ARGB bytes each.
pub fn icon_pixmap() -> (data: Vec<u8>)
    ensures
        data@.len() == ICON_SIZE * ICON_SIZE * 4,
        forall|y: int, x: int, k: int|
            0 <= y < ICON_SIZE && 0 <= x < ICON_SIZE && 0 <= k < 4 ==> #[trigger] data@[(y
                * ICON_SIZE + x) * 4 + k] == icon_pixel(x, y)[k],
{
    let mut data: Vec<u8> = Vec::new();
    for y in 0..ICON_SIZE
        invariant
            data@.len() == y * ICON_SIZE * 4,
            forall|yy: int, x: int, k: int|
                0 <= yy < y && 0 <= x < ICON_SIZE && 0 <= k < 4 ==> #[trigger] data@[(yy
                    * ICON_SIZE + x) * 4 + k] == icon_pixel(x, yy)[k],
    {
        for x in 0..ICON_SIZE
            invariant
                0 <= y < ICON_SIZE,
                data@.len() == (y * ICON_SIZE + x) * 4,
                forall|yy: int, xx: int, k: int|
                    0 <= yy * ICON_SIZE + xx < y * ICON_SIZE + x && 0 <= xx < ICON_SIZE && 0 <= k
                        < 4 ==> #[trigger] data@[(yy * ICON_SIZE + xx) * 4 + k] == icon_pixel(
                        xx,
                        yy,
                    )[k],
        {
            let dx: i64 = x as i64 - 11;
            let dy: i64 = y as i64 - 11;
            let ghost before = data@;
            assert(0 <= dx * dx <= 121 && 0 <= dy * dy <= 121) by (nonlinear_arith)
                requires
                    -11 <= dx <= 11,
                    -11 <= dy <= 11,
            ;
            if dx * dx + dy * dy <= 121 {
                data.push(255);
                data.push(53);
                data.push(132);
                data.push(209);
            } else {
                data.push(0);
                data.push(0);
                data.push(0);
                data.push(0);
            }
            assert forall|yy: int, xx: int, k: int|
                0 <= yy * ICON_SIZE + xx < y * ICON_SIZE + x + 1 && 0 <= xx < ICON_SIZE && 0 <= k
                    < 4 implies #[trigger] data@[(yy * ICON_SIZE + xx) * 4 + k] == icon_pixel(
                xx,
                yy,
            )[k] by {
                if yy * ICON_SIZE + xx == y * ICON_SIZE + x {
                    assert(yy == y && xx == x) by (nonlinear_arith)
                        requires
                            yy * 22 + xx == y * 22 + x,
                            0 <= xx < 22,
                            0 <= x < 22,
                    ;
                } else {
                    assert((yy * ICON_SIZE + xx) * 4 + k < before.len()) by (nonlinear_arith)
                        requires
                            0 <= yy * 22 + xx < y * 22 + x,
                            0 <= k < 4,
                            before.len() == (y * 22 + x) * 4,
                    ;
                    assert(data@[(yy * ICON_SIZE + xx) * 4 + k] == before[(yy * ICON_SIZE + xx) * 4
                        + k]);
                }
            }
        }
        assert forall|yy: int, x: int, k: int|
            0 <= yy < y + 1 && 0 <= x < ICON_SIZE && 0 <= k < 4 implies #[trigger] data@[(yy
                * ICON_SIZE + x) * 4 + k] == icon_pixel(x, yy)[k] by {
            assert(0 <= yy * ICON_SIZE + x < (y + 1) * ICON_SIZE) by (nonlinear_arith)
                requires
                    0 <= yy < y + 1,
                    0 <= x < 22,
            ;
        }
    }
    data
}

} // verus!
