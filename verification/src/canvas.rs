//! The canvas of the `paintdot` command: a black square with one white dot,
//! painted in the image crate's pixel buffer.

use vstd::prelude::*;

verus! {

/// An RGB canvas: the image crate's `RgbImage`, held privately. What it holds is
/// named by `canvas_samples` and `canvas_size`.
#[verifier::external_body]
pub struct Canvas {
    img: image::RgbImage,
}

/// The raw samples of a canvas, row-major, three bytes (red, green, blue) per pixel.
pub uninterp spec fn canvas_samples(c: Canvas) -> Seq<u8>;

/// The width and height a canvas was made with.
pub uninterp spec fn canvas_size(c: Canvas) -> (u32, u32);

/// Index of the first sample of pixel `(x, y)` in a canvas `width` pixels wide.
pub open spec fn sample_index(width: int, x: int, y: int) -> int {
    (y * width + x) * 3
}

/// `ImageBuffer::new(width, height)`: a canvas of the given size whose samples are
/// all zero (black). The crate panics when `3 * width * height` overflows `usize`,
/// which `requires` leaves out.
#[verifier::external_body]
fn new_canvas(width: u32, height: u32) -> (img: Canvas)
    requires
        3 * width * height <= usize::MAX,
    ensures
        canvas_size(img) == (width, height),
        canvas_samples(img) == Seq::new((3 * width * height) as nat, |i: int| 0u8),
{
    Canvas { img: image::ImageBuffer::new(width, height) }
}

/// `*img.get_pixel_mut(x, y) = Rgb([r, g, b])`: overwrites the three samples of
/// pixel `(x, y)` and nothing else. The crate panics when `(x, y)` lies outside the
/// canvas, which `requires` leaves out.
#[verifier::external_body]
fn set_pixel(img: &mut Canvas, x: u32, y: u32, r: u8, g: u8, b: u8)
    requires
        x < canvas_size(*old(img)).0,
        y < canvas_size(*old(img)).1,
    ensures
        canvas_size(*final(img)) == canvas_size(*old(img)),
        canvas_samples(*final(img)) == ({
            let i = sample_index(canvas_size(*old(img)).0 as int, x as int, y as int);
            canvas_samples(*old(img)).update(i, r).update(i + 1, g).update(i + 2, b)
        }),
{
    *img.img.get_pixel_mut(x, y) = image::Rgb([r, g, b]);
}

/// The bytes of the PNG file that the image crate writes for an 8-bit RGB image with
/// these samples, width and height, or `None` where its encoder reports an error.
pub uninterp spec fn png_encoding(samples: Seq<u8>, width: u32, height: u32) -> Option<Seq<u8>>;

/// `img.write_to(.., ImageOutputFormat::Png)` into memory: the PNG encoding of the
/// canvas, which the crate computes from its samples, width and height alone; `None`
/// where the encoder fails.
#[verifier::external_body]
fn encode_png(img: &Canvas) -> (png: Option<Vec<u8>>)
    ensures
        png.deep_view() == png_encoding(canvas_samples(*img), canvas_size(*img).0, canvas_size(*img).1),
{
    let mut out = std::io::Cursor::new(Vec::new());
    match img.img.write_to(&mut out, image::ImageOutputFormat::Png) {
        Ok(()) => Some(out.into_inner()),
        Err(_) => None,
    }
}

/// Side of the square canvas that `paintdot` paints on.
pub const CANVAS_SIDE: u32 = 256;

/// The samples of a black `CANVAS_SIDE` x `CANVAS_SIDE` canvas with a white pixel at `(a, b)`.
pub open spec fn dot_samples(a: int, b: int) -> Seq<u8> {
    Seq::new(
        (3 * CANVAS_SIDE * CANVAS_SIDE) as nat,
        |i: int| if i / 3 == b * CANVAS_SIDE + a { 255u8 } else { 0u8 },
    )
}

/// The dot is where it was asked for, for every dot on the canvas: the picture has
/// 3 * 256 * 256 samples, the three samples of the pixel at column `a`, row `b`
/// (starting at `(b * 256 + a) * 3`) are 255, and every other sample is 0.
pub proof fn lemma_dot_is_at_column_a_row_b(a: int, b: int)
    requires
        0 <= a < 256,
        0 <= b < 256,
    ensures
        dot_samples(a, b).len() == 3 * 256 * 256,
        forall|i: int| 0 <= i < 3 * 256 * 256 ==> #[trigger] dot_samples(a, b)[i] == if (b * 256
            + a) * 3 <= i < (b * 256 + a) * 3 + 3 {
            255u8
        } else {
            0u8
        },
{
    assert forall|i: int| 0 <= i < 3 * 256 * 256 implies #[trigger] dot_samples(a, b)[i] == if (b
        * 256 + a) * 3 <= i < (b * 256 + a) * 3 + 3 {
        255u8
    } else {
        0u8
    } by {
        assert((i / 3 == b * 256 + a) <==> ((b * 256 + a) * 3 <= i < (b * 256 + a) * 3 + 3));
    }
}

/// Paints the canvas of the `paintdot` command: black, `CANVAS_SIDE` pixels square,
/// with the pixel at column `a`, row `b` white. A dot outside the canvas is a panic
/// in the image crate, which `requires` leaves out.
pub fn paint_dot_canvas(a: u32, b: u32) -> (img: Canvas)
    requires
        a < CANVAS_SIDE,
        b < CANVAS_SIDE,
    ensures
        canvas_size(img) == (CANVAS_SIDE, CANVAS_SIDE),
        canvas_samples(img) == dot_samples(a as int, b as int),
        canvas_samples(img).len() == 3 * 256 * 256,
        forall|i: int| 0 <= i < 3 * 256 * 256 ==> #[trigger] canvas_samples(img)[i] == if (b * 256
            + a) * 3 <= i < (b * 256 + a) * 3 + 3 {
            255u8
        } else {
            0u8
        },
{
    let mut img = new_canvas(CANVAS_SIDE, CANVAS_SIDE);
    set_pixel(&mut img, a, b, 255, 255, 255);
    proof {
        let base = sample_index(CANVAS_SIDE as int, a as int, b as int);
        assert forall|i: int| 0 <= i < 3 * CANVAS_SIDE * CANVAS_SIDE implies
            #[trigger] canvas_samples(img)[i] == dot_samples(a as int, b as int)[i] by {
            assert((i / 3 == b * CANVAS_SIDE + a) <==> (base <= i < base + 3));
        }
        assert(canvas_samples(img) =~= dot_samples(a as int, b as int));
    }
    img
}

/// The PNG image that the `paintdot` command sends: the canvas of
/// `paint_dot_canvas(a, b)`, encoded; `None` where the encoder fails.
pub fn paintdot(a: u32, b: u32) -> (png: Option<Vec<u8>>)
    requires
        a < CANVAS_SIDE,
        b < CANVAS_SIDE,
    ensures
        png.deep_view() == png_encoding(dot_samples(a as int, b as int), CANVAS_SIDE, CANVAS_SIDE),
        png.deep_view() == png_encoding(
            Seq::new(
                3 * 256 * 256,
                |i: int| if (b * 256 + a) * 3 <= i < (b * 256 + a) * 3 + 3 { 255u8 } else { 0u8 },
            ),
            256,
            256,
        ),
{
    let img = paint_dot_canvas(a, b);
    proof {
        lemma_dot_is_at_column_a_row_b(a as int, b as int);
        assert(dot_samples(a as int, b as int) =~= Seq::new(
            3 * 256 * 256,
            |i: int| if (b * 256 + a) * 3 <= i < (b * 256 + a) * 3 + 3 { 255u8 } else { 0u8 },
        ));
    }
    encode_png(&img)
}

} // verus!
