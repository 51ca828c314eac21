//! RGB raster images held as plain bytes, and the placement of one image
//! onto a black canvas.

use vstd::prelude::*;
use vstd::arithmetic::div_mod::lemma_fundamental_div_mod_converse;
use image::{GenericImage, ImageBuffer, Rgb};

verus! {

/// An 8-bit RGB image: `height` rows of `width` pixels, each pixel three
/// bytes (red, green, blue), stored row after row in `data`.
pub struct RgbImage {
    pub width: u32,
    pub height: u32,
    pub data: Vec<u8>,
}

impl RgbImage {
    /// The buffer holds exactly `width * height` pixels.
    pub open spec fn wf(&self) -> bool {
        self.data@.len() == self.width * self.height * 3
    }

    /// Byte `c` (0 red, 1 green, 2 blue) of the pixel in column `x`, row `y`.
    pub open spec fn at(&self, x: int, y: int, c: int) -> u8 {
        self.data@[(y * self.width + x) * 3 + c]
    }

    /// Wraps a raw buffer; `None` when its length is not `width * height * 3`.
    pub fn from_raw(width: u32, height: u32, data: Vec<u8>) -> (res: Option<RgbImage>)
        ensures
            match res {
                Some(img) => img.wf() && img.width == width && img.height == height
                    && img.data@ == data@,
                None => data@.len() != width * height * 3,
            },
    {
        let n = data.len();
        let w = width as u64;
        let h = height as u64;
        assert(w * h <= u32::MAX * u32::MAX) by (nonlinear_arith)
            requires w <= u32::MAX, h <= u32::MAX;
        let pixels: u64 = w * h;
        if pixels <= (usize::MAX / 3) as u64 && n == (pixels * 3) as usize {
            Some(RgbImage { width, height, data })
        } else {
            proof {
                assert(pixels == width * height);
                if data@.len() == width * height * 3 {
                    assert(pixels * 3 == n);
                    assert(pixels <= usize::MAX / 3);
                }
            }
            None
        }
    }

    /// An all-black image of the given size.
    pub fn black(width: u32, height: u32) -> (img: RgbImage)
        requires
            width * height * 3 <= usize::MAX,
        ensures
            img.wf(),
            img.width == width,
            img.height == height,
            forall|i: int| 0 <= i < img.data@.len() ==> #[trigger] img.data@[i] == 0,
    {
        let len: usize = (width as usize) * (height as usize) * 3;
        let mut data: Vec<u8> = Vec::with_capacity(len);
        let mut i: usize = 0;
        while i < len
            invariant
                i <= len,
                data@.len() == i,
                forall|j: int| 0 <= j < i ==> #[trigger] data@[j] == 0,
            decreases len - i,
        {
            data.push(0);
            i = i + 1;
        }
        RgbImage { width, height, data }
    }
}

/// The resampling filter of a resize.
#[derive(Clone, Copy, Debug, PartialEq, Eq)]
pub enum ResizeFilter {
    /// Box kernel with no support: each target pixel takes the one source
    /// pixel under its centre.
    Nearest,
    /// Gaussian-weighted sampling.
    Gaussian,
}

/// The pixel bytes that `image::imageops::resize` with the box filter
/// (`FilterType::Nearest`) computes from a `width` x `height` RGB image
/// holding `data`, for a `new_width` x `new_height` result.
pub uninterp spec fn nearest_resized(data: Seq<u8>, width: u32, height: u32, new_width: u32, new_height: u32) -> Seq<u8>;

/// Whether `out` is a result that `image::imageops::resize` with the
/// Gaussian filter (`FilterType::Gaussian`) can give for a `width` x
/// `height` RGB image holding `data` and a `new_width` x `new_height`
/// target. A relation, not a function: the filter's weights go through
/// `f32::exp`, whose last bits may differ from one platform to another.
pub uninterp spec fn gaussian_outcome(data: Seq<u8>, width: u32, height: u32, new_width: u32,
    new_height: u32, out: Seq<u8>) -> bool;

/// Whether `image::imageops::resize` can run on a `width` x `height` image
/// for a `new_width` x `new_height` result: it reads a source pixel for
/// every target pixel, so a non-empty result needs a non-empty source, and
/// its two buffers must be addressable.
pub open spec fn resizable(width: u32, height: u32, new_width: u32, new_height: u32) -> bool {
    &&& new_height > 0 && width > 0 ==> height > 0
    &&& new_height > 0 && new_width > 0 ==> width > 0
    &&& width * new_height * 3 <= usize::MAX
    &&& new_width * new_height * 3 <= usize::MAX
}

/// Calls `image::imageops::resize` on `img`, seen as an
/// `ImageBuffer<Rgb<u8>, Vec<u8>>`. Trusted: the result is a
/// `new_width` x `new_height` image (the crate builds it with
/// `ImageBuffer::new(new_width, ..)` and `ImageBuffer::new(.., new_height)`),
/// with the box filter its bytes are `nearest_resized` of the source, and
/// with the Gaussian filter they are a `gaussian_outcome` of the source (its
/// weights go through `f32::exp`, whose last bits depend on the platform's
/// math library, so no single result is named).
#[verifier::external_body]
pub(crate) fn resize(img: &RgbImage, new_width: u32, new_height: u32, filter: ResizeFilter) -> (out: RgbImage)
    requires
        img.wf(),
        resizable(img.width, img.height, new_width, new_height),
    ensures
        out.wf(),
        out.width == new_width,
        out.height == new_height,
        filter == ResizeFilter::Nearest ==> out.data@ == nearest_resized(
            img.data@, img.width, img.height, new_width, new_height),
        filter == ResizeFilter::Gaussian ==> gaussian_outcome(
            img.data@, img.width, img.height, new_width, new_height, out.data@),
{
    let src: ImageBuffer<Rgb<u8>, Vec<u8>> = ImageBuffer::from_raw(img.width, img.height, img.data.clone())
        .expect("a well-formed image fills its buffer");
    let kind = match filter {
        ResizeFilter::Nearest => image::FilterType::Nearest,
        ResizeFilter::Gaussian => image::FilterType::Gaussian,
    };
    let out = image::imageops::resize(&src, new_width, new_height, kind);
    RgbImage { width: new_width, height: new_height, data: out.into_raw() }
}

/// Calls `GenericImage::sub_image` and `SubImage::to_image` on `img`, seen
/// as an `ImageBuffer<Rgb<u8>, Vec<u8>>`. Trusted: the result is the
/// `width` x `height` block of `img` whose top left corner is at column
/// `x`, row `y` (`to_image` copies pixel `(i + x, j + y)` to `(i, j)`).
#[verifier::external_body]
pub(crate) fn crop(img: &RgbImage, x: u32, y: u32, width: u32, height: u32) -> (out: RgbImage)
    requires
        img.wf(),
        x + width <= img.width,
        y + height <= img.height,
    ensures
        out.wf(),
        out.width == width,
        out.height == height,
        forall|i: int, j: int, c: int| 0 <= i < width && 0 <= j < height && 0 <= c < 3
            ==> #[trigger] out.at(i, j, c) == img.at(i + x, j + y, c),
{
    let mut src: ImageBuffer<Rgb<u8>, Vec<u8>> = ImageBuffer::from_raw(img.width, img.height, img.data.clone())
        .expect("a well-formed image fills its buffer");
    let out = src.sub_image(x, y, width, height).to_image();
    RgbImage { width, height, data: out.into_raw() }
}

/// `canvas` shows `img` with its top left corner at column `ox`, row `oy`,
/// on black: each pixel of `canvas` is the pixel of `img` under it, or
/// black where `img` does not reach.
pub open spec fn shows(canvas: RgbImage, img: RgbImage, ox: int, oy: int) -> bool {
    &&& canvas.wf()
    &&& forall|x: int, y: int, c: int|
        0 <= x < canvas.width && 0 <= y < canvas.height && 0 <= c < 3
            ==> #[trigger] canvas.at(x, y, c) == placed_pixel(img, ox, oy, x, y, c)
}

/// A placed image covers the canvas from column `ox`, row `oy` on, its
/// pixel `(i, j)` landing at `(ox + i, oy + j)`; every canvas pixel it does
/// not cover is black.
pub proof fn lemma_placed_pixel(img: RgbImage, ox: int, oy: int, x: int, y: int, c: int)
    ensures
        0 <= x - ox < img.width && 0 <= y - oy < img.height
            ==> placed_pixel(img, ox, oy, x, y, c) == img.data@[((y - oy) * img.width + (x - ox)) * 3 + c],
        !(ox <= x < ox + img.width && oy <= y < oy + img.height) ==> placed_pixel(img, ox, oy, x, y, c) == 0,
{
}

/// Byte `i` of a `cw` x `ch` canvas on which `img` was placed with its top
/// left corner at column `ox`, row `oy`, the rest black; only the first
/// `rows` rows of `img` are counted.
pub open spec fn placed_byte(cw: int, img: RgbImage, ox: int, oy: int, rows: int, i: int) -> u8 {
    let row = i / (cw * 3);
    let col = i % (cw * 3);
    if oy <= row < oy + rows && ox * 3 <= col < ox * 3 + img.width * 3 {
        img.data@[(row - oy) * (img.width * 3) + (col - ox * 3)]
    } else {
        0
    }
}

/// Pixel `(x, y)` channel `c` of a canvas on which `img` was placed at
/// `(ox, oy)`: a pixel of `img` where it covers, black elsewhere.
pub open spec fn placed_pixel(img: RgbImage, ox: int, oy: int, x: int, y: int, c: int) -> u8 {
    if ox <= x < ox + img.width && oy <= y < oy + img.height {
        img.at(x - ox, y - oy, c)
    } else {
        0
    }
}

proof fn lemma_byte_position(w: int, x: int, y: int, c: int)
    requires
        w > 0,
        0 <= x < w,
        0 <= y,
        0 <= c < 3,
    ensures
        ((y * w + x) * 3 + c) / (w * 3) == y,
        ((y * w + x) * 3 + c) % (w * 3) == x * 3 + c,
{
    assert((y * w + x) * 3 + c == y * (w * 3) + (x * 3 + c)) by (nonlinear_arith);
    lemma_fundamental_div_mod_converse((y * w + x) * 3 + c, w * 3, y, x * 3 + c);
}

proof fn lemma_row_position(w: int, row: int, col: int)
    requires
        w > 0,
        0 <= row,
        0 <= col < w * 3,
    ensures
        (row * (w * 3) + col) / (w * 3) == row,
        (row * (w * 3) + col) % (w * 3) == col,
{
    lemma_fundamental_div_mod_converse(row * (w * 3) + col, w * 3, row, col);
}

/// Places `img` on a black `canvas_width` x `canvas_height` canvas with its
/// top left corner at column `ox`, row `oy`. Rows of `img` that would fall
/// below the canvas are left out; `img` must fit horizontally.
pub fn place_image(canvas_width: u32, canvas_height: u32, img: &RgbImage, ox: u32, oy: u32) -> (canvas: RgbImage)
    requires
        img.wf(),
        ox + img.width <= canvas_width,
        canvas_width * canvas_height * 3 <= usize::MAX,
    ensures
        canvas.width == canvas_width,
        canvas.height == canvas_height,
        shows(canvas, *img, ox as int, oy as int),
{
    let mut canvas = RgbImage::black(canvas_width, canvas_height);
    let rows: u32 = if oy >= canvas_height {
        0
    } else if img.height <= canvas_height - oy {
        img.height
    } else {
        canvas_height - oy
    };
    let ghost cw = canvas_width as int;
    let ilen = img.data.len();
    let mut r: u32 = 0;
    while r < rows
        invariant
            r <= rows,
            rows <= img.height,
            rows == 0 || oy + rows <= canvas_height,
            img.wf(),
            ox + img.width <= canvas_width,
            canvas_width * canvas_height * 3 <= usize::MAX,
            ilen == img.data@.len(),
            cw == canvas_width,
            canvas.width == canvas_width,
            canvas.height == canvas_height,
            canvas.wf(),
            forall|i: int| 0 <= i < canvas.data@.len() ==>
                #[trigger] canvas.data@[i] == placed_byte(cw, *img, ox as int, oy as int, r as int, i),
        decreases rows - r,
    {
        assert(canvas_width * 3 <= canvas_width * canvas_height * 3) by (nonlinear_arith)
            requires r + oy < canvas_height;
        assert(img.width * 3 <= img.width * img.height * 3) by (nonlinear_arith)
            requires r < img.height;
        let cw3: usize = (canvas_width as usize) * 3;
        let iw3: usize = (img.width as usize) * 3;
        let ox3: usize = (ox as usize) * 3;
        assert((r + oy) * cw3 + cw3 <= canvas.data@.len()) by (nonlinear_arith)
            requires r + oy < canvas_height, cw3 == canvas_width * 3,
                canvas.data@.len() == canvas_width * canvas_height * 3;
        assert(r * iw3 + iw3 <= img.data@.len()) by (nonlinear_arith)
            requires r < img.height, iw3 == img.width * 3, img.data@.len() == img.width * img.height * 3;
        let dst_row: usize = ((r + oy) as usize) * cw3;
        let src_row: usize = (r as usize) * iw3;
        let mut k: usize = 0;
        while k < iw3
            invariant
                k <= iw3,
                r < rows,
                rows <= img.height,
                oy + rows <= canvas_height,
                img.wf(),
                ox + img.width <= canvas_width,
                cw3 == canvas_width * 3,
                iw3 == img.width * 3,
                ox3 == ox * 3,
                dst_row == (r + oy) * cw3,
                src_row == r * iw3,
                dst_row + cw3 <= canvas.data@.len(),
                src_row + iw3 <= img.data@.len(),
                canvas.data@.len() <= usize::MAX,
                ilen == img.data@.len(),
                cw == canvas_width,
                canvas.width == canvas_width,
                canvas.height == canvas_height,
                canvas.wf(),
                forall|i: int| 0 <= i < canvas.data@.len() ==>
                    #[trigger] canvas.data@[i] == if dst_row + ox3 <= i < dst_row + ox3 + k {
                        img.data@[src_row + (i - dst_row - ox3)]
                    } else {
                        placed_byte(cw, *img, ox as int, oy as int, r as int, i)
                    },
            decreases iw3 - k,
        {
            let b = img.data[src_row + k];
            canvas.data.set(dst_row + ox3 + k, b);
            k = k + 1;
        }
        proof {
            assert forall|i: int| 0 <= i < canvas.data@.len() implies
                #[trigger] canvas.data@[i] == placed_byte(cw, *img, ox as int, oy as int, r + 1, i) by {
                let row = i / (cw * 3);
                let col = i % (cw * 3);
                assert(cw > 0) by {
                    if cw == 0 {
                        assert(canvas.data@.len() == 0) by (nonlinear_arith)
                            requires cw == 0, canvas.data@.len() == cw * canvas_height * 3;
                    }
                }
                assert(i == row * (cw * 3) + col) by {
                    vstd::arithmetic::div_mod::lemma_fundamental_div_mod(i, cw * 3);
                    vstd::arithmetic::mul::lemma_mul_is_commutative(row, cw * 3);
                }
                assert(0 <= col < cw * 3) by {
                    vstd::arithmetic::div_mod::lemma_mod_bound(i, cw * 3);
                }
                assert(0 <= row) by {
                    vstd::arithmetic::div_mod::lemma_div_pos_is_pos(i, cw * 3);
                }
                if row == r + oy {
                    assert(dst_row == row * (cw * 3));
                    if ox * 3 <= col < ox * 3 + img.width * 3 {
                        assert(dst_row + ox3 <= i < dst_row + ox3 + iw3);
                        assert((row - oy) * (img.width * 3) == src_row) by (nonlinear_arith)
                            requires row - oy == r, src_row == r * iw3, iw3 == img.width * 3;
                    } else {
                        assert(!(dst_row + ox3 <= i < dst_row + ox3 + iw3));
                    }
                } else {
                    if i >= dst_row && i < dst_row + cw3 {
                        lemma_row_position(cw, (r + oy) as int, i - dst_row);
                        assert(false);
                    }
                }
            }
        }
        r = r + 1;
    }
    proof {
        assert forall|x: int, y: int, c: int|
            0 <= x < canvas_width && 0 <= y < canvas_height && 0 <= c < 3
            implies #[trigger] canvas.at(x, y, c) == placed_pixel(*img, ox as int, oy as int, x, y, c) by {
            lemma_byte_position(cw, x, y, c);
            let i = (y * cw + x) * 3 + c;
            assert(0 <= i < canvas.data@.len()) by (nonlinear_arith)
                requires i == (y * cw + x) * 3 + c, 0 <= x < cw, 0 <= y < canvas_height, 0 <= c < 3,
                    canvas.data@.len() == cw * canvas_height * 3;
            assert(canvas.data@[i] == placed_byte(cw, *img, ox as int, oy as int, rows as int, i));
            let inside = ox <= x < ox + img.width && oy <= y < oy + img.height;
            if inside {
                assert(y - oy < rows);
                assert((y - oy) * (img.width * 3) + (x * 3 + c - ox * 3)
                    == ((y - oy) * img.width + (x - ox)) * 3 + c) by (nonlinear_arith);
            }
        }
    }
    canvas
}

} // verus!
