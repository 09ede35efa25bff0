//! Pixel buffers: from the three layouts a caller may hand over to the
//! engine's native layout.

use vstd::prelude::*;
use crate::color::{lemma_premul_is_bounded, premul, premul_spec};
use crate::error::Error;

verus! {

/// The layout of a pixel buffer that a caller hands over.
#[derive(Clone, Copy, Debug, PartialEq, Eq, Structural)]
pub enum ImageFormat {
    /// Three bytes a pixel: red, green, blue.
    Rgb,
    /// Four bytes a pixel: red, green, blue, alpha; the colours are not yet
    /// scaled by the alpha.
    RgbaSeparate,
    /// Four bytes a pixel: red, green, blue, alpha; the colours are already
    /// scaled by the alpha.
    RgbaPremul,
    /// Any other layout.
    Other,
}

/// The layout of the engine's surface.
#[derive(Clone, Copy, Debug, PartialEq, Eq, Structural)]
pub enum SurfaceFormat {
    /// Four bytes a pixel, the fourth unused.
    Rgb24,
    /// Four bytes a pixel, colours scaled by the alpha in the fourth.
    ARgb32,
}

impl ImageFormat {
    /// Whether the converter takes this layout.
    pub open spec fn supported(self) -> bool {
        !(self is Other)
    }

    /// The number of bytes that one pixel takes in this layout.
    pub open spec fn pixel_bytes(self) -> int {
        match self {
            ImageFormat::Rgb => 3,
            ImageFormat::RgbaSeparate => 4,
            ImageFormat::RgbaPremul => 4,
            ImageFormat::Other => 0,
        }
    }
}

/// The surface layout that holds an image of the given layout.
pub open spec fn surface_format_of(format: ImageFormat) -> Result<SurfaceFormat, Error> {
    match format {
        ImageFormat::Rgb => Ok(SurfaceFormat::Rgb24),
        ImageFormat::RgbaSeparate => Ok(SurfaceFormat::ARgb32),
        ImageFormat::RgbaPremul => Ok(SurfaceFormat::ARgb32),
        ImageFormat::Other => Err(Error::NotSupported),
    }
}

/// Chooses the surface layout for an image, or refuses the image's layout.
pub fn surface_format(format: ImageFormat) -> (r: Result<SurfaceFormat, Error>)
    ensures
        r == surface_format_of(format),
{
    match format {
        ImageFormat::Rgb => Ok(SurfaceFormat::Rgb24),
        ImageFormat::RgbaSeparate => Ok(SurfaceFormat::ARgb32),
        ImageFormat::RgbaPremul => Ok(SurfaceFormat::ARgb32),
        ImageFormat::Other => Err(Error::NotSupported),
    }
}

/// Calls `piet::ImageFormat::bytes_per_pixel`, which gives 3 for `Rgb` and 4
/// for the two layouts with alpha, and panics on any other layout.
#[verifier::external_body]
fn bytes_per_pixel(format: ImageFormat) -> (n: usize)
    requires
        format.supported(),
    ensures
        n == format.pixel_bytes(),
{
    let outside = match format {
        ImageFormat::Rgb => piet::ImageFormat::Rgb,
        ImageFormat::RgbaSeparate => piet::ImageFormat::RgbaSeparate,
        ImageFormat::RgbaPremul => piet::ImageFormat::RgbaPremul,
        ImageFormat::Other => piet::ImageFormat::_NonExhaustive,
    };
    outside.bytes_per_pixel()
}

/// The four bytes of the engine's pixel, in memory order (blue, green, red,
/// alpha), for the source pixel that starts at `at`.
pub open spec fn native_pixel(format: ImageFormat, src: Seq<u8>, at: int) -> Seq<u8> {
    match format {
        ImageFormat::Rgb => seq![src[at + 2], src[at + 1], src[at], 255u8],
        ImageFormat::RgbaPremul => seq![src[at + 2], src[at + 1], src[at], src[at + 3]],
        ImageFormat::RgbaSeparate => seq![
            premul_spec(src[at + 2], src[at + 3]) as u8,
            premul_spec(src[at + 1], src[at + 3]) as u8,
            premul_spec(src[at], src[at + 3]) as u8,
            src[at + 3],
        ],
        ImageFormat::Other => Seq::empty(),
    }
}

/// The byte at column `col` of row `row` of the surface for a source buffer
/// of `width` pixels a row: the pixels from the left, then zeros up to the
/// stride.
pub open spec fn surface_byte(format: ImageFormat, src: Seq<u8>, width: int, row: int, col: int) -> u8 {
    if col < 4 * width {
        native_pixel(
            format,
            src,
            row * (width * format.pixel_bytes()) + (col / 4) * format.pixel_bytes(),
        )[col % 4]
    } else {
        0u8
    }
}

/// A surface in the engine's native layout, held as plain bytes.
#[derive(Debug, PartialEq, Eq)]
pub struct Image {
    pub format: SurfaceFormat,
    /// Pixels in a row.
    pub width: usize,
    /// Rows.
    pub height: usize,
    /// Bytes from the start of one row to the start of the next.
    pub stride: usize,
    /// The rows, one after the other, `stride` bytes each.
    pub data: Vec<u8>,
}

impl Image {
    /// A row has room for its pixels, and the data holds all the rows.
    pub open spec fn wf(&self) -> bool {
        &&& 4 * self.width <= self.stride
        &&& self.data@.len() == self.height * self.stride
    }

    /// The byte at column `col` of row `row`.
    pub open spec fn byte_at(&self, row: int, col: int) -> u8 {
        self.data@[row * self.stride + col]
    }

    /// Every byte of the surface is what the source buffer converts to.
    pub open spec fn holds_pixels_of(&self, format: ImageFormat, src: Seq<u8>) -> bool {
        forall|row: int, col: int|
            0 <= row < self.height && 0 <= col < self.stride ==> #[trigger] self.byte_at(row, col)
                == surface_byte(format, src, self.width as int, row, col)
    }
}

/// Converts the source pixel that starts at `at`.
fn convert_pixel(format: ImageFormat, buf: &[u8], at: usize) -> (px: [u8; 4])
    requires
        format.supported(),
        at + format.pixel_bytes() <= buf@.len(),
    ensures
        px@ == native_pixel(format, buf@, at as int),
{
    let len: usize = buf.len();
    assert(at + 3 <= len);
    match format {
        ImageFormat::Rgb => [buf[at + 2], buf[at + 1], buf[at], 255u8],
        ImageFormat::RgbaPremul => [buf[at + 2], buf[at + 1], buf[at], buf[at + 3]],
        ImageFormat::RgbaSeparate => {
            let a: u8 = buf[at + 3];
            [premul(buf[at + 2], a), premul(buf[at + 1], a), premul(buf[at], a), a]
        },
        ImageFormat::Other => [0u8, 0u8, 0u8, 0u8],
    }
}

/// Stepping through a buffer in equal strides stays inside it.
proof fn lemma_stride_step(i: int, n: int, m: int)
    by (nonlinear_arith)
    requires
        0 <= i < n,
        0 <= m,
    ensures
        0 <= i * m,
        i * m + m == (i + 1) * m,
        (i + 1) * m <= n * m,
{
}

/// Creates the engine's surface for a pixel buffer.
///
/// `buf` holds `height` rows of `width` pixels in the layout `format`, row
/// after row with nothing between them; `stride` is the length that the
/// engine gives a row of the surface. A layout that the converter does not
/// take is refused before anything is allocated. Otherwise each pixel is
/// repacked into blue, green, red, alpha: an `Rgb` pixel becomes opaque, an
/// `RgbaPremul` pixel keeps its four values, and the colours of an
/// `RgbaSeparate` pixel are scaled by its alpha. The bytes of a row behind
/// its last pixel are zero.
pub fn make_image(
    width: usize,
    height: usize,
    buf: &[u8],
    format: ImageFormat,
    stride: usize,
) -> (r: Result<Image, Error>)
    requires
        format.supported() ==> 4 * width <= stride,
        format.supported() ==> height * (width * format.pixel_bytes()) <= buf@.len(),
    ensures
        format.supported() <==> r is Ok,
        r matches Err(e) ==> e == Error::NotSupported,
        r matches Ok(image) ==> {
            &&& image.wf()
            &&& Ok::<SurfaceFormat, Error>(image.format) == surface_format_of(format)
            &&& image.width == width
            &&& image.height == height
            &&& image.stride == stride
            &&& image.holds_pixels_of(format, buf@)
        },
{
    let native = match surface_format(format) {
        Ok(native) => native,
        Err(e) => {
            return Err(e);
        },
    };
    let bpp: usize = bytes_per_pixel(format);
    assert(width * bpp <= 4 * width) by (nonlinear_arith)
        requires
            bpp <= 4,
    ;
    let bytes_per_row: usize = width * bpp;
    let len: usize = buf.len();
    let mut data: Vec<u8> = Vec::new();
    let mut y: usize = 0;
    let mut src_off: usize = 0;
    while y < height
        invariant
            y <= height,
            format.supported(),
            bpp == format.pixel_bytes(),
            bytes_per_row == width * bpp,
            4 * width <= stride,
            height * bytes_per_row <= buf@.len(),
            len == buf@.len(),
            src_off == y * bytes_per_row,
            data@.len() == y * stride,
            forall|row: int, col: int|
                0 <= row < y && 0 <= col < stride ==> data@[row * stride + col] == #[trigger] surface_byte(
                    format,
                    buf@,
                    width as int,
                    row,
                    col,
                ),
        decreases height - y,
    {
        let ghost done = data@;
        proof {
            lemma_stride_step(y as int, height as int, bytes_per_row as int);
            lemma_stride_step(y as int, height as int, stride as int);
        }
        let mut x: usize = 0;
        let mut at: usize = src_off;
        while x < width
            invariant
                x <= width,
                format.supported(),
                bpp == format.pixel_bytes(),
                bytes_per_row == width * bpp,
                src_off == y * bytes_per_row,
                at == src_off + x * bpp,
                src_off + bytes_per_row <= buf@.len(),
                len == buf@.len(),
                data@.len() == done.len() + 4 * x,
                forall|i: int| 0 <= i < done.len() ==> data@[i] == done[i],
                forall|col: int|
                    0 <= col < 4 * x ==> data@[done.len() + col] == #[trigger] surface_byte(
                        format,
                        buf@,
                        width as int,
                        y as int,
                        col,
                    ),
            decreases width - x,
        {
            proof {
                lemma_stride_step(x as int, width as int, bpp as int);
                assert(at + bpp == src_off + (x + 1) * bpp);
                assert(at + bpp <= src_off + bytes_per_row);
            }
            let px = convert_pixel(format, buf, at);
            let ghost before = data@;
            data.push(px[0]);
            data.push(px[1]);
            data.push(px[2]);
            data.push(px[3]);
            proof {
                assert forall|col: int| 0 <= col < 4 * (x + 1) implies data@[done.len() + col]
                    == #[trigger] surface_byte(format, buf@, width as int, y as int, col) by {
                    if col >= 4 * x {
                        assert(col / 4 == x);
                        assert(data@[done.len() + col] == px@[col % 4]);
                    } else {
                        assert(data@[done.len() + col] == before[done.len() + col]);
                    }
                }
            }
            x += 1;
            at += bpp;
        }
        let mut c: usize = 4 * width;
        while c < stride
            invariant
                4 * width <= c <= stride,
                data@.len() == done.len() + c,
                forall|i: int| 0 <= i < done.len() ==> data@[i] == done[i],
                forall|col: int|
                    0 <= col < c ==> data@[done.len() + col] == #[trigger] surface_byte(
                        format,
                        buf@,
                        width as int,
                        y as int,
                        col,
                    ),
            decreases stride - c,
        {
            data.push(0u8);
            c += 1;
        }
        proof {
            assert forall|row: int, col: int| 0 <= row < y + 1 && 0 <= col < stride implies data@[row
                * stride + col] == #[trigger] surface_byte(format, buf@, width as int, row, col) by {
                if row < y {
                    lemma_stride_step(row, y as int, stride as int);
                    assert(data@[row * stride + col] == done[row * stride + col]);
                }
            }
        }
        y += 1;
        src_off += bytes_per_row;
    }
    let image = Image { format: native, width, height, stride, data };
    assert(image.holds_pixels_of(format, buf@));
    Ok(image)
}

/// The place in a source buffer at which the pixel in column `x` of row
/// `row` starts: pixels are counted row by row.
pub open spec fn source_index(format: ImageFormat, width: int, row: int, x: int) -> int {
    (row * width + x) * format.pixel_bytes()
}

/// The pixel in column `x` of row `row` of a converted surface is the
/// native pixel of the source pixel in the same column and row.
pub proof fn lemma_pixel_of_surface(
    image: Image,
    format: ImageFormat,
    src: Seq<u8>,
    row: int,
    x: int,
    k: int,
)
    requires
        image.holds_pixels_of(format, src),
        image.wf(),
        0 <= row < image.height,
        0 <= x < image.width,
        0 <= k < 4,
    ensures
        image.byte_at(row, 4 * x + k) == native_pixel(
            format,
            src,
            source_index(format, image.width as int, row, x),
        )[k],
{
    let width = image.width as int;
    let bpp = format.pixel_bytes();
    let col = 4 * x + k;
    assert(image.byte_at(row, col) == surface_byte(format, src, width, row, col));
    assert(col / 4 == x && col % 4 == k);
    assert(row * (width * bpp) + x * bpp == (row * width + x) * bpp) by (nonlinear_arith);
}

/// An image from opaque colours is opaque in every pixel.
pub proof fn lemma_rgb_is_opaque(image: Image, src: Seq<u8>, row: int, x: int)
    requires
        image.holds_pixels_of(ImageFormat::Rgb, src),
        image.wf(),
        0 <= row < image.height,
        0 <= x < image.width,
    ensures
        image.byte_at(row, 4 * x + 3) == 255,
{
    lemma_pixel_of_surface(image, ImageFormat::Rgb, src, row, x, 3);
}

/// An image from premultiplied colours holds each pixel's four values as
/// they were given: red and blue change places, no value changes.
pub proof fn lemma_premultiplied_is_only_reordered(image: Image, src: Seq<u8>, row: int, x: int)
    requires
        image.holds_pixels_of(ImageFormat::RgbaPremul, src),
        image.wf(),
        0 <= row < image.height,
        0 <= x < image.width,
    ensures
        ({
            let at = source_index(ImageFormat::RgbaPremul, image.width as int, row, x);
            &&& image.byte_at(row, 4 * x) == src[at + 2]
            &&& image.byte_at(row, 4 * x + 1) == src[at + 1]
            &&& image.byte_at(row, 4 * x + 2) == src[at]
            &&& image.byte_at(row, 4 * x + 3) == src[at + 3]
        }),
{
    lemma_pixel_of_surface(image, ImageFormat::RgbaPremul, src, row, x, 0);
    lemma_pixel_of_surface(image, ImageFormat::RgbaPremul, src, row, x, 1);
    lemma_pixel_of_surface(image, ImageFormat::RgbaPremul, src, row, x, 2);
    lemma_pixel_of_surface(image, ImageFormat::RgbaPremul, src, row, x, 3);
}

/// An image from colours with separate alpha holds each colour scaled by
/// its pixel's alpha, red and blue in each other's place, and the alpha as
/// it was given.
pub proof fn lemma_separate_is_premultiplied(image: Image, src: Seq<u8>, row: int, x: int)
    requires
        image.holds_pixels_of(ImageFormat::RgbaSeparate, src),
        image.wf(),
        0 <= row < image.height,
        0 <= x < image.width,
    ensures
        ({
            let at = source_index(ImageFormat::RgbaSeparate, image.width as int, row, x);
            &&& image.byte_at(row, 4 * x) == premul_spec(src[at + 2], src[at + 3])
            &&& image.byte_at(row, 4 * x + 1) == premul_spec(src[at + 1], src[at + 3])
            &&& image.byte_at(row, 4 * x + 2) == premul_spec(src[at], src[at + 3])
            &&& image.byte_at(row, 4 * x + 3) == src[at + 3]
        }),
{
    let at = source_index(ImageFormat::RgbaSeparate, image.width as int, row, x);
    lemma_pixel_of_surface(image, ImageFormat::RgbaSeparate, src, row, x, 0);
    lemma_pixel_of_surface(image, ImageFormat::RgbaSeparate, src, row, x, 1);
    lemma_pixel_of_surface(image, ImageFormat::RgbaSeparate, src, row, x, 2);
    lemma_pixel_of_surface(image, ImageFormat::RgbaSeparate, src, row, x, 3);
    lemma_premul_is_bounded(src[at + 2], src[at + 3]);
    lemma_premul_is_bounded(src[at + 1], src[at + 3]);
    lemma_premul_is_bounded(src[at], src[at + 3]);
}

} // verus!
