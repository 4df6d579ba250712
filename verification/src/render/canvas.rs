//! Integer drawing on an RGBA pixel buffer (row-major, `img_width` pixels
//! per row) and PNG encoding of the finished image.

use super::color::Color;
use crate::fields::FieldDef;
use vstd::prelude::*;

verus! {

/// Whether pixel `i` lies in one of the first `rows` rows of an image
/// `img_width` pixels wide, within its first `data_width` columns (rows may
/// overlap when `data_width` exceeds `img_width`).
pub open spec fn in_data_area(img_width: u32, data_width: u32, rows: int, i: int) -> bool {
    exists|y: int| 0 <= y < rows && #[trigger] (y * img_width) <= i < y * img_width + data_width
}

/// Whether the `u32` pixel index of every point of a `data_width` by
/// `height` area stays in range.
pub open spec fn data_area_fits(img_width: u32, height: u32, data_width: u32) -> bool {
    height > 0 && data_width > 0 ==> (height - 1) * img_width + data_width - 1 <= u32::MAX
}

/// Whether `fill_data_area` can index every point of the area in `u32`.
pub fn data_area_in_range(img_width: u32, height: u32, data_width: u32) -> (r: bool)
    ensures
        r == data_area_fits(img_width, height, data_width),
{
    if height == 0 || data_width == 0 {
        return true;
    }
    let rows = (height - 1) as u64;
    assert(rows * img_width <= 0xffff_ffff * 0xffff_ffff) by (nonlinear_arith)
        requires
            rows <= 0xffff_ffff,
            img_width <= 0xffff_ffff,
    ;
    let last = rows * (img_width as u64) + (data_width as u64) - 1;
    last <= 0xffff_ffff
}

/// Fills the data area (the first `data_width` columns of the `height` rows)
/// of the image with `color`; indexes past the buffer are skipped.
pub fn fill_data_area(pixels: &mut Vec<Color>, img_width: u32, height: u32, data_width: u32, color: Color)
    requires
        data_area_fits(img_width, height, data_width),
    ensures
        final(pixels)@.len() == old(pixels)@.len(),
        forall|i: int|
            0 <= i < old(pixels)@.len() ==> #[trigger] final(pixels)@[i] == if in_data_area(
                img_width,
                data_width,
                height as int,
                i,
            ) {
                color
            } else {
                old(pixels)@[i]
            },
{
    let ghost before = pixels@;
    let mut y: u32 = 0;
    while y < height
        invariant
            y <= height,
            data_area_fits(img_width, height, data_width),
            pixels@.len() == before.len(),
            forall|i: int|
                0 <= i < before.len() ==> #[trigger] pixels@[i] == if in_data_area(
                    img_width,
                    data_width,
                    y as int,
                    i,
                ) {
                    color
                } else {
                    before[i]
                },
        decreases height - y,
    {
        assert(y * img_width <= (height - 1) * img_width) by (nonlinear_arith)
            requires
                y < height,
        ;
        let mut x: u32 = 0;
        while x < data_width
            invariant
                y < height,
                x <= data_width,
                y * img_width <= (height - 1) * img_width,
                data_area_fits(img_width, height, data_width),
                pixels@.len() == before.len(),
                forall|i: int|
                    0 <= i < before.len() ==> #[trigger] pixels@[i] == if in_data_area(
                        img_width,
                        data_width,
                        y as int,
                        i,
                    ) || (y * img_width <= i < y * img_width + x) {
                        color
                    } else {
                        before[i]
                    },
            decreases data_width - x,
        {
            let idx = (y * img_width + x) as usize;
            if idx < pixels.len() {
                pixels.set(idx, color);
            }
            x = x + 1;
        }
        assert forall|i: int| 0 <= i < before.len() implies #[trigger] pixels@[i] == if in_data_area(
            img_width,
            data_width,
            y + 1,
            i,
        ) {
            color
        } else {
            before[i]
        } by {
            if in_data_area(img_width, data_width, y as int, i) {
                let w = choose|w: int| 0 <= w < y && #[trigger] (w * img_width) <= i < w * img_width + data_width;
                assert(0 <= w < y + 1 && w * img_width <= i < w * img_width + data_width);
            }
            if y * img_width <= i < y * img_width + data_width {
                assert(0 <= y < y + 1 && (y * img_width) <= i < y * img_width + data_width);
            }
            if in_data_area(img_width, data_width, y + 1, i) {
                let w = choose|w: int| 0 <= w < y + 1 && #[trigger] (w * img_width) <= i < w * img_width + data_width;
                if w < y {
                    assert(in_data_area(img_width, data_width, y as int, i));
                }
            }
        }
        y = y + 1;
    }
}

/// How many rows the title band covers in a buffer of `len` pixels: 20, or
/// fewer when the buffer (its length taken as a `u32`) has fewer whole rows.
pub open spec fn title_band_rows(len: nat, img_width: u32) -> int {
    let whole_rows = (len as u32) / img_width;
    if whole_rows < 20 {
        whole_rows as int
    } else {
        20
    }
}

/// A pixel under the title band: each colour channel averaged with the band
/// colour (10, 10, 20), fully opaque.
pub open spec fn title_shade(c: Color) -> Color {
    [((c[0] + 10) / 2) as u8, ((c[1] + 10) / 2) as u8, ((c[2] + 20) / 2) as u8, 255u8]
}

/// Darkens the top 20 rows of the image into a title band.
pub fn draw_title(pixels: &mut Vec<Color>, img_width: u32, _field: &FieldDef)
    requires
        img_width > 0,
    ensures
        final(pixels)@.len() == old(pixels)@.len(),
        forall|i: int|
            0 <= i < old(pixels)@.len() ==> #[trigger] final(pixels)@[i] == if i < title_band_rows(
                old(pixels)@.len(),
                img_width,
            ) * img_width {
                title_shade(old(pixels)@[i])
            } else {
                old(pixels)@[i]
            },
{
    let ghost before = pixels@;
    let band_height: u32 = 20;
    let whole_rows: u32 = (pixels.len() as u32) / img_width;
    let rows: u32 = if band_height < whole_rows { band_height } else { whole_rows };
    assert(rows == title_band_rows(before.len(), img_width));
    assert(rows * img_width <= (before.len() as u32)) by (nonlinear_arith)
        requires
            rows <= (before.len() as u32) / img_width,
            img_width > 0,
    ;
    let n: usize = pixels.len();
    assert((n as u32) <= n) by (bit_vector);
    let mut y: u32 = 0;
    while y < rows
        invariant
            y <= rows,
            rows == title_band_rows(before.len(), img_width),
            rows * img_width <= before.len(),
            rows * img_width <= u32::MAX,
            img_width > 0,
            pixels@.len() == before.len(),
            forall|i: int|
                0 <= i < before.len() ==> #[trigger] pixels@[i] == if i < y * img_width {
                    title_shade(before[i])
                } else {
                    before[i]
                },
        decreases rows - y,
    {
        assert((y + 1) * img_width <= rows * img_width) by (nonlinear_arith)
            requires
                y + 1 <= rows,
        ;
        assert((y + 1) * img_width == y * img_width + img_width) by (nonlinear_arith);
        let mut x: u32 = 0;
        while x < img_width
            invariant
                y < rows,
                x <= img_width,
                (y + 1) * img_width <= rows * img_width,
                rows * img_width <= before.len(),
                rows * img_width <= u32::MAX,
                (y + 1) * img_width == y * img_width + img_width,
                pixels@.len() == before.len(),
                forall|i: int|
                    0 <= i < before.len() ==> #[trigger] pixels@[i] == if i < y * img_width + x {
                        title_shade(before[i])
                    } else {
                        before[i]
                    },
            decreases img_width - x,
        {
            let idx = (y * img_width + x) as usize;
            let existing = pixels[idx];
            assert(existing == before[idx as int]);
            let shaded: Color = [
                ((existing[0] as u16 + 10) / 2) as u8,
                ((existing[1] as u16 + 10) / 2) as u8,
                ((existing[2] as u16 + 20) / 2) as u8,
                255,
            ];
            assert(shaded =~= title_shade(before[idx as int]));
            pixels.set(idx, shaded);
            x = x + 1;
        }
        y = y + 1;
    }
}

/// Column of point `j` (of the 3x3 block, row by row) of a number mark at
/// `x`: the block is centred two pixels right of `x`, taken as `i32`.
pub open spec fn mark_px(x: u32, j: int) -> int {
    (x as i32) + 2 + (j % 3 - 1)
}

/// Row of point `j` of a number mark at `y`, taken as `i32`.
pub open spec fn mark_py(y: u32, j: int) -> int {
    (y as i32) + (j / 3 - 1)
}

/// Whether point `j` of a number mark at `(x, y)` lies in the image.
pub open spec fn mark_in_image(img_width: u32, height: u32, x: u32, y: u32, j: int) -> bool {
    0 <= mark_px(x, j) < (img_width as i32) && 0 <= mark_py(y, j) < (height as i32)
}

/// Whether point `j` of a number mark at `(x, y)` is pixel `i`.
pub open spec fn mark_point_hits(img_width: u32, height: u32, x: u32, y: u32, j: int, i: int) -> bool {
    mark_in_image(img_width, height, x, y, j) && mark_py(y, j) * (img_width as i32) + mark_px(x, j) == i
}

/// Whether the `i32` pixel arithmetic of a number mark at `(x, y)` stays in
/// range: the block's columns and rows fit, and so does every in-image index.
pub open spec fn number_mark_fits(img_width: u32, height: u32, x: u32, y: u32) -> bool {
    &&& (x as i32) + 3 <= i32::MAX
    &&& i32::MIN < (y as i32) < i32::MAX
    &&& forall|j: int|
        0 <= j < 9 && #[trigger] mark_in_image(img_width, height, x, y, j) ==> mark_py(y, j) * (
        img_width as i32) + mark_px(x, j) <= i32::MAX
}

/// Whether `draw_number` keeps its `i32` pixel arithmetic in range for a
/// mark at `(x, y)`.
pub fn number_mark_in_range(img_width: u32, height: u32, x: u32, y: u32) -> (r: bool)
    ensures
        r == number_mark_fits(img_width, height, x, y),
{
    let xi = x as i32;
    let yi = y as i32;
    let w = img_width as i32;
    let h = height as i32;
    if xi > 0x7fff_fffc || yi == -0x8000_0000 || yi == 0x7fff_ffff {
        return false;
    }
    let mut j: i64 = 0;
    while j < 9
        invariant
            0 <= j <= 9,
            xi == x as i32,
            yi == y as i32,
            w == img_width as i32,
            h == height as i32,
            (x as i32) + 3 <= i32::MAX,
            i32::MIN < (y as i32) < i32::MAX,
            forall|k: int|
                0 <= k < j && #[trigger] mark_in_image(img_width, height, x, y, k) ==> mark_py(y, k) * (
                img_width as i32) + mark_px(x, k) <= i32::MAX,
        decreases 9 - j,
    {
        let px = xi as i64 + 2 + (j % 3 - 1);
        let py = yi as i64 + (j / 3 - 1);
        assert(px == mark_px(x, j as int) && py == mark_py(y, j as int));
        if 0 <= px && px < w as i64 && 0 <= py && py < h as i64 {
            assert(py * w <= 0x7fff_ffff * 0x7fff_ffff) by (nonlinear_arith)
                requires
                    0 <= py < 0x7fff_ffff,
                    0 <= w <= 0x7fff_ffff,
            ;
            if py * (w as i64) + px > 0x7fff_ffff {
                assert(mark_in_image(img_width, height, x, y, j as int));
                return false;
            }
        }
        j = j + 1;
    }
    true
}

/// Draws the 3x3 marker that stands for a legend number at `(x, y)`: the
/// pixels of the block centred on `(x + 2, y)` that lie in the image and in
/// the buffer take `color`.
pub fn draw_number(pixels: &mut Vec<Color>, img_width: u32, height: u32, x: u32, y: u32, color: Color)
    requires
        number_mark_fits(img_width, height, x, y),
    ensures
        final(pixels)@.len() == old(pixels)@.len(),
        forall|i: int|
            0 <= i < old(pixels)@.len() ==> #[trigger] final(pixels)@[i] == if exists|j: int|
                0 <= j < 9 && mark_point_hits(img_width, height, x, y, j, i) {
                color
            } else {
                old(pixels)@[i]
            },
{
    let ghost before = pixels@;
    let cx: i32 = x as i32 + 2;
    let cy: i32 = y as i32;
    let w: i32 = img_width as i32;
    let h: i32 = height as i32;
    let mut j: usize = 0;
    while j < 9
        invariant
            j <= 9,
            number_mark_fits(img_width, height, x, y),
            cx == (x as i32) + 2,
            cy == y as i32,
            w == img_width as i32,
            h == height as i32,
            pixels@.len() == before.len(),
            forall|i: int|
                0 <= i < before.len() ==> #[trigger] pixels@[i] == if exists|k: int|
                    0 <= k < j && mark_point_hits(img_width, height, x, y, k, i) {
                    color
                } else {
                    before[i]
                },
        decreases 9 - j,
    {
        let dy: i32 = (j / 3) as i32 - 1;
        let dx: i32 = (j % 3) as i32 - 1;
        let px = cx + dx;
        let py = cy + dy;
        let ghost jj = j as int;
        if px >= 0 && px < w && py >= 0 && py < h {
            assert(mark_in_image(img_width, height, x, y, jj));
            assert(py * w + px <= i32::MAX);
            assert(py * w + px >= 0) by (nonlinear_arith)
                requires
                    py >= 0,
                    w >= 0,
                    px >= 0,
            ;
            let idx = (py * w + px) as usize;
            if idx < pixels.len() {
                pixels.set(idx, color);
                assert(mark_point_hits(img_width, height, x, y, jj, idx as int));
            }
            assert forall|i: int| 0 <= i < before.len() implies #[trigger] pixels@[i] == if exists|k: int|
                0 <= k < j + 1 && mark_point_hits(img_width, height, x, y, k, i) {
                color
            } else {
                before[i]
            } by {
                if mark_point_hits(img_width, height, x, y, jj, i) {
                    assert(i == idx);
                } else {
                    if exists|k: int| 0 <= k < j + 1 && mark_point_hits(img_width, height, x, y, k, i) {
                        let k = choose|k: int| 0 <= k < j + 1 && mark_point_hits(img_width, height, x, y, k, i);
                        assert(k < j);
                    }
                }
            }
        } else {
            assert forall|i: int| 0 <= i < before.len() implies #[trigger] pixels@[i] == if exists|k: int|
                0 <= k < j + 1 && mark_point_hits(img_width, height, x, y, k, i) {
                color
            } else {
                before[i]
            } by {
                assert(!mark_point_hits(img_width, height, x, y, jj, i));
                if exists|k: int| 0 <= k < j + 1 && mark_point_hits(img_width, height, x, y, k, i) {
                    let k = choose|k: int| 0 <= k < j + 1 && mark_point_hits(img_width, height, x, y, k, i);
                    assert(k < j);
                }
            }
        }
        j = j + 1;
    }
}

/// The bytes of an RGBA pixel sequence: four per pixel, in order.
pub open spec fn rgba_bytes(pixels: Seq<Color>) -> Seq<u8> {
    Seq::new(4 * pixels.len(), |k: int| pixels[k / 4][k % 4])
}

/// Flattens pixels into RGBA bytes.
pub fn flatten_pixels(pixels: &[Color]) -> (r: Vec<u8>)
    requires
        4 * pixels@.len() <= usize::MAX,
    ensures
        r@ == rgba_bytes(pixels@),
{
    let mut out: Vec<u8> = Vec::new();
    let mut i: usize = 0;
    while i < pixels.len()
        invariant
            i <= pixels@.len(),
            4 * pixels@.len() <= usize::MAX,
            out@.len() == 4 * i,
            forall|k: int| 0 <= k < 4 * i ==> #[trigger] out@[k] == pixels@[k / 4][k % 4],
        decreases pixels@.len() - i,
    {
        let c = pixels[i];
        let ghost n = out@.len() as int;
        out.push(c[0]);
        out.push(c[1]);
        out.push(c[2]);
        out.push(c[3]);
        assert forall|k: int| 0 <= k < 4 * (i + 1) implies #[trigger] out@[k] == pixels@[k / 4][k % 4] by {
            if k >= 4 * i {
                assert(k / 4 == i as int && k % 4 == k - 4 * i) by (nonlinear_arith)
                    requires
                        4 * i <= k < 4 * i + 4,
                ;
            }
        }
        i = i + 1;
    }
    assert(out@ =~= rgba_bytes(pixels@));
    out
}

/// Why a PNG could not be written.
#[derive(Debug)]
pub enum PngError {
    /// Writing the PNG header failed.
    Header(png::EncodingError),
    /// Writing the image data failed.
    ImageData(png::EncodingError),
}

/// `png::EncodingError`, carried through unread.
#[verifier::external_type_specification]
#[verifier::external_body]
pub struct ExEncodingError(png::EncodingError);

/// The PNG file that the `png` crate writes for an 8-bit RGBA image of the
/// given size and bytes, with fast compression and its default filter.
pub uninterp spec fn png_rgba8_fast(width: u32, height: u32, data: Seq<u8>) -> Seq<u8>;

/// `png::Encoder` (8-bit RGBA, `Compression::Fast`): writes the header and
/// then the image data into a byte vector. The bytes written depend on the
/// size and data alone. The header is refused for a zero width or height.
/// The image data is refused unless it holds exactly `4 * width * height`
/// bytes. Nothing else fails: 8-bit RGBA is a valid combination, and every
/// write goes into an in-memory vector, which cannot fail. The encoder
/// computes the image size `4 * width * height` in `usize`, which must not
/// overflow.
#[verifier::external_body]
fn png_encode_rgba(data: &[u8], width: u32, height: u32) -> (r: Result<Vec<u8>, PngError>)
    requires
        4 * width * height <= usize::MAX,
    ensures
        r matches Ok(bytes) ==> bytes@ == png_rgba8_fast(width, height, data@),
        r is Ok <==> (width > 0 && height > 0 && data@.len() == 4 * width * height),
{
    let mut out: Vec<u8> = Vec::new();
    {
        let mut encoder = png::Encoder::new(std::io::BufWriter::new(&mut out), width, height);
        encoder.set_color(png::ColorType::Rgba);
        encoder.set_depth(png::BitDepth::Eight);
        encoder.set_compression(png::Compression::Fast);
        let mut writer = encoder.write_header().map_err(PngError::Header)?;
        writer.write_image_data(data).map_err(PngError::ImageData)?;
    }
    Ok(out)
}

/// Encodes RGBA pixel data, `width` by `height`, as a PNG file.
pub fn encode_png(pixels: &[Color], width: u32, height: u32) -> (r: Result<Vec<u8>, PngError>)
    requires
        4 * pixels@.len() <= usize::MAX,
        4 * width * height <= usize::MAX,
    ensures
        r matches Ok(bytes) ==> bytes@ == png_rgba8_fast(width, height, rgba_bytes(pixels@)),
        r is Ok <==> (width > 0 && height > 0 && pixels@.len() == width * height),
{
    let flat = flatten_pixels(pixels);
    assert((4 * pixels@.len() == 4 * width * height) <==> (pixels@.len() == width * height))
        by (nonlinear_arith);
    png_encode_rgba(flat.as_slice(), width, height)
}

} // verus!
