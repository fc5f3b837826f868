//! Camera images on their way to becoming frames.

use crate::pixels::Pixels;
use crate::text;
use image::{DynamicImage, ImageBuffer};
use std::sync::Arc;
use vstd::prelude::*;

verus! {

/// An image as a camera delivers it.
#[allow(inconsistent_fields)]
#[derive(PartialEq, Eq, Debug)]
pub enum RawImage {
    /// 8-bit mono.
    Luma8 { width: u32, height: u32, data: Vec<u8> },
    /// 16-bit mono.
    Luma16 { width: u32, height: u32, data: Vec<u16> },
    /// Interleaved 8-bit color.
    Rgb8 { width: u32, height: u32, data: Vec<u8> },
    /// Any other interleaved layout: 2 channels are mono with alpha, 3 are
    /// color, 4 are color with alpha; `wide` samples have 16 bits, others 8.
    Other { width: u32, height: u32, channels: u8, wide: bool, data: Vec<u16> },
}

impl RawImage {
    pub open spec fn view_width(&self) -> u32 {
        match self {
            RawImage::Luma8 { width, .. } => *width,
            RawImage::Luma16 { width, .. } => *width,
            RawImage::Rgb8 { width, .. } => *width,
            RawImage::Other { width, .. } => *width,
        }
    }

    pub open spec fn view_height(&self) -> u32 {
        match self {
            RawImage::Luma8 { height, .. } => *height,
            RawImage::Luma16 { height, .. } => *height,
            RawImage::Rgb8 { height, .. } => *height,
            RawImage::Other { height, .. } => *height,
        }
    }

    /// Does the layout exist, and are there as many samples as it needs?
    pub open spec fn wf(&self) -> bool {
        match self {
            RawImage::Luma8 { width, height, data } => data@.len() == *width * *height,
            RawImage::Luma16 { width, height, data } => data@.len() == *width * *height,
            RawImage::Rgb8 { width, height, data } => data@.len() == *width * *height * 3,
            RawImage::Other { width, height, channels, wide, data } => other_layout(
                *channels,
                *wide,
            ) && data@.len() == *width * *height * *channels,
        }
    }

    pub fn width(&self) -> (r: u32)
        ensures
            r == self.view_width(),
    {
        match self {
            RawImage::Luma8 { width, .. } => *width,
            RawImage::Luma16 { width, .. } => *width,
            RawImage::Rgb8 { width, .. } => *width,
            RawImage::Other { width, .. } => *width,
        }
    }

    pub fn height(&self) -> (r: u32)
        ensures
            r == self.view_height(),
    {
        match self {
            RawImage::Luma8 { height, .. } => *height,
            RawImage::Luma16 { height, .. } => *height,
            RawImage::Rgb8 { height, .. } => *height,
            RawImage::Other { height, .. } => *height,
        }
    }
}

/// The layouts of [`RawImage::Other`].
pub open spec fn other_layout(channels: u8, wide: bool) -> bool {
    channels == 2 || channels == 4 || (channels == 3 && wide)
}

/// The 8-bit mono form of an image of one of the other layouts.
pub uninterp spec fn luma8_of(
    width: u32,
    height: u32,
    channels: u8,
    wide: bool,
    samples: Seq<u16>,
) -> Seq<u8>;

/// Calls [`DynamicImage::to_luma8`] on the image that the samples make up. The
/// result depends on the image alone and has one sample per pixel; how color
/// and alpha are weighed is left unsaid.
#[verifier::external_body]
fn to_luma8(width: u32, height: u32, channels: u8, wide: bool, samples: &Vec<u16>) -> (r: Vec<u8>)
    requires
        other_layout(channels, wide),
        samples@.len() == width * height * channels,
    ensures
        r@ == luma8_of(width, height, channels, wide, samples@),
        r@.len() == width * height,
{
    let words = samples.clone();
    let bytes: Vec<u8> = samples.iter().map(|&v| v as u8).collect();
    let image = match (channels, wide) {
        (2, false) => ImageBuffer::from_raw(width, height, bytes).map(DynamicImage::ImageLumaA8),
        (4, false) => ImageBuffer::from_raw(width, height, bytes).map(DynamicImage::ImageRgba8),
        (2, true) => ImageBuffer::from_raw(width, height, words).map(DynamicImage::ImageLumaA16),
        (3, true) => ImageBuffer::from_raw(width, height, words).map(DynamicImage::ImageRgb16),
        _ => ImageBuffer::from_raw(width, height, words).map(DynamicImage::ImageRgba16),
    };
    image.unwrap().to_luma8().into_raw()
}

/// A frame's pixels with their geometry and depth.
pub struct FramePixels<F> {
    pub mono: Pixels<F>,
    pub width: u32,
    pub height: u32,
    pub bit_depth: u8,
}

/// The same samples in 16 bits.
pub open spec fn in_u16(v: Seq<u8>) -> Seq<u16> {
    v.map_values(|x: u8| x as u16)
}

fn bytes_to_u16(v: &Vec<u8>) -> (r: Vec<u16>)
    ensures
        r@ == in_u16(v@),
{
    let mut out: Vec<u16> = Vec::new();
    for i in 0..v.len()
        invariant
            out@ == in_u16(v@).take(i as int),
    {
        out.push(v[i] as u16);
        assert(out@ =~= in_u16(v@).take(i as int + 1));
    }
    assert(in_u16(v@).take(v@.len() as int) =~= in_u16(v@));
    out
}

/// Is `out` what `luma` makes of the interleaved color samples, pixel by
/// pixel?
pub open spec fn luma_pixels<F, L: Fn(u8, u8, u8) -> F>(
    data: Seq<u8>,
    luma: L,
    out: Seq<F>,
) -> bool {
    out.len() * 3 == data.len() && forall|i: int|
        0 <= i < out.len() ==> call_ensures(
            luma,
            (data[3 * i], data[3 * i + 1], data[3 * i + 2]),
            #[trigger] out[i],
        )
}

/// Turns a camera image into a frame's pixels. Integer mono images stay `u16`;
/// only the weighting of colors, which is fractional and is done by `luma`,
/// needs `F`.
pub fn process_image<F: Copy, L: Fn(u8, u8, u8) -> F>(
    img: &RawImage,
    bit_depth: u8,
    luma: L,
) -> (r: FramePixels<F>)
    requires
        img.wf(),
        forall|a: u8, b: u8, c: u8| call_requires(luma, (a, b, c)),
    ensures
        r.width == img.view_width(),
        r.height == img.view_height(),
        r.bit_depth == bit_depth,
        match img {
            RawImage::Luma8 { data, .. } => r.mono matches Pixels::U16(v) && v@ == in_u16(data@),
            RawImage::Luma16 { data, .. } => r.mono matches Pixels::U16(v) && v@ == data@,
            RawImage::Rgb8 { data, .. } => r.mono matches Pixels::F32(v) && luma_pixels(
                data@,
                luma,
                v@,
            ),
            RawImage::Other { width, height, channels, wide, data } => r.mono matches Pixels::U16(
                v,
            ) && v@ == in_u16(luma8_of(*width, *height, *channels, *wide, data@)),
        },
        r.mono.count() == r.width * r.height,
{
    let width: u32 = img.width();
    let height: u32 = img.height();
    let mono: Pixels<F> = match img {
        RawImage::Luma8 { data, .. } => Pixels::U16(Arc::new(bytes_to_u16(data))),
        RawImage::Luma16 { data, .. } => {
            let copy: Vec<u16> = data.clone();
            assert(copy@ =~= data@);
            Pixels::U16(Arc::new(copy))
        },
        RawImage::Rgb8 { data, .. } => {
            let mut out: Vec<F> = Vec::new();
            let n: usize = data.len() / 3;
            for i in 0..n
                invariant
                    n * 3 == data.len(),
                    forall|a: u8, b: u8, c: u8| call_requires(luma, (a, b, c)),
                    out.len() == i,
                    forall|j: int|
                        0 <= j < i ==> call_ensures(
                            luma,
                            (data@[3 * j], data@[3 * j + 1], data@[3 * j + 2]),
                            #[trigger] out@[j],
                        ),
            {
                let x: F = luma(data[3 * i], data[3 * i + 1], data[3 * i + 2]);
                out.push(x);
            }
            Pixels::F32(Arc::new(out))
        },
        RawImage::Other { width: w, height: h, channels, wide, data } => {
            let gray: Vec<u8> = to_luma8(*w, *h, *channels, *wide, data);
            Pixels::U16(Arc::new(bytes_to_u16(&gray)))
        },
    };
    FramePixels { mono, width, height, bit_depth }
}

// ---------------------------------------------------------------------------
// Bit depths

/// The largest sample value at a bit depth.
pub open spec fn full_scale_of(bit_depth: u8) -> int {
    vstd::arithmetic::power2::pow2(bit_depth as nat) - 1
}

/// The largest sample value at a bit depth.
pub fn full_scale(bit_depth: u8) -> (r: u64)
    requires
        bit_depth < 64,
    ensures
        r == full_scale_of(bit_depth),
{
    proof {
        vstd::arithmetic::power2::lemma_pow2_pos(bit_depth as nat);
        vstd::arithmetic::power2::lemma_pow2_strictly_increases(bit_depth as nat, 64);
        vstd::arithmetic::power2::lemma2_to64();
        vstd::arithmetic::power2::lemma2_to64_rest();
        vstd::bits::lemma_u64_shl_is_mul(1u64, bit_depth as u64);
    }
    let one: u64 = 1;
    (one << (bit_depth as u64)) - 1
}

/// The largest value that a sensor of this depth gives in 16-bit samples.
pub open spec fn native_max_of(bit_depth: u8) -> int {
    if bit_depth >= 16 {
        u16::MAX as int
    } else {
        full_scale_of(bit_depth)
    }
}

/// The largest value that a sensor of this depth gives in 16-bit samples.
pub fn native_max(bit_depth: u8) -> (r: u16)
    ensures
        r == native_max_of(bit_depth),
{
    if bit_depth >= 16 {
        u16::MAX
    } else {
        proof {
            vstd::arithmetic::power2::lemma_pow2_strictly_increases(bit_depth as nat, 16);
            vstd::arithmetic::power2::lemma2_to64();
        }
        full_scale(bit_depth) as u16
    }
}

/// `true` if any 16-bit sample exceeds the sensor's native range: proof that
/// the samples are left-justified.
pub fn image_exceeds(img: &RawImage, native_max: u16) -> (r: bool)
    ensures
        r == (img matches RawImage::Luma16 { data, .. } && exists|i: int|
            0 <= i < data@.len() && data@[i] > native_max),
{
    match img {
        RawImage::Luma16 { data, .. } => {
            for i in 0..data.len()
                invariant
                    img matches RawImage::Luma16 { data: d, .. } && d@ == data@,
                    forall|j: int| 0 <= j < i ==> data@[j] <= native_max,
            {
                if data[i] > native_max {
                    return true;
                }
            }
            false
        },
        _ => false,
    }
}

/// A sample divided by the `shift`th power of two.
pub open spec fn sample_shifted(v: u16, shift: u8) -> u16 {
    v / (vstd::arithmetic::power2::pow2(shift as nat) as u16)
}

/// The image with every 16-bit sample divided by the `shift`th power of two.
pub open spec fn shifted(img: RawImage, shift: u8, out: RawImage) -> bool {
    match img {
        RawImage::Luma16 { width, height, data } => out matches RawImage::Luma16 {
            width: w,
            height: h,
            data: d,
        } && w == width && h == height && d@ == data@.map_values(
            |v: u16| sample_shifted(v, shift),
        ),
        other => out == other,
    }
}

/// Right-shifts all 16-bit samples to recover native values where they come
/// left-justified (e.g. 12-bit data in the upper bits).
pub fn shift_image_right(img: RawImage, shift: u8) -> (r: RawImage)
    requires
        shift < 16,
    ensures
        shifted(img, shift, r),
{
    match img {
        RawImage::Luma16 { width, height, data } => {
            let mut out: Vec<u16> = Vec::new();
            let ghost f = |v: u16| sample_shifted(v, shift);
            for i in 0..data.len()
                invariant
                    shift < 16,
                    f == (|v: u16| sample_shifted(v, shift)),
                    out@ == data@.map_values(f).take(i as int),
            {
                let v: u16 = data[i];
                proof {
                    vstd::bits::lemma_u16_shr_is_div(v, shift as u16);
                    vstd::arithmetic::power2::lemma_pow2_strictly_increases(shift as nat, 16);
                    vstd::arithmetic::power2::lemma2_to64();
                    assert(f(v) == v >> (shift as u16));
                }
                out.push(v >> (shift as u16));
                assert(out@ =~= data@.map_values(f).take(i as int + 1));
            }
            assert(data@.map_values(f).take(data@.len() as int) =~= data@.map_values(f));
            RawImage::Luma16 { width, height, data: out }
        },
        other => other,
    }
}

/// Shifting left-justified samples of a sensor right by the unused bits gives
/// values in the native range, and gives back the value that was justified.
pub proof fn law_shift_restores_native(bit_depth: u8, native: u16, sample: u16)
    requires
        0 < bit_depth < 16,
        native as int <= native_max_of(bit_depth),
        sample as int == native * vstd::arithmetic::power2::pow2((16 - bit_depth) as nat),
    ensures
        sample_shifted(sample, (16 - bit_depth) as u8) == native,
{
    let k = (16 - bit_depth) as nat;
    vstd::arithmetic::power2::lemma_pow2_strictly_increases(k, 16);
    vstd::arithmetic::power2::lemma2_to64();
    vstd::arithmetic::power2::lemma_pow2_pos(k);
    vstd::arithmetic::div_mod::lemma_div_by_multiple(native as int, vstd::arithmetic::power2::pow2(k) as int);
}

/// Whatever the sample, shifting it right by the bits that the sensor does not
/// use brings it into the native range.
pub proof fn law_shift_lands_in_native_range(bit_depth: u8, sample: u16)
    requires
        0 < bit_depth < 16,
    ensures
        sample_shifted(sample, (16 - bit_depth) as u8) <= native_max_of(bit_depth),
{
    let k = (16 - bit_depth) as nat;
    vstd::arithmetic::power2::lemma_pow2_strictly_increases(k, 16);
    vstd::arithmetic::power2::lemma2_to64();
    vstd::arithmetic::power2::lemma_pow2_pos(k);
    vstd::arithmetic::power2::lemma_pow2_adds(k, bit_depth as nat);
    let d = vstd::arithmetic::power2::pow2(k) as int;
    let m = vstd::arithmetic::power2::pow2(bit_depth as nat) as int;
    assert(d * m == 65536);
    assert((sample as int) < d * m);
    assert((sample as int) / d < m) by (nonlinear_arith)
        requires
            d > 0,
            (sample as int) < d * m,
            sample >= 0,
    ;
}

// ---------------------------------------------------------------------------
// Mosaics

/// The color of the `i`th site of a mosaic in rows of `width`, by the colors of
/// a two by two cell, row by row.
pub open spec fn site_color(pattern: Seq<char>, width: int, i: int) -> Option<char> {
    let k = i / width % 2 * 2 + i % width % 2;
    if k < pattern.len() {
        Some(pattern[k])
    } else {
        None
    }
}

/// The samples at the sites of a color, in order.
pub open spec fn sites_of(data: Seq<u16>, width: int, pattern: Seq<char>, color: char) -> Seq<u16>
    decreases data.len(),
{
    if data.len() == 0 {
        Seq::empty()
    } else {
        let before = sites_of(data.drop_last(), width, pattern, color);
        if site_color(pattern, width, data.len() - 1) == Some(color) {
            before.push(data.last())
        } else {
            before
        }
    }
}

fn pick_sites(data: &Vec<u16>, width: u32, pattern: &str, color: char) -> (r: Vec<u16>)
    requires
        data@.len() > 0 ==> width > 0,
    ensures
        r@ == sites_of(data@, width as int, pattern@, color),
{
    let letters: Vec<char> = text::chars_of(pattern);
    let mut out: Vec<u16> = Vec::new();
    assert(data@.take(0) =~= Seq::<u16>::empty());
    for i in 0..data.len()
        invariant
            data@.len() > 0 ==> width > 0,
            letters@ == pattern@,
            out@ == sites_of(data@.take(i as int), width as int, pattern@, color),
    {
        assert(data@.take(i as int + 1).drop_last() =~= data@.take(i as int));
        let row: usize = width as usize;
        let k: usize = i / row % 2 * 2 + i % row % 2;
        if k < letters.len() && letters[k] == color {
            out.push(data[i]);
        }
    }
    assert(data@.take(data@.len() as int) =~= data@);
    out
}

/// The samples of a mono image at the sites of a color, in order; none for an
/// image that is not mono.
pub fn site_samples(img: &RawImage, pattern: &str, color: char) -> (r: Option<Vec<u16>>)
    requires
        img.wf(),
    ensures
        match *img {
            RawImage::Luma8 { width, height, data } => r matches Some(v) && v@ == sites_of(
                in_u16(data@),
                width as int,
                pattern@,
                color,
            ),
            RawImage::Luma16 { width, height, data } => r matches Some(v) && v@ == sites_of(
                data@,
                width as int,
                pattern@,
                color,
            ),
            _ => r is None,
        },
{
    match img {
        RawImage::Luma8 { width, height, data } => {
            let words: Vec<u16> = bytes_to_u16(data);
            assert(*width == 0 ==> *width * *height == 0) by (nonlinear_arith);
            Some(pick_sites(&words, *width, pattern, color))
        },
        RawImage::Luma16 { width, height, data } => {
            assert(*width == 0 ==> *width * *height == 0) by (nonlinear_arith);
            Some(pick_sites(data, *width, pattern, color))
        },
        _ => None,
    }
}

// ---------------------------------------------------------------------------
// Superpixels

/// The mean of the `i`th two by two cell of samples in rows of `width`, rounded
/// down. Cells count row by row from the top left; an odd last column has none.
pub open spec fn cell_mean(data: Seq<u16>, width: int, i: int) -> int {
    let x = i % (width / 2);
    let y = i / (width / 2);
    let at = 2 * y * width + 2 * x;
    (data[at] + data[at + 1] + data[at + width] + data[at + width + 1]) / 4
}

/// Is `out` the mean of each two by two cell?
pub open spec fn cells_averaged(data: Seq<u16>, width: u32, height: u32, out: Seq<u16>) -> bool {
    out.len() == (width / 2) * (height / 2) && forall|i: int|
        0 <= i < out.len() ==> (#[trigger] out[i]) == cell_mean(data, width as int, i)
}

/// Is `out` the image at half the size, each sample the mean of its two by two
/// cell? An image that is not mono stays as it is.
pub open spec fn averaged(img: RawImage, out: RawImage) -> bool {
    match img {
        RawImage::Luma8 { width, height, data } => out matches RawImage::Luma8 {
            width: w,
            height: h,
            data: d,
        } && w == width / 2 && h == height / 2 && cells_averaged(
            in_u16(data@),
            width,
            height,
            in_u16(d@),
        ),
        RawImage::Luma16 { width, height, data } => out matches RawImage::Luma16 {
            width: w,
            height: h,
            data: d,
        } && w == width / 2 && h == height / 2 && cells_averaged(data@, width, height, d@),
        other => out == other,
    }
}

/// The four samples of a cell stand within the image.
proof fn lemma_cell_within(width: int, height: int, x: int, y: int)
    requires
        0 <= x < width / 2,
        0 <= y < height / 2,
    ensures
        0 <= 2 * y * width + 2 * x,
        2 * y * width + 2 * x + width + 1 < width * height,
{
    assert(2 * y * width >= 0 && (2 * y + 2) * width <= width * height && 2 * y * width + 2 * width
        == (2 * y + 2) * width) by (nonlinear_arith)
        requires
            0 <= y,
            width >= 0,
            2 * y + 2 <= height,
    ;
}

fn average_samples(data: &Vec<u16>, width: u32, height: u32) -> (r: Vec<u16>)
    requires
        data@.len() == width * height,
    ensures
        cells_averaged(data@, width, height, r@),
{
    let w: usize = width as usize;
    let half: u32 = width / 2;
    let rows: u32 = height / 2;
    let mut out: Vec<u16> = Vec::new();
    assert(0 * half == 0);
    for y in 0..rows
        invariant
            w == width,
            half == width / 2,
            rows == height / 2,
            data@.len() == width * height,
            out@.len() == y * half,
            forall|i: int|
                0 <= i < out@.len() ==> (#[trigger] out@[i]) == cell_mean(data@, width as int, i),
    {
        for x in 0..half
            invariant
                w == width,
                half == width / 2,
                rows == height / 2,
                y < rows,
                data@.len() == width * height,
                out@.len() == y * half + x,
                forall|i: int|
                    0 <= i < out@.len() ==> (#[trigger] out@[i]) == cell_mean(
                        data@,
                        width as int,
                        i,
                    ),
        {
            proof {
                lemma_cell_within(width as int, height as int, x as int, y as int);
                vstd::arithmetic::div_mod::lemma_fundamental_div_mod_converse(
                    out@.len() as int,
                    half as int,
                    y as int,
                    x as int,
                );
                assert(2 * (y as int) * (w as int) >= 0) by (nonlinear_arith)
                    requires
                        y >= 0,
                        w >= 0,
                ;
            }
            let row: usize = (2 * y) as usize;
            let column: usize = (2 * x) as usize;
            assert(data.len() == width * height);
            let at: usize = row * w + column;
            let sum: u32 = data[at] as u32 + data[at + 1] as u32 + data[at + w] as u32 + data[at + w
                + 1] as u32;
            out.push((sum / 4) as u16);
        }
        proof {
            assert(y * half + half == (y + 1) * half) by (nonlinear_arith);
        }
    }
    assert((rows as int) * (half as int) == (half as int) * (rows as int)) by (nonlinear_arith);
    out
}

/// Averages each two by two cell of a mosaic into one mono pixel, which removes
/// the checkerboard without interpolating.
pub fn average_cells(img: RawImage) -> (r: RawImage)
    requires
        img.wf(),
    ensures
        averaged(img, r),
        r.wf(),
{
    match img {
        RawImage::Luma16 { width, height, data } => {
            let out: Vec<u16> = average_samples(&data, width, height);
            RawImage::Luma16 { width: width / 2, height: height / 2, data: out }
        },
        RawImage::Luma8 { width, height, data } => {
            let words: Vec<u16> = bytes_to_u16(&data);
            let means: Vec<u16> = average_samples(&words, width, height);
            let mut out: Vec<u8> = Vec::new();
            for i in 0..means.len()
                invariant
                    words@ == in_u16(data@),
                    data@.len() == width * height,
                    cells_averaged(words@, width, height, means@),
                    in_u16(out@) == means@.take(i as int),
            {
                proof {
                    lemma_small_mean(data@, width, height, i as int);
                }
                let mean: u16 = means[i];
                let ghost before = out@;
                out.push(mean as u8);
                assert(in_u16(out@) =~= in_u16(before).push(mean));
                assert(in_u16(out@) =~= means@.take(i as int + 1));
            }
            assert(means@.take(means@.len() as int) =~= means@);
            assert(in_u16(out@).len() == out@.len());
            RawImage::Luma8 { width: width / 2, height: height / 2, data: out }
        },
        other => other,
    }
}

/// The mean of four bytes is a byte.
proof fn lemma_small_mean(data: Seq<u8>, width: u32, height: u32, i: int)
    requires
        data.len() == width * height,
        0 <= i < (width / 2) * (height / 2),
    ensures
        0 <= cell_mean(in_u16(data), width as int, i) <= 255,
{
    let half = (width / 2) as int;
    let rows = (height / 2) as int;
    assert(half > 0) by (nonlinear_arith)
        requires
            0 <= i < half * rows,
            half >= 0,
    ;
    assert(0 <= i / half < rows && 0 <= i % half < half) by (nonlinear_arith)
        requires
            0 <= i < half * rows,
            half > 0,
    ;
    lemma_cell_within(width as int, height as int, i % half, i / half);
}

// ---------------------------------------------------------------------------
// What images keep to

/// A mono image becomes a frame with the very same samples, at its own size and
/// at the depth it was taken with. A color image becomes one number a pixel,
/// made of that pixel's red, green and blue.
pub proof fn law_frame_has_the_images_samples<F: Copy, L: Fn(u8, u8, u8) -> F>(
    img: RawImage,
    depth: u8,
    luma: L,
    r: FramePixels<F>,
    i: int,
)
    requires
        img.wf(),
        forall|a: u8, b: u8, c: u8| call_requires(luma, (a, b, c)),
        call_ensures(process_image::<F, L>, (&img, depth, luma), r),
    ensures
        r.bit_depth == depth,
        img matches RawImage::Luma8 { width, height, data } ==> r.width == width && r.height
            == height && (r.mono matches Pixels::U16(v) && v@.len() == data@.len() && (0 <= i
            < data@.len() ==> v@[i] == data@[i])),
        img matches RawImage::Luma16 { width, height, data } ==> r.width == width && r.height
            == height && (r.mono matches Pixels::U16(v) && v@ == data@),
        img matches RawImage::Rgb8 { width, height, data } ==> r.width == width && r.height
            == height && (r.mono matches Pixels::F32(v) && v@.len() == width * height && (0 <= i
            < v@.len() ==> call_ensures(
            luma,
            (data@[3 * i], data@[3 * i + 1], data@[3 * i + 2]),
            v@[i],
        ))),
        img matches RawImage::Other { width, height, .. } ==> r.width == width && r.height
            == height && (r.mono matches Pixels::U16(v) && v@.len() == width * height),
{
}

/// The full scale of a depth is all ones in that many bits: one bit more
/// doubles it and adds one.
pub proof fn law_full_scale_is_all_ones(depth: u8, a: u64, b: u64)
    requires
        depth < 63,
        call_ensures(full_scale, (depth,), a),
        call_ensures(full_scale, ((depth + 1) as u8,), b),
    ensures
        depth == 0 ==> a == 0,
        b == 2 * a + 1,
{
    vstd::arithmetic::power2::lemma_pow2_unfold((depth + 1) as nat);
    vstd::arithmetic::power2::lemma2_to64();
}

/// Sixteen bits hold at most 65535; below that the native maximum is the full
/// scale of the depth.
pub proof fn law_native_maximum(depth: u8, r: u16, full: u64)
    requires
        depth < 64,
        call_ensures(native_max, (depth,), r),
        call_ensures(full_scale, (depth,), full),
    ensures
        depth >= 16 ==> r == 65535,
        depth < 16 ==> r == full,
{
}

/// An image exceeds a maximum exactly when one of its 16-bit samples does.
pub proof fn law_image_exceeds(img: RawImage, max: u16, r: bool)
    requires
        call_ensures(image_exceeds, (&img, max), r),
    ensures
        img !is Luma16 ==> !r,
        img matches RawImage::Luma16 { data, .. } ==> (!r <==> forall|i: int|
            0 <= i < data@.len() ==> #[trigger] data@[i] <= max),
{
}

/// Samples that were left-justified come back as the sensor gave them: shifting
/// undoes the multiplication, sample by sample, and the image keeps its size.
pub proof fn law_shifting_undoes_justification(
    img: RawImage,
    depth: u8,
    r: RawImage,
    i: int,
    native: u16,
)
    requires
        0 < depth < 16,
        call_ensures(shift_image_right, (img, (16 - depth) as u8), r),
        native as int <= native_max_of(depth),
        img matches RawImage::Luma16 { data, .. } && 0 <= i < data@.len() && data@[i] as int
            == native * vstd::arithmetic::power2::pow2((16 - depth) as nat),
    ensures
        r matches RawImage::Luma16 { width, height, data } && width == img->Luma16_width && height
            == img->Luma16_height && data@.len() == img->Luma16_data@.len() && data@[i] == native,
{
    law_shift_restores_native(depth, native, img->Luma16_data@[i]);
}

/// Only 16-bit images are shifted.
pub proof fn law_other_images_are_not_shifted(img: RawImage, shift: u8, r: RawImage)
    requires
        shift < 16,
        call_ensures(shift_image_right, (img, shift), r),
        img !is Luma16,
    ensures
        r == img,
{
}

/// A superpixel is no brighter than the brightest of its four samples and no
/// darker than the darkest, so that a flat cell keeps its value; it stands at
/// half the column and half the row of its cell.
pub proof fn law_superpixel_lies_among_its_samples(img: RawImage, r: RawImage, x: int, y: int)
    requires
        img matches RawImage::Luma16 { width, height, data } && img.wf() && 0 <= x < width / 2 && 0
            <= y < height / 2,
        call_ensures(average_cells, (img,), r),
    ensures
        r matches RawImage::Luma16 { width, height, data } && width == img->Luma16_width / 2
            && height == img->Luma16_height / 2 && {
            let w = img->Luma16_width as int;
            let d = img->Luma16_data@;
            let v = data@[y * (w / 2) + x] as int;
            let a = d[2 * y * w + 2 * x] as int;
            let b = d[2 * y * w + 2 * x + 1] as int;
            let c = d[2 * y * w + 2 * x + w] as int;
            let e = d[2 * y * w + 2 * x + w + 1] as int;
            4 * v <= a + b + c + e < 4 * v + 4
        },
{
    let w = img->Luma16_width as int;
    let h = img->Luma16_height as int;
    let half = w / 2;
    let i = y * half + x;
    assert(0 <= i < half * (h / 2)) by (nonlinear_arith)
        requires
            i == y * half + x,
            0 <= x < half,
            0 <= y < h / 2,
    ;
    vstd::arithmetic::div_mod::lemma_fundamental_div_mod_converse(i, half, y, x);
    if let RawImage::Luma16 { width, height, data } = r {
        assert(data@[i] == cell_mean(img->Luma16_data@, w, i));
    }
}

/// The red, green and blue sites of a mosaic take every sample of the image to
/// one of them, as long as its four letters are those colors.
pub proof fn law_every_sample_has_a_color(pattern: Seq<char>, width: int, x: int, y: int)
    requires
        pattern.len() == 4,
        0 <= x < width,
        y >= 0,
    ensures
        site_color(pattern, width, y * width + x) == Some(
            if y % 2 == 0 && x % 2 == 0 {
                pattern[0]
            } else if y % 2 == 0 {
                pattern[1]
            } else if x % 2 == 0 {
                pattern[2]
            } else {
                pattern[3]
            },
        ),
{
    vstd::arithmetic::div_mod::lemma_fundamental_div_mod_converse(y * width + x, width, y, x);
}

/// A sample is among those of a color exactly as often as it stands at a site
/// of that color: the three colors share out the samples.
pub proof fn law_colors_share_out_the_samples(
    img: RawImage,
    pattern: &str,
    r: Option<Vec<u16>>,
    g: Option<Vec<u16>>,
    b: Option<Vec<u16>>,
)
    requires
        img.wf(),
        img is Luma16,
        pattern@.len() == 4,
        forall|i: int|
            0 <= i < 4 ==> #[trigger] pattern@[i] == 'R' || pattern@[i] == 'G' || pattern@[i] == 'B',
        call_ensures(site_samples, (&img, pattern, 'R'), r),
        call_ensures(site_samples, (&img, pattern, 'G'), g),
        call_ensures(site_samples, (&img, pattern, 'B'), b),
    ensures
        r is Some && g is Some && b is Some,
        r->0@.len() + g->0@.len() + b->0@.len() == img->Luma16_data@.len(),
{
    let d = img->Luma16_data@;
    let w = img->Luma16_width as int;
    if d.len() > 0 {
        assert(w > 0) by (nonlinear_arith)
            requires
                d.len() == w * img->Luma16_height,
                d.len() > 0,
                w >= 0,
        ;
        lemma_colors_share(d, w, pattern@);
    }
}

proof fn lemma_colors_share(d: Seq<u16>, w: int, p: Seq<char>)
    requires
        w > 0,
        p.len() == 4,
        forall|i: int| 0 <= i < 4 ==> #[trigger] p[i] == 'R' || p[i] == 'G' || p[i] == 'B',
    ensures
        sites_of(d, w, p, 'R').len() + sites_of(d, w, p, 'G').len() + sites_of(d, w, p, 'B').len()
            == d.len(),
    decreases d.len(),
{
    if d.len() > 0 {
        lemma_colors_share(d.drop_last(), w, p);
        let i = d.len() - 1;
        let k = i / w % 2 * 2 + i % w % 2;
        assert(0 <= k < 4);
        assert(p[k] == 'R' || p[k] == 'G' || p[k] == 'B');
    }
}

/// An image is as wide and as high as it says, in every layout.
pub proof fn law_images_have_their_own_size(img: RawImage, w: u32, h: u32)
    requires
        call_ensures(RawImage::width, (&img,), w),
        call_ensures(RawImage::height, (&img,), h),
    ensures
        match img {
            RawImage::Luma8 { width, height, .. } => w == width && h == height,
            RawImage::Luma16 { width, height, .. } => w == width && h == height,
            RawImage::Rgb8 { width, height, .. } => w == width && h == height,
            RawImage::Other { width, height, .. } => w == width && h == height,
        },
{
}

/// A mosaic of bytes is averaged as one of words is: each pixel is the mean of
/// the four samples of its own cell. An image in any other layout stays.
pub proof fn law_bytes_are_averaged_alike(img: RawImage, r: RawImage, x: int, y: int)
    requires
        img.wf(),
        call_ensures(average_cells, (img,), r),
    ensures
        img is Rgb8 || img is Other ==> r == img,
        img matches RawImage::Luma8 { width, height, data } ==> (r matches RawImage::Luma8 {
            width: w,
            height: h,
            data: d,
        } && w == width / 2 && h == height / 2 && (0 <= x < width / 2 && 0 <= y < height / 2 ==> ({
            let v = d@[y * (width / 2) + x] as int;
            let p = data@[2 * y * width + 2 * x] as int;
            let q = data@[2 * y * width + 2 * x + 1] as int;
            let s = data@[2 * y * width + 2 * x + width] as int;
            let t = data@[2 * y * width + 2 * x + width + 1] as int;
            4 * v <= p + q + s + t < 4 * v + 4
        }))),
{
    if let RawImage::Luma8 { width, height, data } = img {
        if let RawImage::Luma8 { width: ow, height: oh, data: out } = r {
            if 0 <= x < width / 2 && 0 <= y < height / 2 {
                let w = width as int;
                let h = height as int;
                let half = w / 2;
                let i = y * half + x;
                assert(0 <= i < half * (h / 2)) by (nonlinear_arith)
                    requires
                        i == y * half + x,
                        0 <= x < half,
                        0 <= y < h / 2,
                ;
                vstd::arithmetic::div_mod::lemma_fundamental_div_mod_converse(i, half, y, x);
                let words = in_u16(data@);
                let means = in_u16(out@);
                assert(means[i] == cell_mean(words, w, i));
                assert(means[i] == out@[i] as u16);
                let at = 2 * y * w + 2 * x;
                assert(0 <= at && at + w + 1 < w * h) by (nonlinear_arith)
                    requires
                        at == 2 * y * w + 2 * x,
                        0 <= x < w / 2,
                        0 <= y < h / 2,
                ;
                assert(words[at] == data@[at] as u16);
                assert(words[at + 1] == data@[at + 1] as u16);
                assert(words[at + w] == data@[at + w] as u16);
                assert(words[at + w + 1] == data@[at + w + 1] as u16);
            }
        }
    }
}

/// The samples of a color stand at its sites, and every site of the color gives
/// its sample.
proof fn lemma_sites(data: Seq<u16>, width: int, pattern: Seq<char>, color: char, i: int, k: int)
    ensures
        0 <= i < data.len() && site_color(pattern, width, i) == Some(color) ==> sites_of(
            data,
            width,
            pattern,
            color,
        ).contains(data[i]),
        0 <= k < sites_of(data, width, pattern, color).len() ==> exists|j: int|
            0 <= j < data.len() && (#[trigger] data[j]) == sites_of(data, width, pattern, color)[k]
                && site_color(pattern, width, j) == Some(color),
    decreases data.len(),
{
    if data.len() > 0 {
        let w = data.drop_last();
        lemma_sites(w, width, pattern, color, i, k);
        let head = sites_of(w, width, pattern, color);
        let all = sites_of(data, width, pattern, color);
        let n = data.len() - 1;
        if 0 <= i < data.len() && site_color(pattern, width, i) == Some(color) {
            if i < n {
                assert(w[i] == data[i]);
                let m = choose|m: int| 0 <= m < head.len() && head[m] == data[i];
                assert(all[m] == data[i]);
            } else {
                assert(all[head.len() as int] == data[i]);
            }
        }
        if 0 <= k < all.len() {
            if k < head.len() {
                let j = choose|j: int|
                    0 <= j < w.len() && (#[trigger] w[j]) == head[k] && site_color(
                        pattern,
                        width,
                        j,
                    ) == Some(color);
                assert(data[j] == w[j]);
            } else {
                assert(data[n] == all[k]);
            }
        }
    }
}

/// The samples of a color are those whose column and row have that letter in
/// the pattern, which repeats over two columns and two rows.
pub proof fn law_samples_of_a_color_stand_at_its_sites(
    img: RawImage,
    pattern: &str,
    color: char,
    r: Option<Vec<u16>>,
    x: int,
    y: int,
)
    requires
        img.wf(),
        img is Luma16,
        pattern@.len() == 4,
        call_ensures(site_samples, (&img, pattern, color), r),
        0 <= x < img->Luma16_width,
        0 <= y < img->Luma16_height,
    ensures
        r is Some,
        ({
            let letter = if y % 2 == 0 {
                if x % 2 == 0 {
                    pattern@[0]
                } else {
                    pattern@[1]
                }
            } else if x % 2 == 0 {
                pattern@[2]
            } else {
                pattern@[3]
            };
            letter == color ==> r->0@.contains(
                img->Luma16_data@[y * img->Luma16_width + x],
            )
        }),
        (forall|k: int| 0 <= k < 4 ==> #[trigger] pattern@[k] != color) ==> r->0@.len() == 0,
{
    let w = img->Luma16_width as int;
    let h = img->Luma16_height as int;
    let d = img->Luma16_data@;
    let i = y * w + x;
    assert(0 <= i < w * h) by (nonlinear_arith)
        requires
            i == y * w + x,
            0 <= x < w,
            0 <= y < h,
    ;
    vstd::arithmetic::div_mod::lemma_fundamental_div_mod_converse(i, w, y, x);
    lemma_sites(d, w, pattern@, color, i, 0);
}

/// Only a mono image has sites.
pub proof fn law_color_images_have_no_sites(
    img: RawImage,
    pattern: &str,
    color: char,
    r: Option<Vec<u16>>,
)
    requires
        img.wf(),
        call_ensures(site_samples, (&img, pattern, color), r),
    ensures
        r is Some <==> img is Luma8 || img is Luma16,
{
}

} // verus!
