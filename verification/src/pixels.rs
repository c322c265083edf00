//! Pixel-level model of a decoded image.
//!
//! A decoded image is held as plain bytes with its dimensions and pixel
//! layout; the conversions between layouts and the lossy pre-quantization
//! pass of the PNG encoder are verified byte for byte.

use vstd::prelude::*;

verus! {

/// The pixel layouts the pipeline distinguishes after decoding.
#[derive(Debug, Clone, Copy, PartialEq, Eq, Structural)]
pub enum PixelKind {
    L8,
    La8,
    Rgb8,
    Rgba8,
}

pub open spec fn bytes_per_pixel(k: PixelKind) -> int {
    match k {
        PixelKind::L8 => 1,
        PixelKind::La8 => 2,
        PixelKind::Rgb8 => 3,
        PixelKind::Rgba8 => 4,
    }
}

/// Whether the layout carries an alpha channel.
pub open spec fn has_alpha(k: PixelKind) -> bool {
    k == PixelKind::La8 || k == PixelKind::Rgba8
}

/// Executable twin of `bytes_per_pixel`.
pub fn bytes_per_pixel_of(k: PixelKind) -> (r: usize)
    ensures
        r as int == bytes_per_pixel(k),
{
    match k {
        PixelKind::L8 => 1,
        PixelKind::La8 => 2,
        PixelKind::Rgb8 => 3,
        PixelKind::Rgba8 => 4,
    }
}

/// Executable twin of `has_alpha`.
pub fn pixel_has_alpha(k: PixelKind) -> (r: bool)
    ensures
        r == has_alpha(k),
{
    match k {
        PixelKind::La8 => true,
        PixelKind::Rgba8 => true,
        _ => false,
    }
}

/// A decoded image: raw channel bytes in row-major order.
#[derive(Debug, Clone)]
pub struct RawImage {
    pub width: u32,
    pub height: u32,
    pub color: PixelKind,
    pub data: Vec<u8>,
}

impl RawImage {
    /// The data holds exactly one byte per channel per pixel.
    pub open spec fn wf(&self) -> bool {
        self.data@.len() == self.width as int * self.height as int * bytes_per_pixel(self.color)
    }

    /// The widest conversion target, four bytes per pixel, stays
    /// addressable.
    pub open spec fn fits(&self) -> bool {
        self.width as int * self.height as int * 4 <= usize::MAX as int
    }

    pub open spec fn pixel_count(&self) -> int {
        self.width as int * self.height as int
    }
}

proof fn lemma_div_mod(b: int, p: int, k: int)
    requires
        0 <= p,
        2 <= b,
        0 <= k < b,
    ensures
        (b * p + k) / b == p,
        (b * p + k) % b == k,
{
    assert((b * p + k) / b == p && (b * p + k) % b == k) by (nonlinear_arith)
        requires
            0 <= p,
            2 <= b,
            0 <= k < b,
    ;
}

/// Byte `j` of the RGBA rendering of pixel data `d` in layout `color`:
/// gray is replicated across the colour channels, a missing alpha
/// channel becomes fully opaque.
pub open spec fn rgba_byte(color: PixelKind, d: Seq<u8>, j: int) -> u8 {
    let p = j / 4;
    let k = j % 4;
    match color {
        PixelKind::L8 => if k == 3 {
            255u8
        } else {
            d[p]
        },
        PixelKind::La8 => if k == 3 {
            d[2 * p + 1]
        } else {
            d[2 * p]
        },
        PixelKind::Rgb8 => if k == 3 {
            255u8
        } else {
            d[3 * p + k]
        },
        PixelKind::Rgba8 => d[j],
    }
}

/// The full RGBA rendering of an image's data.
pub open spec fn spec_to_rgba(color: PixelKind, d: Seq<u8>, pixels: int) -> Seq<u8> {
    Seq::new((4 * pixels) as nat, |j: int| rgba_byte(color, d, j))
}

/// Byte `j` of the RGB rendering: the alpha channel is dropped
/// outright, gray is replicated.
pub open spec fn rgb_byte(color: PixelKind, d: Seq<u8>, j: int) -> u8 {
    let p = j / 3;
    let k = j % 3;
    match color {
        PixelKind::L8 => d[p],
        PixelKind::La8 => d[2 * p],
        PixelKind::Rgb8 => d[j],
        PixelKind::Rgba8 => d[4 * p + k],
    }
}

/// The full RGB rendering of an image's data.
pub open spec fn spec_to_rgb(color: PixelKind, d: Seq<u8>, pixels: int) -> Seq<u8> {
    Seq::new((3 * pixels) as nat, |j: int| rgb_byte(color, d, j))
}

/// Render the image as RGBA bytes, four per pixel.
pub fn to_rgba8_data(img: &RawImage) -> (r: Vec<u8>)
    requires
        img.wf(),
        img.fits(),
    ensures
        r@ == spec_to_rgba(img.color, img.data@, img.pixel_count()),
{
    let w = img.width as usize;
    let h = img.height as usize;
    let px: usize = w * h;
    let mut out: Vec<u8> = Vec::new();
    let mut p: usize = 0;
    while p < px
        invariant
            px == img.pixel_count(),
            img.wf(),
            img.fits(),
            p <= px,
            out@.len() == 4 * p,
            forall|j: int| 0 <= j < 4 * p ==> out@[j] == rgba_byte(img.color, img.data@, j),
        decreases px - p,
    {
        proof {
            lemma_div_mod(4, p as int, 0);
            lemma_div_mod(4, p as int, 1);
            lemma_div_mod(4, p as int, 2);
            lemma_div_mod(4, p as int, 3);
        }
        match img.color {
            PixelKind::L8 => {
                let g = img.data[p];
                out.push(g);
                out.push(g);
                out.push(g);
                out.push(255);
            },
            PixelKind::La8 => {
                let g = img.data[2 * p];
                let a = img.data[2 * p + 1];
                out.push(g);
                out.push(g);
                out.push(g);
                out.push(a);
            },
            PixelKind::Rgb8 => {
                out.push(img.data[3 * p]);
                out.push(img.data[3 * p + 1]);
                out.push(img.data[3 * p + 2]);
                out.push(255);
            },
            PixelKind::Rgba8 => {
                out.push(img.data[4 * p]);
                out.push(img.data[4 * p + 1]);
                out.push(img.data[4 * p + 2]);
                out.push(img.data[4 * p + 3]);
            },
        }
        p = p + 1;
    }
    proof {
        assert(out@ =~= spec_to_rgba(img.color, img.data@, img.pixel_count()));
    }
    out
}

/// Render the image as RGB bytes, three per pixel, dropping alpha.
pub fn to_rgb8_data(img: &RawImage) -> (r: Vec<u8>)
    requires
        img.wf(),
        img.fits(),
    ensures
        r@ == spec_to_rgb(img.color, img.data@, img.pixel_count()),
{
    let w = img.width as usize;
    let h = img.height as usize;
    let px: usize = w * h;
    let mut out: Vec<u8> = Vec::new();
    let mut p: usize = 0;
    while p < px
        invariant
            px == img.pixel_count(),
            img.wf(),
            img.fits(),
            p <= px,
            out@.len() == 3 * p,
            forall|j: int| 0 <= j < 3 * p ==> out@[j] == rgb_byte(img.color, img.data@, j),
        decreases px - p,
    {
        proof {
            lemma_div_mod(3, p as int, 0);
            lemma_div_mod(3, p as int, 1);
            lemma_div_mod(3, p as int, 2);
        }
        match img.color {
            PixelKind::L8 => {
                let g = img.data[p];
                out.push(g);
                out.push(g);
                out.push(g);
            },
            PixelKind::La8 => {
                let g = img.data[2 * p];
                out.push(g);
                out.push(g);
                out.push(g);
            },
            PixelKind::Rgb8 => {
                out.push(img.data[3 * p]);
                out.push(img.data[3 * p + 1]);
                out.push(img.data[3 * p + 2]);
            },
            PixelKind::Rgba8 => {
                out.push(img.data[4 * p]);
                out.push(img.data[4 * p + 1]);
                out.push(img.data[4 * p + 2]);
            },
        }
        p = p + 1;
    }
    proof {
        assert(out@ =~= spec_to_rgb(img.color, img.data@, img.pixel_count()));
    }
    out
}

/// The channel-coarsening step the lossy PNG pass uses for a requested
/// quality: lower quality selects a larger step.
pub open spec fn spec_step_for_quality(q: u8) -> u8 {
    if q <= 10 {
        48u8
    } else if q <= 25 {
        32u8
    } else if q <= 45 {
        16u8
    } else if q <= 65 {
        8u8
    } else if q <= 85 {
        4u8
    } else if q <= 95 {
        2u8
    } else {
        1u8
    }
}

/// Executable twin of `spec_step_for_quality`.
pub fn step_for_quality(q: u8) -> (r: u8)
    ensures
        r == spec_step_for_quality(q),
{
    if q <= 10 {
        48
    } else if q <= 25 {
        32
    } else if q <= 45 {
        16
    } else if q <= 65 {
        8
    } else if q <= 85 {
        4
    } else if q <= 95 {
        2
    } else {
        1
    }
}

/// One channel value rounded to the nearest multiple of `step`, capped
/// at 255; a step of one (or zero) leaves the value untouched.
pub open spec fn spec_quantize_channel(value: u8, step: u8) -> u8 {
    if step <= 1 {
        value
    } else {
        let rounded = ((value as int + step as int / 2) / step as int) * step as int;
        if rounded > 255 {
            255u8
        } else {
            rounded as u8
        }
    }
}

/// Executable channel quantization.
pub fn quantize_channel(value: u8, step: u8) -> (r: u8)
    ensures
        r == spec_quantize_channel(value, step),
{
    if step <= 1 {
        return value;
    }
    let s: u16 = step as u16;
    let v: u16 = value as u16;
    let half: u16 = s / 2;
    let sum: u16 = v + half;
    let q: u16 = sum / s;
    proof {
        vstd::arithmetic::div_mod::lemma_fundamental_div_mod(sum as int, s as int);
        vstd::arithmetic::div_mod::lemma_mod_division_less_than_divisor(sum as int, s as int);
    }
    let rounded: u16 = q * s;
    if rounded > 255 {
        255
    } else {
        rounded as u8
    }
}

/// The quantized form of an RGBA buffer: colour channels rounded to the
/// step, the alpha channel kept as it was.
pub open spec fn spec_quantize_rgba(d: Seq<u8>, step: u8) -> Seq<u8> {
    Seq::new(
        d.len(),
        |j: int|
            if j % 4 == 3 {
                d[j]
            } else {
                spec_quantize_channel(d[j], step)
            },
    )
}

/// Coarsen every colour channel of an RGBA buffer in place.
pub fn quantize_rgba(data: &mut Vec<u8>, step: u8)
    ensures
        final(data)@ == spec_quantize_rgba(old(data)@, step),
{
    let n = data.len();
    let mut j: usize = 0;
    while j < n
        invariant
            n == data@.len(),
            data@.len() == old(data)@.len(),
            j <= n,
            forall|t: int|
                0 <= t < j ==> data@[t] == (if t % 4 == 3 {
                    old(data)@[t]
                } else {
                    spec_quantize_channel(old(data)@[t], step)
                }),
            forall|t: int| j <= t < n ==> data@[t] == old(data)@[t],
        decreases n - j,
    {
        if j % 4 != 3 {
            let q = quantize_channel(data[j], step);
            data.set(j, q);
        }
        j = j + 1;
    }
    proof {
        assert(final(data)@ =~= spec_quantize_rgba(old(data)@, step));
    }
}

} // verus!
