//! The frame renderer: a raw color frame resized and grayscaled through the
//! image crate, then normalized, mapped to glyphs, and joined into lines.

use vstd::prelude::*;
use vstd::string::StringExecFns;
use vstd::arithmetic::div_mod::lemma_fundamental_div_mod_converse;
use crate::glyph::glyph_index;
use crate::glyph::glyph_str;
use crate::glyph::lemma_palette_not_newline;
use crate::glyph::palette_char;
use crate::grid::normalized_seq;
use crate::grid::Grid;

verus! {

/// A raw captured color frame: packed RGB, three bytes per pixel, row-major.
pub struct RawFrame {
    pub width: u32,
    pub height: u32,
    pub data: Vec<u8>,
}

impl RawFrame {
    /// Three bytes per pixel and at least one pixel each way.
    pub open spec fn wf(&self) -> bool {
        self.data@.len() == 3 * self.width * self.height && self.width >= 1 && self.height >= 1
    }

    /// Builds a frame when the buffer length matches the dimensions.
    pub fn new(width: u32, height: u32, data: Vec<u8>) -> (r: Option<RawFrame>)
        ensures
            match r {
                Option::Some(f) => f.width == width && f.height == height && f.data@ == data@
                    && f.wf(),
                Option::None => !(data@.len() == 3 * width * height && width >= 1 && height >= 1),
            },
    {
        let len = data.len();
        proof {
            assert((width as int) * (height as int) < 0x10000000000000000) by (nonlinear_arith)
                requires
                    width < 0x100000000,
                    height < 0x100000000,
            ;
        }
        let pixels: u64 = (width as u64) * (height as u64);
        proof {
            assert(3 * ((width as int) * (height as int)) == 3 * (width as int) * (height as int))
                by (nonlinear_arith);
        }
        if width >= 1 && height >= 1 && (len as u128) == 3u128 * (pixels as u128) {
            Some(RawFrame { width, height, data })
        } else {
            None
        }
    }
}

/// The single-channel image that the image crate produces for a given packed
/// RGB buffer when it is resized to `out_w` by `out_h` with nearest-neighbor
/// sampling and then converted to grayscale. The result depends on the pixel
/// data and the four dimensions alone.
pub uninterp spec fn resized_luma(
    rgb: Seq<u8>,
    src_w: int,
    src_h: int,
    out_w: int,
    out_h: int,
) -> Seq<u8>;

/// Relies on image::DynamicImage::resize_exact with FilterType::Nearest,
/// which yields an image of exactly the requested dimensions and ignores the
/// aspect ratio, and on DynamicImage::grayscale / into_luma8, which produce
/// one luminance byte per pixel. Both are functions of the pixel data and the
/// dimensions alone.
#[verifier::external_body]
fn resize_gray(frame: &RawFrame, out_w: u32, out_h: u32) -> (g: Grid)
    requires
        frame.wf(),
        out_w >= 1,
        out_h >= 1,
    ensures
        g.width == out_w as usize,
        g.height == out_h as usize,
        g.wf(),
        g.data@ == resized_luma(
            frame.data@,
            frame.width as int,
            frame.height as int,
            out_w as int,
            out_h as int,
        ),
{
    let buf = image::ImageBuffer::<image::Rgb<u8>, Vec<u8>>::from_raw(
        frame.width,
        frame.height,
        frame.data.clone(),
    ).unwrap();
    let img = image::DynamicImage::ImageRgb8(buf).resize_exact(
        out_w,
        out_h,
        image::imageops::FilterType::Nearest,
    );
    let gray = img.grayscale().into_luma8();
    Grid { width: out_w as usize, height: out_h as usize, data: gray.into_raw() }
}

/// The character standing at offset `i` of a text block for grid `g` of width
/// `w`: the glyph of the pixel at that row and column, or a line break at the
/// end of each row.
pub open spec fn block_char_at(g: Seq<u8>, w: int, i: int) -> char {
    let r = i / (w + 1);
    let c = i % (w + 1);
    if c == w {
        '\n'
    } else {
        palette_char(glyph_index(g[r * w + c]))
    }
}

/// `t` is the text block of grid `g` with dimensions `w` by `h`: `h` rows in
/// top-to-bottom order, each of `w` glyphs followed by a line break.
pub open spec fn is_ascii_block(t: Seq<char>, g: Seq<u8>, w: int, h: int) -> bool {
    &&& t.len() == h * (w + 1)
    &&& forall|i: int| 0 <= i < t.len() ==> t[i] == block_char_at(g, w, i)
}

/// `t` is the rendering of the packed RGB frame `rgb` of dimensions `src_w`
/// by `src_h`, resized to `w` by `h`, grayscaled, normalized to the full
/// range, and mapped to palette glyphs line by line.
pub open spec fn is_render_of(
    t: Seq<char>,
    rgb: Seq<u8>,
    src_w: int,
    src_h: int,
    w: int,
    h: int,
) -> bool {
    is_ascii_block(t, normalized_seq(resized_luma(rgb, src_w, src_h, w, h)), w, h)
}

/// Joins a grid into a text block: one glyph per pixel, one line per row,
/// each line closed by a line break.
pub fn ascii_art(g: &Grid) -> (t: String)
    requires
        g.wf(),
    ensures
        is_ascii_block(t@, g.data@, g.width as int, g.height as int),
{
    let w = g.width;
    let h = g.height;
    let mut s = String::new();
    let mut r: usize = 0;
    while r < h
        invariant
            g.wf(),
            w == g.width,
            h == g.height,
            r <= h,
            s@.len() == r * (w + 1),
            forall|i: int| 0 <= i < s@.len() ==> s@[i] == block_char_at(g.data@, w as int, i),
        decreases h - r,
    {
        let mut c: usize = 0;
        while c < w
            invariant
                g.wf(),
                w == g.width,
                h == g.height,
                r < h,
                c <= w,
                s@.len() == r * (w + 1) + c,
                forall|i: int| 0 <= i < s@.len() ==> s@[i] == block_char_at(g.data@, w as int, i),
            decreases w - c,
        {
            proof {
                assert(g.data.len() == g.data@.len());
                assert(r * w + c < w * h) by (nonlinear_arith)
                    requires
                        r < h,
                        c < w,
                ;
            }
            let px = g.data[r * w + c];
            let ch = glyph_str(px);
            s.append(ch);
            proof {
                lemma_fundamental_div_mod_converse(
                    r * (w + 1) + c,
                    w as int + 1,
                    r as int,
                    c as int,
                );
            }
            c += 1;
        }
        s.append("\n");
        proof {
            reveal_strlit("\n");
            lemma_fundamental_div_mod_converse(r * (w + 1) + w, w as int + 1, r as int, w as int);
            assert((r + 1) * (w + 1) == r * (w + 1) + (w + 1)) by (nonlinear_arith);
        }
        r += 1;
    }
    s
}

/// Renders a raw color frame as a text block of exactly `out_h` lines of
/// exactly `out_w` glyphs: nearest-neighbor resize to the requested
/// dimensions (no aspect-ratio correction), grayscale, full-range
/// normalization, and glyph mapping.
pub fn render_frame(frame: &RawFrame, out_w: u32, out_h: u32) -> (t: String)
    requires
        frame.wf(),
        out_w >= 1,
        out_h >= 1,
    ensures
        is_render_of(
            t@,
            frame.data@,
            frame.width as int,
            frame.height as int,
            out_w as int,
            out_h as int,
        ),
{
    let g = resize_gray(frame, out_w, out_h);
    proof {
        assert(g.data@.len() > 0) by (nonlinear_arith)
            requires
                g.data@.len() == (out_w as usize) * (out_h as usize),
                out_w >= 1,
                out_h >= 1,
        ;
    }
    let n = g.normalized();
    ascii_art(&n)
}

/// Law: a rendered text block has exactly `h` lines of exactly `w`
/// characters each: its length is h * (w + 1), and a character is a line
/// break precisely at the offsets whose column position equals `w`.
pub proof fn lemma_block_shape(t: Seq<char>, g: Seq<u8>, w: int, h: int)
    requires
        w >= 1,
        h >= 0,
        is_ascii_block(t, g, w, h),
    ensures
        t.len() == h * (w + 1),
        forall|i: int| 0 <= i < t.len() ==> ((t[i] == '\n') <==> (i % (w + 1) == w)),
{
    assert forall|i: int| 0 <= i < t.len() implies ((t[i] == '\n') <==> (i % (w + 1) == w)) by {
        if i % (w + 1) != w {
            lemma_palette_not_newline(glyph_index(g[(i / (w + 1)) * w + i % (w + 1)]));
        }
    }
}

} // verus!
