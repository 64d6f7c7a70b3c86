//! Row-major brightness grids and the luminance normalizer.

use vstd::prelude::*;
use vstd::arithmetic::div_mod::lemma_basic_div;
use vstd::arithmetic::div_mod::lemma_div_is_ordered;
use vstd::arithmetic::div_mod::lemma_fundamental_div_mod_converse;

verus! {

/// A row-major grid of 8-bit brightness values, one byte per pixel.
pub struct Grid {
    pub width: usize,
    pub height: usize,
    pub data: Vec<u8>,
}

/// The smallest value in a non-empty byte sequence (255 for the empty one).
pub open spec fn seq_min(s: Seq<u8>) -> u8
    decreases s.len(),
{
    if s.len() == 0 {
        255u8
    } else if s.len() == 1 {
        s[0]
    } else {
        let m = seq_min(s.drop_last());
        if s.last() < m {
            s.last()
        } else {
            m
        }
    }
}

/// The largest value in a non-empty byte sequence (0 for the empty one).
pub open spec fn seq_max(s: Seq<u8>) -> u8
    decreases s.len(),
{
    if s.len() == 0 {
        0u8
    } else if s.len() == 1 {
        s[0]
    } else {
        let m = seq_max(s.drop_last());
        if s.last() > m {
            s.last()
        } else {
            m
        }
    }
}

/// One pixel rescaled to the full dynamic range: round(255 * (v - mn) / (mx - mn)),
/// rounding half up. A uniform grid (mx == mn) keeps its original value, so no
/// division by zero is ever taken.
pub open spec fn norm_px(v: u8, mn: u8, mx: u8) -> u8 {
    if mx <= mn {
        v
    } else {
        ((510 * (v - mn) + (mx - mn)) / (2 * (mx - mn))) as u8
    }
}

/// The whole sequence rescaled against its own minimum and maximum.
pub open spec fn normalized_seq(s: Seq<u8>) -> Seq<u8> {
    Seq::new(s.len(), |i: int| norm_px(s[i], seq_min(s), seq_max(s)))
}

pub proof fn lemma_seq_min_le(s: Seq<u8>, i: int)
    requires
        0 <= i < s.len(),
    ensures
        seq_min(s) <= s[i],
    decreases s.len(),
{
    if s.len() > 1 && i < s.len() - 1 {
        lemma_seq_min_le(s.drop_last(), i);
    }
}

pub proof fn lemma_seq_max_ge(s: Seq<u8>, i: int)
    requires
        0 <= i < s.len(),
    ensures
        s[i] <= seq_max(s),
    decreases s.len(),
{
    if s.len() > 1 && i < s.len() - 1 {
        lemma_seq_max_ge(s.drop_last(), i);
    }
}

pub proof fn lemma_seq_min_is_elem(s: Seq<u8>)
    requires
        s.len() > 0,
    ensures
        exists|i: int| 0 <= i < s.len() && s[i] == seq_min(s),
    decreases s.len(),
{
    if s.len() == 1 {
        assert(s[0] == seq_min(s));
    } else if s.last() < seq_min(s.drop_last()) {
        assert(s[s.len() - 1] == seq_min(s));
    } else {
        lemma_seq_min_is_elem(s.drop_last());
        let i = choose|i: int| 0 <= i < s.drop_last().len() && s.drop_last()[i] == seq_min(
            s.drop_last(),
        );
        assert(s[i] == seq_min(s));
    }
}

pub proof fn lemma_seq_max_is_elem(s: Seq<u8>)
    requires
        s.len() > 0,
    ensures
        exists|i: int| 0 <= i < s.len() && s[i] == seq_max(s),
    decreases s.len(),
{
    if s.len() == 1 {
        assert(s[0] == seq_max(s));
    } else if s.last() > seq_max(s.drop_last()) {
        assert(s[s.len() - 1] == seq_max(s));
    } else {
        lemma_seq_max_is_elem(s.drop_last());
        let i = choose|i: int| 0 <= i < s.drop_last().len() && s.drop_last()[i] == seq_max(
            s.drop_last(),
        );
        assert(s[i] == seq_max(s));
    }
}

impl Grid {
    /// The buffer holds exactly one byte per cell.
    pub open spec fn wf(&self) -> bool {
        self.data@.len() == self.width * self.height
    }

    /// Builds a grid when the buffer length matches the dimensions.
    pub fn new(width: usize, height: usize, data: Vec<u8>) -> (r: Option<Grid>)
        ensures
            match r {
                Option::Some(g) => g.width == width && g.height == height && g.data@ == data@
                    && g.wf(),
                Option::None => data@.len() != width * height,
            },
    {
        let len = data.len();
        match width.checked_mul(height) {
            Some(n) => if n == len {
                Some(Grid { width, height, data })
            } else {
                None
            },
            None => None,
        }
    }

    /// Rescales the grid to the full 0..=255 range: each pixel becomes
    /// round(255 * (v - min) / (max - min)) over the grid's own minimum and
    /// maximum. A uniform grid comes back unchanged, so the degenerate
    /// max == min case never divides.
    pub fn normalized(&self) -> (r: Grid)
        requires
            self.wf(),
            self.data@.len() > 0,
        ensures
            r.width == self.width,
            r.height == self.height,
            r.wf(),
            r.data@ == normalized_seq(self.data@),
    {
        let (mn, mx) = min_max(&self.data);
        let mut out: Vec<u8> = Vec::new();
        let mut i: usize = 0;
        while i < self.data.len()
            invariant
                self.wf(),
                self.data@.len() > 0,
                mn == seq_min(self.data@),
                mx == seq_max(self.data@),
                i <= self.data@.len(),
                out@.len() == i,
                forall|j: int| 0 <= j < i ==> out@[j] == norm_px(self.data@[j], mn, mx),
            decreases self.data@.len() - i,
        {
            let v = self.data[i];
            if mx <= mn {
                out.push(v);
            } else {
                proof {
                    lemma_seq_min_le(self.data@, i as int);
                    lemma_seq_max_ge(self.data@, i as int);
                }
                let d: u32 = (mx - mn) as u32;
                let x: u32 = (v - mn) as u32;
                let q: u32 = (510 * x + d) / (2 * d);
                proof {
                    lemma_fundamental_div_mod_converse(511 * (d as int), 2 * (d as int), 255, d as int);
                    lemma_div_is_ordered(510 * (x as int) + d, 511 * (d as int), 2 * (d as int));
                    assert(q <= 255);
                }
                out.push(q as u8);
            }
            i += 1;
        }
        proof {
            assert(out@ =~= normalized_seq(self.data@));
        }
        Grid { width: self.width, height: self.height, data: out }
    }
}

/// The smallest and largest value of a non-empty buffer.
fn min_max(data: &Vec<u8>) -> (r: (u8, u8))
    requires
        data@.len() > 0,
    ensures
        r.0 == seq_min(data@),
        r.1 == seq_max(data@),
{
    let mut mn = data[0];
    let mut mx = data[0];
    let mut i: usize = 1;
    proof {
        assert(data@.take(1) =~= seq![data@[0]]);
    }
    while i < data.len()
        invariant
            1 <= i <= data@.len(),
            mn == seq_min(data@.take(i as int)),
            mx == seq_max(data@.take(i as int)),
        decreases data@.len() - i,
    {
        let v = data[i];
        proof {
            assert(data@.take(i as int + 1).drop_last() =~= data@.take(i as int));
            assert(data@.take(i as int + 1).last() == data@[i as int]);
        }
        if v < mn {
            mn = v;
        }
        if v > mx {
            mx = v;
        }
        i += 1;
    }
    proof {
        assert(data@.take(data@.len() as int) =~= data@);
    }
    (mn, mx)
}

/// Law: normalizing a grid with at least two distinct values yields an output
/// whose minimum is exactly 0 and whose maximum is exactly 255.
pub proof fn lemma_normalized_full_range(s: Seq<u8>)
    requires
        s.len() > 0,
        exists|i: int, j: int| 0 <= i < s.len() && 0 <= j < s.len() && s[i] != s[j],
    ensures
        seq_min(normalized_seq(s)) == 0,
        seq_max(normalized_seq(s)) == 255,
{
    let mn = seq_min(s);
    let mx = seq_max(s);
    let (i, j) = choose|i: int, j: int| 0 <= i < s.len() && 0 <= j < s.len() && s[i] != s[j];
    lemma_seq_min_le(s, i);
    lemma_seq_min_le(s, j);
    lemma_seq_max_ge(s, i);
    lemma_seq_max_ge(s, j);
    assert(mn < mx);
    let d = mx - mn;
    let ns = normalized_seq(s);
    lemma_seq_min_is_elem(s);
    let im = choose|k: int| 0 <= k < s.len() && s[k] == mn;
    lemma_basic_div(d, 2 * d);
    assert(ns[im] == 0);
    lemma_seq_min_le(ns, im);
    lemma_seq_max_is_elem(s);
    let ix = choose|k: int| 0 <= k < s.len() && s[k] == mx;
    lemma_fundamental_div_mod_converse(511 * d, 2 * d, 255, d);
    assert(ns[ix] == 255);
    lemma_seq_max_ge(ns, ix);
    lemma_seq_max_is_elem(ns);
}

/// Law: a uniform grid is well defined under normalization and comes back
/// unchanged; in particular no division by zero is taken.
pub proof fn lemma_normalized_uniform(s: Seq<u8>)
    requires
        s.len() > 0,
        forall|i: int| 0 <= i < s.len() ==> #[trigger] s[i] == s[0],
    ensures
        normalized_seq(s) == s,
{
    lemma_seq_min_is_elem(s);
    lemma_seq_max_is_elem(s);
    assert(seq_min(s) == s[0]);
    assert(seq_max(s) == s[0]);
    assert(normalized_seq(s) =~= s);
}

} // verus!
