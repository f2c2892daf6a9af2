//! A rectangular domain, given by its corner coordinates or derived from the
//! extremes of a point set.

use vstd::prelude::*;

use crate::scalar::{Scalar, fl_lt, lt_bits};
use crate::utils::PtValue;

verus! {

/// A rectangular bounding box: the two corner coordinates on each axis.
#[derive(Clone, Copy, Debug, PartialEq, Eq, Structural, Hash)]
pub struct Bbox {
    /// The low corner on the x axis.
    pub min_x: Scalar,
    /// The high corner on the x axis.
    pub max_x: Scalar,
    /// The low corner on the y axis.
    pub min_y: Scalar,
    /// The high corner on the y axis.
    pub max_y: Scalar,
}

/// The smaller of two doubles by the IEEE `<` comparison; the first operand
/// stands where the comparison orders neither (equal values, or a NaN).
pub open spec fn fmin_bits(a: u64, b: u64) -> u64 {
    if lt_bits(b, a) {
        b
    } else {
        a
    }
}

/// The larger of two doubles by the IEEE `<` comparison; the first operand
/// stands where the comparison orders neither (equal values, or a NaN).
pub open spec fn fmax_bits(a: u64, b: u64) -> u64 {
    if lt_bits(a, b) {
        b
    } else {
        a
    }
}

/// The running minimum of a non-empty sequence of double bit patterns,
/// scanned left to right.
pub open spec fn fold_fmin(s: Seq<u64>) -> u64
    recommends
        s.len() >= 1,
    decreases s.len(),
{
    if s.len() <= 1 {
        s[0]
    } else {
        fmin_bits(fold_fmin(s.drop_last()), s.last())
    }
}

/// The running maximum of a non-empty sequence of double bit patterns,
/// scanned left to right.
pub open spec fn fold_fmax(s: Seq<u64>) -> u64
    recommends
        s.len() >= 1,
    decreases s.len(),
{
    if s.len() <= 1 {
        s[0]
    } else {
        fmax_bits(fold_fmax(s.drop_last()), s.last())
    }
}

/// The x coordinates of a point sequence, as bit patterns.
pub open spec fn xs_bits(pts: Seq<PtValue>) -> Seq<u64> {
    pts.map_values(|p: PtValue| p.x.bits)
}

/// The y coordinates of a point sequence, as bit patterns.
pub open spec fn ys_bits(pts: Seq<PtValue>) -> Seq<u64> {
    pts.map_values(|p: PtValue| p.y.bits)
}

impl Bbox {
    /// Build a box from its corner coordinates. The caller is trusted to
    /// supply them in order: nothing is checked here.
    pub fn new(min_x: Scalar, max_x: Scalar, min_y: Scalar, max_y: Scalar) -> (r: Self)
        ensures
            r.min_x == min_x,
            r.max_x == max_x,
            r.min_y == min_y,
            r.max_y == max_y,
    {
        Bbox { min_x, max_x, min_y, max_y }
    }

    /// Scan a non-empty point set for its coordinate extremes: each corner of
    /// the result is the running minimum or maximum of the respective
    /// coordinates under the IEEE `<` comparison.
    pub fn from_points(obs_points: &Vec<PtValue>) -> (r: Self)
        requires
            obs_points@.len() >= 1,
        ensures
            r.min_x.bits == fold_fmin(xs_bits(obs_points@)),
            r.max_x.bits == fold_fmax(xs_bits(obs_points@)),
            r.min_y.bits == fold_fmin(ys_bits(obs_points@)),
            r.max_y.bits == fold_fmax(ys_bits(obs_points@)),
    {
        let ghost xs = xs_bits(obs_points@);
        let ghost ys = ys_bits(obs_points@);
        let first = obs_points[0];
        let mut min_x = first.x;
        let mut max_x = first.x;
        let mut min_y = first.y;
        let mut max_y = first.y;
        let n = obs_points.len();
        let mut k: usize = 1;
        while k < n
            invariant
                1 <= k <= n,
                n == obs_points@.len(),
                xs == xs_bits(obs_points@),
                ys == ys_bits(obs_points@),
                min_x.bits == fold_fmin(xs.take(k as int)),
                max_x.bits == fold_fmax(xs.take(k as int)),
                min_y.bits == fold_fmin(ys.take(k as int)),
                max_y.bits == fold_fmax(ys.take(k as int)),
            decreases n - k,
        {
            let pt = obs_points[k];
            let (pt_x, pt_y) = pt.get_coordinates();
            if fl_lt(pt_x, min_x) {
                min_x = pt_x;
            }
            if fl_lt(max_x, pt_x) {
                max_x = pt_x;
            }
            if fl_lt(pt_y, min_y) {
                min_y = pt_y;
            }
            if fl_lt(max_y, pt_y) {
                max_y = pt_y;
            }
            proof {
                assert(xs.take(k + 1).drop_last() =~= xs.take(k as int));
                assert(ys.take(k + 1).drop_last() =~= ys.take(k as int));
            }
            k = k + 1;
        }
        proof {
            assert(xs.take(n as int) =~= xs);
            assert(ys.take(n as int) =~= ys);
        }
        Bbox { min_x, max_x, min_y, max_y }
    }
}

} // verus!
