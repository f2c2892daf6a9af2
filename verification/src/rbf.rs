//! The RBF fitting-and-evaluation engine: kernel selection, Gram matrix
//! assembly, shape-parameter resolution, the dense solve for the weight
//! vector, point evaluation, and the grid interpolation driver.

use vstd::prelude::*;
use vstd::arithmetic::div_mod::lemma_fundamental_div_mod_converse;

use num_traits::FromBytes;
use num_traits::ToPrimitive;

use crate::bbox::Bbox;
use crate::errors::RbfError;
use crate::scalar::{
    Scalar, bits_of, canon_seq, canonical, add_bits, sub_bits, mul_bits, div_bits, sqrt_bits,
    ln_bits, exp_bits, feq_bits, of_u32_bits, of_usize_bits, fl_add, fl_sub, fl_mul, fl_div,
    fl_sqrt, fl_ln, fl_exp, fl_feq, fl_of_u32, fl_of_usize,
};
use crate::utils::PtValue;

verus! {

/// The supported radial kernels: a closed enumeration, so that an unknown
/// name is a construction-time error and never a silent fallback.
#[derive(Clone, Copy, Debug, PartialEq, Eq, Structural, Hash)]
pub enum Kernel {
    /// `r`
    Linear,
    /// `r^3`
    Cubic,
    /// `r^5`
    Quintic,
    /// `0` at `r == 0`, else `r^2 * ln(r)`
    ThinPlate,
    /// `1 / exp((r/eps)^2 + 1)`
    Gaussian,
    /// `sqrt((r/eps)^2 + 1)`
    Multiquadratic,
    /// `1 / sqrt((r/eps)^2 + 1)`
    InverseMultiquadratic,
}

/// The bits of `kernel(r, eps)`, composed from the named scalar operations
/// exactly as the executable kernels compute it.
pub open spec fn kernel_bits(k: Kernel, r: u64, eps: u64) -> u64 {
    match k {
        Kernel::Linear => r,
        Kernel::Cubic => mul_bits(mul_bits(r, r), r),
        Kernel::Quintic => mul_bits(mul_bits(mul_bits(mul_bits(r, r), r), r), r),
        Kernel::ThinPlate => if feq_bits(r, of_u32_bits(0)) {
            of_u32_bits(0)
        } else {
            mul_bits(mul_bits(r, r), ln_bits(r))
        },
        Kernel::Gaussian => {
            let q = div_bits(r, eps);
            div_bits(of_u32_bits(1), exp_bits(add_bits(mul_bits(q, q), of_u32_bits(1))))
        },
        Kernel::Multiquadratic => {
            let q = div_bits(r, eps);
            sqrt_bits(add_bits(mul_bits(q, q), of_u32_bits(1)))
        },
        Kernel::InverseMultiquadratic => {
            let q = div_bits(r, eps);
            div_bits(of_u32_bits(1), sqrt_bits(add_bits(mul_bits(q, q), of_u32_bits(1))))
        },
    }
}

/// The kernel a name selects, if any. Lookup is by exact match.
pub open spec fn kernel_of_name(name: Seq<char>) -> Option<Kernel> {
    if name == "linear"@ {
        Some(Kernel::Linear)
    } else if name == "cubic"@ {
        Some(Kernel::Cubic)
    } else if name == "thin_plate"@ {
        Some(Kernel::ThinPlate)
    } else if name == "quintic"@ {
        Some(Kernel::Quintic)
    } else if name == "gaussian"@ {
        Some(Kernel::Gaussian)
    } else if name == "multiquadratic"@ {
        Some(Kernel::Multiquadratic)
    } else if name == "inverse_multiquadratic"@ {
        Some(Kernel::InverseMultiquadratic)
    } else {
        None
    }
}

/// Relies on the standard library's `==` on string slices: true exactly when
/// the two character sequences are equal.
#[verifier::external_body]
fn str_eq(a: &str, b: &str) -> (r: bool)
    ensures
        r == (a@ == b@),
{
    a == b
}

impl Kernel {
    /// Resolve a kernel from its name; `None` for an unknown name.
    pub fn from_name(name: &str) -> (r: Option<Kernel>)
        ensures
            r == kernel_of_name(name@),
    {
        if str_eq(name, "linear") {
            Some(Kernel::Linear)
        } else if str_eq(name, "cubic") {
            Some(Kernel::Cubic)
        } else if str_eq(name, "thin_plate") {
            Some(Kernel::ThinPlate)
        } else if str_eq(name, "quintic") {
            Some(Kernel::Quintic)
        } else if str_eq(name, "gaussian") {
            Some(Kernel::Gaussian)
        } else if str_eq(name, "multiquadratic") {
            Some(Kernel::Multiquadratic)
        } else if str_eq(name, "inverse_multiquadratic") {
            Some(Kernel::InverseMultiquadratic)
        } else {
            None
        }
    }

    /// Evaluate the kernel at distance `r` with shape parameter `epsilon`.
    pub fn apply(self, r: Scalar, epsilon: Scalar) -> (res: Scalar)
        ensures
            res.bits == kernel_bits(self, r.bits, epsilon.bits),
    {
        match self {
            Kernel::Linear => r,
            Kernel::Cubic => fl_mul(fl_mul(r, r), r),
            Kernel::Quintic => fl_mul(fl_mul(fl_mul(fl_mul(r, r), r), r), r),
            Kernel::ThinPlate => {
                let zero = fl_of_u32(0);
                if fl_feq(r, zero) {
                    zero
                } else {
                    fl_mul(fl_mul(r, r), fl_ln(r))
                }
            },
            Kernel::Gaussian => {
                let one = fl_of_u32(1);
                let q = fl_div(r, epsilon);
                fl_div(one, fl_exp(fl_add(fl_mul(q, q), one)))
            },
            Kernel::Multiquadratic => {
                let one = fl_of_u32(1);
                let q = fl_div(r, epsilon);
                fl_sqrt(fl_add(fl_mul(q, q), one))
            },
            Kernel::InverseMultiquadratic => {
                let one = fl_of_u32(1);
                let q = fl_div(r, epsilon);
                fl_div(one, fl_sqrt(fl_add(fl_mul(q, q), one)))
            },
        }
    }
}

/// The bits of the Euclidean distance between the coordinate pairs with bits
/// `(ax, ay)` and `(bx, by)`: the square root of the sum of the squared
/// coordinate differences.
pub open spec fn norm_bits(ax: u64, ay: u64, bx: u64, by: u64) -> u64 {
    let dx = sub_bits(ax, bx);
    let dy = sub_bits(ay, by);
    sqrt_bits(add_bits(mul_bits(dx, dx), mul_bits(dy, dy)))
}

/// Euclidean distance between two points.
fn norm(pa: &PtValue, pb: &PtValue) -> (r: Scalar)
    ensures
        r.bits == norm_bits(pa.x.bits, pa.y.bits, pb.x.bits, pb.y.bits),
{
    let ca = pa.get_coordinates();
    let cb = pb.get_coordinates();
    let dx = fl_sub(ca.0, cb.0);
    let dy = fl_sub(ca.1, cb.1);
    fl_sqrt(fl_add(fl_mul(dx, dx), fl_mul(dy, dy)))
}

/// The bits of the left-to-right running sum of a sequence of doubles,
/// starting from zero.
pub open spec fn sum_bits(s: Seq<u64>) -> u64
    decreases s.len(),
{
    if s.len() == 0 {
        of_u32_bits(0)
    } else {
        add_bits(sum_bits(s.drop_last()), s.last())
    }
}

/// Running sum of all entries, left to right, starting from zero.
#[verifier::loop_isolation(false)]
fn sum_all(mat: &Vec<Scalar>) -> (r: Scalar)
    ensures
        r.bits == sum_bits(bits_of(mat@)),
{
    let ghost s = bits_of(mat@);
    let mut acc = fl_of_u32(0);
    let mut k: usize = 0;
    while k < mat.len()
        invariant
            k <= mat@.len(),
            acc.bits == sum_bits(s.take(k as int)),
        decreases mat@.len() - k,
    {
        acc = fl_add(acc, mat[k]);
        proof {
            assert(s.take(k + 1).drop_last() =~= s.take(k as int));
        }
        k = k + 1;
    }
    proof {
        assert(s.take(mat@.len() as int) =~= s);
    }
    acc
}

/// The Gram matrix of a point sequence, flattened row by row: the entry at
/// `j * n + i` holds the distance between point `i` and point `j`.
pub open spec fn gram_bits(pts: Seq<PtValue>) -> Seq<u64> {
    let n = pts.len() as int;
    Seq::new(
        (n * n) as nat,
        |ix: int|
            norm_bits(
                pts[ix % n].x.bits,
                pts[ix % n].y.bits,
                pts[ix / n].x.bits,
                pts[ix / n].y.bits,
            ),
    )
}

/// The bits of the automatically derived shape parameter: the sum of all
/// Gram entries divided by `n^2 - n`, i.e. the mean pairwise distance with
/// the (zero) diagonal contributing to the numerator only.
pub open spec fn auto_epsilon_bits(pts: Seq<PtValue>) -> u64 {
    let nf = of_usize_bits(pts.len() as usize);
    div_bits(sum_bits(gram_bits(pts)), sub_bits(mul_bits(nf, nf), nf))
}

/// The bits of the shape parameter the model resolves: the caller's if one
/// was supplied, the derived one otherwise.
pub open spec fn resolved_epsilon_bits(pts: Seq<PtValue>, epsilon: Option<Scalar>) -> u64 {
    match epsilon {
        Some(e) => e.bits,
        None => auto_epsilon_bits(pts),
    }
}

/// The system matrix: the kernel applied entry-wise to the Gram matrix.
pub open spec fn system_bits(k: Kernel, pts: Seq<PtValue>, eps: u64) -> Seq<u64> {
    gram_bits(pts).map_values(|d: u64| kernel_bits(k, d, eps))
}

/// The right-hand side of the system: each point's value, in input order.
pub open spec fn values_bits(pts: Seq<PtValue>) -> Seq<u64> {
    pts.map_values(|p: PtValue| p.value.bits)
}

/// What the dense solver returns on the flattened `n * n` matrix `a` and the
/// right-hand side `b`: the canonical bits of the solution vector, or
/// nothing when the matrix is singular. A deterministic function of the
/// inputs: whether the solve succeeds is decided by comparisons, which
/// ignore NaN payloads, and a non-NaN entry's bits are IEEE-determined.
pub uninterp spec fn solve_bits(a: Seq<u64>, n: int, b: Seq<u64>) -> Option<Seq<u64>>;

/// The weight vector of the model over `pts` with kernel `k` and resolved
/// shape parameter `eps`, if the system has a unique solution.
pub open spec fn weights_bits(k: Kernel, pts: Seq<PtValue>, eps: u64) -> Option<Seq<u64>> {
    solve_bits(system_bits(k, pts, eps), pts.len() as int, values_bits(pts))
}

/// Relies on rulinalg's `Matrix::solve` (LU with partial pivoting): whether
/// a solution is found, and the value of each of its entries, is a
/// deterministic function of the matrix and the right-hand side; a solution
/// has the system's dimension. `solve_bits` names the solution's canonical
/// bits, since a NaN entry's payload bits are not guaranteed.
#[verifier::external_body]
fn solve_dense(a: Vec<Scalar>, n: usize, b: Vec<Scalar>) -> (r: Option<Vec<Scalar>>)
    requires
        n >= 1,
        a@.len() == n * n,
        b@.len() == n,
    ensures
        (match r {
            Some(w) => w@.len() == n && solve_bits(bits_of(a@), n as int, bits_of(b@))
                == Some(canon_seq(bits_of(w@))),
            None => solve_bits(bits_of(a@), n as int, bits_of(b@)) is None,
        }),
{
    let zero = 0u32.to_f64().unwrap();
    let conv = |s: &Scalar| {
        let mut t = zero;
        t = FromBytes::from_ne_bytes(&s.bits.to_ne_bytes());
        t
    };
    let mat = rulinalg::matrix::Matrix::new(n, n, a.iter().map(conv).collect::<Vec<_>>());
    let rhs = rulinalg::vector::Vector::new(b.iter().map(conv).collect::<Vec<_>>());
    match mat.solve(rhs) {
        Ok(w) => Some(w.into_vec().into_iter().map(|v| Scalar { bits: v.to_bits() }).collect()),
        Err(_) => None,
    }
}

/// The error that model construction reports on these inputs, if any: an
/// unknown kernel name; a degenerate automatic shape parameter (fewer than
/// two points and no epsilon supplied); or a singular system.
pub open spec fn construct_error(
    pts: Seq<PtValue>,
    name: Seq<char>,
    epsilon: Option<Scalar>,
) -> Option<RbfError> {
    match kernel_of_name(name) {
        None => Some(RbfError::UnknownKernel),
        Some(k) => if epsilon is None && pts.len() < 2 {
            Some(RbfError::DegenerateEpsilon)
        } else if weights_bits(k, pts, resolved_epsilon_bits(pts, epsilon)) is None {
            Some(RbfError::SingularSystem)
        } else {
            None
        },
    }
}

/// The terms of the evaluation sum at query bits `(x, y)`: for each point,
/// the kernel applied to the distance from the query, times its weight.
pub open spec fn terms_bits(
    k: Kernel,
    eps: u64,
    pts: Seq<PtValue>,
    ws: Seq<u64>,
    x: u64,
    y: u64,
) -> Seq<u64> {
    Seq::new(
        pts.len(),
        |i: int| mul_bits(kernel_bits(k, norm_bits(x, y, pts[i].x.bits, pts[i].y.bits), eps), ws[i]),
    )
}

/// The bits of the fitted surface's value at query bits `(x, y)`: the
/// running sum of the evaluation terms.
pub open spec fn interp_value_bits(
    k: Kernel,
    eps: u64,
    pts: Seq<PtValue>,
    ws: Seq<u64>,
    x: u64,
    y: u64,
) -> u64 {
    sum_bits(terms_bits(k, eps, pts, ws, x, y))
}

/// A fitted RBF model: the observation points, the resolved kernel and shape
/// parameter, and one weight per observation from the dense solve. Immutable
/// once constructed; evaluation mutates nothing.
#[derive(Clone, Debug)]
pub struct Rbf {
    /// The observation points the model was fitted to.
    pub obs_points: Vec<PtValue>,
    /// The weight vector: one weight per observation point.
    pub weights: Vec<Scalar>,
    /// The selected radial kernel.
    pub kernel: Kernel,
    /// The resolved shape parameter.
    pub epsilon: Scalar,
}

impl Rbf {
    /// Well-formedness: one weight per observation point.
    pub open spec fn wf(self) -> bool {
        self.weights@.len() == self.obs_points@.len()
    }

    /// The bits of the model's value at query bits `(x, y)`.
    pub open spec fn spec_interp(self, x: u64, y: u64) -> u64 {
        interp_value_bits(
            self.kernel,
            self.epsilon.bits,
            self.obs_points@,
            bits_of(self.weights@),
            x,
            y,
        )
    }

    /// Fit a model: resolve the kernel from its name, assemble the Gram
    /// matrix, resolve the shape parameter (deriving it when none is given),
    /// apply the kernel entry-wise, and solve the dense system for the
    /// weights. Each failure mode surfaces as the corresponding error.
    #[verifier::loop_isolation(false)]
    pub fn new(obs_points: &Vec<PtValue>, distance_function: &str, epsilon: Option<Scalar>) -> (r:
        Result<Rbf, RbfError>)
        requires
            obs_points@.len() >= 1,
        ensures
            (match r {
                Ok(m) => {
                    &&& construct_error(obs_points@, distance_function@, epsilon) is None
                    &&& Some(m.kernel) == kernel_of_name(distance_function@)
                    &&& m.obs_points@ == obs_points@
                    &&& m.epsilon.bits == resolved_epsilon_bits(obs_points@, epsilon)
                    &&& Some(bits_of(m.weights@)) == weights_bits(
                        m.kernel,
                        obs_points@,
                        m.epsilon.bits,
                    )
                    &&& m.wf()
                },
                Err(e) => construct_error(obs_points@, distance_function@, epsilon) == Some(e),
            }),
    {
        let kernel = match Kernel::from_name(distance_function) {
            Some(k) => k,
            None => {
                return Err(RbfError::UnknownKernel);
            },
        };
        let nb_pts = obs_points.len();
        let ghost pts = obs_points@;
        let ghost gram = gram_bits(pts);

        let mut mat: Vec<Scalar> = Vec::new();
        let mut j: usize = 0;
        while j < nb_pts
            invariant
                j <= nb_pts,
                mat@.len() == j * nb_pts,
                forall|ix: int| 0 <= ix < mat@.len() ==> mat@[ix].bits == gram[ix],
            decreases nb_pts - j,
        {
            let mut i: usize = 0;
            while i < nb_pts
                invariant
                    i <= nb_pts,
                    j < nb_pts,
                    mat@.len() == j * nb_pts + i,
                    forall|ix: int| 0 <= ix < mat@.len() ==> mat@[ix].bits == gram[ix],
                decreases nb_pts - i,
            {
                mat.push(norm(&obs_points[i], &obs_points[j]));
                proof {
                    let n = nb_pts as int;
                    assert(j * n + i < n * n) by (nonlinear_arith)
                        requires
                            0 <= i < n,
                            0 <= j < n,
                    ;
                    lemma_fundamental_div_mod_converse(j * n + i, n, j as int, i as int);
                }
                i = i + 1;
            }
            proof {
                assert((j + 1) * nb_pts == j * nb_pts + nb_pts) by (nonlinear_arith);
            }
            j = j + 1;
        }
        proof {
            assert(bits_of(mat@) =~= gram);
        }

        let eps = match epsilon {
            Some(e) => e,
            None => {
                if nb_pts < 2 {
                    return Err(RbfError::DegenerateEpsilon);
                }
                let nf = fl_of_usize(nb_pts);
                fl_div(sum_all(&mat), fl_sub(fl_mul(nf, nf), nf))
            },
        };

        let total = mat.len();
        let mut sys: Vec<Scalar> = Vec::new();
        let mut ix: usize = 0;
        while ix < total
            invariant
                ix <= total,
                sys@.len() == ix,
                forall|q: int|
                    0 <= q < ix ==> sys@[q].bits == kernel_bits(kernel, mat@[q].bits, eps.bits),
            decreases total - ix,
        {
            sys.push(kernel.apply(mat[ix], eps));
            ix = ix + 1;
        }
        proof {
            assert(bits_of(sys@) =~= system_bits(kernel, pts, eps.bits));
        }

        let mut values: Vec<Scalar> = Vec::new();
        let mut vi: usize = 0;
        while vi < nb_pts
            invariant
                vi <= nb_pts,
                values@.len() == vi,
                forall|q: int| 0 <= q < vi ==> values@[q] == obs_points@[q].value,
            decreases nb_pts - vi,
        {
            values.push(obs_points[vi].get_value());
            vi = vi + 1;
        }
        proof {
            assert(bits_of(values@) =~= values_bits(pts));
        }

        let mut owned: Vec<PtValue> = Vec::new();
        let mut oi: usize = 0;
        while oi < nb_pts
            invariant
                oi <= nb_pts,
                owned@ =~= pts.take(oi as int),
            decreases nb_pts - oi,
        {
            owned.push(obs_points[oi]);
            oi = oi + 1;
        }
        proof {
            assert(owned@ =~= pts);
        }

        match solve_dense(sys, nb_pts, values) {
            Some(weights) => {
                let wn = weights.len();
                let mut cw: Vec<Scalar> = Vec::new();
                let mut wi: usize = 0;
                while wi < wn
                    invariant
                        wi <= wn,
                        wn == weights@.len(),
                        cw@.len() == wi,
                        forall|q: int|
                            0 <= q < wi ==> cw@[q].bits == canon_seq(bits_of(weights@))[q],
                    decreases wn - wi,
                {
                    cw.push(canonical(weights[wi]));
                    wi = wi + 1;
                }
                proof {
                    assert(bits_of(cw@) =~= canon_seq(bits_of(weights@)));
                }
                Ok(Rbf { obs_points: owned, weights: cw, kernel, epsilon: eps })
            },
            None => Err(RbfError::SingularSystem),
        }
    }

    /// Evaluate the fitted surface at the query coordinates: for every
    /// observation point, the kernel applied to its distance from the query
    /// times its weight, summed over all points. Pure and deterministic.
    #[verifier::loop_isolation(false)]
    pub fn interp_point(&self, pt: (Scalar, Scalar)) -> (res: Scalar)
        requires
            self.wf(),
        ensures
            res.bits == self.spec_interp(pt.0.bits, pt.1.bits),
    {
        let q = PtValue::new(pt.0, pt.1, fl_of_u32(0));
        let ghost terms = terms_bits(
            self.kernel,
            self.epsilon.bits,
            self.obs_points@,
            bits_of(self.weights@),
            pt.0.bits,
            pt.1.bits,
        );
        let n = self.obs_points.len();
        let mut acc = fl_of_u32(0);
        let mut i: usize = 0;
        while i < n
            invariant
                i <= n,
                acc.bits == sum_bits(terms.take(i as int)),
            decreases n - i,
        {
            let a = norm(&q, &self.obs_points[i]);
            let contribution = fl_mul(self.kernel.apply(a, self.epsilon), self.weights[i]);
            acc = fl_add(acc, contribution);
            proof {
                assert(terms.take(i + 1).drop_last() =~= terms.take(i as int));
            }
            i = i + 1;
        }
        proof {
            assert(terms.take(n as int) =~= terms);
        }
        acc
    }
}

/// Law: evaluation is deterministic. Two results of evaluating one model at
/// one coordinate pair — each constrained exactly as `interp_point`
/// constrains its result — are bit-identical.
pub proof fn lemma_interp_deterministic(m: Rbf, pt: (Scalar, Scalar), r1: Scalar, r2: Scalar)
    requires
        r1.bits == m.spec_interp(pt.0.bits, pt.1.bits),
        r2.bits == m.spec_interp(pt.0.bits, pt.1.bits),
    ensures
        r1 == r2,
{
}

/// Law: the fragment of kernel totality that the bit model can state
/// exactly. At a distance that compares equal to zero, the thin-plate
/// kernel is exactly the zero scalar — never the logarithm's value there.
pub proof fn lemma_thin_plate_zero(r: u64, eps: u64)
    requires
        feq_bits(r, of_u32_bits(0)),
    ensures
        kernel_bits(Kernel::ThinPlate, r, eps) == of_u32_bits(0),
{
}

/// The bits of a grid step: the axis span divided by the resolution.
pub open spec fn step_bits(min: u64, max: u64, reso: u32) -> u64 {
    div_bits(sub_bits(max, min), of_u32_bits(reso))
}

/// The bits of the grid coordinate at index `idx`: the axis minimum plus
/// `idx` steps.
pub open spec fn grid_coord_bits(min: u64, step: u64, idx: u32) -> u64 {
    add_bits(min, mul_bits(step, of_u32_bits(idx)))
}

/// The grid point at flat index `ix` (outer loop over the x index, inner
/// over the y index, `reso_y` samples per x step): its coordinates, and the
/// model's value there.
pub open spec fn grid_point_spec(
    bbox: Bbox,
    reso_x: u32,
    reso_y: u32,
    k: Kernel,
    eps: u64,
    pts: Seq<PtValue>,
    ws: Seq<u64>,
    ix: int,
) -> PtValue {
    let i = ix / (reso_y as int);
    let j = ix % (reso_y as int);
    let sx = step_bits(bbox.min_x.bits, bbox.max_x.bits, reso_x);
    let sy = step_bits(bbox.min_y.bits, bbox.max_y.bits, reso_y);
    let xb = grid_coord_bits(bbox.min_x.bits, sx, i as u32);
    let yb = grid_coord_bits(bbox.min_y.bits, sy, j as u32);
    PtValue {
        x: Scalar { bits: xb },
        y: Scalar { bits: yb },
        value: Scalar { bits: interp_value_bits(k, eps, pts, ws, xb, yb) },
    }
}

/// Compute the chosen radial basis interpolation from scattered data on a
/// grid defined by its bounding box and by its resolution on the x and y
/// axis. A resolution of zero on either axis is rejected before any model is
/// built; a model construction error propagates unchanged. On success the
/// result holds exactly `reso_x * reso_y` points: the outer loop walks the x
/// indices, the inner the y indices, and the point at flat index
/// `i * reso_y + j` sits at the grid coordinates with the model's value.
#[verifier::loop_isolation(false)]
pub fn rbf_interpolation(
    reso_x: u32,
    reso_y: u32,
    bbox: &Bbox,
    obs_points: &Vec<PtValue>,
    func_name: &str,
    epsilon: Option<Scalar>,
) -> (r: Result<Vec<PtValue>, RbfError>)
    requires
        obs_points@.len() >= 1,
    ensures
        (match r {
            Ok(v) => {
                &&& reso_x >= 1
                &&& reso_y >= 1
                &&& construct_error(obs_points@, func_name@, epsilon) is None
                &&& v@.len() == reso_x * reso_y
                &&& (forall|ix: int|
                    0 <= ix < v@.len() ==> #[trigger] v@[ix] == grid_point_spec(
                        *bbox,
                        reso_x,
                        reso_y,
                        kernel_of_name(func_name@)->Some_0,
                        resolved_epsilon_bits(obs_points@, epsilon),
                        obs_points@,
                        weights_bits(
                            kernel_of_name(func_name@)->Some_0,
                            obs_points@,
                            resolved_epsilon_bits(obs_points@, epsilon),
                        )->Some_0,
                        ix,
                    ))
            },
            Err(e) => if reso_x == 0 || reso_y == 0 {
                e == RbfError::InvalidResolution
            } else {
                construct_error(obs_points@, func_name@, epsilon) == Some(e)
            },
        }),
{
    if reso_x == 0 || reso_y == 0 {
        return Err(RbfError::InvalidResolution);
    }
    let x_step = fl_div(fl_sub(bbox.max_x, bbox.min_x), fl_of_u32(reso_x));
    let y_step = fl_div(fl_sub(bbox.max_y, bbox.min_y), fl_of_u32(reso_y));
    let rbf = match Rbf::new(obs_points, func_name, epsilon) {
        Ok(m) => m,
        Err(e) => {
            return Err(e);
        },
    };
    let ghost k = rbf.kernel;
    let ghost epsb = rbf.epsilon.bits;
    let ghost ws = bits_of(rbf.weights@);
    let mut plots: Vec<PtValue> = Vec::new();
    let mut i: u32 = 0;
    while i < reso_x
        invariant
            i <= reso_x,
            plots@.len() == i * reso_y,
            forall|ix: int|
                0 <= ix < plots@.len() ==> #[trigger] plots@[ix] == grid_point_spec(
                    *bbox,
                    reso_x,
                    reso_y,
                    k,
                    epsb,
                    obs_points@,
                    ws,
                    ix,
                ),
        decreases reso_x - i,
    {
        let x = fl_add(bbox.min_x, fl_mul(x_step, fl_of_u32(i)));
        let mut jj: u32 = 0;
        while jj < reso_y
            invariant
                jj <= reso_y,
                i < reso_x,
                plots@.len() == i * reso_y + jj,
                forall|ix: int|
                    0 <= ix < plots@.len() ==> #[trigger] plots@[ix] == grid_point_spec(
                        *bbox,
                        reso_x,
                        reso_y,
                        k,
                        epsb,
                        obs_points@,
                        ws,
                        ix,
                    ),
            decreases reso_y - jj,
        {
            let y = fl_add(bbox.min_y, fl_mul(y_step, fl_of_u32(jj)));
            let value = rbf.interp_point((x, y));
            plots.push(PtValue::new(x, y, value));
            proof {
                lemma_fundamental_div_mod_converse(
                    (i as int) * (reso_y as int) + (jj as int),
                    reso_y as int,
                    i as int,
                    jj as int,
                );
            }
            jj = jj + 1;
        }
        proof {
            assert((i + 1) * reso_y == i * reso_y + reso_y) by (nonlinear_arith);
        }
        i = i + 1;
    }
    Ok(plots)
}

} // verus!
