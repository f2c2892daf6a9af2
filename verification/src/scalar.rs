//! The scalar type of the library: a double-precision IEEE-754 value carried
//! by its bit pattern. The width is fixed: every coordinate, value and
//! parameter is a 64-bit double.
//!
//! Verified code never computes with the numeric value directly: every
//! arithmetic operation goes through a trusted wrapper, and the wrapper's
//! contract names the result with an uninterpreted function of the operand
//! bit patterns. IEEE-754 determines the value of each such operation — and
//! so the exact bit pattern of every non-NaN result — but Rust leaves the
//! payload bits of a NaN produced by arithmetic unspecified. The library
//! therefore canonicalizes: each operation maps any NaN result to the one
//! quiet NaN (`QUIET_NAN`), the trusted contract claims only the canonical
//! bits (`canon_bits`), and the named result is then a genuine function of
//! the operand bits. The logarithm and the exponential, whose precision the
//! standard library leaves unspecified, are taken from libm, whose pure-Rust
//! implementations are ordinary code and deterministic.

use vstd::prelude::*;

use num_traits::FromBytes;
use num_traits::ToPrimitive;

verus! {

/// The sign bit of a double's bit pattern.
pub const SIGN_BIT: u64 = 0x8000_0000_0000_0000;

/// The magnitude of an infinity's bit pattern; a magnitude above it is a NaN.
pub const EXP_MASK: u64 = 0x7ff0_0000_0000_0000;

/// The one quiet NaN that canonicalization produces.
pub const QUIET_NAN: u64 = 0x7ff8_0000_0000_0000;

/// A double-precision floating-point number, held as its bit pattern.
#[derive(Clone, Copy, Debug, PartialEq, Eq, Structural, Hash)]
pub struct Scalar {
    /// The IEEE-754 bit pattern of the value.
    pub bits: u64,
}

impl Scalar {
    /// Wrap a bit pattern.
    pub fn from_bits(bits: u64) -> (r: Scalar)
        ensures
            r.bits == bits,
    {
        Scalar { bits }
    }

    /// The bit pattern of the value.
    pub fn to_bits(self) -> (r: u64)
        ensures
            r == self.bits,
    {
        self.bits
    }
}

/// Whether `b` is the bit pattern of a NaN: with the sign cleared, the
/// magnitude lies above an infinity's.
pub open spec fn is_nan_bits(b: u64) -> bool {
    (if b >= SIGN_BIT {
        (b - SIGN_BIT) as u64
    } else {
        b
    }) > EXP_MASK
}

/// The canonical form of a bit pattern: any NaN becomes the one quiet NaN,
/// everything else stays as it is.
pub open spec fn canon_bits(b: u64) -> u64 {
    if is_nan_bits(b) {
        QUIET_NAN
    } else {
        b
    }
}

/// Map any NaN to the one quiet NaN; leave every other value unchanged.
pub(crate) fn canonical(s: Scalar) -> (r: Scalar)
    ensures
        r.bits == canon_bits(s.bits),
{
    let magnitude = if s.bits >= SIGN_BIT {
        s.bits - SIGN_BIT
    } else {
        s.bits
    };
    if magnitude > EXP_MASK {
        Scalar { bits: QUIET_NAN }
    } else {
        s
    }
}

/// The bit patterns of a sequence of scalars.
pub open spec fn bits_of(s: Seq<Scalar>) -> Seq<u64> {
    s.map_values(|v: Scalar| v.bits)
}

/// The canonical forms of a sequence of bit patterns.
pub open spec fn canon_seq(s: Seq<u64>) -> Seq<u64> {
    s.map_values(|b: u64| canon_bits(b))
}

/// The canonical bits of the sum of the doubles with bits `a` and `b`.
pub uninterp spec fn add_bits(a: u64, b: u64) -> u64;

/// The canonical bits of the difference of the doubles with bits `a` and `b`.
pub uninterp spec fn sub_bits(a: u64, b: u64) -> u64;

/// The canonical bits of the product of the doubles with bits `a` and `b`.
pub uninterp spec fn mul_bits(a: u64, b: u64) -> u64;

/// The canonical bits of the quotient of the doubles with bits `a` and `b`.
pub uninterp spec fn div_bits(a: u64, b: u64) -> u64;

/// The canonical bits of the square root of the double with bits `a`.
pub uninterp spec fn sqrt_bits(a: u64) -> u64;

/// The bits of libm's natural logarithm of the double with bits `a`.
pub uninterp spec fn ln_bits(a: u64) -> u64;

/// The bits of libm's exponential of the double with bits `a`.
pub uninterp spec fn exp_bits(a: u64) -> u64;

/// Whether the double with bits `a` is less than the double with bits `b`.
pub uninterp spec fn lt_bits(a: u64, b: u64) -> bool;

/// Whether the doubles with bits `a` and `b` compare equal (IEEE equality,
/// not bit equality).
pub uninterp spec fn feq_bits(a: u64, b: u64) -> bool;

/// The bits of the double nearest to the unsigned 32-bit integer `u`
/// (exact, since every `u32` is representable).
pub uninterp spec fn of_u32_bits(u: u32) -> u64;

/// The bits of the double nearest to the unsigned machine integer `n`.
pub uninterp spec fn of_usize_bits(n: usize) -> u64;

/// Relies on IEEE-754 double addition: the value of the sum — so the exact
/// bits of a non-NaN sum, and whether it is NaN — is determined by the
/// operands. `add_bits` names the sum's canonical bits, since Rust leaves
/// the payload bits of a NaN produced by arithmetic unspecified.
#[verifier::external_body]
fn raw_add(a: Scalar, b: Scalar) -> (r: Scalar)
    ensures
        canon_bits(r.bits) == add_bits(a.bits, b.bits),
{
    let mut x = 0u32.to_f64().unwrap();
    let mut y = x;
    x = FromBytes::from_ne_bytes(&a.bits.to_ne_bytes());
    y = FromBytes::from_ne_bytes(&b.bits.to_ne_bytes());
    Scalar { bits: (x + y).to_bits() }
}

/// Canonicalized double addition: the named sum, with one fixed NaN.
pub(crate) fn fl_add(a: Scalar, b: Scalar) -> (r: Scalar)
    ensures
        r.bits == add_bits(a.bits, b.bits),
{
    canonical(raw_add(a, b))
}

/// Relies on IEEE-754 double subtraction: as for addition, the difference's
/// canonical bits are a function of the operand bits, named by `sub_bits`.
#[verifier::external_body]
fn raw_sub(a: Scalar, b: Scalar) -> (r: Scalar)
    ensures
        canon_bits(r.bits) == sub_bits(a.bits, b.bits),
{
    let mut x = 0u32.to_f64().unwrap();
    let mut y = x;
    x = FromBytes::from_ne_bytes(&a.bits.to_ne_bytes());
    y = FromBytes::from_ne_bytes(&b.bits.to_ne_bytes());
    Scalar { bits: (x - y).to_bits() }
}

/// Canonicalized double subtraction: the named difference, with one fixed NaN.
pub(crate) fn fl_sub(a: Scalar, b: Scalar) -> (r: Scalar)
    ensures
        r.bits == sub_bits(a.bits, b.bits),
{
    canonical(raw_sub(a, b))
}

/// Relies on IEEE-754 double multiplication: the product's canonical bits
/// are a function of the operand bits, named by `mul_bits`.
#[verifier::external_body]
fn raw_mul(a: Scalar, b: Scalar) -> (r: Scalar)
    ensures
        canon_bits(r.bits) == mul_bits(a.bits, b.bits),
{
    let mut x = 0u32.to_f64().unwrap();
    let mut y = x;
    x = FromBytes::from_ne_bytes(&a.bits.to_ne_bytes());
    y = FromBytes::from_ne_bytes(&b.bits.to_ne_bytes());
    Scalar { bits: (x * y).to_bits() }
}

/// Canonicalized double multiplication: the named product, with one fixed NaN.
pub(crate) fn fl_mul(a: Scalar, b: Scalar) -> (r: Scalar)
    ensures
        r.bits == mul_bits(a.bits, b.bits),
{
    canonical(raw_mul(a, b))
}

/// Relies on IEEE-754 double division: the quotient's canonical bits are a
/// function of the operand bits, named by `div_bits`.
#[verifier::external_body]
fn raw_div(a: Scalar, b: Scalar) -> (r: Scalar)
    ensures
        canon_bits(r.bits) == div_bits(a.bits, b.bits),
{
    let mut x = 0u32.to_f64().unwrap();
    let mut y = x;
    x = FromBytes::from_ne_bytes(&a.bits.to_ne_bytes());
    y = FromBytes::from_ne_bytes(&b.bits.to_ne_bytes());
    Scalar { bits: (x / y).to_bits() }
}

/// Canonicalized double division: the named quotient, with one fixed NaN.
pub(crate) fn fl_div(a: Scalar, b: Scalar) -> (r: Scalar)
    ensures
        r.bits == div_bits(a.bits, b.bits),
{
    canonical(raw_div(a, b))
}

/// Relies on the standard library's `sqrt` for doubles: IEEE squareRoot,
/// correctly rounded, so the canonical bits of the root are a function of
/// the operand bits, named by `sqrt_bits`.
#[verifier::external_body]
fn raw_sqrt(a: Scalar) -> (r: Scalar)
    ensures
        canon_bits(r.bits) == sqrt_bits(a.bits),
{
    let mut x = 0u32.to_f64().unwrap();
    x = FromBytes::from_ne_bytes(&a.bits.to_ne_bytes());
    Scalar { bits: x.sqrt().to_bits() }
}

/// Canonicalized double square root: the named root, with one fixed NaN.
pub(crate) fn fl_sqrt(a: Scalar) -> (r: Scalar)
    ensures
        r.bits == sqrt_bits(a.bits),
{
    canonical(raw_sqrt(a))
}

/// Relies on libm's `log` for doubles: a pure-Rust implementation, hence a
/// deterministic function of the operand's bit pattern, named by `ln_bits`.
#[verifier::external_body]
pub(crate) fn fl_ln(a: Scalar) -> (r: Scalar)
    ensures
        r.bits == ln_bits(a.bits),
{
    let mut x = 0u32.to_f64().unwrap();
    x = FromBytes::from_ne_bytes(&a.bits.to_ne_bytes());
    Scalar { bits: libm::log(x).to_bits() }
}

/// Relies on libm's `exp` for doubles: a pure-Rust implementation, hence a
/// deterministic function of the operand's bit pattern, named by `exp_bits`.
#[verifier::external_body]
pub(crate) fn fl_exp(a: Scalar) -> (r: Scalar)
    ensures
        r.bits == exp_bits(a.bits),
{
    let mut x = 0u32.to_f64().unwrap();
    x = FromBytes::from_ne_bytes(&a.bits.to_ne_bytes());
    Scalar { bits: libm::exp(x).to_bits() }
}

/// Relies on the IEEE-754 `<` comparison of doubles: a deterministic, total
/// function of the operand bit patterns (false whenever either is a NaN).
#[verifier::external_body]
pub(crate) fn fl_lt(a: Scalar, b: Scalar) -> (r: bool)
    ensures
        r == lt_bits(a.bits, b.bits),
{
    let mut x = 0u32.to_f64().unwrap();
    let mut y = x;
    x = FromBytes::from_ne_bytes(&a.bits.to_ne_bytes());
    y = FromBytes::from_ne_bytes(&b.bits.to_ne_bytes());
    x < y
}

/// Relies on the IEEE-754 `==` comparison of doubles: a deterministic, total
/// function of the operand bit patterns.
#[verifier::external_body]
pub(crate) fn fl_feq(a: Scalar, b: Scalar) -> (r: bool)
    ensures
        r == feq_bits(a.bits, b.bits),
{
    let mut x = 0u32.to_f64().unwrap();
    let mut y = x;
    x = FromBytes::from_ne_bytes(&a.bits.to_ne_bytes());
    y = FromBytes::from_ne_bytes(&b.bits.to_ne_bytes());
    x == y
}

/// Relies on num_traits' `ToPrimitive::to_f64` for `u32`: the conversion is
/// exact and total, a deterministic function of the integer.
#[verifier::external_body]
pub(crate) fn fl_of_u32(u: u32) -> (r: Scalar)
    ensures
        r.bits == of_u32_bits(u),
{
    Scalar { bits: u.to_f64().unwrap().to_bits() }
}

/// Relies on num_traits' `ToPrimitive::to_f64` for `usize`: the conversion is
/// total (rounding to nearest above 2^53), a deterministic function of the
/// integer.
#[verifier::external_body]
pub(crate) fn fl_of_usize(n: usize) -> (r: Scalar)
    ensures
        r.bits == of_usize_bits(n),
{
    Scalar { bits: n.to_f64().unwrap().to_bits() }
}

} // verus!
