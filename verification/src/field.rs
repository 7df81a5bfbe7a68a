//! Field elements, as far as laying out and checking a trace needs them.

use vstd::prelude::*;
use vstd::arithmetic::div_mod::{lemma_fundamental_div_mod, lemma_mod_multiples_vanish};

verus! {

/// An element of the field that the columns of a circuit hold.
///
/// Laying out a trace needs the zero element, and checking it needs to tell
/// zero from the rest and to scale by one. The arithmetic is there for the
/// relations, which are stated over it.
pub trait FieldElement: Copy + Sized {
    /// The zero of the field.
    spec fn zero_spec() -> Self;

    /// The one of the field.
    spec fn one_spec() -> Self;

    /// The sum of two elements.
    spec fn plus_spec(self, other: Self) -> Self;

    /// The difference of two elements.
    spec fn minus_spec(self, other: Self) -> Self;

    /// The product of two elements.
    spec fn times_spec(self, other: Self) -> Self;

    /// The zero of the field.
    fn zero() -> (z: Self)
        ensures
            z == Self::zero_spec(),
    ;

    /// The one of the field.
    fn one() -> (o: Self)
        ensures
            o == Self::one_spec(),
    ;

    /// Whether this element is the zero of the field.
    fn is_zero(&self) -> (b: bool)
        ensures
            b == (*self == Self::zero_spec()),
    ;

    /// The sum of two elements.
    fn plus(self, other: Self) -> (r: Self)
        ensures
            r == self.plus_spec(other),
    ;

    /// The difference of two elements.
    fn minus(self, other: Self) -> (r: Self)
        ensures
            r == self.minus_spec(other),
    ;

    /// The product of two elements.
    fn times(self, other: Self) -> (r: Self)
        ensures
            r == self.times_spec(other),
    ;
}

/// The modulus of the Mersenne field: `2^31 - 1`.
pub const MERSENNE_31: u32 = 2147483647;

/// An element of the prime field with `2^31 - 1` elements.
///
/// `new` and the arithmetic give elements that are reduced, which hold the
/// least residue; the arithmetic takes any residue.
#[derive(Clone, Copy, Debug, PartialEq, Eq, Structural)]
pub struct Mersenne31 {
    /// A residue of the element.
    pub residue: u32,
}

impl Mersenne31 {
    /// The element holds its least residue.
    pub open spec fn is_reduced(self) -> bool {
        self.residue < MERSENNE_31
    }

    /// The reduced element with the residue `residue`.
    pub open spec fn of(residue: int) -> Mersenne31 {
        Mersenne31 { residue: (residue % MERSENNE_31 as int) as u32 }
    }

    /// The reduced element that `value` stands for.
    pub fn new(value: u32) -> (r: Mersenne31)
        ensures
            r == Mersenne31::of(value as int),
            r.is_reduced(),
    {
        Mersenne31 { residue: value % MERSENNE_31 }
    }

    /// The residue that the element holds.
    pub fn value(&self) -> (r: u32)
        ensures
            r == self.residue,
    {
        self.residue
    }
}

impl FieldElement for Mersenne31 {
    open spec fn zero_spec() -> Mersenne31 {
        Mersenne31 { residue: 0 }
    }

    open spec fn one_spec() -> Mersenne31 {
        Mersenne31 { residue: 1 }
    }

    open spec fn plus_spec(self, other: Mersenne31) -> Mersenne31 {
        Mersenne31::of(self.residue + other.residue)
    }

    open spec fn minus_spec(self, other: Mersenne31) -> Mersenne31 {
        Mersenne31::of(self.residue - other.residue)
    }

    open spec fn times_spec(self, other: Mersenne31) -> Mersenne31 {
        Mersenne31::of(self.residue * other.residue)
    }

    fn zero() -> (z: Mersenne31) {
        Mersenne31 { residue: 0 }
    }

    fn one() -> (o: Mersenne31) {
        Mersenne31 { residue: 1 }
    }

    fn is_zero(&self) -> (b: bool) {
        self.residue == 0
    }

    fn plus(self, other: Mersenne31) -> (r: Mersenne31)
        ensures
            r.is_reduced(),
    {
        let sum: u64 = self.residue as u64 + other.residue as u64;
        Mersenne31 { residue: (sum % (MERSENNE_31 as u64)) as u32 }
    }

    fn minus(self, other: Mersenne31) -> (r: Mersenne31)
        ensures
            r.is_reduced(),
    {
        let p: u64 = MERSENNE_31 as u64;
        let difference: u64 = self.residue as u64 + p - (other.residue as u64 % p);
        proof {
            lemma_difference(self.residue as int, other.residue as int, p as int);
        }
        Mersenne31 { residue: (difference % p) as u32 }
    }

    fn times(self, other: Mersenne31) -> (r: Mersenne31)
        ensures
            r.is_reduced(),
    {
        let a: u64 = self.residue as u64;
        let b: u64 = other.residue as u64;
        assert(a * b <= 0xffff_ffff * 0xffff_ffff) by (nonlinear_arith)
            requires
                a <= 0xffff_ffff,
                b <= 0xffff_ffff,
        ;
        let product: u64 = a * b;
        Mersenne31 { residue: (product % (MERSENNE_31 as u64)) as u32 }
    }
}

/// Adding the modulus and reducing the subtrahend first leaves the residue
/// of a difference as it is.
proof fn lemma_difference(a: int, b: int, p: int)
    requires
        p > 0,
    ensures
        (a + p - b % p) % p == (a - b) % p,
{
    lemma_fundamental_div_mod(b, p);
    let q = b / p;
    assert(a + p - b % p == (a - b) + p * (q + 1)) by (nonlinear_arith)
        requires
            b == p * q + b % p,
    ;
    lemma_mod_multiples_vanish(q + 1, a - b, p);
}

} // verus!
