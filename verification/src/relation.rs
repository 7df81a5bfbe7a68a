//! Relations over the rows of a circuit.

use vstd::prelude::*;
use vstd::string::*;
use crate::field::FieldElement;
use crate::polynomials::{grid, row_at, PolynomialSet};

verus! {

/// The challenges that lookups and grand products combine their terms with.
/// They are drawn once for each check and only read by the evaluators.
pub struct ChallengeParameters<F> {
    /// Batches the columns of a lookup.
    pub eta: F,
    /// Separates the values of a tuple.
    pub beta: F,
    /// Offsets a term so that it is not zero.
    pub gamma: F,
    /// What the public inputs add to a grand product.
    pub public_input_delta: F,
    /// What the lookups add to a grand product.
    pub lookup_grand_product_delta: F,
    /// The square of `beta`.
    pub beta_sqr: F,
    /// The cube of `beta`.
    pub beta_cube: F,
}

impl<F: FieldElement> ChallengeParameters<F> {
    /// The parameters that are all zero.
    pub open spec fn zero_spec() -> ChallengeParameters<F> {
        ChallengeParameters {
            eta: F::zero_spec(),
            beta: F::zero_spec(),
            gamma: F::zero_spec(),
            public_input_delta: F::zero_spec(),
            lookup_grand_product_delta: F::zero_spec(),
            beta_sqr: F::zero_spec(),
            beta_cube: F::zero_spec(),
        }
    }

    /// The parameters that are all zero: what a plain relation is given.
    pub fn zero() -> (params: ChallengeParameters<F>)
        ensures
            params == Self::zero_spec(),
    {
        ChallengeParameters {
            eta: F::zero(),
            beta: F::zero(),
            gamma: F::zero(),
            public_input_delta: F::zero(),
            lookup_grand_product_delta: F::zero(),
            beta_sqr: F::zero(),
            beta_cube: F::zero(),
        }
    }
}

/// A named constraint with a fixed number of subrelations.
///
/// Each row adds to one accumulator for each subrelation. A relation holds
/// where its accumulators are zero. A lookup or a grand product first derives
/// helper columns from the polynomials and the challenges, and its
/// accumulation reads them beside the row.
pub trait Relation<F: FieldElement> {
    /// The name of the relation.
    spec fn name_spec(&self) -> Seq<char>;

    /// The number of subrelations.
    spec fn arity_spec(&self) -> nat;

    /// The helper columns derived from the polynomials over a domain of
    /// `size` points and the challenges.
    spec fn helpers_spec(
        &self,
        polynomials: Seq<Seq<F>>,
        size: nat,
        params: ChallengeParameters<F>,
    ) -> Seq<Seq<F>>;

    /// The accumulators after one more row.
    spec fn accumulate_spec(
        &self,
        accumulators: Seq<F>,
        row: Seq<F>,
        helpers: Seq<F>,
        params: ChallengeParameters<F>,
        scale: F,
    ) -> Seq<F>;

    /// The name of the relation.
    fn name(&self) -> (name: String)
        ensures
            name@ == self.name_spec(),
    ;

    /// The number of subrelations.
    fn arity(&self) -> (arity: usize)
        ensures
            arity == self.arity_spec(),
    ;

    /// Derives the helper columns, each with one value for each point of the
    /// domain.
    fn compute_helpers(&self, polys: &PolynomialSet<F>, params: &ChallengeParameters<F>) -> (helpers:
        Vec<Vec<F>>)
        requires
            polys.wf(),
        ensures
            grid(helpers@) == self.helpers_spec(polys.coefficients(), polys.size as nat, *params),
            forall|k: int|
                0 <= k < helpers@.len() ==> (#[trigger] helpers@[k])@.len() == polys.size,
    ;

    /// Adds the contributions of one row, scaled by `scale`, to the accumulators.
    fn accumulate(
        &self,
        accumulators: &mut Vec<F>,
        row: &Vec<F>,
        helpers: &Vec<F>,
        params: &ChallengeParameters<F>,
        scale: F,
    )
        requires
            old(accumulators)@.len() == self.arity_spec(),
        ensures
            final(accumulators)@.len() == self.arity_spec(),
            final(accumulators)@ == self.accumulate_spec(
                old(accumulators)@,
                row@,
                helpers@,
                *params,
                scale,
            ),
    ;
}

/// The names of the challenges.
#[derive(Clone, Copy, Debug, PartialEq, Eq, Structural)]
pub enum Challenge {
    Eta,
    Beta,
    Gamma,
    PublicInputDelta,
    LookupGrandProductDelta,
    BetaSqr,
    BetaCube,
}

impl<F: FieldElement> ChallengeParameters<F> {
    /// The challenge of the given name.
    pub open spec fn get_spec(&self, challenge: Challenge) -> F {
        match challenge {
            Challenge::Eta => self.eta,
            Challenge::Beta => self.beta,
            Challenge::Gamma => self.gamma,
            Challenge::PublicInputDelta => self.public_input_delta,
            Challenge::LookupGrandProductDelta => self.lookup_grand_product_delta,
            Challenge::BetaSqr => self.beta_sqr,
            Challenge::BetaCube => self.beta_cube,
        }
    }

    /// The challenge of the given name.
    pub fn get(&self, challenge: Challenge) -> (value: F)
        ensures
            value == self.get_spec(challenge),
    {
        match challenge {
            Challenge::Eta => self.eta,
            Challenge::Beta => self.beta,
            Challenge::Gamma => self.gamma,
            Challenge::PublicInputDelta => self.public_input_delta,
            Challenge::LookupGrandProductDelta => self.lookup_grand_product_delta,
            Challenge::BetaSqr => self.beta_sqr,
            Challenge::BetaCube => self.beta_cube,
        }
    }
}

/// A polynomial in the fields of a row, the helper values of the row and the
/// challenges.
pub enum Expression<F> {
    /// A fixed element.
    Constant(F),
    /// The field of the row at this place.
    Column(usize),
    /// The value of the helper column at this place.
    Helper(usize),
    /// A challenge.
    Parameter(Challenge),
    /// The sum of two expressions.
    Sum(Box<Expression<F>>, Box<Expression<F>>),
    /// The first expression less the second.
    Difference(Box<Expression<F>>, Box<Expression<F>>),
    /// The product of two expressions.
    Product(Box<Expression<F>>, Box<Expression<F>>),
}

impl<F: FieldElement> Expression<F> {
    /// The value of the expression on a row. A field or a helper value that
    /// the row does not have reads as zero.
    pub open spec fn value(&self, row: Seq<F>, helpers: Seq<F>, params: ChallengeParameters<F>) -> F
        decreases self,
    {
        match self {
            Expression::Constant(c) => *c,
            Expression::Column(k) => if *k < row.len() {
                row[*k as int]
            } else {
                F::zero_spec()
            },
            Expression::Helper(k) => if *k < helpers.len() {
                helpers[*k as int]
            } else {
                F::zero_spec()
            },
            Expression::Parameter(challenge) => params.get_spec(*challenge),
            Expression::Sum(a, b) => a.value(row, helpers, params).plus_spec(
                b.value(row, helpers, params),
            ),
            Expression::Difference(a, b) => a.value(row, helpers, params).minus_spec(
                b.value(row, helpers, params),
            ),
            Expression::Product(a, b) => a.value(row, helpers, params).times_spec(
                b.value(row, helpers, params),
            ),
        }
    }

    /// Computes the value of the expression on a row.
    pub fn evaluate(&self, row: &Vec<F>, helpers: &Vec<F>, params: &ChallengeParameters<F>) -> (v: F)
        ensures
            v == self.value(row@, helpers@, *params),
        decreases self,
    {
        match self {
            Expression::Constant(c) => *c,
            Expression::Column(k) => if *k < row.len() {
                row[*k]
            } else {
                F::zero()
            },
            Expression::Helper(k) => if *k < helpers.len() {
                helpers[*k]
            } else {
                F::zero()
            },
            Expression::Parameter(challenge) => params.get(*challenge),
            Expression::Sum(a, b) => a.evaluate(row, helpers, params).plus(
                b.evaluate(row, helpers, params),
            ),
            Expression::Difference(a, b) => a.evaluate(row, helpers, params).minus(
                b.evaluate(row, helpers, params),
            ),
            Expression::Product(a, b) => a.evaluate(row, helpers, params).times(
                b.evaluate(row, helpers, params),
            ),
        }
    }
}

/// A relation that is given by polynomials: one for each helper column, which
/// gives the column's value at a point from the row at that point and the
/// challenges, and one for each subrelation, which gives what a row adds to
/// the subrelation's accumulator.
pub struct PolynomialRelation<F> {
    /// The name of the relation.
    pub name: String,
    /// The polynomials of the helper columns.
    pub helpers: Vec<Expression<F>>,
    /// The polynomials of the subrelations.
    pub subrelations: Vec<Expression<F>>,
}

impl<F: FieldElement> PolynomialRelation<F> {
    /// Helper column `k` over the first `size` points.
    pub open spec fn helper_column(
        &self,
        k: int,
        polynomials: Seq<Seq<F>>,
        params: ChallengeParameters<F>,
        size: nat,
    ) -> Seq<F> {
        Seq::new(
            size,
            |i: int| self.helpers@[k].value(row_at(polynomials, i), Seq::empty(), params),
        )
    }
}

impl<F: FieldElement> Relation<F> for PolynomialRelation<F> {
    open spec fn name_spec(&self) -> Seq<char> {
        self.name@
    }

    open spec fn arity_spec(&self) -> nat {
        self.subrelations@.len()
    }

    open spec fn helpers_spec(
        &self,
        polynomials: Seq<Seq<F>>,
        size: nat,
        params: ChallengeParameters<F>,
    ) -> Seq<Seq<F>> {
        Seq::new(
            self.helpers@.len(),
            |k: int| self.helper_column(k, polynomials, params, size),
        )
    }

    open spec fn accumulate_spec(
        &self,
        accumulators: Seq<F>,
        row: Seq<F>,
        helpers: Seq<F>,
        params: ChallengeParameters<F>,
        scale: F,
    ) -> Seq<F> {
        Seq::new(
            accumulators.len(),
            |j: int|
                accumulators[j].plus_spec(
                    self.subrelations@[j].value(row, helpers, params).times_spec(scale),
                ),
        )
    }

    fn name(&self) -> (name: String) {
        self.name.clone()
    }

    fn arity(&self) -> (arity: usize) {
        self.subrelations.len()
    }

    fn compute_helpers(&self, polys: &PolynomialSet<F>, params: &ChallengeParameters<F>) -> (helpers:
        Vec<Vec<F>>) {
        let none: Vec<F> = Vec::new();
        let mut helpers: Vec<Vec<F>> = Vec::new();
        let mut k: usize = 0;
        while k < self.helpers.len()
            invariant
                polys.wf(),
                k <= self.helpers@.len(),
                none@ == Seq::<F>::empty(),
                helpers@.len() == k,
                forall|h: int|
                    0 <= h < k ==> (#[trigger] helpers@[h])@ == self.helper_column(
                        h,
                        polys.coefficients(),
                        *params,
                        polys.size as nat,
                    ),
            decreases self.helpers@.len() - k,
        {
            let mut column: Vec<F> = Vec::new();
            let mut i: usize = 0;
            while i < polys.size
                invariant
                    polys.wf(),
                    k < self.helpers@.len(),
                    i <= polys.size,
                    none@ == Seq::<F>::empty(),
                    column@.len() == i,
                    forall|h: int|
                        0 <= h < i ==> column@[h] == self.helpers@[k as int].value(
                            row_at(polys.coefficients(), h),
                            Seq::empty(),
                            *params,
                        ),
                decreases polys.size - i,
            {
                let row = polys.get_row(i);
                column.push(self.helpers[k].evaluate(&row, &none, params));
                i += 1;
            }
            proof {
                assert(column@ =~= self.helper_column(k as int, polys.coefficients(), *params, polys.size as nat));
            }
            helpers.push(column);
            k += 1;
        }
        proof {
            assert(grid(helpers@) =~= self.helpers_spec(polys.coefficients(), polys.size as nat, *params));
        }
        helpers
    }

    fn accumulate(
        &self,
        accumulators: &mut Vec<F>,
        row: &Vec<F>,
        helpers: &Vec<F>,
        params: &ChallengeParameters<F>,
        scale: F,
    ) {
        let ghost before = accumulators@;
        let mut j: usize = 0;
        while j < self.subrelations.len()
            invariant
                j <= self.subrelations@.len(),
                before.len() == self.subrelations@.len(),
                accumulators@.len() == before.len(),
                forall|h: int|
                    0 <= h < j ==> accumulators@[h] == before[h].plus_spec(
                        self.subrelations@[h].value(row@, helpers@, *params).times_spec(scale),
                    ),
                forall|h: int| j <= h < before.len() ==> accumulators@[h] == before[h],
            decreases self.subrelations@.len() - j,
        {
            let contribution = self.subrelations[j].evaluate(row, helpers, params).times(scale);
            let sum = accumulators[j].plus(contribution);
            accumulators.set(j, sum);
            j += 1;
        }
        proof {
            assert(accumulators@ =~= self.accumulate_spec(before, row@, helpers@, *params, scale));
        }
    }
}

} // verus!
