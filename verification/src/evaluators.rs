//! Checking a trace against the relations, lookups and grand products of a
//! circuit.

use vstd::prelude::*;
use vstd::string::*;
use crate::field::FieldElement;
use crate::polynomials::{grid, row_at, PolynomialSet};
use crate::relation::{ChallengeParameters, Relation};
use crate::utils::{decimal, decimal_text};

verus! {

/// What an evaluator found wrong.
#[derive(Debug)]
pub enum VerificationFailure {
    /// A subrelation of a relation is not zero on a row.
    Relation { name: String, row: usize, subrelation: usize },
    /// The accumulators of a lookup are not all zero after `row`, the last
    /// row of the domain.
    Lookup { name: String, row: usize },
    /// The accumulators of a grand product are not all zero after `row`, the
    /// last row of the domain.
    GrandProduct { name: String, row: usize },
}

/// What a failure is reported as.
pub open spec fn message_text(failure: VerificationFailure) -> Seq<char> {
    match failure {
        VerificationFailure::Relation { name, row, subrelation } => "Relation "@ + name@
            + ", subrelation index "@ + decimal_text(subrelation as nat) + " failed at row "@
            + decimal_text(row as nat),
        VerificationFailure::Lookup { name, row } => "Lookup "@ + name@ + " failed."@,
        VerificationFailure::GrandProduct { name, row } => "Copy "@ + name@ + " failed."@,
    }
}

impl VerificationFailure {
    /// The line that reports the failure: the constraint by its name, and
    /// for a relation the subrelation and the row.
    pub fn message(&self) -> (text: String)
        ensures
            text@ == message_text(*self),
    {
        match self {
            VerificationFailure::Relation { name, row, subrelation } => {
                let mut text = String::from_str("Relation ");
                text.append(name.as_str());
                text.append(", subrelation index ");
                text.append(decimal(*subrelation as u128).as_str());
                text.append(" failed at row ");
                text.append(decimal(*row as u128).as_str());
                text
            },
            VerificationFailure::Lookup { name, row } => {
                let mut text = String::from_str("Lookup ");
                text.append(name.as_str());
                text.append(" failed.");
                text
            },
            VerificationFailure::GrandProduct { name, row } => {
                let mut text = String::from_str("Copy ");
                text.append(name.as_str());
                text.append(" failed.");
                text
            },
        }
    }
}

/// What one evaluator returns.
pub type Verdict = Result<(), VerificationFailure>;

/// `n` zeros.
pub open spec fn zeros<F: FieldElement>(n: nat) -> Seq<F> {
    Seq::new(n, |j: int| F::zero_spec())
}

/// Every value is zero.
pub open spec fn all_zero<F: FieldElement>(values: Seq<F>) -> bool {
    forall|j: int| 0 <= j < values.len() ==> values[j] == F::zero_spec()
}

/// `values[j]` is the first value that is not zero.
pub open spec fn first_nonzero<F: FieldElement>(values: Seq<F>, j: int) -> bool {
    &&& 0 <= j < values.len()
    &&& values[j] != F::zero_spec()
    &&& forall|h: int| 0 <= h < j ==> values[h] == F::zero_spec()
}

/// The accumulators of a relation after the row at point `i` alone: it starts
/// from zeros, is given no helper and no challenge, and is scaled by one.
pub open spec fn row_result<F: FieldElement, R: Relation<F>>(
    relation: &R,
    polynomials: Seq<Seq<F>>,
    i: int,
) -> Seq<F> {
    relation.accumulate_spec(
        zeros(relation.arity_spec()),
        row_at(polynomials, i),
        Seq::empty(),
        ChallengeParameters::zero_spec(),
        F::one_spec(),
    )
}

/// The relation holds on the row at point `i`.
pub open spec fn holds_at<F: FieldElement, R: Relation<F>>(
    relation: &R,
    polynomials: Seq<Seq<F>>,
    i: int,
) -> bool {
    all_zero(row_result(relation, polynomials, i))
}

/// The relation holds on every row of the domain.
pub open spec fn relation_holds<F: FieldElement, R: Relation<F>>(
    relation: &R,
    polynomials: Seq<Seq<F>>,
    size: nat,
) -> bool {
    forall|i: int| 0 <= i < size ==> holds_at(relation, polynomials, i)
}

/// `verdict` is what the evaluator of a relation returns: success where the
/// relation holds on every row, and else the first row on which it does not,
/// with the first subrelation that is not zero there.
pub open spec fn relation_verdict<F: FieldElement, R: Relation<F>>(
    relation: &R,
    polynomials: Seq<Seq<F>>,
    size: nat,
    verdict: Verdict,
) -> bool {
    match verdict {
        Ok(()) => relation_holds(relation, polynomials, size),
        Err(VerificationFailure::Relation { name, row, subrelation }) => {
            &&& name@ == relation.name_spec()
            &&& row < size
            &&& forall|i: int| 0 <= i < row ==> holds_at(relation, polynomials, i)
            &&& first_nonzero(row_result(relation, polynomials, row as int), subrelation as int)
        },
        Err(_) => false,
    }
}

/// The accumulators of a lookup or grand product after the first `rows` rows.
pub open spec fn accumulated<F: FieldElement, R: Relation<F>>(
    argument: &R,
    polynomials: Seq<Seq<F>>,
    helpers: Seq<Seq<F>>,
    params: ChallengeParameters<F>,
    rows: nat,
) -> Seq<F>
    decreases rows,
{
    if rows == 0 {
        zeros(argument.arity_spec())
    } else {
        argument.accumulate_spec(
            accumulated(argument, polynomials, helpers, params, (rows - 1) as nat),
            row_at(polynomials, rows - 1),
            row_at(helpers, rows - 1),
            params,
            F::one_spec(),
        )
    }
}

/// With the helper columns `helpers`, the accumulators of a lookup or grand
/// product are all zero after the last row of the domain.
pub open spec fn accumulators_vanish<F: FieldElement, R: Relation<F>>(
    argument: &R,
    polynomials: Seq<Seq<F>>,
    helpers: Seq<Seq<F>>,
    size: nat,
    params: ChallengeParameters<F>,
) -> bool {
    all_zero(accumulated(argument, polynomials, helpers, params, size))
}

/// The lookup or grand product holds: with its helper columns derived, its
/// accumulators are all zero after the last row of the domain.
pub open spec fn argument_holds<F: FieldElement, R: Relation<F>>(
    argument: &R,
    polynomials: Seq<Seq<F>>,
    size: nat,
    params: ChallengeParameters<F>,
) -> bool {
    accumulators_vanish(
        argument,
        polynomials,
        argument.helpers_spec(polynomials, size, params),
        size,
        params,
    )
}

/// Every helper column has one value for each point of the domain.
pub open spec fn helpers_cover<F>(helpers: Seq<Vec<F>>, size: nat) -> bool {
    forall|k: int| 0 <= k < helpers.len() ==> (#[trigger] helpers[k])@.len() == size
}

/// The row at point `i` alone leaves the accumulators of a lookup or grand
/// product at zero.
pub open spec fn argument_holds_at<F: FieldElement, R: Relation<F>>(
    argument: &R,
    polynomials: Seq<Seq<F>>,
    size: nat,
    params: ChallengeParameters<F>,
    i: int,
) -> bool {
    argument.accumulate_spec(
        zeros(argument.arity_spec()),
        row_at(polynomials, i),
        row_at(argument.helpers_spec(polynomials, size, params), i),
        params,
        F::one_spec(),
    ) == zeros::<F>(argument.arity_spec())
}

/// A lookup or grand product that every row of the domain leaves at zero holds.
pub proof fn lemma_rows_at_zero_hold<F: FieldElement, R: Relation<F>>(
    argument: &R,
    polynomials: Seq<Seq<F>>,
    size: nat,
    params: ChallengeParameters<F>,
)
    requires
        forall|i: int| 0 <= i < size ==> argument_holds_at(argument, polynomials, size, params, i),
    ensures
        argument_holds(argument, polynomials, size, params),
{
    let helpers = argument.helpers_spec(polynomials, size, params);
    assert forall|rows: nat| rows <= size implies #[trigger] accumulated(
        argument,
        polynomials,
        helpers,
        params,
        rows,
    ) == zeros::<F>(argument.arity_spec()) by {
        lemma_accumulated_zeros(argument, polynomials, size, params, rows);
    }
}

/// Where every row leaves the accumulators at zero, they are zero after any
/// number of rows.
proof fn lemma_accumulated_zeros<F: FieldElement, R: Relation<F>>(
    argument: &R,
    polynomials: Seq<Seq<F>>,
    size: nat,
    params: ChallengeParameters<F>,
    rows: nat,
)
    requires
        rows <= size,
        forall|i: int| 0 <= i < size ==> argument_holds_at(argument, polynomials, size, params, i),
    ensures
        accumulated(
            argument,
            polynomials,
            argument.helpers_spec(polynomials, size, params),
            params,
            rows,
        ) == zeros::<F>(argument.arity_spec()),
    decreases rows,
{
    if rows > 0 {
        lemma_accumulated_zeros(argument, polynomials, size, params, (rows - 1) as nat);
        assert(argument_holds_at(argument, polynomials, size, params, rows - 1));
    }
}

/// `verdict` is what the evaluator of a lookup returns where it is given the
/// helper columns `helpers`.
pub open spec fn lookup_verdict<F: FieldElement, R: Relation<F>>(
    lookup: &R,
    polynomials: Seq<Seq<F>>,
    helpers: Seq<Seq<F>>,
    size: nat,
    params: ChallengeParameters<F>,
    verdict: Verdict,
) -> bool {
    match verdict {
        Ok(()) => accumulators_vanish(lookup, polynomials, helpers, size, params),
        Err(VerificationFailure::Lookup { name, row }) => name@ == lookup.name_spec() && row + 1
            == size && !accumulators_vanish(lookup, polynomials, helpers, size, params),
        Err(_) => false,
    }
}

/// `verdict` is what the evaluator of a grand product returns where it is
/// given the helper columns `helpers`.
pub open spec fn grand_product_verdict<F: FieldElement, R: Relation<F>>(
    grand_product: &R,
    polynomials: Seq<Seq<F>>,
    helpers: Seq<Seq<F>>,
    size: nat,
    params: ChallengeParameters<F>,
    verdict: Verdict,
) -> bool {
    match verdict {
        Ok(()) => accumulators_vanish(grand_product, polynomials, helpers, size, params),
        Err(VerificationFailure::GrandProduct { name, row }) => name@
            == grand_product.name_spec() && row + 1 == size && !accumulators_vanish(
            grand_product,
            polynomials,
            helpers,
            size,
            params,
        ),
        Err(_) => false,
    }
}

/// A list of `n` zeros.
fn zero_accumulators<F: FieldElement>(n: usize) -> (accumulators: Vec<F>)
    ensures
        accumulators@ == zeros::<F>(n as nat),
{
    let mut accumulators: Vec<F> = Vec::new();
    let mut j: usize = 0;
    while j < n
        invariant
            j <= n,
            accumulators@.len() == j,
            forall|h: int| 0 <= h < j ==> accumulators@[h] == F::zero_spec(),
        decreases n - j,
    {
        accumulators.push(F::zero());
        j += 1;
    }
    proof {
        assert(accumulators@ =~= zeros::<F>(n as nat));
    }
    accumulators
}

/// Finds the first value that is not zero.
fn find_nonzero<F: FieldElement>(values: &Vec<F>) -> (found: Option<usize>)
    ensures
        match found {
            Some(j) => first_nonzero(values@, j as int),
            None => all_zero(values@),
        },
{
    let mut j: usize = 0;
    while j < values.len()
        invariant
            j <= values.len(),
            forall|h: int| 0 <= h < j ==> values@[h] == F::zero_spec(),
        decreases values.len() - j,
    {
        if !values[j].is_zero() {
            return Some(j);
        }
        j += 1;
    }
    None
}

/// The values of all helper columns at point `i`.
fn helper_row<F: FieldElement>(helpers: &Vec<Vec<F>>, i: usize) -> (row: Vec<F>)
    requires
        forall|k: int| 0 <= k < helpers@.len() ==> i < (#[trigger] helpers@[k])@.len(),
    ensures
        row@ == row_at(grid(helpers@), i as int),
{
    let mut row: Vec<F> = Vec::new();
    let mut k: usize = 0;
    while k < helpers.len()
        invariant
            k <= helpers.len(),
            forall|k: int| 0 <= k < helpers@.len() ==> i < (#[trigger] helpers@[k])@.len(),
            row@.len() == k,
            forall|j: int| 0 <= j < k ==> row@[j] == helpers@[j]@[i as int],
        decreases helpers.len() - k,
    {
        let column = &helpers[k];
        row.push(column[i]);
        k += 1;
    }
    proof {
        assert(row@ =~= row_at(grid(helpers@), i as int));
    }
    row
}

/// Checks one relation on every row of the domain.
///
/// The accumulators start at zero. Row after row is accumulated, scaled by
/// one; the first row that leaves an accumulator that is not zero ends the
/// scan and is reported with the first such subrelation.
pub fn evaluate_relation<F: FieldElement, R: Relation<F>>(relation: &R, polys: &PolynomialSet<F>) -> (verdict:
    Verdict)
    requires
        polys.wf(),
    ensures
        relation_verdict(relation, polys.coefficients(), polys.size as nat, verdict),
{
    let params = ChallengeParameters::<F>::zero();
    let helpers: Vec<F> = Vec::new();
    let mut accumulators = zero_accumulators::<F>(relation.arity());
    let mut i: usize = 0;
    while i < polys.size
        invariant
            polys.wf(),
            i <= polys.size,
            params == ChallengeParameters::<F>::zero_spec(),
            helpers@ == Seq::<F>::empty(),
            accumulators@ == zeros::<F>(relation.arity_spec()),
            forall|h: int| 0 <= h < i ==> holds_at(relation, polys.coefficients(), h),
        decreases polys.size - i,
    {
        let row = polys.get_row(i);
        relation.accumulate(&mut accumulators, &row, &helpers, &params, F::one());
        match find_nonzero(&accumulators) {
            Some(j) => {
                return Err(
                    VerificationFailure::Relation { name: relation.name(), row: i, subrelation: j },
                );
            },
            None => {
                proof {
                    assert(accumulators@ =~= zeros::<F>(relation.arity_spec()));
                }
            },
        }
        i += 1;
    }
    Ok(())
}

/// Whether every helper column has one value for each point of the domain.
pub fn cover<F: FieldElement>(helpers: &Vec<Vec<F>>, size: usize) -> (ok: bool)
    ensures
        ok == helpers_cover(helpers@, size as nat),
{
    let mut k: usize = 0;
    while k < helpers.len()
        invariant
            k <= helpers.len(),
            forall|h: int| 0 <= h < k ==> (#[trigger] helpers@[h])@.len() == size,
        decreases helpers.len() - k,
    {
        if helpers[k].len() != size {
            return false;
        }
        k += 1;
    }
    true
}

/// Accumulates every row of the domain with its helper values, scaled by one.
fn accumulate_all<F: FieldElement, R: Relation<F>>(
    argument: &R,
    polys: &PolynomialSet<F>,
    helpers: &Vec<Vec<F>>,
    params: &ChallengeParameters<F>,
) -> (accumulators: Vec<F>)
    requires
        polys.wf(),
        helpers_cover(helpers@, polys.size as nat),
    ensures
        accumulators@ == accumulated(
            argument,
            polys.coefficients(),
            grid(helpers@),
            *params,
            polys.size as nat,
        ),
{
    let mut accumulators = zero_accumulators::<F>(argument.arity());
    let mut i: usize = 0;
    while i < polys.size
        invariant
            polys.wf(),
            i <= polys.size,
            helpers_cover(helpers@, polys.size as nat),
            accumulators@.len() == argument.arity_spec(),
            accumulators@ == accumulated(
                argument,
                polys.coefficients(),
                grid(helpers@),
                *params,
                i as nat,
            ),
        decreases polys.size - i,
    {
        let row = polys.get_row(i);
        let helper = helper_row(helpers, i);
        argument.accumulate(&mut accumulators, &row, &helper, params, F::one());
        i += 1;
    }
    accumulators
}

/// Checks one lookup on the polynomials and its helper columns, which were
/// computed before: accumulates every row of the domain and fails if an
/// accumulator is not zero at the end.
pub fn evaluate_lookup<F: FieldElement, R: Relation<F>>(
    lookup: &R,
    polys: &PolynomialSet<F>,
    helpers: &Vec<Vec<F>>,
    params: &ChallengeParameters<F>,
) -> (verdict: Verdict)
    requires
        polys.wf(),
        helpers_cover(helpers@, polys.size as nat),
    ensures
        lookup_verdict(
            lookup,
            polys.coefficients(),
            grid(helpers@),
            polys.size as nat,
            *params,
            verdict,
        ),
{
    let accumulators = accumulate_all(lookup, polys, helpers, params);
    match find_nonzero(&accumulators) {
        Some(_) => Err(VerificationFailure::Lookup { name: lookup.name(), row: polys.size - 1 }),
        None => Ok(()),
    }
}

/// Checks one grand product on the polynomials and its helper columns, which
/// were computed before: accumulates every row of the domain and fails if an
/// accumulator is not zero at the end.
pub fn evaluate_grand_product<F: FieldElement, R: Relation<F>>(
    grand_product: &R,
    polys: &PolynomialSet<F>,
    helpers: &Vec<Vec<F>>,
    params: &ChallengeParameters<F>,
) -> (verdict: Verdict)
    requires
        polys.wf(),
        helpers_cover(helpers@, polys.size as nat),
    ensures
        grand_product_verdict(
            grand_product,
            polys.coefficients(),
            grid(helpers@),
            polys.size as nat,
            *params,
            verdict,
        ),
{
    let accumulators = accumulate_all(grand_product, polys, helpers, params);
    match find_nonzero(&accumulators) {
        Some(_) => Err(
            VerificationFailure::GrandProduct { name: grand_product.name(), row: polys.size - 1 },
        ),
        None => Ok(()),
    }
}

} // verus!
