//! A checking module: a circuit, its trace, and the run of all its evaluators.

use vstd::prelude::*;
use crate::evaluators::{
    argument_holds, argument_holds_at, evaluate_grand_product, evaluate_lookup,
    evaluate_relation, grand_product_verdict, helpers_cover, holds_at, lemma_rows_at_zero_hold,
    lookup_verdict, relation_holds, relation_verdict, Verdict, VerificationFailure,
};
use crate::columns::ColumnSet;
use crate::domain::{get_circuit_subgroup_size, max_rows, subgroup_size};
use crate::field::FieldElement;
use crate::polynomials::{
    compute_polynomials, grid, is_trace, lemma_empty_trace_is_zero, polynomials_of, PolynomialSet,
};
use crate::relation::{ChallengeParameters, Relation};

verus! {

/// What a run of the evaluators of a check returns.
#[derive(Clone, Copy, Debug, PartialEq, Eq, Structural)]
pub enum Scheduling {
    /// What a batch of independent tasks returns once all of them have been
    /// waited for: every evaluator runs to its end, and every failure is
    /// reported.
    Parallel,
    /// What a run without threads returns: the evaluators are taken in the
    /// order of declaration, relations before lookups before grand products,
    /// and the first failure ends the run.
    Sequential,
}

/// A circuit with its trace.
pub struct VerificationModule<F, R> {
    /// The columns of the circuit.
    pub columns: ColumnSet,
    /// The relations, in the order of their declaration.
    pub relations: Vec<R>,
    /// The lookups, in the order of their declaration.
    pub lookups: Vec<R>,
    /// The grand products, in the order of their declaration.
    pub grand_products: Vec<R>,
    /// The rows of the trace.
    pub rows: Vec<Vec<F>>,
    /// How the evaluators are run.
    pub scheduling: Scheduling,
}

/// All verdicts but the last are successes.
pub open spec fn passed_before_last(verdicts: Seq<Verdict>) -> bool {
    forall|c: int| 0 <= c < verdicts.len() - 1 ==> (#[trigger] verdicts[c]) is Ok
}

/// Every verdict is a success.
pub open spec fn all_passed(verdicts: Seq<Verdict>) -> bool {
    forall|c: int| 0 <= c < verdicts.len() ==> (#[trigger] verdicts[c]) is Ok
}

impl<F: FieldElement, R: Relation<F>> VerificationModule<F, R> {
    /// `rows` is a trace of this circuit that its domain has room for: every
    /// row has one field for each entry of `all_columns_with_shifts`.
    pub open spec fn is_trace_of(&self, rows: Seq<Vec<F>>) -> bool {
        &&& rows.len() <= max_rows()
        &&& is_trace(grid(rows), self.columns.width())
    }

    /// The column sets fit together and the rows are a trace of the circuit.
    pub open spec fn wf(&self) -> bool {
        &&& self.columns.wf()
        &&& self.is_trace_of(self.rows@)
    }

    /// The number of points of the domain.
    pub open spec fn size(&self) -> nat {
        subgroup_size(self.rows@.len())
    }

    /// The polynomials of the trace.
    pub open spec fn polynomials(&self) -> Seq<Seq<F>> {
        polynomials_of(
            self.columns.all_columns@.len(),
            self.columns.shift_sources@,
            grid(self.rows@),
        )
    }

    /// `polys` is the polynomial set of the trace.
    pub open spec fn lays_out(&self, polys: PolynomialSet<F>) -> bool {
        &&& polys.wf()
        &&& polys@ == (self.size(), self.polynomials())
    }

    /// A lookup or a grand product is declared, so that a check needs challenges.
    pub open spec fn needs_challenges_spec(&self) -> bool {
        self.lookups@.len() > 0 || self.grand_products@.len() > 0
    }

    /// The number of evaluators of a check.
    pub open spec fn evaluators(&self) -> nat {
        self.relations@.len() + self.lookups@.len() + self.grand_products@.len()
    }

    /// `verdict` is what evaluator `c` returns; the evaluators are counted in
    /// the order of declaration, relations before lookups before grand products.
    pub open spec fn verdict_of(&self, c: int, params: ChallengeParameters<F>, verdict: Verdict)
        -> bool {
        let relations = self.relations@.len();
        let lookups = self.lookups@.len();
        if c < relations {
            relation_verdict(&self.relations@[c], self.polynomials(), self.size(), verdict)
        } else if c < relations + lookups {
            lookup_verdict(
                &self.lookups@[c - relations],
                self.polynomials(),
                self.lookups@[c - relations].helpers_spec(self.polynomials(), self.size(), params),
                self.size(),
                params,
                verdict,
            )
        } else {
            grand_product_verdict(
                &self.grand_products@[c - relations - lookups],
                self.polynomials(),
                self.grand_products@[c - relations - lookups].helpers_spec(
                    self.polynomials(),
                    self.size(),
                    params,
                ),
                self.size(),
                params,
                verdict,
            )
        }
    }

    /// Every relation, lookup and grand product holds on the trace.
    pub open spec fn passes(&self, params: ChallengeParameters<F>) -> bool {
        &&& forall|r: int|
            0 <= r < self.relations@.len() ==> relation_holds(
                &#[trigger] self.relations@[r],
                self.polynomials(),
                self.size(),
            )
        &&& forall|l: int|
            0 <= l < self.lookups@.len() ==> argument_holds(
                &#[trigger] self.lookups@[l],
                self.polynomials(),
                self.size(),
                params,
            )
        &&& forall|g: int|
            0 <= g < self.grand_products@.len() ==> argument_holds(
                &#[trigger] self.grand_products@[g],
                self.polynomials(),
                self.size(),
                params,
            )
    }

    /// `verdicts` is what a run returns. Each verdict is that of the
    /// evaluator in its place. A run of parallel tasks has a verdict for
    /// every evaluator; a sequential run has none behind the first failure.
    pub open spec fn reports(&self, params: ChallengeParameters<F>, verdicts: Seq<Verdict>) -> bool {
        &&& verdicts.len() <= self.evaluators()
        &&& forall|c: int|
            0 <= c < verdicts.len() ==> self.verdict_of(c, params, #[trigger] verdicts[c])
        &&& match self.scheduling {
            Scheduling::Parallel => verdicts.len() == self.evaluators(),
            Scheduling::Sequential => passed_before_last(verdicts) && (verdicts.len()
                == self.evaluators() || (verdicts.len() > 0 && verdicts.last() is Err)),
        }
    }

    /// The challenges that the evaluators are given: those of the caller, or
    /// zeros where there are none.
    pub open spec fn challenges(params: Option<ChallengeParameters<F>>) -> ChallengeParameters<F> {
        match params {
            Some(p) => p,
            None => ChallengeParameters::zero_spec(),
        }
    }

    /// A module for a circuit, with an empty trace.
    pub fn new(
        columns: ColumnSet,
        relations: Vec<R>,
        lookups: Vec<R>,
        grand_products: Vec<R>,
        scheduling: Scheduling,
    ) -> (module: Self)
        requires
            columns.wf(),
        ensures
            module.wf(),
            module.columns == columns,
            module.relations == relations,
            module.lookups == lookups,
            module.grand_products == grand_products,
            module.scheduling == scheduling,
            module.rows@.len() == 0,
    {
        VerificationModule {
            columns,
            relations,
            lookups,
            grand_products,
            rows: Vec::new(),
            scheduling,
        }
    }

    /// Whether `trace` is a trace of this circuit that its domain has room for.
    pub fn accepts(&self, trace: &Vec<Vec<F>>) -> (ok: bool)
        ensures
            ok == self.is_trace_of(trace@),
    {
        if trace.len() > usize::MAX / 2 + 1 {
            return false;
        }
        let width = self.columns.all_columns_with_shifts.len();
        let mut i: usize = 0;
        while i < trace.len()
            invariant
                i <= trace.len(),
                width == self.columns.width(),
                forall|h: int| 0 <= h < i ==> (#[trigger] trace@[h])@.len() == width,
            decreases trace.len() - i,
        {
            if trace[i].len() != width {
                proof {
                    assert(grid(trace@)[i as int].len() != width);
                }
                return false;
            }
            i += 1;
        }
        proof {
            assert forall|h: int| 0 <= h < grid(trace@).len() implies (#[trigger] grid(
                trace@,
            )[h]).len() == width by {
                assert(trace@[h]@.len() == width);
            }
        }
        true
    }

    /// Whether the column sets fit together and the rows are a trace of the
    /// circuit.
    pub fn is_well_formed(&self) -> (ok: bool)
        ensures
            ok == self.wf(),
    {
        self.columns.is_well_formed() && self.accepts(&self.rows)
    }

    /// Takes `trace` as the trace to check, in place of the one held before.
    pub fn ingest(&mut self, trace: Vec<Vec<F>>)
        requires
            old(self).columns.wf(),
            old(self).is_trace_of(trace@),
        ensures
            final(self).wf(),
            final(self).rows == trace,
            final(self).columns == old(self).columns,
            final(self).relations == old(self).relations,
            final(self).lookups == old(self).lookups,
            final(self).grand_products == old(self).grand_products,
            final(self).scheduling == old(self).scheduling,
    {
        self.rows = trace;
    }

    /// The number of rows of the trace.
    pub fn row_count(&self) -> (n: usize)
        ensures
            n == self.rows@.len(),
    {
        self.rows.len()
    }

    /// The number of points of the domain: the smallest power of two that is
    /// at least the number of rows.
    pub fn domain_size(&self) -> (d: usize)
        requires
            self.wf(),
        ensures
            d == self.size(),
    {
        get_circuit_subgroup_size(self.rows.len())
    }

    /// Lays the trace out as polynomials.
    pub fn compute_polynomials(&self) -> (polys: PolynomialSet<F>)
        requires
            self.wf(),
        ensures
            self.lays_out(polys),
    {
        compute_polynomials(&self.columns, &self.rows)
    }

    /// Whether a check needs challenges: it does where a lookup or a grand
    /// product is declared.
    pub fn needs_challenges(&self) -> (needed: bool)
        ensures
            needed == self.needs_challenges_spec(),
    {
        !(self.lookups.is_empty() && self.grand_products.is_empty())
    }

    /// `helpers` holds, for each constraint of `arguments` in its place, the
    /// helper columns of that constraint over the polynomials of the trace.
    pub open spec fn are_helpers_of(
        &self,
        arguments: Seq<R>,
        params: ChallengeParameters<F>,
        helpers: Seq<Vec<Vec<F>>>,
    ) -> bool {
        &&& helpers.len() == arguments.len()
        &&& forall|a: int|
            0 <= a < helpers.len() ==> {
                &&& helpers_cover((#[trigger] helpers[a])@, self.size())
                &&& grid(helpers[a]@) == arguments[a].helpers_spec(
                    self.polynomials(),
                    self.size(),
                    params,
                )
            }
    }

    /// Computes the helper columns of every lookup or of every grand product
    /// of the circuit: this is done before any evaluator is run.
    pub fn compute_helpers(
        &self,
        arguments: &Vec<R>,
        polys: &PolynomialSet<F>,
        params: &ChallengeParameters<F>,
    ) -> (helpers: Vec<Vec<Vec<F>>>)
        requires
            self.lays_out(*polys),
        ensures
            self.are_helpers_of(arguments@, *params, helpers@),
    {
        let mut helpers: Vec<Vec<Vec<F>>> = Vec::new();
        let mut a: usize = 0;
        while a < arguments.len()
            invariant
                self.lays_out(*polys),
                a <= arguments@.len(),
                helpers@.len() == a,
                forall|h: int|
                    0 <= h < a ==> {
                        &&& helpers_cover((#[trigger] helpers@[h])@, self.size())
                        &&& grid(helpers@[h]@) == arguments@[h].helpers_spec(
                            self.polynomials(),
                            self.size(),
                            *params,
                        )
                    },
            decreases arguments@.len() - a,
        {
            let columns = arguments[a].compute_helpers(polys, params);
            helpers.push(columns);
            a += 1;
        }
        helpers
    }

    /// Runs the evaluators on the trace, one after another, and returns their
    /// verdicts in the order of declaration. The helper columns of all
    /// lookups and grand products are computed first, before any evaluator
    /// is run. Under `Scheduling::Parallel` the verdicts are those of a batch
    /// of tasks, which may as well be run on threads: no evaluator reads
    /// what another one leaves.
    pub fn run(&self, params: Option<ChallengeParameters<F>>) -> (verdicts: Vec<Verdict>)
        requires
            self.wf(),
            self.needs_challenges_spec() ==> params is Some,
        ensures
            self.reports(Self::challenges(params), verdicts@),
    {
        let polys = self.compute_polynomials();
        let stop_at_failure = match self.scheduling {
            Scheduling::Parallel => false,
            Scheduling::Sequential => true,
        };
        let ghost given = Self::challenges(params);
        let mut verdicts: Vec<Verdict> = Vec::new();
        match params {
            Some(challenges) => {
                let lookup_helpers = self.compute_helpers(&self.lookups, &polys, &challenges);
                let grand_product_helpers = self.compute_helpers(
                    &self.grand_products,
                    &polys,
                    &challenges,
                );
                let mut r: usize = 0;
                while r < self.relations.len()
                    invariant
                        self.lays_out(polys),
                        r <= self.relations@.len(),
                        stop_at_failure == (self.scheduling == Scheduling::Sequential),
                        given == Self::challenges(params),
                        verdicts@.len() == r,
                        forall|c: int|
                            0 <= c < verdicts@.len() ==> self.verdict_of(
                                c,
                                given,
                                #[trigger] verdicts@[c],
                            ),
                        stop_at_failure ==> all_passed(verdicts@),
                    decreases self.relations@.len() - r,
                {
                    let verdict = evaluate_relation(&self.relations[r], &polys);
                    let failed = verdict.is_err();
                    verdicts.push(verdict);
                    if failed && stop_at_failure {
                        return verdicts;
                    }
                    r += 1;
                }
                let mut l: usize = 0;
                while l < self.lookups.len()
                    invariant
                        self.lays_out(polys),
                        l <= self.lookups@.len(),
                        given == challenges,
                        self.are_helpers_of(self.lookups@, challenges, lookup_helpers@),
                        stop_at_failure == (self.scheduling == Scheduling::Sequential),
                        given == Self::challenges(params),
                        verdicts@.len() == self.relations@.len() + l,
                        forall|c: int|
                            0 <= c < verdicts@.len() ==> self.verdict_of(
                                c,
                                given,
                                #[trigger] verdicts@[c],
                            ),
                        stop_at_failure ==> all_passed(verdicts@),
                    decreases self.lookups@.len() - l,
                {
                    let verdict = evaluate_lookup(
                        &self.lookups[l],
                        &polys,
                        &lookup_helpers[l],
                        &challenges,
                    );
                    let failed = verdict.is_err();
                    verdicts.push(verdict);
                    if failed && stop_at_failure {
                        return verdicts;
                    }
                    l += 1;
                }
                let mut g: usize = 0;
                while g < self.grand_products.len()
                    invariant
                        self.lays_out(polys),
                        g <= self.grand_products@.len(),
                        given == challenges,
                        self.are_helpers_of(
                            self.grand_products@,
                            challenges,
                            grand_product_helpers@,
                        ),
                        stop_at_failure == (self.scheduling == Scheduling::Sequential),
                        given == Self::challenges(params),
                        verdicts@.len() == self.relations@.len() + self.lookups@.len() + g,
                        forall|c: int|
                            0 <= c < verdicts@.len() ==> self.verdict_of(
                                c,
                                given,
                                #[trigger] verdicts@[c],
                            ),
                        stop_at_failure ==> all_passed(verdicts@),
                    decreases self.grand_products@.len() - g,
                {
                    let verdict = evaluate_grand_product(
                        &self.grand_products[g],
                        &polys,
                        &grand_product_helpers[g],
                        &challenges,
                    );
                    let failed = verdict.is_err();
                    verdicts.push(verdict);
                    if failed && stop_at_failure {
                        return verdicts;
                    }
                    g += 1;
                }
            },
            None => {
                let mut r: usize = 0;
                while r < self.relations.len()
                    invariant
                        self.lays_out(polys),
                        r <= self.relations@.len(),
                        self.lookups@.len() == 0,
                        self.grand_products@.len() == 0,
                        stop_at_failure == (self.scheduling == Scheduling::Sequential),
                        given == Self::challenges(params),
                        verdicts@.len() == r,
                        forall|c: int|
                            0 <= c < verdicts@.len() ==> self.verdict_of(
                                c,
                                given,
                                #[trigger] verdicts@[c],
                            ),
                        stop_at_failure ==> all_passed(verdicts@),
                    decreases self.relations@.len() - r,
                {
                    let verdict = evaluate_relation(&self.relations[r], &polys);
                    let failed = verdict.is_err();
                    verdicts.push(verdict);
                    if failed && stop_at_failure {
                        return verdicts;
                    }
                    r += 1;
                }
            },
        }
        verdicts
    }

    /// Checks the trace: whether every relation, lookup and grand product
    /// holds on it.
    pub fn check(&self, params: Option<ChallengeParameters<F>>) -> (ok: bool)
        requires
            self.wf(),
            self.needs_challenges_spec() ==> params is Some,
        ensures
            ok == self.passes(Self::challenges(params)),
    {
        let verdicts = self.run(params);
        let mut c: usize = 0;
        while c < verdicts.len()
            invariant
                c <= verdicts@.len(),
                self.reports(Self::challenges(params), verdicts@),
                forall|h: int| 0 <= h < c ==> (#[trigger] verdicts@[h]) is Ok,
            decreases verdicts@.len() - c,
        {
            if verdicts[c].is_err() {
                proof {
                    self.lemma_failure_fails(Self::challenges(params), verdicts@, c as int);
                }
                return false;
            }
            c += 1;
        }
        proof {
            self.lemma_successes_pass(Self::challenges(params), verdicts@);
        }
        true
    }

    /// Constraint `c` holds on the trace; the constraints are counted as the
    /// evaluators are.
    pub open spec fn holds(&self, c: int, params: ChallengeParameters<F>) -> bool {
        let relations = self.relations@.len();
        let lookups = self.lookups@.len();
        if c < relations {
            relation_holds(&self.relations@[c], self.polynomials(), self.size())
        } else if c < relations + lookups {
            argument_holds(&self.lookups@[c - relations], self.polynomials(), self.size(), params)
        } else {
            argument_holds(
                &self.grand_products@[c - relations - lookups],
                self.polynomials(),
                self.size(),
                params,
            )
        }
    }

    /// The row at point `i` satisfies every constraint: it leaves the
    /// accumulators of every relation, lookup and grand product at zero.
    pub open spec fn row_satisfies(&self, i: int, params: ChallengeParameters<F>) -> bool {
        &&& forall|r: int|
            0 <= r < self.relations@.len() ==> holds_at(
                &#[trigger] self.relations@[r],
                self.polynomials(),
                i,
            )
        &&& forall|l: int|
            0 <= l < self.lookups@.len() ==> argument_holds_at(
                &#[trigger] self.lookups@[l],
                self.polynomials(),
                self.size(),
                params,
                i,
            )
        &&& forall|g: int|
            0 <= g < self.grand_products@.len() ==> argument_holds_at(
                &#[trigger] self.grand_products@[g],
                self.polynomials(),
                self.size(),
                params,
                i,
            )
    }

    /// Every row of the domain satisfies every constraint.
    pub open spec fn rows_satisfy(&self, params: ChallengeParameters<F>) -> bool {
        forall|i: int| 0 <= i < self.size() ==> #[trigger] self.row_satisfies(i, params)
    }

    /// A trace passes where every row of its domain satisfies every relation
    /// and leaves the accumulators of every lookup and grand product at zero.
    pub proof fn lemma_satisfied_rows_pass(&self, params: ChallengeParameters<F>)
        requires
            self.rows_satisfy(params),
        ensures
            self.passes(params),
    {
        assert forall|r: int| 0 <= r < self.relations@.len() implies relation_holds(
            &#[trigger] self.relations@[r],
            self.polynomials(),
            self.size(),
        ) by {
            assert forall|i: int| 0 <= i < self.size() implies holds_at(
                &self.relations@[r],
                self.polynomials(),
                i,
            ) by {
                assert(self.row_satisfies(i, params));
            }
        }
        assert forall|l: int| 0 <= l < self.lookups@.len() implies argument_holds(
            &#[trigger] self.lookups@[l],
            self.polynomials(),
            self.size(),
            params,
        ) by {
            assert forall|i: int| 0 <= i < self.size() implies argument_holds_at(
                &self.lookups@[l],
                self.polynomials(),
                self.size(),
                params,
                i,
            ) by {
                assert(self.row_satisfies(i, params));
            }
            lemma_rows_at_zero_hold(&self.lookups@[l], self.polynomials(), self.size(), params);
        }
        assert forall|g: int| 0 <= g < self.grand_products@.len() implies argument_holds(
            &#[trigger] self.grand_products@[g],
            self.polynomials(),
            self.size(),
            params,
        ) by {
            assert forall|i: int| 0 <= i < self.size() implies argument_holds_at(
                &self.grand_products@[g],
                self.polynomials(),
                self.size(),
                params,
                i,
            ) by {
                assert(self.row_satisfies(i, params));
            }
            lemma_rows_at_zero_hold(
                &self.grand_products@[g],
                self.polynomials(),
                self.size(),
                params,
            );
        }
    }

    /// Where one relation does not hold and every other constraint does, a
    /// run reports that relation and no other: its verdict is a failure
    /// under its name, every other verdict is a success, and the trace does
    /// not pass.
    pub proof fn lemma_broken_relation_is_reported(
        &self,
        params: ChallengeParameters<F>,
        verdicts: Seq<Verdict>,
        k: int,
    )
        requires
            self.reports(params, verdicts),
            0 <= k < self.relations@.len(),
            !self.holds(k, params),
            forall|c: int| 0 <= c < self.evaluators() && c != k ==> self.holds(c, params),
        ensures
            !self.passes(params),
            k < verdicts.len(),
            verdicts[k] matches Err(VerificationFailure::Relation { name, .. }) && name@
                == self.relations@[k].name_spec(),
            forall|c: int| 0 <= c < verdicts.len() && c != k ==> (#[trigger] verdicts[c]) is Ok,
    {
        assert forall|c: int| 0 <= c < verdicts.len() && c != k implies (
        #[trigger] verdicts[c]) is Ok by {
            assert(self.verdict_of(c, params, verdicts[c]));
            assert(self.holds(c, params));
            self.lemma_failure_is_broken(params, verdicts[c], c);
        }
        if verdicts.len() <= k {
            if verdicts.len() > 0 {
                assert(verdicts[verdicts.len() - 1] is Ok);
            }
        }
        assert(self.verdict_of(k, params, verdicts[k]));
        self.lemma_failure_fails(params, verdicts, k);
    }

    /// A run of parallel tasks reports exactly the constraints that do not
    /// hold: each has a failure in its place, and every other verdict is a
    /// success.
    pub proof fn lemma_parallel_run_reports_all(
        &self,
        params: ChallengeParameters<F>,
        verdicts: Seq<Verdict>,
    )
        requires
            self.scheduling == Scheduling::Parallel,
            self.reports(params, verdicts),
        ensures
            verdicts.len() == self.evaluators(),
            forall|c: int|
                0 <= c < verdicts.len() ==> ((#[trigger] verdicts[c]) is Err <==> !self.holds(
                    c,
                    params,
                )),
    {
        assert forall|c: int| 0 <= c < verdicts.len() implies ((#[trigger] verdicts[c]) is Err
            <==> !self.holds(c, params)) by {
            assert(self.verdict_of(c, params, verdicts[c]));
            self.lemma_failure_is_broken(params, verdicts[c], c);
        }
    }

    /// A sequential run of a trace that does not pass reports the first
    /// constraint that does not hold, as its last verdict, and no other.
    pub proof fn lemma_sequential_run_reports_first(
        &self,
        params: ChallengeParameters<F>,
        verdicts: Seq<Verdict>,
    )
        requires
            self.scheduling == Scheduling::Sequential,
            self.reports(params, verdicts),
            !self.passes(params),
        ensures
            verdicts.len() > 0,
            verdicts.last() is Err,
            !self.holds(verdicts.len() - 1, params),
            forall|c: int|
                0 <= c < verdicts.len() - 1 ==> (#[trigger] verdicts[c]) is Ok && self.holds(
                    c,
                    params,
                ),
    {
        if all_passed(verdicts) {
            self.lemma_successes_pass(params, verdicts);
        }
        let last = verdicts.len() - 1;
        assert(self.verdict_of(last, params, verdicts[last]));
        self.lemma_failure_is_broken(params, verdicts[last], last);
        assert forall|c: int| 0 <= c < verdicts.len() - 1 implies (#[trigger] verdicts[c]) is Ok
            && self.holds(c, params) by {
            assert(self.verdict_of(c, params, verdicts[c]));
            self.lemma_failure_is_broken(params, verdicts[c], c);
        }
    }

    /// The evaluator of a constraint fails only where the constraint does
    /// not hold.
    pub proof fn lemma_failure_is_broken(
        &self,
        params: ChallengeParameters<F>,
        verdict: Verdict,
        c: int,
    )
        requires
            0 <= c < self.evaluators(),
            self.verdict_of(c, params, verdict),
        ensures
            verdict is Ok <==> self.holds(c, params),
    {
        let relations = self.relations@.len();
        if c < relations {
            let relation = &self.relations@[c];
            match verdict {
                Err(VerificationFailure::Relation { name, row, subrelation }) => {
                    assert(!holds_at(relation, self.polynomials(), row as int));
                },
                _ => {},
            }
        }
    }

    /// An empty trace has a domain of one point, on which every polynomial
    /// is zero. It passes where that row of zeros satisfies every constraint.
    pub proof fn lemma_empty_trace(&self, params: ChallengeParameters<F>)
        requires
            self.rows@.len() == 0,
        ensures
            self.size() == 1,
            forall|k: int|
                0 <= k < self.polynomials().len() ==> #[trigger] self.polynomials()[k]
                    == seq![F::zero_spec()],
            self.row_satisfies(0, params) ==> self.passes(params),
    {
        assert forall|k: int| 0 <= k < self.polynomials().len() implies #[trigger] self.polynomials()[k]
            == seq![F::zero_spec()] by {
            lemma_empty_trace_is_zero(
                self.columns.all_columns@.len(),
                self.columns.shift_sources@,
                grid(self.rows@),
                k,
            );
        }
        if self.row_satisfies(0, params) {
            self.lemma_satisfied_rows_pass(params);
        }
    }

    /// The trace determines its polynomial set: two sets that both lay it
    /// out have the same size and the same coefficients.
    pub proof fn lemma_layout_is_determined(&self, first: PolynomialSet<F>, second: PolynomialSet<F>)
        requires
            self.lays_out(first),
            self.lays_out(second),
        ensures
            first.size == second.size,
            first@ == second@,
            first.polynomials@.len() == second.polynomials@.len(),
            forall|k: int|
                0 <= k < first.polynomials@.len() ==> (#[trigger] first.polynomials@[k])@
                    == second.polynomials@[k]@,
    {
        assert(first.coefficients().len() == first.polynomials@.len());
        assert(second.coefficients().len() == second.polynomials@.len());
        assert forall|k: int| 0 <= k < first.polynomials@.len() implies (
        #[trigger] first.polynomials@[k])@ == second.polynomials@[k]@ by {
            assert(first.coefficients()[k] == first.polynomials@[k]@);
            assert(second.coefficients()[k] == second.polynomials@[k]@);
        }
    }

    /// A run with a failure among its verdicts is the run of a trace that
    /// does not pass.
    pub proof fn lemma_failure_fails(
        &self,
        params: ChallengeParameters<F>,
        verdicts: Seq<Verdict>,
        c: int,
    )
        requires
            self.reports(params, verdicts),
            0 <= c < verdicts.len(),
            verdicts[c] is Err,
        ensures
            !self.passes(params),
    {
        let relations = self.relations@.len();
        let lookups = self.lookups@.len();
        assert(self.verdict_of(c, params, verdicts[c]));
        if c < relations {
            let relation = &self.relations@[c];
            match verdicts[c] {
                Err(VerificationFailure::Relation { name, row, subrelation }) => {
                    assert(!holds_at(relation, self.polynomials(), row as int));
                    assert(!relation_holds(relation, self.polynomials(), self.size()));
                },
                _ => {},
            }
        } else if c < relations + lookups {
            let lookup = &self.lookups@[c - relations];
            assert(!argument_holds(lookup, self.polynomials(), self.size(), params));
        } else {
            let grand_product = &self.grand_products@[c - relations - lookups];
            assert(!argument_holds(grand_product, self.polynomials(), self.size(), params));
        }
    }

    /// A run whose verdicts are all successes is the run of a trace that passes.
    pub proof fn lemma_successes_pass(&self, params: ChallengeParameters<F>, verdicts: Seq<Verdict>)
        requires
            self.reports(params, verdicts),
            all_passed(verdicts),
        ensures
            self.passes(params),
    {
        let relations = self.relations@.len();
        let lookups = self.lookups@.len();
        assert(verdicts.len() == self.evaluators()) by {
            if verdicts.len() > 0 {
                assert(verdicts[verdicts.len() - 1] is Ok);
            }
        }
        assert forall|r: int| 0 <= r < self.relations@.len() implies relation_holds(
            &#[trigger] self.relations@[r],
            self.polynomials(),
            self.size(),
        ) by {
            assert(self.verdict_of(r, params, verdicts[r]));
        }
        assert forall|l: int| 0 <= l < self.lookups@.len() implies argument_holds(
            &#[trigger] self.lookups@[l],
            self.polynomials(),
            self.size(),
            params,
        ) by {
            assert(self.verdict_of(relations + l, params, verdicts[relations + l]));
        }
        assert forall|g: int| 0 <= g < self.grand_products@.len() implies argument_holds(
            &#[trigger] self.grand_products@[g],
            self.polynomials(),
            self.size(),
            params,
        ) by {
            assert(self.verdict_of(
                relations + lookups + g,
                params,
                verdicts[relations + lookups + g],
            ));
        }
    }
}

} // verus!
