//! Laying a trace out as polynomials over a power-of-two domain.

use vstd::prelude::*;
use crate::columns::{lemma_column_set_counts, ColumnSet};
use crate::domain::{
    get_circuit_subgroup_size, lemma_subgroup_size_is_least, max_rows, subgroup_size,
};
use crate::field::FieldElement;

verus! {

/// The rows or polynomials of a table, each as a sequence of its values.
pub open spec fn grid<F>(table: Seq<Vec<F>>) -> Seq<Seq<F>> {
    Seq::new(table.len(), |k: int| table[k]@)
}

/// Every row of `rows` has `width` fields.
pub open spec fn is_trace<F>(rows: Seq<Seq<F>>, width: nat) -> bool {
    forall|i: int| 0 <= i < rows.len() ==> (#[trigger] rows[i]).len() == width
}

/// Coefficient `i` of the polynomial of column `k`: the value of the column
/// in row `i`, and zero behind the last row.
pub open spec fn base_coefficient<F: FieldElement>(rows: Seq<Seq<F>>, k: int, i: int) -> F {
    if 0 <= i < rows.len() {
        rows[i][k]
    } else {
        F::zero_spec()
    }
}

/// Coefficient `i` of the shifted polynomial of column `k` over a domain of
/// `size` points: coefficient `i + 1` of the column's polynomial, and zero at
/// the last point.
pub open spec fn shifted_coefficient<F: FieldElement>(
    rows: Seq<Seq<F>>,
    size: nat,
    k: int,
    i: int,
) -> F {
    if i + 1 < size {
        base_coefficient(rows, k, i + 1)
    } else {
        F::zero_spec()
    }
}

/// The polynomials of a trace: one for each of the `columns` columns, then
/// the shifted polynomial of column `sources[s]` for each `s`, all over the
/// domain of the trace.
pub open spec fn polynomials_of<F: FieldElement>(
    columns: nat,
    sources: Seq<usize>,
    rows: Seq<Seq<F>>,
) -> Seq<Seq<F>> {
    let size = subgroup_size(rows.len());
    Seq::new(
        columns + sources.len(),
        |k: int|
            Seq::new(
                size,
                |i: int|
                    if k < columns {
                        base_coefficient(rows, k, i)
                    } else {
                        shifted_coefficient(rows, size, sources[k - columns] as int, i)
                    },
            ),
    )
}

/// Over a trace of at least two rows, coefficient `i` of a shifted polynomial
/// is, for every row `i` but the last, the value of its column in row `i + 1`,
/// which is coefficient `i + 1` of the column's polynomial.
pub proof fn lemma_shift_reads_next_row<F: FieldElement>(
    columns: nat,
    sources: Seq<usize>,
    rows: Seq<Seq<F>>,
    s: int,
    i: int,
)
    requires
        rows.len() >= 2,
        0 <= s < sources.len(),
        sources[s] < columns,
        0 <= i < rows.len() - 1,
    ensures
        polynomials_of(columns, sources, rows)[columns + s][i] == rows[i + 1][sources[s] as int],
        polynomials_of(columns, sources, rows)[columns + s][i] == polynomials_of(
            columns,
            sources,
            rows,
        )[sources[s] as int][i + 1],
{
    lemma_subgroup_size_is_least(rows.len());
}

/// The polynomials of an empty trace have the one coefficient zero each.
pub proof fn lemma_empty_trace_is_zero<F: FieldElement>(
    columns: nat,
    sources: Seq<usize>,
    rows: Seq<Seq<F>>,
    k: int,
)
    requires
        rows.len() == 0,
        0 <= k < columns + sources.len(),
    ensures
        subgroup_size(rows.len()) == 1,
        polynomials_of(columns, sources, rows)[k] == seq![F::zero_spec()],
        row_at(polynomials_of(columns, sources, rows), 0).len() == columns + sources.len(),
        row_at(polynomials_of(columns, sources, rows), 0)[k] == F::zero_spec(),
{
    assert(polynomials_of(columns, sources, rows)[k] =~= seq![F::zero_spec()]);
}

/// The values of all polynomials at point `i`, in the order of the polynomials.
pub open spec fn row_at<F>(polynomials: Seq<Seq<F>>, i: int) -> Seq<F> {
    Seq::new(polynomials.len(), |k: int| polynomials[k][i])
}

/// One polynomial for each column of a circuit and for each shift, each with
/// one coefficient for each point of the domain.
pub struct PolynomialSet<F> {
    /// The number of points of the domain.
    pub size: usize,
    /// The polynomials, each as the list of its coefficients.
    pub polynomials: Vec<Vec<F>>,
}

impl<F: FieldElement> PolynomialSet<F> {
    /// The polynomials, each as the sequence of its coefficients.
    pub open spec fn coefficients(&self) -> Seq<Seq<F>> {
        grid(self.polynomials@)
    }

    /// The number of points of the domain, and the polynomials over it.
    pub open spec fn view(&self) -> (nat, Seq<Seq<F>>) {
        (self.size as nat, self.coefficients())
    }

    /// Every polynomial has one coefficient for each point of the domain.
    pub open spec fn wf(&self) -> bool {
        forall|k: int|
            0 <= k < self.polynomials@.len() ==> (#[trigger] self.polynomials@[k])@.len()
                == self.size
    }

    /// The number of points of the domain.
    pub fn get_polynomial_size(&self) -> (size: usize)
        ensures
            size == self.size,
    {
        self.size
    }

    /// The values of all polynomials at point `i`.
    pub fn get_row(&self, i: usize) -> (row: Vec<F>)
        requires
            self.wf(),
            i < self.size,
        ensures
            row@ == row_at(self.coefficients(), i as int),
    {
        let mut row: Vec<F> = Vec::new();
        let mut k: usize = 0;
        while k < self.polynomials.len()
            invariant
                self.wf(),
                i < self.size,
                k <= self.polynomials.len(),
                row@.len() == k,
                forall|j: int| 0 <= j < k ==> row@[j] == self.polynomials@[j]@[i as int],
            decreases self.polynomials.len() - k,
        {
            let polynomial = &self.polynomials[k];
            row.push(polynomial[i]);
            k += 1;
        }
        proof {
            assert(row@ =~= row_at(self.coefficients(), i as int));
        }
        row
    }
}

/// The polynomial of column `k` of a trace over a domain of `size` points.
fn base_polynomial<F: FieldElement>(rows: &Vec<Vec<F>>, k: usize, size: usize) -> (polynomial: Vec<
    F,
>)
    requires
        forall|i: int| 0 <= i < rows@.len() ==> k < (#[trigger] rows@[i])@.len(),
    ensures
        polynomial@.len() == size,
        forall|i: int|
            0 <= i < size ==> polynomial@[i] == base_coefficient(grid(rows@), k as int, i),
{
    let mut polynomial: Vec<F> = Vec::new();
    let mut i: usize = 0;
    while i < size
        invariant
            i <= size,
            forall|i: int| 0 <= i < rows@.len() ==> k < (#[trigger] rows@[i])@.len(),
            polynomial@.len() == i,
            forall|j: int|
                0 <= j < i ==> polynomial@[j] == base_coefficient(grid(rows@), k as int, j),
        decreases size - i,
    {
        if i < rows.len() {
            let row = &rows[i];
            polynomial.push(row[k]);
        } else {
            polynomial.push(F::zero());
        }
        i += 1;
    }
    polynomial
}

/// The polynomial whose coefficient `i` is coefficient `i + 1` of `base`, with
/// zero as its last coefficient.
fn shifted<F: FieldElement>(base: &Vec<F>) -> (polynomial: Vec<F>)
    ensures
        polynomial@.len() == base@.len(),
        forall|i: int|
            0 <= i < base@.len() ==> polynomial@[i] == if i + 1 < base@.len() {
                base@[i + 1]
            } else {
                F::zero_spec()
            },
{
    let mut polynomial: Vec<F> = Vec::new();
    let mut i: usize = 0;
    while i < base.len()
        invariant
            i <= base.len(),
            polynomial@.len() == i,
            forall|j: int|
                0 <= j < i ==> polynomial@[j] == if j + 1 < base@.len() {
                    base@[j + 1]
                } else {
                    F::zero_spec()
                },
        decreases base.len() - i,
    {
        if i + 1 < base.len() {
            polynomial.push(base[i + 1]);
        } else {
            polynomial.push(F::zero());
        }
        i += 1;
    }
    polynomial
}

/// Lays a trace out as polynomials.
///
/// The domain has the smallest power-of-two size that holds every row. Each
/// column's polynomial holds the column's value of row `i` as coefficient `i`
/// and zero behind the last row; the fields that a row has for the shifted
/// columns are not read. Each shifted polynomial is its column's polynomial
/// advanced by one place.
pub fn compute_polynomials<F: FieldElement>(columns: &ColumnSet, rows: &Vec<Vec<F>>) -> (polys:
    PolynomialSet<F>)
    requires
        columns.wf(),
        rows@.len() <= max_rows(),
        is_trace(grid(rows@), columns.width()),
    ensures
        polys.wf(),
        polys@ == (
            subgroup_size(rows@.len()),
            polynomials_of(columns.all_columns@.len(), columns.shift_sources@, grid(rows@)),
        ),
{
    let size = get_circuit_subgroup_size(rows.len());
    let count = columns.all_columns.len();
    let ghost expected = polynomials_of(count as nat, columns.shift_sources@, grid(rows@));
    let mut polynomials: Vec<Vec<F>> = Vec::new();
    proof {
        lemma_column_set_counts(*columns);
        assert forall|i: int| 0 <= i < rows@.len() implies (#[trigger] rows@[i])@.len()
            == columns.width() by {
            assert(grid(rows@)[i].len() == columns.width());
        }
    }
    let mut k: usize = 0;
    while k < count
        invariant
            k <= count,
            count == columns.all_columns@.len(),
            count <= columns.width(),
            size == subgroup_size(rows@.len()),
            expected == polynomials_of(count as nat, columns.shift_sources@, grid(rows@)),
            forall|i: int| 0 <= i < rows@.len() ==> (#[trigger] rows@[i])@.len() == columns.width(),
            polynomials@.len() == k,
            forall|j: int| 0 <= j < k ==> (#[trigger] polynomials@[j])@ =~= expected[j],
        decreases count - k,
    {
        let polynomial = base_polynomial(rows, k, size);
        polynomials.push(polynomial);
        k += 1;
    }
    let mut s: usize = 0;
    while s < columns.shift_sources.len()
        invariant
            s <= columns.shift_sources@.len(),
            columns.wf(),
            count == columns.all_columns@.len(),
            size == subgroup_size(rows@.len()),
            expected == polynomials_of(count as nat, columns.shift_sources@, grid(rows@)),
            polynomials@.len() == count + s,
            forall|j: int| 0 <= j < count + s ==> (#[trigger] polynomials@[j])@ =~= expected[j],
        decreases columns.shift_sources@.len() - s,
    {
        let source = columns.shift_sources[s];
        proof {
            assert(columns.shift_sources@[s as int] < columns.all_columns@.len());
            assert(polynomials@[source as int]@ =~= expected[source as int]);
        }
        let polynomial = shifted(&polynomials[source]);
        polynomials.push(polynomial);
        s += 1;
    }
    let polys = PolynomialSet { size, polynomials };
    proof {
        assert(polys.coefficients() =~= expected);
    }
    polys
}

} // verus!
