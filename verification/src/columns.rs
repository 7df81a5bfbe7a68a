//! The constraint specification of a circuit and the column sets derived from it.

use vstd::prelude::*;
use vstd::string::*;
use crate::utils::{push_copy, views};

verus! {

/// A named lane of field elements.
pub struct Column {
    /// The name of the column, unique within a specification.
    pub name: String,
    /// Whether some relation reads this column's value in the next row.
    pub requires_shift: bool,
    /// Whether this is a helper column that holds the inverses of a lookup.
    pub is_inverse: bool,
}

/// What describes a circuit: its label, its columns and the names of its
/// relations, lookups and grand products.
pub struct ConstraintSpecification {
    /// The label that names what is rendered for the circuit.
    pub name: String,
    /// The columns, in the order of their declaration.
    pub columns: Vec<Column>,
    /// The names of the relations.
    pub relations: Vec<String>,
    /// The names of the lookups.
    pub lookups: Vec<String>,
    /// The names of the grand products.
    pub grand_products: Vec<String>,
}

/// The kinds of name that a specification declares.
#[derive(Clone, Copy, Debug, PartialEq, Eq, Structural)]
pub enum Category {
    /// A column.
    Column,
    /// A relation.
    Relation,
    /// A lookup.
    Lookup,
    /// A grand product.
    GrandProduct,
}

/// Why a specification has no column set.
#[derive(Debug)]
pub enum SchemaError {
    /// Two entries of one category have the same name.
    DuplicateName { category: Category, name: String },
    /// A column needs a shift but is a helper column, and so is none of the
    /// columns that a shift can be taken of.
    ShiftOfMissingColumn { name: String },
}

/// A schema error, with its name as a sequence of characters.
pub enum SchemaFault {
    /// Two entries of one category have the same name.
    DuplicateName { category: Category, name: Seq<char> },
    /// A column needs a shift but is a helper column.
    ShiftOfMissingColumn { name: Seq<char> },
}

impl View for SchemaError {
    type V = SchemaFault;

    open spec fn view(&self) -> SchemaFault {
        match self {
            SchemaError::DuplicateName { category, name } => SchemaFault::DuplicateName {
                category: *category,
                name: name@,
            },
            SchemaError::ShiftOfMissingColumn { name } => SchemaFault::ShiftOfMissingColumn {
                name: name@,
            },
        }
    }
}

/// The name that shifted columns have after their base column's name.
pub open spec fn shifted_name(name: Seq<char>) -> Seq<char> {
    name + "_shift"@
}

/// No name occurs twice among the first `n` of `names`.
pub open spec fn distinct_prefix(names: Seq<Seq<char>>, n: int) -> bool {
    forall|i: int, j: int| 0 <= i < j < n ==> names[i] != names[j]
}

/// No name occurs twice in `names`.
pub open spec fn distinct(names: Seq<Seq<char>>) -> bool {
    distinct_prefix(names, names.len() as int)
}

/// `names[j]` repeats an earlier name, and no name before it repeats one.
pub open spec fn first_repeat(names: Seq<Seq<char>>, j: int) -> bool {
    &&& 0 <= j < names.len()
    &&& distinct_prefix(names, j)
    &&& exists|i: int| 0 <= i < j && names[i] == names[j]
}

/// The names of the columns of a specification.
pub open spec fn column_names(columns: Seq<Column>) -> Seq<Seq<char>> {
    Seq::new(columns.len(), |i: int| columns[i].name@)
}

/// Holds of the columns that hold trace values: all but the helper columns
/// of lookups.
pub open spec fn holds_values() -> spec_fn(Column) -> bool {
    |c: Column| !c.is_inverse
}

/// Holds of the columns that need a shift.
pub open spec fn needs_shift() -> spec_fn(Column) -> bool {
    |c: Column| c.requires_shift
}

/// `names[i]` with `_shift` behind each.
pub open spec fn shifted_names(names: Seq<Seq<char>>) -> Seq<Seq<char>> {
    Seq::new(names.len(), |k: int| shifted_name(names[k]))
}

/// `columns[j]` needs a shift of a helper column, and no column before it does.
pub open spec fn first_missing_shift(columns: Seq<Column>, j: int) -> bool {
    &&& 0 <= j < columns.len()
    &&& columns[j].requires_shift && columns[j].is_inverse
    &&& forall|i: int| 0 <= i < j ==> !(columns[i].requires_shift && columns[i].is_inverse)
}

/// No column needs a shift of a helper column.
pub open spec fn shifts_present(columns: Seq<Column>) -> bool {
    forall|i: int| 0 <= i < columns.len() ==> !(columns[i].requires_shift && columns[i].is_inverse)
}

/// The column sets of a circuit, derived from its specification.
pub struct ColumnSet {
    /// Every column that holds trace values, in the order of declaration.
    pub all_columns: Vec<String>,
    /// The columns of `all_columns` that need a shift, in the same order.
    pub to_be_shifted: Vec<String>,
    /// For each entry of `to_be_shifted`, its place in `all_columns`.
    pub shift_sources: Vec<usize>,
    /// `all_columns`, then one shifted column for each entry of `to_be_shifted`.
    pub all_columns_with_shifts: Vec<String>,
}

impl ColumnSet {
    /// The sets fit together: no column occurs twice, every shifted column is
    /// one of `all_columns` and stands where `shift_sources` says, and
    /// `all_columns_with_shifts` is `all_columns` with the shifted names appended.
    pub open spec fn wf(&self) -> bool {
        &&& distinct(views(self.all_columns@))
        &&& self.shift_sources@.len() == self.to_be_shifted@.len()
        &&& forall|k: int|
            0 <= k < self.to_be_shifted@.len() ==> {
                &&& (#[trigger] self.shift_sources@[k]) < self.all_columns@.len()
                &&& self.to_be_shifted@[k]@ == self.all_columns@[self.shift_sources@[k] as int]@
            }
        &&& forall|k: int, l: int|
            0 <= k < l < self.shift_sources@.len() ==> self.shift_sources@[k]
                < self.shift_sources@[l]
        &&& views(self.all_columns_with_shifts@) == views(self.all_columns@) + shifted_names(
            views(self.to_be_shifted@),
        )
    }

    /// The sets are those of `columns`: `all_columns` are its columns that are
    /// no helper columns, and `to_be_shifted` those that need a shift.
    pub open spec fn derived_from(&self, columns: Seq<Column>) -> bool {
        &&& views(self.all_columns@) == column_names(columns.filter(holds_values()))
        &&& views(self.to_be_shifted@) == column_names(columns.filter(needs_shift()))
    }

    /// The number of fields of a row: one for each entry of
    /// `all_columns_with_shifts`.
    pub open spec fn width(&self) -> nat {
        self.all_columns_with_shifts@.len()
    }
}

/// The specification is free of faults: no name occurs twice in its category,
/// and no helper column needs a shift.
pub open spec fn well_formed(spec: &ConstraintSpecification) -> bool {
    &&& distinct(column_names(spec.columns@))
    &&& shifts_present(spec.columns@)
    &&& distinct(views(spec.relations@))
    &&& distinct(views(spec.lookups@))
    &&& distinct(views(spec.grand_products@))
}

/// `fault` is the first fault of the specification. The columns are looked at
/// first, for a repeated name and then for a shift of a helper column; then
/// the relations, the lookups and the grand products, each for a repeated name.
pub open spec fn first_fault(spec: &ConstraintSpecification, fault: SchemaFault) -> bool {
    let columns = column_names(spec.columns@);
    match fault {
        SchemaFault::DuplicateName { category: Category::Column, name } => exists|j: int|
            first_repeat(columns, j) && name == columns[j],
        SchemaFault::ShiftOfMissingColumn { name } => distinct(columns) && exists|j: int|
            first_missing_shift(spec.columns@, j) && name == columns[j],
        SchemaFault::DuplicateName { category: Category::Relation, name } => distinct(columns)
            && shifts_present(spec.columns@) && exists|j: int|
            first_repeat(views(spec.relations@), j) && name == spec.relations@[j]@,
        SchemaFault::DuplicateName { category: Category::Lookup, name } => distinct(columns)
            && shifts_present(spec.columns@) && distinct(views(spec.relations@)) && exists|j: int|
            first_repeat(views(spec.lookups@), j) && name == spec.lookups@[j]@,
        SchemaFault::DuplicateName { category: Category::GrandProduct, name } => distinct(columns)
            && shifts_present(spec.columns@) && distinct(views(spec.relations@)) && distinct(
            views(spec.lookups@),
        ) && exists|j: int|
            first_repeat(views(spec.grand_products@), j) && name == spec.grand_products@[j]@,
    }
}

/// Finds the first name that repeats an earlier one.
pub fn find_repeat(names: &[String]) -> (found: Option<usize>)
    ensures
        match found {
            Some(j) => first_repeat(views(names@), j as int),
            None => distinct(views(names@)),
        },
{
    let mut j: usize = 0;
    while j < names.len()
        invariant
            j <= names.len(),
            distinct_prefix(views(names@), j as int),
        decreases names.len() - j,
    {
        let mut i: usize = 0;
        while i < j
            invariant
                i <= j < names.len(),
                distinct_prefix(views(names@), j as int),
                forall|h: int| 0 <= h < i ==> views(names@)[h] != views(names@)[j as int],
            decreases j - i,
        {
            if names[i] == names[j] {
                proof {
                    assert(views(names@)[i as int] == views(names@)[j as int]);
                }
                return Some(j);
            }
            i += 1;
        }
        j += 1;
    }
    None
}

/// Finds the first column that needs a shift of a helper column.
pub fn find_missing_shift(columns: &[Column]) -> (found: Option<usize>)
    ensures
        match found {
            Some(j) => first_missing_shift(columns@, j as int),
            None => shifts_present(columns@),
        },
{
    let mut j: usize = 0;
    while j < columns.len()
        invariant
            j <= columns.len(),
            forall|i: int| 0 <= i < j ==> !(columns@[i].requires_shift && columns@[i].is_inverse),
        decreases columns.len() - j,
    {
        if columns[j].requires_shift && columns[j].is_inverse {
            return Some(j);
        }
        j += 1;
    }
    None
}

/// The names of the columns, in their order.
fn names_of(columns: &[Column]) -> (names: Vec<String>)
    ensures
        views(names@) == column_names(columns@),
{
    let mut names: Vec<String> = Vec::new();
    let mut i: usize = 0;
    while i < columns.len()
        invariant
            i <= columns.len(),
            names@.len() == i,
            forall|k: int| 0 <= k < i ==> names@[k]@ == columns@[k].name@,
        decreases columns.len() - i,
    {
        names.push(columns[i].name.clone());
        i += 1;
    }
    proof {
        assert(views(names@) =~= column_names(columns@));
    }
    names
}

impl ColumnSet {
    /// Derives the column sets of a specification, or reports its first fault.
    pub fn derive(spec: &ConstraintSpecification) -> (result: Result<ColumnSet, SchemaError>)
        ensures
            result is Ok <==> well_formed(spec),
            match result {
                Ok(set) => set.wf() && set.derived_from(spec.columns@),
                Err(error) => first_fault(spec, error@),
            },
    {
        let names = names_of(spec.columns.as_slice());
        if let Some(j) = find_repeat(names.as_slice()) {
            proof {
                assert(views(names@)[j as int] == names@[j as int]@);
            }
            return Err(
                SchemaError::DuplicateName { category: Category::Column, name: names[j].clone() },
            );
        }
        if let Some(j) = find_missing_shift(spec.columns.as_slice()) {
            proof {
                assert(views(names@)[j as int] == names@[j as int]@);
            }
            return Err(SchemaError::ShiftOfMissingColumn { name: names[j].clone() });
        }
        if let Some(j) = find_repeat(spec.relations.as_slice()) {
            return Err(
                SchemaError::DuplicateName {
                    category: Category::Relation,
                    name: spec.relations[j].clone(),
                },
            );
        }
        if let Some(j) = find_repeat(spec.lookups.as_slice()) {
            return Err(
                SchemaError::DuplicateName {
                    category: Category::Lookup,
                    name: spec.lookups[j].clone(),
                },
            );
        }
        if let Some(j) = find_repeat(spec.grand_products.as_slice()) {
            return Err(
                SchemaError::DuplicateName {
                    category: Category::GrandProduct,
                    name: spec.grand_products[j].clone(),
                },
            );
        }
        let ghost columns = spec.columns@;
        let ghost mut origin: Seq<int> = Seq::empty();
        let mut all_columns: Vec<String> = Vec::new();
        let mut to_be_shifted: Vec<String> = Vec::new();
        let mut shift_sources: Vec<usize> = Vec::new();
        let mut i: usize = 0;
        proof {
            assert(columns.take(0) =~= Seq::empty());
            reveal(Seq::filter);
            assert(views(all_columns@) =~= column_names(columns.take(0).filter(holds_values())));
            assert(views(to_be_shifted@) =~= column_names(columns.take(0).filter(needs_shift())));
        }
        while i < spec.columns.len()
            invariant
                i <= spec.columns.len(),
                columns == spec.columns@,
                shifts_present(columns),
                views(all_columns@) == column_names(columns.take(i as int).filter(holds_values())),
                views(to_be_shifted@) == column_names(
                    columns.take(i as int).filter(needs_shift()),
                ),
                origin.len() == all_columns@.len(),
                forall|k: int|
                    0 <= k < origin.len() ==> 0 <= #[trigger] origin[k] < i && all_columns@[k]@
                        == columns[origin[k]].name@,
                forall|k: int, l: int| 0 <= k < l < origin.len() ==> origin[k] < origin[l],
                shift_sources@.len() == to_be_shifted@.len(),
                forall|k: int|
                    0 <= k < to_be_shifted@.len() ==> {
                        &&& (#[trigger] shift_sources@[k]) < all_columns@.len()
                        &&& to_be_shifted@[k]@ == all_columns@[shift_sources@[k] as int]@
                    },
                forall|k: int, l: int|
                    0 <= k < l < shift_sources@.len() ==> shift_sources@[k] < shift_sources@[l],
            decreases spec.columns.len() - i,
        {
            let column = &spec.columns[i];
            proof {
                assert(columns.take(i + 1) =~= columns.take(i as int).push(columns[i as int]));
                columns.take(i as int).lemma_filter_push(columns[i as int], holds_values());
                columns.take(i as int).lemma_filter_push(columns[i as int], needs_shift());
            }
            if !column.is_inverse {
                if column.requires_shift {
                    shift_sources.push(all_columns.len());
                    push_copy(&mut to_be_shifted, &column.name);
                }
                push_copy(&mut all_columns, &column.name);
                proof {
                    origin = origin.push(i as int);
                }
            }
            proof {
                assert(views(all_columns@) =~= column_names(
                    columns.take(i + 1).filter(holds_values()),
                ));
                assert(views(to_be_shifted@) =~= column_names(
                    columns.take(i + 1).filter(needs_shift()),
                ));
            }
            i += 1;
        }
        let mut all_columns_with_shifts: Vec<String> = Vec::new();
        let mut a: usize = 0;
        while a < all_columns.len()
            invariant
                a <= all_columns.len(),
                views(all_columns_with_shifts@) == views(all_columns@).take(a as int),
            decreases all_columns.len() - a,
        {
            push_copy(&mut all_columns_with_shifts, &all_columns[a]);
            proof {
                assert(views(all_columns_with_shifts@) =~= views(all_columns@).take(a + 1));
            }
            a += 1;
        }
        let mut s: usize = 0;
        proof {
            assert(views(all_columns_with_shifts@) =~= views(all_columns@) + shifted_names(
                views(to_be_shifted@),
            ).take(0));
        }
        while s < to_be_shifted.len()
            invariant
                s <= to_be_shifted.len(),
                views(all_columns_with_shifts@) == views(all_columns@) + shifted_names(
                    views(to_be_shifted@),
                ).take(s as int),
            decreases to_be_shifted.len() - s,
        {
            let mut name = to_be_shifted[s].clone();
            name.append("_shift");
            push_copy(&mut all_columns_with_shifts, &name);
            proof {
                assert(name@ == shifted_names(views(to_be_shifted@))[s as int]);
                assert(views(all_columns_with_shifts@) =~= views(all_columns@) + shifted_names(
                    views(to_be_shifted@),
                ).take(s + 1));
            }
            s += 1;
        }
        let set = ColumnSet { all_columns, to_be_shifted, shift_sources, all_columns_with_shifts };
        proof {
            assert(columns.take(columns.len() as int) =~= columns);
            assert(distinct(views(set.all_columns@))) by {
                assert forall|x: int, y: int|
                    0 <= x < y < views(set.all_columns@).len() implies views(set.all_columns@)[x]
                    != views(set.all_columns@)[y] by {
                    assert(origin[x] < origin[y]);
                    assert(column_names(columns)[origin[x]] != column_names(columns)[origin[y]]);
                }
            }
            assert(shifted_names(views(set.to_be_shifted@)).take(set.to_be_shifted@.len() as int)
                =~= shifted_names(views(set.to_be_shifted@)));
        }
        Ok(set)
    }
}

impl ColumnSet {
    /// Whether the sets fit together.
    pub fn is_well_formed(&self) -> (ok: bool)
        ensures
            ok == self.wf(),
    {
        if find_repeat(self.all_columns.as_slice()).is_some() {
            return false;
        }
        let columns = self.all_columns.len();
        let shifts = self.to_be_shifted.len();
        if self.shift_sources.len() != shifts {
            return false;
        }
        let width = self.all_columns_with_shifts.len();
        if width < columns || width - columns != shifts {
            proof {
                assert(views(self.all_columns_with_shifts@).len() != (views(self.all_columns@)
                    + shifted_names(views(self.to_be_shifted@))).len());
            }
            return false;
        }
        let mut k: usize = 0;
        while k < shifts
            invariant
                k <= shifts,
                columns == self.all_columns@.len(),
                shifts == self.to_be_shifted@.len(),
                shifts == self.shift_sources@.len(),
                width == self.all_columns_with_shifts@.len(),
                width == columns + shifts,
                forall|h: int|
                    0 <= h < k ==> {
                        &&& (#[trigger] self.shift_sources@[h]) < columns
                        &&& self.to_be_shifted@[h]@ == self.all_columns@[self.shift_sources@[h] as int]@
                    },
                forall|h: int, l: int|
                    0 <= h < l < k ==> self.shift_sources@[h] < self.shift_sources@[l],
                forall|h: int|
                    0 <= h < k ==> (#[trigger] self.all_columns_with_shifts@[columns + h])@
                        == shifted_name(self.to_be_shifted@[h]@),
            decreases shifts - k,
        {
            let source = self.shift_sources[k];
            if source >= columns {
                return false;
            }
            if self.to_be_shifted[k] != self.all_columns[source] {
                return false;
            }
            if k > 0 && self.shift_sources[k - 1] >= source {
                return false;
            }
            let mut name = self.to_be_shifted[k].clone();
            name.append("_shift");
            if self.all_columns_with_shifts[columns + k] != name {
                proof {
                    let expected = views(self.all_columns@) + shifted_names(
                        views(self.to_be_shifted@),
                    );
                    assert(expected[columns + k] == shifted_name(self.to_be_shifted@[k as int]@));
                    assert(views(self.all_columns_with_shifts@)[columns + k] != expected[columns
                        + k]);
                }
                return false;
            }
            k += 1;
        }
        let mut a: usize = 0;
        while a < columns
            invariant
                a <= columns,
                columns == self.all_columns@.len(),
                shifts == self.to_be_shifted@.len(),
                width == self.all_columns_with_shifts@.len(),
                width == columns + shifts,
                forall|h: int|
                    0 <= h < shifts ==> (#[trigger] self.all_columns_with_shifts@[columns + h])@
                        == shifted_name(self.to_be_shifted@[h]@),
                forall|h: int|
                    0 <= h < a ==> (#[trigger] self.all_columns_with_shifts@[h])@
                        == self.all_columns@[h]@,
            decreases columns - a,
        {
            if self.all_columns_with_shifts[a] != self.all_columns[a] {
                proof {
                    let expected = views(self.all_columns@) + shifted_names(
                        views(self.to_be_shifted@),
                    );
                    assert(expected[a as int] == self.all_columns@[a as int]@);
                    assert(views(self.all_columns_with_shifts@)[a as int] != expected[a as int]);
                }
                return false;
            }
            a += 1;
        }
        proof {
            let expected = views(self.all_columns@) + shifted_names(views(self.to_be_shifted@));
            assert forall|h: int| 0 <= h < width implies views(self.all_columns_with_shifts@)[h]
                == expected[h] by {
                if h >= columns {
                    assert(self.all_columns_with_shifts@[columns + (h - columns)]@ == shifted_name(
                        self.to_be_shifted@[h - columns]@,
                    ));
                }
            }
            assert(views(self.all_columns_with_shifts@) =~= expected);
        }
        true
    }
}

/// The lists of columns that a header is rendered from fit together: no
/// name occurs twice among the columns or among the shifted columns, every
/// shifted column is one of the columns, and the fields of a row are the
/// columns followed by the shifted names.
pub open spec fn columns_fit(
    all_cols: Seq<Seq<char>>,
    to_be_shifted: Seq<Seq<char>>,
    all_cols_with_shifts: Seq<Seq<char>>,
) -> bool {
    &&& distinct(all_cols)
    &&& distinct(to_be_shifted)
    &&& forall|k: int| 0 <= k < to_be_shifted.len() ==> all_cols.contains(#[trigger] to_be_shifted[k])
    &&& all_cols_with_shifts == all_cols + shifted_names(to_be_shifted)
}

/// The names of the constraints that a header is rendered from fit: no
/// relation, no lookup and no grand product occurs twice.
pub open spec fn constraints_fit(
    relations: Seq<Seq<char>>,
    lookups: Seq<Seq<char>>,
    grand_products: Seq<Seq<char>>,
) -> bool {
    &&& distinct(relations)
    &&& distinct(lookups)
    &&& distinct(grand_products)
}

/// Whether no relation, no lookup and no grand product occurs twice.
pub fn constraints_fit_together(
    relations: &[String],
    lookups: &[String],
    grand_products: &[String],
) -> (ok: bool)
    ensures
        ok == constraints_fit(views(relations@), views(lookups@), views(grand_products@)),
{
    find_repeat(relations).is_none() && find_repeat(lookups).is_none() && find_repeat(
        grand_products,
    ).is_none()
}

/// Finds the place of `name` among `names`.
pub fn position(names: &[String], name: &String) -> (found: Option<usize>)
    ensures
        match found {
            Some(i) => i < names@.len() && names@[i as int]@ == name@,
            None => !views(names@).contains(name@),
        },
{
    let mut i: usize = 0;
    while i < names.len()
        invariant
            i <= names.len(),
            forall|h: int| 0 <= h < i ==> views(names@)[h] != name@,
        decreases names.len() - i,
    {
        if names[i] == *name {
            return Some(i);
        }
        i += 1;
    }
    None
}

/// Whether the lists of columns that a header is rendered from fit together.
pub fn fit_together(all_cols: &[String], to_be_shifted: &[String], all_cols_with_shifts: &[String]) -> (ok:
    bool)
    ensures
        ok == columns_fit(views(all_cols@), views(to_be_shifted@), views(all_cols_with_shifts@)),
{
    if find_repeat(all_cols).is_some() || find_repeat(to_be_shifted).is_some() {
        return false;
    }
    let columns = all_cols.len();
    let shifts = to_be_shifted.len();
    let width = all_cols_with_shifts.len();
    let ghost expected = views(all_cols@) + shifted_names(views(to_be_shifted@));
    if width < columns || width - columns != shifts {
        proof {
            assert(views(all_cols_with_shifts@).len() != expected.len());
        }
        return false;
    }
    let mut k: usize = 0;
    while k < shifts
        invariant
            k <= shifts,
            columns == all_cols@.len(),
            shifts == to_be_shifted@.len(),
            width == all_cols_with_shifts@.len(),
            width == columns + shifts,
            expected == views(all_cols@) + shifted_names(views(to_be_shifted@)),
            forall|h: int|
                0 <= h < k ==> views(all_cols@).contains(#[trigger] views(to_be_shifted@)[h]),
            forall|h: int|
                0 <= h < k ==> (#[trigger] views(all_cols_with_shifts@)[columns + h]) == expected[columns
                    + h],
        decreases shifts - k,
    {
        match position(all_cols, &to_be_shifted[k]) {
            None => {
                proof {
                    assert(views(to_be_shifted@)[k as int] == to_be_shifted@[k as int]@);
                }
                return false;
            },
            Some(i) => {
                proof {
                    assert(views(all_cols@)[i as int] == views(to_be_shifted@)[k as int]);
                }
            },
        }
        let mut name = to_be_shifted[k].clone();
        name.append("_shift");
        proof {
            assert(expected[columns + k] == shifted_name(to_be_shifted@[k as int]@));
        }
        if all_cols_with_shifts[columns + k] != name {
            proof {
                assert(views(all_cols_with_shifts@)[columns + k] != expected[columns + k]);
            }
            return false;
        }
        k += 1;
    }
    let mut a: usize = 0;
    while a < columns
        invariant
            a <= columns,
            columns == all_cols@.len(),
            shifts == to_be_shifted@.len(),
            width == all_cols_with_shifts@.len(),
            width == columns + shifts,
            expected == views(all_cols@) + shifted_names(views(to_be_shifted@)),
            forall|h: int|
                0 <= h < shifts ==> views(all_cols@).contains(#[trigger] views(to_be_shifted@)[h]),
            forall|h: int|
                0 <= h < shifts ==> (#[trigger] views(all_cols_with_shifts@)[columns + h])
                    == expected[columns + h],
            forall|h: int| 0 <= h < a ==> (#[trigger] views(all_cols_with_shifts@)[h]) == expected[h],
        decreases columns - a,
    {
        proof {
            assert(expected[a as int] == all_cols@[a as int]@);
        }
        if all_cols_with_shifts[a] != all_cols[a] {
            proof {
                assert(views(all_cols_with_shifts@)[a as int] != expected[a as int]);
            }
            return false;
        }
        a += 1;
    }
    proof {
        assert forall|h: int| 0 <= h < width implies views(all_cols_with_shifts@)[h]
            == expected[h] by {
            if h >= columns {
                assert(views(all_cols_with_shifts@)[columns + (h - columns)] == expected[columns + (h
                    - columns)]);
            }
        }
        assert(views(all_cols_with_shifts@) =~= expected);
    }
    true
}

/// The lists of a well-formed column set fit together.
pub proof fn lemma_column_set_fits(set: ColumnSet)
    requires
        set.wf(),
    ensures
        columns_fit(
            views(set.all_columns@),
            views(set.to_be_shifted@),
            views(set.all_columns_with_shifts@),
        ),
{
    lemma_column_set_counts(set);
    assert forall|x: int, y: int| 0 <= x < y < views(set.to_be_shifted@).len() implies views(
        set.to_be_shifted@,
    )[x] != views(set.to_be_shifted@)[y] by {
        let i = set.shift_sources@[x] as int;
        let j = set.shift_sources@[y] as int;
        assert(i < j);
        assert(views(set.all_columns@)[i] != views(set.all_columns@)[j]);
    }
}

/// In a well-formed column set every shifted column is one of `all_columns`,
/// and `all_columns_with_shifts` has one entry for each column and one for
/// each shifted column.
pub proof fn lemma_column_set_counts(set: ColumnSet)
    requires
        set.wf(),
    ensures
        forall|k: int|
            0 <= k < set.to_be_shifted@.len() ==> views(set.all_columns@).contains(
                #[trigger] views(set.to_be_shifted@)[k],
            ),
        set.all_columns_with_shifts@.len() == set.all_columns@.len() + set.to_be_shifted@.len(),
{
    assert forall|k: int| 0 <= k < set.to_be_shifted@.len() implies views(
        set.all_columns@,
    ).contains(#[trigger] views(set.to_be_shifted@)[k]) by {
        let i = set.shift_sources@[k] as int;
        assert(views(set.all_columns@)[i] == views(set.to_be_shifted@)[k]);
    }
    assert(views(set.all_columns_with_shifts@).len() == views(set.all_columns@).len()
        + shifted_names(views(set.to_be_shifted@)).len());
}

} // verus!
