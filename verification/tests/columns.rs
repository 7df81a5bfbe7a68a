use bb_pil_backend::columns::{
    constraints_fit_together, find_missing_shift, find_repeat, fit_together, position, Category,
    Column, ColumnSet, ConstraintSpecification, SchemaError,
};

fn column(name: &str, requires_shift: bool, is_inverse: bool) -> Column {
    Column { name: name.to_string(), requires_shift, is_inverse }
}

fn names(items: &[&str]) -> Vec<String> {
    items.iter().map(|item| item.to_string()).collect()
}

fn specification(columns: Vec<Column>) -> ConstraintSpecification {
    ConstraintSpecification {
        name: String::from("Toy"),
        columns,
        relations: names(&["toy"]),
        lookups: names(&["lookup_a"]),
        grand_products: names(&["perm_a"]),
    }
}

#[test]
fn column_sets_of_a_specification() {
    let spec = specification(vec![
        column("a", false, false),
        column("b", true, false),
        column("lookup_a_inv", false, true),
        column("c", true, false),
    ]);
    let set = ColumnSet::derive(&spec).unwrap();
    assert_eq!(set.all_columns, names(&["a", "b", "c"]));
    assert_eq!(set.to_be_shifted, names(&["b", "c"]));
    assert_eq!(set.shift_sources, vec![1, 2]);
    assert_eq!(set.all_columns_with_shifts, names(&["a", "b", "c", "b_shift", "c_shift"]));
}

#[test]
fn shifted_columns_are_columns_and_are_counted_once_more() {
    let spec = specification(vec![
        column("q", true, false),
        column("inv", false, true),
        column("w", false, false),
        column("z", true, false),
    ]);
    let set = ColumnSet::derive(&spec).unwrap();
    for shifted in &set.to_be_shifted {
        assert!(set.all_columns.contains(shifted));
    }
    assert_eq!(
        set.all_columns_with_shifts.len(),
        set.all_columns.len() + set.to_be_shifted.len()
    );
    for (k, source) in set.shift_sources.iter().enumerate() {
        assert_eq!(set.all_columns[*source], set.to_be_shifted[k]);
    }
}

#[test]
fn column_sets_of_a_specification_without_columns() {
    let set = ColumnSet::derive(&specification(vec![])).unwrap();
    assert!(set.all_columns.is_empty());
    assert!(set.to_be_shifted.is_empty());
    assert!(set.all_columns_with_shifts.is_empty());
}

#[test]
fn shifted_entries_are_appended_not_interleaved() {
    let spec = specification(vec![column("a", true, false), column("b", false, false)]);
    let set = ColumnSet::derive(&spec).unwrap();
    assert_eq!(set.all_columns_with_shifts, names(&["a", "b", "a_shift"]));
}

#[test]
fn a_repeated_column_is_a_schema_error() {
    let spec = specification(vec![
        column("a", false, false),
        column("b", false, false),
        column("a", true, false),
        column("b", false, false),
    ]);
    match ColumnSet::derive(&spec) {
        Err(SchemaError::DuplicateName { category, name }) => {
            assert_eq!(category, Category::Column);
            assert_eq!(name, "a");
        },
        other => panic!("{:?}", other.err()),
    }
}

#[test]
fn a_helper_column_repeats_a_column_name_too() {
    let spec = specification(vec![column("a", false, false), column("a", false, true)]);
    match ColumnSet::derive(&spec) {
        Err(SchemaError::DuplicateName { category, name }) => {
            assert_eq!(category, Category::Column);
            assert_eq!(name, "a");
        },
        other => panic!("{:?}", other.err()),
    }
}

#[test]
fn a_shift_of_a_helper_column_is_a_schema_error() {
    let spec = specification(vec![
        column("a", true, false),
        column("inv", true, true),
        column("inv2", true, true),
    ]);
    match ColumnSet::derive(&spec) {
        Err(SchemaError::ShiftOfMissingColumn { name }) => assert_eq!(name, "inv"),
        other => panic!("{:?}", other.err()),
    }
}

#[test]
fn a_repeated_relation_is_a_schema_error() {
    let mut spec = specification(vec![column("a", false, false)]);
    spec.relations = names(&["r", "s", "s", "r"]);
    match ColumnSet::derive(&spec) {
        Err(SchemaError::DuplicateName { category, name }) => {
            assert_eq!(category, Category::Relation);
            assert_eq!(name, "s");
        },
        other => panic!("{:?}", other.err()),
    }
}

#[test]
fn a_repeated_lookup_is_a_schema_error() {
    let mut spec = specification(vec![column("a", false, false)]);
    spec.lookups = names(&["l", "l"]);
    match ColumnSet::derive(&spec) {
        Err(SchemaError::DuplicateName { category, name }) => {
            assert_eq!(category, Category::Lookup);
            assert_eq!(name, "l");
        },
        other => panic!("{:?}", other.err()),
    }
}

#[test]
fn a_repeated_grand_product_is_a_schema_error() {
    let mut spec = specification(vec![column("a", false, false)]);
    spec.grand_products = names(&["p", "q", "p"]);
    match ColumnSet::derive(&spec) {
        Err(SchemaError::DuplicateName { category, name }) => {
            assert_eq!(category, Category::GrandProduct);
            assert_eq!(name, "p");
        },
        other => panic!("{:?}", other.err()),
    }
}

#[test]
fn the_columns_are_looked_at_before_the_constraints() {
    let mut spec = specification(vec![column("inv", true, true)]);
    spec.relations = names(&["r", "r"]);
    match ColumnSet::derive(&spec) {
        Err(SchemaError::ShiftOfMissingColumn { name }) => assert_eq!(name, "inv"),
        other => panic!("{:?}", other.err()),
    }
}

#[test]
fn one_name_may_stand_in_two_categories() {
    let mut spec = specification(vec![column("a", false, false)]);
    spec.relations = names(&["a"]);
    spec.lookups = names(&["b"]);
    spec.grand_products = names(&["c"]);
    assert!(ColumnSet::derive(&spec).is_ok());
}

#[test]
fn first_repeat_of_a_list_of_names() {
    assert_eq!(find_repeat(&names(&["a", "b", "c"])), None);
    assert_eq!(find_repeat(&names(&[])), None);
    assert_eq!(find_repeat(&names(&["a", "b", "b", "a"])), Some(2));
    assert_eq!(find_repeat(&names(&["a", "b", "a", "b"])), Some(2));
}

#[test]
fn first_shift_of_a_helper_column() {
    let columns = vec![
        column("a", true, false),
        column("b", false, true),
        column("c", true, true),
    ];
    assert_eq!(find_missing_shift(&columns), Some(2));
    assert_eq!(find_missing_shift(&columns[..2]), None);
}

#[test]
fn derived_column_sets_fit_together() {
    let spec = specification(vec![
        column("a", true, false),
        column("inv", false, true),
        column("b", false, false),
        column("c", true, false),
    ]);
    let set = ColumnSet::derive(&spec).unwrap();
    assert!(set.is_well_formed());
    assert!(ColumnSet::derive(&specification(vec![])).unwrap().is_well_formed());
}

#[test]
fn column_sets_that_do_not_fit_together_are_told() {
    let good = || {
        ColumnSet::derive(&specification(vec![
            column("a", true, false),
            column("b", false, false),
            column("c", true, false),
        ]))
        .unwrap()
    };
    let mut set = good();
    set.all_columns[1] = String::from("a");
    assert!(!set.is_well_formed());
    let mut set = good();
    set.shift_sources[1] = 3;
    assert!(!set.is_well_formed());
    let mut set = good();
    set.shift_sources[1] = 1;
    assert!(!set.is_well_formed());
    let mut set = good();
    set.shift_sources.swap(0, 1);
    set.to_be_shifted.swap(0, 1);
    assert!(!set.is_well_formed());
    let mut set = good();
    set.shift_sources.pop();
    assert!(!set.is_well_formed());
    let mut set = good();
    set.all_columns_with_shifts.pop();
    assert!(!set.is_well_formed());
    let mut set = good();
    set.all_columns_with_shifts.swap(3, 4);
    assert!(!set.is_well_formed());
    let mut set = good();
    set.all_columns_with_shifts[0] = String::from("x");
    assert!(!set.is_well_formed());
    let mut set = good();
    set.all_columns_with_shifts[4] = String::from("c_shifted");
    assert!(!set.is_well_formed());
    let mut set = good();
    set.all_columns_with_shifts.push(String::from("extra"));
    assert!(!set.is_well_formed());
}

#[test]
fn lists_of_a_derived_column_set_fit_together() {
    let spec = specification(vec![
        column("a", true, false),
        column("inv", false, true),
        column("b", false, false),
        column("c", true, false),
    ]);
    let set = ColumnSet::derive(&spec).unwrap();
    assert!(fit_together(&set.all_columns, &set.to_be_shifted, &set.all_columns_with_shifts));
    assert!(fit_together(&[], &[], &[]));
    // Columns that have a polynomial and no value in the rows do not hinder.
    assert!(fit_together(
        &names(&["a", "b", "inv"]),
        &names(&["b"]),
        &names(&["a", "b", "inv", "b_shift"])
    ));
}

#[test]
fn lists_that_do_not_fit_together_are_told() {
    // A shift of what is no column.
    assert!(!fit_together(&[], &names(&["zz"]), &names(&["zz_shift"])));
    assert!(!fit_together(&names(&["a"]), &names(&["b"]), &names(&["a", "b_shift"])));
    // A name twice.
    assert!(!fit_together(&names(&["a", "a"]), &[], &names(&["a", "a"])));
    assert!(!fit_together(
        &names(&["a"]),
        &names(&["a", "a"]),
        &names(&["a", "a_shift", "a_shift"])
    ));
    // Fields that are not the columns followed by the shifted names.
    assert!(!fit_together(&names(&["a", "b"]), &names(&["a"]), &names(&["a", "a_shift", "b"])));
    assert!(!fit_together(&names(&["a", "b"]), &names(&["a"]), &names(&["a", "b"])));
    assert!(!fit_together(&names(&["a", "b"]), &names(&["a"]), &names(&["a", "b", "a_shifted"])));
    assert!(!fit_together(&names(&["a", "b"]), &names(&["a"]), &names(&["a", "c", "a_shift"])));
    assert!(!fit_together(&names(&["a"]), &[], &names(&["a", "a_shift"])));
}

#[test]
fn place_of_a_name_among_names() {
    let list = names(&["a", "b", "c", "b"]);
    assert_eq!(position(&list, &String::from("a")), Some(0));
    assert_eq!(position(&list, &String::from("b")), Some(1));
    assert_eq!(position(&list, &String::from("d")), None);
    assert_eq!(position(&[], &String::from("a")), None);
}

#[test]
fn constraints_fit_where_none_occurs_twice_in_its_list() {
    assert!(constraints_fit_together(&names(&["r", "s"]), &names(&["l"]), &names(&["g"])));
    assert!(constraints_fit_together(&[], &[], &[]));
    assert!(constraints_fit_together(&names(&["x"]), &names(&["x"]), &names(&["x"])));
    assert!(!constraints_fit_together(&names(&["r", "r"]), &[], &[]));
    assert!(!constraints_fit_together(&[], &names(&["l", "m", "l"]), &[]));
    assert!(!constraints_fit_together(&[], &[], &names(&["g", "g"])));
}
