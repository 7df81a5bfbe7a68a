use bb_pil_backend::utils::{decimal, get_relations_imports, relation_import, snake_case};

#[test]
fn snake_case_of_a_camel_case_name() {
    assert_eq!(snake_case("AvmMini"), "avm_mini");
    assert_eq!(snake_case("Toy"), "toy");
    assert_eq!(snake_case("toyVm"), "toy_vm");
}

#[test]
fn snake_case_puts_an_underscore_before_every_later_capital() {
    assert_eq!(snake_case("ABC"), "a_b_c");
    assert_eq!(snake_case("aB2C"), "a_b2_c");
}

#[test]
fn snake_case_keeps_what_is_no_capital() {
    assert_eq!(snake_case(""), "");
    assert_eq!(snake_case("already_snake"), "already_snake");
    assert_eq!(snake_case("x9"), "x9");
}

#[test]
fn decimal_of_small_and_large_numbers() {
    assert_eq!(decimal(0), "0");
    assert_eq!(decimal(7), "7");
    assert_eq!(decimal(10), "10");
    assert_eq!(decimal(409), "409");
    assert_eq!(decimal(65536), "65536");
    assert_eq!(decimal(u128::MAX), u128::MAX.to_string());
}

#[test]
fn import_of_one_relation() {
    assert_eq!(
        relation_import("avm_mini", "alu"),
        "#include \"barretenberg/relations/generated/avm_mini/alu.hpp\""
    );
}

#[test]
fn imports_come_in_the_order_relations_lookups_grand_products() {
    let relations = vec![String::from("r1"), String::from("r2")];
    let lookups = vec![String::from("l1")];
    let grand_products = vec![String::from("g1")];
    let text = get_relations_imports("vm", &relations, &lookups, &grand_products);
    assert_eq!(
        text,
        "#include \"barretenberg/relations/generated/vm/r1.hpp\"\n\
         #include \"barretenberg/relations/generated/vm/r2.hpp\"\n\
         #include \"barretenberg/relations/generated/vm/l1.hpp\"\n\
         #include \"barretenberg/relations/generated/vm/g1.hpp\""
    );
}

#[test]
fn imports_of_nothing_are_empty() {
    assert_eq!(get_relations_imports("vm", &[], &[], &[]), "");
}
