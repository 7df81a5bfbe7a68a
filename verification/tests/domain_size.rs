use bb_pil_backend::domain::get_circuit_subgroup_size;

#[test]
fn subgroup_size_of_one_is_one() {
    assert_eq!(get_circuit_subgroup_size(1), 1);
}

#[test]
fn subgroup_size_of_five_is_eight() {
    assert_eq!(get_circuit_subgroup_size(5), 8);
}

#[test]
fn subgroup_size_of_no_rows_is_the_floor() {
    assert_eq!(get_circuit_subgroup_size(0), 1);
}

#[test]
fn subgroup_size_keeps_a_power_of_two() {
    assert_eq!(get_circuit_subgroup_size(2), 2);
    assert_eq!(get_circuit_subgroup_size(8), 8);
    assert_eq!(get_circuit_subgroup_size(1 << 20), 1 << 20);
}

#[test]
fn subgroup_size_rounds_up_to_the_next_power_of_two() {
    assert_eq!(get_circuit_subgroup_size(3), 4);
    assert_eq!(get_circuit_subgroup_size(9), 16);
    assert_eq!(get_circuit_subgroup_size((1 << 20) + 1), 1 << 21);
}

#[test]
fn subgroup_size_is_the_smallest_power_of_two_that_holds_the_rows() {
    for n in 1usize..=1025 {
        let d = get_circuit_subgroup_size(n);
        assert!(d.is_power_of_two());
        assert!(d >= n);
        assert!(d / 2 < n);
    }
}

#[test]
fn subgroup_size_of_the_largest_trace() {
    let largest = usize::MAX / 2 + 1;
    assert_eq!(get_circuit_subgroup_size(largest), largest);
    assert_eq!(get_circuit_subgroup_size(largest - 1), largest);
}
