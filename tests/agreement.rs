use gmdn::agreement::truncations_agree;

#[test]
fn equal_numbers_agree() {
    assert!(truncations_agree(&vec![Some(18171), Some(18171), Some(18171)]));
}

#[test]
fn one_different_number_disagrees() {
    assert!(!truncations_agree(&vec![Some(20000), Some(18171), Some(20000)]));
    assert!(!truncations_agree(&vec![Some(1), Some(1), Some(2)]));
}

#[test]
fn not_a_number_agrees_with_nothing() {
    assert!(!truncations_agree(&vec![Some(3), Some(3), None]));
    assert!(!truncations_agree(&vec![None, None, None]));
}

#[test]
fn fewer_than_two_values_agree() {
    assert!(truncations_agree(&vec![]));
    assert!(truncations_agree(&vec![None]));
    assert!(truncations_agree(&vec![Some(-4)]));
}

#[test]
fn agreement_ignores_order() {
    let a = vec![Some(1), Some(2), Some(1)];
    let b = vec![Some(1), Some(1), Some(2)];
    assert_eq!(truncations_agree(&a), truncations_agree(&b));
    assert!(!truncations_agree(&b));
}
