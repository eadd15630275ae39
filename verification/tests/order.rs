use few::Few;
use std::cmp::Ordering;
use std::collections::HashSet;

#[test]
fn shapes_order_zero_one_two() {
    let zero: Few<i32> = Few::Zero;
    assert!(zero < Few::One(0));
    assert!(Few::One(0) < Few::Two(0, 0));
    assert!(zero < Few::Two(0, 0));
}

#[test]
fn shape_decides_before_payloads() {
    let zero: Few<i32> = Few::Zero;
    assert!(Few::One(100) < Few::Two(0, 0));
    assert!(zero < Few::One(i32::MIN));
    assert!(Few::Two(0, 0) > Few::One(100));
}

#[test]
fn ones_order_by_payload() {
    assert!(Few::One(5) < Few::One(6));
    assert!(Few::One(6) > Few::One(5));
    assert!(Few::One(5) <= Few::One(5));
    assert!(Few::One(5) >= Few::One(5));
}

#[test]
fn twos_order_by_first_then_second() {
    assert!(Few::Two(1, 5) < Few::Two(1, 6));
    assert!(Few::Two(1, 9) < Few::Two(2, 0));
    assert!(Few::Two(2, 0) > Few::Two(1, 9));
    assert!(Few::Two(1, 5) <= Few::Two(1, 5));
}

#[test]
fn partial_cmp_gives_the_three_answers() {
    let zero: Few<i32> = Few::Zero;
    assert_eq!(zero.partial_cmp(&Few::Zero), Some(Ordering::Equal));
    assert_eq!(zero.partial_cmp(&Few::One(0)), Some(Ordering::Less));
    assert_eq!(Few::One(0).partial_cmp(&zero), Some(Ordering::Greater));
    assert_eq!(Few::One(1).partial_cmp(&Few::One(1)), Some(Ordering::Equal));
    assert_eq!(Few::One(1).partial_cmp(&Few::Two(0, 0)), Some(Ordering::Less));
    assert_eq!(Few::Two(0, 0).partial_cmp(&Few::One(1)), Some(Ordering::Greater));
    assert_eq!(Few::Two(0, 0).partial_cmp(&zero), Some(Ordering::Greater));
    assert_eq!(Few::Two(1, 2).partial_cmp(&Few::Two(1, 2)), Some(Ordering::Equal));
    assert_eq!(Few::Two(1, 2).partial_cmp(&Few::Two(1, 3)), Some(Ordering::Less));
    assert_eq!(Few::Two(2, 2).partial_cmp(&Few::Two(1, 3)), Some(Ordering::Greater));
}

#[test]
fn partial_cmp_of_unordered_payloads_is_none() {
    assert_eq!(Few::One(f64::NAN).partial_cmp(&Few::One(1.0)), None);
    assert_eq!(Few::Two(f64::NAN, 0.0).partial_cmp(&Few::Two(1.0, 0.0)), None);
    assert_eq!(Few::Two(1.0, f64::NAN).partial_cmp(&Few::Two(1.0, 0.0)), None);
    assert_eq!(
        Few::Two(0.5, f64::NAN).partial_cmp(&Few::Two(1.0, 0.0)),
        Some(Ordering::Less)
    );
    assert_eq!(Few::One(f64::NAN).partial_cmp(&Few::Two(1.0, 0.0)), Some(Ordering::Less));
}

#[test]
fn cmp_agrees_with_partial_cmp() {
    let all = vec![
        Few::Zero,
        Few::One(0),
        Few::One(5),
        Few::One(6),
        Few::Two(0, 0),
        Few::Two(1, 5),
        Few::Two(1, 6),
        Few::Two(1, 9),
        Few::Two(2, 0),
    ];
    for (i, a) in all.iter().enumerate() {
        for (j, b) in all.iter().enumerate() {
            assert_eq!(a.cmp(b), i.cmp(&j));
            assert_eq!(a.partial_cmp(b), Some(i.cmp(&j)));
            assert_eq!(a == b, i == j);
        }
    }
}

#[test]
fn sorting_puts_shapes_in_order() {
    let mut all = vec![Few::Two(1, 9), Few::One(6), Few::Zero, Few::Two(1, 5), Few::One(5)];
    all.sort();
    assert_eq!(
        all,
        vec![Few::Zero, Few::One(5), Few::One(6), Few::Two(1, 5), Few::Two(1, 9)]
    );
}

#[test]
fn equal_means_same_shape_and_payloads() {
    let zero: Few<i32> = Few::Zero;
    assert_eq!(zero, Few::Zero);
    assert_eq!(Few::One(1), Few::One(1));
    assert_eq!(Few::Two(1, 2), Few::Two(1, 2));
    assert_ne!(Few::One(1), Few::One(2));
    assert_ne!(Few::Two(1, 2), Few::Two(2, 1));
    assert_ne!(Few::Two(1, 2), Few::Two(1, 3));
    assert_ne!(Few::Two(1, 2), Few::Two(0, 2));
    assert_ne!(Few::One(1), Few::Two(1, 1));
    assert_ne!(zero, Few::One(0));
    assert_ne!(zero, Few::Two(0, 0));
}

#[test]
fn equal_values_hash_alike() {
    let mut set = HashSet::new();
    assert!(set.insert(Few::Zero));
    assert!(set.insert(Few::One(1)));
    assert!(set.insert(Few::Two(1, 2)));
    assert!(set.insert(Few::Two(2, 1)));
    assert!(!set.insert(Few::Zero));
    assert!(!set.insert(Few::One(1)));
    assert!(!set.insert(Few::Two(1, 2)));
    assert_eq!(set.len(), 4);
    assert!(set.contains(&Few::Two(2, 1)));
    assert!(!set.contains(&Few::One(2)));
}
