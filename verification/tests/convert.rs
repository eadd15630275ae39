use few::Few;

#[test]
fn from_a_single_value() {
    assert_eq!(Few::<i32>::from(3), Few::One(3));
}

#[test]
fn from_a_pair() {
    assert_eq!(Few::<i32>::from((3, 7)), Few::Two(3, 7));
    assert_eq!(Few::<i32>::from((7, 3)), Few::Two(7, 3));
}

#[test]
fn from_an_empty_option() {
    let none: Option<i32> = None;
    assert_eq!(Few::<i32>::from(none), Few::Zero);
}

#[test]
fn from_a_present_option() {
    assert_eq!(Few::<i32>::from(Some(3)), Few::One(3));
}

#[test]
fn from_an_empty_optional_pair() {
    let none: Option<(i32, i32)> = None;
    assert_eq!(Few::<i32>::from(none), Few::Zero);
}

#[test]
fn from_a_present_optional_pair() {
    assert_eq!(Few::<i32>::from(Some((3, 7))), Few::Two(3, 7));
}

#[test]
fn from_two_options_both_absent() {
    let none: (Option<i32>, Option<i32>) = (None, None);
    assert_eq!(Few::<i32>::from(none), Few::Zero);
}

#[test]
fn from_two_options_first_present() {
    assert_eq!(Few::<i32>::from((Some(3), None)), Few::One(3));
}

#[test]
fn from_two_options_second_present() {
    assert_eq!(Few::<i32>::from((None, Some(7))), Few::One(7));
}

#[test]
fn from_two_options_both_present() {
    assert_eq!(Few::<i32>::from((Some(3), Some(7))), Few::Two(3, 7));
}

#[test]
fn into_works_where_from_does() {
    let a: Few<i32> = 5.into();
    assert_eq!(a, Few::One(5));
    let b: Few<i32> = (5, 6).into();
    assert_eq!(b, Few::Two(5, 6));
    let c: Few<i32> = (None, Some(6)).into();
    assert_eq!(c, Few::One(6));
}

#[test]
fn conversions_move_values_that_cannot_be_copied() {
    let s = Few::<String>::from((Some(String::from("a")), Some(String::from("b"))));
    assert_eq!(s, Few::Two(String::from("a"), String::from("b")));
}

#[test]
fn an_option_can_itself_be_the_payload() {
    let s = Few::<Option<i32>>::from(Some(3));
    assert_eq!(s, Few::One(Some(3)));
    let t = Few::<(i32, i32)>::from((3, 7));
    assert_eq!(t, Few::One((3, 7)));
}
