use tick_calendar::ratio::Ratio;

fn ratio(numerator: u64, denominator: u64) -> Ratio {
    Ratio { numerator, denominator }
}

#[test]
fn reciprocal_exchanges_numerator_and_denominator() {
    assert_eq!(ratio(1, 100).reciprocal(), Some(ratio(100, 1)));
    assert_eq!(ratio(3, 7).reciprocal(), Some(ratio(7, 3)));
    assert_eq!(ratio(5, 5).reciprocal(), Some(ratio(5, 5)));
    assert_eq!(ratio(u64::MAX, 1).reciprocal(), Some(ratio(1, u64::MAX)));
}

#[test]
fn reciprocal_of_reciprocal_is_the_fraction_itself() {
    let r = ratio(12, 3456);
    let back = r.reciprocal().and_then(|flipped| flipped.reciprocal());
    assert_eq!(back, Some(r));
}

#[test]
fn zero_has_no_reciprocal() {
    assert_eq!(ratio(0, 1).reciprocal(), None);
    assert_eq!(ratio(0, 1_000_000_000).reciprocal(), None);
}

#[test]
fn an_undefined_fraction_has_no_reciprocal() {
    assert_eq!(ratio(1, 0).reciprocal(), None);
    assert_eq!(ratio(0, 0).reciprocal(), None);
}
