use cropper::rat::Frac;

fn val_eq(f: &Frac, n: i128, d: i128) -> bool {
    f.num * d == n * f.den
}

#[test]
fn arithmetic_is_exact() {
    let a = Frac::new(1, 3);
    let b = Frac::new(1, 6);
    assert!(val_eq(&a.plus(&b), 1, 2));
    assert!(val_eq(&a.minus(&b), 1, 6));
    assert!(val_eq(&a.times(&b), 1, 18));
    assert!(val_eq(&a.divided_by(&b), 2, 1));
    assert!(val_eq(&a.half(), 1, 6));
    assert!(val_eq(&a.negated(), -1, 3));
    assert!(val_eq(&a.plus_int(2), 7, 3));
    assert!(val_eq(&a.times_int(6), 2, 1));
}

#[test]
fn division_by_negative_keeps_denominator_positive() {
    let a = Frac::new(3, 4);
    let b = Frac::new(-2, 5);
    let q = a.divided_by(&b);
    assert!(q.den > 0);
    assert!(val_eq(&q, -15, 8));
}

#[test]
fn absolute_value_and_comparisons() {
    let neg = Frac::new(-7, 2);
    assert!(val_eq(&neg.abs_frac(), 7, 2));
    assert!(val_eq(&Frac::new(7, 2).abs_frac(), 7, 2));
    assert!(neg.lt(&Frac::new(0, 1)));
    assert!(neg.le(&neg));
    assert!(!neg.lt(&neg));
    // Equality across representations.
    assert!(Frac::new(2, 4).eq_rat(&Frac::new(1, 2)));
    assert!(!Frac::new(2, 4).eq_rat(&Frac::new(1, 3)));
}

#[test]
fn min_max_pick_by_value() {
    let a = Frac::new(1, 3);
    let b = Frac::new(2, 5);
    assert!(val_eq(&a.min_of(&b), 1, 3));
    assert!(val_eq(&a.max_of(&b), 2, 5));
    assert!(val_eq(&b.min_of(&a), 1, 3));
    assert!(val_eq(&b.max_of(&a), 2, 5));
}

#[test]
fn clamp_behaves_like_std() {
    let lo = Frac::new(-3, 2);
    let hi = Frac::new(3, 2);
    assert!(val_eq(&Frac::new(-2, 1).clamp_to(&lo, &hi), -3, 2));
    assert!(val_eq(&Frac::new(2, 1).clamp_to(&lo, &hi), 3, 2));
    let inside = Frac::new(1, 1);
    assert_eq!(inside.clamp_to(&lo, &hi), inside);
}
