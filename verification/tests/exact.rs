//! The exact scalar kernel: sign, floor and round over `(a + b·√3)/d`.

use hexcore::exact::{abs_gt_exec, floor3_exec, round3_exec, sign3_exec, Exact};

#[test]
fn sign_decision_squares_where_signs_mix() {
    // -7 + 4·√3 is just below zero; -7 + 5·√3 is above.
    assert_eq!(sign3_exec(-7, 4), -1);
    assert_eq!(sign3_exec(-7, 5), 1);
    assert_eq!(sign3_exec(7, -4), 1);
    assert_eq!(sign3_exec(7, -5), -1);
    assert_eq!(sign3_exec(0, 0), 0);
    assert_eq!(sign3_exec(0, 1), 1);
    assert_eq!(sign3_exec(-1, 0), -1);
}

#[test]
fn floor_of_exact_values() {
    // 7/2 floors to 3.
    assert_eq!(floor3_exec(7, 0, 2), 3);
    // (1 + √3)/1 is about 2.73.
    assert_eq!(floor3_exec(1, 1, 1), 2);
    // (-1 - √3)/1 is about -2.73.
    assert_eq!(floor3_exec(-1, -1, 1), -3);
    // Whole numbers floor to themselves.
    assert_eq!(floor3_exec(12, 0, 3), 4);
}

#[test]
fn round_halves_away_from_zero() {
    assert_eq!(round3_exec(5, 0, 2), 3);
    assert_eq!(round3_exec(-5, 0, 2), -3);
    assert_eq!(round3_exec(3, 0, 2), 2);
    assert_eq!(round3_exec(-3, 0, 2), -2);
    // 1 + √3 rounds to 3.
    assert_eq!(round3_exec(1, 1, 1), 3);
    // √3/2 rounds to 1.
    assert_eq!(round3_exec(0, 1, 2), 1);
}

#[test]
fn absolute_comparison_over_one_denominator() {
    assert!(abs_gt_exec(2, 0, -1, 0));
    assert!(!abs_gt_exec(1, 0, -1, 0));
    assert!(!abs_gt_exec(1, 0, 2, 0));
    // |√3 - 1| < |1|: 0.73 against 1.
    assert!(!abs_gt_exec(-1, 1, 1, 0));
    // |4·√3 - 6| is about 0.93, smaller than 1 but |8·√3 - 12| beats 1.
    assert!(!abs_gt_exec(-6, 4, 1, 0));
    assert!(abs_gt_exec(-12, 8, 1, 0));
}

#[test]
fn exact_constructors() {
    let x = Exact::from_int(-9);
    assert_eq!((x.a, x.b, x.d), (-9, 0, 1));
    let y = Exact::ratio(7, 3);
    assert_eq!((y.a, y.b, y.d), (7, 0, 3));
}
