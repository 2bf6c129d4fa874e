use pose_engine::curve::{ease_pow4_exec, ease_quarter_exec, PI_MICROS, TWO_PI_MICROS};
use pose_engine::fixed::Fx;

#[test]
fn square_root_is_exact_on_squares() {
    assert_eq!(Fx::whole(4).sqrt(), Fx::whole(2));
    assert_eq!(Fx::whole(144).sqrt(), Fx::whole(12));
    assert_eq!(Fx::one().sqrt(), Fx::one());
    assert_eq!(Fx::zero().sqrt(), Fx::zero());
    assert_eq!(Fx::whole(-9).sqrt(), Fx::zero());
}

#[test]
fn fifth_root_is_exact_on_fifth_powers() {
    assert_eq!(Fx::whole(32).root5(), Fx::whole(2));
    assert_eq!(Fx::whole(243).root5(), Fx::whole(3));
    assert_eq!(Fx::one().root5(), Fx::one());
    assert_eq!(Fx::whole(-1).root5(), Fx::zero());
}

#[test]
fn easings_hit_exact_values() {
    assert_eq!(ease_quarter_exec(Fx::one()), Fx::one());
    assert_eq!(ease_quarter_exec(Fx::micros(62_500)), Fx::cents(50));
    assert_eq!(ease_pow4_exec(Fx::cents(50)), Fx::micros(62_500));
    assert_eq!(ease_pow4_exec(Fx::one()), Fx::one());
    assert_eq!(ease_quarter_exec(Fx::whole(-3)), Fx::zero());
}

#[test]
fn sine_is_odd_periodic_and_bounded() {
    assert_eq!(Fx::zero().sin(), Fx::zero());
    // One full period reduces to the same value.
    let x = Fx::cents(123);
    assert_eq!(x.sin(), x.plus(Fx::micros(TWO_PI_MICROS)).sin());
    assert_eq!(x.sin(), x.minus(Fx::micros(TWO_PI_MICROS)).sin());
    // The crest sits within a millionth-scale tolerance of one.
    let crest = Fx::micros(PI_MICROS / 2).sin();
    assert!((crest.v - 1_000_000).abs() <= 10);
    // Odd about the half turn.
    let a = Fx::cents(40).sin();
    let b = Fx::micros(PI_MICROS).plus(Fx::cents(40)).sin();
    assert_eq!(b, a.negate());
}

#[test]
fn arithmetic_saturates_at_the_range_bound() {
    let big = Fx::whole(19_000_000);
    let sum = big.plus(big);
    assert!(sum.in_range());
    assert_eq!(sum, Fx::micros(20_000_000_000_000));
}
