use livesplit_auto_splitting::abi::{decode_game_time, decode_tick_rate, split_pattern};
use livesplit_auto_splitting::timer::TimeSpan;
use livesplit_auto_splitting::trap::Trap;

fn game_time(secs: f64) -> Result<(u64, u32), Trap> {
    decode_game_time(secs.to_bits()).map(|t: TimeSpan| (t.secs(), t.subsec_nanos()))
}

fn tick(rate: f64) -> Result<u128, Trap> {
    decode_tick_rate(rate.to_bits()).map(|t: TimeSpan| t.as_nanos())
}

#[test]
fn pattern_parts_of_one() {
    let (negative, exponent, fraction) = split_pattern(1.0f64.to_bits());
    assert!(!negative);
    assert_eq!(exponent, 1023);
    assert_eq!(fraction, 0);
    let (negative, exponent, fraction) = split_pattern((-1.5f64).to_bits());
    assert!(negative);
    assert_eq!(exponent, 1023);
    assert_eq!(fraction, 1u64 << 51);
}

#[test]
fn game_time_zero_is_accepted() {
    assert_eq!(game_time(0.0), Ok((0, 0)));
}

#[test]
fn game_time_negative_zero_is_accepted() {
    assert_eq!(game_time(-0.0), Ok((0, 0)));
}

#[test]
fn game_time_nan_traps() {
    assert_eq!(game_time(f64::NAN), Err(Trap::InvalidGameTime));
}

#[test]
fn game_time_infinities_trap() {
    assert_eq!(game_time(f64::INFINITY), Err(Trap::InvalidGameTime));
    assert_eq!(game_time(f64::NEG_INFINITY), Err(Trap::InvalidGameTime));
}

#[test]
fn game_time_negatives_trap() {
    assert_eq!(game_time(-1.0), Err(Trap::InvalidGameTime));
    assert_eq!(game_time(-1e-300), Err(Trap::InvalidGameTime));
    assert_eq!(game_time(-f64::MIN_POSITIVE / 2.0), Err(Trap::InvalidGameTime));
    assert_eq!(game_time(f64::MIN), Err(Trap::InvalidGameTime));
}

#[test]
fn game_time_exact_values() {
    assert_eq!(game_time(1.0), Ok((1, 0)));
    assert_eq!(game_time(1.5), Ok((1, 500_000_000)));
    assert_eq!(game_time(0.25), Ok((0, 250_000_000)));
    assert_eq!(game_time(3600.0), Ok((3600, 0)));
    assert_eq!(game_time(123.456), Ok((123, 456_000_000)));
    assert_eq!(game_time(4_294_967_296.0), Ok((4_294_967_296, 0)));
}

#[test]
fn game_time_rounds_down_to_nanoseconds() {
    // 0.1 is a little above a tenth, 0.7 a little below seven tenths.
    assert_eq!(game_time(0.1), Ok((0, 100_000_000)));
    assert_eq!(game_time(0.7), Ok((0, 699_999_999)));
    assert_eq!(game_time(1e-9), Ok((0, 1)));
    assert_eq!(game_time(1e-10), Ok((0, 0)));
    assert_eq!(game_time(f64::MIN_POSITIVE), Ok((0, 0)));
    assert_eq!(game_time(5e-324), Ok((0, 0)));
}

#[test]
fn game_time_limit_of_a_span() {
    let below = 18_446_744_073_709_549_568.0f64;
    assert_eq!(game_time(below), Ok((18_446_744_073_709_549_568, 0)));
    let two_to_64 = 18_446_744_073_709_551_616.0f64;
    assert_eq!(game_time(two_to_64), Err(Trap::InvalidGameTime));
    assert_eq!(game_time(f64::MAX), Err(Trap::InvalidGameTime));
    assert_eq!(game_time(9_007_199_254_740_993.0), Ok((9_007_199_254_740_992, 0)));
}

#[test]
fn tick_rate_zero_traps() {
    assert_eq!(tick(0.0), Err(Trap::InvalidTickRate));
    assert_eq!(tick(-0.0), Err(Trap::InvalidTickRate));
}

#[test]
fn tick_rate_nan_traps() {
    assert_eq!(tick(f64::NAN), Err(Trap::InvalidTickRate));
}

#[test]
fn tick_rate_negative_traps() {
    assert_eq!(tick(-1.0), Err(Trap::InvalidTickRate));
    assert_eq!(tick(-60.0), Err(Trap::InvalidTickRate));
}

#[test]
fn tick_rate_infinite_traps() {
    assert_eq!(tick(f64::INFINITY), Err(Trap::InvalidTickRate));
    assert_eq!(tick(f64::NEG_INFINITY), Err(Trap::InvalidTickRate));
}

#[test]
fn tick_rate_exact_values() {
    assert_eq!(tick(10.0), Ok(100_000_000));
    assert_eq!(tick(60.0), Ok(16_666_666));
    assert_eq!(tick(120.0), Ok(8_333_333));
    assert_eq!(tick(1.0), Ok(1_000_000_000));
    assert_eq!(tick(0.5), Ok(2_000_000_000));
    assert_eq!(tick(3.0), Ok(333_333_333));
    assert_eq!(tick(1000.0), Ok(1_000_000));
}

#[test]
fn tick_rate_is_held_to_the_floor() {
    assert_eq!(tick(1000.5), Ok(1_000_000));
    assert_eq!(tick(2000.0), Ok(1_000_000));
    assert_eq!(tick(1e9), Ok(1_000_000));
    assert_eq!(tick(1e300), Ok(1_000_000));
    assert_eq!(tick(f64::MAX), Ok(1_000_000));
    assert_eq!(tick(999.0), Ok(1_001_001));
}

#[test]
fn tick_rate_is_held_to_the_ceiling() {
    assert_eq!(tick(1e-300), Ok(u64::MAX as u128));
    assert_eq!(tick(f64::MIN_POSITIVE), Ok(u64::MAX as u128));
    assert_eq!(tick(5e-324), Ok(u64::MAX as u128));
    assert_eq!(tick(1e-11), Ok(u64::MAX as u128));
    // Two to the power -34 ticks per second: a tick of 2^34 seconds.
    assert_eq!(tick(1.0 / 17_179_869_184.0), Ok(17_179_869_184_000_000_000));
}

#[test]
fn time_span_arithmetic() {
    assert!(TimeSpan::new(0, 1_000_000_000).is_none());
    assert!(TimeSpan::new(0, u32::MAX).is_none());
    let a = TimeSpan::new(2, 100).unwrap();
    let b = TimeSpan::new(1, 999_999_999).unwrap();
    assert_eq!(a.as_nanos(), 2_000_000_100);
    let d = a.saturating_sub(&b);
    assert_eq!((d.secs(), d.subsec_nanos()), (0, 101));
    let z = b.saturating_sub(&a);
    assert_eq!((z.secs(), z.subsec_nanos()), (0, 0));
    let e = a.saturating_sub(&a);
    assert_eq!(e.as_nanos(), 0);
    let n = TimeSpan::from_nanos(u64::MAX);
    assert_eq!((n.secs(), n.subsec_nanos()), (18_446_744_073, 709_551_615));
    let w = TimeSpan::from_wide_nanos(u64::MAX as u128 * 1_000_000_000 + 999_999_999).unwrap();
    assert_eq!((w.secs(), w.subsec_nanos()), (u64::MAX, 999_999_999));
    assert!(TimeSpan::from_wide_nanos((u64::MAX as u128 + 1) * 1_000_000_000).is_none());
}
