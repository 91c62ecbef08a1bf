//! Numbers at the guest boundary. The guest passes seconds and rates as
//! 64-bit IEEE 754 binary numbers; the host reads the bit pattern, which is
//! one sign bit, eleven exponent bits and fifty-two fraction bits, and
//! works on it with integers alone.

use vstd::prelude::*;
use vstd::arithmetic::power2::{
    lemma2_to64, lemma2_to64_rest, lemma_pow2_adds, lemma_pow2_pos,
    lemma_pow2_strictly_increases, lemma_pow2_unfold, pow2,
};
use crate::timer::{TimeSpan, NANOS_PER_SEC};
use crate::trap::Trap;

verus! {

/// Two to the power 52: the patterns below it are all fraction.
pub const FRACTION_LIMIT: u64 = 0x10_0000_0000_0000;

/// Two to the power 63: the patterns from it on have the sign bit set.
pub const SIGN_LIMIT: u64 = 0x8000_0000_0000_0000;

/// The shortest tick, one millisecond, in nanoseconds.
pub const MIN_TICK_NANOS: u64 = 1_000_000;

/// The longest tick, in nanoseconds.
pub const MAX_TICK_NANOS: u64 = 0xFFFF_FFFF_FFFF_FFFF;

/// Whether the sign bit is set.
pub open spec fn sign_set(bits: u64) -> bool {
    bits >= SIGN_LIMIT
}

/// The eleven exponent bits.
pub open spec fn exponent_field(bits: u64) -> u64 {
    (bits / FRACTION_LIMIT) % 2048
}

/// The fifty-two fraction bits.
pub open spec fn fraction_field(bits: u64) -> u64 {
    bits % FRACTION_LIMIT
}

/// Whether the pattern is a number: neither an infinity nor a NaN.
pub open spec fn is_finite(bits: u64) -> bool {
    exponent_field(bits) != 2047
}

/// Whether the pattern is zero, of either sign.
pub open spec fn is_zero(bits: u64) -> bool {
    exponent_field(bits) == 0 && fraction_field(bits) == 0
}

/// The significand of a finite pattern: its magnitude is
/// `significand * 2^(-down_shift)`.
pub open spec fn significand(bits: u64) -> nat {
    if exponent_field(bits) == 0 {
        fraction_field(bits) as nat
    } else {
        (fraction_field(bits) + FRACTION_LIMIT) as nat
    }
}

/// The power of two that the significand of a finite pattern is divided by;
/// negative where it is multiplied.
pub open spec fn down_shift(bits: u64) -> int {
    if exponent_field(bits) == 0 {
        1074
    } else {
        1075 - exponent_field(bits)
    }
}

/// The game time that a pattern stands for, in whole nanoseconds, rounded
/// down; nothing for an infinity, a NaN, a negative number, or a number of
/// seconds that no span holds. Negative zero is zero.
pub open spec fn game_time_nanos(bits: u64) -> Option<nat> {
    if !is_finite(bits) || (sign_set(bits) && !is_zero(bits)) {
        None
    } else if down_shift(bits) <= 0 {
        let secs = significand(bits) * pow2((-down_shift(bits)) as nat);
        if secs > u64::MAX {
            None
        } else {
            Some(secs * NANOS_PER_SEC as nat)
        }
    } else {
        Some((significand(bits) * NANOS_PER_SEC as nat) / pow2(down_shift(bits) as nat))
    }
}

/// The time of one tick at a rate of so many ticks per second, in whole
/// nanoseconds, rounded down, before any limit is applied.
pub open spec fn period_nanos(bits: u64) -> nat
    recommends
        is_finite(bits),
        !is_zero(bits),
{
    if down_shift(bits) <= 0 {
        (NANOS_PER_SEC as nat) / (significand(bits) * pow2((-down_shift(bits)) as nat))
    } else {
        (NANOS_PER_SEC as nat * pow2(down_shift(bits) as nat)) / significand(bits)
    }
}

/// A count of nanoseconds held between the shortest and the longest tick.
pub open spec fn clamp_tick(nanos: nat) -> nat {
    if nanos < MIN_TICK_NANOS {
        MIN_TICK_NANOS as nat
    } else if nanos > MAX_TICK_NANOS {
        MAX_TICK_NANOS as nat
    } else {
        nanos
    }
}

/// The tick that a rate asks for, in nanoseconds; nothing for a rate that is
/// an infinity, a NaN, zero or negative.
pub open spec fn tick_nanos(bits: u64) -> Option<nat> {
    if !is_finite(bits) || sign_set(bits) || is_zero(bits) {
        None
    } else {
        Some(clamp_tick(period_nanos(bits)))
    }
}

/// Which numbers are accepted: as a game time both zeros and nothing that
/// is negative, infinite or no number; as a tick rate neither zero nor
/// anything that is negative, infinite or no number; and every tick lies
/// between the shortest and the longest.
pub proof fn lemma_accepted_numbers(bits: u64)
    ensures
        is_zero(bits) ==> game_time_nanos(bits) == Some(0nat),
        !is_finite(bits) ==> game_time_nanos(bits) is None && tick_nanos(bits) is None,
        sign_set(bits) && !is_zero(bits) ==> game_time_nanos(bits) is None,
        sign_set(bits) || is_zero(bits) ==> tick_nanos(bits) is None,
        is_finite(bits) && !sign_set(bits) && !is_zero(bits) ==> tick_nanos(bits) is Some,
        is_finite(bits) && !sign_set(bits) && down_shift(bits) > 0 ==> game_time_nanos(bits)
            is Some,
        tick_nanos(bits) matches Some(n) ==> MIN_TICK_NANOS <= n <= MAX_TICK_NANOS,
{
    if is_zero(bits) {
        lemma_pow2_pos(1074);
        assert(significand(bits) == 0);
        assert(down_shift(bits) == 1074);
        assert((0nat * NANOS_PER_SEC as nat) / pow2(1074) == 0) by (nonlinear_arith)
            requires
                pow2(1074) > 0,
        ;
    }
}

/// The parts of a pattern: sign, exponent bits, fraction bits.
pub fn split_pattern(bits: u64) -> (parts: (bool, u64, u64))
    ensures
        parts.0 == sign_set(bits),
        parts.1 == exponent_field(bits),
        parts.2 == fraction_field(bits),
        parts.1 < 2048,
        parts.2 < FRACTION_LIMIT,
{
    (bits >= SIGN_LIMIT, (bits / FRACTION_LIMIT) % 2048, bits % FRACTION_LIMIT)
}

/// Two to the power `k`.
fn power_of_two(k: u32) -> (p: u128)
    requires
        k <= 100,
    ensures
        p == pow2(k as nat),
        1 <= p <= 0x10_0000_0000_0000_0000_0000_0000,
{
    proof {
        lemma_pow2_100();
        lemma2_to64();
    }
    let mut p: u128 = 1;
    let mut i: u32 = 0;
    while i < k
        invariant
            i <= k <= 100,
            p == pow2(i as nat),
            pow2(100) == 0x10_0000_0000_0000_0000_0000_0000,
        decreases k - i,
    {
        proof {
            lemma_pow2_unfold((i + 1) as nat);
            if i + 1 < 100 {
                lemma_pow2_strictly_increases((i + 1) as nat, 100);
            }
        }
        p = p * 2;
        i = i + 1;
    }
    proof {
        lemma_pow2_pos(k as nat);
        if k < 100 {
            lemma_pow2_strictly_increases(k as nat, 100);
        }
    }
    p
}

/// The powers of two that the decoding compares with.
proof fn lemma_pow2_100()
    ensures
        pow2(100) == 0x10_0000_0000_0000_0000_0000_0000,
        pow2(83) == 0x8_0000_0000_0000_0000_0000,
        pow2(94) == 0x4000_0000_0000_0000_0000_0000,
        pow2(12) == 4096,
{
    lemma2_to64();
    lemma2_to64_rest();
    lemma_pow2_adds(64, 36);
    lemma_pow2_adds(64, 19);
    lemma_pow2_adds(64, 30);
}

/// Reads a game time given in seconds. Accepts every finite number that is
/// not negative, negative zero included, up to the longest span; traps on
/// all others.
pub fn decode_game_time(bits: u64) -> (time: Result<TimeSpan, Trap>)
    ensures
        game_time_nanos(bits) is None ==> time == Err::<TimeSpan, Trap>(Trap::InvalidGameTime),
        game_time_nanos(bits) matches Some(n) ==> time is Ok && time->Ok_0.wf()
            && time->Ok_0.total_nanos() == n,
{
    let (negative, exponent, fraction) = split_pattern(bits);
    if exponent == 2047 || (negative && !(exponent == 0 && fraction == 0)) {
        return Err(Trap::InvalidGameTime);
    }
    let sig: u128 = if exponent == 0 {
        fraction as u128
    } else {
        (fraction + FRACTION_LIMIT) as u128
    };
    proof {
        lemma_pow2_100();
    }
    if exponent >= 1075 {
        let up: u64 = exponent - 1075;
        if up >= 12 {
            proof {
                let p = pow2(up as nat);
                if up > 12 {
                    lemma_pow2_strictly_increases(12, up as nat);
                }
                assert(sig * p >= 0x10_0000_0000_0000 * 4096) by (nonlinear_arith)
                    requires
                        sig >= 0x10_0000_0000_0000,
                        p >= 4096,
                ;
            }
            return Err(Trap::InvalidGameTime);
        }
        let p: u128 = power_of_two(up as u32);
        proof {
            if up < 11 {
                lemma_pow2_strictly_increases(up as nat, 11);
            }
            lemma2_to64();
            assert(sig * p <= 0x20_0000_0000_0000 * 2048) by (nonlinear_arith)
                requires
                    sig <= 0x20_0000_0000_0000,
                    p <= 2048,
            ;
        }
        let secs: u128 = sig * p;
        if secs > u64::MAX as u128 {
            return Err(Trap::InvalidGameTime);
        }
        match TimeSpan::new(secs as u64, 0) {
            Some(t) => Ok(t),
            None => Err(Trap::InvalidGameTime),
        }
    } else {
        let down: u64 = if exponent == 0 {
            1074
        } else {
            1075 - exponent
        };
        let scaled: u128 = sig * (NANOS_PER_SEC as u128);
        assert(scaled < 0x8_0000_0000_0000_0000_0000) by (nonlinear_arith)
            requires
                scaled == sig * 1_000_000_000,
                sig < 0x20_0000_0000_0000,
        ;
        if down >= 83 {
            proof {
                if down > 83 {
                    lemma_pow2_strictly_increases(83, down as nat);
                }
                vstd::arithmetic::div_mod::lemma_basic_div(
                    scaled as int,
                    pow2(down as nat) as int,
                );
            }
            return Ok(TimeSpan::from_nanos(0));
        }
        let p: u128 = power_of_two(down as u32);
        let nanos: u128 = scaled / p;
        proof {
            assert(nanos <= scaled) by (nonlinear_arith)
                requires
                    nanos == scaled / p,
                    p >= 1,
            ;
        }
        match TimeSpan::from_wide_nanos(nanos) {
            Some(t) => Ok(t),
            None => Err(Trap::InvalidGameTime),
        }
    }
}

/// Reads a tick rate given in ticks per second and gives the time of one
/// tick, held between the shortest and the longest tick. Traps on a rate
/// that is not a finite number above zero.
pub fn decode_tick_rate(bits: u64) -> (tick: Result<TimeSpan, Trap>)
    ensures
        tick_nanos(bits) is None ==> tick == Err::<TimeSpan, Trap>(Trap::InvalidTickRate),
        tick_nanos(bits) matches Some(n) ==> tick is Ok && tick->Ok_0.wf()
            && tick->Ok_0.total_nanos() == n,
{
    let (negative, exponent, fraction) = split_pattern(bits);
    if exponent == 2047 || negative || (exponent == 0 && fraction == 0) {
        return Err(Trap::InvalidTickRate);
    }
    let sig: u128 = if exponent == 0 {
        fraction as u128
    } else {
        (fraction + FRACTION_LIMIT) as u128
    };
    proof {
        lemma_pow2_100();
    }
    if exponent >= 1075 {
        proof {
            let p = pow2((exponent - 1075) as nat);
            lemma_pow2_pos((exponent - 1075) as nat);
            assert(sig * p >= 0x10_0000_0000_0000) by (nonlinear_arith)
                requires
                    sig >= 0x10_0000_0000_0000,
                    p >= 1,
            ;
            vstd::arithmetic::div_mod::lemma_basic_div(NANOS_PER_SEC as int, (sig * p) as int);
        }
        return Ok(TimeSpan::from_nanos(MIN_TICK_NANOS));
    }
    let down: u64 = if exponent == 0 {
        1074
    } else {
        1075 - exponent
    };
    if down >= 94 {
        proof {
            let p = pow2(down as nat);
            if down > 94 {
                lemma_pow2_strictly_increases(94, down as nat);
            }
            assert((1_000_000_000 * p) / (sig as nat) > 0xFFFF_FFFF_FFFF_FFFF) by (nonlinear_arith)
                requires
                    p >= 0x4000_0000_0000_0000_0000_0000,
                    0 < sig < 0x20_0000_0000_0000,
            ;
        }
        return Ok(TimeSpan::from_nanos(MAX_TICK_NANOS));
    }
    let p: u128 = power_of_two(down as u32);
    proof {
        if down < 93 {
            lemma_pow2_strictly_increases(down as nat, 93);
        }
        lemma_pow2_unfold(94);
        assert(1_000_000_000 * p < 0x1000_0000_0000_0000_0000_0000_0000_0000) by (nonlinear_arith)
            requires
                p <= 0x2000_0000_0000_0000_0000_0000,
        ;
    }
    let period: u128 = ((NANOS_PER_SEC as u128) * p) / sig;
    let held: u64 = if period < MIN_TICK_NANOS as u128 {
        MIN_TICK_NANOS
    } else if period > MAX_TICK_NANOS as u128 {
        MAX_TICK_NANOS
    } else {
        period as u64
    };
    Ok(TimeSpan::from_nanos(held))
}

} // verus!
