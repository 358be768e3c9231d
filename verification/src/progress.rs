//! The Reporter's arithmetic: the estimated search space, throughput and
//! remaining-time estimates, and the exact text of the progress line. All of
//! it is integer arithmetic; divisions by zero are ruled out by contract and
//! guarded by the `None` outcome.

use vstd::prelude::*;
use crate::text::{centi_str, dec_str, render_centi, u128_to_decimal};

verus! {

/// The alphabet size raised to the power `n`: the number of suffixes of `n`
/// free characters.
pub open spec fn pow32(n: nat) -> nat
    decreases n,
{
    if n == 0 {
        1
    } else {
        32 * pow32((n - 1) as nat)
    }
}

/// `pow32(n)`, saturating at the largest representable value. The estimate
/// serves progress percentages only, so saturation is harmless.
pub open spec fn pow32_capped(n: nat) -> nat {
    if pow32(n) <= u128::MAX {
        pow32(n)
    } else {
        u128::MAX as nat
    }
}

pub proof fn lemma_pow32_pos(n: nat)
    ensures
        pow32(n) >= 1,
    decreases n,
{
    if n > 0 {
        lemma_pow32_pos((n - 1) as nat);
    }
}

pub proof fn lemma_pow32_mono(a: nat, b: nat)
    requires
        a <= b,
    ensures
        pow32(a) <= pow32(b),
    decreases b,
{
    if a < b {
        lemma_pow32_mono(a, (b - 1) as nat);
        lemma_pow32_pos((b - 1) as nat);
    }
}

/// Computes the estimated search space for `free` free characters:
/// `32^free`, saturating at the largest representable value.
pub fn pow32_saturating(free: usize) -> (r: u128)
    ensures
        r as nat == pow32_capped(free as nat),
        r >= 1,
{
    let mut r: u128 = 1;
    let mut i: usize = 0;
    while i < free
        invariant
            0 <= i <= free,
            r as nat == pow32(i as nat),
            1 <= r,
        decreases free - i,
    {
        if r > u128::MAX / 32 {
            proof {
                assert(32 * (r as nat) > u128::MAX);
                assert(pow32((i + 1) as nat) == 32 * pow32(i as nat));
                lemma_pow32_mono((i + 1) as nat, free as nat);
            }
            return u128::MAX;
        }
        r = r * 32;
        i += 1;
    }
    proof {
        lemma_pow32_pos(free as nat);
    }
    r
}

/// Average throughput in whole candidates per second.
pub open spec fn speed_of(count: nat, elapsed_ms: nat) -> nat
    recommends
        elapsed_ms > 0,
{
    (count * 1000) / elapsed_ms
}

/// Average throughput in hundredths of a candidate per second, for display
/// with two fractional digits.
pub open spec fn speed_centi_of(count: nat, elapsed_ms: nat) -> nat
    recommends
        elapsed_ms > 0,
{
    (count * 100000) / elapsed_ms
}

/// Estimated completion in hundredths of a percent.
pub open spec fn percent_centi_of(count: nat, space: nat) -> nat
    recommends
        space > 0,
{
    (count * 10000) / space
}

/// Candidates still to evaluate, by the estimate.
pub open spec fn remaining_of(count: nat, space: nat) -> nat {
    if space > count {
        (space - count) as nat
    } else {
        0
    }
}

/// Estimated whole seconds left.
pub open spec fn seconds_left_of(count: nat, elapsed_ms: nat, space: nat) -> nat
    recommends
        elapsed_ms > 0,
        speed_of(count, elapsed_ms) > 0,
{
    remaining_of(count, space) / speed_of(count, elapsed_ms)
}

/// `sec` seconds in hundredths of a minute, saturating at the largest
/// representable value.
pub open spec fn centi_min_of_sec(sec: nat) -> nat {
    let v = (sec / 60) * 100 + ((sec % 60) * 100) / 60;
    if v <= u128::MAX {
        v
    } else {
        u128::MAX as nat
    }
}

/// Converts whole seconds to hundredths of a minute, saturating.
pub fn sec_to_centi_min(sec: u128) -> (r: u128)
    ensures
        r as nat == centi_min_of_sec(sec as nat),
{
    let w = sec / 60;
    let c = (sec % 60) * 100 / 60;
    if w <= (u128::MAX - c) / 100 {
        proof {
            assert((w as nat) * 100 + c <= u128::MAX) by (nonlinear_arith)
                requires
                    w <= (u128::MAX - c) / 100,
                    c <= 98,
            ;
        }
        w * 100 + c
    } else {
        proof {
            assert((w as nat) * 100 + c > u128::MAX) by (nonlinear_arith)
                requires
                    w > (u128::MAX - c) / 100,
                    c <= 98,
            ;
        }
        u128::MAX
    }
}

/// The exact text of one progress line: the shared count, the elapsed
/// minutes, the throughput, the estimated completion percentage and the
/// estimated minutes left, each fixed-point quantity with two fractional
/// digits.
pub open spec fn progress_text(count: nat, elapsed_ms: nat, space: nat) -> Seq<char>
    recommends
        elapsed_ms > 0,
        space > 0,
        speed_of(count, elapsed_ms) > 0,
{
    "count: "@ + dec_str(count) + "\telapsed: "@ + centi_str(elapsed_ms / 600) + "min\tspeed: "@
        + centi_str(speed_centi_of(count, elapsed_ms)) + "/s\tprogress(est): "@
        + centi_str(percent_centi_of(count, space)) + "%\tleft(est): "@
        + centi_str(centi_min_of_sec(seconds_left_of(count, elapsed_ms, space))) + "min"@
}

/// Builds the periodic progress line from the shared count, the elapsed
/// wall-clock time and the estimated search space. Returns `None` exactly
/// while no throughput is estimable — no time elapsed yet, or under one
/// candidate per second — rather than dividing by zero.
pub fn progress_line(count: u64, elapsed_ms: u64, space: u128) -> (r: Option<String>)
    requires
        space >= 1,
    ensures
        r is None <==> (elapsed_ms == 0 || speed_of(count as nat, elapsed_ms as nat) == 0),
        r matches Some(line) ==> line@ == progress_text(
            count as nat,
            elapsed_ms as nat,
            space as nat,
        ),
{
    if elapsed_ms == 0 {
        return None;
    }
    let speed: u128 = (count as u128) * 1000 / (elapsed_ms as u128);
    if speed == 0 {
        return None;
    }
    let speed_centi: u128 = (count as u128) * 100000 / (elapsed_ms as u128);
    let elapsed_centi_min: u128 = (elapsed_ms as u128) / 600;
    let percent: u128 = (count as u128) * 10000 / space;
    let remaining: u128 = if space > count as u128 {
        space - count as u128
    } else {
        0
    };
    let left_sec: u128 = remaining / speed;
    let left_centi_min: u128 = sec_to_centi_min(left_sec);
    let count_text = u128_to_decimal(count as u128);
    let elapsed_text = render_centi(elapsed_centi_min);
    let speed_text = render_centi(speed_centi);
    let percent_text = render_centi(percent);
    let left_text = render_centi(left_centi_min);
    let mut line = String::from_str("count: ");
    line.append(count_text.as_str());
    line.append("\telapsed: ");
    line.append(elapsed_text.as_str());
    line.append("min\tspeed: ");
    line.append(speed_text.as_str());
    line.append("/s\tprogress(est): ");
    line.append(percent_text.as_str());
    line.append("%\tleft(est): ");
    line.append(left_text.as_str());
    line.append("min");
    proof {
        assert(line@ =~= progress_text(count as nat, elapsed_ms as nat, space as nat));
    }
    Some(line)
}

} // verus!
