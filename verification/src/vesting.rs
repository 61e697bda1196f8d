//! The vesting calculator: how much of a stream's amount the payee is
//! entitled to have withdrawn at a given instant.
//!
//! Before the end of the stream, entitlement vests in whole ticks: the
//! amount is divided evenly over the total number of ticks, the remainder
//! of that division is withheld, and only the ticks that have fully
//! elapsed count. At or after the end, the full amount is entitled, which
//! releases the withheld remainder in one step.

use vstd::arithmetic::div_mod::lemma_div_is_ordered;
use vstd::arithmetic::div_mod::lemma_div_is_ordered_by_denominator;
use vstd::arithmetic::div_mod::lemma_div_pos_is_pos;
use vstd::arithmetic::div_mod::lemma_fundamental_div_mod;
use vstd::arithmetic::div_mod::lemma_fundamental_div_mod_converse;
use vstd::arithmetic::div_mod::lemma_mod_bound;
use vstd::arithmetic::mul::lemma_mul_inequality;
use vstd::arithmetic::mul::lemma_mul_is_commutative;
use vstd::arithmetic::mul::lemma_mul_nonnegative;
use vstd::prelude::*;

use crate::stream::Stream;

verus! {

/// How many ticks the stream's window holds: the tick count that covers
/// the whole window, a partial final tick counting as one.
pub open spec fn total_ticks(s: Stream) -> int {
    let d = s.end_time - s.start_time;
    let t = s.tick_time as int;
    if d % t == 0 {
        d / t
    } else {
        d / t + 1
    }
}

/// The amount released by each fully elapsed tick. The remainder of the
/// division stays withheld until the end of the stream.
pub open spec fn amount_per_tick(s: Stream) -> int {
    s.amount as int / total_ticks(s)
}

/// How many ticks have fully elapsed at `now`; none before the start.
pub open spec fn elapsed_ticks(s: Stream, now: u64) -> int {
    if now <= s.start_time {
        0
    } else {
        (now - s.start_time) / (s.tick_time as int)
    }
}

/// The cumulative amount the payee is entitled to have withdrawn at `now`.
pub open spec fn entitled(s: Stream, now: u64) -> int {
    if now >= s.end_time {
        s.amount as int
    } else {
        amount_per_tick(s) * elapsed_ticks(s, now)
    }
}

/// A well-formed stream has at least one tick.
pub proof fn lemma_total_ticks_pos(s: Stream)
    requires
        s.wf(),
    ensures
        total_ticks(s) >= 1,
{
    let d = s.end_time - s.start_time;
    let t = s.tick_time as int;
    lemma_div_pos_is_pos(d, t);
    if d % t == 0 {
        lemma_fundamental_div_mod(d, t);
        assert(d / t >= 1) by (nonlinear_arith)
            requires
                d == t * (d / t),
                d >= 1,
                t >= 1,
        ;
    }
}

/// Strictly inside the window, fewer ticks have elapsed than the window holds.
pub proof fn lemma_elapsed_lt_total(s: Stream, now: u64)
    requires
        s.wf(),
        now < s.end_time,
    ensures
        0 <= elapsed_ticks(s, now) < total_ticks(s),
{
    let d = s.end_time - s.start_time;
    let t = s.tick_time as int;
    lemma_total_ticks_pos(s);
    if now <= s.start_time {
    } else {
        let e = now - s.start_time;
        lemma_div_pos_is_pos(e, t);
        lemma_div_is_ordered(e, d - 1, t);
        if d % t == 0 {
            lemma_fundamental_div_mod(d, t);
            assert(d - 1 == (d / t - 1) * t + (t - 1)) by (nonlinear_arith)
                requires
                    d == t * (d / t),
                    t >= 1,
            ;
            lemma_fundamental_div_mod_converse(d - 1, t, d / t - 1, t - 1);
        } else {
            lemma_div_is_ordered(d - 1, d, t);
        }
    }
}

/// The entitlement never leaves the escrowed range: it lies between 0 and
/// the stream's amount at every instant.
pub proof fn lemma_entitled_bounds(s: Stream, now: u64)
    requires
        s.wf(),
    ensures
        0 <= entitled(s, now) <= s.amount,
{
    if now < s.end_time {
        let apt = amount_per_tick(s);
        let el = elapsed_ticks(s, now);
        let tt = total_ticks(s);
        lemma_total_ticks_pos(s);
        lemma_elapsed_lt_total(s, now);
        lemma_div_pos_is_pos(s.amount as int, tt);
        lemma_mul_nonnegative(apt, el);
        lemma_mul_inequality(el, tt, apt);
        lemma_mul_is_commutative(apt, el);
        lemma_mul_is_commutative(apt, tt);
        lemma_fundamental_div_mod(s.amount as int, tt);
        lemma_mod_bound(s.amount as int, tt);
    }
}

/// Entitlement is monotone in time: waiting never reduces what the payee
/// may withdraw.
pub proof fn lemma_entitled_monotonic(s: Stream, now1: u64, now2: u64)
    requires
        s.wf(),
        now1 <= now2,
    ensures
        entitled(s, now1) <= entitled(s, now2),
{
    if now1 >= s.end_time {
    } else if now2 >= s.end_time {
        lemma_entitled_bounds(s, now1);
    } else {
        let t = s.tick_time as int;
        let apt = amount_per_tick(s);
        let el1 = elapsed_ticks(s, now1);
        let el2 = elapsed_ticks(s, now2);
        lemma_total_ticks_pos(s);
        lemma_div_pos_is_pos(s.amount as int, total_ticks(s));
        if now1 <= s.start_time {
            if now2 > s.start_time {
                lemma_div_pos_is_pos(now2 - s.start_time, t);
            }
        } else {
            lemma_div_is_ordered(now1 - s.start_time, now2 - s.start_time, t);
        }
        lemma_mul_inequality(el1, el2, apt);
        lemma_mul_is_commutative(apt, el1);
        lemma_mul_is_commutative(apt, el2);
    }
}

/// At or after the end of the stream the full amount is entitled, so no
/// unit of the escrow is ever permanently withheld.
pub proof fn lemma_entitled_full_at_end(s: Stream, now: u64)
    requires
        now >= s.end_time,
    ensures
        entitled(s, now) == s.amount,
{
}

/// Computes [`entitled`]: the cumulative entitlement of the payee at `now`.
pub fn entitled_at(s: &Stream, now: u64) -> (r: u64)
    requires
        s.wf(),
    ensures
        r as int == entitled(*s, now),
{
    if now >= s.end_time {
        return s.amount;
    }
    if now <= s.start_time {
        return 0;
    }
    let duration = s.end_time - s.start_time;
    let mut ticks = duration / s.tick_time;
    if duration % s.tick_time != 0 {
        proof {
            if s.tick_time == 1 {
                assert(duration as int % 1int == 0);
            }
            lemma_div_is_ordered_by_denominator(duration as int, 2, s.tick_time as int);
            lemma_div_is_ordered(duration as int, u64::MAX as int, 2);
        }
        ticks = ticks + 1;
    }
    proof {
        lemma_total_ticks_pos(*s);
        assert(ticks as int == total_ticks(*s));
    }
    let per_tick = s.amount / ticks;
    let elapsed = (now - s.start_time) / s.tick_time;
    proof {
        lemma_entitled_bounds(*s, now);
        assert(per_tick as int == amount_per_tick(*s));
        assert(elapsed as int == elapsed_ticks(*s, now));
    }
    per_tick * elapsed
}

} // verus!
