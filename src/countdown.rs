//! The countdown model: a start instant, a duration, and what remains of it.
//!
//! Instants are milliseconds on a monotonic clock chosen by the caller;
//! durations are milliseconds too.

use vstd::prelude::*;

use crate::text::{decimal, digit_char, push_decimal};

verus! {

/// Milliseconds between `start` and `now`; zero when `now` lies before `start`.
pub open spec fn elapsed_ms(start: u64, now: u64) -> nat {
    if now >= start {
        (now - start) as nat
    } else {
        0
    }
}

/// What a countdown of `duration` ms started at `start` shows at `now`: the time
/// left, zero once it ran out, or nothing once it ran out and is to be hidden.
pub open spec fn remaining_at(start: u64, duration: u64, now: u64, hide_on_expiry: bool) -> Option<u64> {
    let e = elapsed_ms(start, now);
    if e >= duration {
        if hide_on_expiry {
            None
        } else {
            Some(0)
        }
    } else {
        Some((duration - e) as u64)
    }
}

/// The whole percentage of the countdown that has elapsed at `now`, at most 100.
/// A countdown of length zero is complete at once.
pub open spec fn percentage_at(start: u64, duration: u64, now: u64) -> nat {
    let e = elapsed_ms(start, now);
    if e >= duration {
        100
    } else {
        e * 100 / (duration as nat)
    }
}

/// A countdown: when it started and for how long (`run`), and the remaining time
/// last computed by `tick`. `run` is `None` until a duration is set.
pub struct Countdown {
    pub run: Option<(u64, u64)>,
    pub remaining_ms: Option<u64>,
}

impl Countdown {
    /// A countdown with no duration set.
    pub fn new() -> (r: Countdown)
        ensures
            r.run is None,
            r.remaining_ms is None,
    {
        Countdown { run: None, remaining_ms: None }
    }

    /// Starts (or restarts) the countdown at `now_ms` for `duration_ms`.
    pub fn set_duration(&mut self, duration_ms: u64, now_ms: u64)
        ensures
            final(self).run == Some((now_ms, duration_ms)),
            final(self).remaining_ms == Some(duration_ms),
    {
        self.run = Some((now_ms, duration_ms));
        self.remaining_ms = Some(duration_ms);
    }

    /// Recomputes the remaining time as seen at `now_ms`; does nothing while no
    /// duration is set.
    pub fn tick(&mut self, now_ms: u64, hide_on_expiry: bool)
        ensures
            final(self).run == old(self).run,
            final(self).remaining_ms == match old(self).run {
                None => old(self).remaining_ms,
                Some((start, duration)) => remaining_at(start, duration, now_ms, hide_on_expiry),
            },
    {
        if let Some((start, duration)) = self.run {
            let elapsed: u64 = now_ms.saturating_sub(start);
            if elapsed >= duration {
                if hide_on_expiry {
                    self.remaining_ms = None;
                } else {
                    self.remaining_ms = Some(0);
                }
            } else {
                self.remaining_ms = Some(duration - elapsed);
            }
        }
    }

    /// The elapsed share of the countdown at `now_ms`, in whole percent;
    /// `None` while no duration is set.
    pub fn percentage(&self, now_ms: u64) -> (r: Option<u16>)
        ensures
            r == match self.run {
                None => None,
                Some((start, duration)) => Some(percentage_at(start, duration, now_ms) as u16),
            },
            r matches Some(p) ==> p <= 100,
    {
        match self.run {
            None => None,
            Some((start, duration)) => {
                let elapsed: u64 = now_ms.saturating_sub(start);
                if elapsed >= duration {
                    Some(100)
                } else {
                    let scaled: u128 = (elapsed as u128) * 100;
                    let p: u128 = scaled / (duration as u128);
                    proof {
                        lemma_share_below_hundred(elapsed as nat, duration as nat);
                    }
                    Some(p as u16)
                }
            },
        }
    }
}

/// Before expiry a tick shows exactly the duration less the elapsed time.
pub proof fn lemma_counts_down(start: u64, duration: u64, now: u64, hide_on_expiry: bool)
    requires
        duration > 0,
        elapsed_ms(start, now) < duration,
    ensures
        remaining_at(start, duration, now, hide_on_expiry) == Some(
            (duration - elapsed_ms(start, now)) as u64,
        ),
{
}

/// Once the duration has elapsed a tick shows zero, or nothing when the timer is
/// to be hidden, and every later tick shows the same: there is no rebound.
pub proof fn lemma_expiry_is_final(
    start: u64,
    duration: u64,
    now: u64,
    later: u64,
    hide_on_expiry: bool,
)
    requires
        duration > 0,
        elapsed_ms(start, now) >= duration,
        now <= later,
    ensures
        remaining_at(start, duration, now, hide_on_expiry) == (if hide_on_expiry {
            None
        } else {
            Some(0u64)
        }),
        remaining_at(start, duration, later, hide_on_expiry) == remaining_at(
            start,
            duration,
            now,
            hide_on_expiry,
        ),
{
}

/// For a fixed start and duration the remaining time never grows as time goes
/// on; once hidden it stays hidden.
pub proof fn lemma_remaining_never_grows(
    start: u64,
    duration: u64,
    now: u64,
    later: u64,
    hide_on_expiry: bool,
)
    requires
        now <= later,
    ensures
        match (
            remaining_at(start, duration, now, hide_on_expiry),
            remaining_at(start, duration, later, hide_on_expiry),
        ) {
            (Some(a), Some(b)) => b <= a,
            (None, b) => b is None,
            (Some(_), None) => hide_on_expiry,
        },
{
}

/// For a fixed start and duration the elapsed percentage never decreases as
/// time goes on, and never exceeds 100.
pub proof fn lemma_percentage_monotone(start: u64, duration: u64, now: u64, later: u64)
    requires
        now <= later,
    ensures
        percentage_at(start, duration, now) <= percentage_at(start, duration, later),
        percentage_at(start, duration, later) <= 100,
{
    let e1 = elapsed_ms(start, now);
    let e2 = elapsed_ms(start, later);
    assert(e1 <= e2);
    if e2 < duration {
        assert(e1 * 100 <= e2 * 100) by (nonlinear_arith)
            requires
                e1 <= e2,
        ;
        vstd::arithmetic::div_mod::lemma_div_is_ordered(
            (e1 * 100) as int,
            (e2 * 100) as int,
            duration as int,
        );
        lemma_share_below_hundred(e2, duration as nat);
    } else if e1 < duration {
        lemma_share_below_hundred(e1, duration as nat);
    }
}

/// The decimal form of `n`, padded with a leading zero to two digits.
pub open spec fn two_digits(n: nat) -> Seq<char> {
    if n < 10 {
        seq!['0', digit_char(n)]
    } else {
        decimal(n)
    }
}

/// A duration in whole minutes and seconds, `MM:SS`; minutes are not capped.
pub open spec fn clock_text(duration_ms: nat) -> Seq<char> {
    let secs = duration_ms / 1000;
    two_digits(secs / 60) + seq![':'] + two_digits(secs % 60)
}

/// Appends `n` padded to two digits to `out`.
fn push_two_digits(out: &mut String, n: u64)
    ensures
        final(out)@ == old(out)@ + two_digits(n as nat),
{
    if n < 10 {
        out.append("0");
        proof {
            reveal_strlit("0");
        }
    }
    push_decimal(out, n);
    assert(out@ =~= old(out)@ + two_digits(n as nat));
}

/// Formats a duration as `MM:SS`, whole seconds only.
pub fn format_duration(duration_ms: u64) -> (r: String)
    ensures
        r@ == clock_text(duration_ms as nat),
{
    let secs: u64 = duration_ms / 1000;
    let mut out = String::new();
    push_two_digits(&mut out, secs / 60);
    out.append(":");
    proof {
        reveal_strlit(":");
    }
    push_two_digits(&mut out, secs % 60);
    assert(out@ =~= clock_text(duration_ms as nat));
    out
}

proof fn lemma_share_below_hundred(e: nat, d: nat)
    requires
        e < d,
    ensures
        e * 100 / d < 100,
{
    assert(e * 100 < d * 100) by (nonlinear_arith)
        requires
            e < d,
    ;
    vstd::arithmetic::div_mod::lemma_multiply_divide_lt((e * 100) as int, d as int, 100);
}

} // verus!
