//! The rolling burn window: a counter that is reset, lazily, by the first
//! burn after the window has run out.

use crate::lenny_burning::msg::BurnedToday;
use vstd::prelude::*;

verus! {

/// Whether the window `w` of length `duration` has run out at the second
/// `now`: `now` lies beyond the window's start plus its length.
pub open spec fn expired(w: BurnedToday, duration: u64, now: u64) -> bool {
    now > w.latest_burned + duration
}

/// What counts as burned in `w` at the second `now`: nothing once the
/// window has run out.
pub open spec fn counted(w: BurnedToday, duration: u64, now: u64) -> u128 {
    if expired(w, duration, now) {
        0
    } else {
        w.amount
    }
}

/// The window after a burn of `amount` at the second `now` under `limit`,
/// or `None` where the burn would take the window over the limit. A window
/// that has run out is begun anew with this burn.
pub open spec fn rolled(w: BurnedToday, limit: u128, duration: u64, amount: u128, now: u64) -> Option<
    BurnedToday,
> {
    if expired(w, duration, now) {
        Some(BurnedToday { amount, latest_burned: now })
    } else if w.amount + amount > limit {
        None
    } else {
        Some(BurnedToday { amount: (w.amount + amount) as u128, latest_burned: w.latest_burned })
    }
}

/// Whether the window `w` has run out at the second `now`.
pub fn is_expired(w: &BurnedToday, duration: u64, now: u64) -> (b: bool)
    ensures
        b == expired(*w, duration, now),
{
    let end: u128 = w.latest_burned as u128 + duration as u128;
    now as u128 > end
}

/// Books a burn of `amount` at the second `now` into the window `w`.
pub fn roll(w: &BurnedToday, limit: u128, duration: u64, amount: u128, now: u64) -> (r: Option<
    BurnedToday,
>)
    ensures
        r == rolled(*w, limit, duration, amount, now),
{
    if is_expired(w, duration, now) {
        Some(BurnedToday { amount, latest_burned: now })
    } else {
        match w.amount.checked_add(amount) {
            Some(sum) => {
                if sum > limit {
                    None
                } else {
                    Some(BurnedToday { amount: sum, latest_burned: w.latest_burned })
                }
            },
            None => None,
        }
    }
}

/// The window after `n` burns of `amount` each, made at the second `now`
/// one after the other, beginning with an empty window that began at
/// `start`; `None` once a burn has been refused.
pub open spec fn after_burns(
    start: u64,
    limit: u128,
    duration: u64,
    amount: u128,
    now: u64,
    n: nat,
) -> Option<BurnedToday>
    decreases n,
{
    if n == 0 {
        Some(BurnedToday { amount: 0, latest_burned: start })
    } else {
        match after_burns(start, limit, duration, amount, now, (n - 1) as nat) {
            Some(w) => rolled(w, limit, duration, amount, now),
            None => None,
        }
    }
}

/// Burns of equal size within one window go through exactly as long as
/// their sum stays within the limit: after `n` burns of `amount` with
/// `n * amount <= limit` the window holds `n * amount`, and one more burn
/// goes through if `(n + 1) * amount` is still within the limit and is
/// refused if it is not.
pub proof fn lemma_window_fills(
    start: u64,
    limit: u128,
    duration: u64,
    amount: u128,
    now: u64,
    n: nat,
)
    requires
        n * amount <= limit,
        now <= start + duration,
    ensures
        after_burns(start, limit, duration, amount, now, n) == Some(
            BurnedToday { amount: (n * amount) as u128, latest_burned: start },
        ),
        (n + 1) * amount > limit ==> after_burns(start, limit, duration, amount, now, n + 1)
            is None,
        (n + 1) * amount <= limit ==> after_burns(start, limit, duration, amount, now, n + 1)
            == Some(BurnedToday { amount: ((n + 1) * amount) as u128, latest_burned: start }),
    decreases n,
{
    assert((n + 1) * amount == n * amount + amount) by (nonlinear_arith);
    if n > 0 {
        assert((n - 1) * amount <= n * amount) by (nonlinear_arith)
            requires
                n > 0,
        ;
        assert((n - 1) * amount + amount == n * amount) by (nonlinear_arith);
        lemma_window_fills(start, limit, duration, amount, now, (n - 1) as nat);
    } else {
        assert(0 * amount == 0) by (nonlinear_arith);
    }
}

/// Once the window has run out the counter starts over: whatever the
/// window held, the next burn goes through and the window holds just that
/// burn, from now on.
pub proof fn lemma_window_resets(w: BurnedToday, limit: u128, duration: u64, amount: u128, now: u64)
    requires
        now > w.latest_burned + duration,
    ensures
        counted(w, duration, now) == 0,
        rolled(w, limit, duration, amount, now) == Some(
            BurnedToday { amount, latest_burned: now },
        ),
{
}

} // verus!
