//! The gateway's guarantees across whole runs of requests.
//!
//! The contracts on `Contract::mint` pin down one request at a time: a
//! granted same-day request moves the committed global total by exactly
//! `commit_global`, and moves the recipient's record by exactly
//! `grant_amount`. The proofs here extend those single steps to arbitrary
//! sequences of requests within one day window.

use vstd::prelude::*;

use crate::commit_global;
use crate::grant_amount;
use crate::live_minted;
use crate::storage::UserDailyMint;

verus! {

/// The sum of a sequence of requested amounts.
pub open spec fn amount_sum(amounts: Seq<u128>) -> int
    decreases amounts.len(),
{
    if amounts.len() == 0 {
        0
    } else {
        amounts[0] + amount_sum(amounts.drop_first())
    }
}

/// The committed global total after a run of same-day requests, each one
/// passing the hard global cap in turn; nothing as soon as one is rejected.
pub open spec fn commit_run(daily: u128, amounts: Seq<u128>, quota: u128) -> Option<u128>
    decreases amounts.len(),
{
    if amounts.len() == 0 {
        Some(daily)
    } else {
        match commit_global(daily, amounts[0], quota) {
            Some(d) => commit_run(d, amounts.drop_first(), quota),
            None => None,
        }
    }
}

/// An account's recorded daily total after a run of same-day requests, each
/// granted under the per-account soft cap in turn.
pub open spec fn grant_run(minted: u128, requests: Seq<u128>, quota: u128) -> u128
    decreases requests.len(),
{
    if requests.len() == 0 {
        minted
    } else {
        let granted = grant_amount(minted, requests[0], quota);
        grant_run((minted + granted) as u128, requests.drop_first(), quota)
    }
}

/// Within one day window, after any sequence of granted requests the
/// committed global total is the starting total plus the sum of all the
/// requested amounts, and it never exceeds the global quota. (The request
/// that would exceed it is the one on which `commit_global` returns
/// nothing, and `mint`'s contract then leaves the stored total at its
/// pre-request value.)
pub proof fn lemma_global_cap_over_run(daily: u128, amounts: Seq<u128>, quota: u128)
    requires
        daily <= quota,
        commit_run(daily, amounts, quota) is Some,
    ensures
        commit_run(daily, amounts, quota)->Some_0 == daily + amount_sum(amounts),
        daily + amount_sum(amounts) <= quota,
    decreases amounts.len(),
{
    if amounts.len() > 0 {
        let first = commit_global(daily, amounts[0], quota);
        assert(first is Some);
        lemma_global_cap_over_run(first->Some_0, amounts.drop_first(), quota);
    }
}

/// Within one day window, an account's recorded total never exceeds the
/// per-account quota, however many requests are granted; once the quota is
/// reached, every further request is granted zero rather than rejected, and
/// the record stays where it is.
pub proof fn lemma_user_cap_over_run(minted: u128, requests: Seq<u128>, quota: u128)
    requires
        minted <= quota,
    ensures
        grant_run(minted, requests, quota) <= quota,
        minted == quota ==> grant_run(minted, requests, quota) == minted,
        forall|r: u128| minted >= quota ==> #[trigger] grant_amount(minted, r, quota) == 0,
    decreases requests.len(),
{
    if requests.len() > 0 {
        let granted = grant_amount(minted, requests[0], quota);
        lemma_user_cap_over_run((minted + granted) as u128, requests.drop_first(), quota);
    }
}

/// On a new day an account's grant is computed from zero: a record stored
/// under any other day contributes nothing, so the grant is the same as for
/// an account with no record at all, whatever the old total was.
pub proof fn lemma_new_day_ignores_old_total(
    rec: UserDailyMint,
    day: u64,
    requested: u128,
    quota: u128,
)
    requires
        rec.day != day,
    ensures
        live_minted(Some(rec), day) == 0,
        grant_amount(live_minted(Some(rec), day), requested, quota) == grant_amount(
            live_minted(Option::<UserDailyMint>::None, day),
            requested,
            quota,
        ),
{
}

} // verus!
