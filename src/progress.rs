use vstd::prelude::*;
use vstd::arithmetic::div_mod::lemma_div_is_ordered;

verus! {

/// The share of a transfer that is done, in whole percent rounded half up,
/// held to `[0, 100]`; zero while the total is unknown.
pub open spec fn percent_done(downloaded: nat, total: nat) -> nat {
    if total == 0 {
        0
    } else {
        let p = (200 * downloaded + total) / (2 * total);
        if p > 100 {
            100
        } else {
            p
        }
    }
}

/// The percentage of one progress sample.
pub fn progress_percentage(downloaded: u64, total: u64) -> (r: u8)
    ensures
        r as nat == percent_done(downloaded as nat, total as nat),
{
    if total == 0 {
        return 0;
    }
    let num: u128 = 200 * (downloaded as u128) + (total as u128);
    let den: u128 = 2 * (total as u128);
    let p: u128 = num / den;
    if p > 100 {
        100
    } else {
        p as u8
    }
}

/// At a fixed total, more bytes never give a lower percentage; every
/// percentage lies in `[0, 100]`, and it is zero when the total is zero.
pub proof fn lemma_percent_monotone(d1: nat, d2: nat, total: nat)
    requires
        d1 <= d2,
    ensures
        percent_done(d1, total) <= percent_done(d2, total),
        percent_done(d1, total) <= 100,
        percent_done(d2, total) <= 100,
        total == 0 ==> percent_done(d1, total) == 0,
{
    if total > 0 {
        lemma_div_is_ordered((200 * d1 + total) as int, (200 * d2 + total) as int, (2 * total) as int);
    }
}

} // verus!
