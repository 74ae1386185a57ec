use vstd::prelude::*;

use crate::errors::ErrorCode;
use crate::state::Counter;
use crate::state::PdaAuth;

verus! {

/// Seconds that must elapse between two successful runs of a guarded action.
pub const COOLDOWN_SECONDS: i64 = 5 * 60;

/// Token amount released by each successful transfer.
pub const TRANSFER_AMOUNT: u64 = 1;

/// A guarded action may run at time `now` only if strictly more than
/// `COOLDOWN_SECONDS` have passed since `last`, the timestamp of its last
/// successful run.
pub open spec fn window_open(last: int, now: int) -> bool {
    now > last + COOLDOWN_SECONDS
}

/// Increment the counter, at most once per cooldown window.
///
/// At a current time `now` strictly beyond the cooldown after the record's
/// `last_modified`, the count grows by one and `last_modified` becomes `now`;
/// otherwise the record is untouched and the call reports `CannotAddYet`.
pub fn add_one(counter: &mut Counter, now: i64) -> (r: Result<(), ErrorCode>)
    requires
        old(counter).last_modified + COOLDOWN_SECONDS <= i64::MAX,
        window_open(old(counter).last_modified as int, now as int) ==> old(counter).counter < u64::MAX,
    ensures
        r is Ok <==> window_open(old(counter).last_modified as int, now as int),
        r is Ok ==> final(counter).counter == old(counter).counter + 1
            && final(counter).last_modified == now,
        r is Err ==> *final(counter) == *old(counter)
            && r == Err::<(), ErrorCode>(ErrorCode::CannotAddYet),
{
    if now > counter.last_modified + COOLDOWN_SECONDS {
        counter.last_modified = now;
        counter.counter = counter.counter + 1;
        Ok(())
    } else {
        Err(ErrorCode::CannotAddYet)
    }
}

/// Decide a token transfer, at most once per cooldown window.
///
/// At a current time `now` strictly beyond the cooldown after the record's
/// `last_transfer`, the record's timestamp becomes `now` and the call yields
/// the amount to move, always `TRANSFER_AMOUNT`; otherwise the record is
/// untouched and the call reports `CannotTransferYet`. The caller performs
/// the transfer of the returned amount.
pub fn transfer_one_token(pda_auth: &mut PdaAuth, now: i64) -> (r: Result<u64, ErrorCode>)
    requires
        old(pda_auth).last_transfer + COOLDOWN_SECONDS <= i64::MAX,
    ensures
        r is Ok <==> window_open(old(pda_auth).last_transfer as int, now as int),
        r is Ok ==> r == Ok::<u64, ErrorCode>(TRANSFER_AMOUNT)
            && final(pda_auth).last_transfer == now,
        r is Err ==> *final(pda_auth) == *old(pda_auth)
            && r == Err::<u64, ErrorCode>(ErrorCode::CannotTransferYet),
{
    if now > pda_auth.last_transfer + COOLDOWN_SECONDS {
        pda_auth.last_transfer = now;
        Ok(TRANSFER_AMOUNT)
    } else {
        Err(ErrorCode::CannotTransferYet)
    }
}

/// The rate limit these instructions enforce: once a guarded action has run
/// at time `now`, the window stays shut for every time up to and including
/// `now + COOLDOWN_SECONDS`, so no second run can succeed within it.
pub proof fn lemma_cooldown_rate_limit(now: i64, later: i64)
    requires
        later <= now + COOLDOWN_SECONDS,
    ensures
        !window_open(now as int, later as int),
{
}

} // verus!
