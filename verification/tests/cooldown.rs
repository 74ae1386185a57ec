use bankrun_counter::add_one;
use bankrun_counter::transfer_one_token;
use bankrun_counter::Counter;
use bankrun_counter::ErrorCode;
use bankrun_counter::PdaAuth;
use bankrun_counter::COOLDOWN_SECONDS;
use bankrun_counter::TRANSFER_AMOUNT;

#[test]
fn fresh_counter_increments_after_window() {
    let mut c = Counter::new();
    assert_eq!(c.counter, 0);
    assert_eq!(c.last_modified, 0);
    let r = add_one(&mut c, 301);
    assert_eq!(r, Ok(()));
    assert_eq!(c.counter, 1);
    assert_eq!(c.last_modified, 301);
}

#[test]
fn add_refused_at_window_boundary() {
    let mut c = Counter { counter: 7, last_modified: 1000 };
    // exactly COOLDOWN_SECONDS later: still refused, the bound is strict
    let r = add_one(&mut c, 1000 + COOLDOWN_SECONDS);
    assert_eq!(r, Err(ErrorCode::CannotAddYet));
    assert_eq!(c, Counter { counter: 7, last_modified: 1000 });
    // one second past the boundary: allowed
    let r = add_one(&mut c, 1000 + COOLDOWN_SECONDS + 1);
    assert_eq!(r, Ok(()));
    assert_eq!(c, Counter { counter: 8, last_modified: 1301 });
}

#[test]
fn second_add_within_window_refused() {
    let mut c = Counter::new();
    assert_eq!(add_one(&mut c, 400), Ok(()));
    assert_eq!(add_one(&mut c, 600), Err(ErrorCode::CannotAddYet));
    assert_eq!(c.counter, 1);
    assert_eq!(c.last_modified, 400);
    assert_eq!(add_one(&mut c, 701), Ok(()));
    assert_eq!(c.counter, 2);
}

#[test]
fn add_works_with_negative_timestamps() {
    let mut c = Counter { counter: 0, last_modified: -1000 };
    assert_eq!(add_one(&mut c, -700), Err(ErrorCode::CannotAddYet));
    assert_eq!(add_one(&mut c, -699), Ok(()));
    assert_eq!(c.last_modified, -699);
}

#[test]
fn transfer_yields_fixed_amount_after_window() {
    let mut p = PdaAuth::new();
    assert_eq!(p.last_transfer, 0);
    let r = transfer_one_token(&mut p, 301);
    assert_eq!(r, Ok(TRANSFER_AMOUNT));
    assert_eq!(r, Ok(1));
    assert_eq!(p.last_transfer, 301);
}

#[test]
fn transfer_refused_within_window() {
    let mut p = PdaAuth { last_transfer: 5000 };
    let r = transfer_one_token(&mut p, 5000 + COOLDOWN_SECONDS);
    assert_eq!(r, Err(ErrorCode::CannotTransferYet));
    assert_eq!(p.last_transfer, 5000);
    let r = transfer_one_token(&mut p, 5000 + COOLDOWN_SECONDS + 1);
    assert_eq!(r, Ok(1));
    assert_eq!(p.last_transfer, 5301);
}

#[test]
fn error_messages() {
    assert_eq!(
        ErrorCode::CannotAddYet.message(),
        "must pass 5 minutes since last add"
    );
    assert_eq!(
        ErrorCode::CannotTransferYet.message(),
        "must pass 5 minutes since last transfer"
    );
}

#[test]
fn cooldown_is_five_minutes() {
    assert_eq!(COOLDOWN_SECONDS, 300);
}
