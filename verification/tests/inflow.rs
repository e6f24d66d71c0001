use wallet_fanout::errors::ErrorCode;
use wallet_fanout::state::{FanoutV0, TokenInflowV0};

fn shares(total: u32, issued: u32) -> FanoutV0 {
    FanoutV0 { total_shares: total, total_shares_issued: issued, ..FanoutV0::default() }
}

fn inflow(total_inflow: u64, last_snapshot_amount: u64) -> TokenInflowV0 {
    TokenInflowV0 { total_inflow, last_snapshot_amount, ..TokenInflowV0::default() }
}

#[test]
fn fully_issued_shares_add_no_correction() {
    let mut token_inflow = inflow(0, 0);
    assert_eq!(token_inflow.update_total_inflow(1000, &shares(100, 100)), Ok(()));
    assert_eq!(token_inflow, inflow(1000, 1000));
}

#[test]
fn half_issued_shares_double_the_inflow() {
    let mut token_inflow = inflow(0, 0);
    assert_eq!(token_inflow.update_total_inflow(1000, &shares(100, 50)), Ok(()));
    assert_eq!(token_inflow, inflow(2000, 1000));
}

#[test]
fn correction_is_rounded_down() {
    // 10 * (7 - 3) / 3 = 13
    let mut token_inflow = inflow(5, 2);
    assert_eq!(token_inflow.update_total_inflow(12, &shares(7, 3)), Ok(()));
    assert_eq!(token_inflow, inflow(5 + 10 + 13, 12));
}

#[test]
fn unchanged_balance_changes_nothing() {
    let mut token_inflow = inflow(77, 40);
    assert_eq!(token_inflow.update_total_inflow(40, &shares(9, 4)), Ok(()));
    assert_eq!(token_inflow, inflow(77, 40));
}

#[test]
fn fallen_balance_is_refused() {
    let mut token_inflow = inflow(77, 40);
    assert_eq!(
        token_inflow.update_total_inflow(39, &shares(9, 4)),
        Err(ErrorCode::ArithmeticError)
    );
    assert_eq!(token_inflow, inflow(77, 40));
}

#[test]
fn no_issued_shares_is_refused() {
    let mut token_inflow = inflow(0, 0);
    assert_eq!(
        token_inflow.update_total_inflow(10, &shares(9, 0)),
        Err(ErrorCode::ArithmeticError)
    );
    assert_eq!(token_inflow, inflow(0, 0));
}

#[test]
fn more_issued_than_total_is_refused() {
    let mut token_inflow = inflow(0, 0);
    assert_eq!(
        token_inflow.update_total_inflow(10, &shares(9, 10)),
        Err(ErrorCode::ArithmeticError)
    );
    assert_eq!(token_inflow, inflow(0, 0));
}

#[test]
fn total_that_does_not_fit_is_refused() {
    let mut token_inflow = inflow(u64::MAX - 5, 0);
    assert_eq!(
        token_inflow.update_total_inflow(6, &shares(1, 1)),
        Err(ErrorCode::ArithmeticError)
    );
    assert_eq!(token_inflow, inflow(u64::MAX - 5, 0));
    assert_eq!(token_inflow.update_total_inflow(5, &shares(1, 1)), Ok(()));
    assert_eq!(token_inflow, inflow(u64::MAX, 5));
}

#[test]
fn correction_that_does_not_fit_is_refused() {
    // the correction alone is 2^64 - 1 times 2^32 - 2
    let mut token_inflow = inflow(0, 0);
    assert_eq!(
        token_inflow.update_total_inflow(u64::MAX, &shares(u32::MAX, 1)),
        Err(ErrorCode::ArithmeticError)
    );
    assert_eq!(token_inflow, inflow(0, 0));
}

#[test]
fn total_inflow_never_falls() {
    let mut token_inflow = inflow(0, 0);
    let mut last = 0;
    let steps: [(u64, u32, u32); 7] = [
        (10, 100, 100),
        (10, 100, 50),
        (5, 100, 50),
        (25, 100, 0),
        (25, 100, 30),
        (1_000_000, 7, 3),
        (1_000_001, 3, 7),
    ];
    for (balance, total, issued) in steps {
        let _ = token_inflow.update_total_inflow(balance, &shares(total, issued));
        assert!(token_inflow.total_inflow >= last);
        last = token_inflow.total_inflow;
    }
    assert_eq!(token_inflow.total_inflow, 10 + 0 + 15 + 35 + (999_975 + 1_333_300));
}
