use blinkpay::errors::BlinkPayError;
use blinkpay::instructions::scheduled_charge::{
    cancel_scheduled_charge, create_scheduled_charge, execute_scheduled_charge,
    CancelScheduledCharge, CreateScheduledCharge, ExecuteScheduledCharge,
};
use blinkpay::pubkey::Pubkey;
use blinkpay::state::{ScheduledCharge, ScheduledChargeStatus, ScheduledChargeType};
use blinkpay::token_account::TokenAccountInfo;
use blinkpay::transfer::TransferInstruction;

const T: i64 = 1_700_000_000;

fn key(byte: u8) -> Pubkey {
    Pubkey::new_from_array([byte; 32])
}

fn creator() -> Pubkey {
    key(1)
}

fn recipient() -> Pubkey {
    key(2)
}

fn mint() -> Pubkey {
    key(0x10)
}

fn create(
    amount: u64,
    token_mint: Pubkey,
    execute_at: i64,
    charge_type: u8,
    interval: Option<u64>,
    max_executions: Option<u32>,
) -> Result<ScheduledCharge, BlinkPayError> {
    create_scheduled_charge(
        &CreateScheduledCharge { authority: creator(), bump: 253 },
        amount,
        token_mint,
        recipient(),
        execute_at,
        charge_type,
        interval,
        max_executions,
        String::from("rent"),
        T - 60,
    )
}

fn native_accounts() -> ExecuteScheduledCharge {
    ExecuteScheduledCharge {
        executor: key(4),
        authority: Some(creator()),
        recipient: Some(recipient()),
        authority_token_account: None,
        recipient_token_account: None,
        token_program: None,
    }
}

fn token_account_owned_by(owner: Pubkey) -> TokenAccountInfo {
    let mut data = Vec::new();
    data.extend_from_slice(&mint().to_bytes());
    data.extend_from_slice(&owner.to_bytes());
    data.extend_from_slice(&5000u64.to_le_bytes());
    data.extend_from_slice(&[0; 36]);
    data.push(1);
    data.extend_from_slice(&[0; 12]);
    data.extend_from_slice(&[0; 8]);
    data.extend_from_slice(&[0; 36]);
    TokenAccountInfo { key: key(0x41), data }
}

fn token_accounts() -> ExecuteScheduledCharge {
    ExecuteScheduledCharge {
        executor: key(4),
        authority: None,
        recipient: None,
        authority_token_account: Some(token_account_owned_by(creator())),
        recipient_token_account: Some(key(0x42)),
        token_program: Some(key(0x43)),
    }
}

#[test]
fn stored_charge_takes_362_bytes() {
    assert_eq!(ScheduledCharge::LEN, 362);
}

#[test]
fn charge_type_codes_are_closed() {
    assert_eq!(ScheduledChargeType::from_code(0), Some(ScheduledChargeType::OneTime));
    assert_eq!(ScheduledChargeType::from_code(1), Some(ScheduledChargeType::Recurring));
    for code in [2u8, 3, 128, 255] {
        assert_eq!(ScheduledChargeType::from_code(code), None);
    }
}

#[test]
fn created_charge_holds_the_inputs_and_is_pending() {
    let charge = create(1000, mint(), T, 1, Some(7200), Some(12)).unwrap();
    assert_eq!(charge.authority, creator());
    assert_eq!(charge.recipient, recipient());
    assert_eq!(charge.amount, 1000);
    assert_eq!(charge.token_mint, mint());
    assert_eq!(charge.charge_type, ScheduledChargeType::Recurring);
    assert_eq!(charge.execute_at, T);
    assert_eq!(charge.interval_seconds, Some(7200));
    assert_eq!(charge.last_executed_at, None);
    assert_eq!(charge.max_executions, Some(12));
    assert_eq!(charge.execution_count, 0);
    assert_eq!(charge.memo, "rent");
    assert_eq!(charge.created_at, T - 60);
    assert_eq!(charge.status, ScheduledChargeStatus::Pending);
    assert_eq!(charge.bump, 253);
}

#[test]
fn create_refuses_an_unknown_charge_type() {
    assert_eq!(create(1000, mint(), T, 2, None, None), Err(BlinkPayError::InvalidTimestamp));
    // The type is decoded before anything else is judged.
    assert_eq!(create(0, mint(), T, 9, None, None), Err(BlinkPayError::InvalidTimestamp));
}

#[test]
fn create_refuses_each_bad_parameter() {
    assert_eq!(create(0, mint(), T, 0, None, None), Err(BlinkPayError::InvalidAmount));
    assert_eq!(
        create(1, mint(), T - 60 - 301, 0, None, None),
        Err(BlinkPayError::InvalidTimestamp)
    );
    assert!(create(1, mint(), T - 60 - 300, 0, None, None).is_ok());
    assert_eq!(
        create(1, mint(), T - 60 + 31_536_001, 0, None, None),
        Err(BlinkPayError::InvalidTimestamp)
    );
    assert!(create(1, mint(), T - 60 + 31_536_000, 0, None, None).is_ok());
    assert_eq!(create(1, mint(), T, 0, None, Some(0)), Err(BlinkPayError::InvalidTimestamp));
    assert_eq!(create(1, mint(), T, 0, None, Some(1001)), Err(BlinkPayError::InvalidTimestamp));
    assert!(create(1, mint(), T, 0, None, Some(1000)).is_ok());
    assert_eq!(create(1, mint(), T, 1, Some(3599), None), Err(BlinkPayError::InvalidInterval));
    assert_eq!(
        create(1, mint(), T, 1, Some(31_536_001), None),
        Err(BlinkPayError::InvalidInterval)
    );
    assert!(create(1, mint(), T, 1, Some(3600), None).is_ok());
    assert!(create(1, mint(), T, 1, Some(31_536_000), None).is_ok());
}

#[test]
fn recurring_charge_must_have_an_interval() {
    assert_eq!(create(1, mint(), T, 1, None, None), Err(BlinkPayError::InvalidInterval));
    assert_eq!(create(1, mint(), T, 1, None, Some(5)), Err(BlinkPayError::InvalidInterval));
}

#[test]
fn one_time_charge_has_no_interval_checked() {
    let without = create(1, mint(), T, 0, None, None).unwrap();
    assert_eq!(without.interval_seconds, None);
    let with = create(1, mint(), T, 0, Some(5), None).unwrap();
    assert_eq!(with.interval_seconds, Some(5));
    assert_eq!(with.charge_type, ScheduledChargeType::OneTime);
}

#[test]
fn create_refuses_long_memo_and_self_recipient_last() {
    let ctx = CreateScheduledCharge { authority: creator(), bump: 0 };
    assert_eq!(
        create_scheduled_charge(
            &ctx, 1, mint(), recipient(), T, 0, None, None, "x".repeat(201), T
        ),
        Err(BlinkPayError::MemoTooLong)
    );
    assert!(create_scheduled_charge(
        &ctx, 1, mint(), recipient(), T, 0, None, None, "x".repeat(200), T
    )
    .is_ok());
    assert_eq!(
        create_scheduled_charge(&ctx, 1, mint(), creator(), T, 0, None, None, String::new(), T),
        Err(BlinkPayError::InvalidRecipient)
    );
    // Memo before recipient; interval before memo.
    assert_eq!(
        create_scheduled_charge(
            &ctx, 1, mint(), creator(), T, 0, None, None, "x".repeat(201), T
        ),
        Err(BlinkPayError::MemoTooLong)
    );
    assert_eq!(
        create_scheduled_charge(
            &ctx, 1, mint(), creator(), T, 1, Some(1), None, "x".repeat(201), T
        ),
        Err(BlinkPayError::InvalidInterval)
    );
}

#[test]
fn due_time_has_a_buffer_of_300_seconds() {
    let charge = create(1000, Pubkey::default(), T, 0, None, None).unwrap();
    assert!(!charge.is_due(T - 301));
    assert!(charge.is_due(T - 300));
    assert!(charge.is_due(T));
    assert!(charge.is_due(i64::MAX));
    assert!(!charge.is_due(i64::MIN));
}

#[test]
fn charge_due_at_the_start_of_time_is_always_due() {
    let mut charge = create(1000, Pubkey::default(), T, 0, None, None).unwrap();
    charge.execute_at = i64::MIN + 10;
    assert!(charge.is_due(i64::MIN));
    charge.execute_at = i64::MIN + 301;
    assert!(!charge.is_due(i64::MIN));
    assert!(charge.is_due(i64::MIN + 1));
}

#[test]
fn execution_301_seconds_early_is_refused_and_300_accepted() {
    let mut charge = create(1000, Pubkey::default(), T, 0, None, None).unwrap();
    let before = charge.clone();
    assert_eq!(
        execute_scheduled_charge(native_accounts(), &mut charge, T - 301),
        Err(BlinkPayError::ExecutionTimeNotReached)
    );
    assert_eq!(charge, before);
    assert!(execute_scheduled_charge(native_accounts(), &mut charge, T - 300).is_ok());
    assert_eq!(charge.last_executed_at, Some(T - 300));
}

#[test]
fn one_time_charge_executes_once() {
    let mut charge = create(1000, Pubkey::default(), T, 0, None, None).unwrap();
    let executed = execute_scheduled_charge(native_accounts(), &mut charge, T);
    assert_eq!(
        executed,
        Ok(TransferInstruction::Sol { from: creator(), to: recipient(), amount: 1000 })
    );
    assert_eq!(charge.status, ScheduledChargeStatus::Executed);
    assert_eq!(charge.execution_count, 1);
    assert_eq!(charge.last_executed_at, Some(T));
    assert_eq!(charge.execute_at, T);

    let after = charge.clone();
    assert_eq!(
        execute_scheduled_charge(native_accounts(), &mut charge, T + 10),
        Err(BlinkPayError::ScheduledChargeNotPending)
    );
    assert_eq!(charge, after);
}

#[test]
fn recurring_charge_stops_at_its_cap() {
    let mut charge = create(1000, Pubkey::default(), T, 1, Some(3600), Some(2)).unwrap();

    let first = execute_scheduled_charge(native_accounts(), &mut charge, T);
    assert_eq!(
        first,
        Ok(TransferInstruction::Sol { from: creator(), to: recipient(), amount: 1000 })
    );
    assert_eq!(charge.status, ScheduledChargeStatus::Pending);
    assert_eq!(charge.execution_count, 1);
    assert_eq!(charge.execute_at, T + 3600);
    assert_eq!(charge.last_executed_at, Some(T));

    let second = execute_scheduled_charge(native_accounts(), &mut charge, T + 3600);
    assert_eq!(
        second,
        Ok(TransferInstruction::Sol { from: creator(), to: recipient(), amount: 1000 })
    );
    assert_eq!(charge.status, ScheduledChargeStatus::Executed);
    assert_eq!(charge.execution_count, 2);
    assert_eq!(charge.execute_at, T + 7200);
    assert_eq!(charge.last_executed_at, Some(T + 3600));

    let after = charge.clone();
    let third = execute_scheduled_charge(native_accounts(), &mut charge, T + 7200);
    assert!(third.is_err());
    assert_eq!(third, Err(BlinkPayError::ScheduledChargeNotPending));
    assert_eq!(charge, after);
    assert_eq!(charge.execution_count, 2);
}

#[test]
fn pending_charge_at_its_cap_is_refused() {
    let mut charge = create(1000, Pubkey::default(), T, 1, Some(3600), Some(2)).unwrap();
    charge.execution_count = 2;
    let before = charge.clone();
    assert_eq!(
        execute_scheduled_charge(native_accounts(), &mut charge, T),
        Err(BlinkPayError::MaxExecutionsExceeded)
    );
    assert_eq!(charge, before);
    charge.execution_count = 3;
    assert_eq!(
        execute_scheduled_charge(native_accounts(), &mut charge, T),
        Err(BlinkPayError::MaxExecutionsExceeded)
    );
}

#[test]
fn next_due_time_counts_from_the_execution_not_from_the_due_time() {
    let mut charge = create(5, Pubkey::default(), T, 1, Some(86_400), None).unwrap();
    execute_scheduled_charge(native_accounts(), &mut charge, T + 17).unwrap();
    assert_eq!(charge.execute_at, T + 17 + 86_400);
    execute_scheduled_charge(native_accounts(), &mut charge, T + 17 + 86_400 - 300).unwrap();
    assert_eq!(charge.execute_at, T + 17 + 86_400 - 300 + 86_400);
    assert_eq!(charge.execution_count, 2);
    assert_eq!(charge.status, ScheduledChargeStatus::Pending);
}

#[test]
fn uncapped_recurring_charge_stays_pending() {
    let mut charge = create(5, Pubkey::default(), T, 1, Some(3600), None).unwrap();
    let mut now = T;
    for count in 1..=5u32 {
        execute_scheduled_charge(native_accounts(), &mut charge, now).unwrap();
        assert_eq!(charge.execution_count, count);
        assert_eq!(charge.status, ScheduledChargeStatus::Pending);
        now += 3600;
    }
}

#[test]
fn recurring_charge_without_interval_is_settled_by_its_execution() {
    let mut charge = create(5, Pubkey::default(), T, 1, Some(3600), None).unwrap();
    charge.interval_seconds = None;
    assert!(execute_scheduled_charge(native_accounts(), &mut charge, T).is_ok());
    assert_eq!(charge.status, ScheduledChargeStatus::Executed);
    assert_eq!(charge.execute_at, T);
    assert_eq!(charge.execution_count, 1);
}

#[test]
fn count_that_cannot_go_up_is_an_overflow() {
    let mut charge = create(5, Pubkey::default(), T, 1, Some(3600), None).unwrap();
    charge.execution_count = u32::MAX;
    let before = charge.clone();
    assert_eq!(
        execute_scheduled_charge(native_accounts(), &mut charge, T),
        Err(BlinkPayError::Overflow)
    );
    assert_eq!(charge, before);
}

#[test]
fn next_due_time_beyond_the_range_is_an_overflow() {
    let mut charge = create(5, Pubkey::default(), T, 1, Some(3600), None).unwrap();
    let before = charge.clone();
    assert_eq!(
        execute_scheduled_charge(native_accounts(), &mut charge, i64::MAX - 3599),
        Err(BlinkPayError::Overflow)
    );
    assert_eq!(charge, before);
    assert!(execute_scheduled_charge(native_accounts(), &mut charge, i64::MAX - 3600).is_ok());
    assert_eq!(charge.execute_at, i64::MAX);
}

#[test]
fn huge_interval_is_added_exactly() {
    let mut charge = create(5, Pubkey::default(), T, 1, Some(3600), None).unwrap();
    charge.execute_at = i64::MIN;
    charge.interval_seconds = Some(u64::MAX);
    assert!(execute_scheduled_charge(native_accounts(), &mut charge, -5).is_err());
    assert!(execute_scheduled_charge(native_accounts(), &mut charge, i64::MIN).is_ok());
    assert_eq!(charge.execute_at, i64::MAX);
}

#[test]
fn not_pending_is_reported_before_not_due() {
    let mut charge = create(5, Pubkey::default(), T, 0, None, None).unwrap();
    charge.status = ScheduledChargeStatus::Cancelled;
    assert_eq!(
        execute_scheduled_charge(native_accounts(), &mut charge, T - 1000),
        Err(BlinkPayError::ScheduledChargeNotPending)
    );
}

#[test]
fn not_due_is_reported_before_the_cap() {
    let mut charge = create(5, Pubkey::default(), T, 1, Some(3600), Some(1)).unwrap();
    charge.execution_count = 1;
    assert_eq!(
        execute_scheduled_charge(native_accounts(), &mut charge, T - 1000),
        Err(BlinkPayError::ExecutionTimeNotReached)
    );
}

#[test]
fn native_execution_needs_both_parties_accounts() {
    let cases = [
        (
            ExecuteScheduledCharge { authority: None, ..native_accounts() },
            BlinkPayError::InvalidAuthority,
        ),
        (
            ExecuteScheduledCharge { authority: Some(key(9)), ..native_accounts() },
            BlinkPayError::InvalidAuthority,
        ),
        (
            ExecuteScheduledCharge { recipient: None, ..native_accounts() },
            BlinkPayError::InvalidRecipient,
        ),
        (
            ExecuteScheduledCharge { recipient: Some(key(9)), ..native_accounts() },
            BlinkPayError::InvalidRecipient,
        ),
        (
            ExecuteScheduledCharge { authority: None, recipient: None, ..native_accounts() },
            BlinkPayError::InvalidAuthority,
        ),
    ];
    for (accounts, error) in cases {
        let mut charge = create(5, Pubkey::default(), T, 1, Some(3600), Some(3)).unwrap();
        let before = charge.clone();
        assert_eq!(execute_scheduled_charge(accounts, &mut charge, T), Err(error));
        assert_eq!(charge, before);
    }
}

#[test]
fn token_execution_draws_on_the_creators_token_account() {
    let mut charge = create(40, mint(), T, 0, None, None).unwrap();
    assert_eq!(
        execute_scheduled_charge(token_accounts(), &mut charge, T),
        Ok(TransferInstruction::SplToken {
            from: key(0x41),
            to: key(0x42),
            authority: creator(),
            token_program: key(0x43),
            amount: 40,
        })
    );
    assert_eq!(charge.status, ScheduledChargeStatus::Executed);
}

#[test]
fn token_execution_needs_each_account_and_the_creators_ownership() {
    let cases = [
        (
            ExecuteScheduledCharge { authority_token_account: None, ..token_accounts() },
            BlinkPayError::InvalidTokenAccountOwner,
        ),
        (
            ExecuteScheduledCharge { recipient_token_account: None, ..token_accounts() },
            BlinkPayError::InvalidAssociatedTokenAccount,
        ),
        (
            ExecuteScheduledCharge { token_program: None, ..token_accounts() },
            BlinkPayError::InvalidTokenMint,
        ),
        (
            ExecuteScheduledCharge {
                authority_token_account: Some(token_account_owned_by(key(4))),
                ..token_accounts()
            },
            BlinkPayError::InvalidTokenAccountOwner,
        ),
        (
            ExecuteScheduledCharge {
                authority_token_account: Some(TokenAccountInfo { key: key(0x41), data: vec![] }),
                ..token_accounts()
            },
            BlinkPayError::InvalidTokenAccountOwner,
        ),
    ];
    for (accounts, error) in cases {
        let mut charge = create(40, mint(), T, 1, Some(3600), Some(2)).unwrap();
        let before = charge.clone();
        assert_eq!(execute_scheduled_charge(accounts, &mut charge, T), Err(error));
        assert_eq!(charge, before);
    }
}

#[test]
fn cancel_by_a_non_creator_is_refused() {
    let mut charge = create(5, Pubkey::default(), T, 0, None, None).unwrap();
    let before = charge.clone();
    assert_eq!(
        cancel_scheduled_charge(&CancelScheduledCharge { authority: recipient() }, &mut charge),
        Err(BlinkPayError::InvalidAuthority)
    );
    assert_eq!(charge.status, ScheduledChargeStatus::Pending);
    assert_eq!(charge, before);
}

#[test]
fn cancel_by_the_creator_settles_the_charge() {
    let mut charge = create(5, Pubkey::default(), T, 1, Some(3600), None).unwrap();
    let before = charge.clone();
    assert_eq!(
        cancel_scheduled_charge(&CancelScheduledCharge { authority: creator() }, &mut charge),
        Ok(creator())
    );
    let expected = ScheduledCharge { status: ScheduledChargeStatus::Cancelled, ..before };
    assert_eq!(charge, expected);
    assert_eq!(
        execute_scheduled_charge(native_accounts(), &mut charge, T),
        Err(BlinkPayError::ScheduledChargeNotPending)
    );
    assert_eq!(
        cancel_scheduled_charge(&CancelScheduledCharge { authority: creator() }, &mut charge),
        Err(BlinkPayError::ScheduledChargeNotPending)
    );
}

#[test]
fn executed_charge_cannot_be_cancelled() {
    let mut charge = create(5, Pubkey::default(), T, 0, None, None).unwrap();
    execute_scheduled_charge(native_accounts(), &mut charge, T).unwrap();
    assert_eq!(
        cancel_scheduled_charge(&CancelScheduledCharge { authority: creator() }, &mut charge),
        Err(BlinkPayError::ScheduledChargeNotPending)
    );
    assert_eq!(charge.status, ScheduledChargeStatus::Executed);
    // The wrong caller is reported before the state.
    assert_eq!(
        cancel_scheduled_charge(&CancelScheduledCharge { authority: key(8) }, &mut charge),
        Err(BlinkPayError::InvalidAuthority)
    );
}
