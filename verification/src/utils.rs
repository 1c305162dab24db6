use vstd::prelude::*;
use vstd::utf8::encode_utf8;

use crate::errors::BlinkPayError;
use crate::pubkey::{lemma_pubkey_view_injective, Pubkey};
use crate::token_account::{read_token_account_owner, token_account_owner, TokenAccountInfo};
use crate::transfer::TransferInstruction;

verus! {

/// Smallest amount that may be requested or charged, in the smallest currency unit.
pub const MIN_AMOUNT_SOL: u64 = 1;

/// Largest amount that may be requested or charged: half the 64-bit range, so
/// that doubling an accepted amount never overflows.
pub const MAX_AMOUNT: u64 = u64::MAX / 2;

/// Longest memo, in bytes of its UTF-8 encoding.
pub const MAX_MEMO_LENGTH: usize = 200;

/// Largest execution cap a scheduled charge may be created with.
pub const MAX_EXECUTIONS: u32 = 1000;

/// Shortest interval between two executions of a recurring charge: one hour.
pub const MIN_INTERVAL_SECONDS: u64 = 3600;

/// Longest interval between two executions of a recurring charge, and the
/// furthest a due time may lie ahead: one year.
pub const MAX_INTERVAL_SECONDS: u64 = 31536000;

/// Tolerated disagreement, in seconds, between the clock of whoever built an
/// operation and the clock that judges it.
pub const TIME_BUFFER_SECONDS: i64 = 300;

/// An amount is acceptable when it is positive and at most `MAX_AMOUNT`.
pub open spec fn amount_is_valid(amount: u64) -> bool {
    MIN_AMOUNT_SOL <= amount <= MAX_AMOUNT
}

/// Length of a memo as it is stored: the number of bytes of its UTF-8 encoding.
pub open spec fn memo_len(memo: Seq<char>) -> nat {
    encode_utf8(memo).len()
}

/// A memo is acceptable when it takes at most `MAX_MEMO_LENGTH` bytes.
pub open spec fn memo_is_valid(memo: Seq<char>) -> bool {
    memo_len(memo) <= MAX_MEMO_LENGTH
}

/// A due time is acceptable at time `current_time` when it lies no more than
/// `TIME_BUFFER_SECONDS` behind it and no more than a year ahead of it.
pub open spec fn timestamp_is_valid(timestamp: i64, current_time: i64) -> bool {
    current_time - TIME_BUFFER_SECONDS <= timestamp <= current_time + MAX_INTERVAL_SECONDS
}

/// An interval is acceptable between an hour and a year, both included.
pub open spec fn interval_is_valid(interval_seconds: u64) -> bool {
    MIN_INTERVAL_SECONDS <= interval_seconds <= MAX_INTERVAL_SECONDS
}

/// An execution cap is acceptable between 1 and `MAX_EXECUTIONS`.
pub open spec fn max_executions_is_valid(max_executions: u32) -> bool {
    1 <= max_executions <= MAX_EXECUTIONS
}

/// Accepts an amount that is positive and at most `MAX_AMOUNT`.
pub fn validate_amount(amount: u64) -> (r: Result<(), BlinkPayError>)
    ensures
        amount_is_valid(amount) ==> r == Ok::<(), BlinkPayError>(()),
        !amount_is_valid(amount) ==> r == Err::<(), BlinkPayError>(BlinkPayError::InvalidAmount),
{
    if amount < MIN_AMOUNT_SOL {
        return Err(BlinkPayError::InvalidAmount);
    }
    if amount > MAX_AMOUNT {
        return Err(BlinkPayError::InvalidAmount);
    }
    Ok(())
}

/// Accepts a due time inside the window around `current_time`: at most
/// `TIME_BUFFER_SECONDS` in the past, at most a year in the future.
pub fn validate_future_timestamp(timestamp: i64, current_time: i64) -> (r: Result<
    (),
    BlinkPayError,
>)
    ensures
        timestamp_is_valid(timestamp, current_time) ==> r == Ok::<(), BlinkPayError>(()),
        !timestamp_is_valid(timestamp, current_time) ==> r == Err::<(), BlinkPayError>(
            BlinkPayError::InvalidTimestamp,
        ),
{
    // Where the window's edge would leave the 64-bit range, no timestamp lies beyond it.
    if let Some(earliest) = current_time.checked_sub(TIME_BUFFER_SECONDS) {
        if timestamp < earliest {
            return Err(BlinkPayError::InvalidTimestamp);
        }
    }
    if let Some(latest) = current_time.checked_add_unsigned(MAX_INTERVAL_SECONDS) {
        if timestamp > latest {
            return Err(BlinkPayError::InvalidTimestamp);
        }
    }
    Ok(())
}

/// Accepts an interval between an hour and a year.
pub fn validate_interval(interval_seconds: u64) -> (r: Result<(), BlinkPayError>)
    ensures
        interval_is_valid(interval_seconds) ==> r == Ok::<(), BlinkPayError>(()),
        !interval_is_valid(interval_seconds) ==> r == Err::<(), BlinkPayError>(
            BlinkPayError::InvalidInterval,
        ),
{
    if interval_seconds < MIN_INTERVAL_SECONDS {
        return Err(BlinkPayError::InvalidInterval);
    }
    if interval_seconds > MAX_INTERVAL_SECONDS {
        return Err(BlinkPayError::InvalidInterval);
    }
    Ok(())
}

/// Accepts an execution cap between 1 and `MAX_EXECUTIONS`. A cap outside that
/// range is reported as `InvalidTimestamp`.
pub fn validate_max_executions(max_executions: u32) -> (r: Result<(), BlinkPayError>)
    ensures
        max_executions_is_valid(max_executions) ==> r == Ok::<(), BlinkPayError>(()),
        !max_executions_is_valid(max_executions) ==> r == Err::<(), BlinkPayError>(
            BlinkPayError::InvalidTimestamp,
        ),
{
    if max_executions == 0 || max_executions > MAX_EXECUTIONS {
        return Err(BlinkPayError::InvalidTimestamp);
    }
    Ok(())
}

/// Accepts a memo of at most `MAX_MEMO_LENGTH` bytes.
pub fn validate_memo(memo: &str) -> (r: Result<(), BlinkPayError>)
    ensures
        memo_is_valid(memo@) ==> r == Ok::<(), BlinkPayError>(()),
        !memo_is_valid(memo@) ==> r == Err::<(), BlinkPayError>(BlinkPayError::MemoTooLong),
{
    if memo.as_bytes().len() > MAX_MEMO_LENGTH {
        return Err(BlinkPayError::MemoTooLong);
    }
    Ok(())
}

/// Accepts a recipient that is not the creator itself.
pub fn validate_recipient_not_authority(recipient: &Pubkey, authority: &Pubkey) -> (r: Result<
    (),
    BlinkPayError,
>)
    ensures
        *recipient != *authority ==> r == Ok::<(), BlinkPayError>(()),
        *recipient == *authority ==> r == Err::<(), BlinkPayError>(
            BlinkPayError::InvalidRecipient,
        ),
{
    if recipient == authority {
        return Err(BlinkPayError::InvalidRecipient);
    }
    Ok(())
}

/// The first reason, if any, for which the parameters of a scheduled charge
/// are refused: the amount, then the due time, then the execution cap where one
/// is given, then the interval where one is given.
pub open spec fn scheduled_charge_params_refusal(
    amount: u64,
    execute_at: i64,
    max_executions: Option<u32>,
    interval_seconds: Option<u64>,
    current_time: i64,
) -> Option<BlinkPayError> {
    if !amount_is_valid(amount) {
        Some(BlinkPayError::InvalidAmount)
    } else if !timestamp_is_valid(execute_at, current_time) {
        Some(BlinkPayError::InvalidTimestamp)
    } else if max_executions is Some && !max_executions_is_valid(max_executions.unwrap()) {
        Some(BlinkPayError::InvalidTimestamp)
    } else if interval_seconds is Some && !interval_is_valid(interval_seconds.unwrap()) {
        Some(BlinkPayError::InvalidInterval)
    } else {
        None
    }
}

/// Checks the parameters of a scheduled charge and reports the first that is
/// not acceptable.
pub fn validate_scheduled_charge_params(
    amount: u64,
    execute_at: i64,
    max_executions: Option<u32>,
    interval_seconds: Option<u64>,
    current_time: i64,
) -> (r: Result<(), BlinkPayError>)
    ensures
        match scheduled_charge_params_refusal(
            amount,
            execute_at,
            max_executions,
            interval_seconds,
            current_time,
        ) {
            Some(e) => r == Err::<(), BlinkPayError>(e),
            None => r == Ok::<(), BlinkPayError>(()),
        },
{
    match validate_amount(amount) {
        Ok(()) => {},
        Err(e) => { return Err(e); },
    }
    match validate_future_timestamp(execute_at, current_time) {
        Ok(()) => {},
        Err(e) => { return Err(e); },
    }
    if let Some(max_exec) = max_executions {
        match validate_max_executions(max_exec) {
            Ok(()) => {},
            Err(e) => { return Err(e); },
        }
    }
    if let Some(interval) = interval_seconds {
        match validate_interval(interval) {
            Ok(()) => {},
            Err(e) => { return Err(e); },
        }
    }
    Ok(())
}

/// Tells whether an asset kind is the native currency: the default identity
/// stands for it.
pub fn is_sol_token(mint: &Pubkey) -> (native: bool)
    ensures
        native == (*mint == Pubkey::spec_default()),
{
    *mint == Pubkey::default()
}

/// Accepts every asset kind: the native currency and any token.
pub fn validate_token_mint(mint: &Pubkey) -> (r: Result<(), BlinkPayError>)
    ensures
        r == Ok::<(), BlinkPayError>(()),
{
    if is_sol_token(mint) {
        return Ok(());
    }
    Ok(())
}

/// Describes the transfer of `amount` of native currency from `from` to `to`.
pub fn transfer_sol(from: &Pubkey, to: &Pubkey, amount: u64) -> (instruction: TransferInstruction)
    ensures
        instruction == (TransferInstruction::Sol { from: *from, to: *to, amount }),
{
    TransferInstruction::Sol { from: *from, to: *to, amount }
}

/// Describes the transfer of `amount` tokens from the token account `from` to
/// the token account `to`, authorised by `authority`, the owner of `from`.
pub fn transfer_spl_tokens(
    from: &Pubkey,
    to: &Pubkey,
    authority: &Pubkey,
    token_program: &Pubkey,
    amount: u64,
) -> (instruction: TransferInstruction)
    ensures
        instruction == (TransferInstruction::SplToken {
            from: *from,
            to: *to,
            authority: *authority,
            token_program: *token_program,
            amount,
        }),
{
    TransferInstruction::SplToken {
        from: *from,
        to: *to,
        authority: *authority,
        token_program: *token_program,
        amount,
    }
}

/// Adds two amounts, refusing a sum that does not fit in 64 bits.
pub fn safe_add(a: u64, b: u64) -> (r: Result<u64, BlinkPayError>)
    ensures
        a + b <= u64::MAX ==> r == Ok::<u64, BlinkPayError>((a + b) as u64),
        a + b > u64::MAX ==> r == Err::<u64, BlinkPayError>(BlinkPayError::Overflow),
{
    match a.checked_add(b) {
        Some(sum) => Ok(sum),
        None => Err(BlinkPayError::Overflow),
    }
}

/// Takes `b` from `a`, refusing to go below zero.
pub fn safe_sub(a: u64, b: u64) -> (r: Result<u64, BlinkPayError>)
    ensures
        a >= b ==> r == Ok::<u64, BlinkPayError>((a - b) as u64),
        a < b ==> r == Err::<u64, BlinkPayError>(BlinkPayError::InsufficientFunds),
{
    match a.checked_sub(b) {
        Some(difference) => Ok(difference),
        None => Err(BlinkPayError::InsufficientFunds),
    }
}

/// Accepts a token account whose bytes are a token account in use and name
/// `expected_owner` as its owner. Anything else is refused with
/// `InvalidTokenAccountOwner`.
pub fn validate_token_account_ownership(
    token_account: &TokenAccountInfo,
    expected_owner: &Pubkey,
) -> (r: Result<(), BlinkPayError>)
    ensures
        token_account_owner(token_account.data@) == Some(expected_owner@) ==> r == Ok::<
            (),
            BlinkPayError,
        >(()),
        token_account_owner(token_account.data@) != Some(expected_owner@) ==> r == Err::<
            (),
            BlinkPayError,
        >(BlinkPayError::InvalidTokenAccountOwner),
{
    match read_token_account_owner(token_account.data.as_slice()) {
        Ok(owner_bytes) => {
            let owner = Pubkey::new_from_array(owner_bytes);
            proof {
                lemma_pubkey_view_injective(owner, *expected_owner);
            }
            if owner != *expected_owner {
                return Err(BlinkPayError::InvalidTokenAccountOwner);
            }
            Ok(())
        },
        Err(_) => Err(BlinkPayError::InvalidTokenAccountOwner),
    }
}

/// A signed 64-bit value read as an unsigned one with the same bits (two's
/// complement): a negative value stands 2^64 higher.
pub open spec fn twos_complement(value: i64) -> nat {
    if value >= 0 {
        value as nat
    } else {
        (value + 0x1_0000_0000_0000_0000) as nat
    }
}

/// The `len` lowest bytes of `value`, least significant first.
pub open spec fn le_bytes(value: nat, len: nat) -> Seq<u8>
    decreases len,
{
    if len == 0 {
        Seq::empty()
    } else {
        seq![(value % 256) as u8] + le_bytes(value / 256, (len - 1) as nat)
    }
}

/// The eight bytes of a timestamp, least significant first.
pub fn timestamp_le_bytes(timestamp: i64) -> (bytes: Vec<u8>)
    ensures
        bytes@ == le_bytes(twos_complement(timestamp), 8),
{
    let mut rest: u64 = if timestamp >= 0 {
        timestamp as u64
    } else {
        (timestamp - i64::MIN) as u64 + 0x8000_0000_0000_0000u64
    };
    let mut bytes: Vec<u8> = Vec::with_capacity(8);
    let mut i: usize = 0;
    while i < 8
        invariant
            i <= 8,
            bytes@.len() == i,
            le_bytes(twos_complement(timestamp), 8) == bytes@ + le_bytes(
                rest as nat,
                (8 - i) as nat,
            ),
        decreases 8 - i,
    {
        let ghost before = bytes@;
        bytes.push((rest % 256) as u8);
        assert(before + le_bytes(rest as nat, (8 - i) as nat) == bytes@ + le_bytes(
            (rest / 256) as nat,
            (8 - i - 1) as nat,
        )) by {
            assert(before + (seq![(rest % 256) as u8] + le_bytes(
                (rest / 256) as nat,
                (8 - i - 1) as nat,
            )) =~= before.push((rest % 256) as u8) + le_bytes(
                (rest / 256) as nat,
                (8 - i - 1) as nat,
            ));
        }
        rest = rest / 256;
        i += 1;
    }
    assert(le_bytes(rest as nat, 0) == Seq::<u8>::empty());
    assert(bytes@ + Seq::<u8>::empty() =~= bytes@);
    bytes
}

/// Seed for the derived address of a record: `base_seed`, then the creator's 32
/// bytes, then the timestamp's eight bytes, least significant first.
pub fn generate_secure_seed(base_seed: &[u8], authority: &Pubkey, timestamp: i64) -> (seed: Vec<u8>)
    ensures
        seed@ == base_seed@ + authority@ + le_bytes(twos_complement(timestamp), 8),
{
    let mut seed: Vec<u8> = Vec::new();
    seed.extend_from_slice(base_seed);
    assert(seed@ =~= base_seed@);
    let key = authority.to_bytes();
    seed.extend_from_slice(key.as_slice());
    assert(seed@ =~= base_seed@ + authority@);
    let stamp = timestamp_le_bytes(timestamp);
    seed.extend_from_slice(stamp.as_slice());
    assert(seed@ =~= base_seed@ + authority@ + le_bytes(twos_complement(timestamp), 8));
    seed
}

} // verus!
