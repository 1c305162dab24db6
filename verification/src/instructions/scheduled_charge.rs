use vstd::prelude::*;

use crate::errors::BlinkPayError;
use crate::pubkey::Pubkey;
use crate::state::{
    ScheduledCharge, ScheduledChargeStatus, ScheduledChargeType, ScheduledChargeView,
};
use crate::token_account::TokenAccountInfo;
use crate::transfer::{plan_transfer, planned_transfer, TransferAccounts, TransferInstruction};
use crate::utils::{
    memo_is_valid, scheduled_charge_params_refusal, validate_memo,
    validate_recipient_not_authority, validate_scheduled_charge_params, validate_token_mint,
};

verus! {

/// What comes with the creation of a scheduled charge.
#[derive(Clone, Copy, Debug, PartialEq, Eq)]
pub struct CreateScheduledCharge {
    /// The party creating the scheduled charge, from whom it will draw
    pub authority: Pubkey,
    /// Bump seed of the address under which the charge will be stored
    pub bump: u8,
}

/// What comes with the execution of a scheduled charge.
#[derive(Clone, Debug, PartialEq, Eq)]
pub struct ExecuteScheduledCharge {
    /// The executor (can be anyone)
    pub executor: Pubkey,
    /// Creator's own account (for native payments)
    pub authority: Option<Pubkey>,
    /// Recipient's own account (for native payments)
    pub recipient: Option<Pubkey>,
    /// Creator's token account (for token payments)
    pub authority_token_account: Option<TokenAccountInfo>,
    /// Recipient's token account (for token payments)
    pub recipient_token_account: Option<Pubkey>,
    /// Token program (for token payments)
    pub token_program: Option<Pubkey>,
}

/// What comes with the cancellation of a scheduled charge.
#[derive(Clone, Copy, Debug, PartialEq, Eq)]
pub struct CancelScheduledCharge {
    /// The party cancelling the charge (must be the creator)
    pub authority: Pubkey,
}

impl ExecuteScheduledCharge {
    /// The accounts between which the execution can move funds.
    pub open spec fn transfer_accounts(self) -> TransferAccounts {
        TransferAccounts {
            source: self.authority,
            recipient: self.recipient,
            source_token_account: self.authority_token_account,
            recipient_token_account: self.recipient_token_account,
            token_program: self.token_program,
        }
    }

    fn into_transfer_accounts(self) -> (accounts: TransferAccounts)
        ensures
            accounts == self.transfer_accounts(),
    {
        TransferAccounts {
            source: self.authority,
            recipient: self.recipient,
            source_token_account: self.authority_token_account,
            recipient_token_account: self.recipient_token_account,
            token_program: self.token_program,
        }
    }
}

/// The interval that is checked when a charge of type `charge_type` is created:
/// the one given for a recurring charge, none for a one-time charge.
pub open spec fn checked_interval(
    charge_type: ScheduledChargeType,
    interval_seconds: Option<u64>,
) -> Option<u64> {
    if charge_type == ScheduledChargeType::Recurring {
        interval_seconds
    } else {
        None
    }
}

/// The first reason, if any, for which a scheduled charge is not created: an
/// unknown type code, then the amount, the due time, the execution cap and the
/// interval of a recurring charge, which must be given, then the memo, then a
/// recipient that is the creator itself.
pub open spec fn create_scheduled_charge_refusal(
    authority: Pubkey,
    amount: u64,
    recipient: Pubkey,
    execute_at: i64,
    charge_type: u8,
    interval_seconds: Option<u64>,
    max_executions: Option<u32>,
    memo: Seq<char>,
    current_time: i64,
) -> Option<BlinkPayError> {
    match ScheduledChargeType::spec_from_code(charge_type) {
        None => Some(BlinkPayError::InvalidTimestamp),
        Some(decoded) => {
            let params = scheduled_charge_params_refusal(
                amount,
                execute_at,
                max_executions,
                checked_interval(decoded, interval_seconds),
                current_time,
            );
            if params is Some {
                params
            } else if decoded == ScheduledChargeType::Recurring && interval_seconds is None {
                Some(BlinkPayError::InvalidInterval)
            } else if !memo_is_valid(memo) {
                Some(BlinkPayError::MemoTooLong)
            } else if recipient == authority {
                Some(BlinkPayError::InvalidRecipient)
            } else {
                None
            }
        },
    }
}

/// The charge that `create_scheduled_charge` makes of acceptable inputs.
pub open spec fn created_scheduled_charge(
    ctx: CreateScheduledCharge,
    amount: u64,
    token_mint: Pubkey,
    recipient: Pubkey,
    execute_at: i64,
    charge_type: ScheduledChargeType,
    interval_seconds: Option<u64>,
    max_executions: Option<u32>,
    memo: Seq<char>,
    current_time: i64,
) -> ScheduledChargeView {
    ScheduledChargeView {
        authority: ctx.authority,
        recipient,
        amount,
        token_mint,
        charge_type,
        execute_at,
        interval_seconds,
        last_executed_at: None,
        max_executions,
        execution_count: 0,
        memo,
        created_at: current_time,
        status: ScheduledChargeStatus::Pending,
        bump: ctx.bump,
    }
}

/// Create a new scheduled charge, which anyone may execute once it is due.
///
/// `charge_type` is 0 for a one-time charge and 1 for a recurring one. The
/// charge is refused for the first of: another type code, an unacceptable
/// amount, a due time outside the window around `current_time`, an execution
/// cap outside 1 to `MAX_EXECUTIONS`, a recurring charge without an interval
/// between an hour and a year, a memo that is too long, a recipient that is
/// the creator. Otherwise it is created pending and never executed, with the
/// inputs as given.
pub fn create_scheduled_charge(
    ctx: &CreateScheduledCharge,
    amount: u64,
    token_mint: Pubkey,
    recipient: Pubkey,
    execute_at: i64,
    charge_type: u8,
    interval_seconds: Option<u64>,
    max_executions: Option<u32>,
    memo: String,
    current_time: i64,
) -> (r: Result<ScheduledCharge, BlinkPayError>)
    ensures
        match create_scheduled_charge_refusal(
            ctx.authority,
            amount,
            recipient,
            execute_at,
            charge_type,
            interval_seconds,
            max_executions,
            memo@,
            current_time,
        ) {
            Some(e) => r matches Err(err) && err == e,
            None => r matches Ok(charge) && charge@ == created_scheduled_charge(
                *ctx,
                amount,
                token_mint,
                recipient,
                execute_at,
                ScheduledChargeType::spec_from_code(charge_type).unwrap(),
                interval_seconds,
                max_executions,
                memo@,
                current_time,
            ),
        },
        r matches Ok(charge) ==> charge@.well_formed(),
{
    let decoded = match ScheduledChargeType::from_code(charge_type) {
        Some(decoded) => decoded,
        None => { return Err(BlinkPayError::InvalidTimestamp); },
    };
    let recurring = decoded == ScheduledChargeType::Recurring;

    // Only a recurring charge has its interval checked, and must have one.
    let interval_to_check = if recurring {
        interval_seconds
    } else {
        None
    };
    match validate_scheduled_charge_params(
        amount,
        execute_at,
        max_executions,
        interval_to_check,
        current_time,
    ) {
        Ok(()) => {},
        Err(e) => { return Err(e); },
    }
    if recurring && interval_seconds.is_none() {
        return Err(BlinkPayError::InvalidInterval);
    }
    match validate_token_mint(&token_mint) {
        Ok(()) => {},
        Err(e) => { return Err(e); },
    }
    match validate_memo(memo.as_str()) {
        Ok(()) => {},
        Err(e) => { return Err(e); },
    }
    match validate_recipient_not_authority(&recipient, &ctx.authority) {
        Ok(()) => {},
        Err(e) => { return Err(e); },
    }
    Ok(
        ScheduledCharge {
            authority: ctx.authority,
            recipient,
            amount,
            token_mint,
            charge_type: decoded,
            execute_at,
            interval_seconds,
            last_executed_at: None,
            max_executions,
            execution_count: 0,
            memo,
            created_at: current_time,
            status: ScheduledChargeStatus::Pending,
            bump: ctx.bump,
        },
    )
}

/// The first reason, if any, for which the record and the clock alone rule an
/// execution out: the charge is not pending, it is not due yet, its cap is
/// used up, its count cannot go up, or its next due time does not fit in 64
/// bits.
pub open spec fn execution_refusal(charge: ScheduledChargeView, current_time: i64) -> Option<
    BlinkPayError,
> {
    if charge.status != ScheduledChargeStatus::Pending {
        Some(BlinkPayError::ScheduledChargeNotPending)
    } else if !charge.is_due(current_time) {
        Some(BlinkPayError::ExecutionTimeNotReached)
    } else if !charge.below_cap() {
        Some(BlinkPayError::MaxExecutionsExceeded)
    } else if charge.execution_count + 1 > u32::MAX {
        Some(BlinkPayError::Overflow)
    } else if charge.reschedules() && current_time + charge.interval_seconds.unwrap()
        > i64::MAX {
        Some(BlinkPayError::Overflow)
    } else {
        None
    }
}

/// What an execution of `charge` at `current_time` with the accounts of `ctx`
/// comes to: the transfer from the charge's creator to its recipient, or the
/// reason why the execution is refused. The record and the clock are judged
/// before the accounts are looked at.
pub open spec fn execute_scheduled_charge_outcome(
    charge: ScheduledChargeView,
    ctx: ExecuteScheduledCharge,
    current_time: i64,
) -> Result<TransferInstruction, BlinkPayError> {
    match execution_refusal(charge, current_time) {
        Some(e) => Err(e),
        None => planned_transfer(
            ctx.transfer_accounts(),
            charge.token_mint,
            charge.authority,
            charge.recipient,
            charge.amount,
        ),
    }
}

/// Execute a scheduled charge at `current_time`. Anyone can execute a pending
/// charge that is due.
///
/// On success the charge is advanced as `ScheduledChargeView::executed` says,
/// and the transfer that the caller must carry out is returned: the charge's
/// amount, from its creator to its recipient. The charge is advanced before the
/// transfer is decided; where the execution is refused, it is as it was.
pub fn execute_scheduled_charge(
    ctx: ExecuteScheduledCharge,
    scheduled_charge: &mut ScheduledCharge,
    current_time: i64,
) -> (r: Result<TransferInstruction, BlinkPayError>)
    ensures
        r == execute_scheduled_charge_outcome(old(scheduled_charge)@, ctx, current_time),
        r is Ok ==> final(scheduled_charge)@ == old(scheduled_charge)@.executed(current_time),
        r is Err ==> final(scheduled_charge)@ == old(scheduled_charge)@,
        r is Ok ==> final(scheduled_charge).execution_count == old(scheduled_charge).execution_count
            + 1,
        r is Ok ==> final(scheduled_charge)@.within_cap(),
        r is Ok && old(scheduled_charge)@.reschedules() ==> final(scheduled_charge).execute_at
            == current_time + old(scheduled_charge).interval_seconds.unwrap(),
        old(scheduled_charge)@.well_formed() ==> final(scheduled_charge)@.well_formed(),
{
    if scheduled_charge.status != ScheduledChargeStatus::Pending {
        return Err(BlinkPayError::ScheduledChargeNotPending);
    }
    if !scheduled_charge.is_due(current_time) {
        return Err(BlinkPayError::ExecutionTimeNotReached);
    }
    if let Some(max_exec) = scheduled_charge.max_executions {
        if scheduled_charge.execution_count >= max_exec {
            return Err(BlinkPayError::MaxExecutionsExceeded);
        }
    }
    let execution_count = match scheduled_charge.execution_count.checked_add(1) {
        Some(count) => count,
        None => { return Err(BlinkPayError::Overflow); },
    };
    let mut execute_at = scheduled_charge.execute_at;
    let mut status = ScheduledChargeStatus::Pending;
    match scheduled_charge.charge_type {
        ScheduledChargeType::OneTime => {
            status = ScheduledChargeStatus::Executed;
        },
        ScheduledChargeType::Recurring => {
            if let Some(interval) = scheduled_charge.interval_seconds {
                execute_at = match current_time.checked_add_unsigned(interval) {
                    Some(next) => next,
                    None => { return Err(BlinkPayError::Overflow); },
                };
                // The cap counts from here on: this execution still goes through.
                if let Some(max_exec) = scheduled_charge.max_executions {
                    if execution_count >= max_exec {
                        status = ScheduledChargeStatus::Executed;
                    }
                }
            } else {
                // A recurring charge without an interval cannot come due again.
                status = ScheduledChargeStatus::Executed;
            }
        },
    }

    // The record moves on before the transfer is decided, so that whatever
    // runs from here on sees the charge as already executed.
    let previous_execute_at = scheduled_charge.execute_at;
    let previous_last_executed_at = scheduled_charge.last_executed_at;
    let previous_execution_count = scheduled_charge.execution_count;
    scheduled_charge.last_executed_at = Some(current_time);
    scheduled_charge.execution_count = execution_count;
    scheduled_charge.execute_at = execute_at;
    scheduled_charge.status = status;

    let amount = scheduled_charge.amount;
    match plan_transfer(
        &ctx.into_transfer_accounts(),
        &scheduled_charge.token_mint,
        &scheduled_charge.authority,
        &scheduled_charge.recipient,
        amount,
    ) {
        Ok(instruction) => Ok(instruction),
        Err(e) => {
            scheduled_charge.last_executed_at = previous_last_executed_at;
            scheduled_charge.execution_count = previous_execution_count;
            scheduled_charge.execute_at = previous_execute_at;
            scheduled_charge.status = ScheduledChargeStatus::Pending;
            Err(e)
        },
    }
}

/// The reason, if any, for which a cancellation is refused: the caller is not
/// the charge's creator, or else the charge is not pending.
pub open spec fn cancellation_refusal(charge: ScheduledChargeView, ctx: CancelScheduledCharge) -> Option<
    BlinkPayError,
> {
    if ctx.authority != charge.authority {
        Some(BlinkPayError::InvalidAuthority)
    } else if charge.status != ScheduledChargeStatus::Pending {
        Some(BlinkPayError::ScheduledChargeNotPending)
    } else {
        None
    }
}

/// Cancel a scheduled charge. Only its creator can, and only while it is
/// pending. A cancelled charge never executes again, and its storage is to be
/// released to the party that is returned: its creator. Where the cancellation
/// is refused, the charge is as it was.
pub fn cancel_scheduled_charge(
    ctx: &CancelScheduledCharge,
    scheduled_charge: &mut ScheduledCharge,
) -> (r: Result<Pubkey, BlinkPayError>)
    ensures
        match cancellation_refusal(old(scheduled_charge)@, *ctx) {
            Some(e) => r == Err::<Pubkey, BlinkPayError>(e)
                && final(scheduled_charge)@ == old(scheduled_charge)@,
            None => r == Ok::<Pubkey, BlinkPayError>(old(scheduled_charge).authority)
                && final(scheduled_charge)@ == old(scheduled_charge)@.cancelled(),
        },
        old(scheduled_charge)@.well_formed() ==> final(scheduled_charge)@.well_formed(),
{
    if ctx.authority != scheduled_charge.authority {
        return Err(BlinkPayError::InvalidAuthority);
    }
    if scheduled_charge.status != ScheduledChargeStatus::Pending {
        return Err(BlinkPayError::ScheduledChargeNotPending);
    }
    scheduled_charge.status = ScheduledChargeStatus::Cancelled;
    Ok(scheduled_charge.authority)
}

} // verus!
