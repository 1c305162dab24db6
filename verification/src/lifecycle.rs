use vstd::prelude::*;
use vstd::utf8::{is_ascii_chars, is_ascii_chars_encode_utf8};

use crate::errors::BlinkPayError;
use crate::instructions::payment_request::{
    create_payment_request_refusal, created_payment_request, pay_request_outcome,
    CreatePaymentRequest, PayRequest,
};
use crate::instructions::scheduled_charge::{
    cancellation_refusal, create_scheduled_charge_refusal, created_scheduled_charge,
    execute_scheduled_charge_outcome, execution_refusal, CancelScheduledCharge,
    CreateScheduledCharge, ExecuteScheduledCharge,
};
use crate::pubkey::Pubkey;
use crate::state::{
    PaymentRequestStatus, PaymentRequestView, ScheduledChargeStatus, ScheduledChargeType,
    ScheduledChargeView,
};
use crate::token_account::token_account_owner;
use crate::transfer::TransferInstruction;
use crate::utils::{memo_is_valid, memo_len, MAX_MEMO_LENGTH, TIME_BUFFER_SECONDS};

verus! {

/// A request made of acceptable inputs starts pending. The first accepted
/// payment marks it paid, and from then on every payment is refused with
/// `PaymentRequestNotPending`, whoever pays and whatever accounts come with it:
/// a request is paid at most once.
pub proof fn lemma_request_is_paid_once(
    ctx: CreatePaymentRequest,
    amount: u64,
    token_mint: Pubkey,
    recipient: Pubkey,
    memo: Seq<char>,
    current_time: i64,
    first: PayRequest,
    second: PayRequest,
)
    requires
        create_payment_request_refusal(ctx.authority, amount, recipient, memo) is None,
        pay_request_outcome(
            created_payment_request(ctx, amount, token_mint, recipient, memo, current_time),
            first,
        ) is Ok,
    ensures
        created_payment_request(ctx, amount, token_mint, recipient, memo, current_time).status
            == PaymentRequestStatus::Pending,
        created_payment_request(
            ctx,
            amount,
            token_mint,
            recipient,
            memo,
            current_time,
        ).paid().status == PaymentRequestStatus::Paid,
        pay_request_outcome(
            created_payment_request(ctx, amount, token_mint, recipient, memo, current_time).paid(),
            second,
        ) == Err::<TransferInstruction, BlinkPayError>(BlinkPayError::PaymentRequestNotPending),
{
}

/// A request that is not pending stays as it is: every payment of it is
/// refused with `PaymentRequestNotPending`.
pub proof fn lemma_settled_request_refuses_payment(request: PaymentRequestView, ctx: PayRequest)
    requires
        request.status != PaymentRequestStatus::Pending,
    ensures
        pay_request_outcome(request, ctx) == Err::<TransferInstruction, BlinkPayError>(
            BlinkPayError::PaymentRequestNotPending,
        ),
{
}

/// An accepted payment moves exactly the request's amount of the request's
/// asset from the payer towards the request's recipient.
pub proof fn lemma_payment_moves_the_requested_amount(request: PaymentRequestView, ctx: PayRequest)
    requires
        pay_request_outcome(request, ctx) is Ok,
    ensures
        match pay_request_outcome(request, ctx).unwrap() {
            TransferInstruction::Sol { from, to, amount } => {
                &&& request.token_mint == Pubkey::spec_default()
                &&& from == ctx.payer
                &&& to == request.recipient
                &&& amount == request.amount
            },
            TransferInstruction::SplToken { from, to, authority, token_program, amount } => {
                &&& request.token_mint != Pubkey::spec_default()
                &&& ctx.payer_token_account is Some
                &&& from == ctx.payer_token_account.unwrap().key
                &&& token_account_owner(ctx.payer_token_account.unwrap().data@) == Some(
                    ctx.payer@,
                )
                &&& Some(to) == ctx.recipient_token_account
                &&& authority == ctx.payer
                &&& Some(token_program) == ctx.token_program
                &&& amount == request.amount
            },
        },
{
}

/// An accepted execution moves exactly the charge's amount of the charge's
/// asset from its creator towards its recipient.
pub proof fn lemma_execution_moves_the_charged_amount(
    charge: ScheduledChargeView,
    ctx: ExecuteScheduledCharge,
    current_time: i64,
)
    requires
        execute_scheduled_charge_outcome(charge, ctx, current_time) is Ok,
    ensures
        match execute_scheduled_charge_outcome(charge, ctx, current_time).unwrap() {
            TransferInstruction::Sol { from, to, amount } => {
                &&& charge.token_mint == Pubkey::spec_default()
                &&& from == charge.authority
                &&& to == charge.recipient
                &&& amount == charge.amount
            },
            TransferInstruction::SplToken { from, to, authority, token_program, amount } => {
                &&& charge.token_mint != Pubkey::spec_default()
                &&& ctx.authority_token_account is Some
                &&& from == ctx.authority_token_account.unwrap().key
                &&& token_account_owner(ctx.authority_token_account.unwrap().data@) == Some(
                    charge.authority@,
                )
                &&& Some(to) == ctx.recipient_token_account
                &&& authority == charge.authority
                &&& Some(token_program) == ctx.token_program
                &&& amount == charge.amount
            },
        },
{
}

/// An accepted execution raises the execution count by exactly one, and the
/// count it leaves is never above the cap, where the charge has one.
pub proof fn lemma_execution_counts_up_within_cap(
    charge: ScheduledChargeView,
    ctx: ExecuteScheduledCharge,
    current_time: i64,
)
    requires
        execute_scheduled_charge_outcome(charge, ctx, current_time) is Ok,
    ensures
        charge.executed(current_time).execution_count == charge.execution_count + 1,
        charge.executed(current_time).within_cap(),
{
}

/// Once the count has reached the cap, no execution is accepted: the cap holds
/// however often an execution is tried.
pub proof fn lemma_cap_is_never_exceeded(
    charge: ScheduledChargeView,
    ctx: ExecuteScheduledCharge,
    current_time: i64,
)
    requires
        charge.max_executions is Some,
        charge.execution_count >= charge.max_executions.unwrap(),
    ensures
        execute_scheduled_charge_outcome(charge, ctx, current_time) is Err,
{
}

/// An accepted execution at `current_time` of a recurring charge with interval
/// `interval` leaves it due at exactly `current_time + interval`, whenever it
/// was due before.
pub proof fn lemma_recurring_charge_is_due_one_interval_later(
    charge: ScheduledChargeView,
    ctx: ExecuteScheduledCharge,
    current_time: i64,
    interval: u64,
)
    requires
        charge.charge_type == ScheduledChargeType::Recurring,
        charge.interval_seconds == Some(interval),
        execute_scheduled_charge_outcome(charge, ctx, current_time) is Ok,
    ensures
        charge.executed(current_time).execute_at == current_time + interval,
{
}

/// A charge that is tried more than `TIME_BUFFER_SECONDS` before its due time
/// is refused with `ExecutionTimeNotReached`, if it is pending; in particular
/// one second beyond the buffer.
pub proof fn lemma_execution_before_the_buffer_is_refused(
    charge: ScheduledChargeView,
    ctx: ExecuteScheduledCharge,
    current_time: i64,
)
    requires
        charge.status == ScheduledChargeStatus::Pending,
        current_time <= charge.execute_at - TIME_BUFFER_SECONDS - 1,
    ensures
        !charge.is_due(current_time),
        execute_scheduled_charge_outcome(charge, ctx, current_time) == Err::<
            TransferInstruction,
            BlinkPayError,
        >(BlinkPayError::ExecutionTimeNotReached),
{
}

/// A charge that is tried exactly `TIME_BUFFER_SECONDS` before its due time, or
/// later, is due. If it is well formed and pending, its count can still go up
/// and its next due time fits in 64 bits, the record and the clock rule
/// nothing out: the execution succeeds whenever the accounts allow the
/// transfer.
pub proof fn lemma_execution_within_the_buffer_is_due(
    charge: ScheduledChargeView,
    ctx: ExecuteScheduledCharge,
    current_time: i64,
)
    requires
        current_time >= charge.execute_at - TIME_BUFFER_SECONDS,
    ensures
        charge.is_due(current_time),
        execute_scheduled_charge_outcome(charge, ctx, current_time) != Err::<
            TransferInstruction,
            BlinkPayError,
        >(BlinkPayError::ExecutionTimeNotReached),
        charge.well_formed() && charge.status == ScheduledChargeStatus::Pending
            && charge.execution_count < u32::MAX && (charge.reschedules() ==> current_time
            + charge.interval_seconds.unwrap() <= i64::MAX) ==> execution_refusal(
            charge,
            current_time,
        ) is None,
{
}

/// A memo of exactly `MAX_MEMO_LENGTH` bytes is accepted, and one of a single
/// byte more is not.
pub proof fn lemma_memo_length_boundary(memo: Seq<char>)
    ensures
        memo_len(memo) == MAX_MEMO_LENGTH ==> memo_is_valid(memo),
        memo_len(memo) == MAX_MEMO_LENGTH + 1 ==> !memo_is_valid(memo),
{
}

/// A memo of ASCII characters is as long as it has characters.
pub proof fn lemma_ascii_memo_len(memo: Seq<char>)
    requires
        is_ascii_chars(memo),
    ensures
        memo_len(memo) == memo.len(),
{
    is_ascii_chars_encode_utf8(memo);
}

/// A charge made of acceptable inputs starts pending, never executed, and well
/// formed.
pub proof fn lemma_created_charge_is_well_formed(
    ctx: CreateScheduledCharge,
    amount: u64,
    token_mint: Pubkey,
    recipient: Pubkey,
    execute_at: i64,
    charge_type: u8,
    interval_seconds: Option<u64>,
    max_executions: Option<u32>,
    memo: Seq<char>,
    current_time: i64,
)
    requires
        create_scheduled_charge_refusal(
            ctx.authority,
            amount,
            recipient,
            execute_at,
            charge_type,
            interval_seconds,
            max_executions,
            memo,
            current_time,
        ) is None,
    ensures
        ScheduledChargeType::spec_from_code(charge_type) is Some,
        created_scheduled_charge(
            ctx,
            amount,
            token_mint,
            recipient,
            execute_at,
            ScheduledChargeType::spec_from_code(charge_type).unwrap(),
            interval_seconds,
            max_executions,
            memo,
            current_time,
        ).well_formed(),
{
}

/// Executing a well-formed charge leaves a well-formed charge, and never meets
/// a used-up cap: a well-formed pending charge is below its cap.
pub proof fn lemma_execution_keeps_charge_well_formed(
    charge: ScheduledChargeView,
    ctx: ExecuteScheduledCharge,
    current_time: i64,
)
    requires
        charge.well_formed(),
    ensures
        execute_scheduled_charge_outcome(charge, ctx, current_time) is Ok ==> charge.executed(
            current_time,
        ).well_formed(),
        execute_scheduled_charge_outcome(charge, ctx, current_time) != Err::<
            TransferInstruction,
            BlinkPayError,
        >(BlinkPayError::MaxExecutionsExceeded),
{
}

/// A charge that is not pending stays as it is: every execution of it is
/// refused with `ScheduledChargeNotPending`, and every cancellation is refused
/// too.
pub proof fn lemma_settled_charge_refuses_everything(
    charge: ScheduledChargeView,
    execution: ExecuteScheduledCharge,
    cancellation: CancelScheduledCharge,
    current_time: i64,
)
    requires
        charge.status != ScheduledChargeStatus::Pending,
    ensures
        execute_scheduled_charge_outcome(charge, execution, current_time) == Err::<
            TransferInstruction,
            BlinkPayError,
        >(BlinkPayError::ScheduledChargeNotPending),
        cancellation_refusal(charge, cancellation) is Some,
{
}

/// An execution that is accepted settles a one-time charge, and settles a
/// recurring charge exactly when it used up the cap or the charge has no
/// interval.
pub proof fn lemma_execution_settles_the_charge(
    charge: ScheduledChargeView,
    ctx: ExecuteScheduledCharge,
    current_time: i64,
)
    requires
        execute_scheduled_charge_outcome(charge, ctx, current_time) is Ok,
    ensures
        charge.charge_type == ScheduledChargeType::OneTime ==> charge.executed(
            current_time,
        ).status == ScheduledChargeStatus::Executed,
        charge.reschedules() ==> (charge.executed(current_time).status
            == ScheduledChargeStatus::Executed <==> (charge.max_executions is Some
            && charge.execution_count + 1 >= charge.max_executions.unwrap())),
        charge.executed(current_time).last_executed_at == Some(current_time),
{
}

/// Whoever is not the creator cannot cancel: the cancellation is refused with
/// `InvalidAuthority`, whatever state the charge is in.
pub proof fn lemma_only_the_creator_cancels(charge: ScheduledChargeView, ctx: CancelScheduledCharge)
    requires
        ctx.authority != charge.authority,
    ensures
        cancellation_refusal(charge, ctx) == Some(BlinkPayError::InvalidAuthority),
{
}

} // verus!
