use vstd::prelude::*;

use crate::errors::BlinkPayError;
use crate::pubkey::Pubkey;
use crate::state::{PaymentRequest, PaymentRequestStatus, PaymentRequestView};
use crate::token_account::TokenAccountInfo;
use crate::transfer::{plan_transfer, planned_transfer, TransferAccounts, TransferInstruction};
use crate::utils::{
    amount_is_valid, memo_is_valid, validate_amount, validate_memo, validate_token_mint,
};

verus! {

/// What comes with the creation of a payment request.
#[derive(Clone, Copy, Debug, PartialEq, Eq)]
pub struct CreatePaymentRequest {
    /// The party creating the payment request
    pub authority: Pubkey,
    /// Bump seed of the address under which the request will be stored
    pub bump: u8,
}

/// What comes with the payment of a payment request.
#[derive(Clone, Debug, PartialEq, Eq)]
pub struct PayRequest {
    /// The payer fulfilling the payment request
    pub payer: Pubkey,
    /// Recipient's own account (for native payments)
    pub recipient: Option<Pubkey>,
    /// Payer's token account (for token payments)
    pub payer_token_account: Option<TokenAccountInfo>,
    /// Recipient's token account (for token payments)
    pub recipient_token_account: Option<Pubkey>,
    /// Token program (for token payments)
    pub token_program: Option<Pubkey>,
}

impl PayRequest {
    /// The accounts between which the payment can move funds. The payer's own
    /// account is always among them.
    pub open spec fn transfer_accounts(self) -> TransferAccounts {
        TransferAccounts {
            source: Some(self.payer),
            recipient: self.recipient,
            source_token_account: self.payer_token_account,
            recipient_token_account: self.recipient_token_account,
            token_program: self.token_program,
        }
    }

    fn into_transfer_accounts(self) -> (accounts: TransferAccounts)
        ensures
            accounts == self.transfer_accounts(),
    {
        TransferAccounts {
            source: Some(self.payer),
            recipient: self.recipient,
            source_token_account: self.payer_token_account,
            recipient_token_account: self.recipient_token_account,
            token_program: self.token_program,
        }
    }
}

/// The first reason, if any, for which a payment request is not created: the
/// amount, then the memo, then a recipient that is the creator itself.
pub open spec fn create_payment_request_refusal(
    authority: Pubkey,
    amount: u64,
    recipient: Pubkey,
    memo: Seq<char>,
) -> Option<BlinkPayError> {
    if !amount_is_valid(amount) {
        Some(BlinkPayError::InvalidAmount)
    } else if !memo_is_valid(memo) {
        Some(BlinkPayError::MemoTooLong)
    } else if recipient == authority {
        Some(BlinkPayError::InvalidRecipient)
    } else {
        None
    }
}

/// The request that `create_payment_request` makes of acceptable inputs.
pub open spec fn created_payment_request(
    ctx: CreatePaymentRequest,
    amount: u64,
    token_mint: Pubkey,
    recipient: Pubkey,
    memo: Seq<char>,
    current_time: i64,
) -> PaymentRequestView {
    PaymentRequestView {
        authority: ctx.authority,
        recipient,
        amount,
        token_mint,
        memo,
        created_at: current_time,
        status: PaymentRequestStatus::Pending,
        bump: ctx.bump,
    }
}

/// Create a new payment request, which anyone may then pay.
///
/// The request is refused for the first of: an amount that is zero or above
/// `MAX_AMOUNT`, a memo that is too long, a recipient that is the creator.
/// Otherwise it is created pending, with the inputs as given.
pub fn create_payment_request(
    ctx: &CreatePaymentRequest,
    amount: u64,
    token_mint: Pubkey,
    recipient: Pubkey,
    memo: String,
    current_time: i64,
) -> (r: Result<PaymentRequest, BlinkPayError>)
    ensures
        match create_payment_request_refusal(ctx.authority, amount, recipient, memo@) {
            Some(e) => r matches Err(err) && err == e,
            None => r matches Ok(request) && request@ == created_payment_request(
                *ctx,
                amount,
                token_mint,
                recipient,
                memo@,
                current_time,
            ),
        },
        r matches Ok(request) ==> request@.well_formed(),
{
    match validate_amount(amount) {
        Ok(()) => {},
        Err(e) => { return Err(e); },
    }
    match validate_token_mint(&token_mint) {
        Ok(()) => {},
        Err(e) => { return Err(e); },
    }
    match validate_memo(memo.as_str()) {
        Ok(()) => {},
        Err(e) => { return Err(e); },
    }
    // A request to oneself could be paid without anything moving.
    if recipient == ctx.authority {
        return Err(BlinkPayError::InvalidRecipient);
    }
    Ok(
        PaymentRequest {
            authority: ctx.authority,
            recipient,
            amount,
            token_mint,
            memo,
            created_at: current_time,
            status: PaymentRequestStatus::Pending,
            bump: ctx.bump,
        },
    )
}

/// What a payment of `request` with the accounts of `ctx` comes to: the
/// transfer from the payer to the request's recipient, or the reason why the
/// payment is refused. A request that is not pending is refused before the
/// accounts are looked at.
pub open spec fn pay_request_outcome(request: PaymentRequestView, ctx: PayRequest) -> Result<
    TransferInstruction,
    BlinkPayError,
> {
    if request.status != PaymentRequestStatus::Pending {
        Err(BlinkPayError::PaymentRequestNotPending)
    } else {
        planned_transfer(
            ctx.transfer_accounts(),
            request.token_mint,
            ctx.payer,
            request.recipient,
            request.amount,
        )
    }
}

/// Pay a payment request. Anyone can pay a pending request.
///
/// On success the request is marked paid, and the transfer that the caller must
/// carry out is returned: the request's amount, from the payer to the request's
/// recipient. The request is marked before the transfer is decided; where the
/// payment is refused, it is as it was.
pub fn pay_request(ctx: PayRequest, payment_request: &mut PaymentRequest) -> (r: Result<
    TransferInstruction,
    BlinkPayError,
>)
    ensures
        r == pay_request_outcome(old(payment_request)@, ctx),
        r is Ok ==> final(payment_request)@ == old(payment_request)@.paid(),
        r is Err ==> final(payment_request)@ == old(payment_request)@,
        old(payment_request)@.well_formed() ==> final(payment_request)@.well_formed(),
{
    if payment_request.status != PaymentRequestStatus::Pending {
        return Err(BlinkPayError::PaymentRequestNotPending);
    }
    let payer = ctx.payer;
    let amount = payment_request.amount;

    // Mark as paid first: whatever runs from here on sees a request that is
    // no longer open.
    payment_request.status = PaymentRequestStatus::Paid;

    match plan_transfer(
        &ctx.into_transfer_accounts(),
        &payment_request.token_mint,
        &payer,
        &payment_request.recipient,
        amount,
    ) {
        Ok(instruction) => Ok(instruction),
        Err(e) => {
            payment_request.status = PaymentRequestStatus::Pending;
            Err(e)
        },
    }
}

} // verus!
