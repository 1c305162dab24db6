use vstd::prelude::*;

use crate::pubkey::Pubkey;
use crate::utils::{
    amount_is_valid, interval_is_valid, max_executions_is_valid, memo_is_valid,
    TIME_BUFFER_SECONDS,
};

verus! {

/// Status of a payment request. A request starts `Pending` and leaves that
/// state at most once.
#[derive(Clone, Copy, Debug, PartialEq, Eq, Structural)]
pub enum PaymentRequestStatus {
    Pending,
    Paid,
    Cancelled,
}

/// Status of a scheduled charge. A charge starts `Pending` and leaves that
/// state at most once.
#[derive(Clone, Copy, Debug, PartialEq, Eq, Structural)]
pub enum ScheduledChargeStatus {
    Pending,
    Executed,
    Cancelled,
}

/// Type of scheduled charge.
#[derive(Clone, Copy, Debug, PartialEq, Eq, Structural)]
pub enum ScheduledChargeType {
    OneTime,
    Recurring,
}

impl ScheduledChargeType {
    /// The charge type that a code stands for: 0 is `OneTime`, 1 is
    /// `Recurring`, and no other code stands for any.
    pub open spec fn spec_from_code(code: u8) -> Option<ScheduledChargeType> {
        if code == 0 {
            Some(ScheduledChargeType::OneTime)
        } else if code == 1 {
            Some(ScheduledChargeType::Recurring)
        } else {
            None
        }
    }

    /// Decodes a charge type, rejecting every code but 0 and 1.
    pub fn from_code(code: u8) -> (r: Option<ScheduledChargeType>)
        ensures
            r == Self::spec_from_code(code),
    {
        match code {
            0 => Some(ScheduledChargeType::OneTime),
            1 => Some(ScheduledChargeType::Recurring),
            _ => None,
        }
    }
}

/// Payment request: an invoice that any party may pay, once.
#[derive(Clone, Debug, PartialEq, Eq)]
pub struct PaymentRequest {
    /// The creator/owner of the payment request
    pub authority: Pubkey,
    /// The recipient who should receive the payment
    pub recipient: Pubkey,
    /// Amount to be paid (in smallest units)
    pub amount: u64,
    /// Token mint (the default identity for the native currency)
    pub token_mint: Pubkey,
    /// Optional memo/description
    pub memo: String,
    /// Timestamp when request was created
    pub created_at: i64,
    /// Status of the payment request
    pub status: PaymentRequestStatus,
    /// Bump seed of the record's derived address
    pub bump: u8,
}

/// What a payment request holds, as mathematical values.
pub struct PaymentRequestView {
    pub authority: Pubkey,
    pub recipient: Pubkey,
    pub amount: u64,
    pub token_mint: Pubkey,
    pub memo: Seq<char>,
    pub created_at: i64,
    pub status: PaymentRequestStatus,
    pub bump: u8,
}

impl View for PaymentRequest {
    type V = PaymentRequestView;

    open spec fn view(&self) -> PaymentRequestView {
        PaymentRequestView {
            authority: self.authority,
            recipient: self.recipient,
            amount: self.amount,
            token_mint: self.token_mint,
            memo: self.memo@,
            created_at: self.created_at,
            status: self.status,
            bump: self.bump,
        }
    }
}

impl PaymentRequestView {
    /// What holds of every request that was created by `create_payment_request`,
    /// whatever happened to it since.
    pub open spec fn well_formed(self) -> bool {
        &&& amount_is_valid(self.amount)
        &&& self.recipient != self.authority
        &&& memo_is_valid(self.memo)
    }

    /// The same request once it has been paid.
    pub open spec fn paid(self) -> PaymentRequestView {
        PaymentRequestView { status: PaymentRequestStatus::Paid, ..self }
    }
}

impl PaymentRequest {
    /// Bytes that a stored payment request takes.
    pub const LEN: usize = 8 + 32 + 32 + 8 + 32 + (4 + 200) + 8 + 1 + 1;
}

/// Scheduled charge: a debit that its creator authorises and that any party
/// may trigger once it is due.
#[derive(Clone, Debug, PartialEq, Eq)]
pub struct ScheduledCharge {
    /// The creator/owner of the scheduled charge
    pub authority: Pubkey,
    /// The recipient who should receive the payment
    pub recipient: Pubkey,
    /// Amount to be paid per execution (in smallest units)
    pub amount: u64,
    /// Token mint (the default identity for the native currency)
    pub token_mint: Pubkey,
    /// Type of scheduled charge
    pub charge_type: ScheduledChargeType,
    /// Timestamp when the charge is next due
    pub execute_at: i64,
    /// For recurring charges: interval between executions (in seconds)
    pub interval_seconds: Option<u64>,
    /// Timestamp of last execution (None if never executed)
    pub last_executed_at: Option<i64>,
    /// Maximum number of executions (None for unlimited recurring)
    pub max_executions: Option<u32>,
    /// Current execution count
    pub execution_count: u32,
    /// Optional memo/description
    pub memo: String,
    /// Timestamp when charge was created
    pub created_at: i64,
    /// Status of the scheduled charge
    pub status: ScheduledChargeStatus,
    /// Bump seed of the record's derived address
    pub bump: u8,
}

/// What a scheduled charge holds, as mathematical values.
pub struct ScheduledChargeView {
    pub authority: Pubkey,
    pub recipient: Pubkey,
    pub amount: u64,
    pub token_mint: Pubkey,
    pub charge_type: ScheduledChargeType,
    pub execute_at: i64,
    pub interval_seconds: Option<u64>,
    pub last_executed_at: Option<i64>,
    pub max_executions: Option<u32>,
    pub execution_count: u32,
    pub memo: Seq<char>,
    pub created_at: i64,
    pub status: ScheduledChargeStatus,
    pub bump: u8,
}

impl View for ScheduledCharge {
    type V = ScheduledChargeView;

    open spec fn view(&self) -> ScheduledChargeView {
        ScheduledChargeView {
            authority: self.authority,
            recipient: self.recipient,
            amount: self.amount,
            token_mint: self.token_mint,
            charge_type: self.charge_type,
            execute_at: self.execute_at,
            interval_seconds: self.interval_seconds,
            last_executed_at: self.last_executed_at,
            max_executions: self.max_executions,
            execution_count: self.execution_count,
            memo: self.memo@,
            created_at: self.created_at,
            status: self.status,
            bump: self.bump,
        }
    }
}

impl ScheduledChargeView {
    /// What holds of every charge that was created by `create_scheduled_charge`,
    /// whatever happened to it since.
    pub open spec fn well_formed(self) -> bool {
        &&& amount_is_valid(self.amount)
        &&& self.recipient != self.authority
        &&& memo_is_valid(self.memo)
        &&& self.charge_type == ScheduledChargeType::Recurring ==> self.interval_seconds is Some
            && interval_is_valid(self.interval_seconds.unwrap())
        &&& self.max_executions matches Some(cap) ==> max_executions_is_valid(cap)
        &&& self.within_cap()
        &&& self.status == ScheduledChargeStatus::Pending ==> self.below_cap()
        &&& self.execution_count == 0 <==> self.last_executed_at is None
        &&& self.status == ScheduledChargeStatus::Executed ==> self.execution_count >= 1
    }

    /// The charge has been executed no more often than its cap allows, if it
    /// has one.
    pub open spec fn within_cap(self) -> bool {
        self.max_executions matches Some(cap) ==> self.execution_count <= cap
    }

    /// The charge has not used up its execution cap, or has none.
    pub open spec fn below_cap(self) -> bool {
        self.max_executions matches Some(cap) ==> self.execution_count < cap
    }

    /// The charge is due at `current_time`: its due time lies at most
    /// `TIME_BUFFER_SECONDS` ahead.
    pub open spec fn is_due(self, current_time: i64) -> bool {
        current_time >= self.execute_at - TIME_BUFFER_SECONDS
    }

    /// An execution moves the due time on: the charge recurs and has an interval.
    pub open spec fn reschedules(self) -> bool {
        self.charge_type == ScheduledChargeType::Recurring && self.interval_seconds is Some
    }

    /// The same charge once it has been executed at `current_time`. The count
    /// goes up by one and the time is noted. A one-time charge is then done. A
    /// recurring one is due again one interval after `current_time`, and is
    /// done only if this execution used up its cap, or if it has no interval.
    pub open spec fn executed(self, current_time: i64) -> ScheduledChargeView {
        let count = (self.execution_count + 1) as u32;
        ScheduledChargeView {
            last_executed_at: Some(current_time),
            execution_count: count,
            execute_at: if self.reschedules() {
                (current_time + self.interval_seconds.unwrap()) as i64
            } else {
                self.execute_at
            },
            status: if self.reschedules() && !(self.max_executions matches Some(cap) && count
                >= cap) {
                ScheduledChargeStatus::Pending
            } else {
                ScheduledChargeStatus::Executed
            },
            ..self
        }
    }

    /// The same charge once it has been cancelled.
    pub open spec fn cancelled(self) -> ScheduledChargeView {
        ScheduledChargeView { status: ScheduledChargeStatus::Cancelled, ..self }
    }
}

impl ScheduledCharge {
    /// Bytes that a stored scheduled charge takes.
    pub const LEN: usize = 8 + 32 + 32 + 8 + 32 + 1 + 8 + (1 + 8) + (1 + 8) + (1 + 4) + 4 + (4
        + 200) + 8 + 1 + 1;

    /// Tells whether the charge is due at `current_time`. An executor whose
    /// clock runs up to `TIME_BUFFER_SECONDS` behind the due time is let through.
    pub fn is_due(&self, current_time: i64) -> (due: bool)
        ensures
            due == self@.is_due(current_time),
    {
        match self.execute_at.checked_sub(TIME_BUFFER_SECONDS) {
            Some(earliest) => current_time >= earliest,
            None => true,
        }
    }
}

} // verus!
