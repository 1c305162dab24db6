//! The two kinds of operation: on payment requests and on scheduled charges.

pub mod payment_request;
pub mod scheduled_charge;
