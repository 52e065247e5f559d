//! The instructions of the escrow: make, take and refund.

pub mod make;
pub mod refund;
pub mod take;
