//! The accounts that a caller presents with each transition, and the
//! instructions that the transition issues to the asset transfer gateway.

pub mod make;
pub mod refund;
pub mod shared;
pub mod take;
