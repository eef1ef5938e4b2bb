//! The fundamental-factor indicator steps.

pub mod fundamental_step1;
pub mod fundamental_step2;
