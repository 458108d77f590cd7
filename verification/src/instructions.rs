//! The operations of the pool, one module each.

pub mod deposit;
pub mod initialize;
pub mod swap;
pub mod withdraw;
