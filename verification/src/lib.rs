//! A constant-product AMM pool: the decisions of its `lock` and `swap`
//! instructions, stated and proved over plain values.

pub mod constants;
pub mod error;
pub mod laws;
pub mod lock;
pub mod state;
pub mod swap;
