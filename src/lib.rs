//! Partial application and composition for callables of one and two arguments.
//!
//! [`unary::chain`] and [`binary::chain`] compose a callable with a one-argument callable
//! that takes its result; [`binary::with`] fixes the first argument of a two-argument
//! callable. Each returns a new callable, which can be cloned, and which can be sent to
//! another thread when everything that it holds can.
pub mod binary;
pub mod unary;

pub use binary::Binary;
pub use unary::Unary;
