//! A verified instruction processor for a batched value-transfer protocol.
//!
//! Given an encoded instruction and an ordered list of account handles, the
//! library decodes the instruction, validates the positional account-binding
//! scheme and its authorization rules, and produces the ordered sequence of
//! downstream transfer invocations that a runtime driver must perform.

pub mod accounts;
pub mod codec;
pub mod errors;
pub mod instructions;
pub mod processor;
