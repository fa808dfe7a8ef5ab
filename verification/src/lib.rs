//! A verified core for a calculator chat agent.
//!
//! A conversational agent delegates arithmetic to a calculator tool server
//! and advertises that server's tool catalog to a language-model provider.
//! This crate holds the decision logic of both halves with contracts:
//!
//! - [`operand`]: numeric operands, classified by their IEEE 754 binary64
//!   bit patterns (the crate itself performs no floating-point arithmetic);
//! - [`calculator`]: validation and dispatch of the arithmetic operations,
//!   with exact error classification;
//! - [`server`]: the tool catalog and the invocation protocol of the
//!   calculator tool server;
//! - [`chat`]: conversation history, the model request, and the assembly of
//!   the assistant reply from model response segments and tool outcomes.
//!
//! Floating-point evaluation and all transport (the tool server subprocess,
//! the HTTP calls to the model provider) are performed by the unverified
//! host around this library, which hands results back as plain values.

pub mod calculator;
pub mod chat;
pub mod operand;
pub mod server;
pub mod text;
