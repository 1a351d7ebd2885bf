//! Condition-gated strategy execution engine: a recursive condition data
//! model, its satisfaction semantics against a frozen chain-state snapshot,
//! deterministic fingerprinting, complexity accounting, and the strategy and
//! trigger lifecycle state machines that conditions gate.
pub mod assets;
pub mod conditions;
pub mod fingerprint;
pub mod manager;
pub mod msg;
pub mod state;
pub mod swap;
pub mod types;

pub use conditions::Condition;
