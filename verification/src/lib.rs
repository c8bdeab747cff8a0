//! Bridge between a callback-driven native inference engine and a
//! pull-based consumer interface.
//!
//! The library owns the verified core: the configuration signature that
//! keys the engine cache, the runtime registry that guarantees at most one
//! initialization per signature, and the callback trampoline state machine
//! that turns the engine's push-style completion protocol into an ordered,
//! well-terminated sequence of text fragments.

pub mod api_models;
pub mod args;
pub mod chat;
pub mod config;
pub mod defaults;
pub mod serve;
pub mod rkllm_runtime;
pub mod session;
