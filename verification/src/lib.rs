//! A trace bridge between a stack-machine interpreter and an external
//! tracing engine.
//!
//! The execution engine calls the hooks of [`dispatch`] at every
//! instruction and on each side of a call or creation frame. A hook reads
//! plain values, advances the [`session`] and the prefetch [`relay`], and
//! returns the [`event`]s that its caller hands to the tracing engine in
//! [`wire`] form. Nothing in this crate performs a call into the engine or
//! reads the chain state: where a hook needs either, it says so in what it
//! returns, and takes the answer as an argument of the next call.
//!
//! In the other direction the engine hands back textual trace records. The
//! [`decoder`] queues them and decodes each into an event log.
//!
//! A session is created by [`setup`], which also says how the engine is to
//! be initialized for it.

pub mod decoder;
pub mod dispatch;
pub mod error;
pub mod event;
pub mod relay;
pub mod session;
pub mod setup;
pub mod wire;
