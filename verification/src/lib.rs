//! Verified core of a multi-phase debate orchestrator.
//!
//! Three fixed roles (Proponent, Opponent, Judge) speak in a fixed phase
//! order; every completed turn is appended to a transcript, compressed to a
//! token budget for the next prompt, and persisted for replay. This crate
//! holds the orchestration logic itself — scheduling, compression, event
//! taxonomy and framing, rate limiting, prompt construction, and the
//! persistence contract — with machine-checked contracts. Network transport,
//! storage engines, and HTTP routing live outside it.

pub mod compress;
pub mod config;
pub mod events;
pub mod prompts;
pub mod ratelimit;
pub mod rounds;
pub mod session;
pub mod storage;
pub mod tools;
pub mod types;
