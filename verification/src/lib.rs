//! Per-connection session engine for a retrieval-augmented chat backend.
//!
//! A client sends a question over a persistent connection; the server
//! optionally rewrites the question using prior conversation turns, optionally
//! augments it with passages retrieved from a similarity index, and streams a
//! generated answer back incrementally.  This crate holds the verified core:
//! the session state machine that turns inbound frames, timer ticks and stream
//! fragments into ordered outbound actions, together with the question
//! reformulation, vector serialization, search-reply parsing and context
//! assembly that a request cycle needs.  The wire-level clients (transport,
//! generation service, index service) are external collaborators driven by a
//! thin unverified shell around this library.

pub mod numbers;
pub mod embeddings;
pub mod llm;
pub mod envs;
pub mod resp;
pub mod vector_store;
pub mod frames;
pub mod engine;
