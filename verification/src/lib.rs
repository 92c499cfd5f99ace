//! An inline HTTP filter that sits between chat clients and upstream LLM
//! providers: it classifies the latest user turn against a catalog of prompt
//! targets, optionally invokes the matched tool endpoint, rewrites the
//! request, and forwards it upstream.
//!
//! The crate holds the per-request orchestration state machine, the intent
//! resolver (description-embedding similarity fused with a zero-shot
//! classifier score), and the startup catalog of description embeddings.
//! All I/O is performed by the host shell around the library; the library
//! computes every decision and states it in contracts. Similarity scores are
//! fixed-point integers in millionths of a unit.

pub mod catalog;
pub mod common_types;
pub mod configuration;
pub mod consts;
pub mod decimal;
pub mod filter_context;
pub mod headers;
pub mod llm_backend;
pub mod open_ai;
pub mod routing;
pub mod score;
pub mod sse;
pub mod stats;
pub mod stream_context;
pub mod token_map;
