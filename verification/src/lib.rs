//! Request orchestration for a gateway that sits between editor tooling and two
//! backends: a memory service and an intelligence service.
//!
//! The crate performs no I/O. Every operation is split at the point where the
//! network would be touched: one function decides what to send, the caller sends
//! it, and a second function interprets what came back. All decisions (identity
//! resolution, request shaping, status classification, response assembly and the
//! outcome reported to the metrics sink) are made here and are verified.

pub mod backend;
pub mod config;
pub mod errors;
pub mod json;
pub mod metrics;
pub mod middleware;
pub mod models;
pub mod routes;
pub mod services;
pub mod text;
