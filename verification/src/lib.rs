//! Core of a three-stage streaming fraud-detection pipeline.
//!
//! Transactions are synthesized by a producer, classified against a versioned
//! model, routed to an alarm sink when flagged, and persisted as pending
//! review records.  The stages communicate through FIFO buffers with
//! open/closed semantics; shutdown cascades from the producer downstream.

pub mod adapters;
pub mod consumer;
pub mod domain;
pub mod format;
pub mod laws;
pub mod logger;
pub mod modelizer;
pub mod ports;
pub mod producer;
pub mod rng;
