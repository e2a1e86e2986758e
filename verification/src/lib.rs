//! Verified core of a batch ingestion pipeline for live maritime AIS
//! (Automatic Identification System) reports.
//!
//! The library owns the logic of the pipeline: the OAuth2 token refresh
//! policy, the interpretation of fetch outcomes, the classification of
//! heterogeneous report records into three typed collections, the
//! preparation of database rows (including tolerant timestamp parsing),
//! and the orchestration of one ingestion run as a state machine.
//! Network and database I/O are performed by the surrounding application,
//! which drives the state machine and hands outcomes back as plain values.

pub mod classify;
pub mod database;
pub mod live_ais;
pub mod orchestrator;
