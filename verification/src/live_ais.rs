//! The live AIS API: response record shapes, token lifecycle and fetch
//! interpretation.

pub mod ais_stream;
pub mod response_structs;
