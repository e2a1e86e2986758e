//! Persistence gateway: verified row preparation.

pub mod postgres;
