//! A customer resource controller: record model, store contract, outcome
//! mapping and response envelopes, with a verified in-memory store.
pub mod model;
pub mod error;
pub mod response;
pub mod controller;
pub mod store;
pub mod service;
pub mod laws;
