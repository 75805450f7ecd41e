//! Provenance scoring library: reduces content-authenticity claim records and
//! their cryptographic validation outcome to a bounded suspicion score, a
//! confidence level and a four-way verdict, and aggregates batch evaluation
//! results against a known ground truth.

pub mod claimdata;
pub mod evalresult;
pub mod report;
pub mod response;
pub mod scoring;
pub mod text;
pub mod validation;
