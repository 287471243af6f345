//! Block-pinned read-only contract queries for a NEAR-style node: building
//! view-call requests, classifying call outcomes into a small error taxonomy,
//! and decoding wire payloads into typed domain records.

pub mod base64;
pub mod decode;
pub mod error;
pub mod jsonval;
pub mod numeric;
pub mod outcome;
pub mod request;
pub mod text;
