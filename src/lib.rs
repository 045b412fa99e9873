//! A flat bridge around a streaming character-encoding detector: one
//! detector lives in caller-owned storage, is fed a byte stream in chunks,
//! and reports its guess as an index into a fixed registry of encodings.

pub mod detector;
pub mod hint;
pub mod laws;
pub mod registry;
