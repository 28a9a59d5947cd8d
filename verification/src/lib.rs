//! Buffered batch import of JSON-embedded log lines.
//!
//! A stream of newline-delimited lines, each holding a fixed marker
//! followed by a JSON payload, is turned into typed log records, gathered
//! in a bounded buffer, and rendered as multi-row parameterized insert
//! statements for a relational store. The parse step, the accumulation
//! policy and the statement construction live here, with their contracts;
//! reading the stream and talking to the store are left to the program
//! around this library.

pub mod buffer;
pub mod ingest;
pub mod jsontree;
pub mod parse;
pub mod record;
pub mod statement;
pub mod timestamp;
