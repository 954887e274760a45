//! Validate a stream of JSON instances against a JSON Typedef schema.
//!
//! The validation engine itself (the `jtd` crate) and the JSON parser
//! (`serde_json`) are external collaborators; this crate holds the driver
//! logic around them: resolving the effective validation limits from the
//! command-line flags, ingesting and structurally checking the schema,
//! invoking the validator per instance, rendering error paths as JSON
//! Pointers, and deciding the run's outcome and exit status.

pub mod engine;
pub mod options;
pub mod outcome;
pub mod pointer;
pub mod report;
pub mod strutil;
