//! Verified core of a storage-layout benchmark: deterministic synthetic user
//! records in two representations (flat attributes vs. one nested document),
//! an analytics transform that derives metrics from nested documents, and a
//! benchmark sweep that reports fetch counts and elapsed times per scale.

pub mod analytics;
pub mod bench;
pub mod record;
pub mod synth;
pub mod text;
