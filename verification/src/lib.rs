//! Command layer for an interactive shell speaking to a distributed database
//! cluster: topology listing and query execution, with all result shapes
//! converted into a uniform structured-value tree.
//!
//! The network itself (HTTP transport, the query service client, the
//! async-to-sync bridge) lives outside this crate; this crate holds and
//! verifies every decision made on the data: host derivation, the admin
//! payload schema, service-code decoding, value conversion, and the
//! fail-fast handling of streamed query rows.

pub mod commands;
pub mod json;
pub mod query;
pub mod service;
pub mod topology;
pub mod value;
