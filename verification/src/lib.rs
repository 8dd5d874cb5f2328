//! A multi-tenant SQL sandbox and result-set comparator: untrusted queries
//! run against isolated, read-only databases derived from a schema script,
//! and their result sets are compared under configurable normalizations.
//!
//! The library holds the execution and comparison core, with its behaviour
//! stated in contracts: the tagged value model and the row decoder, the
//! result-set normalizer, the keyed-hash identity of an environment, the
//! provisioning protocol with its exact statement texts, the connection
//! registry's keys and URLs, and the comparator. Asynchronous drivers own
//! the pools and feed events to the provisioning protocol from outside.

pub mod api;
pub mod auth;
pub mod compare;
pub mod config;
pub mod conn;
pub mod decode;
pub mod error;
pub mod feedback;
pub mod identity;
pub mod introspect;
pub mod model;
pub mod order;
pub mod provision;
pub mod result_set;
pub mod runner;
pub mod text;
pub mod value;
