//! Custody of per-identity encrypted secrets and orchestration of key
//! derivation, with two small services beside it.
//!
//! - [`identity`]: caller identities and the anonymous one.
//! - [`memory`]: the stable memory and the regions that durable structures
//!   are opened on.
//! - [`store`]: the durable map from identity to encrypted secret.
//! - [`types`], [`vet_keys`]: what is exchanged with the key-derivation
//!   oracle, and the requests put to it.
//! - [`custody`]: the operations a caller can request, and the stepwise
//!   workflow that answers a request for asymmetric keys.
//! - [`laws`]: what holds of store and workflow on every input.
//! - [`error`]: how a request can fail.
//! - [`http`], [`http_incoming`], [`hit_counter`], [`decimal`]: an HTTP
//!   service around a durable counter.
//! - [`http_outcall`]: outgoing HTTP requests and their fee.
//! - [`counter`]: a counter of unbounded range.

pub mod counter;
pub mod custody;
pub mod decimal;
pub mod error;
pub mod hit_counter;
pub mod http;
pub mod http_incoming;
pub mod http_outcall;
pub mod identity;
pub mod laws;
pub mod memory;
pub mod store;
pub mod types;
pub mod vet_keys;
