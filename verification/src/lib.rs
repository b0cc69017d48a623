//! An ephemeral file-delivery service core.
//!
//! A client uploads a blob and receives an identifier that can be redeemed for
//! the blob a bounded number of times; once the configured download limit is
//! reached, the blob and its metadata are removed in the same step.  An
//! identity table issues opaque keys that authorize uploads.
//!
//! The service state (metadata store, blob store, identity store) lives in
//! [`store::ServiceState`]; the transitions over it (upload, consumption,
//! registration) are in [`service`]; the laws the transitions obey are proved
//! in [`laws`].  Fresh identifiers and timestamps come from [`ids`].

pub mod data;
pub mod ids;
pub mod laws;
pub mod service;
pub mod store;
