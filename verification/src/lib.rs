//! The decisions behind a read-only Delta catalog API over a Lakekeeper catalog.
//!
//! The API reads: it resolves tables, checks that catalogs and locations are there,
//! and vends storage credentials. Writes and staging are refused.
//!
//! What has to be waited for (the catalog store, the authorizer, the secrets, the
//! storage) is not called from here. An operation is a chain of states instead: a
//! state holds what the host is asked for next, and the method that takes the
//! answer gives the next state, the result, or the failure that ends the operation.
//! What every call comes to is in [`calls`]; what holds of whole operations, whatever the
//! host answers, is in [`laws`].

pub mod authorize;
pub mod backend;
pub mod calls;
pub mod context;
pub mod credentials;
pub mod error;
pub mod host;
pub mod laws;
pub mod lookup;
pub mod namespace;
pub mod properties;
pub mod router;
pub mod tables;
pub mod text;
