//! Values that the host hands in and takes back: identifiers, held by the text
//! that they show, and what a warehouse says of its storage.

use vstd::prelude::*;

verus! {

/// The identifier of a warehouse.
#[derive(Clone, Debug, PartialEq, Eq)]
pub struct WarehouseId(pub String);

/// The identifier of a namespace within a warehouse.
#[derive(Debug, PartialEq, Eq)]
pub struct NamespaceId(pub String);

/// The stable identifier of a table within a warehouse.
#[derive(Debug, PartialEq, Eq)]
pub struct GenericTableId(pub String);

/// The identifier of a secret.
#[derive(Debug, PartialEq, Eq)]
pub struct SecretId(pub String);

/// A place in storage.
#[derive(Debug, PartialEq, Eq)]
pub struct Location(pub String);

/// An active warehouse: the profile through which its storage is reached, and
/// the secret that the profile needs, if any.
#[derive(Debug, PartialEq, Eq)]
pub struct ResolvedWarehouse<P> {
    pub storage_profile: P,
    pub storage_secret_id: Option<SecretId>,
}

} // verus!
