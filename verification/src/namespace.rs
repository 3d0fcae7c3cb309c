//! The two-level namespace that a Delta coordinate maps to.

use crate::error::{BackendResult, DeltaBackendError, ErrorKind, Failure};
use crate::text;
use iceberg::NamespaceIdent;
use vstd::prelude::*;

verus! {

/// [`iceberg::NamespaceIdent`], the list of names that makes up a namespace.
#[verifier::external_type_specification]
#[verifier::external_body]
pub struct ExNamespaceIdent(NamespaceIdent);

/// [`iceberg::Error`], carried and never looked into.
#[verifier::external_type_specification]
#[verifier::external_body]
pub struct ExIcebergError(iceberg::Error);

/// The names that a namespace holds, outermost first.
pub uninterp spec fn namespace_parts(namespace: NamespaceIdent) -> Seq<Seq<char>>;

/// [`iceberg::NamespaceIdent::from_vec`] refuses the empty list and nothing else,
/// and keeps every name of a list that it takes, in order.
pub assume_specification[ iceberg::NamespaceIdent::from_vec ](names: Vec<String>) -> (res: Result<
    NamespaceIdent,
    iceberg::Error,
>)
    ensures
        res is Ok <==> names@.len() > 0,
        res matches Ok(namespace) ==> namespace_parts(namespace) == text::texts(names@),
;

/// The text that a namespace with these names shows for debugging.
pub uninterp spec fn namespace_debug_text(parts: Seq<Seq<char>>) -> Seq<char>;

/// The derived `Debug` of [`iceberg::NamespaceIdent`]: a text that depends on the
/// names alone.
#[verifier::external_body]
pub(crate) fn namespace_debug(namespace: &NamespaceIdent) -> (text: String)
    ensures
        text@ == namespace_debug_text(namespace_parts(*namespace)),
{
    format!("{namespace:?}")
}

/// The coordinate of a schema.
#[derive(Debug, PartialEq, Eq)]
pub struct SchemaRef {
    pub catalog: String,
    pub schema: String,
}

/// The coordinate of a table.
#[derive(Debug, PartialEq, Eq)]
pub struct TableRef {
    pub catalog: String,
    pub schema: String,
    pub table: String,
}

/// Whether a table's coordinate names a catalog and a schema.
pub open spec fn is_located(table: TableRef) -> bool {
    table.catalog@.len() > 0 && table.schema@.len() > 0
}

/// The names of the namespace that a table's coordinate maps to.
pub open spec fn parts_of(table: TableRef) -> Seq<Seq<char>> {
    seq![table.catalog@, table.schema@]
}

/// The namespace `[catalog, schema]` of a Delta coordinate, or why there is none.
///
/// Empty names are refused here: iceberg would take them, and the lookup would
/// then fail as a confusing "not found".
pub fn namespace(catalog: &str, schema: &str) -> (res: BackendResult<NamespaceIdent>)
    ensures
        res matches Ok(namespace) ==> namespace_parts(namespace) == seq![catalog@, schema@],
        res is Ok <==> catalog@.len() > 0 && schema@.len() > 0,
        res matches Err(error) ==> error@ == empty_part_failure(),
        res matches Err(error) ==> (error matches DeltaBackendError::InvalidArgument(message)
            && message@ == "Delta catalog and schema must be non-empty"@),
{
    if catalog.is_empty() || schema.is_empty() {
        return Err(
            DeltaBackendError::InvalidArgument(
                "Delta catalog and schema must be non-empty".to_owned(),
            ),
        );
    }
    let mut parts: Vec<String> = Vec::new();
    parts.push(catalog.to_owned());
    parts.push(schema.to_owned());
    assert(text::texts(parts@) =~= seq![catalog@, schema@]);
    match NamespaceIdent::from_vec(parts) {
        Ok(namespace) => Ok(namespace),
        // Two names are never an empty list.
        Err(_) => vstd::pervasive::unreached(),
    }
}

/// What a coordinate with an empty catalog or schema is told.
pub open spec fn empty_part_failure() -> Failure {
    Failure {
        kind: ErrorKind::InvalidArgument,
        message: "Delta catalog and schema must be non-empty"@,
    }
}

/// A coordinate is located exactly where its catalog and its schema have at least
/// one character each, whatever the characters are and whatever the table is called.
/// Its namespace has two names: the catalog, and within it the schema.
pub proof fn coordinates_with_a_catalog_and_a_schema_are_located(table: TableRef)
    ensures
        is_located(table) <==> table.catalog@.len() > 0 && table.schema@.len() > 0,
        parts_of(table).len() == 2,
        parts_of(table)[0] == table.catalog@,
        parts_of(table)[1] == table.schema@,
        empty_part_failure().kind is InvalidArgument,
        empty_part_failure().message == "Delta catalog and schema must be non-empty"@,
{
}

/// Two coordinates lead to the same namespace only where they agree on the catalog
/// and on the schema.
pub proof fn namespaces_tell_coordinates_apart(a: TableRef, b: TableRef)
    ensures
        parts_of(a) == parts_of(b) <==> a.catalog@ == b.catalog@ && a.schema@ == b.schema@,
{
    if parts_of(a) == parts_of(b) {
        assert(parts_of(a)[0] == parts_of(b)[0]);
        assert(parts_of(a)[1] == parts_of(b)[1]);
    }
}

} // verus!
