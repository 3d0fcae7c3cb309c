//! Reading the catalog: warehouses, namespaces and tables.
//!
//! Each lookup is a chain of states. A state holds what the host is asked for
//! next; the method that takes the host's answer gives the next state, the
//! result, or the failure that ends the lookup.

use crate::error::{BackendResult, DeltaBackendError, ErrorKind, ErrorModel, Failure};
use crate::host::{GenericTableId, NamespaceId, WarehouseId};
use crate::{error, namespace, text};
use iceberg::NamespaceIdent;
use vstd::prelude::*;

verus! {

/// Asks for the active warehouse with this identifier.
#[derive(Clone, Copy, Debug)]
pub struct RequireWarehouse<'a> {
    pub warehouse_id: &'a WarehouseId,
}

/// What comes of looking for a warehouse: one that is not there is told as a
/// failure that names it.
pub open spec fn warehouse_found<W>(
    warehouse_id: WarehouseId,
    reply: Result<Option<W>, ErrorModel>,
) -> Result<W, Failure> {
    match error::told(reply) {
        Ok(Some(warehouse)) => Ok(warehouse),
        Ok(None) => Err(
            Failure {
                kind: ErrorKind::NotFoundGeneric,
                message: "warehouse '"@ + warehouse_id.0@ + "' not found"@,
            },
        ),
        Err(failure) => Err(failure),
    }
}

/// Begins to look for an active warehouse that has to be there.
pub fn require_warehouse(warehouse_id: &WarehouseId) -> (state: RequireWarehouse<'_>)
    ensures
        state == (RequireWarehouse { warehouse_id }),
{
    RequireWarehouse { warehouse_id }
}

impl<'a> RequireWarehouse<'a> {
    /// Takes the warehouse, if there is one.
    pub fn found<W>(self, reply: Result<Option<W>, ErrorModel>) -> (warehouse: BackendResult<W>)
        ensures
            error::seen(warehouse) == warehouse_found(*self.warehouse_id, reply),
    {
        match error::tell(reply) {
            Ok(Some(warehouse)) => Ok(warehouse),
            Ok(None) => {
                let head = text::joined("warehouse '", self.warehouse_id.0.as_str());
                Err(
                    DeltaBackendError::NotFoundGeneric(
                        text::joined(head.as_str(), "' not found"),
                    ),
                )
            },
            Err(error) => Err(error),
        }
    }
}

/// Asks for the namespace with these names.
#[derive(Clone, Copy, Debug)]
pub struct ResolveNamespaceId<'a> {
    pub warehouse_id: &'a WarehouseId,
    pub namespace: &'a NamespaceIdent,
}

/// What a caller is told of a namespace that is not there, shown as `shown`.
pub open spec fn namespace_missing(shown: Seq<char>) -> Failure {
    Failure { kind: ErrorKind::NotFound, message: "namespace "@ + shown + " not found"@ }
}

/// The failure for a namespace that is not there, shown as `shown`.
pub fn namespace_not_found(shown: &str) -> (failure: DeltaBackendError)
    ensures
        failure@ == namespace_missing(shown@),
{
    let head = text::joined("namespace ", shown);
    DeltaBackendError::NotFound(text::joined(head.as_str(), " not found"))
}

/// What comes of looking for a namespace: one that is not there is told as a
/// failure that shows its names.
pub open spec fn namespace_found(
    namespace: NamespaceIdent,
    reply: Result<Option<NamespaceId>, ErrorModel>,
) -> Result<NamespaceId, Failure> {
    match error::told(reply) {
        Ok(Some(id)) => Ok(id),
        Ok(None) => Err(
            namespace_missing(
                namespace::namespace_debug_text(namespace::namespace_parts(namespace)),
            ),
        ),
        Err(failure) => Err(failure),
    }
}

/// Begins to look for the identifier of a namespace.
pub fn resolve_namespace_id<'a>(
    warehouse_id: &'a WarehouseId,
    namespace: &'a NamespaceIdent,
) -> (state: ResolveNamespaceId<'a>)
    ensures
        state == (ResolveNamespaceId { warehouse_id, namespace }),
{
    ResolveNamespaceId { warehouse_id, namespace }
}

impl<'a> ResolveNamespaceId<'a> {
    /// Takes the identifier of the namespace, if there is one.
    pub fn found(self, reply: Result<Option<NamespaceId>, ErrorModel>) -> (id: BackendResult<
        NamespaceId,
    >)
        ensures
            error::seen(id) == namespace_found(*self.namespace, reply),
    {
        match error::tell(reply) {
            Ok(Some(id)) => Ok(id),
            Ok(None) => Err(
                namespace_not_found(namespace::namespace_debug(self.namespace).as_str()),
            ),
            Err(error) => Err(error),
        }
    }
}

/// How a table is found within its warehouse.
#[derive(Debug)]
pub enum TableKey<'a> {
    Name { namespace_id: NamespaceId, table_name: &'a str },
    Id(GenericTableId),
}

/// Asks for the namespace of a table that is looked for by name.
#[derive(Clone, Copy, Debug)]
pub struct LoadGenericTable<'a> {
    pub namespace: ResolveNamespaceId<'a>,
    pub table_name: &'a str,
}

/// Asks that the identifier of a table be parsed.
#[derive(Clone, Copy, Debug)]
pub struct LoadGenericTableById<'a> {
    pub warehouse_id: &'a WarehouseId,
    pub table_id: &'a str,
}

/// Asks for a read transaction in which to look for a table.
#[derive(Debug)]
pub struct BeginRead<'a> {
    pub warehouse_id: &'a WarehouseId,
    pub key: TableKey<'a>,
}

/// Asks for a table, within a transaction `T`.
#[derive(Debug)]
pub struct LoadRow<'a, T> {
    pub transaction: T,
    pub warehouse_id: &'a WarehouseId,
    pub key: TableKey<'a>,
}

/// Asks that the transaction in which a table `I` was found be committed.
#[derive(Debug)]
pub struct CommitRead<T, I> {
    pub transaction: T,
    pub row: LoadedRow<I>,
}

/// A table that counts as loaded once its transaction is committed.
#[derive(Debug)]
pub struct LoadedRow<I> {
    pub info: I,
}

/// Begins to load a table by its name.
pub fn load_generic_table<'a>(
    warehouse_id: &'a WarehouseId,
    namespace: &'a NamespaceIdent,
    table_name: &'a str,
) -> (state: LoadGenericTable<'a>)
    ensures
        state == (LoadGenericTable {
            namespace: ResolveNamespaceId { warehouse_id, namespace },
            table_name,
        }),
{
    LoadGenericTable { namespace: resolve_namespace_id(warehouse_id, namespace), table_name }
}

/// Begins to load a table by its identifier.
pub fn load_generic_table_by_id<'a>(warehouse_id: &'a WarehouseId, table_id: &'a str) -> (state:
    LoadGenericTableById<'a>)
    ensures
        state == (LoadGenericTableById { warehouse_id, table_id }),
{
    LoadGenericTableById { warehouse_id, table_id }
}

/// What follows the namespace of a table that is looked for by name.
pub open spec fn load_by_name<'a>(
    state: LoadGenericTable<'a>,
    reply: Result<Option<NamespaceId>, ErrorModel>,
) -> Result<BeginRead<'a>, Failure> {
    match namespace_found(*state.namespace.namespace, reply) {
        Ok(namespace_id) => Ok(
            BeginRead {
                warehouse_id: state.namespace.warehouse_id,
                key: TableKey::Name { namespace_id, table_name: state.table_name },
            },
        ),
        Err(failure) => Err(failure),
    }
}

impl<'a> LoadGenericTable<'a> {
    /// Takes the identifier of the namespace, if there is one.
    pub fn namespace_found(self, reply: Result<Option<NamespaceId>, ErrorModel>) -> (next:
        BackendResult<BeginRead<'a>>)
        ensures
            error::seen(next) == load_by_name(self, reply),
    {
        let warehouse_id = self.namespace.warehouse_id;
        match self.namespace.found(reply) {
            Ok(namespace_id) => Ok(
                BeginRead {
                    warehouse_id,
                    key: TableKey::Name { namespace_id, table_name: self.table_name },
                },
            ),
            Err(error) => Err(error),
        }
    }
}

/// What follows the parse of a table's identifier.
pub open spec fn load_by_id<'a>(
    state: LoadGenericTableById<'a>,
    reply: Result<GenericTableId, String>,
) -> Result<BeginRead<'a>, Failure> {
    match reply {
        Ok(id) => Ok(BeginRead { warehouse_id: state.warehouse_id, key: TableKey::Id(id) }),
        Err(reason) => Err(
            Failure {
                kind: ErrorKind::InvalidArgument,
                message: "invalid table id: "@ + reason@,
            },
        ),
    }
}

impl<'a> LoadGenericTableById<'a> {
    /// Takes the parsed identifier, or the text of the parse error.
    pub fn parsed(self, reply: Result<GenericTableId, String>) -> (next: BackendResult<
        BeginRead<'a>,
    >)
        ensures
            error::seen(next) == load_by_id(self, reply),
    {
        match reply {
            Ok(id) => Ok(BeginRead { warehouse_id: self.warehouse_id, key: TableKey::Id(id) }),
            Err(reason) => Err(
                DeltaBackendError::InvalidArgument(
                    text::joined("invalid table id: ", reason.as_str()),
                ),
            ),
        }
    }
}

/// What follows the begin of a transaction.
pub open spec fn read_begun<'a, T>(
    state: BeginRead<'a>,
    reply: Result<T, ErrorModel>,
) -> Result<LoadRow<'a, T>, Failure> {
    match error::told(reply) {
        Ok(transaction) => Ok(
            LoadRow { transaction, warehouse_id: state.warehouse_id, key: state.key },
        ),
        Err(failure) => Err(failure),
    }
}

/// What follows the read of a table: on success, the commit of the transaction
/// in which it was read.
pub open spec fn row_loaded<'a, T, I>(
    state: LoadRow<'a, T>,
    reply: Result<I, ErrorModel>,
) -> Result<CommitRead<T, I>, Failure> {
    match error::told(reply) {
        Ok(info) => Ok(CommitRead { transaction: state.transaction, row: LoadedRow { info } }),
        Err(failure) => Err(failure),
    }
}

/// What follows the commit: the table.
pub open spec fn read_committed<I>(
    state: LoadedRow<I>,
    reply: Result<(), ErrorModel>,
) -> Result<I, Failure> {
    match error::told(reply) {
        Ok(_) => Ok(state.info),
        Err(failure) => Err(failure),
    }
}

impl<'a> BeginRead<'a> {
    /// Takes the transaction.
    pub fn begun<T>(self, reply: Result<T, ErrorModel>) -> (next: BackendResult<LoadRow<'a, T>>)
        ensures
            error::seen(next) == read_begun(self, reply),
    {
        match error::tell(reply) {
            Ok(transaction) => Ok(
                LoadRow { transaction, warehouse_id: self.warehouse_id, key: self.key },
            ),
            Err(error) => Err(error),
        }
    }
}

impl<'a, T> LoadRow<'a, T> {
    /// Takes the table.
    pub fn loaded<I>(self, reply: Result<I, ErrorModel>) -> (next: BackendResult<CommitRead<T, I>>)
        ensures
            error::seen(next) == row_loaded(self, reply),
    {
        match error::tell(reply) {
            Ok(info) => Ok(
                CommitRead { transaction: self.transaction, row: LoadedRow { info } },
            ),
            Err(error) => Err(error),
        }
    }
}

impl<I> LoadedRow<I> {
    /// Takes the outcome of the commit.
    pub fn committed(self, reply: Result<(), ErrorModel>) -> (info: BackendResult<I>)
        ensures
            error::seen(info) == read_committed(self, reply),
    {
        match error::tell(reply) {
            Ok(_) => Ok(self.info),
            Err(error) => Err(error),
        }
    }
}

/// What comes of a read whose transaction, row and commit were answered so.
pub open spec fn read_outcome<'a, T, I>(
    state: BeginRead<'a>,
    begin: Result<T, ErrorModel>,
    row: Result<I, ErrorModel>,
    commit: Result<(), ErrorModel>,
) -> Result<I, Failure> {
    match read_begun(state, begin) {
        Err(failure) => Err(failure),
        Ok(load) => match row_loaded(load, row) {
            Err(failure) => Err(failure),
            Ok(loaded) => read_committed(loaded.row, commit),
        },
    }
}

/// A table is handed out only after a transaction was begun, the table was read
/// in it and that same transaction was committed; else the first failure is told,
/// and nothing is asked for after it.
pub proof fn tables_are_read_in_a_committed_transaction<'a, T, I>(
    state: BeginRead<'a>,
    begin: Result<T, ErrorModel>,
    row: Result<I, ErrorModel>,
    commit: Result<(), ErrorModel>,
)
    ensures
        read_outcome(state, begin, row, commit) == if begin is Err {
            Err(error::failure_of(begin->Err_0))
        } else if row is Err {
            Err(error::failure_of(row->Err_0))
        } else if commit is Err {
            Err(error::failure_of(commit->Err_0))
        } else {
            Ok(row->Ok_0)
        },
        read_begun(state, begin) matches Ok(load) ==> {
            &&& begin == Ok::<T, ErrorModel>(load.transaction)
            &&& row_loaded(load, row) matches Ok(loaded) ==> loaded.transaction == load.transaction
        },
{
}

/// Whether a table is looked for by name or by identifier, every request of the
/// lookup is about the warehouse that the lookup began with, and the row asked
/// for is the one named.
pub proof fn lookups_stay_in_their_warehouse<'a, T>(
    by_name: LoadGenericTable<'a>,
    namespace: Result<Option<NamespaceId>, ErrorModel>,
    by_id: LoadGenericTableById<'a>,
    id: Result<GenericTableId, String>,
    begin: Result<T, ErrorModel>,
)
    ensures
        load_by_name(by_name, namespace) matches Ok(state) ==> {
            &&& state.warehouse_id == by_name.namespace.warehouse_id
            &&& namespace is Ok && namespace->Ok_0 is Some
            &&& state.key == (TableKey::Name {
                namespace_id: namespace->Ok_0->0,
                table_name: by_name.table_name,
            })
            &&& read_begun(state, begin) matches Ok(load) ==> load.warehouse_id
                == by_name.namespace.warehouse_id && load.key == state.key
        },
        load_by_id(by_id, id) matches Ok(state) ==> {
            &&& state.warehouse_id == by_id.warehouse_id
            &&& id is Ok
            &&& state.key == TableKey::Id(id->Ok_0)
            &&& read_begun(state, begin) matches Ok(load) ==> load.warehouse_id
                == by_id.warehouse_id && load.key == state.key
        },
{
}

/// A warehouse that has to be there is handed out exactly where the host found it. One
/// that is missing is told by its identifier, as something other than a table that is
/// not there; a lookup that failed is told as the host's failure.
pub proof fn required_warehouses_are_the_found_ones<W>(
    warehouse_id: WarehouseId,
    reply: Result<Option<W>, ErrorModel>,
)
    ensures
        warehouse_found(warehouse_id, reply) is Ok <==> reply is Ok && reply->Ok_0 is Some,
        reply matches Ok(Some(warehouse)) ==> warehouse_found(warehouse_id, reply)->Ok_0
            == warehouse,
        reply matches Ok(None) ==> {
            &&& warehouse_found(warehouse_id, reply)->Err_0.kind is NotFoundGeneric
            &&& warehouse_found(warehouse_id, reply)->Err_0.message == "warehouse '"@
                + warehouse_id.0@ + "' not found"@
        },
        reply matches Err(error) ==> warehouse_found(warehouse_id, reply)->Err_0
            == error::failure_of(error),
{
}

/// A namespace is handed out exactly where the host found it. One that is missing is
/// told as not found, with the names that were looked for; a lookup that failed is told
/// as the host's failure.
pub proof fn namespaces_are_the_found_ones(
    namespace: NamespaceIdent,
    reply: Result<Option<NamespaceId>, ErrorModel>,
)
    ensures
        namespace_found(namespace, reply) is Ok <==> reply is Ok && reply->Ok_0 is Some,
        reply matches Ok(Some(id)) ==> namespace_found(namespace, reply)->Ok_0 == id,
        reply matches Ok(None) ==> {
            &&& namespace_found(namespace, reply)->Err_0.kind is NotFound
            &&& namespace_found(namespace, reply)->Err_0.message == "namespace "@
                + namespace::namespace_debug_text(namespace::namespace_parts(namespace))
                + " not found"@
        },
        reply matches Err(error) ==> namespace_found(namespace, reply)->Err_0
            == error::failure_of(error),
{
}

/// What a caller is told of a missing namespace is the text that shows it, whole,
/// between the same words.
pub proof fn missing_namespaces_are_shown(shown: Seq<char>)
    ensures
        namespace_missing(shown).kind is NotFound,
        namespace_missing(shown).message == "namespace "@ + shown + " not found"@,
{
}

/// A load by name goes on exactly where its namespace was found, and then looks for the
/// table of that name in that namespace, in the same warehouse.
pub proof fn loads_by_name_go_on_in_their_namespace<'a>(
    state: LoadGenericTable<'a>,
    reply: Result<Option<NamespaceId>, ErrorModel>,
)
    ensures
        load_by_name(state, reply) is Ok <==> reply is Ok && reply->Ok_0 is Some,
        load_by_name(state, reply) matches Ok(next) ==> {
            &&& next.warehouse_id == state.namespace.warehouse_id
            &&& next.key matches TableKey::Name { namespace_id, table_name }
            &&& namespace_id == reply->Ok_0->0
            &&& table_name == state.table_name
        },
        reply matches Ok(None) ==> load_by_name(state, reply)->Err_0.kind is NotFound
            && load_by_name(state, reply)->Err_0.message == "namespace "@
            + namespace::namespace_debug_text(
            namespace::namespace_parts(*state.namespace.namespace),
        ) + " not found"@,
        reply matches Err(error) ==> load_by_name(state, reply)->Err_0 == error::failure_of(error),
{
}

/// A load by identifier goes on exactly where the identifier could be parsed, whatever
/// it is, and then looks for the table with it in the same warehouse. One that could
/// not be parsed makes the request malformed, and the parser's reason is told.
pub proof fn loads_by_identifier_go_on_with_it<'a>(
    state: LoadGenericTableById<'a>,
    reply: Result<GenericTableId, String>,
)
    ensures
        load_by_id(state, reply) is Ok <==> reply is Ok,
        load_by_id(state, reply) matches Ok(next) ==> {
            &&& next.warehouse_id == state.warehouse_id
            &&& next.key matches TableKey::Id(id)
            &&& id == reply->Ok_0
        },
        load_by_id(state, reply) matches Err(failure) ==> failure.kind is InvalidArgument
            && failure.message == "invalid table id: "@ + reply->Err_0@,
{
}

/// Every step of a read goes on exactly where the host's answer is a success. The row is
/// looked for in the transaction that was begun, in the warehouse and under the key that
/// the read was begun with; that transaction is committed; and the row that was read is
/// handed out unchanged. A step that failed is told as the host's failure.
pub proof fn reads_go_on_step_by_step<'a, T, I>(
    state: BeginRead<'a>,
    begin: Result<T, ErrorModel>,
    load: LoadRow<'a, T>,
    row: Result<I, ErrorModel>,
    loaded: LoadedRow<I>,
    commit: Result<(), ErrorModel>,
)
    ensures
        read_begun(state, begin) is Ok <==> begin is Ok,
        read_begun(state, begin) matches Ok(next) ==> {
            &&& next.transaction == begin->Ok_0
            &&& next.warehouse_id == state.warehouse_id
            &&& next.key == state.key
        },
        begin matches Err(error) ==> read_begun(state, begin)->Err_0 == error::failure_of(error),
        row_loaded(load, row) is Ok <==> row is Ok,
        row_loaded(load, row) matches Ok(next) ==> {
            &&& next.transaction == load.transaction
            &&& next.row.info == row->Ok_0
        },
        row matches Err(error) ==> row_loaded(load, row)->Err_0 == error::failure_of(error),
        read_committed(loaded, commit) is Ok <==> commit is Ok,
        commit is Ok ==> read_committed(loaded, commit)->Ok_0 == loaded.info,
        commit matches Err(error) ==> read_committed(loaded, commit)->Err_0 == error::failure_of(
            error,
        ),
{
}

} // verus!
