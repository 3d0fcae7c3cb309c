//! Authorization. Every action of the Delta API is authorized here; the methods
//! that read or vend do not authorize again.

use crate::context::DeltaRequestContext;
use crate::credentials::{CredentialAccess, StoragePermissions};
use crate::error::{BackendResult, DeltaBackendError, ErrorKind, ErrorModel, Failure};
use crate::lookup::LoadGenericTableById;
use crate::namespace::TableRef;
use crate::tables::GenericTableInfo;
use crate::{credentials, error, lookup, namespace};
use iceberg::NamespaceIdent;
use vstd::prelude::*;

verus! {

/// What a caller of the Delta API wants to do.
#[derive(Debug)]
pub enum DeltaAction<'a> {
    ReadTable { table: &'a TableRef },
    VendTableCredential { table_id: &'a str, access: CredentialAccess },
    VendPathCredential,
    CreateTable,
    WriteTable,
    DeleteTable,
    RenameTable,
    CreateStaging,
    AdoptStaging,
    /// An action that this version does not know.
    Unrecognized,
}

/// What the host's authorizer is asked about a table.
#[derive(Clone, Copy, Debug, PartialEq, Eq, Structural)]
pub enum CatalogGenericTableAction {
    GetMetadata,
    ReadData,
    WriteData,
}

/// What the host's authorizer is asked about a warehouse.
#[derive(Clone, Copy, Debug, PartialEq, Eq, Structural)]
pub enum CatalogWarehouseAction {
    GetConfig,
}

/// Asks whether the caller may perform `action` on a table.
#[derive(Debug)]
pub struct RequireTableAction<'a, M> {
    pub cx: &'a DeltaRequestContext<M>,
    pub namespace: NamespaceIdent,
    pub table_name: String,
    pub action: CatalogGenericTableAction,
}

/// Asks for the table with an identifier, about which the authorizer will then be
/// asked.
#[derive(Debug)]
pub struct AuthorizeTableId<'a, M> {
    pub cx: &'a DeltaRequestContext<M>,
    pub load: LoadGenericTableById<'a>,
    pub action: CatalogGenericTableAction,
}

/// An action that the host has to be asked about.
#[derive(Debug)]
pub enum Authorization<'a, M> {
    Table(RequireTableAction<'a, M>),
    TableId(AuthorizeTableId<'a, M>),
}

/// The action on a table that a credential for this access amounts to.
pub open spec fn action_for(access: CredentialAccess) -> CatalogGenericTableAction {
    match access {
        CredentialAccess::Read => CatalogGenericTableAction::ReadData,
        CredentialAccess::ReadWrite => CatalogGenericTableAction::WriteData,
    }
}

/// What a caller who asks for a credential for a path is told.
pub open spec fn path_credentials_unserved() -> Failure {
    Failure {
        kind: ErrorKind::NotImplemented,
        message: "Delta temporary-path credentials are not yet supported by Lakekeeper"@,
    }
}

/// What a caller who wants to write or to stage is told.
pub open spec fn writes_unserved() -> Failure {
    Failure {
        kind: ErrorKind::NotImplemented,
        message: "Delta write and staging operations are not yet supported by Lakekeeper"@,
    }
}

/// What a caller with an unknown action is told.
pub open spec fn action_unrecognized() -> Failure {
    Failure { kind: ErrorKind::PermissionDenied, message: "unrecognized Delta action"@ }
}

/// Whether an action writes or stages.
pub open spec fn is_write(action: DeltaAction<'_>) -> bool {
    ||| action is CreateTable
    ||| action is WriteTable
    ||| action is DeleteTable
    ||| action is RenameTable
    ||| action is CreateStaging
    ||| action is AdoptStaging
}

/// What the authorizer is asked about a read of `table`.
pub open spec fn asks_to_read<M>(
    cx: &DeltaRequestContext<M>,
    table: TableRef,
    request: RequireTableAction<'_, M>,
) -> bool {
    &&& request.cx == cx
    &&& namespace::namespace_parts(request.namespace) == namespace::parts_of(table)
    &&& request.table_name@ == table.table@
    &&& request.action is GetMetadata
}

/// Whether `next` is what an action leads to: a question to the host for a read
/// or a table credential, and a refusal for everything else.
pub open spec fn authorization_of<'a, M>(
    action: DeltaAction<'a>,
    cx: &'a DeltaRequestContext<M>,
    next: BackendResult<Authorization<'a, M>>,
) -> bool {
    match action {
        DeltaAction::ReadTable { table } => if namespace::is_located(*table) {
            next matches Ok(Authorization::Table(request)) && asks_to_read(cx, *table, request)
        } else {
            next matches Err(error) && error@ == namespace::empty_part_failure()
        },
        DeltaAction::VendTableCredential { table_id, access } => {
            next matches Ok(Authorization::TableId(state)) && state == (AuthorizeTableId {
                cx,
                load: LoadGenericTableById { warehouse_id: &cx.warehouse_id, table_id },
                action: action_for(access),
            })
        },
        DeltaAction::VendPathCredential => {
            next matches Err(error) && error@ == path_credentials_unserved()
        },
        DeltaAction::Unrecognized => next matches Err(error) && error@ == action_unrecognized(),
        _ => next matches Err(error) && error@ == writes_unserved(),
    }
}

/// Begins to authorize an action: what the host has to be asked, or the refusal
/// that needs no question.
pub fn authorize<'a, M>(action: DeltaAction<'a>, cx: &'a DeltaRequestContext<M>) -> (next:
    BackendResult<Authorization<'a, M>>)
    ensures
        authorization_of(action, cx, next),
        match action {
            DeltaAction::ReadTable { table } => {
                &&& next is Ok <==> table.catalog@.len() > 0 && table.schema@.len() > 0
                &&& next is Ok ==> {
                    &&& next matches Ok(Authorization::Table(request))
                    &&& request.cx == cx
                    &&& namespace::namespace_parts(request.namespace) == seq![
                        table.catalog@,
                        table.schema@,
                    ]
                    &&& request.table_name@ == table.table@
                    &&& request.action == CatalogGenericTableAction::GetMetadata
                }
            },
            DeltaAction::VendTableCredential { table_id, access } => {
                &&& next matches Ok(Authorization::TableId(state))
                &&& state.cx == cx
                &&& *state.load.warehouse_id == cx.warehouse_id
                &&& state.load.table_id == table_id
                &&& state.action == CatalogGenericTableAction::ReadData <==> access
                    == CredentialAccess::Read
                &&& state.action == CatalogGenericTableAction::WriteData <==> access
                    == CredentialAccess::ReadWrite
            },
            DeltaAction::Unrecognized => next matches Err(DeltaBackendError::PermissionDenied(_)),
            _ => next matches Err(DeltaBackendError::NotImplemented(_)),
        },
{
    match action {
        DeltaAction::ReadTable { table } => {
            match namespace::namespace(table.catalog.as_str(), table.schema.as_str()) {
                Ok(namespace) => Ok(
                    Authorization::Table(
                        RequireTableAction {
                            cx,
                            namespace,
                            table_name: table.table.clone(),
                            action: CatalogGenericTableAction::GetMetadata,
                        },
                    ),
                ),
                Err(error) => Err(error),
            }
        },
        DeltaAction::VendTableCredential { table_id, access } => {
            let action = match access {
                CredentialAccess::Read => CatalogGenericTableAction::ReadData,
                CredentialAccess::ReadWrite => CatalogGenericTableAction::WriteData,
            };
            Ok(Authorization::TableId(authorize_table_id(cx, table_id, action)))
        },
        DeltaAction::VendPathCredential => Err(
            DeltaBackendError::NotImplemented(
                "Delta temporary-path credentials are not yet supported by Lakekeeper",
            ),
        ),
        DeltaAction::CreateTable
        | DeltaAction::WriteTable
        | DeltaAction::DeleteTable
        | DeltaAction::RenameTable
        | DeltaAction::CreateStaging
        | DeltaAction::AdoptStaging => Err(
            DeltaBackendError::NotImplemented(
                "Delta write and staging operations are not yet supported by Lakekeeper",
            ),
        ),
        DeltaAction::Unrecognized => Err(
            DeltaBackendError::PermissionDenied("unrecognized Delta action".to_owned()),
        ),
    }
}

/// Begins to authorize an action on the table with an identifier.
pub fn authorize_table_id<'a, M>(
    cx: &'a DeltaRequestContext<M>,
    table_id: &'a str,
    action: CatalogGenericTableAction,
) -> (state: AuthorizeTableId<'a, M>)
    ensures
        state == (AuthorizeTableId {
            cx,
            load: LoadGenericTableById { warehouse_id: &cx.warehouse_id, table_id },
            action,
        }),
{
    AuthorizeTableId {
        cx,
        load: lookup::load_generic_table_by_id(&cx.warehouse_id, table_id),
        action,
    }
}

/// What follows the load of a table that is authorized by its identifier: a
/// question about the very table that was loaded.
pub open spec fn table_id_loaded<'a, M, J>(
    state: AuthorizeTableId<'a, M>,
    loaded: Result<GenericTableInfo<J>, Failure>,
) -> Result<RequireTableAction<'a, M>, Failure> {
    match loaded {
        Ok(info) => Ok(
            RequireTableAction {
                cx: state.cx,
                namespace: info.namespace,
                table_name: info.name,
                action: state.action,
            },
        ),
        Err(failure) => Err(failure),
    }
}

impl<'a, M> AuthorizeTableId<'a, M> {
    /// Takes the outcome of the load.
    pub fn loaded<J>(self, loaded: BackendResult<GenericTableInfo<J>>) -> (next: BackendResult<
        RequireTableAction<'a, M>,
    >)
        ensures
            error::seen(next) == table_id_loaded(self, error::seen(loaded)),
            next is Ok <==> loaded is Ok,
            next matches Ok(request) ==> {
                &&& request.cx == self.cx
                &&& request.namespace == loaded->Ok_0.namespace
                &&& request.table_name == loaded->Ok_0.name
                &&& request.action == self.action
            },
    {
        match loaded {
            Ok(info) => Ok(
                RequireTableAction {
                    cx: self.cx,
                    namespace: info.namespace,
                    table_name: info.name,
                    action: self.action,
                },
            ),
            Err(error) => Err(error),
        }
    }
}

/// What a decision of the host's authorizer comes to: what it hands out is
/// dropped, and its refusal is told.
pub open spec fn decision<D>(reply: Result<D, ErrorModel>) -> Result<(), Failure> {
    match error::told(reply) {
        Ok(_) => Ok(()),
        Err(failure) => Err(failure),
    }
}

impl<'a, M> RequireTableAction<'a, M> {
    /// Takes the decision of the host's authorizer.
    pub fn decided<D>(self, reply: Result<D, ErrorModel>) -> (allowed: BackendResult<()>)
        ensures
            error::seen(allowed) == decision(reply),
            allowed is Ok <==> reply is Ok,
    {
        match error::tell(reply) {
            Ok(_) => Ok(()),
            Err(error) => Err(error),
        }
    }
}

/// Asks for the active warehouse of the context, about which the authorizer will
/// then be asked.
#[derive(Debug)]
pub struct CatalogExists<'a, M> {
    pub cx: &'a DeltaRequestContext<M>,
}

/// Asks whether the caller may perform `action` on a warehouse `W`. The authorizer
/// gets the outcome of the lookup as it is, so that it decides what a caller may
/// learn of a warehouse that is missing.
#[derive(Debug)]
pub struct RequireWarehouseAction<'a, M, W> {
    pub cx: &'a DeltaRequestContext<M>,
    pub warehouse: Result<Option<W>, ErrorModel>,
    pub action: CatalogWarehouseAction,
}

/// The question about the warehouse of a context that the outcome of its lookup
/// leads to.
pub open spec fn warehouse_question<'a, M, W>(
    cx: &'a DeltaRequestContext<M>,
    warehouse: Result<Option<W>, ErrorModel>,
) -> RequireWarehouseAction<'a, M, W> {
    RequireWarehouseAction { cx, warehouse, action: CatalogWarehouseAction::GetConfig }
}

/// Begins to check that a catalog is there. The warehouse of the context is the
/// scope; the name of the catalog is advisory.
pub fn catalog_exists<'a, M>(_catalog: &str, cx: &'a DeltaRequestContext<M>) -> (state:
    CatalogExists<'a, M>)
    ensures
        state == (CatalogExists { cx }),
{
    CatalogExists { cx }
}

impl<'a, M> CatalogExists<'a, M> {
    /// Takes the outcome of the lookup, whatever it is, on to the authorizer.
    pub fn looked_up<W>(self, warehouse: Result<Option<W>, ErrorModel>) -> (next:
        RequireWarehouseAction<'a, M, W>)
        ensures
            next == warehouse_question(self.cx, warehouse),
            next.cx == self.cx,
            next.warehouse == warehouse,
            next.action == CatalogWarehouseAction::GetConfig,
    {
        RequireWarehouseAction {
            cx: self.cx,
            warehouse,
            action: CatalogWarehouseAction::GetConfig,
        }
    }
}

impl<'a, M, W> RequireWarehouseAction<'a, M, W> {
    /// Takes the decision of the host's authorizer.
    pub fn decided<D>(self, reply: Result<D, ErrorModel>) -> (exists: BackendResult<()>)
        ensures
            error::seen(exists) == decision(reply),
            exists is Ok <==> reply is Ok,
    {
        match error::tell(reply) {
            Ok(_) => Ok(()),
            Err(error) => Err(error),
        }
    }
}

/// Only a read of a located table and a table credential are ever put to the
/// host. Writes, staging and path credentials are refused as not implemented, and
/// an action that is not known is denied.
pub proof fn only_reads_are_put_to_the_host<'a, M>(
    action: DeltaAction<'a>,
    cx: &'a DeltaRequestContext<M>,
    next: BackendResult<Authorization<'a, M>>,
)
    requires
        authorization_of(action, cx, next),
    ensures
        next is Ok <==> action is VendTableCredential || (action is ReadTable
            && namespace::is_located(*action->table)),
        is_write(action) || action is VendPathCredential ==> (next matches Err(error)
            && error@.kind is NotImplemented),
        action is Unrecognized ==> (next matches Err(error) && error@.kind is PermissionDenied),
{
}

/// Every question about a table is about the warehouse of the context, on behalf
/// of its caller, and about the table that the action names.
pub proof fn questions_are_about_the_named_table<'a, M, J>(
    action: DeltaAction<'a>,
    cx: &'a DeltaRequestContext<M>,
    next: BackendResult<Authorization<'a, M>>,
    loaded: Result<GenericTableInfo<J>, Failure>,
)
    requires
        authorization_of(action, cx, next),
    ensures
        next matches Ok(Authorization::Table(request)) ==> {
            &&& action is ReadTable
            &&& asks_to_read(cx, *action->table, request)
        },
        next matches Ok(Authorization::TableId(state)) ==> {
            &&& action is VendTableCredential
            &&& *state.load.warehouse_id == cx.warehouse_id
            &&& state.load.table_id == action->table_id
            &&& table_id_loaded(state, loaded) matches Ok(request) ==> {
                &&& loaded is Ok
                &&& request.cx == cx
                &&& request.namespace == loaded->Ok_0.namespace
                &&& request.table_name == loaded->Ok_0.name
                &&& request.action == action_for(action->access)
            }
        },
{
}

/// A credential is scoped to no more than the caller is authorized for: one that
/// is authorized as a read of data can only be read with, and one that can be
/// written with is authorized as a write.
pub proof fn credentials_match_their_authorization(access: CredentialAccess)
    ensures
        action_for(access) is ReadData <==> credentials::permissions_for(access)
            == StoragePermissions::Read,
        action_for(access) is WriteData <==> credentials::permissions_for(access)
            == StoragePermissions::ReadWriteDelete,
{
}

/// A read is put to the authorizer for every coordinate whose catalog and schema have
/// at least one character each: on behalf of the caller, about the table of that name
/// in the namespace of catalog and schema, for its metadata. Only an empty catalog or
/// an empty schema is refused, as a malformed request.
pub proof fn reads_of_named_tables_are_put_to_the_authorizer<'a, M>(
    table: &'a TableRef,
    cx: &'a DeltaRequestContext<M>,
    next: BackendResult<Authorization<'a, M>>,
)
    requires
        authorization_of(DeltaAction::ReadTable { table }, cx, next),
    ensures
        next is Ok <==> table.catalog@.len() > 0 && table.schema@.len() > 0,
        table.catalog@.len() > 0 && table.schema@.len() > 0 ==> {
            &&& next matches Ok(Authorization::Table(request))
            &&& request.cx == cx
            &&& namespace::namespace_parts(request.namespace).len() == 2
            &&& namespace::namespace_parts(request.namespace)[0] == table.catalog@
            &&& namespace::namespace_parts(request.namespace)[1] == table.schema@
            &&& request.table_name@ == table.table@
            &&& request.action == CatalogGenericTableAction::GetMetadata
        },
        table.catalog@.len() == 0 || table.schema@.len() == 0 ==> {
            &&& next matches Err(error)
            &&& error@.kind is InvalidArgument
            &&& error@.message == "Delta catalog and schema must be non-empty"@
        },
{
}

/// Every table credential is put to the host, whatever the identifier looks like: the
/// table with that identifier is looked for in the warehouse of the context, and the
/// authorizer is then asked for data to be read, or to be written where writing was
/// asked for.
pub proof fn credentials_are_put_to_the_host<'a, M>(
    table_id: &'a str,
    access: CredentialAccess,
    cx: &'a DeltaRequestContext<M>,
    next: BackendResult<Authorization<'a, M>>,
)
    requires
        authorization_of(DeltaAction::VendTableCredential { table_id, access }, cx, next),
    ensures
        next matches Ok(Authorization::TableId(state)) && state.cx == cx
            && *state.load.warehouse_id == cx.warehouse_id && state.load.table_id == table_id && (
        state.action == CatalogGenericTableAction::ReadData <==> access == CredentialAccess::Read)
            && (state.action == CatalogGenericTableAction::WriteData <==> access
            == CredentialAccess::ReadWrite),
        action_for(access) == CatalogGenericTableAction::ReadData <==> access
            == CredentialAccess::Read,
        action_for(access) == CatalogGenericTableAction::WriteData <==> access
            == CredentialAccess::ReadWrite,
{
}

/// What is not served is refused in words of its own, whoever asks.
pub proof fn refusals_say_why<'a, M>(
    action: DeltaAction<'a>,
    cx: &'a DeltaRequestContext<M>,
    next: BackendResult<Authorization<'a, M>>,
)
    requires
        authorization_of(action, cx, next),
    ensures
        action is VendPathCredential ==> (next matches Err(error) && error@.kind is NotImplemented
            && error@.message
            == "Delta temporary-path credentials are not yet supported by Lakekeeper"@),
        action is CreateTable || action is WriteTable || action is DeleteTable || action
            is RenameTable || action is CreateStaging || action is AdoptStaging ==> (
        next matches Err(error) && error@.kind is NotImplemented && error@.message
            == "Delta write and staging operations are not yet supported by Lakekeeper"@),
        action is Unrecognized ==> (next matches Err(error) && error@.kind is PermissionDenied
            && error@.message == "unrecognized Delta action"@),
        is_write(action) <==> !(action is ReadTable || action is VendTableCredential || action
            is VendPathCredential || action is Unrecognized),
{
}

/// Of a table that is authorized by its identifier, the authorizer is asked about the
/// very table that was loaded, by its namespace and name, for the action that the
/// authorization was begun for. It is asked wherever the load succeeded, and else the
/// failure of the load is told.
pub proof fn loaded_tables_are_put_to_the_authorizer<'a, M, J>(
    state: AuthorizeTableId<'a, M>,
    loaded: Result<GenericTableInfo<J>, Failure>,
)
    ensures
        table_id_loaded(state, loaded) is Ok <==> loaded is Ok,
        table_id_loaded(state, loaded) matches Ok(request) ==> {
            &&& request.cx == state.cx
            &&& request.namespace == loaded->Ok_0.namespace
            &&& request.table_name == loaded->Ok_0.name
            &&& request.action == state.action
        },
        table_id_loaded(state, loaded) matches Err(failure) ==> failure == loaded->Err_0,
{
}

/// An action is allowed exactly where the authorizer allows it, whatever it hands out.
/// Its refusal is told in its own words, under the kind of its code.
pub proof fn the_authorizer_decides<D>(reply: Result<D, ErrorModel>)
    ensures
        decision(reply) is Ok <==> reply is Ok,
        reply matches Err(error) ==> {
            let failure = decision(reply)->Err_0;
            &&& failure == error::failure_of(error)
            &&& failure.message == error.message@
            &&& failure.kind is Unauthenticated <==> error.code == 401
            &&& failure.kind is PermissionDenied <==> error.code == 403
            &&& failure.kind is NotFound <==> error.code == 404
        },
{
}

/// About a warehouse, the authorizer is asked with the outcome of the lookup exactly
/// as it was, whether the warehouse was found, missing or could not be looked for; on
/// behalf of the context's caller, about the context's warehouse, for its
/// configuration.
pub proof fn lookups_reach_the_authorizer_unchanged<'a, M, W>(
    cx: &'a DeltaRequestContext<M>,
    warehouse: Result<Option<W>, ErrorModel>,
)
    ensures
        warehouse_question(cx, warehouse).warehouse == warehouse,
        warehouse_question(cx, warehouse).cx == cx,
        warehouse_question(cx, warehouse).cx.warehouse_id == cx.warehouse_id,
        warehouse_question(cx, warehouse).cx.metadata == cx.metadata,
        warehouse_question(cx, warehouse).action == CatalogWarehouseAction::GetConfig,
{
}

/// Two questions about warehouses are the same only where context and outcome are: no
/// two outcomes of a lookup are made to look alike before the authorizer has decided.
pub proof fn warehouse_questions_tell_lookups_apart<'a, M, W>(
    cx: &'a DeltaRequestContext<M>,
    a: Result<Option<W>, ErrorModel>,
    b: Result<Option<W>, ErrorModel>,
)
    ensures
        warehouse_question(cx, a) == warehouse_question(cx, b) <==> a == b,
{
    assert(warehouse_question(cx, a).warehouse == a);
    assert(warehouse_question(cx, b).warehouse == b);
}

} // verus!
