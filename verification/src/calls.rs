//! What every call comes to, told by what goes in and what comes out.
//!
//! Each law here speaks of a call itself: of any arguments, and of any result that the
//! function may return for them.

use crate::authorize::{
    Authorization, AuthorizeTableId, CatalogExists, CatalogGenericTableAction,
    CatalogWarehouseAction, DeltaAction, RequireTableAction, RequireWarehouseAction,
};
use crate::backend::{
    ConfigureVend, DeferredMethod, DeltaCapabilities, GenerateTableConfig, LoadedTable,
    ParseLocation, ReadSecret, RequestTableConfig, RequireAllowedLocation, ResolveTable,
    ValidateExternalLocation, VendTableCredential,
};
use crate::context::{DeltaApiError, DeltaRequestContext, Prepare, ReadPath, ResolvePrefix};
use crate::credentials::{
    CredentialAccess, DataAccessMode, StoragePermissions, TableConfig, VendedCredential,
    VendedCredentialKind,
};
use crate::error::{BackendResult, DeltaBackendError, ErrorModel};
use crate::host::{GenericTableId, Location, NamespaceId, ResolvedWarehouse, WarehouseId};
use crate::lookup::{
    BeginRead, CommitRead, LoadGenericTable, LoadGenericTableById, LoadRow, LoadedRow,
    RequireWarehouse, ResolveNamespaceId, TableKey,
};
use crate::namespace::{SchemaRef, TableRef};
use crate::properties::{Entry, TableProperties};
use crate::router::{
    Endpoint, GetConfigParams, GetConfigQuery, Method, Route, SchemaPath, Success, TablePath,
};
use crate::tables::{
    ConvertSchema, ConvertTableSchema, DeltaDataSourceFormat, DeltaTableType, GenericTableInfo,
    ParseSchema, ParseTableSchema, ResolvedTable, SchemaColumns, TableToResolved,
};
use crate::{
    authorize, backend, context, credentials, error, lookup, namespace, properties, router, tables,
    text,
};
use iceberg::NamespaceIdent;
use vstd::prelude::*;

verus! {

/// Whether an error tells a host failure: in the host's words, and under the kind that
/// the host's code has in HTTP.
pub open spec fn tells(told: DeltaBackendError, failure: ErrorModel) -> bool {
    match told {
        DeltaBackendError::InvalidArgument(m) => failure.code == 400 && m@ == failure.message@,
        DeltaBackendError::Unauthenticated(m) => failure.code == 401 && m@ == failure.message@,
        DeltaBackendError::PermissionDenied(m) => failure.code == 403 && m@ == failure.message@,
        DeltaBackendError::NotFound(m) => failure.code == 404 && m@ == failure.message@,
        DeltaBackendError::AlreadyExists(m) => failure.code == 409 && m@ == failure.message@,
        DeltaBackendError::ResourceExhausted(m) => failure.code == 429 && m@ == failure.message@,
        DeltaBackendError::Internal(m) => {
            &&& !set![400u16, 401u16, 403u16, 404u16, 409u16, 429u16].contains(failure.code)
            &&& m@ == failure.message@
        },
        _ => false,
    }
}

/// An error that tells a host failure is known by the failure's code and message.
pub proof fn telling_fixes_kind_and_message(
    a: DeltaBackendError,
    b: DeltaBackendError,
    failure: ErrorModel,
)
    requires
        tells(a, failure),
        tells(b, failure),
    ensures
        a@ == b@,
        a@.message == failure.message@,
        a is NotFound <==> failure.code == 404,
        a is PermissionDenied <==> failure.code == 403,
        a is Unauthenticated <==> failure.code == 401,
        a is InvalidArgument <==> failure.code == 400,
        a is AlreadyExists <==> failure.code == 409,
        a is ResourceExhausted <==> failure.code == 429,
{
}

/// An error whose view is that of a host failure tells that failure.
proof fn lemma_tells(told: DeltaBackendError, failure: ErrorModel)
    requires
        told@ == error::failure_of(failure),
    ensures
        tells(told, failure),
{
}

/// Every host failure is told, and every host success is passed on with its value.
pub proof fn host_replies_are_told<T>(
    failure: ErrorModel,
    told: DeltaBackendError,
    reply: Result<T, ErrorModel>,
    result: BackendResult<T>,
)
    requires
        call_ensures(error::to_backend_err, (failure,), told),
        call_ensures(error::tell::<T>, (reply,), result),
    ensures
        tells(told, failure),
        match reply {
            Ok(value) => result == Ok::<T, DeltaBackendError>(value),
            Err(failure) => result matches Err(told) && tells(told, failure),
        },
{
    if reply is Err {
        lemma_tells(result->Err_0, reply->Err_0);
    }
}

/// Every catalog and every schema with at least one character make a namespace of two
/// names, the catalog and the schema; nothing else does, and is told as malformed.
pub proof fn namespaces_are_made_of_non_empty_names(
    catalog: &str,
    schema: &str,
    res: BackendResult<NamespaceIdent>,
)
    requires
        call_ensures(namespace::namespace, (catalog, schema), res),
    ensures
        res is Ok <==> catalog@.len() > 0 && schema@.len() > 0,
        res matches Ok(made) ==> namespace::namespace_parts(made) == seq![catalog@, schema@],
        res matches Err(error) ==> (error matches DeltaBackendError::InvalidArgument(message)
            && message@ == "Delta catalog and schema must be non-empty"@),
{
}

/// A read is put to the authorizer for every catalog and schema with at least one
/// character each, about the named table in their namespace, for its metadata, on behalf
/// of the context's caller. It is then allowed exactly where the authorizer allows it, and
/// else told as the authorizer refuses it.
pub proof fn reads_are_authorized<'a, M, D>(
    table: &'a TableRef,
    cx: &'a DeltaRequestContext<M>,
    next: BackendResult<Authorization<'a, M>>,
    reply: Result<D, ErrorModel>,
    allowed: BackendResult<()>,
)
    requires
        call_ensures(authorize::authorize::<M>, (DeltaAction::ReadTable { table }, cx), next),
        next matches Ok(Authorization::Table(request)) ==> call_ensures(
            RequireTableAction::<'a, M>::decided::<D>,
            (request, reply),
            allowed,
        ),
    ensures
        next is Ok <==> table.catalog@.len() > 0 && table.schema@.len() > 0,
        next is Ok ==> {
            &&& next matches Ok(Authorization::Table(request))
            &&& request.cx == cx
            &&& namespace::namespace_parts(request.namespace) == seq![
                table.catalog@,
                table.schema@,
            ]
            &&& request.table_name@ == table.table@
            &&& request.action == CatalogGenericTableAction::GetMetadata
            &&& match reply {
                Ok(_) => allowed is Ok,
                Err(refusal) => allowed matches Err(told) && tells(told, refusal),
            }
        },
        next matches Err(error) ==> (error matches DeltaBackendError::InvalidArgument(message)
            && message@ == "Delta catalog and schema must be non-empty"@),
{
    if next is Ok && reply is Err {
        lemma_tells(allowed->Err_0, reply->Err_0);
    }
}

/// A table credential is put to the host for every identifier: the table is looked for in
/// the warehouse of the context, and the authorizer is asked about the very table that was
/// loaded, for data to be read or written as was asked. A load that failed is told.
pub proof fn credentials_are_authorized<'a, M, J, D>(
    table_id: &'a str,
    access: CredentialAccess,
    cx: &'a DeltaRequestContext<M>,
    next: BackendResult<Authorization<'a, M>>,
    loaded: BackendResult<GenericTableInfo<J>>,
    request: BackendResult<RequireTableAction<'a, M>>,
    reply: Result<D, ErrorModel>,
    allowed: BackendResult<()>,
)
    requires
        call_ensures(
            authorize::authorize::<M>,
            (DeltaAction::VendTableCredential { table_id, access }, cx),
            next,
        ),
        next matches Ok(Authorization::TableId(state)) ==> call_ensures(
            AuthorizeTableId::<'a, M>::loaded::<J>,
            (state, loaded),
            request,
        ),
        request matches Ok(request) ==> call_ensures(
            RequireTableAction::<'a, M>::decided::<D>,
            (request, reply),
            allowed,
        ),
    ensures
        next matches Ok(Authorization::TableId(state)) && *state.load.warehouse_id
            == cx.warehouse_id && state.load.table_id == table_id && state.cx == cx,
        request is Ok <==> loaded is Ok,
        request matches Ok(request) ==> {
            &&& request.cx == cx
            &&& request.namespace == loaded->Ok_0.namespace
            &&& request.table_name == loaded->Ok_0.name
            &&& request.action == match access {
                CredentialAccess::Read => CatalogGenericTableAction::ReadData,
                CredentialAccess::ReadWrite => CatalogGenericTableAction::WriteData,
            }
            &&& match reply {
                Ok(_) => allowed is Ok,
                Err(refusal) => allowed matches Err(told) && tells(told, refusal),
            }
        },
        request matches Err(error) ==> error@ == loaded->Err_0@,
{
    if request is Ok && reply is Err {
        lemma_tells(allowed->Err_0, reply->Err_0);
    }
}

/// Anything but a read and a table credential is refused, whoever asks and whatever
/// warehouse it is about: an unknown action is denied, all else is not implemented.
pub proof fn all_else_is_refused<'a, M>(
    action: DeltaAction<'a>,
    cx: &'a DeltaRequestContext<M>,
    next: BackendResult<Authorization<'a, M>>,
)
    requires
        call_ensures(authorize::authorize::<M>, (action, cx), next),
    ensures
        match action {
            DeltaAction::ReadTable { .. } => true,
            DeltaAction::VendTableCredential { .. } => true,
            DeltaAction::VendPathCredential => next matches Err(
                DeltaBackendError::NotImplemented(message),
            ) && message@
                == "Delta temporary-path credentials are not yet supported by Lakekeeper"@,
            DeltaAction::Unrecognized => next matches Err(
                DeltaBackendError::PermissionDenied(message),
            ) && message@ == "unrecognized Delta action"@,
            _ => next matches Err(DeltaBackendError::NotImplemented(message)) && message@
                == "Delta write and staging operations are not yet supported by Lakekeeper"@,
        },
{
}

/// The check for a catalog puts the outcome of the lookup to the authorizer exactly as it
/// was, with the context that the check was begun in, and asks for the configuration. The
/// catalog is there exactly where the authorizer allows that; its refusal is told. The
/// name of the catalog counts for nothing.
pub proof fn catalogs_are_checked_by_the_authorizer<'a, M, W, D>(
    catalog: &str,
    cx: &'a DeltaRequestContext<M>,
    state: CatalogExists<'a, M>,
    warehouse: Result<Option<W>, ErrorModel>,
    next: RequireWarehouseAction<'a, M, W>,
    reply: Result<D, ErrorModel>,
    there: BackendResult<()>,
)
    requires
        call_ensures(authorize::catalog_exists::<M>, (catalog, cx), state),
        call_ensures(CatalogExists::<'a, M>::looked_up::<W>, (state, warehouse), next),
        call_ensures(RequireWarehouseAction::<'a, M, W>::decided::<D>, (next, reply), there),
    ensures
        state.cx == cx,
        next.cx == cx,
        next.warehouse == warehouse,
        next.action == CatalogWarehouseAction::GetConfig,
        match reply {
            Ok(_) => there is Ok,
            Err(refusal) => there matches Err(told) && tells(told, refusal),
        },
{
    if reply is Err {
        lemma_tells(there->Err_0, reply->Err_0);
    }
}

/// A call is made wherever its prefix resolves to a warehouse, whichever that is: with
/// what it was begun with, for its caller and on that warehouse. Where the prefix does not
/// resolve, the request is malformed, in the host's words.
pub proof fn calls_are_prepared<M, A>(
    prefix: String,
    metadata: M,
    call: A,
    state: Prepare<M, A>,
    warehouse: Result<WarehouseId, ErrorModel>,
    ready: Result<(A, DeltaRequestContext<M>), DeltaApiError>,
)
    requires
        call_ensures(context::prepare::<M, A>, (prefix, metadata, call), state),
        call_ensures(Prepare::<M, A>::resolved, (state, warehouse), ready),
    ensures
        state.prefix == prefix,
        match warehouse {
            Ok(warehouse_id) => {
                &&& ready matches Ok((made, cx))
                &&& made == call
                &&& cx.metadata == metadata
                &&& cx.warehouse_id == warehouse_id
            },
            Err(failure) => ready matches Err(DeltaApiError::InvalidArgument(message)) && message@
                == failure.message@,
        },
{
}

/// A request has a context wherever it has metadata, its path could be read and its prefix
/// resolves to a warehouse: that metadata and that warehouse. The prefix that is resolved
/// is the captured `prefix`, and is missing exactly where none was captured. Missing
/// metadata is a fault of the server, a path that could not be read stays rejected, and a
/// prefix that does not resolve makes the request malformed, in the host's words.
pub proof fn contexts_are_extracted<M, R>(
    metadata: Option<M>,
    read: Result<ReadPath<M>, DeltaApiError>,
    params: Result<TableProperties, R>,
    resolve: Result<ResolvePrefix<M>, R>,
    warehouse: Result<WarehouseId, ErrorModel>,
    extracted: Result<DeltaRequestContext<M>, DeltaApiError>,
)
    requires
        call_ensures(context::from_request_parts::<M>, (metadata,), read),
        read matches Ok(read) ==> call_ensures(
            ReadPath::<M>::path_read::<R>,
            (read, params),
            resolve,
        ),
        read is Ok && resolve is Ok ==> call_ensures(
            ResolvePrefix::<M>::resolved,
            (resolve->Ok_0, warehouse),
            extracted,
        ),
    ensures
        read is Ok <==> metadata is Some,
        read matches Err(error) ==> (error matches DeltaApiError::Backend(
            DeltaBackendError::Internal(message),
        ) && message@
            == "request metadata extension missing; Delta routes must be nested inside the request-metadata middleware"@),
        read is Ok ==> (resolve is Ok <==> params is Ok),
        read is Ok && params is Err ==> resolve->Err_0 == params->Err_0,
        read is Ok && resolve is Ok ==> {
            let captured = params->Ok_0@;
            &&& match resolve->Ok_0.prefix {
                Some(prefix) => captured.contains(Entry { key: "prefix"@, value: prefix@ }),
                None => forall|i: int|
                    0 <= i < captured.len() ==> (#[trigger] captured[i]).key != "prefix"@,
            }
            &&& match warehouse {
                Ok(warehouse_id) => {
                    &&& extracted matches Ok(cx)
                    &&& cx.metadata == metadata->0
                    &&& cx.warehouse_id == warehouse_id
                },
                Err(failure) => extracted matches Err(DeltaApiError::InvalidArgument(message))
                    && message@ == failure.message@,
            }
        },
{
    if read is Ok && resolve is Ok {
        let captured = params->Ok_0@;
        properties::lookup_takes_the_first(captured, "prefix"@);
        if resolve->Ok_0.prefix is Some {
            let value = resolve->Ok_0.prefix->0@;
            let i = choose|i: int|
                #![trigger captured[i]]
                0 <= i < captured.len() && captured[i].key == "prefix"@ && captured[i].value
                    == value && (forall|j: int|
                    0 <= j < i ==> (#[trigger] captured[j]).key != "prefix"@);
            assert(captured[i] == (Entry { key: "prefix"@, value }));
        }
    }
}

/// A credential is made wherever the profile's properties have a complete S3 key pair, a
/// GCS token or a SAS token, in this order, and of nothing but their values. It is for the
/// location that it was asked for, and expires when the profile says, whatever the
/// properties are; it never expires exactly where the profile says nothing, or says that
/// very time. Where there is nothing to serve, that is a failure of the server.
pub proof fn credentials_are_vended(
    url: String,
    config: &TableConfig,
    res: BackendResult<VendedCredential>,
)
    requires
        call_ensures(credentials::to_vended_credential, (url, config), res),
    ensures
        ({
            let creds = config.creds@;
            let pair = credentials::holds(creds, "s3.access-key-id"@) && credentials::holds(
                creds,
                "s3.secret-access-key"@,
            );
            let oauth = credentials::holds(creds, "gcs.oauth2.token"@);
            match res {
                Ok(vended) => {
                    &&& vended.url@ == url@
                    &&& config.credentials_expiration_ms matches Some(ms)
                        ==> vended.expiration_time_ms == ms
                    &&& vended.expiration_time_ms == i64::MAX
                        <==> config.credentials_expiration_ms is None
                        || config.credentials_expiration_ms == Some(i64::MAX)
                    &&& match vended.kind {
                        VendedCredentialKind::S3 {
                            access_key_id,
                            secret_access_key,
                            session_token,
                        } => {
                            &&& pair
                            &&& credentials::gives(creds, "s3.access-key-id"@, access_key_id@)
                            &&& credentials::gives(
                                creds,
                                "s3.secret-access-key"@,
                                secret_access_key@,
                            )
                            &&& match session_token {
                                Some(token) => credentials::gives(
                                    creds,
                                    "s3.session-token"@,
                                    token@,
                                ),
                                None => !credentials::holds(creds, "s3.session-token"@),
                            }
                        },
                        VendedCredentialKind::GcsOauth { oauth_token } => {
                            &&& !pair
                            &&& credentials::gives(creds, "gcs.oauth2.token"@, oauth_token@)
                        },
                        VendedCredentialKind::AzureSas { sas_token } => {
                            &&& !pair && !oauth
                            &&& exists|i: int|
                                #![trigger creds[i]]
                                0 <= i < creds.len() && "adls.sas-token."@.is_prefix_of(
                                    creds[i].key,
                                ) && creds[i].value == sas_token@
                        },
                    }
                },
                Err(error) => {
                    &&& !pair && !oauth
                    &&& forall|i: int|
                        0 <= i < creds.len() ==> !"adls.sas-token."@.is_prefix_of(
                            (#[trigger] creds[i]).key,
                        )
                    &&& error matches DeltaBackendError::Internal(message)
                    &&& message@
                        == "storage profile vended no credential this Delta endpoint can serve (no S3, GCS, or ADLS keys present)"@
                },
            }
        }),
{
    credentials::credentials_are_made_of_the_properties(url@, *config);
    credentials::vended_expiry_is_the_profiles(url@, *config);
    if res is Ok {
        credentials::credentials_say_what_they_hold(res->Ok_0);
    }
}

/// A credential is scoped to writing exactly where writing was asked for, and a vend never
/// asks for remote signing.
pub proof fn scopes_are_as_asked(
    access: CredentialAccess,
    permissions: StoragePermissions,
    mode: DataAccessMode,
)
    requires
        call_ensures(credentials::to_storage_permissions, (access,), permissions),
        call_ensures(credentials::vended_data_access, (), mode),
    ensures
        permissions == StoragePermissions::Read <==> access == CredentialAccess::Read,
        permissions == StoragePermissions::ReadWriteDelete <==> access
            == CredentialAccess::ReadWrite,
        mode matches DataAccessMode::ServerDelegated(ways) && ways.vended_credentials
            && !ways.remote_signing,
{
}

/// A SAS token is found exactly where some key begins with the prefix of SAS tokens, and
/// is then the value of such a key.
pub proof fn sas_tokens_are_found(creds: &TableProperties, token: Option<String>)
    requires
        call_ensures(credentials::adls_sas_token, (creds,), token),
    ensures
        match token {
            Some(token) => exists|i: int|
                #![trigger creds@[i]]
                0 <= i < creds@.len() && "adls.sas-token."@.is_prefix_of(creds@[i].key)
                    && creds@[i].value == token@,
            None => forall|i: int|
                0 <= i < creds@.len() ==> !"adls.sas-token."@.is_prefix_of(
                    (#[trigger] creds@[i]).key,
                ),
        },
{
    credentials::first_sas_token_is_the_first(creds@);
}

/// Whether a resolved table is a stored table, told with these columns: as a Delta table
/// exactly where it is stored with the format `delta`, and with its own identifier,
/// location and properties.
pub open spec fn shows<J, C>(
    table: ResolvedTable<C>,
    info: GenericTableInfo<J>,
    columns: Seq<C>,
) -> bool {
    &&& table.table_type == Some(DeltaTableType::External) <==> info.format@ == "delta"@
    &&& table.table_type is None <==> info.format@ != "delta"@
    &&& table.data_source_format == Some(DeltaDataSourceFormat::Delta) <==> info.format@
        == "delta"@
    &&& table.data_source_format is None <==> info.format@ != "delta"@
    &&& table.table_id matches Some(id)
    &&& id@ == info.generic_table_id.0@
    &&& table.location@ == info.location.0@
    &&& table.properties@ == info.properties@
    &&& table.columns@ == columns
    &&& table.created_at_ms is None && table.updated_at_ms is None
    &&& table.version == 0
}

/// What a table shows is what is stored, and two tables that show the same differ in
/// nothing.
pub proof fn shown_tables_are_the_stored_ones<J, C>(
    a: ResolvedTable<C>,
    b: ResolvedTable<C>,
    info: GenericTableInfo<J>,
    columns: Seq<C>,
)
    requires
        shows(a, info, columns),
        shows(b, info, columns),
    ensures
        a@ == b@,
        a.table_type == Some(DeltaTableType::External) <==> info.format@ == "delta"@,
        a.data_source_format == Some(DeltaDataSourceFormat::Delta) <==> info.format@ == "delta"@,
        a@.table_id == Some(info.generic_table_id.0@),
        a.location@ == info.location.0@,
        a.properties@ == info.properties@,
        a.columns@ == columns,
{
    assert(a@.columns == b@.columns);
    assert(a@.properties == b@.properties);
}

/// Every stored table can be told. Without a schema it is told at once, with no columns.
/// With one, that schema is parsed and what came of it is converted, and the table is told
/// with the columns of the conversion, however many. A schema that cannot be read is a
/// failure of the server that says why.
pub proof fn stored_tables_are_told<'a, J, S, C>(
    info: &'a GenericTableInfo<J>,
    next: TableToResolved<'a, J, C>,
    parse: Result<S, String>,
    convert: BackendResult<ConvertTableSchema<'a, J, S>>,
    columns: Result<Vec<C>, String>,
    table: BackendResult<ResolvedTable<C>>,
)
    requires
        call_ensures(tables::table_to_resolved::<J, C>, (info,), next),
        next matches TableToResolved::Parse(state) ==> call_ensures(
            ParseTableSchema::<'a, J>::parsed::<S>,
            (state, parse),
            convert,
        ),
        convert matches Ok(state) ==> call_ensures(
            ConvertTableSchema::<'a, J, S>::converted::<C>,
            (state, columns),
            table,
        ),
    ensures
        match next {
            TableToResolved::Resolved(table) => info.schema is None && shows(
                table,
                *info,
                Seq::empty(),
            ),
            TableToResolved::Parse(state) => {
                &&& info.schema is Some
                &&& *state.parse.schema == info.schema->0
                &&& match parse {
                    Ok(struct_type) => {
                        &&& convert matches Ok(state)
                        &&& state.convert.struct_type == struct_type
                        &&& match columns {
                            Ok(columns) => table matches Ok(table) && shows(
                                table,
                                *info,
                                columns@,
                            ),
                            Err(reason) => table matches Err(DeltaBackendError::Internal(message))
                                && message@ == "stored Delta schema could not be converted: "@
                                + reason@,
                        }
                    },
                    Err(reason) => convert matches Err(DeltaBackendError::Internal(message))
                        && message@ == "stored table schema is not a valid Delta schema: "@
                        + reason@,
                }
            },
        },
{
    tables::stored_schemas_are_always_read(info, next);
    if next is Resolved {
        tables::tables_say_what_they_hold(next->Resolved_0);
        assert(next->Resolved_0.columns@ =~= Seq::<C>::empty());
    } else if parse is Ok && columns is Ok {
        tables::tables_say_what_they_hold(table->Ok_0);
    }
}

/// A schema has columns only through its parse and its conversion; without a schema there
/// are none.
pub proof fn schemas_are_read<'a, J, S, C>(
    schema: Option<&'a J>,
    next: SchemaColumns<'a, J, C>,
    parse: Result<S, String>,
    convert: BackendResult<ConvertSchema<S>>,
    columns: Result<Vec<C>, String>,
    read: BackendResult<Vec<C>>,
)
    requires
        call_ensures(tables::columns_from_schema::<J, C>, (schema,), next),
        next matches SchemaColumns::Parse(state) ==> call_ensures(
            ParseSchema::<'a, J>::parsed::<S>,
            (state, parse),
            convert,
        ),
        convert matches Ok(state) ==> call_ensures(
            ConvertSchema::<S>::converted::<C>,
            (state, columns),
            read,
        ),
    ensures
        match next {
            SchemaColumns::Columns(none) => schema is None && none@.len() == 0,
            SchemaColumns::Parse(state) => {
                &&& schema is Some
                &&& *state.schema == *schema->0
                &&& match parse {
                    Ok(struct_type) => {
                        &&& convert matches Ok(state)
                        &&& state.struct_type == struct_type
                        &&& match columns {
                            Ok(columns) => read == Ok::<Vec<C>, DeltaBackendError>(columns),
                            Err(reason) => read matches Err(DeltaBackendError::Internal(message))
                                && message@ == "stored Delta schema could not be converted: "@
                                + reason@,
                        }
                    },
                    Err(reason) => convert matches Err(DeltaBackendError::Internal(message))
                        && message@ == "stored table schema is not a valid Delta schema: "@
                        + reason@,
                }
            },
        },
{
}

/// A warehouse that has to be there is handed out wherever it was found; one that is
/// missing is named.
pub proof fn warehouses_are_required<'a, W>(
    warehouse_id: &'a WarehouseId,
    state: RequireWarehouse<'a>,
    reply: Result<Option<W>, ErrorModel>,
    warehouse: BackendResult<W>,
)
    requires
        call_ensures(lookup::require_warehouse, (warehouse_id,), state),
        call_ensures(RequireWarehouse::<'a>::found::<W>, (state, reply), warehouse),
    ensures
        *state.warehouse_id == *warehouse_id,
        match reply {
            Ok(Some(found)) => warehouse == Ok::<W, DeltaBackendError>(found),
            Ok(None) => warehouse matches Err(DeltaBackendError::NotFoundGeneric(message))
                && message@ == "warehouse '"@ + warehouse_id.0@ + "' not found"@,
            Err(failure) => warehouse matches Err(told) && tells(told, failure),
        },
{
    if reply is Err {
        lemma_tells(warehouse->Err_0, reply->Err_0);
    }
}

/// A namespace is handed out wherever it was found; one that is missing is shown by its
/// names.
pub proof fn namespaces_are_looked_for<'a>(
    warehouse_id: &'a WarehouseId,
    namespace: &'a NamespaceIdent,
    state: ResolveNamespaceId<'a>,
    reply: Result<Option<NamespaceId>, ErrorModel>,
    id: BackendResult<NamespaceId>,
)
    requires
        call_ensures(lookup::resolve_namespace_id, (warehouse_id, namespace), state),
        call_ensures(ResolveNamespaceId::<'a>::found, (state, reply), id),
    ensures
        *state.warehouse_id == *warehouse_id,
        *state.namespace == *namespace,
        match reply {
            Ok(Some(found)) => id == Ok::<NamespaceId, DeltaBackendError>(found),
            Ok(None) => id matches Err(DeltaBackendError::NotFound(message)) && message@
                == "namespace "@ + namespace::namespace_debug_text(
                namespace::namespace_parts(*namespace),
            ) + " not found"@,
            Err(failure) => id matches Err(told) && tells(told, failure),
        },
{
    if reply is Err {
        lemma_tells(id->Err_0, reply->Err_0);
    }
}

/// A load by name looks for its namespace in its warehouse and, wherever that is found, for
/// the table of its name in it.
pub proof fn tables_are_looked_for_by_name<'a>(
    warehouse_id: &'a WarehouseId,
    namespace: &'a NamespaceIdent,
    table_name: &'a str,
    state: LoadGenericTable<'a>,
    reply: Result<Option<NamespaceId>, ErrorModel>,
    next: BackendResult<BeginRead<'a>>,
)
    requires
        call_ensures(lookup::load_generic_table, (warehouse_id, namespace, table_name), state),
        call_ensures(LoadGenericTable::<'a>::namespace_found, (state, reply), next),
    ensures
        *state.namespace.warehouse_id == *warehouse_id,
        *state.namespace.namespace == *namespace,
        match reply {
            Ok(Some(id)) => {
                &&& next matches Ok(read)
                &&& *read.warehouse_id == *warehouse_id
                &&& read.key matches TableKey::Name { namespace_id, table_name: name }
                &&& namespace_id == id
                &&& name == table_name
            },
            Ok(None) => next matches Err(DeltaBackendError::NotFound(message)) && message@
                == "namespace "@ + namespace::namespace_debug_text(
                namespace::namespace_parts(*namespace),
            ) + " not found"@,
            Err(failure) => next matches Err(told) && tells(told, failure),
        },
{
    if reply is Err {
        lemma_tells(next->Err_0, reply->Err_0);
    }
}

/// A load by identifier looks for the table with it in its warehouse, wherever the
/// identifier could be parsed.
pub proof fn tables_are_looked_for_by_identifier<'a>(
    warehouse_id: &'a WarehouseId,
    table_id: &'a str,
    state: LoadGenericTableById<'a>,
    reply: Result<GenericTableId, String>,
    next: BackendResult<BeginRead<'a>>,
)
    requires
        call_ensures(lookup::load_generic_table_by_id, (warehouse_id, table_id), state),
        call_ensures(LoadGenericTableById::<'a>::parsed, (state, reply), next),
    ensures
        *state.warehouse_id == *warehouse_id,
        state.table_id == table_id,
        match reply {
            Ok(id) => {
                &&& next matches Ok(read)
                &&& *read.warehouse_id == *warehouse_id
                &&& read.key == TableKey::Id(id)
            },
            Err(reason) => next matches Err(DeltaBackendError::InvalidArgument(message))
                && message@ == "invalid table id: "@ + reason@,
        },
{
}

/// A read begins a transaction, looks in it for the row of its key in its warehouse,
/// commits that transaction, and hands out that row. It does so wherever all three
/// succeed; else the first failure is told.
pub proof fn rows_are_read<'a, T, I>(
    state: BeginRead<'a>,
    begin: Result<T, ErrorModel>,
    load: BackendResult<LoadRow<'a, T>>,
    row: Result<I, ErrorModel>,
    loaded: BackendResult<CommitRead<T, I>>,
    commit: Result<(), ErrorModel>,
    info: BackendResult<I>,
)
    requires
        call_ensures(BeginRead::<'a>::begun::<T>, (state, begin), load),
        load matches Ok(load) ==> call_ensures(LoadRow::<'a, T>::loaded::<I>, (load, row), loaded),
        load is Ok && loaded is Ok ==> call_ensures(
            LoadedRow::<I>::committed,
            (loaded->Ok_0.row, commit),
            info,
        ),
    ensures
        match begin {
            Err(failure) => load matches Err(told) && tells(told, failure),
            Ok(transaction) => {
                &&& load matches Ok(load)
                &&& load.transaction == transaction
                &&& load.warehouse_id == state.warehouse_id
                &&& load.key == state.key
                &&& match row {
                    Err(failure) => loaded matches Err(told) && tells(told, failure),
                    Ok(stored) => {
                        &&& loaded matches Ok(read)
                        &&& read.transaction == transaction
                        &&& match commit {
                            Err(failure) => info matches Err(told) && tells(told, failure),
                            Ok(_) => info == Ok::<I, DeltaBackendError>(stored),
                        }
                    },
                }
            },
        },
{
    if begin is Err {
        lemma_tells(load->Err_0, begin->Err_0);
    } else if row is Err {
        lemma_tells(loaded->Err_0, row->Err_0);
    } else if commit is Err {
        lemma_tells(info->Err_0, commit->Err_0);
    }
}

/// A table is looked for wherever its catalog and its schema have at least one character
/// each: by its name, in their namespace, in the warehouse of the context. What is loaded is
/// what is then told; a load that failed is told as it failed.
pub proof fn tables_are_resolved<'a, M, J, C>(
    table: &'a TableRef,
    cx: &'a DeltaRequestContext<M>,
    next: BackendResult<ResolveTable<'a, M>>,
    load: LoadGenericTable<'a>,
    loaded: BackendResult<GenericTableInfo<J>>,
    stored: BackendResult<LoadedTable<J>>,
    told: TableToResolved<'a, J, C>,
)
    requires
        call_ensures(backend::resolve_table::<M>, (table, cx), next),
        next matches Ok(state) ==> call_ensures(ResolveTable::<'a, M>::request, (&state,), load),
        next matches Ok(state) ==> call_ensures(
            ResolveTable::<'a, M>::loaded::<J>,
            (state, loaded),
            stored,
        ),
        stored matches Ok(stored) ==> call_ensures(
            LoadedTable::<J>::resolved::<C>,
            (&stored,),
            told,
        ),
    ensures
        next is Ok <==> table.catalog@.len() > 0 && table.schema@.len() > 0,
        next matches Err(error) ==> (error matches DeltaBackendError::InvalidArgument(message)
            && message@ == "Delta catalog and schema must be non-empty"@),
        next is Ok ==> {
            &&& *load.namespace.warehouse_id == cx.warehouse_id
            &&& namespace::namespace_parts(*load.namespace.namespace) == seq![
                table.catalog@,
                table.schema@,
            ]
            &&& load.table_name@ == table.table@
            &&& match loaded {
                Err(error) => stored matches Err(told) && told@ == error@,
                Ok(info) => {
                    &&& stored matches Ok(stored)
                    &&& stored.info == info
                    &&& match told {
                        TableToResolved::Resolved(table) => info.schema is None && shows(
                            table,
                            info,
                            Seq::empty(),
                        ),
                        TableToResolved::Parse(state) => {
                            &&& info.schema is Some
                            &&& *state.info == info
                            &&& *state.parse.schema == info.schema->0
                        },
                    }
                },
            }
        },
{
    if next is Ok && loaded is Ok {
        tables::stored_schemas_are_always_read(&stored->Ok_0.info, told);
        if told is Resolved {
            tables::tables_say_what_they_hold(told->Resolved_0);
            assert(told->Resolved_0.columns@ =~= Seq::<C>::empty());
        }
    }
}

/// A location is put to the storage profile of the context's warehouse wherever the
/// warehouse is there and the text is a location, and is valid exactly where the profile
/// allows it. Else the first failure is told.
pub proof fn locations_are_validated<'a, M, P>(
    location: &'a str,
    cx: &'a DeltaRequestContext<M>,
    state: ValidateExternalLocation<'a>,
    warehouse: Result<Option<ResolvedWarehouse<P>>, ErrorModel>,
    parse: BackendResult<ParseLocation<'a, P>>,
    parsed: Result<Location, String>,
    ask: BackendResult<RequireAllowedLocation<P>>,
    reply: Result<(), ErrorModel>,
    allowed: BackendResult<()>,
)
    requires
        call_ensures(backend::validate_external_location::<M>, (location, cx), state),
        call_ensures(
            ValidateExternalLocation::<'a>::warehouse_found::<P>,
            (state, warehouse),
            parse,
        ),
        parse matches Ok(parse) ==> call_ensures(
            ParseLocation::<'a, P>::parsed,
            (parse, parsed),
            ask,
        ),
        parse is Ok && ask is Ok ==> call_ensures(
            RequireAllowedLocation::<P>::decided,
            (ask->Ok_0, reply),
            allowed,
        ),
    ensures
        *state.warehouse.warehouse_id == cx.warehouse_id,
        match warehouse {
            Err(failure) => parse matches Err(told) && tells(told, failure),
            Ok(None) => parse matches Err(DeltaBackendError::NotFoundGeneric(message)) && message@
                == "warehouse '"@ + cx.warehouse_id.0@ + "' not found"@,
            Ok(Some(found)) => {
                &&& parse matches Ok(parse)
                &&& parse.location == location
                &&& match parsed {
                    Err(reason) => ask matches Err(DeltaBackendError::InvalidArgument(message))
                        && message@ == reason@,
                    Ok(place) => {
                        &&& ask matches Ok(ask)
                        &&& ask.warehouse == found
                        &&& ask.location == place
                        &&& match reply {
                            Ok(_) => allowed is Ok,
                            Err(failure) => allowed matches Err(told) && tells(told, failure),
                        }
                    },
                }
            },
        },
{
    if warehouse is Err {
        lemma_tells(parse->Err_0, warehouse->Err_0);
    } else if warehouse->Ok_0 is Some && parsed is Ok && reply is Err {
        lemma_tells(allowed->Err_0, reply->Err_0);
    }
}

/// A vend looks for the table with its identifier in the warehouse of the context, and goes
/// on wherever that was loaded. It asks for the configuration of that table, for its own
/// location, in the same warehouse and for the same caller, to be written to exactly where
/// that was asked for.
pub proof fn vends_are_begun<'a, M, J>(
    table_id: &'a str,
    access: CredentialAccess,
    cx: &'a DeltaRequestContext<M>,
    state: VendTableCredential<'a, M>,
    loaded: BackendResult<GenericTableInfo<J>>,
    next: BackendResult<ConfigureVend<'a, M, J>>,
    request: GenerateTableConfig<'a, M, GenericTableInfo<J>>,
)
    requires
        call_ensures(backend::vend_table_credential::<M>, (table_id, access, cx), state),
        call_ensures(VendTableCredential::<'a, M>::loaded::<J>, (state, loaded), next),
        next matches Ok(vend) ==> call_ensures(
            ConfigureVend::<'a, M, J>::request,
            (&vend,),
            request,
        ),
    ensures
        *state.load.warehouse_id == cx.warehouse_id,
        state.load.table_id == table_id,
        match loaded {
            Err(error) => next matches Err(told) && told@ == error@,
            Ok(info) => {
                &&& next matches Ok(vend)
                &&& vend.info == info
                &&& request.cx == cx
                &&& *request.warehouse.warehouse_id == cx.warehouse_id
                &&& *request.location == info.location
                &&& *request.tabular_info == info
                &&& request.permissions == match access {
                    CredentialAccess::Read => StoragePermissions::Read,
                    CredentialAccess::ReadWrite => StoragePermissions::ReadWriteDelete,
                }
            },
        },
{
}

/// The configuration of a table is asked for wherever the context's warehouse is there and
/// its secret could be read: from that warehouse's profile with that secret, for the
/// location, permissions, table and caller that were given, with vended credentials and
/// without remote signing. What the profile answers is handed out unchanged; else the first
/// failure is told.
pub proof fn configurations_are_generated<'a, M, I, P, K>(
    cx: &'a DeltaRequestContext<M>,
    location: &'a Location,
    permissions: StoragePermissions,
    tabular_info: &'a I,
    state: GenerateTableConfig<'a, M, I>,
    warehouse: Result<Option<ResolvedWarehouse<P>>, ErrorModel>,
    read: BackendResult<ReadSecret<'a, M, I, P>>,
    secret: Result<Option<K>, ErrorModel>,
    request: BackendResult<RequestTableConfig<'a, M, I, P, K>>,
    reply: Result<TableConfig, ErrorModel>,
    config: BackendResult<TableConfig>,
)
    requires
        call_ensures(
            backend::generate_table_config::<M, I>,
            (cx, location, permissions, tabular_info),
            state,
        ),
        call_ensures(
            GenerateTableConfig::<'a, M, I>::warehouse_found::<P>,
            (state, warehouse),
            read,
        ),
        read matches Ok(read) ==> call_ensures(
            ReadSecret::<'a, M, I, P>::secret_read::<K>,
            (read, secret),
            request,
        ),
        read is Ok && request is Ok ==> call_ensures(
            RequestTableConfig::<'a, M, I, P, K>::generated,
            (request->Ok_0, reply),
            config,
        ),
    ensures
        *state.warehouse.warehouse_id == cx.warehouse_id,
        match warehouse {
            Err(failure) => read matches Err(told) && tells(told, failure),
            Ok(None) => read matches Err(DeltaBackendError::NotFoundGeneric(message)) && message@
                == "warehouse '"@ + cx.warehouse_id.0@ + "' not found"@,
            Ok(Some(found)) => {
                &&& read matches Ok(read)
                &&& read.warehouse == found
                &&& match secret {
                    Err(failure) => request matches Err(told) && tells(told, failure),
                    Ok(secret) => {
                        &&& request matches Ok(request)
                        &&& request.cx == cx
                        &&& request.warehouse == found
                        &&& request.secret == secret
                        &&& *request.location == *location
                        &&& request.permissions == permissions
                        &&& *request.tabular_info == *tabular_info
                        &&& request.data_access matches DataAccessMode::ServerDelegated(ways)
                        &&& ways.vended_credentials && !ways.remote_signing
                        &&& match reply {
                            Ok(answer) => config == Ok::<TableConfig, DeltaBackendError>(answer),
                            Err(failure) => config matches Err(told) && tells(told, failure),
                        }
                    },
                }
            },
        },
{
    if warehouse is Err {
        lemma_tells(read->Err_0, warehouse->Err_0);
    } else if warehouse->Ok_0 is Some {
        if secret is Err {
            lemma_tells(request->Err_0, secret->Err_0);
        } else if reply is Err {
            lemma_tells(config->Err_0, reply->Err_0);
        }
    }
}

/// What is vended once the configuration is there is the credential of that configuration,
/// made for the location of the loaded table; a configuration that failed is told as it
/// failed.
pub proof fn vends_are_ended<'a, M, J>(
    state: ConfigureVend<'a, M, J>,
    config: BackendResult<TableConfig>,
    vended: BackendResult<VendedCredential>,
    url: String,
    made: BackendResult<VendedCredential>,
)
    requires
        call_ensures(ConfigureVend::<'a, M, J>::configured, (state, config), vended),
        url@ == state.info.location.0@,
        config matches Ok(config) ==> call_ensures(
            credentials::to_vended_credential,
            (url, &config),
            made,
        ),
    ensures
        match config {
            Err(error) => vended matches Err(told) && told@ == error@,
            Ok(config) => {
                &&& error::viewed(vended) == error::viewed(made)
                &&& vended matches Ok(credential) ==> {
                    &&& credential.url@ == state.info.location.0@
                    &&& config.credentials_expiration_ms matches Some(ms)
                        ==> credential.expiration_time_ms == ms
                    &&& credential.expiration_time_ms == i64::MAX
                        <==> config.credentials_expiration_ms is None
                        || config.credentials_expiration_ms == Some(i64::MAX)
                }
            },
        },
{
    if config is Ok {
        credentials::vended_expiry_is_the_profiles(url@, config->Ok_0);
    }
}

/// What is not served is refused as not implemented, by its own name, whatever it would
/// have returned; and the rename, which is not served, is not advertised.
pub proof fn unserved_methods_are_refused<T>(
    method: DeferredMethod,
    refusal: BackendResult<T>,
    capabilities: DeltaCapabilities,
)
    requires
        call_ensures(backend::deferred::<T>, (method,), refusal),
        call_ensures(backend::capabilities, (), capabilities),
    ensures
        !capabilities.rename,
        refusal matches Err(DeltaBackendError::NotImplemented(message)) && message@
            == backend::deferral(method),
{
}

/// The router has one route for each endpoint, on the path and with the method of that
/// endpoint, and a call that succeeded is answered without content exactly where it
/// deletes, renames, reports, or asks whether a table is there.
pub proof fn routes_are_served(routes: Vec<Route>, i: int, endpoint: Endpoint, answer: Success)
    requires
        call_ensures(router::router, (), routes),
        call_ensures(router::success, (endpoint,), answer),
        0 <= i < routes@.len(),
    ensures
        routes@.len() == 12,
        router::leads_to(routes@, endpoint),
        routes@[i].path@ == router::path_of(routes@[i].endpoint),
        routes@[i].method == Method::Get <==> routes@[i].endpoint is GetConfig
            || routes@[i].endpoint is LoadTable || routes@[i].endpoint is GetTableCredentials
            || routes@[i].endpoint is GetStagingTableCredentials || routes@[i].endpoint
            is GetTemporaryPathCredentials,
        routes@[i].method == Method::Head <==> routes@[i].endpoint is TableExists,
        routes@[i].method == Method::Delete <==> routes@[i].endpoint is DeleteTable,
        answer == Success::NoContent <==> endpoint is DeleteTable || endpoint is TableExists
            || endpoint is RenameTable || endpoint is ReportMetrics,
{
    router::routes_do_not_overlap(routes@);
}

/// Calls carry what their path and their query name, whole and in its place, with the
/// request, the prefix and the caller's metadata untouched.
pub proof fn calls_carry_their_coordinates<M, R>(
    prefix: String,
    params: GetConfigParams,
    schema_path: SchemaPath,
    table_path: TablePath,
    metadata: M,
    request: R,
    config: Prepare<M, GetConfigQuery>,
    schema: Prepare<M, (SchemaRef, R)>,
    table: Prepare<M, (TableRef, R)>,
    coordinate: TableRef,
)
    requires
        call_ensures(router::get_config::<M>, (prefix, metadata, params), config),
        call_ensures(router::schema_call::<M, R>, (schema_path, metadata, request), schema),
        call_ensures(router::table_call::<M, R>, (table_path, metadata, request), table),
        call_ensures(router::table_ref, (table_path,), coordinate),
    ensures
        config.metadata == metadata && schema.metadata == metadata && table.metadata == metadata,
        config.prefix == prefix,
        config.call.catalog == params.catalog,
        config.call.protocol_versions == params.protocol_versions,
        schema.prefix == schema_path.prefix,
        schema.call.0.catalog == schema_path.catalog,
        schema.call.0.schema == schema_path.schema,
        schema.call.1 == request,
        table.prefix == table_path.prefix,
        table.call.0 == coordinate,
        table.call.1 == request,
        coordinate.catalog == table_path.catalog,
        coordinate.schema == table_path.schema,
        coordinate.table == table_path.table,
{
}

/// A property is found exactly where some entry has its key, with the value of the first
/// such entry, and a copy of properties finds the same.
pub proof fn properties_are_found(
    entries: &TableProperties,
    key: &str,
    value: Option<&String>,
    copy: TableProperties,
    again: Option<&String>,
)
    requires
        call_ensures(TableProperties::get, (entries, key), value),
        call_ensures(TableProperties::copied, (entries,), copy),
        call_ensures(TableProperties::get, (&copy, key), again),
    ensures
        value is Some <==> credentials::holds(entries@, key@),
        value matches Some(value) ==> credentials::gives(entries@, key@, value@),
        again is Some <==> value is Some,
        value is Some ==> again->0@ == value->0@,
        copy@ == entries@,
{
    properties::lookup_takes_the_first(entries@, key@);
}

/// Texts are compared by all their characters, and joined without a character lost.
pub proof fn texts_are_compared_whole(
    a: &str,
    b: &str,
    begins: bool,
    same: bool,
    text: String,
)
    requires
        call_ensures(text::starts_with, (a, b), begins),
        call_ensures(text::same_text, (a, b), same),
        call_ensures(text::joined, (a, b), text),
    ensures
        begins <==> b@.len() <= a@.len() && (forall|i: int|
            0 <= i < b@.len() ==> a@[i] == #[trigger] b@[i]),
        same <==> a@ == b@,
        same ==> begins,
        text@.len() == a@.len() + b@.len(),
        forall|i: int| 0 <= i < a@.len() ==> #[trigger] text@[i] == a@[i],
        forall|i: int| 0 <= i < b@.len() ==> text@[a@.len() + i] == #[trigger] b@[i],
{
    if begins {
        assert forall|i: int| 0 <= i < b@.len() implies a@[i] == #[trigger] b@[i] by {
            assert(b@ =~= a@.subrange(0, b@.len() as int));
        }
    }
    if b@.len() <= a@.len() && (forall|i: int| 0 <= i < b@.len() ==> a@[i] == #[trigger] b@[i]) {
        assert(b@ =~= a@.subrange(0, b@.len() as int));
    }
}

/// An authorization by identifier is begun for the identifier, the context and the action
/// that it is given, and a namespace that is missing is shown as it is given.
pub proof fn given_values_are_kept<'a, M>(
    cx: &'a DeltaRequestContext<M>,
    table_id: &'a str,
    action: CatalogGenericTableAction,
    state: AuthorizeTableId<'a, M>,
    shown: &str,
    failure: DeltaBackendError,
)
    requires
        call_ensures(authorize::authorize_table_id::<M>, (cx, table_id, action), state),
        call_ensures(lookup::namespace_not_found, (shown,), failure),
    ensures
        state.cx == cx,
        *state.load.warehouse_id == cx.warehouse_id,
        state.load.table_id == table_id,
        state.action == action,
        failure matches DeltaBackendError::NotFound(message) && message@ == "namespace "@ + shown@
            + " not found"@,
{
}

} // verus!
