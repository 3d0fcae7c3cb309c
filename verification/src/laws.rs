//! What holds of whole operations, whatever the host answers.
//!
//! An operation is taken through all its states here, with one answer for each
//! question that it may ask; an answer to a question that is not reached is not
//! looked at.

use crate::authorize::{
    Authorization, CatalogGenericTableAction, CatalogWarehouseAction, DeltaAction,
    RequireTableAction, RequireWarehouseAction,
};
use crate::backend::{ResolveTable, ValidateExternalLocation, VendTableCredential};
use crate::context::DeltaRequestContext;
use crate::credentials::{
    CredentialAccess, CredentialView, DataAccessMode, StoragePermissions, TableConfig,
};
use crate::error::{BackendResult, ErrorKind, ErrorModel, Failure};
use crate::host::{GenericTableId, Location, NamespaceId, ResolvedWarehouse};
use crate::lookup::{LoadGenericTable, LoadGenericTableById};
use crate::namespace::TableRef;
use crate::tables::{
    DeltaDataSourceFormat, DeltaTableType, GenericTableInfo, ParseSchema, ParseTableSchema,
    ResolvedView,
};
use crate::{authorize, backend, credentials, error, lookup, namespace, tables};
use vstd::prelude::*;

verus! {

/// What a stored table is told as, with these answers to the parse and the
/// conversion of its schema.
pub open spec fn table_outcome<J, S, C>(
    info: GenericTableInfo<J>,
    parse: Result<S, String>,
    convert: Result<Vec<C>, String>,
) -> Result<ResolvedView<C>, Failure> {
    match info.schema {
        None => Ok(tables::resolved(info, Seq::empty())),
        Some(schema) => {
            let asked = ParseTableSchema { info: &info, parse: ParseSchema { schema: &schema } };
            match tables::table_schema_parsed(asked, parse) {
                Ok(state) => tables::table_schema_converted(state, convert),
                Err(failure) => Err(failure),
            }
        },
    }
}

/// What the load of a table by name comes to.
pub open spec fn load_outcome<'a, T, J>(
    load: LoadGenericTable<'a>,
    namespace: Result<Option<NamespaceId>, ErrorModel>,
    begin: Result<T, ErrorModel>,
    row: Result<GenericTableInfo<J>, ErrorModel>,
    commit: Result<(), ErrorModel>,
) -> Result<GenericTableInfo<J>, Failure> {
    match lookup::load_by_name(load, namespace) {
        Ok(state) => lookup::read_outcome(state, begin, row, commit),
        Err(failure) => Err(failure),
    }
}

/// What the load of a table by identifier comes to.
pub open spec fn load_by_id_outcome<'a, T, J>(
    load: LoadGenericTableById<'a>,
    id: Result<GenericTableId, String>,
    begin: Result<T, ErrorModel>,
    row: Result<GenericTableInfo<J>, ErrorModel>,
    commit: Result<(), ErrorModel>,
) -> Result<GenericTableInfo<J>, Failure> {
    match lookup::load_by_id(load, id) {
        Ok(state) => lookup::read_outcome(state, begin, row, commit),
        Err(failure) => Err(failure),
    }
}

/// A stored schema that cannot be read is a failure, never a table without
/// columns. A table without a stored schema still loads, without columns, and one
/// with a readable schema has the columns of that schema.
pub proof fn unreadable_schema_is_not_served<J, S, C>(
    info: GenericTableInfo<J>,
    parse: Result<S, String>,
    convert: Result<Vec<C>, String>,
)
    ensures
        info.schema is None ==> table_outcome(info, parse, convert) == Ok::<_, Failure>(
            tables::resolved(info, Seq::<C>::empty()),
        ),
        info.schema is Some ==> {
            &&& table_outcome(info, parse, convert) is Ok <==> parse is Ok && convert is Ok
            &&& table_outcome(info, parse, convert) matches Ok(table) ==> table
                == tables::resolved(info, convert->Ok_0@)
            &&& table_outcome(info, parse, convert) matches Err(failure) ==> failure.kind
                is Internal
        },
{
}

/// What the resolution of a table comes to, with these answers from the host.
pub open spec fn resolve_outcome<'a, M, T, J, S, C>(
    start: BackendResult<ResolveTable<'a, M>>,
    namespace: Result<Option<NamespaceId>, ErrorModel>,
    begin: Result<T, ErrorModel>,
    row: Result<GenericTableInfo<J>, ErrorModel>,
    commit: Result<(), ErrorModel>,
    parse: Result<S, String>,
    convert: Result<Vec<C>, String>,
) -> Result<ResolvedView<C>, Failure> {
    match error::seen(start) {
        Err(failure) => Err(failure),
        Ok(state) => match backend::resolve_loaded(
            load_outcome(backend::resolve_load(&state), namespace, begin, row, commit),
        ) {
            Err(failure) => Err(failure),
            Ok(loaded) => table_outcome(loaded.info, parse, convert),
        },
    }
}

/// A resolved table is the stored table that the coordinate names: it is told only
/// where the namespace was found, the table was read in a transaction that was
/// committed, and its schema, if it has one, could be read.
pub proof fn resolved_table_is_the_stored_one<'a, M, T, J, S, C>(
    table: TableRef,
    cx: &'a DeltaRequestContext<M>,
    start: BackendResult<ResolveTable<'a, M>>,
    namespace: Result<Option<NamespaceId>, ErrorModel>,
    begin: Result<T, ErrorModel>,
    row: Result<GenericTableInfo<J>, ErrorModel>,
    commit: Result<(), ErrorModel>,
    parse: Result<S, String>,
    convert: Result<Vec<C>, String>,
)
    requires
        backend::resolution_of(table, cx, start),
    ensures
        resolve_outcome(start, namespace, begin, row, commit, parse, convert) is Ok <==> {
            &&& table.catalog@.len() > 0 && table.schema@.len() > 0
            &&& namespace is Ok && namespace->Ok_0 is Some
            &&& begin is Ok && row is Ok && commit is Ok
            &&& row->Ok_0.schema is None || (parse is Ok && convert is Ok)
        },
        resolve_outcome(start, namespace, begin, row, commit, parse, convert) matches Ok(told)
            ==> told == tables::resolved(
            row->Ok_0,
            if row->Ok_0.schema is None {
                Seq::empty()
            } else {
                convert->Ok_0@
            },
        ),
        resolve_outcome(start, namespace, begin, row, commit, parse, convert) matches Ok(told)
            ==> {
            let stored = row->Ok_0;
            &&& told.table_id == Some(stored.generic_table_id.0@)
            &&& told.location == stored.location.0@
            &&& told.properties == stored.properties@
            &&& told.table_type == Some(DeltaTableType::External) <==> stored.format@ == "delta"@
            &&& told.data_source_format == Some(DeltaDataSourceFormat::Delta) <==> stored.format@
                == "delta"@
            &&& stored.schema is None ==> told.columns.len() == 0
            &&& stored.schema is Some ==> told.columns == convert->Ok_0@
        },
        table.catalog@.len() > 0 && table.schema@.len() > 0 && namespace is Ok
            && namespace->Ok_0 is None ==> resolve_outcome(start, namespace, begin, row, commit, parse, convert) == Err::<
            ResolvedView<C>,
            Failure,
        >(
            lookup::namespace_missing(
                namespace::namespace_debug_text(seq![table.catalog@, table.schema@]),
            ),
        ),
{
}

/// The resolution of a table fails with the first failure on its way, told as it is:
/// an empty catalog or schema, the lookup of the namespace, the transaction, the row,
/// the commit, the schema.
pub proof fn resolutions_fail_with_the_first_failure<'a, M, T, J, S, C>(
    table: TableRef,
    cx: &'a DeltaRequestContext<M>,
    start: BackendResult<ResolveTable<'a, M>>,
    namespace: Result<Option<NamespaceId>, ErrorModel>,
    begin: Result<T, ErrorModel>,
    row: Result<GenericTableInfo<J>, ErrorModel>,
    commit: Result<(), ErrorModel>,
    parse: Result<S, String>,
    convert: Result<Vec<C>, String>,
)
    requires
        backend::resolution_of(table, cx, start),
    ensures
        resolve_outcome(start, namespace, begin, row, commit, parse, convert) matches Err(failure)
            ==> if table.catalog@.len() == 0 || table.schema@.len() == 0 {
            failure.kind is InvalidArgument && failure.message
                == "Delta catalog and schema must be non-empty"@
        } else if namespace is Err {
            failure == error::failure_of(namespace->Err_0)
        } else if namespace->Ok_0 is None {
            failure.kind is NotFound
        } else if begin is Err {
            failure == error::failure_of(begin->Err_0)
        } else if row is Err {
            failure == error::failure_of(row->Err_0)
        } else if commit is Err {
            failure == error::failure_of(commit->Err_0)
        } else {
            failure.kind is Internal && row->Ok_0.schema is Some && (parse is Err || convert
                is Err)
        },
{
}

/// A read is authorized for exactly the table that is then resolved: the two agree
/// on which coordinates are refused, and else on the warehouse, the namespace and
/// the name.
pub proof fn reads_are_authorized_for_what_is_resolved<'a, M>(
    table: &'a TableRef,
    cx: &'a DeltaRequestContext<M>,
    authorized: BackendResult<Authorization<'a, M>>,
    resolving: BackendResult<ResolveTable<'a, M>>,
)
    requires
        authorize::authorization_of(DeltaAction::ReadTable { table }, cx, authorized),
        backend::resolution_of(*table, cx, resolving),
    ensures
        match resolving {
            Ok(state) => {
                let load = backend::resolve_load(&state);
                &&& authorized matches Ok(Authorization::Table(request))
                &&& request.cx.warehouse_id == *load.namespace.warehouse_id
                &&& namespace::namespace_parts(request.namespace) == namespace::namespace_parts(
                    *load.namespace.namespace,
                )
                &&& request.table_name@ == load.table_name@
            },
            Err(error) => authorized matches Err(refusal) && refusal@ == error@,
        },
{
}

/// A table credential is authorized for the table that it is then vended for: both
/// begin with the same load.
pub proof fn vends_are_authorized_for_what_is_vended<'a, M>(
    table_id: &'a str,
    access: CredentialAccess,
    cx: &'a DeltaRequestContext<M>,
    authorized: BackendResult<Authorization<'a, M>>,
    vending: VendTableCredential<'a, M>,
)
    requires
        authorize::authorization_of(
            DeltaAction::VendTableCredential { table_id, access },
            cx,
            authorized,
        ),
        vending == (VendTableCredential {
            cx,
            load: LoadGenericTableById { warehouse_id: &cx.warehouse_id, table_id },
            access,
        }),
    ensures
        authorized matches Ok(Authorization::TableId(state)) && state.load == vending.load
            && state.cx == vending.cx,
{
}

/// What a vend comes to, with these answers from the host.
pub open spec fn vend_outcome<'a, M, T, J, P, K>(
    state: VendTableCredential<'a, M>,
    id: Result<GenericTableId, String>,
    begin: Result<T, ErrorModel>,
    row: Result<GenericTableInfo<J>, ErrorModel>,
    commit: Result<(), ErrorModel>,
    warehouse: Result<Option<ResolvedWarehouse<P>>, ErrorModel>,
    secret: Result<Option<K>, ErrorModel>,
    config: Result<TableConfig, ErrorModel>,
) -> Result<CredentialView, Failure> {
    match backend::vend_loaded(state, load_by_id_outcome(state.load, id, begin, row, commit)) {
        Err(failure) => Err(failure),
        Ok(vend) => backend::vend_configured(
            vend,
            match backend::config_warehouse_found(
                backend::vend_config_request(&vend),
                warehouse,
            ) {
                Err(failure) => Err(failure),
                Ok(read) => match backend::config_secret_read(read, secret) {
                    Err(failure) => Err(failure),
                    Ok(request) => error::told(config),
                },
            },
        ),
    }
}

/// A credential is vended only where the table was loaded, its warehouse and the
/// secret were found, and the storage profile answered with a credential that can
/// be served; it is then the profile's credential, for the location of the table.
pub proof fn vended_credential_is_the_profiles<'a, M, T, J, P, K>(
    state: VendTableCredential<'a, M>,
    id: Result<GenericTableId, String>,
    begin: Result<T, ErrorModel>,
    row: Result<GenericTableInfo<J>, ErrorModel>,
    commit: Result<(), ErrorModel>,
    warehouse: Result<Option<ResolvedWarehouse<P>>, ErrorModel>,
    secret: Result<Option<K>, ErrorModel>,
    config: Result<TableConfig, ErrorModel>,
)
    ensures
        vend_outcome(state, id, begin, row, commit, warehouse, secret, config) is Ok <==> {
            &&& id is Ok && begin is Ok && row is Ok && commit is Ok
            &&& warehouse is Ok && warehouse->Ok_0 is Some
            &&& secret is Ok && config is Ok
            &&& credentials::credential_kind(config->Ok_0.creds@) is Some
        },
        vend_outcome(state, id, begin, row, commit, warehouse, secret, config) matches Ok(vended)
            ==> {
            let profile = config->Ok_0;
            &&& vended.url == row->Ok_0.location.0@
            &&& profile.credentials_expiration_ms matches Some(ms) ==> vended.expiration_time_ms
                == ms
            &&& vended.expiration_time_ms == i64::MAX <==> profile.credentials_expiration_ms is None
                || profile.credentials_expiration_ms == Some(i64::MAX)
        },
        vend_outcome(state, id, begin, row, commit, warehouse, secret, config) matches Ok(
            vended,
        ) ==> vended == (CredentialView {
            url: row->Ok_0.location.0@,
            expiration_time_ms: credentials::expiration(config->Ok_0),
            kind: credentials::credential_kind(config->Ok_0.creds@)->0,
        }),
{
}

/// A vend whose steps all succeed serves a credential for every profile's answer that
/// holds a complete S3 key pair, a GCS token or a SAS token. One that does not fails with
/// the first failure on its way, told as it is.
pub proof fn vends_fail_with_the_first_failure<'a, M, T, J, P, K>(
    state: VendTableCredential<'a, M>,
    id: Result<GenericTableId, String>,
    begin: Result<T, ErrorModel>,
    row: Result<GenericTableInfo<J>, ErrorModel>,
    commit: Result<(), ErrorModel>,
    warehouse: Result<Option<ResolvedWarehouse<P>>, ErrorModel>,
    secret: Result<Option<K>, ErrorModel>,
    config: Result<TableConfig, ErrorModel>,
)
    ensures
        match vend_outcome(state, id, begin, row, commit, warehouse, secret, config) {
            Ok(_) => true,
            Err(failure) => if id is Err {
                failure.kind is InvalidArgument && failure.message == "invalid table id: "@
                    + id->Err_0@
            } else if begin is Err {
                failure == error::failure_of(begin->Err_0)
            } else if row is Err {
                failure == error::failure_of(row->Err_0)
            } else if commit is Err {
                failure == error::failure_of(commit->Err_0)
            } else if warehouse is Err {
                failure == error::failure_of(warehouse->Err_0)
            } else if warehouse->Ok_0 is None {
                failure.kind is NotFoundGeneric && failure.message == "warehouse '"@
                    + state.cx.warehouse_id.0@ + "' not found"@
            } else if secret is Err {
                failure == error::failure_of(secret->Err_0)
            } else if config is Err {
                failure == error::failure_of(config->Err_0)
            } else {
                let creds = config->Ok_0.creds@;
                &&& failure.kind is Internal
                &&& !credentials::holds(creds, "s3.access-key-id"@) || !credentials::holds(
                    creds,
                    "s3.secret-access-key"@,
                )
                &&& !credentials::holds(creds, "gcs.oauth2.token"@)
                &&& forall|i: int|
                    0 <= i < creds.len() ==> !"adls.sas-token."@.is_prefix_of(
                        (#[trigger] creds[i]).key,
                    )
            },
        },
{
    if config is Ok && row is Ok {
        credentials::credentials_are_made_of_the_properties(
            row->Ok_0.location.0@,
            config->Ok_0,
        );
    }
}

/// What the storage profile is asked for in a vend: credentials handed to the
/// client and no remote signing, for the location of the loaded table, with the
/// permissions of the access that was asked for, through the profile and the secret
/// of the context's warehouse.
pub proof fn vends_ask_for_no_more_than_was_asked<'a, M, J, P, K>(
    cx: &'a DeltaRequestContext<M>,
    table_id: &'a str,
    access: CredentialAccess,
    info: GenericTableInfo<J>,
    warehouse: ResolvedWarehouse<P>,
    secret: Option<K>,
)
    ensures
        ({
            let state = VendTableCredential {
                cx,
                load: LoadGenericTableById { warehouse_id: &cx.warehouse_id, table_id },
                access,
            };
            let vend = backend::vend_loaded(state, Ok::<GenericTableInfo<J>, Failure>(info))->Ok_0;
            let asked = backend::vend_config_request(&vend);
            let read = backend::config_warehouse_found(
                asked,
                Ok::<Option<ResolvedWarehouse<P>>, ErrorModel>(Some(warehouse)),
            )->Ok_0;
            let request = backend::config_secret_read(
                read,
                Ok::<Option<K>, ErrorModel>(secret),
            )->Ok_0;
            &&& *asked.warehouse.warehouse_id == cx.warehouse_id
            &&& read.warehouse == warehouse
            &&& request.cx == cx
            &&& request.warehouse == warehouse
            &&& request.secret == secret
            &&& request.data_access == credentials::vended_mode()
            &&& request.data_access matches DataAccessMode::ServerDelegated(mode)
            &&& mode.vended_credentials && !mode.remote_signing
            &&& *request.location == info.location
            &&& request.permissions == credentials::permissions_for(access)
            &&& request.permissions == StoragePermissions::ReadWriteDelete <==> access
                == CredentialAccess::ReadWrite
            &&& request.permissions == StoragePermissions::Read <==> access
                == CredentialAccess::Read
            &&& *request.tabular_info == info
        }),
{
}

/// What the check of a location comes to, with these answers from the host.
pub open spec fn location_outcome<'a, P>(
    state: ValidateExternalLocation<'a>,
    warehouse: Result<Option<ResolvedWarehouse<P>>, ErrorModel>,
    parse: Result<Location, String>,
    allowed: Result<(), ErrorModel>,
) -> Result<(), Failure> {
    match backend::location_warehouse_found(state, warehouse) {
        Err(failure) => Err(failure),
        Ok(found) => match backend::location_parsed(found, parse) {
            Err(failure) => Err(failure),
            Ok(parsed) => error::told(allowed),
        },
    }
}

/// A location passes only where the warehouse is there, the text is a location,
/// and the storage profile of that warehouse allows that location.
pub proof fn locations_are_allowed_by_their_warehouse<'a, P>(
    state: ValidateExternalLocation<'a>,
    warehouse: Result<Option<ResolvedWarehouse<P>>, ErrorModel>,
    parse: Result<Location, String>,
    allowed: Result<(), ErrorModel>,
)
    ensures
        location_outcome(state, warehouse, parse, allowed) is Ok <==> warehouse is Ok
            && warehouse->Ok_0 is Some && parse is Ok && allowed is Ok,
        backend::location_warehouse_found(state, warehouse) matches Ok(found) ==> {
            &&& found.warehouse == warehouse->Ok_0->0
            &&& found.location == state.location
            &&& backend::location_parsed(found, parse) matches Ok(asked) ==> asked.warehouse
                == warehouse->Ok_0->0 && asked.location == parse->Ok_0
        },
        warehouse is Ok && warehouse->Ok_0 is Some && parse is Err ==> location_outcome(
            state,
            warehouse,
            parse,
            allowed,
        ) == Err::<(), Failure>(
            Failure { kind: ErrorKind::InvalidArgument, message: parse->Err_0@ },
        ),
        warehouse is Ok && warehouse->Ok_0 is Some && parse is Ok && allowed is Err
            ==> location_outcome(state, warehouse, parse, allowed) == Err::<(), Failure>(
            error::failure_of(allowed->Err_0),
        ),
        warehouse is Ok && warehouse->Ok_0 is None ==> location_outcome(
            state,
            warehouse,
            parse,
            allowed,
        ) == Err::<(), Failure>(
            Failure {
                kind: ErrorKind::NotFoundGeneric,
                message: "warehouse '"@ + state.warehouse.warehouse_id.0@ + "' not found"@,
            },
        ),
        warehouse is Err ==> location_outcome(state, warehouse, parse, allowed) == Err::<
            (),
            Failure,
        >(error::failure_of(warehouse->Err_0)),
{
}

/// What the check for a catalog comes to, under an authorizer that answers so.
pub open spec fn catalog_outcome<'a, M, W, D>(
    cx: &'a DeltaRequestContext<M>,
    warehouse: Result<Option<W>, ErrorModel>,
    authorizer: spec_fn(RequireWarehouseAction<'a, M, W>) -> Result<D, ErrorModel>,
) -> Result<(), Failure> {
    authorize::decision(authorizer(authorize::warehouse_question(cx, warehouse)))
}

/// A catalog is there exactly where the authorizer says so, whatever the lookup
/// found. Its refusal is told with its own message: as not found exactly where it
/// answers 404, and as permission denied exactly where it answers 403.
pub proof fn catalog_check_tells_the_authorizers_answer<'a, M, W, D>(
    cx: &'a DeltaRequestContext<M>,
    warehouse: Result<Option<W>, ErrorModel>,
    authorizer: spec_fn(RequireWarehouseAction<'a, M, W>) -> Result<D, ErrorModel>,
)
    ensures
        match authorizer(
            (RequireWarehouseAction { cx, warehouse, action: CatalogWarehouseAction::GetConfig }),
        ) {
            Ok(_) => catalog_outcome(cx, warehouse, authorizer) is Ok,
            Err(refusal) => {
                &&& catalog_outcome(cx, warehouse, authorizer) matches Err(failure)
                &&& failure.message == refusal.message@
                &&& failure.kind is NotFound <==> refusal.code == 404
                &&& failure.kind is PermissionDenied <==> refusal.code == 403
            },
        },
{
}

/// Whether an authorizer hides what a caller may not see: it answers 404 for a
/// warehouse that is missing and for one that the caller does not see, and 403 only
/// for one that the caller does see.
pub open spec fn hides_unseen<'a, M, W, D>(
    cx: &'a DeltaRequestContext<M>,
    sees: spec_fn(M, W) -> bool,
    authorizer: spec_fn(RequireWarehouseAction<'a, M, W>) -> Result<D, ErrorModel>,
) -> bool {
    forall|warehouse: Result<Option<W>, ErrorModel>|
        {
            let answer = #[trigger] authorizer(
                RequireWarehouseAction { cx, warehouse, action: CatalogWarehouseAction::GetConfig },
            );
            &&& warehouse matches Ok(None) ==> answer is Err && answer->Err_0.code == 404
            &&& warehouse matches Ok(Some(w)) ==> !sees(cx.metadata, w) ==> answer is Err
                && answer->Err_0.code == 404
            &&& answer is Err && answer->Err_0.code == 403 ==> (warehouse matches Ok(Some(w))
                && sees(cx.metadata, w))
        }
}

/// Existence does not leak: under an authorizer that hides what a caller may not
/// see, a warehouse that is missing and one that the caller does not see are both
/// told as not found, and permission is denied only for one that the caller sees.
pub proof fn missing_and_hidden_warehouses_are_both_not_found<'a, M, W, D>(
    cx: &'a DeltaRequestContext<M>,
    warehouse: Result<Option<W>, ErrorModel>,
    sees: spec_fn(M, W) -> bool,
    authorizer: spec_fn(RequireWarehouseAction<'a, M, W>) -> Result<D, ErrorModel>,
)
    requires
        hides_unseen(cx, sees, authorizer),
    ensures
        warehouse matches Ok(None) ==> (catalog_outcome(cx, warehouse, authorizer) matches Err(
            failure,
        ) && failure.kind is NotFound),
        warehouse matches Ok(Some(w)) ==> !sees(cx.metadata, w) ==> (catalog_outcome(
            cx,
            warehouse,
            authorizer,
        ) matches Err(failure) && failure.kind is NotFound),
        catalog_outcome(cx, warehouse, authorizer) matches Err(failure) ==> failure.kind
            is PermissionDenied ==> (warehouse matches Ok(Some(w)) && sees(cx.metadata, w)),
{
}

/// Whether a warehouse is there shows only as far as the authorizer lets it: where
/// it answers two outcomes of the lookup alike, the caller is told the same.
pub proof fn existence_shows_only_through_the_authorizer<'a, M, W, D>(
    cx: &'a DeltaRequestContext<M>,
    here: Result<Option<W>, ErrorModel>,
    missing: Result<Option<W>, ErrorModel>,
    authorizer: spec_fn(RequireWarehouseAction<'a, M, W>) -> Result<D, ErrorModel>,
)
    requires
        authorizer(
            (RequireWarehouseAction {
                cx,
                warehouse: here,
                action: CatalogWarehouseAction::GetConfig,
            }),
        ) == authorizer(
            (RequireWarehouseAction {
                cx,
                warehouse: missing,
                action: CatalogWarehouseAction::GetConfig,
            }),
        ),
    ensures
        catalog_outcome(cx, here, authorizer) == catalog_outcome(cx, missing, authorizer),
{
}

/// A question about a table, by the characters of its names.
pub struct TableQuestion<'a, M> {
    pub cx: &'a DeltaRequestContext<M>,
    pub namespace: Seq<Seq<char>>,
    pub table_name: Seq<char>,
    pub action: CatalogGenericTableAction,
}

/// The question that a request to the authorizer puts.
pub open spec fn question_of<'a, M>(request: RequireTableAction<'a, M>) -> TableQuestion<'a, M> {
    TableQuestion {
        cx: request.cx,
        namespace: namespace::namespace_parts(request.namespace),
        table_name: request.table_name@,
        action: request.action,
    }
}

/// What an authorization comes to after it was begun as `next`, with these answers
/// from the catalog and under an authorizer that answers so.
pub open spec fn authorize_outcome<'a, M, T, J, D>(
    next: BackendResult<Authorization<'a, M>>,
    id: Result<GenericTableId, String>,
    begin: Result<T, ErrorModel>,
    row: Result<GenericTableInfo<J>, ErrorModel>,
    commit: Result<(), ErrorModel>,
    authorizer: spec_fn(TableQuestion<'a, M>) -> Result<D, ErrorModel>,
) -> Result<(), Failure> {
    match error::seen(next) {
        Err(failure) => Err(failure),
        Ok(Authorization::Table(request)) => authorize::decision(authorizer(question_of(request))),
        Ok(Authorization::TableId(state)) => match authorize::table_id_loaded(
            state,
            load_by_id_outcome(state.load, id, begin, row, commit),
        ) {
            Err(failure) => Err(failure),
            Ok(request) => authorize::decision(authorizer(question_of(request))),
        },
    }
}

/// A read is allowed exactly where its coordinate is located and the authorizer
/// allows the metadata of that very table to be read; else the refusal of the
/// coordinate or of the authorizer is told.
pub proof fn reads_are_allowed_by_the_authorizer<'a, M, T, J, D>(
    table: &'a TableRef,
    cx: &'a DeltaRequestContext<M>,
    next: BackendResult<Authorization<'a, M>>,
    id: Result<GenericTableId, String>,
    begin: Result<T, ErrorModel>,
    row: Result<GenericTableInfo<J>, ErrorModel>,
    commit: Result<(), ErrorModel>,
    authorizer: spec_fn(TableQuestion<'a, M>) -> Result<D, ErrorModel>,
)
    requires
        authorize::authorization_of(DeltaAction::ReadTable { table }, cx, next),
    ensures
        ({
            let answer = authorizer(
                TableQuestion {
                    cx,
                    namespace: seq![table.catalog@, table.schema@],
                    table_name: table.table@,
                    action: CatalogGenericTableAction::GetMetadata,
                },
            );
            let outcome = authorize_outcome(next, id, begin, row, commit, authorizer);
            let located = table.catalog@.len() > 0 && table.schema@.len() > 0;
            &&& outcome is Ok <==> located && answer is Ok
            &&& located && answer is Err ==> outcome == Err::<(), Failure>(
                error::failure_of(answer->Err_0),
            )
            &&& outcome == if located {
                authorize::decision(answer)
            } else {
                Err(namespace::empty_part_failure())
            }
        }),
{
}

/// A table credential is allowed exactly where the table was loaded (its identifier
/// parsed, and the row read in a committed transaction) and the authorizer allows
/// the action of the access on the very table that was loaded; else the first
/// failure is told.
pub proof fn vends_are_allowed_by_the_authorizer<'a, M, T, J, D>(
    table_id: &'a str,
    access: CredentialAccess,
    cx: &'a DeltaRequestContext<M>,
    next: BackendResult<Authorization<'a, M>>,
    id: Result<GenericTableId, String>,
    begin: Result<T, ErrorModel>,
    row: Result<GenericTableInfo<J>, ErrorModel>,
    commit: Result<(), ErrorModel>,
    authorizer: spec_fn(TableQuestion<'a, M>) -> Result<D, ErrorModel>,
)
    requires
        authorize::authorization_of(
            DeltaAction::VendTableCredential { table_id, access },
            cx,
            next,
        ),
    ensures
        ({
            let loaded = load_by_id_outcome(
                LoadGenericTableById { warehouse_id: &cx.warehouse_id, table_id },
                id,
                begin,
                row,
                commit,
            );
            let answer = authorizer(
                TableQuestion {
                    cx,
                    namespace: namespace::namespace_parts(row->Ok_0.namespace),
                    table_name: row->Ok_0.name@,
                    action: match access {
                        CredentialAccess::Read => CatalogGenericTableAction::ReadData,
                        CredentialAccess::ReadWrite => CatalogGenericTableAction::WriteData,
                    },
                },
            );
            let outcome = authorize_outcome(next, id, begin, row, commit, authorizer);
            &&& loaded is Ok <==> id is Ok && begin is Ok && row is Ok && commit is Ok
            &&& outcome is Ok <==> loaded is Ok && answer is Ok
            &&& loaded is Ok && answer is Err ==> outcome == Err::<(), Failure>(
                error::failure_of(answer->Err_0),
            )
            &&& id is Err ==> (outcome matches Err(failure) && failure.kind is InvalidArgument
                && failure.message == "invalid table id: "@ + id->Err_0@)
            &&& outcome == match loaded {
                Ok(_) => authorize::decision(answer),
                Err(failure) => Err(failure),
            }
        }),
{
}

/// Whatever the host would answer, no other action is ever allowed: it is refused
/// as not implemented, or denied where it is not known.
pub proof fn nothing_else_is_allowed<'a, M, T, J, D>(
    action: DeltaAction<'a>,
    cx: &'a DeltaRequestContext<M>,
    next: BackendResult<Authorization<'a, M>>,
    id: Result<GenericTableId, String>,
    begin: Result<T, ErrorModel>,
    row: Result<GenericTableInfo<J>, ErrorModel>,
    commit: Result<(), ErrorModel>,
    authorizer: spec_fn(TableQuestion<'a, M>) -> Result<D, ErrorModel>,
)
    requires
        authorize::authorization_of(action, cx, next),
        !(action is ReadTable),
        !(action is VendTableCredential),
    ensures
        authorize_outcome(next, id, begin, row, commit, authorizer) == Err::<(), Failure>(
            if action is VendPathCredential {
                authorize::path_credentials_unserved()
            } else if action is Unrecognized {
                authorize::action_unrecognized()
            } else {
                authorize::writes_unserved()
            },
        ),
        authorize_outcome(next, id, begin, row, commit, authorizer) matches Err(failure) && (
        failure.kind is PermissionDenied <==> action is Unrecognized) && (failure.kind
            is NotImplemented <==> !(action is Unrecognized)),
{
}

} // verus!
