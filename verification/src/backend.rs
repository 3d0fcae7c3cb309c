//! The methods that read and vend, and those that are not served.
//!
//! None of them authorizes: what they ask the host for is data, and the caller
//! was authorized before (see [`crate::authorize`]).

use crate::context::DeltaRequestContext;
use crate::credentials::{
    CredentialAccess, CredentialView, DataAccessMode, StoragePermissions, TableConfig,
    VendedCredential,
};
use crate::error::{BackendResult, DeltaBackendError, ErrorKind, ErrorModel, Failure};
use crate::host::{Location, ResolvedWarehouse};
use crate::lookup::{
    LoadGenericTable, LoadGenericTableById, RequireWarehouse, ResolveNamespaceId,
};
use crate::namespace::TableRef;
use crate::tables::{GenericTableInfo, TableToResolved};
use crate::{credentials, error, lookup, namespace, tables};
use iceberg::NamespaceIdent;
use vstd::prelude::*;

verus! {

/// What the API advertises beyond what every backend serves.
#[derive(Clone, Copy, Debug, PartialEq, Eq, Structural)]
pub struct DeltaCapabilities {
    pub rename: bool,
}

/// Rename belongs to the write path, which is not served, so it is not advertised.
pub fn capabilities() -> (capabilities: DeltaCapabilities)
    ensures
        capabilities == (DeltaCapabilities { rename: false }),
{
    DeltaCapabilities { rename: false }
}

/// A method of the backend that is not served.
#[derive(Clone, Copy, Debug, PartialEq, Eq, Structural)]
pub enum DeferredMethod {
    CreateTableRow,
    UpdateTableRow,
    DeleteTable,
    RenameTable,
    AllocateStaging,
    ResolveStagingByLocation,
    ResolveStagingById,
    VendPathCredential,
}

/// What the caller of a method that is not served is told.
pub open spec fn deferral(method: DeferredMethod) -> Seq<char> {
    match method {
        DeferredMethod::CreateTableRow => "Delta createTable is not yet supported by Lakekeeper"@,
        DeferredMethod::UpdateTableRow => "Delta updateTable is not yet supported by Lakekeeper"@,
        DeferredMethod::DeleteTable => "Delta deleteTable is not yet supported by Lakekeeper"@,
        DeferredMethod::RenameTable => "Delta renameTable is not yet supported by Lakekeeper"@,
        DeferredMethod::AllocateStaging => {
            "Delta staging tables are not yet supported by Lakekeeper"@
        },
        DeferredMethod::ResolveStagingByLocation => {
            "Delta staging tables are not yet supported by Lakekeeper"@
        },
        DeferredMethod::ResolveStagingById => {
            "Delta staging tables are not yet supported by Lakekeeper"@
        },
        DeferredMethod::VendPathCredential => {
            "Delta temporary-path credentials are not yet supported by Lakekeeper"@
        },
    }
}

/// The result of every method that is not served: a refusal, whatever the method
/// would have returned.
pub fn deferred<T>(method: DeferredMethod) -> (refusal: BackendResult<T>)
    ensures
        refusal matches Err(error) && error@ == (Failure {
            kind: ErrorKind::NotImplemented,
            message: deferral(method),
        }),
{
    Err(
        DeltaBackendError::NotImplemented(
            match method {
                DeferredMethod::CreateTableRow => {
                    "Delta createTable is not yet supported by Lakekeeper"
                },
                DeferredMethod::UpdateTableRow => {
                    "Delta updateTable is not yet supported by Lakekeeper"
                },
                DeferredMethod::DeleteTable => {
                    "Delta deleteTable is not yet supported by Lakekeeper"
                },
                DeferredMethod::RenameTable => {
                    "Delta renameTable is not yet supported by Lakekeeper"
                },
                DeferredMethod::AllocateStaging
                | DeferredMethod::ResolveStagingByLocation
                | DeferredMethod::ResolveStagingById => {
                    "Delta staging tables are not yet supported by Lakekeeper"
                },
                DeferredMethod::VendPathCredential => {
                    "Delta temporary-path credentials are not yet supported by Lakekeeper"
                },
            },
        ),
    )
}

/// Asks for the table that is to be resolved.
#[derive(Debug)]
pub struct ResolveTable<'a, M> {
    pub cx: &'a DeltaRequestContext<M>,
    pub namespace: NamespaceIdent,
    pub table_name: &'a str,
}

/// A table that was loaded to be resolved.
#[derive(Debug)]
pub struct LoadedTable<J> {
    pub info: GenericTableInfo<J>,
}

/// Whether `next` is how a table is resolved: by a load of the named table from
/// the warehouse of the context, or a refusal of its coordinate.
pub open spec fn resolution_of<'a, M>(
    table: TableRef,
    cx: &'a DeltaRequestContext<M>,
    next: BackendResult<ResolveTable<'a, M>>,
) -> bool {
    if namespace::is_located(table) {
        &&& next matches Ok(state)
        &&& state.cx == cx
        &&& namespace::namespace_parts(state.namespace) == namespace::parts_of(table)
        &&& state.table_name@ == table.table@
    } else {
        next matches Err(error) && error@ == namespace::empty_part_failure()
    }
}

/// Begins to resolve a table.
pub fn resolve_table<'a, M>(table: &'a TableRef, cx: &'a DeltaRequestContext<M>) -> (next:
    BackendResult<ResolveTable<'a, M>>)
    ensures
        resolution_of(*table, cx, next),
        next is Ok <==> table.catalog@.len() > 0 && table.schema@.len() > 0,
        next matches Ok(state) ==> {
            &&& state.cx == cx
            &&& namespace::namespace_parts(state.namespace) == seq![table.catalog@, table.schema@]
            &&& state.table_name@ == table.table@
        },
        next matches Err(error) ==> error is InvalidArgument,
{
    match namespace::namespace(table.catalog.as_str(), table.schema.as_str()) {
        Ok(namespace) => Ok(ResolveTable { cx, namespace, table_name: table.table.as_str() }),
        Err(error) => Err(error),
    }
}

/// The load of the table that is to be resolved.
pub open spec fn resolve_load<'a, M>(state: &'a ResolveTable<'a, M>) -> LoadGenericTable<'a> {
    LoadGenericTable {
        namespace: ResolveNamespaceId {
            warehouse_id: &state.cx.warehouse_id,
            namespace: &state.namespace,
        },
        table_name: state.table_name,
    }
}

/// What follows the load of a table that is to be resolved.
pub open spec fn resolve_loaded<J>(loaded: Result<GenericTableInfo<J>, Failure>) -> Result<
    LoadedTable<J>,
    Failure,
> {
    match loaded {
        Ok(info) => Ok(LoadedTable { info }),
        Err(failure) => Err(failure),
    }
}

impl<'a, M> ResolveTable<'a, M> {
    /// The load of the table.
    pub fn request(&self) -> (load: LoadGenericTable<'_>)
        ensures
            load == resolve_load(self),
    {
        lookup::load_generic_table(&self.cx.warehouse_id, &self.namespace, self.table_name)
    }

    /// Takes the outcome of the load.
    pub fn loaded<J>(self, loaded: BackendResult<GenericTableInfo<J>>) -> (next: BackendResult<
        LoadedTable<J>,
    >)
        ensures
            error::seen(next) == resolve_loaded(error::seen(loaded)),
    {
        match loaded {
            Ok(info) => Ok(LoadedTable { info }),
            Err(error) => Err(error),
        }
    }
}

impl<J> LoadedTable<J> {
    /// What a client is told of the loaded table, or that its schema has to be read
    /// first.
    pub fn resolved<C>(&self) -> (next: TableToResolved<'_, J, C>)
        ensures
            tables::resolution(&self.info, next),
    {
        tables::table_to_resolved(&self.info)
    }
}

/// Asks for the warehouse whose storage a location has to lie in.
#[derive(Debug)]
pub struct ValidateExternalLocation<'a> {
    pub warehouse: RequireWarehouse<'a>,
    pub location: &'a str,
}

/// Asks that a location be parsed.
#[derive(Debug)]
pub struct ParseLocation<'a, P> {
    pub warehouse: ResolvedWarehouse<P>,
    pub location: &'a str,
}

/// Asks the storage profile of a warehouse whether it allows a location.
#[derive(Debug)]
pub struct RequireAllowedLocation<P> {
    pub warehouse: ResolvedWarehouse<P>,
    pub location: Location,
}

/// Begins to check that a location lies in the storage of the warehouse.
pub fn validate_external_location<'a, M>(
    location: &'a str,
    cx: &'a DeltaRequestContext<M>,
) -> (state: ValidateExternalLocation<'a>)
    ensures
        state == (ValidateExternalLocation {
            warehouse: RequireWarehouse { warehouse_id: &cx.warehouse_id },
            location,
        }),
{
    ValidateExternalLocation { warehouse: lookup::require_warehouse(&cx.warehouse_id), location }
}

/// What follows the warehouse of a location.
pub open spec fn location_warehouse_found<'a, P>(
    state: ValidateExternalLocation<'a>,
    reply: Result<Option<ResolvedWarehouse<P>>, ErrorModel>,
) -> Result<ParseLocation<'a, P>, Failure> {
    match lookup::warehouse_found(*state.warehouse.warehouse_id, reply) {
        Ok(warehouse) => Ok(ParseLocation { warehouse, location: state.location }),
        Err(failure) => Err(failure),
    }
}

/// What follows the parse of a location: text that is no location is told with
/// the reason of the parser, as a malformed request.
pub open spec fn location_parsed<'a, P>(
    state: ParseLocation<'a, P>,
    reply: Result<Location, String>,
) -> Result<RequireAllowedLocation<P>, Failure> {
    match reply {
        Ok(location) => Ok(RequireAllowedLocation { warehouse: state.warehouse, location }),
        Err(reason) => Err(Failure { kind: ErrorKind::InvalidArgument, message: reason@ }),
    }
}

impl<'a> ValidateExternalLocation<'a> {
    /// Takes the warehouse, if there is one.
    pub fn warehouse_found<P>(
        self,
        reply: Result<Option<ResolvedWarehouse<P>>, ErrorModel>,
    ) -> (next: BackendResult<ParseLocation<'a, P>>)
        ensures
            error::seen(next) == location_warehouse_found(self, reply),
    {
        match self.warehouse.found(reply) {
            Ok(warehouse) => Ok(ParseLocation { warehouse, location: self.location }),
            Err(error) => Err(error),
        }
    }
}

impl<'a, P> ParseLocation<'a, P> {
    /// Takes the parsed location, or the text of the parse error.
    pub fn parsed(self, reply: Result<Location, String>) -> (next: BackendResult<
        RequireAllowedLocation<P>,
    >)
        ensures
            error::seen(next) == location_parsed(self, reply),
    {
        match reply {
            Ok(location) => Ok(RequireAllowedLocation { warehouse: self.warehouse, location }),
            Err(reason) => Err(DeltaBackendError::InvalidArgument(reason)),
        }
    }
}

impl<P> RequireAllowedLocation<P> {
    /// Takes the decision of the storage profile.
    pub fn decided(self, reply: Result<(), ErrorModel>) -> (allowed: BackendResult<()>)
        ensures
            error::seen(allowed) == error::told(reply),
    {
        error::tell(reply)
    }
}

/// Asks for the warehouse whose storage profile will generate the configuration of
/// a table `I`.
#[derive(Debug)]
pub struct GenerateTableConfig<'a, M, I> {
    pub cx: &'a DeltaRequestContext<M>,
    pub warehouse: RequireWarehouse<'a>,
    pub location: &'a Location,
    pub permissions: StoragePermissions,
    pub tabular_info: &'a I,
}

/// Asks for the secret that the storage profile of a warehouse needs, if any.
#[derive(Debug)]
pub struct ReadSecret<'a, M, I, P> {
    pub cx: &'a DeltaRequestContext<M>,
    pub warehouse: ResolvedWarehouse<P>,
    pub location: &'a Location,
    pub permissions: StoragePermissions,
    pub tabular_info: &'a I,
}

/// Asks the storage profile of a warehouse, with its secret `K`, to generate the
/// configuration of a table.
#[derive(Debug)]
pub struct RequestTableConfig<'a, M, I, P, K> {
    pub cx: &'a DeltaRequestContext<M>,
    pub warehouse: ResolvedWarehouse<P>,
    pub data_access: DataAccessMode,
    pub secret: Option<K>,
    pub location: &'a Location,
    pub permissions: StoragePermissions,
    pub tabular_info: &'a I,
}

/// Begins to generate the configuration of a table, with credentials for its
/// location.
pub fn generate_table_config<'a, M, I>(
    cx: &'a DeltaRequestContext<M>,
    location: &'a Location,
    permissions: StoragePermissions,
    tabular_info: &'a I,
) -> (state: GenerateTableConfig<'a, M, I>)
    ensures
        state == (GenerateTableConfig {
            cx,
            warehouse: RequireWarehouse { warehouse_id: &cx.warehouse_id },
            location,
            permissions,
            tabular_info,
        }),
{
    GenerateTableConfig {
        cx,
        warehouse: lookup::require_warehouse(&cx.warehouse_id),
        location,
        permissions,
        tabular_info,
    }
}

/// What follows the warehouse of a configuration.
pub open spec fn config_warehouse_found<'a, M, I, P>(
    state: GenerateTableConfig<'a, M, I>,
    reply: Result<Option<ResolvedWarehouse<P>>, ErrorModel>,
) -> Result<ReadSecret<'a, M, I, P>, Failure> {
    match lookup::warehouse_found(*state.warehouse.warehouse_id, reply) {
        Ok(warehouse) => Ok(
            ReadSecret {
                cx: state.cx,
                warehouse,
                location: state.location,
                permissions: state.permissions,
                tabular_info: state.tabular_info,
            },
        ),
        Err(failure) => Err(failure),
    }
}

/// What follows the secret of a configuration: a request for vended credentials.
pub open spec fn config_secret_read<'a, M, I, P, K>(
    state: ReadSecret<'a, M, I, P>,
    reply: Result<Option<K>, ErrorModel>,
) -> Result<RequestTableConfig<'a, M, I, P, K>, Failure> {
    match error::told(reply) {
        Ok(secret) => Ok(
            RequestTableConfig {
                cx: state.cx,
                warehouse: state.warehouse,
                data_access: credentials::vended_mode(),
                secret,
                location: state.location,
                permissions: state.permissions,
                tabular_info: state.tabular_info,
            },
        ),
        Err(failure) => Err(failure),
    }
}

impl<'a, M, I> GenerateTableConfig<'a, M, I> {
    /// Takes the warehouse, if there is one.
    pub fn warehouse_found<P>(
        self,
        reply: Result<Option<ResolvedWarehouse<P>>, ErrorModel>,
    ) -> (next: BackendResult<ReadSecret<'a, M, I, P>>)
        ensures
            error::seen(next) == config_warehouse_found(self, reply),
    {
        match self.warehouse.found(reply) {
            Ok(warehouse) => Ok(
                ReadSecret {
                    cx: self.cx,
                    warehouse,
                    location: self.location,
                    permissions: self.permissions,
                    tabular_info: self.tabular_info,
                },
            ),
            Err(error) => Err(error),
        }
    }
}

impl<'a, M, I, P> ReadSecret<'a, M, I, P> {
    /// Takes the secret, if the warehouse has one.
    pub fn secret_read<K>(self, reply: Result<Option<K>, ErrorModel>) -> (next: BackendResult<
        RequestTableConfig<'a, M, I, P, K>,
    >)
        ensures
            error::seen(next) == config_secret_read(self, reply),
    {
        match error::tell(reply) {
            Ok(secret) => Ok(
                RequestTableConfig {
                    cx: self.cx,
                    warehouse: self.warehouse,
                    data_access: credentials::vended_data_access(),
                    secret,
                    location: self.location,
                    permissions: self.permissions,
                    tabular_info: self.tabular_info,
                },
            ),
            Err(error) => Err(error),
        }
    }
}

impl<'a, M, I, P, K> RequestTableConfig<'a, M, I, P, K> {
    /// Takes the configuration.
    pub fn generated(self, reply: Result<TableConfig, ErrorModel>) -> (config: BackendResult<
        TableConfig,
    >)
        ensures
            error::seen(config) == error::told(reply),
    {
        error::tell(reply)
    }
}

/// Asks for the table that a credential is wanted for.
#[derive(Debug)]
pub struct VendTableCredential<'a, M> {
    pub cx: &'a DeltaRequestContext<M>,
    pub load: LoadGenericTableById<'a>,
    pub access: CredentialAccess,
}

/// Asks for the configuration of the table that a credential is wanted for.
#[derive(Debug)]
pub struct ConfigureVend<'a, M, J> {
    pub cx: &'a DeltaRequestContext<M>,
    pub info: GenericTableInfo<J>,
    pub permissions: StoragePermissions,
}

/// Begins to vend a credential for the table with an identifier.
pub fn vend_table_credential<'a, M>(
    table_id: &'a str,
    access: CredentialAccess,
    cx: &'a DeltaRequestContext<M>,
) -> (state: VendTableCredential<'a, M>)
    ensures
        state == (VendTableCredential {
            cx,
            load: LoadGenericTableById { warehouse_id: &cx.warehouse_id, table_id },
            access,
        }),
{
    VendTableCredential {
        cx,
        load: lookup::load_generic_table_by_id(&cx.warehouse_id, table_id),
        access,
    }
}

/// What follows the load of a table that a credential is wanted for.
pub open spec fn vend_loaded<'a, M, J>(
    state: VendTableCredential<'a, M>,
    loaded: Result<GenericTableInfo<J>, Failure>,
) -> Result<ConfigureVend<'a, M, J>, Failure> {
    match loaded {
        Ok(info) => Ok(
            ConfigureVend {
                cx: state.cx,
                info,
                permissions: credentials::permissions_for(state.access),
            },
        ),
        Err(failure) => Err(failure),
    }
}

/// The request for the configuration of a loaded table: for the table's own
/// location, with the permissions of the access that was asked for.
pub open spec fn vend_config_request<'a, M, J>(state: &'a ConfigureVend<'a, M, J>) -> GenerateTableConfig<
    'a,
    M,
    GenericTableInfo<J>,
> {
    GenerateTableConfig {
        cx: state.cx,
        warehouse: RequireWarehouse { warehouse_id: &state.cx.warehouse_id },
        location: &state.info.location,
        permissions: state.permissions,
        tabular_info: &state.info,
    }
}

/// What follows the configuration: the credential for the table's location.
pub open spec fn vend_configured<'a, M, J>(
    state: ConfigureVend<'a, M, J>,
    config: Result<TableConfig, Failure>,
) -> Result<CredentialView, Failure> {
    match config {
        Ok(config) => credentials::credential(state.info.location.0@, config),
        Err(failure) => Err(failure),
    }
}

impl<'a, M> VendTableCredential<'a, M> {
    /// Takes the outcome of the load.
    pub fn loaded<J>(self, loaded: BackendResult<GenericTableInfo<J>>) -> (next: BackendResult<
        ConfigureVend<'a, M, J>,
    >)
        ensures
            error::seen(next) == vend_loaded(self, error::seen(loaded)),
    {
        match loaded {
            Ok(info) => Ok(
                ConfigureVend {
                    cx: self.cx,
                    info,
                    permissions: credentials::to_storage_permissions(self.access),
                },
            ),
            Err(error) => Err(error),
        }
    }
}

impl<'a, M, J> ConfigureVend<'a, M, J> {
    /// The request for the configuration of the loaded table.
    pub fn request(&self) -> (state: GenerateTableConfig<'_, M, GenericTableInfo<J>>)
        ensures
            state == vend_config_request(self),
    {
        generate_table_config(self.cx, &self.info.location, self.permissions, &self.info)
    }

    /// Takes the outcome of the configuration.
    pub fn configured(self, config: BackendResult<TableConfig>) -> (credential: BackendResult<
        VendedCredential,
    >)
        ensures
            error::viewed(credential) == vend_configured(self, error::seen(config)),
            credential matches Ok(vended) ==> {
                &&& config matches Ok(config)
                &&& vended.url@ == self.info.location.0@
                &&& config.credentials_expiration_ms matches Some(ms)
                    ==> vended.expiration_time_ms == ms
                &&& config.credentials_expiration_ms is None ==> vended.expiration_time_ms
                    == i64::MAX
            },
    {
        match config {
            Ok(config) => credentials::to_vended_credential(self.info.location.0, &config),
            Err(error) => Err(error),
        }
    }
}

/// What is not served says so, by its own name; all staging methods are told alike.
pub proof fn deferrals_name_what_is_not_served(method: DeferredMethod)
    ensures
        deferral(method) == match method {
            DeferredMethod::CreateTableRow => "Delta createTable"@,
            DeferredMethod::UpdateTableRow => "Delta updateTable"@,
            DeferredMethod::DeleteTable => "Delta deleteTable"@,
            DeferredMethod::RenameTable => "Delta renameTable"@,
            DeferredMethod::AllocateStaging => "Delta staging tables"@,
            DeferredMethod::ResolveStagingByLocation => "Delta staging tables"@,
            DeferredMethod::ResolveStagingById => "Delta staging tables"@,
            DeferredMethod::VendPathCredential => "Delta temporary-path credentials"@,
        } + if method is AllocateStaging || method is ResolveStagingByLocation || method
            is ResolveStagingById || method is VendPathCredential {
            " are not yet supported by Lakekeeper"@
        } else {
            " is not yet supported by Lakekeeper"@
        },
{
    reveal_strlit("Delta createTable");
    reveal_strlit("Delta updateTable");
    reveal_strlit("Delta deleteTable");
    reveal_strlit("Delta renameTable");
    reveal_strlit("Delta staging tables");
    reveal_strlit("Delta temporary-path credentials");
    reveal_strlit(" are not yet supported by Lakekeeper");
    reveal_strlit(" is not yet supported by Lakekeeper");
    reveal_strlit("Delta createTable is not yet supported by Lakekeeper");
    reveal_strlit("Delta updateTable is not yet supported by Lakekeeper");
    reveal_strlit("Delta deleteTable is not yet supported by Lakekeeper");
    reveal_strlit("Delta renameTable is not yet supported by Lakekeeper");
    reveal_strlit("Delta staging tables are not yet supported by Lakekeeper");
    reveal_strlit("Delta temporary-path credentials are not yet supported by Lakekeeper");
}

/// A table is looked for at every coordinate whose catalog and schema have at least one
/// character each: under its own name, in the namespace of catalog and schema, in the
/// warehouse of the context. Only an empty catalog or an empty schema is refused, as a
/// malformed request.
pub proof fn named_tables_are_looked_for<'a, M>(
    table: TableRef,
    cx: &'a DeltaRequestContext<M>,
    next: BackendResult<ResolveTable<'a, M>>,
)
    requires
        resolution_of(table, cx, next),
    ensures
        next is Ok <==> table.catalog@.len() > 0 && table.schema@.len() > 0,
        next matches Ok(state) ==> {
            let load = resolve_load(&state);
            &&& state.cx == cx
            &&& *load.namespace.warehouse_id == cx.warehouse_id
            &&& namespace::namespace_parts(*load.namespace.namespace).len() == 2
            &&& namespace::namespace_parts(*load.namespace.namespace)[0] == table.catalog@
            &&& namespace::namespace_parts(*load.namespace.namespace)[1] == table.schema@
            &&& load.table_name@ == table.table@
        },
        next matches Err(error) ==> error@.kind is InvalidArgument && error@.message
            == "Delta catalog and schema must be non-empty"@,
{
}

/// A load that is to be resolved asks for what its state holds, and what it hands out is
/// resolved as it is; a load that failed is told as it failed.
pub proof fn what_is_loaded_is_resolved<'a, M, J>(
    state: &'a ResolveTable<'a, M>,
    loaded: Result<GenericTableInfo<J>, Failure>,
)
    ensures
        *resolve_load(state).namespace.warehouse_id == state.cx.warehouse_id,
        *resolve_load(state).namespace.namespace == state.namespace,
        resolve_load(state).table_name == state.table_name,
        resolve_loaded(loaded) is Ok <==> loaded is Ok,
        loaded matches Ok(info) ==> resolve_loaded(loaded)->Ok_0.info == info,
        loaded matches Err(failure) ==> resolve_loaded(loaded)->Err_0 == failure,
{
}

/// The check of a location goes on exactly where the warehouse was found and the text
/// is a location, whatever either is. The storage profile of that warehouse is then
/// asked about that location.
pub proof fn locations_go_on_to_their_profile<'a, P>(
    state: ValidateExternalLocation<'a>,
    warehouse: Result<Option<ResolvedWarehouse<P>>, ErrorModel>,
    found: ParseLocation<'a, P>,
    parse: Result<Location, String>,
)
    ensures
        location_warehouse_found(state, warehouse) is Ok <==> warehouse is Ok
            && warehouse->Ok_0 is Some,
        location_warehouse_found(state, warehouse) matches Ok(next) ==> {
            &&& next.warehouse == warehouse->Ok_0->0
            &&& next.location == state.location
        },
        warehouse matches Ok(None) ==> {
            let failure = location_warehouse_found(state, warehouse)->Err_0;
            &&& failure.kind is NotFoundGeneric
            &&& failure.message == "warehouse '"@ + state.warehouse.warehouse_id.0@
                + "' not found"@
        },
        warehouse matches Err(error) ==> location_warehouse_found(state, warehouse)->Err_0
            == error::failure_of(error),
        location_parsed(found, parse) is Ok <==> parse is Ok,
        location_parsed(found, parse) matches Ok(next) ==> {
            &&& next.warehouse == found.warehouse
            &&& next.location == parse->Ok_0
        },
        location_parsed(found, parse) matches Err(failure) ==> failure.kind is InvalidArgument
            && failure.message == parse->Err_0@,
{
}

/// The configuration of a table is asked for exactly where its warehouse was found and
/// its secret could be read, a warehouse without a secret included. It is asked for
/// with vended credentials and no remote signing, and else with what it was begun with:
/// caller, location, permissions and table, through the warehouse that was found.
pub proof fn configurations_are_asked_for_as_begun<'a, M, I, P, K>(
    state: GenerateTableConfig<'a, M, I>,
    warehouse: Result<Option<ResolvedWarehouse<P>>, ErrorModel>,
    read: ReadSecret<'a, M, I, P>,
    secret: Result<Option<K>, ErrorModel>,
)
    ensures
        config_warehouse_found(state, warehouse) is Ok <==> warehouse is Ok
            && warehouse->Ok_0 is Some,
        config_warehouse_found(state, warehouse) matches Ok(next) ==> {
            &&& next.cx == state.cx
            &&& next.warehouse == warehouse->Ok_0->0
            &&& next.location == state.location
            &&& next.permissions == state.permissions
            &&& next.tabular_info == state.tabular_info
        },
        warehouse matches Ok(None) ==> {
            let failure = config_warehouse_found(state, warehouse)->Err_0;
            &&& failure.kind is NotFoundGeneric
            &&& failure.message == "warehouse '"@ + state.warehouse.warehouse_id.0@
                + "' not found"@
        },
        warehouse matches Err(error) ==> config_warehouse_found(state, warehouse)->Err_0
            == error::failure_of(error),
        config_secret_read(read, secret) is Ok <==> secret is Ok,
        config_secret_read(read, secret) matches Ok(next) ==> {
            &&& next.cx == read.cx
            &&& next.warehouse == read.warehouse
            &&& next.data_access matches DataAccessMode::ServerDelegated(mode)
            &&& mode.vended_credentials && !mode.remote_signing
            &&& next.secret == secret->Ok_0
            &&& next.location == read.location
            &&& next.permissions == read.permissions
            &&& next.tabular_info == read.tabular_info
        },
        secret matches Err(error) ==> config_secret_read(read, secret)->Err_0
            == error::failure_of(error),
{
}

/// A vend goes on exactly where its table was loaded, whatever the table is. It asks for
/// the configuration of that table: for the table's own location, in the warehouse of
/// the context, on behalf of its caller, to be written to exactly where that was asked
/// for.
pub proof fn vends_go_on_with_the_loaded_table<'a, M, J>(
    state: VendTableCredential<'a, M>,
    loaded: Result<GenericTableInfo<J>, Failure>,
    vend: &'a ConfigureVend<'a, M, J>,
)
    ensures
        vend_loaded(state, loaded) is Ok <==> loaded is Ok,
        vend_loaded(state, loaded) matches Ok(next) ==> {
            &&& next.cx == state.cx
            &&& next.info == loaded->Ok_0
            &&& next.permissions == StoragePermissions::Read <==> state.access
                == CredentialAccess::Read
            &&& next.permissions == StoragePermissions::ReadWriteDelete <==> state.access
                == CredentialAccess::ReadWrite
        },
        vend_loaded(state, loaded) matches Err(failure) ==> failure == loaded->Err_0,
        vend_config_request(vend).cx == vend.cx,
        *vend_config_request(vend).warehouse.warehouse_id == vend.cx.warehouse_id,
        *vend_config_request(vend).location == vend.info.location,
        vend_config_request(vend).permissions == vend.permissions,
        *vend_config_request(vend).tabular_info == vend.info,
{
}

/// What is vended is for the location of the loaded table, and expires when the storage
/// profile says; a configuration that failed is told as it failed. What else is known of
/// the table and of the caller does not show in the credential.
pub proof fn configured_vends_are_for_their_table<'a, M, J, N, K>(
    state: ConfigureVend<'a, M, J>,
    other: ConfigureVend<'a, N, K>,
    config: Result<TableConfig, Failure>,
)
    requires
        state.info.location.0@ == other.info.location.0@,
    ensures
        vend_configured(state, config) == vend_configured(other, config),
        vend_configured(state, config) matches Ok(vended) ==> {
            &&& config matches Ok(config)
            &&& vended.url == state.info.location.0@
            &&& config.credentials_expiration_ms matches Some(ms) ==> vended.expiration_time_ms
                == ms
            &&& vended.expiration_time_ms == i64::MAX <==> config.credentials_expiration_ms is None
                || config.credentials_expiration_ms == Some(i64::MAX)
        },
        config matches Ok(config) ==> vend_configured(state, Ok::<TableConfig, Failure>(config))
            == credentials::credential(state.info.location.0@, config),
        config matches Err(failure) ==> vend_configured(state, config) == Err::<
            CredentialView,
            Failure,
        >(failure),
{
}

} // verus!
