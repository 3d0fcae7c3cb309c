//! The routes of the API, and what the handler behind each is called with.
//!
//! Paths are relative to `/catalog/v1/{prefix}/delta/v1`, where `{prefix}` names
//! the warehouse.

use crate::context;
use crate::context::Prepare;
use crate::namespace::{SchemaRef, TableRef};
use vstd::prelude::*;

verus! {

/// An HTTP method.
#[derive(Clone, Copy, Debug, PartialEq, Eq, Structural)]
pub enum Method {
    Get,
    Head,
    Post,
    Delete,
}

/// An endpoint of the API.
#[derive(Clone, Copy, Debug, PartialEq, Eq, Structural)]
pub enum Endpoint {
    GetConfig,
    CreateStagingTable,
    CreateTable,
    LoadTable,
    UpdateTable,
    DeleteTable,
    TableExists,
    RenameTable,
    GetTableCredentials,
    ReportMetrics,
    GetStagingTableCredentials,
    GetTemporaryPathCredentials,
}

/// How a call that succeeded is answered.
#[derive(Clone, Copy, Debug, PartialEq, Eq, Structural)]
pub enum Success {
    /// With a JSON document.
    Json,
    /// With the status 204 and nothing else.
    NoContent,
}

/// A method on a path, and the endpoint behind it.
#[derive(Clone, Copy, Debug)]
pub struct Route {
    pub path: &'static str,
    pub method: Method,
    pub endpoint: Endpoint,
}

/// The path of each endpoint.
pub open spec fn path_of(endpoint: Endpoint) -> Seq<char> {
    match endpoint {
        Endpoint::GetConfig => "/config"@,
        Endpoint::CreateStagingTable => "/catalogs/{catalog}/schemas/{schema}/staging-tables"@,
        Endpoint::CreateTable => "/catalogs/{catalog}/schemas/{schema}/tables"@,
        Endpoint::LoadTable => "/catalogs/{catalog}/schemas/{schema}/tables/{table}"@,
        Endpoint::UpdateTable => "/catalogs/{catalog}/schemas/{schema}/tables/{table}"@,
        Endpoint::DeleteTable => "/catalogs/{catalog}/schemas/{schema}/tables/{table}"@,
        Endpoint::TableExists => "/catalogs/{catalog}/schemas/{schema}/tables/{table}"@,
        Endpoint::RenameTable => "/catalogs/{catalog}/schemas/{schema}/tables/{table}/rename"@,
        Endpoint::GetTableCredentials => {
            "/catalogs/{catalog}/schemas/{schema}/tables/{table}/credentials"@
        },
        Endpoint::ReportMetrics => "/catalogs/{catalog}/schemas/{schema}/tables/{table}/metrics"@,
        Endpoint::GetStagingTableCredentials => "/staging-tables/{table_id}/credentials"@,
        Endpoint::GetTemporaryPathCredentials => "/temporary-path-credentials"@,
    }
}

/// The method of each endpoint.
pub open spec fn method_of(endpoint: Endpoint) -> Method {
    match endpoint {
        Endpoint::GetConfig => Method::Get,
        Endpoint::CreateStagingTable => Method::Post,
        Endpoint::CreateTable => Method::Post,
        Endpoint::LoadTable => Method::Get,
        Endpoint::UpdateTable => Method::Post,
        Endpoint::DeleteTable => Method::Delete,
        Endpoint::TableExists => Method::Head,
        Endpoint::RenameTable => Method::Post,
        Endpoint::GetTableCredentials => Method::Get,
        Endpoint::ReportMetrics => Method::Post,
        Endpoint::GetStagingTableCredentials => Method::Get,
        Endpoint::GetTemporaryPathCredentials => Method::Get,
    }
}

/// The endpoints, in the order in which they are declared.
pub open spec fn endpoints() -> Seq<Endpoint> {
    seq![
        Endpoint::GetConfig,
        Endpoint::CreateStagingTable,
        Endpoint::CreateTable,
        Endpoint::LoadTable,
        Endpoint::UpdateTable,
        Endpoint::DeleteTable,
        Endpoint::TableExists,
        Endpoint::RenameTable,
        Endpoint::GetTableCredentials,
        Endpoint::ReportMetrics,
        Endpoint::GetStagingTableCredentials,
        Endpoint::GetTemporaryPathCredentials,
    ]
}

/// Whether a list of routes serves every endpoint, in order, on its path and with
/// its method.
pub open spec fn serves_all(routes: Seq<Route>) -> bool {
    &&& routes.len() == endpoints().len()
    &&& forall|i: int|
        0 <= i < routes.len() ==> (#[trigger] routes[i]).endpoint == endpoints()[i]
            && routes[i].path@ == path_of(endpoints()[i]) && routes[i].method == method_of(
            endpoints()[i],
        )
}

/// The routes of the API.
pub fn router() -> (routes: Vec<Route>)
    ensures
        serves_all(routes@),
{
    let table = "/catalogs/{catalog}/schemas/{schema}/tables/{table}";
    vec![
        Route { path: "/config", method: Method::Get, endpoint: Endpoint::GetConfig },
        Route {
            path: "/catalogs/{catalog}/schemas/{schema}/staging-tables",
            method: Method::Post,
            endpoint: Endpoint::CreateStagingTable,
        },
        Route {
            path: "/catalogs/{catalog}/schemas/{schema}/tables",
            method: Method::Post,
            endpoint: Endpoint::CreateTable,
        },
        Route { path: table, method: Method::Get, endpoint: Endpoint::LoadTable },
        Route { path: table, method: Method::Post, endpoint: Endpoint::UpdateTable },
        Route { path: table, method: Method::Delete, endpoint: Endpoint::DeleteTable },
        Route { path: table, method: Method::Head, endpoint: Endpoint::TableExists },
        Route {
            path: "/catalogs/{catalog}/schemas/{schema}/tables/{table}/rename",
            method: Method::Post,
            endpoint: Endpoint::RenameTable,
        },
        Route {
            path: "/catalogs/{catalog}/schemas/{schema}/tables/{table}/credentials",
            method: Method::Get,
            endpoint: Endpoint::GetTableCredentials,
        },
        Route {
            path: "/catalogs/{catalog}/schemas/{schema}/tables/{table}/metrics",
            method: Method::Post,
            endpoint: Endpoint::ReportMetrics,
        },
        Route {
            path: "/staging-tables/{table_id}/credentials",
            method: Method::Get,
            endpoint: Endpoint::GetStagingTableCredentials,
        },
        Route {
            path: "/temporary-path-credentials",
            method: Method::Get,
            endpoint: Endpoint::GetTemporaryPathCredentials,
        },
    ]
}

/// How a call of each endpoint is answered when it succeeded.
pub open spec fn success_of(endpoint: Endpoint) -> Success {
    if endpoint is DeleteTable || endpoint is TableExists || endpoint is RenameTable || endpoint
        is ReportMetrics {
        Success::NoContent
    } else {
        Success::Json
    }
}

/// How a call of an endpoint is answered when it succeeded.
pub fn success(endpoint: Endpoint) -> (answer: Success)
    ensures
        answer == success_of(endpoint),
{
    match endpoint {
        Endpoint::DeleteTable
        | Endpoint::TableExists
        | Endpoint::RenameTable
        | Endpoint::ReportMetrics => Success::NoContent,
        _ => Success::Json,
    }
}

/// The parameters of a path to a schema.
#[derive(Debug)]
pub struct SchemaPath {
    pub prefix: String,
    pub catalog: String,
    pub schema: String,
}

/// The parameters of a path to a table.
#[derive(Debug)]
pub struct TablePath {
    pub prefix: String,
    pub catalog: String,
    pub schema: String,
    pub table: String,
}

/// The query of a request for the configuration.
#[derive(Debug)]
pub struct GetConfigParams {
    pub catalog: String,
    pub protocol_versions: String,
}

/// What the configuration is asked for with.
#[derive(Debug, PartialEq, Eq)]
pub struct GetConfigQuery {
    pub catalog: String,
    pub protocol_versions: String,
}

/// The coordinate of the table that a path leads to.
pub fn table_ref(path: TablePath) -> (table: TableRef)
    ensures
        table == (TableRef { catalog: path.catalog, schema: path.schema, table: path.table }),
{
    TableRef { catalog: path.catalog, schema: path.schema, table: path.table }
}

/// A call for the configuration.
pub fn get_config<M>(prefix: String, metadata: M, params: GetConfigParams) -> (state: Prepare<
    M,
    GetConfigQuery,
>)
    ensures
        state == (Prepare {
            prefix,
            metadata,
            call: GetConfigQuery {
                catalog: params.catalog,
                protocol_versions: params.protocol_versions,
            },
        }),
{
    context::prepare(
        prefix,
        metadata,
        GetConfigQuery { catalog: params.catalog, protocol_versions: params.protocol_versions },
    )
}

/// A call of an endpoint on a schema, with the request `R`.
pub fn schema_call<M, R>(path: SchemaPath, metadata: M, request: R) -> (state: Prepare<
    M,
    (SchemaRef, R),
>)
    ensures
        state == (Prepare {
            prefix: path.prefix,
            metadata,
            call: (SchemaRef { catalog: path.catalog, schema: path.schema }, request),
        }),
{
    context::prepare(
        path.prefix,
        metadata,
        (SchemaRef { catalog: path.catalog, schema: path.schema }, request),
    )
}

/// A call of an endpoint on a table, with the request `R`.
pub fn table_call<M, R>(path: TablePath, metadata: M, request: R) -> (state: Prepare<
    M,
    (TableRef, R),
>)
    ensures
        state == (Prepare {
            prefix: path.prefix,
            metadata,
            call: (
                TableRef { catalog: path.catalog, schema: path.schema, table: path.table },
                request,
            ),
        }),
{
    let prefix = path.prefix.clone();
    context::prepare(prefix, metadata, (table_ref(path), request))
}

/// Whether a list of routes leads to an endpoint.
pub open spec fn leads_to(routes: Seq<Route>, endpoint: Endpoint) -> bool {
    exists|i: int| 0 <= i < routes.len() && (#[trigger] routes[i]).endpoint == endpoint
}

/// Every endpoint is served by exactly one route, and no method on a path leads to
/// two endpoints.
pub proof fn routes_do_not_overlap(routes: Seq<Route>)
    requires
        serves_all(routes),
    ensures
        forall|endpoint: Endpoint| #[trigger] leads_to(routes, endpoint),
        forall|i: int, j: int|
            0 <= i < j < routes.len() ==> (#[trigger] routes[i]).endpoint != (
            #[trigger] routes[j]).endpoint,
        forall|i: int, j: int|
            0 <= i < j < routes.len() && (#[trigger] routes[i]).path@ == (
            #[trigger] routes[j]).path@ ==> routes[i].method != routes[j].method,
{
    assert forall|endpoint: Endpoint| #[trigger] leads_to(routes, endpoint) by {
        let i: int = match endpoint {
            Endpoint::GetConfig => 0,
            Endpoint::CreateStagingTable => 1,
            Endpoint::CreateTable => 2,
            Endpoint::LoadTable => 3,
            Endpoint::UpdateTable => 4,
            Endpoint::DeleteTable => 5,
            Endpoint::TableExists => 6,
            Endpoint::RenameTable => 7,
            Endpoint::GetTableCredentials => 8,
            Endpoint::ReportMetrics => 9,
            Endpoint::GetStagingTableCredentials => 10,
            Endpoint::GetTemporaryPathCredentials => 11,
        };
        assert(routes[i].endpoint == endpoint);
    }
    // All but two of the paths differ in length, and those two in the character at 37.
    reveal_strlit("/config");
    reveal_strlit("/catalogs/{catalog}/schemas/{schema}/staging-tables");
    reveal_strlit("/catalogs/{catalog}/schemas/{schema}/tables");
    reveal_strlit("/catalogs/{catalog}/schemas/{schema}/tables/{table}");
    reveal_strlit("/catalogs/{catalog}/schemas/{schema}/tables/{table}/rename");
    reveal_strlit("/catalogs/{catalog}/schemas/{schema}/tables/{table}/credentials");
    reveal_strlit("/catalogs/{catalog}/schemas/{schema}/tables/{table}/metrics");
    reveal_strlit("/staging-tables/{table_id}/credentials");
    reveal_strlit("/temporary-path-credentials");
    assert(path_of(Endpoint::CreateStagingTable)[37] == 's');
    assert(path_of(Endpoint::LoadTable)[37] == 't');
    assert forall|i: int, j: int|
        0 <= i < j < routes.len() && (#[trigger] routes[i]).path@ == (
        #[trigger] routes[j]).path@ implies routes[i].method != routes[j].method by {
        let a = endpoints()[i];
        let b = endpoints()[j];
        assert(path_of(a) == path_of(b));
        assert(path_of(a).len() == path_of(b).len());
        assert(path_of(a)[37] == path_of(b)[37]);
        assert(a != b);
    }
}

/// The endpoints of a table all lie below the path of that table, and those that create
/// below the path of their schema; the others name neither.
pub proof fn paths_name_what_they_are_about(endpoint: Endpoint)
    ensures
        endpoint is LoadTable || endpoint is UpdateTable || endpoint is DeleteTable || endpoint
            is TableExists ==> path_of(endpoint)
            == "/catalogs/{catalog}/schemas/{schema}/tables/{table}"@,
        endpoint is RenameTable ==> path_of(endpoint) == path_of(Endpoint::LoadTable)
            + "/rename"@,
        endpoint is GetTableCredentials ==> path_of(endpoint) == path_of(Endpoint::LoadTable)
            + "/credentials"@,
        endpoint is ReportMetrics ==> path_of(endpoint) == path_of(Endpoint::LoadTable)
            + "/metrics"@,
        path_of(Endpoint::LoadTable) == path_of(Endpoint::CreateTable) + "/{table}"@,
        endpoint is CreateTable ==> path_of(endpoint)
            == "/catalogs/{catalog}/schemas/{schema}"@ + "/tables"@,
        endpoint is CreateStagingTable ==> path_of(endpoint)
            == "/catalogs/{catalog}/schemas/{schema}"@ + "/staging-tables"@,
        endpoint is GetStagingTableCredentials ==> path_of(endpoint)
            == "/staging-tables/{table_id}/credentials"@,
        endpoint is GetTemporaryPathCredentials ==> path_of(endpoint)
            == "/temporary-path-credentials"@,
        endpoint is GetConfig ==> path_of(endpoint) == "/config"@,
{
    reveal_strlit("/catalogs/{catalog}/schemas/{schema}");
    reveal_strlit("/tables");
    reveal_strlit("/staging-tables");
    reveal_strlit("/{table}");
    reveal_strlit("/rename");
    reveal_strlit("/credentials");
    reveal_strlit("/metrics");
    reveal_strlit("/catalogs/{catalog}/schemas/{schema}/staging-tables");
    reveal_strlit("/catalogs/{catalog}/schemas/{schema}/tables");
    reveal_strlit("/catalogs/{catalog}/schemas/{schema}/tables/{table}");
    reveal_strlit("/catalogs/{catalog}/schemas/{schema}/tables/{table}/rename");
    reveal_strlit("/catalogs/{catalog}/schemas/{schema}/tables/{table}/credentials");
    reveal_strlit("/catalogs/{catalog}/schemas/{schema}/tables/{table}/metrics");
}

/// What only reads is served to `GET`, or to `HEAD` where only existence is asked for;
/// a deletion to `DELETE`, and all else to `POST`. A call is answered without content
/// exactly where it deletes, renames, reports or only asks whether a table is there.
pub proof fn methods_tell_reads_from_writes(endpoint: Endpoint)
    ensures
        method_of(endpoint) == Method::Get <==> endpoint is GetConfig || endpoint is LoadTable
            || endpoint is GetTableCredentials || endpoint is GetStagingTableCredentials
            || endpoint is GetTemporaryPathCredentials,
        method_of(endpoint) == Method::Head <==> endpoint is TableExists,
        method_of(endpoint) == Method::Delete <==> endpoint is DeleteTable,
        method_of(endpoint) == Method::Post <==> endpoint is CreateStagingTable || endpoint
            is CreateTable || endpoint is UpdateTable || endpoint is RenameTable || endpoint
            is ReportMetrics,
        success_of(endpoint) == Success::NoContent <==> endpoint is DeleteTable || endpoint
            is TableExists || endpoint is RenameTable || endpoint is ReportMetrics,
{
}

/// In a list of routes that serves the API, each route has the path and the method of
/// its endpoint, and there is one route for each of the twelve endpoints.
pub proof fn routes_serve_their_endpoints(routes: Seq<Route>, i: int)
    requires
        serves_all(routes),
        0 <= i < routes.len(),
    ensures
        routes.len() == 12,
        routes[i].path@ == path_of(routes[i].endpoint),
        routes[i].method == method_of(routes[i].endpoint),
{
}

} // verus!
