//! Contexts, routes and calls.

use lakekeeper_delta::context::{from_request_parts, prepare, DeltaApiError, DeltaRequestContext};
use lakekeeper_delta::error::{DeltaBackendError, ErrorModel};
use lakekeeper_delta::host::WarehouseId;
use lakekeeper_delta::namespace::{SchemaRef, TableRef};
use lakekeeper_delta::properties::TableProperties;
use lakekeeper_delta::router::{
    get_config, router, schema_call, success, table_call, table_ref, Endpoint, GetConfigParams,
    GetConfigQuery, Method, SchemaPath, Success, TablePath,
};

fn bad_prefix() -> ErrorModel {
    ErrorModel {
        code: 404,
        message: "no such prefix".to_string(),
    }
}

fn warehouse() -> WarehouseId {
    WarehouseId("wh-1".to_string())
}

fn table_path() -> TablePath {
    TablePath {
        prefix: "p".to_string(),
        catalog: "c".to_string(),
        schema: "s".to_string(),
        table: "t".to_string(),
    }
}

#[test]
fn context_needs_metadata() {
    let refused = from_request_parts::<u8>(None).unwrap_err();
    assert_eq!(
        refused,
        DeltaApiError::Backend(DeltaBackendError::Internal(
            "request metadata extension missing; Delta routes must be nested inside the request-metadata middleware".to_string()
        ))
    );
}

#[test]
fn context_reads_the_prefix_of_the_path() {
    let mut params = TableProperties::default();
    params.insert("catalog", "c".to_string());
    params.insert("prefix", "p".to_string());
    let state = from_request_parts(Some("alice")).unwrap();
    let state = state.path_read::<()>(Ok(params)).unwrap();
    assert_eq!(state.prefix.as_deref(), Some("p"));
    assert_eq!(
        state.resolved(Ok(warehouse())).unwrap(),
        DeltaRequestContext {
            metadata: "alice",
            warehouse_id: warehouse(),
        }
    );
}

#[test]
fn context_without_prefix_is_left_to_the_host() {
    let state = from_request_parts(Some("alice")).unwrap();
    let state = state.path_read::<()>(Ok(TableProperties::default())).unwrap();
    assert_eq!(state.prefix, None);
    assert_eq!(
        state.resolved(Err(bad_prefix())).unwrap_err(),
        DeltaApiError::InvalidArgument("no such prefix".to_string())
    );
}

#[test]
fn rejected_path_stays_rejected() {
    let state = from_request_parts(Some("alice")).unwrap();
    assert_eq!(state.path_read(Err("rejection")).unwrap_err(), "rejection");
}

#[test]
fn prepared_context_agrees_with_the_extracted_one() {
    let extract = || {
        let state = from_request_parts(Some("alice")).unwrap();
        state.path_read::<()>(Ok(TableProperties::default())).unwrap()
    };
    let call = prepare("p".to_string(), "alice", 5);
    assert_eq!(call.prefix, "p");
    let (argument, context) = call.resolved(Ok(warehouse())).unwrap();
    assert_eq!(argument, 5);
    assert_eq!(context, extract().resolved(Ok(warehouse())).unwrap());
    assert_eq!(
        prepare("p".to_string(), "alice", 5)
            .resolved(Err(bad_prefix()))
            .unwrap_err(),
        extract().resolved(Err(bad_prefix())).unwrap_err()
    );
}

#[test]
fn routes_are_those_of_the_api() {
    let table = "/catalogs/{catalog}/schemas/{schema}/tables/{table}";
    let expected = [
        ("/config", Method::Get, Endpoint::GetConfig),
        (
            "/catalogs/{catalog}/schemas/{schema}/staging-tables",
            Method::Post,
            Endpoint::CreateStagingTable,
        ),
        (
            "/catalogs/{catalog}/schemas/{schema}/tables",
            Method::Post,
            Endpoint::CreateTable,
        ),
        (table, Method::Get, Endpoint::LoadTable),
        (table, Method::Post, Endpoint::UpdateTable),
        (table, Method::Delete, Endpoint::DeleteTable),
        (table, Method::Head, Endpoint::TableExists),
        (
            "/catalogs/{catalog}/schemas/{schema}/tables/{table}/rename",
            Method::Post,
            Endpoint::RenameTable,
        ),
        (
            "/catalogs/{catalog}/schemas/{schema}/tables/{table}/credentials",
            Method::Get,
            Endpoint::GetTableCredentials,
        ),
        (
            "/catalogs/{catalog}/schemas/{schema}/tables/{table}/metrics",
            Method::Post,
            Endpoint::ReportMetrics,
        ),
        (
            "/staging-tables/{table_id}/credentials",
            Method::Get,
            Endpoint::GetStagingTableCredentials,
        ),
        (
            "/temporary-path-credentials",
            Method::Get,
            Endpoint::GetTemporaryPathCredentials,
        ),
    ];
    let routes = router();
    assert_eq!(routes.len(), expected.len());
    for (route, (path, method, endpoint)) in routes.iter().zip(expected) {
        assert_eq!(route.path, path);
        assert_eq!(route.method, method);
        assert_eq!(route.endpoint, endpoint);
    }
    for (i, a) in routes.iter().enumerate() {
        for b in &routes[i + 1..] {
            assert!(a.path != b.path || a.method != b.method);
        }
    }
}

#[test]
fn calls_without_a_result_answer_without_content() {
    for route in router() {
        let expected = match route.endpoint {
            Endpoint::DeleteTable
            | Endpoint::TableExists
            | Endpoint::RenameTable
            | Endpoint::ReportMetrics => Success::NoContent,
            _ => Success::Json,
        };
        assert_eq!(success(route.endpoint), expected);
    }
}

#[test]
fn table_calls_carry_the_coordinate() {
    let expected = TableRef {
        catalog: "c".to_string(),
        schema: "s".to_string(),
        table: "t".to_string(),
    };
    assert_eq!(table_ref(table_path()), expected);
    let call = table_call(table_path(), "alice", 8);
    assert_eq!(call.prefix, "p");
    let ((table, request), context) = call.resolved(Ok(warehouse())).unwrap();
    assert_eq!(table, expected);
    assert_eq!(request, 8);
    assert_eq!(context.metadata, "alice");
    assert_eq!(context.warehouse_id, warehouse());
}

#[test]
fn schema_calls_carry_the_coordinate() {
    let path = SchemaPath {
        prefix: "p".to_string(),
        catalog: "c".to_string(),
        schema: "s".to_string(),
    };
    let call = schema_call(path, "alice", 8);
    assert_eq!(call.prefix, "p");
    let ((schema, request), _) = call.resolved(Ok(warehouse())).unwrap();
    assert_eq!(
        schema,
        SchemaRef {
            catalog: "c".to_string(),
            schema: "s".to_string(),
        }
    );
    assert_eq!(request, 8);
}

#[test]
fn config_calls_carry_the_query() {
    let params = GetConfigParams {
        catalog: "c".to_string(),
        protocol_versions: "1,2".to_string(),
    };
    let call = get_config("p".to_string(), "alice", params);
    assert_eq!(call.prefix, "p");
    let (query, _) = call.resolved(Ok(warehouse())).unwrap();
    assert_eq!(
        query,
        GetConfigQuery {
            catalog: "c".to_string(),
            protocol_versions: "1,2".to_string(),
        }
    );
}
