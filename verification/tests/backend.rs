//! The reading and vending methods, on concrete answers of the host.

use iceberg::NamespaceIdent;
use lakekeeper_delta::backend::{
    capabilities, deferred, generate_table_config, resolve_table, validate_external_location,
    vend_table_credential, DeferredMethod,
};
use lakekeeper_delta::context::DeltaRequestContext;
use lakekeeper_delta::credentials::{
    vended_data_access, CredentialAccess, DataAccess, DataAccessMode, StoragePermissions,
    TableConfig, VendedCredential, VendedCredentialKind,
};
use lakekeeper_delta::error::{BackendResult, DeltaBackendError, ErrorModel};
use lakekeeper_delta::host::{
    GenericTableId, Location, NamespaceId, ResolvedWarehouse, SecretId, WarehouseId,
};
use lakekeeper_delta::lookup::{
    load_generic_table, load_generic_table_by_id, namespace_not_found, require_warehouse,
    resolve_namespace_id, TableKey,
};
use lakekeeper_delta::namespace::TableRef;
use lakekeeper_delta::properties::TableProperties;
use lakekeeper_delta::tables::{
    columns_from_schema, table_to_resolved, DeltaDataSourceFormat, DeltaTableType,
    GenericTableInfo, SchemaColumns, TableToResolved,
};
use serde_json::Value;

type Info = GenericTableInfo<Value>;

fn cx() -> DeltaRequestContext<&'static str> {
    DeltaRequestContext {
        metadata: "alice",
        warehouse_id: WarehouseId("wh-1".to_string()),
    }
}

fn failure(code: u16, message: &str) -> ErrorModel {
    ErrorModel {
        code,
        message: message.to_string(),
    }
}

fn names(parts: &[&str]) -> NamespaceIdent {
    NamespaceIdent::from_vec(parts.iter().map(|p| p.to_string()).collect()).unwrap()
}

fn table(catalog: &str, schema: &str, table: &str) -> TableRef {
    TableRef {
        catalog: catalog.to_string(),
        schema: schema.to_string(),
        table: table.to_string(),
    }
}

fn blob() -> Value {
    let mut fields = serde_json::Map::new();
    fields.insert("name".to_string(), Value::from("id"));
    fields.insert("type".to_string(), Value::from("long"));
    fields.insert("nullable".to_string(), Value::from(false));
    fields.insert("metadata".to_string(), Value::Object(serde_json::Map::new()));
    let mut schema = serde_json::Map::new();
    schema.insert("type".to_string(), Value::from("struct"));
    schema.insert(
        "fields".to_string(),
        Value::Array(vec![Value::Object(fields)]),
    );
    Value::Object(schema)
}

fn info(format: &str, schema: Option<Value>) -> Info {
    let mut properties = TableProperties::default();
    properties.insert("delta.minReaderVersion", "3".to_string());
    properties.insert("owner", "bob".to_string());
    GenericTableInfo {
        generic_table_id: GenericTableId("t-7".to_string()),
        namespace: names(&["main", "sales"]),
        name: "orders".to_string(),
        format: format.to_string(),
        location: Location("s3://bucket/orders".to_string()),
        schema,
        properties,
    }
}

fn warehouse(secret: Option<&str>) -> ResolvedWarehouse<&'static str> {
    ResolvedWarehouse {
        storage_profile: "profile",
        storage_secret_id: secret.map(|s| SecretId(s.to_string())),
    }
}

// ----- schemas ---------------------------------------------------------------

#[test]
fn columns_from_absent_schema_is_empty() {
    let next: SchemaColumns<'_, Value, String> = columns_from_schema(None);
    match next {
        SchemaColumns::Columns(columns) => assert!(columns.is_empty()),
        SchemaColumns::Parse(_) => panic!("absent schema is fine"),
    }
}

#[test]
fn columns_from_malformed_schema_errors() {
    let mut object = serde_json::Map::new();
    object.insert("not".to_string(), Value::from("a delta struct type"));
    let blob = Value::Object(object);
    let next: SchemaColumns<'_, Value, String> = columns_from_schema(Some(&blob));
    let parse = match next {
        SchemaColumns::Columns(_) => panic!("a schema that is there has to be parsed"),
        SchemaColumns::Parse(parse) => parse,
    };
    assert_eq!(parse.schema, &blob);
    let refused: BackendResult<_> = parse.parsed::<()>(Err("missing field `type`".to_string()));
    assert_eq!(
        refused.unwrap_err(),
        DeltaBackendError::Internal(
            "stored table schema is not a valid Delta schema: missing field `type`".to_string()
        )
    );
}

#[test]
fn columns_from_valid_delta_schema_parses() {
    let blob = blob();
    let next: SchemaColumns<'_, Value, String> = columns_from_schema(Some(&blob));
    let parse = match next {
        SchemaColumns::Columns(_) => panic!("a schema that is there has to be parsed"),
        SchemaColumns::Parse(parse) => parse,
    };
    assert_eq!(parse.schema, &blob);
    let fields = parse.schema["fields"].as_array().unwrap().clone();
    let convert = parse.parsed(Ok(fields)).expect("valid delta schema parses");
    let columns: Vec<String> = convert
        .struct_type
        .iter()
        .map(|f| f["name"].as_str().unwrap().to_string())
        .collect();
    let columns = convert
        .converted(Ok(columns))
        .expect("valid delta schema parses");
    assert_eq!(columns.len(), 1);
    assert_eq!(columns[0], "id");
}

#[test]
fn unconvertible_schema_is_an_internal_failure() {
    let blob = blob();
    let next: SchemaColumns<'_, Value, String> = columns_from_schema(Some(&blob));
    let parse = match next {
        SchemaColumns::Columns(_) => panic!("a schema that is there has to be parsed"),
        SchemaColumns::Parse(parse) => parse,
    };
    let convert = parse.parsed(Ok(1u8)).unwrap();
    let refused = convert.converted::<String>(Err("unknown type".to_string()));
    assert_eq!(
        refused.unwrap_err(),
        DeltaBackendError::Internal(
            "stored Delta schema could not be converted: unknown type".to_string()
        )
    );
}

#[test]
fn delta_table_without_schema_resolves_at_once() {
    let info = info("delta", None);
    let next: TableToResolved<'_, Value, String> = table_to_resolved(&info);
    let told = match next {
        TableToResolved::Resolved(told) => told,
        TableToResolved::Parse(_) => panic!("nothing to parse"),
    };
    assert_eq!(told.table_id.as_deref(), Some("t-7"));
    assert_eq!(told.location, "s3://bucket/orders");
    assert_eq!(told.table_type, Some(DeltaTableType::External));
    assert_eq!(told.data_source_format, Some(DeltaDataSourceFormat::Delta));
    assert!(told.columns.is_empty());
    assert_eq!(
        told.properties.inner(),
        &vec![
            ("delta.minReaderVersion".to_string(), "3".to_string()),
            ("owner".to_string(), "bob".to_string()),
        ]
    );
    assert_eq!(told.created_at_ms, None);
    assert_eq!(told.updated_at_ms, None);
    assert_eq!(told.version, 0);
}

#[test]
fn table_of_another_format_has_no_delta_type() {
    for format in ["lance", "Delta", "delta ", "delt", ""] {
        let info = info(format, None);
        let next: TableToResolved<'_, Value, String> = table_to_resolved(&info);
        let told = match next {
            TableToResolved::Resolved(told) => told,
            TableToResolved::Parse(_) => panic!("nothing to parse"),
        };
        assert_eq!(told.table_type, None);
        assert_eq!(told.data_source_format, None);
    }
}

#[test]
fn table_with_schema_resolves_with_its_columns() {
    let info = info("delta", Some(blob()));
    let next: TableToResolved<'_, Value, String> = table_to_resolved(&info);
    let parse = match next {
        TableToResolved::Resolved(_) => panic!("the schema has to be read"),
        TableToResolved::Parse(parse) => parse,
    };
    assert_eq!(parse.parse.schema, &blob());
    let convert = parse.parsed(Ok("parsed")).unwrap();
    assert_eq!(convert.convert.struct_type, "parsed");
    let told = convert.converted(Ok(vec!["id".to_string()])).unwrap();
    assert_eq!(told.columns, vec!["id".to_string()]);
    assert_eq!(told.table_id.as_deref(), Some("t-7"));
}

#[test]
fn table_with_unreadable_schema_is_not_resolved() {
    let info = info("delta", Some(blob()));
    let next: TableToResolved<'_, Value, String> = table_to_resolved(&info);
    match next {
        TableToResolved::Resolved(_) => panic!("the schema has to be read"),
        TableToResolved::Parse(parse) => {
            let refused = parse.parsed::<u8>(Err("bad".to_string()));
            assert!(matches!(refused, Err(DeltaBackendError::Internal(_))));
        }
    }
    let next: TableToResolved<'_, Value, String> = table_to_resolved(&info);
    match next {
        TableToResolved::Resolved(_) => panic!("the schema has to be read"),
        TableToResolved::Parse(parse) => {
            let refused = parse
                .parsed(Ok(1u8))
                .unwrap()
                .converted::<String>(Err("bad".to_string()));
            assert!(matches!(refused, Err(DeltaBackendError::Internal(_))));
        }
    }
}

// ----- lookups ---------------------------------------------------------------

#[test]
fn missing_warehouse_is_named() {
    let cx = cx();
    let state = require_warehouse(&cx.warehouse_id);
    assert_eq!(state.warehouse_id.0, "wh-1");
    assert_eq!(
        state.found::<u8>(Ok(None)).unwrap_err(),
        DeltaBackendError::NotFoundGeneric("warehouse 'wh-1' not found".to_string())
    );
    assert_eq!(
        require_warehouse(&cx.warehouse_id)
            .found(Ok(Some(5u8)))
            .unwrap(),
        5
    );
    assert_eq!(
        require_warehouse(&cx.warehouse_id)
            .found::<u8>(Err(failure(500, "down")))
            .unwrap_err(),
        DeltaBackendError::Internal("down".to_string())
    );
}

#[test]
fn missing_namespace_is_shown() {
    let cx = cx();
    let quoted = names(&["main", "sa\"les"]);
    let state = resolve_namespace_id(&cx.warehouse_id, &quoted);
    assert_eq!(
        state.found(Ok(None)).unwrap_err(),
        DeltaBackendError::NotFound(
            "namespace NamespaceIdent([\"main\", \"sa\\\"les\"]) not found".to_string()
        )
    );
    assert_eq!(
        namespace_not_found("X"),
        DeltaBackendError::NotFound("namespace X not found".to_string())
    );
    let plain = names(&["main", "sales"]);
    let state = resolve_namespace_id(&cx.warehouse_id, &plain);
    assert_eq!(
        state.found(Err(failure(401, "who?"))).unwrap_err(),
        DeltaBackendError::Unauthenticated("who?".to_string())
    );
}

#[test]
fn table_is_loaded_by_name_in_a_committed_transaction() {
    let cx = cx();
    let sales = names(&["main", "sales"]);
    let load = load_generic_table(&cx.warehouse_id, &sales, "orders");
    assert_eq!(load.namespace.warehouse_id.0, "wh-1");
    let begin = load
        .namespace_found(Ok(Some(NamespaceId("ns-3".to_string()))))
        .unwrap();
    assert_eq!(begin.warehouse_id.0, "wh-1");
    let row = begin.begun(Ok("txn")).unwrap();
    assert_eq!(row.transaction, "txn");
    assert_eq!(row.warehouse_id.0, "wh-1");
    match &row.key {
        TableKey::Name {
            namespace_id,
            table_name,
        } => {
            assert_eq!(namespace_id.0, "ns-3");
            assert_eq!(*table_name, "orders");
        }
        TableKey::Id(_) => panic!("looked for by name"),
    }
    let commit = row.loaded(Ok(info("delta", None))).unwrap();
    assert_eq!(commit.transaction, "txn");
    let loaded = commit.row.committed(Ok(())).unwrap();
    assert_eq!(loaded.name, "orders");
}

#[test]
fn table_is_loaded_by_id() {
    let cx = cx();
    let load = load_generic_table_by_id(&cx.warehouse_id, "t-7");
    assert_eq!(load.table_id, "t-7");
    let begin = load.parsed(Ok(GenericTableId("t-7".to_string()))).unwrap();
    match &begin.key {
        TableKey::Id(id) => assert_eq!(id.0, "t-7"),
        TableKey::Name { .. } => panic!("looked for by identifier"),
    }
    let load = load_generic_table_by_id(&cx.warehouse_id, "x");
    assert_eq!(
        load.parsed(Err("not a uuid".to_string())).unwrap_err(),
        DeltaBackendError::InvalidArgument("invalid table id: not a uuid".to_string())
    );
}

#[test]
fn every_step_of_a_load_can_fail() {
    let cx = cx();
    let begin = || {
        load_generic_table_by_id(&cx.warehouse_id, "t-7")
            .parsed(Ok(GenericTableId("t-7".to_string())))
            .unwrap()
    };
    assert_eq!(
        begin().begun::<u8>(Err(failure(429, "slow"))).unwrap_err(),
        DeltaBackendError::ResourceExhausted("slow".to_string())
    );
    let row = begin().begun(Ok(1u8)).unwrap();
    assert_eq!(
        row.loaded::<u8>(Err(failure(404, "gone"))).unwrap_err(),
        DeltaBackendError::NotFound("gone".to_string())
    );
    let commit = begin().begun(Ok(1u8)).unwrap().loaded(Ok(2u8)).unwrap();
    assert_eq!(
        commit.row.committed(Err(failure(503, "lost"))).unwrap_err(),
        DeltaBackendError::Internal("lost".to_string())
    );
}

// ----- resolving, locations --------------------------------------------------

#[test]
fn resolving_loads_the_named_table() {
    let cx = cx();
    let orders = table("main", "sales", "orders");
    let state = resolve_table(&orders, &cx).unwrap();
    let load = state.request();
    assert_eq!(load.namespace.warehouse_id.0, "wh-1");
    assert_eq!(load.namespace.namespace, &names(&["main", "sales"]));
    assert_eq!(load.table_name, "orders");
    let loaded = state.loaded(Ok(info("delta", None))).unwrap();
    let next: TableToResolved<'_, Value, String> = loaded.resolved();
    match next {
        TableToResolved::Resolved(told) => assert_eq!(told.table_id.as_deref(), Some("t-7")),
        TableToResolved::Parse(_) => panic!("nothing to parse"),
    }
    let gone = DeltaBackendError::NotFound("gone".to_string());
    let state = resolve_table(&orders, &cx).unwrap();
    assert_eq!(
        state.loaded::<Value>(Err(gone.clone())).unwrap_err(),
        gone
    );
    let nowhere = table("", "sales", "orders");
    assert_eq!(
        resolve_table(&nowhere, &cx).unwrap_err(),
        DeltaBackendError::InvalidArgument(
            "Delta catalog and schema must be non-empty".to_string()
        )
    );
}

#[test]
fn location_is_checked_by_its_warehouse() {
    let cx = cx();
    let state = validate_external_location("s3://bucket/x", &cx);
    assert_eq!(state.warehouse.warehouse_id.0, "wh-1");
    let parse = state.warehouse_found(Ok(Some(warehouse(None)))).unwrap();
    assert_eq!(parse.location, "s3://bucket/x");
    let asked = parse
        .parsed(Ok(Location("s3://bucket/x".to_string())))
        .unwrap();
    assert_eq!(asked.warehouse, warehouse(None));
    assert_eq!(asked.location.0, "s3://bucket/x");
    assert!(asked.decided(Ok(())).is_ok());
}

#[test]
fn location_can_be_refused() {
    let cx = cx();
    assert_eq!(
        validate_external_location("x", &cx)
            .warehouse_found::<u8>(Ok(None))
            .unwrap_err(),
        DeltaBackendError::NotFoundGeneric("warehouse 'wh-1' not found".to_string())
    );
    assert_eq!(
        validate_external_location("x", &cx)
            .warehouse_found(Ok(Some(warehouse(None))))
            .unwrap()
            .parsed(Err("no scheme".to_string()))
            .unwrap_err(),
        DeltaBackendError::InvalidArgument("no scheme".to_string())
    );
    assert_eq!(
        validate_external_location("s3://other", &cx)
            .warehouse_found(Ok(Some(warehouse(None))))
            .unwrap()
            .parsed(Ok(Location("s3://other".to_string())))
            .unwrap()
            .decided(Err(failure(400, "not allowed")))
            .unwrap_err(),
        DeltaBackendError::InvalidArgument("not allowed".to_string())
    );
}

// ----- vending ---------------------------------------------------------------

#[test]
fn credential_is_vended_for_the_location_of_the_table() {
    let cx = cx();
    let state = vend_table_credential("t-7", CredentialAccess::Read, &cx);
    assert_eq!(state.load.table_id, "t-7");
    assert_eq!(state.load.warehouse_id.0, "wh-1");
    let vend = state.loaded(Ok(info("delta", None))).unwrap();
    assert_eq!(vend.permissions, StoragePermissions::Read);

    let read = vend
        .request()
        .warehouse_found(Ok(Some(warehouse(Some("sec-1")))))
        .unwrap();
    assert_eq!(read.warehouse.storage_secret_id.as_ref().unwrap().0, "sec-1");
    let request = read.secret_read(Ok(Some("key material"))).unwrap();
    assert_eq!(request.cx.metadata, "alice");
    assert_eq!(request.warehouse.storage_profile, "profile");
    assert_eq!(request.secret, Some("key material"));
    assert_eq!(request.location.0, "s3://bucket/orders");
    assert_eq!(request.permissions, StoragePermissions::Read);
    assert_eq!(request.tabular_info.name, "orders");
    assert_eq!(
        request.data_access,
        DataAccessMode::ServerDelegated(DataAccess {
            vended_credentials: true,
            remote_signing: false,
        })
    );
    assert_eq!(request.data_access, vended_data_access());

    let mut creds = TableProperties::default();
    creds.insert("gcs.oauth2.token", "tok".to_string());
    let config = request
        .generated(Ok(TableConfig {
            creds,
            config: TableProperties::default(),
            credentials_expiration_ms: Some(17),
        }))
        .unwrap();
    assert_eq!(
        vend.configured(Ok(config)).unwrap(),
        VendedCredential {
            url: "s3://bucket/orders".to_string(),
            expiration_time_ms: 17,
            kind: VendedCredentialKind::GcsOauth {
                oauth_token: "tok".to_string()
            },
        }
    );
}

#[test]
fn every_step_of_a_vend_can_fail() {
    let cx = cx();
    let gone = DeltaBackendError::NotFound("gone".to_string());
    let state = vend_table_credential("t-7", CredentialAccess::ReadWrite, &cx);
    assert_eq!(
        state.loaded::<Value>(Err(gone.clone())).unwrap_err(),
        gone.clone()
    );
    let vend = vend_table_credential("t-7", CredentialAccess::ReadWrite, &cx)
        .loaded(Ok(info("delta", None)))
        .unwrap();
    assert_eq!(vend.permissions, StoragePermissions::ReadWriteDelete);
    assert_eq!(
        vend.request().warehouse_found::<u8>(Ok(None)).unwrap_err(),
        DeltaBackendError::NotFoundGeneric("warehouse 'wh-1' not found".to_string())
    );
    assert_eq!(
        vend.request()
            .warehouse_found(Ok(Some(warehouse(None))))
            .unwrap()
            .secret_read::<u8>(Err(failure(500, "vault")))
            .unwrap_err(),
        DeltaBackendError::Internal("vault".to_string())
    );
    assert_eq!(
        vend.request()
            .warehouse_found(Ok(Some(warehouse(None))))
            .unwrap()
            .secret_read::<u8>(Ok(None))
            .unwrap()
            .generated(Err(failure(403, "sts")))
            .unwrap_err(),
        DeltaBackendError::PermissionDenied("sts".to_string())
    );
    assert_eq!(vend.configured(Err(gone.clone())).unwrap_err(), gone);
}

#[test]
fn config_is_generated_for_what_it_is_asked_for() {
    let cx = cx();
    let location = Location("gs://b/t".to_string());
    let state =
        generate_table_config(&cx, &location, StoragePermissions::ReadWriteDelete, &"tabular");
    assert_eq!(state.warehouse.warehouse_id.0, "wh-1");
    assert_eq!(state.location.0, "gs://b/t");
    assert_eq!(state.permissions, StoragePermissions::ReadWriteDelete);
    assert_eq!(state.tabular_info, &"tabular");
}

// ----- what is not served ----------------------------------------------------

#[test]
fn rename_is_not_advertised() {
    assert!(!capabilities().rename);
}

#[test]
fn deferred_methods_are_refused() {
    let staging = "Delta staging tables are not yet supported by Lakekeeper";
    for (method, message) in [
        (
            DeferredMethod::CreateTableRow,
            "Delta createTable is not yet supported by Lakekeeper",
        ),
        (
            DeferredMethod::UpdateTableRow,
            "Delta updateTable is not yet supported by Lakekeeper",
        ),
        (
            DeferredMethod::DeleteTable,
            "Delta deleteTable is not yet supported by Lakekeeper",
        ),
        (
            DeferredMethod::RenameTable,
            "Delta renameTable is not yet supported by Lakekeeper",
        ),
        (DeferredMethod::AllocateStaging, staging),
        (DeferredMethod::ResolveStagingByLocation, staging),
        (DeferredMethod::ResolveStagingById, staging),
        (
            DeferredMethod::VendPathCredential,
            "Delta temporary-path credentials are not yet supported by Lakekeeper",
        ),
    ] {
        assert_eq!(
            deferred::<u8>(method).unwrap_err(),
            DeltaBackendError::NotImplemented(message)
        );
    }
}
