//! Namespaces, failures and authorization.

use iceberg::NamespaceIdent;
use lakekeeper_delta::authorize::{
    authorize, authorize_table_id, catalog_exists, Authorization, CatalogGenericTableAction,
    CatalogWarehouseAction, DeltaAction,
};
use lakekeeper_delta::context::DeltaRequestContext;
use lakekeeper_delta::credentials::CredentialAccess;
use lakekeeper_delta::error::{tell, to_backend_err, DeltaBackendError, ErrorModel};
use lakekeeper_delta::host::{GenericTableId, Location, WarehouseId};
use lakekeeper_delta::namespace::{namespace, TableRef};
use lakekeeper_delta::properties::TableProperties;
use lakekeeper_delta::tables::GenericTableInfo;
use lakekeeper_delta::text::{joined, same_text, starts_with};

fn cx() -> DeltaRequestContext<&'static str> {
    DeltaRequestContext {
        metadata: "alice",
        warehouse_id: WarehouseId("wh-1".to_string()),
    }
}

fn failure(code: u16, message: &str) -> ErrorModel {
    ErrorModel {
        code,
        message: message.to_string(),
    }
}

fn info() -> GenericTableInfo<u8> {
    GenericTableInfo {
        generic_table_id: GenericTableId("t-7".to_string()),
        namespace: NamespaceIdent::from_strs(["main", "sales"]).unwrap(),
        name: "orders".to_string(),
        format: "delta".to_string(),
        location: Location("s3://b/t".to_string()),
        schema: None,
        properties: TableProperties::default(),
    }
}

#[test]
fn namespace_rejects_empty_parts() {
    assert!(matches!(
        namespace("", "schema"),
        Err(DeltaBackendError::InvalidArgument(_))
    ));
    assert!(matches!(
        namespace("catalog", ""),
        Err(DeltaBackendError::InvalidArgument(_))
    ));
    let ns = namespace("catalog", "schema").expect("non-empty parts form a namespace");
    assert_eq!(ns.inner(), &["catalog".to_string(), "schema".to_string()]);
}

#[test]
fn namespace_refusal_says_why() {
    let refusal =
        DeltaBackendError::InvalidArgument("Delta catalog and schema must be non-empty".to_string());
    assert_eq!(namespace("", "").unwrap_err(), refusal);
    assert_eq!(namespace("", "s").unwrap_err(), refusal);
    assert_eq!(namespace("c", "").unwrap_err(), refusal);
}

#[test]
fn codes_are_told_as_their_kinds() {
    let m = || "m".to_string();
    for (code, told) in [
        (404, DeltaBackendError::NotFound(m())),
        (401, DeltaBackendError::Unauthenticated(m())),
        (403, DeltaBackendError::PermissionDenied(m())),
        (400, DeltaBackendError::InvalidArgument(m())),
        (409, DeltaBackendError::AlreadyExists(m())),
        (429, DeltaBackendError::ResourceExhausted(m())),
        (500, DeltaBackendError::Internal(m())),
        (200, DeltaBackendError::Internal(m())),
        (0, DeltaBackendError::Internal(m())),
        (405, DeltaBackendError::Internal(m())),
        (u16::MAX, DeltaBackendError::Internal(m())),
    ] {
        assert_eq!(to_backend_err(failure(code, "m")), told);
    }
    assert_eq!(tell(Ok(3)), Ok(3));
    assert_eq!(
        tell::<u8>(Err(failure(409, "dup"))),
        Err(DeltaBackendError::AlreadyExists("dup".to_string()))
    );
}

#[test]
fn reads_ask_for_metadata_of_the_named_table() {
    let cx = cx();
    let table = TableRef {
        catalog: "main".to_string(),
        schema: "sales".to_string(),
        table: "orders".to_string(),
    };
    match authorize(DeltaAction::ReadTable { table: &table }, &cx).unwrap() {
        Authorization::Table(request) => {
            assert_eq!(request.cx.warehouse_id.0, "wh-1");
            assert_eq!(request.cx.metadata, "alice");
            assert_eq!(
                request.namespace,
                NamespaceIdent::from_strs(["main", "sales"]).unwrap()
            );
            assert_eq!(request.table_name, "orders");
            assert_eq!(request.action, CatalogGenericTableAction::GetMetadata);
            assert!(request.decided(Ok("ignored")).is_ok());
        }
        Authorization::TableId(_) => panic!("a read is asked about by name"),
    }
    let nowhere = TableRef {
        catalog: "main".to_string(),
        schema: String::new(),
        table: "orders".to_string(),
    };
    assert!(matches!(
        authorize(DeltaAction::ReadTable { table: &nowhere }, &cx),
        Err(DeltaBackendError::InvalidArgument(_))
    ));
}

#[test]
fn credentials_ask_for_data_of_the_loaded_table() {
    let cx = cx();
    for (access, expected) in [
        (CredentialAccess::Read, CatalogGenericTableAction::ReadData),
        (
            CredentialAccess::ReadWrite,
            CatalogGenericTableAction::WriteData,
        ),
    ] {
        let action = DeltaAction::VendTableCredential {
            table_id: "t-7",
            access,
        };
        match authorize(action, &cx).unwrap() {
            Authorization::TableId(state) => {
                assert_eq!(state.load.table_id, "t-7");
                assert_eq!(state.load.warehouse_id.0, "wh-1");
                let request = state.loaded(Ok(info())).unwrap();
                assert_eq!(
                    request.namespace,
                    NamespaceIdent::from_strs(["main", "sales"]).unwrap()
                );
                assert_eq!(request.table_name, "orders");
                assert_eq!(request.action, expected);
                assert_eq!(
                    request.decided::<()>(Err(failure(403, "no"))).unwrap_err(),
                    DeltaBackendError::PermissionDenied("no".to_string())
                );
            }
            Authorization::Table(_) => panic!("a credential is asked about by identifier"),
        }
    }
    let gone = DeltaBackendError::NotFound("gone".to_string());
    let state = authorize_table_id(&cx, "t-7", CatalogGenericTableAction::ReadData);
    assert_eq!(state.loaded::<u8>(Err(gone.clone())).unwrap_err(), gone);
}

#[test]
fn everything_else_is_refused_without_a_question() {
    let cx = cx();
    let path = "Delta temporary-path credentials are not yet supported by Lakekeeper";
    assert_eq!(
        authorize(DeltaAction::VendPathCredential, &cx).unwrap_err(),
        DeltaBackendError::NotImplemented(path)
    );
    let write = "Delta write and staging operations are not yet supported by Lakekeeper";
    for action in [
        DeltaAction::CreateTable,
        DeltaAction::WriteTable,
        DeltaAction::DeleteTable,
        DeltaAction::RenameTable,
        DeltaAction::CreateStaging,
        DeltaAction::AdoptStaging,
    ] {
        assert_eq!(
            authorize(action, &cx).unwrap_err(),
            DeltaBackendError::NotImplemented(write)
        );
    }
    assert_eq!(
        authorize(DeltaAction::Unrecognized, &cx).unwrap_err(),
        DeltaBackendError::PermissionDenied("unrecognized Delta action".to_string())
    );
}

#[test]
fn catalog_check_hands_the_lookup_to_the_authorizer() {
    let cx = cx();
    for lookup in [Ok(Some(1u8)), Ok(None), Err(failure(500, "down"))] {
        let state = catalog_exists("main", &cx);
        assert_eq!(state.cx.warehouse_id.0, "wh-1");
        let request = state.looked_up(lookup.clone());
        assert_eq!(request.warehouse, lookup);
        assert_eq!(request.action, CatalogWarehouseAction::GetConfig);
        assert_eq!(request.cx.metadata, "alice");
        assert_eq!(
            request.decided::<()>(Err(failure(404, "hidden"))).unwrap_err(),
            DeltaBackendError::NotFound("hidden".to_string())
        );
    }
    let allowed = catalog_exists("main", &cx).looked_up(Ok(Some(1u8)));
    assert!(allowed.decided(Ok(9)).is_ok());
}

/// An authorizer that hides what the caller does not see: warehouse 1 may be read,
/// 2 is seen but forbidden, and any other is hidden.
fn hiding(warehouse: &Result<Option<u8>, ErrorModel>) -> Result<(), ErrorModel> {
    match warehouse {
        Ok(Some(1)) => Ok(()),
        Ok(Some(2)) => Err(failure(403, "forbidden")),
        Ok(_) => Err(failure(404, "no such warehouse")),
        Err(error) => Err(error.clone()),
    }
}

#[test]
fn missing_and_hidden_warehouses_are_told_alike() {
    let cx = cx();
    let outcome = |warehouse: Result<Option<u8>, ErrorModel>| {
        let request = catalog_exists("main", &cx).looked_up(warehouse);
        let answer = hiding(&request.warehouse);
        request.decided(answer)
    };
    let missing = Err(DeltaBackendError::NotFound("no such warehouse".to_string()));
    assert_eq!(outcome(Ok(None)), missing);
    assert_eq!(outcome(Ok(Some(3))), missing);
    assert_eq!(
        outcome(Ok(Some(2))),
        Err(DeltaBackendError::PermissionDenied("forbidden".to_string()))
    );
    assert_eq!(outcome(Ok(Some(1))), Ok(()));
    assert_eq!(
        outcome(Err(failure(500, "down"))),
        Err(DeltaBackendError::Internal("down".to_string()))
    );
}

#[test]
fn credentials_are_allowed_through_the_whole_load() {
    let cx = cx();
    let begin = |id: Result<GenericTableId, String>| {
        let action = DeltaAction::VendTableCredential {
            table_id: "t-7",
            access: CredentialAccess::Read,
        };
        match authorize(action, &cx).unwrap() {
            Authorization::TableId(state) => (state.load.parsed(id), state),
            Authorization::Table(_) => panic!("a credential is asked about by identifier"),
        }
    };
    let (parsed, state) = begin(Ok(GenericTableId("t-7".to_string())));
    let committing = parsed
        .unwrap()
        .begun(Ok("transaction"))
        .unwrap()
        .loaded(Ok(info()))
        .unwrap();
    let request = state.loaded(committing.row.committed(Ok(()))).unwrap();
    assert_eq!(request.table_name, "orders");
    assert_eq!(request.action, CatalogGenericTableAction::ReadData);
    assert_eq!(request.decided(Ok(())), Ok(()));
    let (parsed, _) = begin(Err("not a uuid".to_string()));
    assert!(matches!(
        parsed,
        Err(DeltaBackendError::InvalidArgument(_))
    ));
}

#[test]
fn texts_compare_by_characters() {
    assert!(starts_with("äbc", "äb"));
    assert!(starts_with("abc", ""));
    assert!(starts_with("", ""));
    assert!(!starts_with("ab", "abc"));
    assert!(!starts_with("abc", "b"));
    assert!(same_text("日本", "日本"));
    assert!(!same_text("a", "ab"));
    assert!(!same_text("ab", "a"));
    assert_eq!(joined("a", "é"), "aé");
}
