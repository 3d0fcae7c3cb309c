//! Credentials out of the properties that a storage profile hands back.

use lakekeeper_delta::credentials::{
    adls_sas_token, to_storage_permissions, to_vended_credential, vended_data_access,
    CredentialAccess, DataAccess, DataAccessMode, StoragePermissions, TableConfig,
    VendedCredentialKind,
};
use lakekeeper_delta::error::DeltaBackendError;
use lakekeeper_delta::properties::TableProperties;

fn table_config(creds: TableProperties, expiration_ms: Option<i64>) -> TableConfig {
    TableConfig {
        creds,
        config: TableProperties::default(),
        credentials_expiration_ms: expiration_ms,
    }
}

fn creds(entries: &[(&str, &str)]) -> TableProperties {
    let mut creds = TableProperties::default();
    for (key, value) in entries {
        creds.insert(key, value.to_string());
    }
    creds
}

fn kind(entries: &[(&str, &str)]) -> VendedCredentialKind {
    to_vended_credential("u".to_string(), &table_config(creds(entries), None))
        .unwrap()
        .kind
}

#[test]
fn vend_s3_credential_uses_profile_expiration() {
    let creds = creds(&[
        ("s3.access-key-id", "AKIA"),
        ("s3.secret-access-key", "secret"),
    ]);
    let cfg = table_config(creds, Some(1_700_000_000_000));

    let vended =
        to_vended_credential("s3://bucket/t".to_string(), &cfg).expect("recognized S3 creds vend");
    assert_eq!(vended.expiration_time_ms, 1_700_000_000_000);
    assert!(matches!(vended.kind, VendedCredentialKind::S3 { .. }));
    assert_eq!(vended.url, "s3://bucket/t");
    assert_eq!(
        vended.kind,
        VendedCredentialKind::S3 {
            access_key_id: "AKIA".to_string(),
            secret_access_key: "secret".to_string(),
            session_token: None,
        }
    );
}

#[test]
fn vend_credential_without_recognized_keys_errors() {
    let cfg = table_config(TableProperties::default(), Some(1));
    assert!(matches!(
        to_vended_credential("s3://bucket/t".to_string(), &cfg),
        Err(DeltaBackendError::Internal(_))
    ));
    assert_eq!(
        to_vended_credential("s3://bucket/t".to_string(), &cfg).unwrap_err(),
        DeltaBackendError::Internal(
            "storage profile vended no credential this Delta endpoint can serve (no S3, GCS, or ADLS keys present)".to_string()
        )
    );
}

#[test]
fn credential_without_expiration_never_expires() {
    let cfg = table_config(creds(&[("gcs.oauth2.token", "t")]), None);
    let vended = to_vended_credential("u".to_string(), &cfg).unwrap();
    assert_eq!(vended.expiration_time_ms, i64::MAX);
}

#[test]
fn s3_pair_goes_before_gcs_before_adls() {
    let sas = ("adls.sas-token.acc.dfs.core.windows.net", "sas");
    let gcs = ("gcs.oauth2.token", "tok");
    let id = ("s3.access-key-id", "A");
    let secret = ("s3.secret-access-key", "S");
    let session = ("s3.session-token", "T");
    assert_eq!(
        kind(&[sas, gcs, secret, session, id]),
        VendedCredentialKind::S3 {
            access_key_id: "A".to_string(),
            secret_access_key: "S".to_string(),
            session_token: Some("T".to_string()),
        }
    );
    // Half a pair is none.
    assert_eq!(
        kind(&[sas, gcs, id]),
        VendedCredentialKind::GcsOauth {
            oauth_token: "tok".to_string()
        }
    );
    assert_eq!(
        kind(&[secret, session, sas]),
        VendedCredentialKind::AzureSas {
            sas_token: "sas".to_string()
        }
    );
}

#[test]
fn order_of_properties_does_not_matter() {
    let a = ("s3.access-key-id", "A");
    let b = ("s3.secret-access-key", "S");
    let c = ("other", "x");
    assert_eq!(kind(&[a, b, c]), kind(&[c, b, a]));
    assert_eq!(kind(&[a, b, c]), kind(&[b, c, a]));
}

#[test]
fn sas_token_is_found_by_prefix_and_its_expiry_passed_over() {
    assert_eq!(
        adls_sas_token(&creds(&[
            ("adls.sas-token-expires-at-ms.acc", "17"),
            ("adls.sas-token", "bare"),
            ("xadls.sas-token.acc", "no"),
            ("adls.sas-token.acc", "yes"),
            ("adls.sas-token.other", "later"),
        ])),
        Some("yes".to_string())
    );
    assert_eq!(
        adls_sas_token(&creds(&[("adls.sas-token.", "empty account")])),
        Some("empty account".to_string())
    );
    assert_eq!(
        adls_sas_token(&creds(&[("adls.sas-token-expires-at-ms.acc", "17")])),
        None
    );
    assert_eq!(adls_sas_token(&TableProperties::default()), None);
}

#[test]
fn permissions_follow_the_access() {
    assert_eq!(
        to_storage_permissions(CredentialAccess::Read),
        StoragePermissions::Read
    );
    assert_eq!(
        to_storage_permissions(CredentialAccess::ReadWrite),
        StoragePermissions::ReadWriteDelete
    );
}

#[test]
fn vends_are_never_remote_signed() {
    assert_eq!(
        vended_data_access(),
        DataAccessMode::ServerDelegated(DataAccess {
            vended_credentials: true,
            remote_signing: false,
        })
    );
}

#[test]
fn inserting_a_key_again_replaces_its_value() {
    let properties = creds(&[("a", "1"), ("b", "2"), ("a", "3")]);
    assert_eq!(
        properties.inner(),
        &vec![
            ("a".to_string(), "3".to_string()),
            ("b".to_string(), "2".to_string()),
        ]
    );
    assert_eq!(properties.get("a"), Some(&"3".to_string()));
    assert_eq!(properties.get("b"), Some(&"2".to_string()));
    assert_eq!(properties.get("c"), None);
    assert_eq!(properties.copied().inner(), properties.inner());
}
