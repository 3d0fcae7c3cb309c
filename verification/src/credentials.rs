//! Storage credentials: what a vend asks the storage profile for, and what it
//! makes of the properties that the profile hands back.

use crate::error::{BackendResult, DeltaBackendError, ErrorKind, Failure};
use crate::properties::{Entry, TableProperties};
use crate::{error, properties, text};
use vstd::prelude::*;

verus! {

/// The property that holds an S3 access key id.
pub const S3_ACCESS_KEY_ID: &'static str = "s3.access-key-id";

/// The property that holds an S3 secret access key.
pub const S3_SECRET_ACCESS_KEY: &'static str = "s3.secret-access-key";

/// The property that holds an S3 session token.
pub const S3_SESSION_TOKEN: &'static str = "s3.session-token";

/// The property that holds a GCS OAuth token.
pub const GCS_TOKEN: &'static str = "gcs.oauth2.token";

/// What the properties that hold an ADLS SAS token begin with; the account follows.
pub const ADLS_SAS_TOKEN_PREFIX: &'static str = "adls.sas-token.";

/// What the properties that hold the expiry of an ADLS SAS token begin with.
pub const ADLS_SAS_EXPIRY_PREFIX: &'static str = "adls.sas-token-expires-at-ms.";

/// The access that a Delta client asks a credential for.
#[derive(Clone, Copy, Debug, PartialEq, Eq, Structural)]
pub enum CredentialAccess {
    Read,
    ReadWrite,
}

/// The access that the storage profile scopes a credential to.
#[derive(Clone, Copy, Debug, PartialEq, Eq, Structural)]
pub enum StoragePermissions {
    Read,
    ReadWriteDelete,
}

/// The ways of delegated access that a client may use.
#[derive(Clone, Copy, Debug, PartialEq, Eq, Structural)]
pub struct DataAccess {
    pub vended_credentials: bool,
    pub remote_signing: bool,
}

/// Who brings the access to storage.
#[derive(Clone, Copy, Debug, PartialEq, Eq, Structural)]
pub enum DataAccessMode {
    ServerDelegated(DataAccess),
}

/// What the storage profile hands back for a table.
#[derive(Debug)]
pub struct TableConfig {
    pub creds: TableProperties,
    pub config: TableProperties,
    /// When the credentials expire; `None` states that they do not.
    pub credentials_expiration_ms: Option<i64>,
}

/// A credential that a Delta client can use.
#[derive(Debug, PartialEq, Eq)]
pub enum VendedCredentialKind {
    S3 { access_key_id: String, secret_access_key: String, session_token: Option<String> },
    GcsOauth { oauth_token: String },
    AzureSas { sas_token: String },
}

/// A credential for a location, with its expiry.
#[derive(Debug, PartialEq, Eq)]
pub struct VendedCredential {
    pub url: String,
    pub expiration_time_ms: i64,
    pub kind: VendedCredentialKind,
}

/// A [`VendedCredentialKind`] by the characters of its parts.
pub enum KindView {
    S3 {
        access_key_id: Seq<char>,
        secret_access_key: Seq<char>,
        session_token: Option<Seq<char>>,
    },
    GcsOauth { oauth_token: Seq<char> },
    AzureSas { sas_token: Seq<char> },
}

/// A [`VendedCredential`] by the characters of its parts.
pub struct CredentialView {
    pub url: Seq<char>,
    pub expiration_time_ms: int,
    pub kind: KindView,
}

/// An optional text by its characters.
pub open spec fn optional_text(value: Option<String>) -> Option<Seq<char>> {
    match value {
        Some(v) => Some(v@),
        None => None,
    }
}

impl View for VendedCredentialKind {
    type V = KindView;

    open spec fn view(&self) -> KindView {
        match *self {
            VendedCredentialKind::S3 { access_key_id, secret_access_key, session_token } => {
                KindView::S3 {
                    access_key_id: access_key_id@,
                    secret_access_key: secret_access_key@,
                    session_token: optional_text(session_token),
                }
            },
            VendedCredentialKind::GcsOauth { oauth_token } => {
                KindView::GcsOauth { oauth_token: oauth_token@ }
            },
            VendedCredentialKind::AzureSas { sas_token } => {
                KindView::AzureSas { sas_token: sas_token@ }
            },
        }
    }
}

impl View for VendedCredential {
    type V = CredentialView;

    open spec fn view(&self) -> CredentialView {
        CredentialView {
            url: self.url@,
            expiration_time_ms: self.expiration_time_ms as int,
            kind: self.kind@,
        }
    }
}

/// Whether a property holds an ADLS SAS token.
pub open spec fn is_sas_key(key: Seq<char>) -> bool {
    ADLS_SAS_TOKEN_PREFIX@.is_prefix_of(key) && !ADLS_SAS_EXPIRY_PREFIX@.is_prefix_of(key)
}

/// The value of the first property that holds an ADLS SAS token.
pub open spec fn first_sas_token(entries: Seq<Entry>) -> Option<Seq<char>>
    decreases entries.len(),
{
    if entries.len() == 0 {
        None
    } else if is_sas_key(entries[0].key) {
        Some(entries[0].value)
    } else {
        first_sas_token(entries.skip(1))
    }
}

/// The credential that properties hold: an S3 key pair before a GCS token before
/// an ADLS SAS token, and none where none of them is complete.
pub open spec fn credential_kind(creds: Seq<Entry>) -> Option<KindView> {
    let access_key_id = properties::lookup(creds, S3_ACCESS_KEY_ID@);
    let secret_access_key = properties::lookup(creds, S3_SECRET_ACCESS_KEY@);
    let oauth_token = properties::lookup(creds, GCS_TOKEN@);
    let sas_token = first_sas_token(creds);
    if access_key_id is Some && secret_access_key is Some {
        Some(
            KindView::S3 {
                access_key_id: access_key_id->0,
                secret_access_key: secret_access_key->0,
                session_token: properties::lookup(creds, S3_SESSION_TOKEN@),
            },
        )
    } else if oauth_token is Some {
        Some(KindView::GcsOauth { oauth_token: oauth_token->0 })
    } else if sas_token is Some {
        Some(KindView::AzureSas { sas_token: sas_token->0 })
    } else {
        None
    }
}

/// When a credential expires: as the storage profile says, and never (the
/// largest time there is) where it says nothing.
pub open spec fn expiration(config: TableConfig) -> int {
    match config.credentials_expiration_ms {
        Some(ms) => ms as int,
        None => i64::MAX as int,
    }
}

/// What a vend without a usable credential is told.
pub open spec fn nothing_vended() -> Failure {
    Failure {
        kind: ErrorKind::Internal,
        message:
            "storage profile vended no credential this Delta endpoint can serve (no S3, GCS, or ADLS keys present)"@,
    }
}

/// The credential for a location that a storage profile's answer amounts to.
pub open spec fn credential(url: Seq<char>, config: TableConfig) -> Result<CredentialView, Failure> {
    match credential_kind(config.creds@) {
        Some(kind) => Ok(
            CredentialView { url, expiration_time_ms: expiration(config), kind },
        ),
        None => Err(nothing_vended()),
    }
}

/// The permissions that a credential for this access is scoped to.
pub open spec fn permissions_for(access: CredentialAccess) -> StoragePermissions {
    match access {
        CredentialAccess::Read => StoragePermissions::Read,
        CredentialAccess::ReadWrite => StoragePermissions::ReadWriteDelete,
    }
}

/// The permissions that a credential for this access is scoped to.
pub fn to_storage_permissions(access: CredentialAccess) -> (permissions: StoragePermissions)
    ensures
        permissions == permissions_for(access),
        permissions == StoragePermissions::Read <==> access == CredentialAccess::Read,
{
    match access {
        CredentialAccess::Read => StoragePermissions::Read,
        CredentialAccess::ReadWrite => StoragePermissions::ReadWriteDelete,
    }
}

/// The access mode of every vend: credentials handed to the client, never remote
/// signing.
pub open spec fn vended_mode() -> DataAccessMode {
    DataAccessMode::ServerDelegated(
        DataAccess { vended_credentials: true, remote_signing: false },
    )
}

/// The access mode of every vend: credentials handed to the client, never remote
/// signing.
pub fn vended_data_access() -> (mode: DataAccessMode)
    ensures
        mode == vended_mode(),
        mode matches DataAccessMode::ServerDelegated(access) && access.vended_credentials
            && !access.remote_signing,
{
    DataAccessMode::ServerDelegated(DataAccess { vended_credentials: true, remote_signing: false })
}

/// The ADLS SAS token among vended properties. Its key is scoped to an account,
/// so it is found by prefix, and its expiry companion is passed over.
pub fn adls_sas_token(creds: &TableProperties) -> (token: Option<String>)
    ensures
        optional_text(token) == first_sas_token(creds@),
{
    let entries = creds.inner();
    let mut i: usize = 0;
    assert(creds@.skip(0) =~= creds@);
    while i < entries.len()
        invariant
            i <= entries.len(),
            creds@ == entries@.map_values(|pair: (String, String)| properties::entry_of(pair)),
            first_sas_token(creds@) == first_sas_token(creds@.skip(i as int)),
        decreases entries.len() - i,
    {
        assert(creds@.skip(i as int)[0] == properties::entry_of(entries@[i as int]));
        let key = entries[i].0.as_str();
        if text::starts_with(key, ADLS_SAS_TOKEN_PREFIX) && !text::starts_with(
            key,
            ADLS_SAS_EXPIRY_PREFIX,
        ) {
            return Some(entries[i].1.clone());
        }
        assert(creds@.skip(i as int).skip(1) =~= creds@.skip(i + 1));
        i = i + 1;
    }
    None
}

/// A copy of the value of a property.
fn property(creds: &TableProperties, key: &str) -> (value: Option<String>)
    ensures
        optional_text(value) == properties::lookup(creds@, key@),
{
    match creds.get(key) {
        Some(value) => Some(value.clone()),
        None => None,
    }
}

/// The credential that the properties of a storage profile's answer hold.
///
/// An answer without a recognised credential is a failure: a reply that carried
/// none would leave the client with nothing to use.
pub fn to_vended_credential(url: String, table_config: &TableConfig) -> (res: BackendResult<
    VendedCredential,
>)
    ensures
        error::viewed(res) == credential(url@, *table_config),
        res matches Ok(vended) ==> {
            &&& vended.url@ == url@
            &&& table_config.credentials_expiration_ms matches Some(ms)
                ==> vended.expiration_time_ms == ms
            &&& table_config.credentials_expiration_ms is None ==> vended.expiration_time_ms
                == i64::MAX
        },
{
    let creds = &table_config.creds;
    let expiration_time_ms: i64 = match table_config.credentials_expiration_ms {
        Some(ms) => ms,
        None => i64::MAX,
    };
    let kind = match (property(creds, S3_ACCESS_KEY_ID), property(creds, S3_SECRET_ACCESS_KEY)) {
        (Some(access_key_id), Some(secret_access_key)) => VendedCredentialKind::S3 {
            access_key_id,
            secret_access_key,
            session_token: property(creds, S3_SESSION_TOKEN),
        },
        _ => match property(creds, GCS_TOKEN) {
            Some(oauth_token) => VendedCredentialKind::GcsOauth { oauth_token },
            None => match adls_sas_token(creds) {
                Some(sas_token) => VendedCredentialKind::AzureSas { sas_token },
                None => {
                    return Err(
                        DeltaBackendError::Internal(
                            "storage profile vended no credential this Delta endpoint can serve (no S3, GCS, or ADLS keys present)".to_owned(),
                        ),
                    );
                },
            },
        },
    };
    Ok(VendedCredential { url, expiration_time_ms, kind })
}

/// The expiry companion of a SAS token is never taken for the token: no key
/// begins with both prefixes.
pub proof fn expiry_companion_is_no_token(key: Seq<char>)
    ensures
        ADLS_SAS_EXPIRY_PREFIX@.is_prefix_of(key) ==> !ADLS_SAS_TOKEN_PREFIX@.is_prefix_of(key),
        is_sas_key(key) <==> ADLS_SAS_TOKEN_PREFIX@.is_prefix_of(key),
{
    reveal_strlit("adls.sas-token.");
    reveal_strlit("adls.sas-token-expires-at-ms.");
    assert(ADLS_SAS_TOKEN_PREFIX@[14] == '.');
    assert(ADLS_SAS_EXPIRY_PREFIX@[14] == '-');
    if ADLS_SAS_EXPIRY_PREFIX@.is_prefix_of(key) {
        assert(key[14] == '-');
    }
    if ADLS_SAS_TOKEN_PREFIX@.is_prefix_of(key) {
        assert(key[14] == '.');
    }
}

/// A SAS token that is found is the value of a property that holds one, and one
/// is found wherever there is such a property.
pub proof fn sas_token_is_found(entries: Seq<Entry>)
    ensures
        first_sas_token(entries) matches Some(token) ==> exists|entry: Entry|
            #[trigger] entries.contains(entry) && is_sas_key(entry.key) && entry.value == token,
        first_sas_token(entries) is Some <==> exists|entry: Entry|
            #[trigger] entries.contains(entry) && is_sas_key(entry.key),
    decreases entries.len(),
{
    if entries.len() > 0 {
        let rest = entries.skip(1);
        sas_token_is_found(rest);
        assert(entries.contains(entries[0]));
        assert forall|entry: Entry| #[trigger] rest.contains(entry) implies entries.contains(
            entry,
        ) by {
            assert(entries[rest.index_of(entry) + 1] == entry);
        }
        assert forall|entry: Entry| #[trigger] entries.contains(entry) implies entry == entries[0]
            || rest.contains(entry) by {
            let i = entries.index_of(entry);
            if i > 0 {
                assert(rest[i - 1] == entry);
            }
        }
    }
}

/// A credential is served exactly where the properties hold a complete S3 key
/// pair, a GCS token or an ADLS SAS token.
pub proof fn served_iff_recognised(url: Seq<char>, config: TableConfig)
    ensures
        credential(url, config) is Ok <==> {
            ||| (exists|value: Seq<char>| #[trigger]
                config.creds@.contains(Entry { key: S3_ACCESS_KEY_ID@, value })) && (exists|
                value: Seq<char>,
            | #[trigger]
                config.creds@.contains(Entry { key: S3_SECRET_ACCESS_KEY@, value }))
            ||| exists|value: Seq<char>| #[trigger]
                config.creds@.contains(Entry { key: GCS_TOKEN@, value })
            ||| exists|entry: Entry| #[trigger]
                config.creds@.contains(entry) && ADLS_SAS_TOKEN_PREFIX@.is_prefix_of(entry.key)
        },
{
    let creds = config.creds@;
    properties::lookup_finds_every_key(creds, S3_ACCESS_KEY_ID@);
    properties::lookup_finds_every_key(creds, S3_SECRET_ACCESS_KEY@);
    properties::lookup_finds_every_key(creds, GCS_TOKEN@);
    sas_token_is_found(creds);
    assert forall|entry: Entry| #[trigger] creds.contains(entry) implies (is_sas_key(entry.key)
        <==> ADLS_SAS_TOKEN_PREFIX@.is_prefix_of(entry.key)) by {
        expiry_companion_is_no_token(entry.key);
    }
}

/// Which credential is served does not depend on the order in which the
/// properties are walked, unless several accounts have a SAS token; then only
/// which of the tokens is served does.
pub proof fn credential_ignores_order(a: Seq<Entry>, b: Seq<Entry>)
    requires
        properties::unique_keys(a),
        properties::unique_keys(b),
        properties::same_entries(a, b),
    ensures
        credential_kind(a) is Some <==> credential_kind(b) is Some,
        credential_kind(a) == credential_kind(b) || (credential_kind(a)->0 is AzureSas
            && credential_kind(b)->0 is AzureSas),
        (forall|x: Entry, y: Entry|
            a.contains(x) && a.contains(y) && is_sas_key(x.key) && is_sas_key(y.key) ==> x == y)
            ==> credential_kind(a) == credential_kind(b),
{
    properties::lookup_ignores_order(a, b, S3_ACCESS_KEY_ID@);
    properties::lookup_ignores_order(a, b, S3_SECRET_ACCESS_KEY@);
    properties::lookup_ignores_order(a, b, S3_SESSION_TOKEN@);
    properties::lookup_ignores_order(a, b, GCS_TOKEN@);
    sas_token_is_found(a);
    sas_token_is_found(b);
    assert forall|entry: Entry| #[trigger] b.contains(entry) implies a.contains(entry) by {
        assert(a.contains(entry) <==> b.contains(entry));
    }
}

/// When a vended credential expires is what the storage profile says and nothing
/// else: neither the properties nor the location move it. A credential is told as
/// never expiring exactly where the profile says nothing, or says that very time.
pub proof fn vended_expiry_is_the_profiles(url: Seq<char>, config: TableConfig)
    ensures
        config.credentials_expiration_ms matches Some(ms) ==> expiration(config) == ms,
        expiration(config) == i64::MAX <==> config.credentials_expiration_ms is None
            || config.credentials_expiration_ms == Some(i64::MAX),
        credential(url, config) matches Ok(vended) ==> {
            &&& vended.url == url
            &&& config.credentials_expiration_ms matches Some(ms) ==> vended.expiration_time_ms
                == ms
            &&& vended.expiration_time_ms == i64::MAX <==> config.credentials_expiration_ms is None
                || config.credentials_expiration_ms == Some(i64::MAX)
        },
{
}

/// Of a storage profile's answer, only the credential properties and the expiry
/// count. The properties alone decide whether there is a credential and which; the
/// location and the expiry are carried along.
pub proof fn only_properties_decide_the_credential(
    here: Seq<char>,
    a: TableConfig,
    there: Seq<char>,
    b: TableConfig,
)
    requires
        a.creds@ == b.creds@,
    ensures
        credential(here, a) is Ok <==> credential(there, b) is Ok,
        credential(here, a) is Ok ==> credential(here, a)->Ok_0.kind == credential(
            there,
            b,
        )->Ok_0.kind,
        credential(here, a) is Err ==> credential(here, a) == credential(there, b),
        here == there && a.credentials_expiration_ms == b.credentials_expiration_ms ==> credential(
            here,
            a,
        ) == credential(there, b),
{
}

/// Whether some property has this key.
pub open spec fn holds(creds: Seq<Entry>, key: Seq<char>) -> bool {
    exists|i: int| 0 <= i < creds.len() && (#[trigger] creds[i]).key == key
}

/// Whether a property's key is `key`, its value is `value`, and no property before it
/// has the key.
pub open spec fn gives(creds: Seq<Entry>, key: Seq<char>, value: Seq<char>) -> bool {
    exists|i: int|
        #![trigger creds[i]]
        0 <= i < creds.len() && creds[i].key == key && creds[i].value == value && (forall|j: int|
            0 <= j < i ==> (#[trigger] creds[j]).key != key)
}

/// What it is that properties hold and give: each key is one that some property has,
/// and each value that of a property with the key.
pub proof fn held_keys_are_given_one_value(
    creds: Seq<Entry>,
    key: Seq<char>,
    a: Seq<char>,
    b: Seq<char>,
)
    ensures
        holds(creds, key) <==> exists|value: Seq<char>| #[trigger]
            creds.contains(Entry { key, value }),
        gives(creds, key, a) ==> creds.contains(Entry { key, value: a }),
        gives(creds, key, a) && gives(creds, key, b) ==> a == b,
        properties::unique_keys(creds) ==> (gives(creds, key, a) <==> creds.contains(
            Entry { key, value: a },
        )),
{
    if holds(creds, key) {
        let i = choose|i: int| 0 <= i < creds.len() && (#[trigger] creds[i]).key == key;
        assert(creds[i] == (Entry { key, value: creds[i].value }));
        assert(creds.contains(Entry { key, value: creds[i].value }));
    }
    if exists|value: Seq<char>| #[trigger] creds.contains(Entry { key, value }) {
        let value = choose|value: Seq<char>| #[trigger] creds.contains(Entry { key, value });
        assert(creds[creds.index_of(Entry { key, value })].key == key);
    }
    if gives(creds, key, a) {
        let i = choose|i: int|
            #![trigger creds[i]]
            0 <= i < creds.len() && creds[i].key == key && creds[i].value == a && (forall|j: int|
                0 <= j < i ==> (#[trigger] creds[j]).key != key);
        assert(creds[i] == (Entry { key, value: a }));
    }
    if properties::unique_keys(creds) && creds.contains(Entry { key, value: a }) {
        let i = creds.index_of(Entry { key, value: a });
        assert forall|j: int| 0 <= j < i implies (#[trigger] creds[j]).key != key by {
            assert(creds[j].key != creds[i].key);
        }
        assert(creds[i].key == key && creds[i].value == a);
    }
}

/// A SAS token that is found is the value of the first property whose key begins with
/// the prefix of SAS tokens; where none is found, no key begins so.
pub proof fn first_sas_token_is_the_first(entries: Seq<Entry>)
    ensures
        first_sas_token(entries) matches Some(token) ==> exists|i: int|
            #![trigger entries[i]]
            0 <= i < entries.len() && "adls.sas-token."@.is_prefix_of(entries[i].key)
                && entries[i].value == token && (forall|j: int|
                0 <= j < i ==> !"adls.sas-token."@.is_prefix_of((#[trigger] entries[j]).key)),
        first_sas_token(entries) is None ==> forall|i: int|
            0 <= i < entries.len() ==> !"adls.sas-token."@.is_prefix_of(
                (#[trigger] entries[i]).key,
            ),
    decreases entries.len(),
{
    if entries.len() > 0 {
        expiry_companion_is_no_token(entries[0].key);
        let prefix = "adls.sas-token."@;
        if !prefix.is_prefix_of(entries[0].key) {
            let rest = entries.skip(1);
            first_sas_token_is_the_first(rest);
            if first_sas_token(rest) is Some {
                let token = first_sas_token(rest)->0;
                let i = choose|i: int|
                    #![trigger rest[i]]
                    0 <= i < rest.len() && prefix.is_prefix_of(rest[i].key) && rest[i].value
                        == token && (forall|j: int|
                        0 <= j < i ==> !prefix.is_prefix_of((#[trigger] rest[j]).key));
                assert(entries[i + 1] == rest[i]);
                assert forall|j: int| 0 <= j < i + 1 implies !prefix.is_prefix_of(
                    (#[trigger] entries[j]).key,
                ) by {
                    if j > 0 {
                        assert(entries[j] == rest[j - 1]);
                    }
                }
            } else {
                assert forall|j: int| 0 <= j < entries.len() implies !prefix.is_prefix_of(
                    (#[trigger] entries[j]).key,
                ) by {
                    if j > 0 {
                        assert(entries[j] == rest[j - 1]);
                    }
                }
            }
        }
    }
}

/// Which credential is served follows from which keys the properties have, and all
/// its parts are values of those very keys. A complete S3 pair is served as such,
/// with the session token that is there, if any; without one, a GCS token is; without
/// either, the SAS token of the first account is. Otherwise there is nothing to serve,
/// and that is told as a failure of the server.
pub proof fn credentials_are_made_of_the_properties(url: Seq<char>, config: TableConfig)
    ensures
        ({
            let creds = config.creds@;
            let pair = holds(creds, "s3.access-key-id"@) && holds(creds, "s3.secret-access-key"@);
            let oauth = holds(creds, "gcs.oauth2.token"@);
            match credential(url, config) {
                Ok(vended) => match vended.kind {
                    KindView::S3 { access_key_id, secret_access_key, session_token } => {
                        &&& pair
                        &&& gives(creds, "s3.access-key-id"@, access_key_id)
                        &&& gives(creds, "s3.secret-access-key"@, secret_access_key)
                        &&& match session_token {
                            Some(token) => gives(creds, "s3.session-token"@, token),
                            None => !holds(creds, "s3.session-token"@),
                        }
                    },
                    KindView::GcsOauth { oauth_token } => {
                        &&& !pair
                        &&& gives(creds, "gcs.oauth2.token"@, oauth_token)
                    },
                    KindView::AzureSas { sas_token } => {
                        &&& !pair && !oauth
                        &&& exists|i: int|
                            #![trigger creds[i]]
                            0 <= i < creds.len() && "adls.sas-token."@.is_prefix_of(creds[i].key)
                                && creds[i].value == sas_token && (forall|j: int|
                                0 <= j < i ==> !"adls.sas-token."@.is_prefix_of(
                                    (#[trigger] creds[j]).key,
                                ))
                    },
                },
                Err(failure) => {
                    &&& !pair && !oauth
                    &&& forall|i: int|
                        0 <= i < creds.len() ==> !"adls.sas-token."@.is_prefix_of(
                            (#[trigger] creds[i]).key,
                        )
                    &&& failure.kind is Internal
                    &&& failure.message
                        == "storage profile vended no credential this Delta endpoint can serve (no S3, GCS, or ADLS keys present)"@
                },
            }
        }),
{
    let creds = config.creds@;
    properties::lookup_takes_the_first(creds, "s3.access-key-id"@);
    properties::lookup_takes_the_first(creds, "s3.secret-access-key"@);
    properties::lookup_takes_the_first(creds, "s3.session-token"@);
    properties::lookup_takes_the_first(creds, "gcs.oauth2.token"@);
    first_sas_token_is_the_first(creds);
}

/// A credential says exactly what it holds: its location, its expiry, which kind it is
/// and all the texts of that kind.
pub proof fn credentials_say_what_they_hold(credential: VendedCredential)
    ensures
        credential@.url == credential.url@,
        credential@.expiration_time_ms == credential.expiration_time_ms,
        match credential.kind {
            VendedCredentialKind::S3 { access_key_id, secret_access_key, session_token } => {
                &&& credential@.kind matches KindView::S3 {
                    access_key_id: id,
                    secret_access_key: secret,
                    session_token: session,
                }
                &&& id == access_key_id@
                &&& secret == secret_access_key@
                &&& session is Some <==> session_token is Some
                &&& session_token matches Some(token) ==> session->0 == token@
            },
            VendedCredentialKind::GcsOauth { oauth_token } => credential@.kind
                == (KindView::GcsOauth { oauth_token: oauth_token@ }),
            VendedCredentialKind::AzureSas { sas_token } => credential@.kind
                == (KindView::AzureSas { sas_token: sas_token@ }),
        },
{
}

/// A credential can be written with exactly where that was asked for, and no vend is
/// ever signed remotely.
pub proof fn vends_are_scoped_as_asked(access: CredentialAccess)
    ensures
        permissions_for(access) == StoragePermissions::Read <==> access == CredentialAccess::Read,
        permissions_for(access) == StoragePermissions::ReadWriteDelete <==> access
            == CredentialAccess::ReadWrite,
        vended_mode() matches DataAccessMode::ServerDelegated(mode) && mode.vended_credentials
            && !mode.remote_signing,
{
}

} // verus!
