use ci_relay::error::{DbError, ServiceError};
use ci_relay::session::{
    inspect_request_metadata, insert_empty_extension, Session, SessionContainer, SessionLayer,
    UnknownTokenPolicy,
};
use ci_relay::status::DeployStatus;
use ci_relay::store::{RepoRecord, Store};
use ci_relay::telemetry::{capture_error, capture_fatal, capture_warning, CaptureLevel};
use ci_relay::token::{is_valid_token, new_repo_token};

fn store_with_repo(id: &str) -> Store {
    let mut store = Store::new();
    store
        .insert_repo(RepoRecord {
            id: id.to_string(),
            name: "Foo".to_string(),
            status: DeployStatus::Running,
            message_id: 42,
        })
        .unwrap();
    store
}

const TOKEN: &str = "0123456789abcdef0123456789abcdef";

#[test]
fn session_round_trip_valid_token() {
    let store = store_with_repo(TOKEN);
    let r = inspect_request_metadata(
        &store,
        Some(TOKEN.as_bytes()),
        UnknownTokenPolicy::EmptyIdentity,
    );
    match r {
        Ok(SessionContainer(Some(Session { sid }))) => assert_eq!(sid, TOKEN),
        other => panic!("expected a resolved identity, got {:?}", other),
    }
}

#[test]
fn session_no_header_resolves_empty_identity() {
    let store = store_with_repo(TOKEN);
    let r = inspect_request_metadata(&store, None, UnknownTokenPolicy::EmptyIdentity);
    assert_eq!(r, Ok(SessionContainer(None)));
}

#[test]
fn session_malformed_header_is_credential_parse_error() {
    let store = store_with_repo(TOKEN);
    let r = inspect_request_metadata(
        &store,
        Some(&[0x01, 0x41, 0x42]),
        UnknownTokenPolicy::EmptyIdentity,
    );
    match r {
        Err(ServiceError::CredentialParseError(_)) => {}
        other => panic!("expected a credential parse failure, got {:?}", other),
    }
}

#[test]
fn session_unknown_token_policy_empty_identity() {
    let store = store_with_repo(TOKEN);
    let r = inspect_request_metadata(
        &store,
        Some(b"ffffffffffffffffffffffffffffffff".as_slice()),
        UnknownTokenPolicy::EmptyIdentity,
    );
    assert_eq!(r, Ok(SessionContainer(None)));
}

#[test]
fn session_unknown_token_policy_hard_failure() {
    let store = store_with_repo(TOKEN);
    let r = inspect_request_metadata(
        &store,
        Some(b"ffffffffffffffffffffffffffffffff".as_slice()),
        UnknownTokenPolicy::HardFailure,
    );
    assert_eq!(r, Err(ServiceError::Sqlx(DbError::RowNotFound)));
}

#[test]
fn session_stored_id_must_be_token_shaped() {
    let store = store_with_repo("not-a-token");
    let r = inspect_request_metadata(
        &store,
        Some(b"not-a-token".as_slice()),
        UnknownTokenPolicy::EmptyIdentity,
    );
    match r {
        Err(ServiceError::Uuid(_)) => {}
        other => panic!("expected a token-shape failure, got {:?}", other),
    }
}

#[test]
fn empty_extension_insert_is_idempotent() {
    let mut slot: Option<SessionContainer> = None;
    insert_empty_extension(&mut slot);
    assert_eq!(slot, Some(SessionContainer(None)));
    let resolved = Some(SessionContainer(Some(Session { sid: TOKEN.to_string() })));
    let mut slot2 = resolved.clone();
    insert_empty_extension(&mut slot2);
    assert_eq!(slot2, resolved);
}

#[test]
fn session_layer_wraps_inner() {
    let mw = SessionLayer.layer(7u32);
    assert_eq!(mw.inner, 7u32);
}

#[test]
fn fresh_token_is_32_lowercase_hex() {
    let t = new_repo_token();
    assert_eq!(t.chars().count(), 32);
    assert!(t
        .chars()
        .all(|c| c.is_ascii_digit() || ('a'..='f').contains(&c)));
    assert!(is_valid_token(&t));
    assert!(!is_valid_token("xyz"));
    let other = new_repo_token();
    assert!(t != other, "two fresh tokens should differ");
}

#[test]
fn duplicate_repo_id_violates_primary_key() {
    let mut store = store_with_repo(TOKEN);
    let r = store.insert_repo(RepoRecord {
        id: TOKEN.to_string(),
        name: "Bar".to_string(),
        status: DeployStatus::Idle,
        message_id: 1,
    });
    match r {
        Err(ServiceError::Sqlx(DbError::Database { code, message })) => {
            assert_eq!(code.as_deref(), Some("1555"));
            assert!(message.contains("UNIQUE"));
        }
        other => panic!("expected a primary-key violation, got {:?}", other),
    }
    assert_eq!(store.repos.len(), 1);
}

#[test]
fn error_codes_match_taxonomy() {
    assert_eq!(ServiceError::BadCredential.get_code(), 401);
    assert_eq!(ServiceError::Sqlx(DbError::RowNotFound).get_code(), 404);
    assert_eq!(
        ServiceError::Sqlx(DbError::Database { code: None, message: String::new() }).get_code(),
        400
    );
    assert_eq!(ServiceError::Sqlx(DbError::Other("x".to_string())).get_code(), 500);
    assert_eq!(ServiceError::MiddlewareNotSet("sqlite_pool".to_string()).get_code(), 500);
    assert_eq!(ServiceError::ConfigNotSet.get_code(), 500);
    assert_eq!(ServiceError::ParseMessage("m".to_string()).get_code(), 500);
    assert_eq!(ServiceError::ParseInt("m".to_string()).get_code(), 422);
    assert_eq!(ServiceError::ParseUtf8("m".to_string()).get_code(), 422);
    assert_eq!(ServiceError::CredentialParseError("m".to_string()).get_code(), 422);
    assert_eq!(ServiceError::Rejected("m".to_string()).get_code(), 403);
    assert_eq!(ServiceError::Uuid("m".to_string()).get_code(), 422);
    assert_eq!(
        ServiceError::TryFrom {
            field: "status".to_string(),
            from: "X".to_string(),
            into: "DeployStatus".to_string(),
            expect: "codes".to_string(),
        }
        .get_code(),
        400
    );
    assert_eq!(ServiceError::EmptySliceIndex(3).get_code(), 400);
    assert_eq!(ServiceError::ClientTimeout.get_code(), 408);
    assert_eq!(ServiceError::HttpHeaderNotFound.get_code(), 417);
    assert_eq!(ServiceError::TeloxideError("m".to_string()).get_code(), 500);
    assert_eq!(ServiceError::ServerError("m".to_string()).get_code(), 500);
}

#[test]
fn status_codes_round_trip() {
    for status in [
        DeployStatus::Running,
        DeployStatus::Cancelled,
        DeployStatus::Success,
        DeployStatus::Failure,
        DeployStatus::Idle,
    ] {
        let code = status.code_string();
        assert_eq!(DeployStatus::try_from_str(&code), Ok(status));
    }
    assert_eq!(DeployStatus::try_from_str("RUNNING"), Ok(DeployStatus::Running));
}

#[test]
fn status_unknown_code_is_conversion_failure() {
    match DeployStatus::try_from_str("BANANA") {
        Err(ServiceError::TryFrom { field, from, into, expect }) => {
            assert_eq!(field, "status");
            assert_eq!(from, "BANANA");
            assert_eq!(into, "DeployStatus");
            assert!(expect.contains("RUNNING"));
        }
        other => panic!("expected a conversion failure, got {:?}", other),
    }
}

#[test]
fn capture_levels() {
    let w = capture_warning("w");
    assert_eq!(w.level, CaptureLevel::Warning);
    assert_eq!(w.text, "w");
    let e = capture_error("e");
    assert_eq!(e.level, CaptureLevel::Error);
    assert_eq!(e.text, "e");
    let f = capture_fatal("f");
    assert_eq!(f.level, CaptureLevel::Fatal);
    assert_eq!(f.text, "f");
}
