use offchain::canonical::u64_to_dec;
use offchain::config::Config;
use offchain::config::Environment;
use offchain::errors::StageError;
use offchain::identity::generate_did;
use offchain::storage::gateway_url_for;
use offchain::storage::IpfsConfig;
use offchain::storage::IpfsPinRequest;
use offchain::storage::IpfsPinResponse;
use offchain::storage::IpfsUploadResponse;

#[test]
fn environment_parsing_ignores_case_and_falls_back_to_development() {
    assert!(Environment::from_str("PRODUCTION").is_production());
    assert!(Environment::from_str("prod").is_production());
    assert!(Environment::from_str("Test").is_test());
    assert!(Environment::from_str("development").is_development());
    assert!(Environment::from_str("anything-else").is_development());
    assert!(Environment::from_str("").is_development());
}

#[test]
fn environment_predicates_are_exclusive() {
    let e = Environment::from_str("prod");
    assert!(e.is_production());
    assert!(!e.is_development());
    assert!(!e.is_test());
}

#[test]
fn address_joins_host_and_decimal_port() {
    let config = Config { port: 8080, host: "127.0.0.1".to_string(), environment: Environment::Test };
    assert_eq!(config.address(), "127.0.0.1:8080");
}

#[test]
fn default_config_listens_on_every_interface() {
    let config = Config::default();
    assert_eq!(config.address(), "0.0.0.0:3000");
    assert!(config.environment.is_development());
}

#[test]
fn decimal_rendering_handles_edges() {
    assert_eq!(u64_to_dec(0), "0");
    assert_eq!(u64_to_dec(7), "7");
    assert_eq!(u64_to_dec(10), "10");
    assert_eq!(u64_to_dec(65535), "65535");
    assert_eq!(u64_to_dec(u64::MAX), "18446744073709551615");
}

#[test]
fn generated_dids_carry_the_prefix_and_a_fresh_token() {
    let did = generate_did("farmer");
    assert!(did.starts_with("did:farmer:"));
    assert_eq!(did.len(), "did:farmer:".len() + 36);
    assert_ne!(did, generate_did("farmer"));
}

#[test]
fn gateway_url_wraps_the_content_address() {
    assert_eq!(gateway_url_for("Qm123"), "https://ipfs.io/ipfs/Qm123");
}

#[test]
fn upload_receipt_reports_the_pin_decision() {
    let r = IpfsUploadResponse::new("Qm1".to_string(), 42, true);
    assert_eq!(r.cid, "Qm1");
    assert_eq!(r.size, 42);
    assert!(r.pinned);
    let unpinned = IpfsUploadResponse::new("Qm2".to_string(), 7, false);
    assert!(!unpinned.pinned);
}

#[test]
fn pin_types_round_trip_their_fields() {
    let request = IpfsPinRequest { cid: "Qm1".to_string() };
    let response = IpfsPinResponse { cid: request.cid.clone(), pinned: true };
    assert_eq!(response.cid, "Qm1");
    assert!(response.pinned);
}

#[test]
fn storage_auth_needs_both_credential_halves() {
    let both = IpfsConfig {
        api_url: "http://127.0.0.1:5001".to_string(),
        project_id: Some("id".to_string()),
        project_secret: Some("SECRET-REDACTED".to_string()),
    };
    assert!(both.has_auth());
    let half = IpfsConfig {
        api_url: "http://127.0.0.1:5001".to_string(),
        project_id: Some("id".to_string()),
        project_secret: None,
    };
    assert!(!half.has_auth());
}

#[test]
fn stage_errors_carry_their_messages() {
    let e = StageError::Validation("field missing".to_string());
    assert_eq!(e.message(), "field missing");
    assert!(e.is_validation());
    assert!(!e.is_storage_unavailable());
    let p = StageError::PinFailed("quota".to_string());
    assert!(p.is_pin_failed());
    assert_eq!(p.message(), "quota");
    let n = StageError::NotFound("no such address".to_string());
    assert_eq!(n.message(), "no such address");
    let s = StageError::Serialization("defect".to_string());
    assert_eq!(s.message(), "defect");
    let u = StageError::StorageUnavailable("down".to_string());
    assert!(u.is_storage_unavailable());
}
