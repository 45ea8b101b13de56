use deployer::types::{ClientType, DeployMeta, DeployType, FileSummary};

#[test]
fn test_derive_deploy_type() {
    let mut meta = DeployMeta {
        source: Some("generator-next".to_owned()),
        ..Default::default()
    };

    meta.derive_deploy_type_from_source();

    assert!(meta.deploy_type == DeployType::CloudflareFunction);

    let mut meta = DeployMeta {
        source: Some("generator-v2".to_owned()),
        ..Default::default()
    };

    meta.derive_deploy_type_from_source();

    assert!(meta.deploy_type == DeployType::CloudflareFunction);

    let mut meta = DeployMeta {
        source: Some("generator".to_owned()),
        ..Default::default()
    };

    meta.derive_deploy_type_from_source();

    assert!(meta.deploy_type == DeployType::Static);

    let mut meta = DeployMeta {
        source: Some("generator".to_owned()),
        deploy_type: DeployType::CloudflareFunction,
        ..Default::default()
    };

    meta.derive_deploy_type_from_source();

    assert!(meta.deploy_type == DeployType::CloudflareFunction);
}

#[test]
fn derive_deploy_type_without_source() {
    let mut meta = DeployMeta::default();
    meta.derive_deploy_type_from_source();
    assert!(meta.deploy_type == DeployType::Static);

    let mut meta = DeployMeta {
        deploy_type: DeployType::CloudflareFunction,
        ..Default::default()
    };
    meta.derive_deploy_type_from_source();
    assert!(meta.deploy_type == DeployType::CloudflareFunction);
}

#[test]
fn deploy_type_from_label() {
    assert_eq!(DeployType::from("static".to_owned()), DeployType::Static);
    assert_eq!(
        DeployType::from("cloudflare_function".to_owned()),
        DeployType::CloudflareFunction
    );
    assert_eq!(DeployType::from("whatever".to_owned()), DeployType::Static);
}

#[test]
fn client_type_from_first_character() {
    let meta = |id: &str| DeployMeta {
        client_id: id.to_owned(),
        ..Default::default()
    };
    assert_eq!(meta("P1").client_type(), ClientType::Production);
    assert_eq!(meta("S1").client_type(), ClientType::Staging);
    assert_eq!(meta("D1").client_type(), ClientType::Development);
    assert_eq!(meta("X1").client_type(), ClientType::Unknown);
    assert_eq!(meta("").client_type(), ClientType::Unknown);
}

#[test]
fn api_base_per_environment() {
    assert_eq!(
        ClientType::Production.api_base(),
        Some("https://api.stori.press")
    );
    assert_eq!(
        ClientType::Staging.api_base(),
        Some("https://api.storipress.pro")
    );
    assert_eq!(
        ClientType::Development.api_base(),
        Some("https://api.storipress.dev")
    );
    assert_eq!(ClientType::Unknown.api_base(), None);
}

#[test]
fn api_host_for_known_and_unknown_clients() {
    let meta = DeployMeta {
        client_id: "P7".to_owned(),
        ..Default::default()
    };
    assert_eq!(
        meta.api_host().unwrap(),
        "https://api.stori.press/client/P7/graphql"
    );

    let meta = DeployMeta {
        client_id: "Q7".to_owned(),
        ..Default::default()
    };
    assert!(meta.api_host().is_err());
}

#[test]
fn token_defaults_to_empty() {
    let meta = DeployMeta::default();
    assert_eq!(meta.token(), "");
    let meta = DeployMeta {
        token: Some("abc123".to_owned()),
        ..Default::default()
    };
    assert_eq!(meta.token(), "abc123");
}

#[test]
fn is_static_follows_variant() {
    let meta = DeployMeta::default();
    assert!(meta.is_static());
    let meta = DeployMeta {
        deploy_type: DeployType::CloudflareFunction,
        ..Default::default()
    };
    assert!(!meta.is_static());
}

#[test]
fn cloudflare_page_url_lowercases_client() {
    let meta = DeployMeta {
        client_id: "PClient".to_owned(),
        page_id: "mypage".to_owned(),
        ..Default::default()
    };
    assert_eq!(meta.cloudflare_page_url(), "https://pclient.mypage.pages.dev");
}

#[test]
fn file_summary_total_sums_fields() {
    let summary = FileSummary {
        ignored: 3,
        removed_fail: 1,
        removed_success: 2,
    };
    assert_eq!(summary.total(), 6);
}
