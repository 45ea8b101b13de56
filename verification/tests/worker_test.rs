use deployer::api::{should_report, GetSite, ReleaseState, UpdateRelease};
use deployer::check_version::CheckVersion;
use deployer::errors::ProcessFileError;
use deployer::health_check::{HealthCheck, HealthCheckInner};
use deployer::lambda_env::LambdaEnv;
use deployer::strutil::{bytes_end_with, bytes_start_with, str_eq};
use deployer::types::DeployMeta;
use deployer::wrangler::{
    build_deploy_args, classify_deploy_wait, cleanup_action, deploy_timeout_secs, CleanupAction,
    DeployWait,
};

#[test]
fn deploy_args_follow_the_tool_contract() {
    let args = build_deploy_args("mypage", "PClient", "dist");
    assert_eq!(
        args,
        vec![
            "pages",
            "deploy",
            "--project-name",
            "mypage",
            "--branch",
            "PClient",
            "dist"
        ]
    );
}

#[test]
fn deploy_budget_depends_on_variant() {
    assert_eq!(deploy_timeout_secs(true), 3600);
    assert_eq!(deploy_timeout_secs(false), 1200);
}

#[test]
fn deploy_exit_classification() {
    assert!(classify_deploy_wait(DeployWait::Exited { success: true, code: Some(0) }).is_ok());
    assert!(matches!(
        classify_deploy_wait(DeployWait::Exited { success: false, code: Some(3) }),
        Err(ProcessFileError::DeployFail(Some(3)))
    ));
    assert!(matches!(
        classify_deploy_wait(DeployWait::Exited { success: false, code: None }),
        Err(ProcessFileError::DeployFail(None))
    ));
    assert!(matches!(
        classify_deploy_wait(DeployWait::TimedOut),
        Err(ProcessFileError::WranglerTimeout)
    ));
}

#[test]
fn cleanup_rules_for_scratch_root() {
    assert_eq!(cleanup_action(b"bundle.mjs", false), CleanupAction::RemoveFile);
    assert_eq!(cleanup_action(b"bundle.map", false), CleanupAction::RemoveFile);
    assert_eq!(cleanup_action(b"tmp-12345", true), CleanupAction::RemoveDir);
    assert_eq!(cleanup_action(b"tmp-12345", false), CleanupAction::Keep);
    assert_eq!(cleanup_action(b"index.html", false), CleanupAction::Keep);
    assert_eq!(cleanup_action(b"important", true), CleanupAction::Keep);
}

#[test]
fn version_probe_matches_release() {
    let meta = DeployMeta {
        client_id: "PC".to_owned(),
        page_id: "page".to_owned(),
        release_id: "rel-1".to_owned(),
        ..Default::default()
    };
    let checker = CheckVersion::new(&meta);
    assert_eq!(
        checker.url,
        "https://pc.page.pages.dev/api/_storipress/version"
    );
    assert!(checker.version_matches("rel-1"));
    assert!(!checker.version_matches("rel-2"));
}

#[test]
fn release_reporting_skips_empty_identifier() {
    assert!(!should_report(""));
    assert!(should_report("rel-1"));
}

#[test]
fn update_release_request_carries_id_and_state() {
    let meta = DeployMeta {
        release_id: "rel-9".to_owned(),
        ..Default::default()
    };
    let op = UpdateRelease::new(ReleaseState::Done);
    assert_eq!(op.name(), "updateRelease");
    let vars = op.request(&meta);
    assert_eq!(vars.input.id, "rel-9");
    assert!(matches!(vars.input.state, ReleaseState::Done));

    assert_eq!(GetSite::new().name(), "getSite");
}

#[test]
fn lambda_env_needs_function_name() {
    assert!(LambdaEnv::from_parts(None, Some(128), None, None, None).is_none());
    let env = LambdaEnv::from_parts(
        Some("worker".to_owned()),
        Some(128),
        Some("7".to_owned()),
        None,
        None,
    )
    .unwrap();
    assert_eq!(env.function_name.as_deref(), Some("worker"));
    assert_eq!(env.memory, Some(128));
    assert_eq!(env.version.as_deref(), Some("7"));
    assert!(env.log_stream.is_none());
}

#[test]
fn health_check_finishes_only_when_started() {
    let started = HealthCheck::new("id-1".to_owned(), Some(HealthCheckInner(42)));
    assert!(started.should_finish());
    let not_started = HealthCheck::new("id-2".to_owned(), None);
    assert!(!not_started.should_finish());
}

#[test]
fn string_helpers() {
    assert!(str_eq("abc", "abc"));
    assert!(!str_eq("abc", "abd"));
    assert!(!str_eq("abc", "ab"));
    assert!(bytes_end_with(b"name.tar.br", b".br"));
    assert!(!bytes_end_with(b"name.tar.br", b".tar"));
    assert!(bytes_start_with(b"tmp-x", b"tmp-"));
    assert!(!bytes_start_with(b"atmp-x", b"tmp-"));
}
