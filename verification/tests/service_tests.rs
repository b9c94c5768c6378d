use agnx::build_info::BUILD_DATE;
use agnx::build_info::BuildInfo;
use agnx::build_info::COMMIT;
use agnx::build_info::VERSION;
use agnx::build_info::version_string;
use agnx::handlers;

#[test]
fn test_build_info_new() {
    let info = BuildInfo::new();
    assert!(!info.version.is_empty());
    assert!(!info.commit.is_empty());
    assert!(!info.build_date.is_empty());
}

#[test]
fn test_build_info_default() {
    let info = BuildInfo::default();
    assert_eq!(info.version, VERSION);
    assert_eq!(info.commit, COMMIT);
    assert_eq!(info.build_date, BUILD_DATE);
}

#[test]
fn test_version_string_format() {
    let s = version_string();
    assert!(s.contains(VERSION));
    assert!(s.contains("commit:"));
    assert!(s.contains("built:"));
}

#[test]
fn test_livez() {
    let (status, body) = handlers::livez();
    assert_eq!(status, 200);
    assert_eq!(body, "ok");
}

#[test]
fn test_readyz() {
    let (status, body) = handlers::readyz();
    assert_eq!(status, 200);
    assert_eq!(body, "ok");
}

#[test]
fn test_version_handler_fields_nonempty() {
    let info = handlers::version();
    assert!(!info.version.is_empty());
    assert!(!info.commit.is_empty());
    assert!(!info.build_date.is_empty());
}

#[test]
fn test_list_agents_is_empty() {
    let r = handlers::list_agents();
    assert!(r.agents.is_empty());
}

#[test]
fn test_example_handlers() {
    let bad = handlers::example_bad_request();
    assert_eq!(bad.status, 400);
    assert_eq!(bad.detail, Some("{\"message\":\"example bad request\"}".to_string()));

    let missing = handlers::example_not_found();
    assert_eq!(missing.status, 404);
    assert_eq!(missing.instance, Some("/example-not-found".to_string()));

    let fault = handlers::example_internal_error();
    assert_eq!(fault.status, 500);
    assert_eq!(fault.instance, Some("/example-internal-error".to_string()));
}
