use sidecar_supervisor::endpoint::{get_sidecar_port, parse_port};
use sidecar_supervisor::repo_path::{choose_repo_path, get_repo_path};

fn s(v: &str) -> Option<String> {
    Some(v.to_string())
}

#[test]
fn parse_port_reads_decimal() {
    assert_eq!(parse_port("4096"), Some(4096));
    assert_eq!(parse_port("+80"), Some(80));
    assert_eq!(parse_port("0"), Some(0));
    assert_eq!(parse_port("65535"), Some(65535));
    assert_eq!(parse_port("+065535"), Some(65535));
}

#[test]
fn parse_port_rejects_malformed() {
    assert_eq!(parse_port(""), None);
    assert_eq!(parse_port("+"), None);
    assert_eq!(parse_port("-1"), None);
    assert_eq!(parse_port("12a"), None);
    assert_eq!(parse_port(" 80"), None);
    assert_eq!(parse_port("65536"), None);
    assert_eq!(parse_port("70000"), None);
    assert_eq!(parse_port("4294967295"), None);
    assert_eq!(parse_port("4294967296"), None);
    assert_eq!(parse_port("99999999999999999999"), None);
}

#[test]
fn valid_override_is_used_as_is() {
    assert_eq!(get_sidecar_port(Some("4096"), Some(51000)), Some(4096));
    assert_eq!(get_sidecar_port(Some("1"), None), Some(1));
}

#[test]
fn unparsable_override_falls_back_to_ephemeral() {
    assert_eq!(get_sidecar_port(Some("abc"), Some(51000)), Some(51000));
    assert_eq!(get_sidecar_port(None, Some(40000)), Some(40000));
    assert_eq!(get_sidecar_port(Some("70000"), Some(51000)), Some(51000));
    assert_eq!(get_sidecar_port(Some("70000"), None), None);
}

#[test]
fn no_port_at_all_is_fatal() {
    assert_eq!(get_sidecar_port(Some("x"), None), None);
    assert_eq!(get_sidecar_port(None, None), None);
}

#[test]
fn repo_path_fallback_order() {
    assert_eq!(get_repo_path(s("/o"), s("/m"), s("/cwd")), s("/o"));
    assert_eq!(get_repo_path(s("/o"), None, s("/cwd")), s("/o"));
    assert_eq!(get_repo_path(None, s("/m"), s("/cwd")), s("/m"));
    assert_eq!(get_repo_path(s(""), s("/m"), s("/cwd")), s("/m"));
    assert_eq!(get_repo_path(None, None, s("/cwd")), s("/cwd"));
    assert_eq!(get_repo_path(s(""), s(""), s("/cwd")), s("/cwd"));
}

#[test]
fn repo_path_marker_is_trimmed() {
    assert_eq!(get_repo_path(None, s("  /repo/x \n"), s("/cwd")), s("/repo/x"));
    assert_eq!(get_repo_path(None, s(" \n\t"), s("/cwd")), s("/cwd"));
}

#[test]
fn repo_path_never_empty() {
    assert_eq!(get_repo_path(None, None, None), None);
    assert_eq!(get_repo_path(s(""), s("   "), s("")), None);
    assert_eq!(choose_repo_path(None, None, s(".")), s("."));
}
