use sidecar_supervisor::interface::{build_init_script, startup_script};
use sidecar_supervisor::shell::{
    build_command_line, build_direct_args, build_shell_args, decimal_string, get_shell_flags,
    get_user_shell, is_fish_shell, plan_launch, LaunchStrategy,
};

#[test]
fn fish_is_recognised() {
    assert!(is_fish_shell("fish"));
    assert!(is_fish_shell("/usr/bin/fish"));
    assert!(is_fish_shell("/opt/homebrew/bin/fish"));
    assert!(!is_fish_shell("/bin/bash"));
    assert!(!is_fish_shell("/usr/bin/zsh"));
    assert!(!is_fish_shell("/bin/catfish"));
    assert!(!is_fish_shell("fis"));
    assert!(!is_fish_shell(""));
}

#[test]
fn shell_flags_by_family() {
    assert_eq!(get_shell_flags("/usr/bin/fish"), vec!["-l", "-c"]);
    assert_eq!(get_shell_flags("/bin/zsh"), vec!["-il", "-c"]);
    assert_eq!(get_shell_flags("/bin/sh"), vec!["-il", "-c"]);
}

#[test]
fn user_shell_defaults_to_posix() {
    assert_eq!(get_user_shell(None), "/bin/sh");
    assert_eq!(get_user_shell(Some("/bin/zsh".to_string())), "/bin/zsh");
}

#[test]
fn decimal_rendering() {
    assert_eq!(decimal_string(0), "0");
    assert_eq!(decimal_string(7), "7");
    assert_eq!(decimal_string(4096), "4096");
    assert_eq!(decimal_string(u32::MAX), "4294967295");
}

#[test]
fn command_line_quotes_repo() {
    assert_eq!(
        build_command_line("/app/opentui-git-server", 4096, "/home/u/my repo"),
        "/app/opentui-git-server --port 4096 --repo \"/home/u/my repo\""
    );
}

#[test]
fn direct_and_shell_arguments() {
    assert_eq!(build_direct_args(5000, "/r"), vec!["--port", "5000", "--repo", "/r"]);
    assert_eq!(
        build_shell_args("/usr/bin/fish", "/x/srv", 1, "/r"),
        vec!["-l", "-c", "/x/srv --port 1 --repo \"/r\""]
    );
    assert_eq!(
        build_shell_args("/bin/bash", "/x/srv", 1, "/r"),
        vec!["-il", "-c", "/x/srv --port 1 --repo \"/r\""]
    );
}

#[test]
fn launch_plans() {
    let d = plan_launch(LaunchStrategy::Direct, "/bin/bash", "srv", 9, "/r");
    assert_eq!(d.program, "srv");
    assert_eq!(d.args, vec!["--port", "9", "--repo", "/r"]);
    let v = plan_launch(LaunchStrategy::ViaShell, "/bin/bash", "/a/srv", 9, "/r");
    assert_eq!(v.program, "/bin/bash");
    assert_eq!(v.args, vec!["-il", "-c", "/a/srv --port 9 --repo \"/r\""]);
}

#[test]
fn init_script_injects_port_and_path() {
    assert_eq!(
        build_init_script(4096, "\"/r\""),
        "window.__OPENTUI__ = window.__OPENTUI__ || {};\nwindow.__OPENTUI__.port = 4096;\nwindow.__OPENTUI__.repoPath = \"/r\";\n"
    );
}

#[test]
fn startup_script_encodes_path_as_json() {
    assert_eq!(
        startup_script(80, "C:\\repo \"x\""),
        "window.__OPENTUI__ = window.__OPENTUI__ || {};\nwindow.__OPENTUI__.port = 80;\nwindow.__OPENTUI__.repoPath = \"C:\\\\repo \\\"x\\\"\";\n"
    );
}

#[test]
fn startup_script_escapes_control_characters() {
    let script = startup_script(1, "a\tb\nc\u{1}d\u{1f}\u{8}\u{c}\r/é");
    assert!(script.contains(
        "window.__OPENTUI__.repoPath = \"a\\tb\\nc\\u0001d\\u001f\\b\\f\\r/é\";\n"
    ));
}
