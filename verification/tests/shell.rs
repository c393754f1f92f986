use oko_desktop::error::SupervisorError;
use oko_desktop::layout::{
    app_config_dir, backend_pid_file, default_dashboard_template_candidates,
    dev_backend_script_candidates, embedded_backend_binary_candidates, runtime_profile_path,
    user_runtime_dir,
};
use oko_desktop::menu::{emit_action, handle_menu_action, MenuAction};
use oko_desktop::platform::ensure_apple_silicon;

fn texts(items: &[&str]) -> Vec<String> {
    items.iter().map(|s| s.to_string()).collect()
}

#[test]
fn apple_silicon_is_the_only_platform() {
    assert_eq!(ensure_apple_silicon(true, true), Ok(()));
    for (is_macos, is_aarch64) in [(true, false), (false, true), (false, false)] {
        let refused = ensure_apple_silicon(is_macos, is_aarch64);
        assert_eq!(refused, Err(SupervisorError::UnsupportedPlatform));
        assert_eq!(
            refused.unwrap_err().message(),
            "This desktop target is configured only for macOS Apple Silicon (aarch64)."
        );
    }
}

#[test]
fn menu_entries_lead_to_their_actions() {
    assert_eq!(handle_menu_action("oko_show"), MenuAction::ShowMainWindow);
    assert_eq!(handle_menu_action("oko_open_search"), MenuAction::OpenSearch);
    assert_eq!(handle_menu_action("oko_open_settings"), MenuAction::OpenSettings);
    assert_eq!(handle_menu_action("oko_quit"), MenuAction::Quit);
}

#[test]
fn unknown_menu_entries_are_ignored() {
    for id in ["", "oko", "OKO_SHOW", "oko_show ", "quit", "oko_open"] {
        assert_eq!(handle_menu_action(id), MenuAction::Ignore);
    }
}

#[test]
fn front_end_actions_have_names() {
    assert_eq!(emit_action(MenuAction::OpenSearch), Some("open-search"));
    assert_eq!(emit_action(MenuAction::OpenSettings), Some("open-settings"));
    assert_eq!(emit_action(MenuAction::ShowMainWindow), None);
    assert_eq!(emit_action(MenuAction::Quit), None);
    assert_eq!(emit_action(MenuAction::Ignore), None);
}

#[test]
fn config_dir_is_the_platform_one_or_a_temporary_one() {
    assert_eq!(app_config_dir(Some("/Users/u/Library/Application Support/oko"), "/tmp"),
        "/Users/u/Library/Application Support/oko");
    assert_eq!(app_config_dir(None, "/tmp"), "/tmp/oko-desktop");
    assert_eq!(app_config_dir(None, "/var/tmp/"), "/var/tmp/oko-desktop");
}

#[test]
fn profile_file_lies_in_the_config_dir() {
    assert_eq!(runtime_profile_path("/cfg"), "/cfg/desktop-runtime.json");
    assert_eq!(runtime_profile_path("/tmp/oko-desktop"), "/tmp/oko-desktop/desktop-runtime.json");
}

#[test]
fn runtime_dir_lies_in_the_home_or_the_temporary_dir() {
    assert_eq!(user_runtime_dir(Some("/Users/u"), "/tmp"), "/Users/u/.oko");
    assert_eq!(user_runtime_dir(Some("/"), "/tmp"), "/.oko");
    assert_eq!(user_runtime_dir(Some(""), "/tmp"), ".oko");
    assert_eq!(user_runtime_dir(None, "/tmp"), "/tmp/.oko");
}

#[test]
fn registry_file_lies_in_the_runtime_dir() {
    assert_eq!(backend_pid_file("/Users/u/.oko"), "/Users/u/.oko/backend.pid");
    assert_eq!(backend_pid_file(&user_runtime_dir(None, "/tmp")), "/tmp/.oko/backend.pid");
}

#[test]
fn template_candidates_come_in_order_of_preference() {
    assert_eq!(
        default_dashboard_template_candidates(Some("/x/my.yaml"), Some("/res"), Some("/cwd")),
        texts(&[
            "/x/my.yaml",
            "/res/resources/dashboard.default.yaml",
            "/cwd/../../dashboard.yaml",
            "/cwd/../dashboard.yaml",
            "/cwd/dashboard.yaml",
        ])
    );
    assert_eq!(
        default_dashboard_template_candidates(None, Some("/res"), None),
        texts(&["/res/resources/dashboard.default.yaml"])
    );
    assert_eq!(
        default_dashboard_template_candidates(None, None, Some("/cwd")),
        texts(&["/cwd/../../dashboard.yaml", "/cwd/../dashboard.yaml", "/cwd/dashboard.yaml"])
    );
    assert_eq!(default_dashboard_template_candidates(None, None, None), Vec::<String>::new());
}

#[test]
fn binary_candidates_come_in_order_of_preference() {
    assert_eq!(
        embedded_backend_binary_candidates(Some("/x/backend"), Some("/res")),
        texts(&["/x/backend", "/res/binaries/oko-backend-aarch64-apple-darwin"])
    );
    assert_eq!(embedded_backend_binary_candidates(Some("/x/backend"), None), texts(&["/x/backend"]));
    assert_eq!(
        embedded_backend_binary_candidates(None, Some("/res")),
        texts(&["/res/binaries/oko-backend-aarch64-apple-darwin"])
    );
    assert_eq!(embedded_backend_binary_candidates(None, None), Vec::<String>::new());
}

#[test]
fn script_candidates_are_relative_to_the_working_dir() {
    assert_eq!(
        dev_backend_script_candidates(Some("/w/src/frontend")),
        texts(&[
            "/w/src/frontend/../desktop/backend_sidecar.py",
            "/w/src/frontend/../../src/desktop/backend_sidecar.py",
            "/w/src/frontend/src/desktop/backend_sidecar.py",
        ])
    );
    assert_eq!(dev_backend_script_candidates(None), Vec::<String>::new());
}
