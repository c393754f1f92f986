use oko_desktop::error::SupervisorError;

fn detail() -> String {
    "Permission denied (os error 13)".to_string()
}

#[test]
fn profile_errors_read_as_sentences() {
    assert_eq!(
        SupervisorError::CreateConfigDir { detail: detail() }.message(),
        "Failed to create config dir: Permission denied (os error 13)"
    );
    assert_eq!(
        SupervisorError::SerializeProfile { detail: "key must be a string".to_string() }.message(),
        "Failed to serialize profile: key must be a string"
    );
    assert_eq!(
        SupervisorError::SaveProfile { detail: detail() }.message(),
        "Failed to save profile: Permission denied (os error 13)"
    );
}

#[test]
fn port_errors_read_as_sentences() {
    assert_eq!(
        SupervisorError::ReservePort { detail: "Address already in use (os error 48)".to_string() }.message(),
        "Failed to reserve local port: Address already in use (os error 48)"
    );
    assert_eq!(
        SupervisorError::ReadPort { detail: detail() }.message(),
        "Failed to read local port: Permission denied (os error 13)"
    );
}

#[test]
fn file_errors_name_the_file() {
    assert_eq!(
        SupervisorError::CopyTemplate { template: "/res/dashboard.default.yaml".to_string(), detail: detail() }
            .message(),
        "Failed to create user dashboard config from template /res/dashboard.default.yaml: Permission denied (os error 13)"
    );
    assert_eq!(
        SupervisorError::OpenLog { path: "/r/logs/backend.log".to_string(), detail: detail() }.message(),
        "Failed to open backend log file /r/logs/backend.log: Permission denied (os error 13)"
    );
    assert_eq!(
        SupervisorError::CloneLog { path: "/r/logs/backend.log".to_string(), detail: detail() }.message(),
        "Failed to clone backend log handle /r/logs/backend.log: Permission denied (os error 13)"
    );
}

#[test]
fn empty_detail_leaves_the_prefix() {
    assert_eq!(SupervisorError::Spawn { detail: String::new() }.message(), "Failed to start embedded backend: ");
    assert_eq!(SupervisorError::UnsupportedMode { mode: String::new() }.message(), "Unsupported runtime mode: ");
}
