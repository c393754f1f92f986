use oko_desktop::error::SupervisorError;
use oko_desktop::profile::{
    load_runtime_profile, normalize_url, parse_runtime_mode, RuntimeMode, RuntimeProfile,
    DEFAULT_REMOTE_BASE_URL,
};

#[test]
fn default_profile_is_embedded_with_the_default_address() {
    let profile = RuntimeProfile::default();
    assert_eq!(profile.mode, RuntimeMode::Embedded);
    assert_eq!(profile.remote_base_url, "http://127.0.0.1:8090");
    assert_eq!(DEFAULT_REMOTE_BASE_URL, "http://127.0.0.1:8090");
}

#[test]
fn normalize_url_trims_and_drops_trailing_slashes() {
    assert_eq!(normalize_url("  https://oko.example.org/api/  "), "https://oko.example.org/api");
    assert_eq!(normalize_url("https://oko.example.org///"), "https://oko.example.org");
    assert_eq!(normalize_url("https://oko.example.org"), "https://oko.example.org");
    assert_eq!(normalize_url("\thttp://10.0.0.2:8090/\n"), "http://10.0.0.2:8090");
    assert_eq!(normalize_url("http://a/ /"), "http://a/ ");
}

#[test]
fn normalize_url_resets_a_blank_address_to_the_default() {
    assert_eq!(normalize_url(""), "http://127.0.0.1:8090");
    assert_eq!(normalize_url("   "), "http://127.0.0.1:8090");
    assert_eq!(normalize_url("\n\t"), "http://127.0.0.1:8090");
}

#[test]
fn normalize_url_resets_slashes_alone_to_the_default() {
    assert_eq!(normalize_url("/"), "http://127.0.0.1:8090");
    assert_eq!(normalize_url("///"), "http://127.0.0.1:8090");
    assert_eq!(normalize_url(" /// "), "http://127.0.0.1:8090");
    assert_eq!(normalize_url("\t/\n"), "http://127.0.0.1:8090");
}

#[test]
fn normalize_url_is_never_empty_and_never_ends_in_a_slash() {
    let samples = [
        "", " ", "/", "//", " / ", "a", "a/", "/a", "/a/", " a// ", "http://h:1/", "http://h:1//x//",
        "\u{a0}/\u{a0}", "/ /",
    ];
    for value in samples {
        let url = normalize_url(value);
        assert!(!url.is_empty(), "{:?}", value);
        assert!(!url.ends_with('/'), "{:?}", value);
    }
}

#[test]
fn parse_runtime_mode_knows_two_words() {
    assert_eq!(parse_runtime_mode("embedded"), Ok(RuntimeMode::Embedded));
    assert_eq!(parse_runtime_mode("remote"), Ok(RuntimeMode::Remote));
}

#[test]
fn parse_runtime_mode_refuses_other_words() {
    for word in ["", "Embedded", "REMOTE", " remote", "remote ", "local", "embedded\n"] {
        let refused = parse_runtime_mode(word);
        assert_eq!(refused, Err(SupervisorError::UnsupportedMode { mode: word.to_string() }));
        let message = refused.unwrap_err().message();
        assert_eq!(message, format!("Unsupported runtime mode: {}", word));
    }
}

#[test]
fn load_runtime_profile_falls_back_to_the_default() {
    assert_eq!(load_runtime_profile(None), RuntimeProfile::default());
}

#[test]
fn load_runtime_profile_normalizes_the_stored_address() {
    let stored = RuntimeProfile {
        mode: RuntimeMode::Remote,
        remote_base_url: " https://oko.example.org/ ".to_string(),
    };
    assert_eq!(
        load_runtime_profile(Some(stored)),
        RuntimeProfile { mode: RuntimeMode::Remote, remote_base_url: "https://oko.example.org".to_string() }
    );
    let slashes = RuntimeProfile { mode: RuntimeMode::Remote, remote_base_url: " // ".to_string() };
    assert_eq!(
        load_runtime_profile(Some(slashes)),
        RuntimeProfile { mode: RuntimeMode::Remote, remote_base_url: "http://127.0.0.1:8090".to_string() }
    );
    let blank = RuntimeProfile { mode: RuntimeMode::Remote, remote_base_url: "  ".to_string() };
    assert_eq!(
        load_runtime_profile(Some(blank)),
        RuntimeProfile { mode: RuntimeMode::Remote, remote_base_url: "http://127.0.0.1:8090".to_string() }
    );
    let embedded = RuntimeProfile { mode: RuntimeMode::Embedded, remote_base_url: "http://h:1".to_string() };
    assert_eq!(load_runtime_profile(Some(embedded.clone())), embedded);
}
