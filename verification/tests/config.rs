use emotion_player::config::{required_scopes, validate_config, ConfigError};

#[test]
fn complete_configuration_is_accepted() {
    let cfg = validate_config(
        Some("id".to_string()),
        Some("secret".to_string()),
        Some("http://localhost:8888/callback".to_string()),
    )
    .expect("a complete configuration");
    assert_eq!(cfg.client_id, "id");
    assert_eq!(cfg.client_secret, "secret");
    assert_eq!(cfg.redirect_uri, "http://localhost:8888/callback");
}

#[test]
fn missing_client_id_stops_startup() {
    let r = validate_config(
        None,
        Some("secret".to_string()),
        Some("uri".to_string()),
    );
    assert!(matches!(r, Err(ConfigError::MissingCredentials)));
}

#[test]
fn missing_client_secret_stops_startup() {
    let r = validate_config(Some("id".to_string()), None, Some("uri".to_string()));
    assert!(matches!(r, Err(ConfigError::MissingCredentials)));
}

#[test]
fn missing_redirect_uri_stops_startup() {
    let r = validate_config(Some("id".to_string()), Some("secret".to_string()), None);
    assert!(matches!(r, Err(ConfigError::MissingRedirectUri)));
}

#[test]
fn wholly_empty_environment_reports_missing_credentials() {
    let r = validate_config(None, None, None);
    assert!(matches!(r, Err(ConfigError::MissingCredentials)));
}

#[test]
fn the_seven_scopes_are_requested() {
    let scopes = required_scopes();
    assert_eq!(
        scopes,
        vec![
            "user-read-playback-state",
            "user-modify-playback-state",
            "user-read-currently-playing",
            "streaming",
            "playlist-read-private",
            "playlist-read-collaborative",
            "user-read-private",
        ]
    );
}
