//! Startup configuration: the credentials and the redirect URI the process
//! must find in its environment, and the fixed set of OAuth scopes it
//! requests.
//!
//! The binary reads the environment; this module decides whether what it
//! found is enough to start. A missing value is a startup failure: the
//! process must exit before binding the listener.

use vstd::prelude::*;

verus! {

/// The configuration the process needs before it can serve requests.
pub struct AppConfig {
    pub client_id: String,
    pub client_secret: String,
    pub redirect_uri: String,
}

/// Why the process cannot start.
#[derive(Debug)]
pub enum ConfigError {
    /// The client id or the client secret is absent from the environment.
    MissingCredentials,
    /// The OAuth redirect URI is absent from the environment.
    MissingRedirectUri,
}

/// Decide whether the values found in the environment form a complete
/// configuration. Succeeds exactly when all three are present; a missing
/// credential is reported before a missing redirect URI.
pub fn validate_config(
    client_id: Option<String>,
    client_secret: Option<String>,
    redirect_uri: Option<String>,
) -> (r: Result<AppConfig, ConfigError>)
    ensures
        r is Ok <==> (client_id is Some && client_secret is Some && redirect_uri is Some),
        r matches Ok(cfg) ==> ({
            &&& Some(cfg.client_id) == client_id
            &&& Some(cfg.client_secret) == client_secret
            &&& Some(cfg.redirect_uri) == redirect_uri
        }),
        (client_id is None || client_secret is None) ==> r == Err::<AppConfig, ConfigError>(
            ConfigError::MissingCredentials,
        ),
        (client_id is Some && client_secret is Some && redirect_uri is None) ==> r
            == Err::<AppConfig, ConfigError>(ConfigError::MissingRedirectUri),
{
    match (client_id, client_secret, redirect_uri) {
        (Some(id), Some(secret), Some(uri)) => Ok(
            AppConfig { client_id: id, client_secret: secret, redirect_uri: uri },
        ),
        (None, _, _) => Err(ConfigError::MissingCredentials),
        (_, None, _) => Err(ConfigError::MissingCredentials),
        (_, _, None) => Err(ConfigError::MissingRedirectUri),
    }
}

/// The seven OAuth scopes the bridge requests when it asks the user for
/// consent.
pub fn required_scopes() -> (r: Vec<String>)
    ensures
        r@.len() == 7,
        r@[0]@ == "user-read-playback-state"@,
        r@[1]@ == "user-modify-playback-state"@,
        r@[2]@ == "user-read-currently-playing"@,
        r@[3]@ == "streaming"@,
        r@[4]@ == "playlist-read-private"@,
        r@[5]@ == "playlist-read-collaborative"@,
        r@[6]@ == "user-read-private"@,
{
    let mut r: Vec<String> = Vec::new();
    r.push("user-read-playback-state".to_owned());
    r.push("user-modify-playback-state".to_owned());
    r.push("user-read-currently-playing".to_owned());
    r.push("streaming".to_owned());
    r.push("playlist-read-private".to_owned());
    r.push("playlist-read-collaborative".to_owned());
    r.push("user-read-private".to_owned());
    r
}

} // verus!
