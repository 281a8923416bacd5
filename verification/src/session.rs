//! The auth session: the one OAuth-capable API client of the process.
//!
//! The client object itself belongs to the outside API crate and is opaque
//! here. The only operation on it that needs no network round-trip —
//! building the authorization URL the user must visit — is made available
//! to the verified endpoint logic through a trusted wrapper. Token exchange
//! and playback control are network calls and are performed by the binary,
//! which feeds their outcomes back in as plain values.

use vstd::prelude::*;

verus! {

#[verifier::external_type_specification]
#[verifier::external_body]
pub struct ExAuthCodeSpotify(rspotify::AuthCodeSpotify);

/// Relies on rspotify's `AuthCodeSpotify::get_authorize_url`: it builds the
/// authorization URL from the client's credentials, redirect URI, scopes and
/// state without any network call, and fails only when those pieces do not
/// form a valid URL. The error detail is not needed here, so a failure is
/// handed on as `None`.
#[verifier::external_body]
pub(crate) fn build_authorize_url(client: &rspotify::AuthCodeSpotify) -> (r: Option<String>) {
    client.get_authorize_url(false).ok()
}

} // verus!
