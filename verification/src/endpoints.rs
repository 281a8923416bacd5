//! Decision logic of the four HTTP endpoints.
//!
//! Each function here is the pure part of one endpoint: it turns the plain
//! values of a request, together with the outcome of any outside call, into
//! the response to send. The binary around the library performs the HTTP
//! plumbing, takes the lock on the session, runs the network calls and the
//! browser side effect, and hands every outcome back in as a plain value.

use vstd::prelude::*;
use crate::playlist::{map_emotion_to_playlist, playlist_for, lower_of, lowercase};
use crate::session::build_authorize_url;

verus! {

/// An HTTP response: a status code and a plain-text body.
pub struct Response {
    pub status: u16,
    pub body: String,
}

/// The home endpoint: a constant greeting.
pub fn index() -> (r: Response)
    ensures
        r.status == 200,
        r.body@ == "hello"@,
{
    Response { status: 200, body: "hello".to_owned() }
}

/// The response of every endpoint when exclusive access to the session
/// cannot be obtained because a prior operation aborted mid-mutation.
pub fn session_unavailable_response() -> (r: Response)
    ensures
        r.status == 500,
        r.body@ == "Spotify client unavailable."@,
{
    Response { status: 500, body: "Spotify client unavailable.".to_owned() }
}

/// The login endpoint's answer, given the outcome of building the
/// authorization URL: on success the instructional text and the URL the
/// binary must open in the browser, on failure a generic server error and
/// no URL.
pub fn login_response(url: Option<String>) -> (r: (Response, Option<String>))
    ensures
        url matches Some(u) ==> ({
            &&& r.1 == Some(u)
            &&& r.0.status == 200
            &&& r.0.body@ == "Open the link in your browser to login."@
        }),
        url is None ==> ({
            &&& r.1 is None
            &&& r.0.status == 500
            &&& r.0.body@ == "Failed to generate login URL."@
        }),
{
    match url {
        Some(u) => (
            Response { status: 200, body: "Open the link in your browser to login.".to_owned() },
            Some(u),
        ),
        None => (
            Response { status: 500, body: "Failed to generate login URL.".to_owned() },
            None,
        ),
    }
}

/// The login endpoint: build the authorization URL from the session and
/// answer. Whatever the URL construction returned, the response is the
/// success text exactly when a URL to open comes back with it.
pub fn login(client: &rspotify::AuthCodeSpotify) -> (r: (Response, Option<String>))
    ensures
        r.1 is Some ==> r.0.status == 200 && r.0.body@ == "Open the link in your browser to login."@,
        r.1 is None ==> r.0.status == 500 && r.0.body@ == "Failed to generate login URL."@,
{
    let url = build_authorize_url(client);
    login_response(url)
}

/// What the callback endpoint decides to do with a request, before the
/// session is touched.
pub enum CallbackAction {
    /// Answer at once, without any session operation.
    Respond(Response),
    /// Exchange this authorization code for a token, then answer.
    Exchange(String),
}

/// The callback endpoint's first step: a request without a `code` query
/// parameter is rejected with a client error before the session is touched;
/// a request with one proceeds to the token exchange.
pub fn callback_request(code: Option<String>) -> (r: CallbackAction)
    ensures
        code is None ==> ({
            &&& r matches CallbackAction::Respond(resp)
            &&& resp.status == 400
            &&& resp.body@ == "Missing code in callback"@
        }),
        code matches Some(c) ==> r == CallbackAction::Exchange(c),
{
    match code {
        None => CallbackAction::Respond(
            Response { status: 400, body: "Missing code in callback".to_owned() },
        ),
        Some(c) => CallbackAction::Exchange(c),
    }
}

/// The callback endpoint's answer, given whether the token exchange
/// succeeded: a confirmation on success, a generic server error on failure.
pub fn callback_response(exchanged: bool) -> (r: Response)
    ensures
        exchanged ==> r.status == 200 && r.body@ == "Spotify authorization complete!"@,
        !exchanged ==> r.status == 500 && r.body@ == "Spotify auth failed"@,
{
    if exchanged {
        Response { status: 200, body: "Spotify authorization complete!".to_owned() }
    } else {
        Response { status: 500, body: "Spotify auth failed".to_owned() }
    }
}

/// The emotion endpoint's target: lower-case the raw request body and map
/// it to the playlist reference that playback should be started on.
pub fn emotion_playback_target(req_body: &str) -> (uri: String)
    ensures
        uri@ == playlist_for(lower_of(req_body@)),
{
    let lowered = lowercase(req_body);
    map_emotion_to_playlist(lowered.as_str())
}

/// The emotion endpoint's answer: the fixed confirmation, whether or not
/// playback could actually be started. A playback failure is deliberately
/// swallowed — it is logged by the binary and never surfaces to the caller.
#[allow(unused_variables)]
pub fn emotion_response(playback_ok: bool) -> (r: Response)
    ensures
        r.status == 200,
        r.body@ == "playing ."@,
{
    Response { status: 200, body: "playing .".to_owned() }
}

} // verus!
