//! The emotion mapper: a total function from an emotion label to the
//! playlist reference (a service-specific URI string) that should be played
//! for it.

use vstd::prelude::*;

verus! {

/// The lower-cased form of a string, as the standard library computes it.
pub uninterp spec fn lower_of(s: Seq<char>) -> Seq<char>;

/// Relies on `str::to_lowercase`: the lower-cased form depends on the
/// characters of the input alone.
#[verifier::external_body]
pub(crate) fn lowercase(s: &str) -> (r: String)
    ensures
        r@ == lower_of(s@),
{
    s.to_lowercase()
}

/// The playlist reference chosen for a lower-cased emotion label.
///
/// Four labels have a playlist of their own; every other string, the empty
/// string included, falls through to the same fallback reference.
pub open spec fn playlist_for(label: Seq<char>) -> Seq<char> {
    if label == "happy"@ {
        "spotify:playlist:37i9dQZF1EVJSvZp5AOML2"@
    } else if label == "sad"@ {
        "spotify:playlist:37i9dQZF1EIg85EO6f7KwU"@
    } else if label == "angry"@ {
        "spotify:playlist:37i9dQZF1EVHGWrwldPRtj"@
    } else if label == "neutral"@ {
        "spotify:playlist:37i9dQZF1EpT1iXiOFRTI4"@
    } else {
        "spotify:playlist:37i9dQZF1EP6YuccBxUcC1"@
    }
}

/// Map a lower-cased emotion label to its playlist reference.
///
/// Total over all strings: an unrecognized label is not an error but maps
/// to the fallback reference.
pub fn map_emotion_to_playlist(emotion: &str) -> (uri: String)
    ensures
        uri@ == playlist_for(emotion@),
{
    let label: String = emotion.to_owned();
    let uri: &str = if label == String::from_str("happy") {
        "spotify:playlist:37i9dQZF1EVJSvZp5AOML2"
    } else if label == String::from_str("sad") {
        "spotify:playlist:37i9dQZF1EIg85EO6f7KwU"
    } else if label == String::from_str("angry") {
        "spotify:playlist:37i9dQZF1EVHGWrwldPRtj"
    } else if label == String::from_str("neutral") {
        "spotify:playlist:37i9dQZF1EpT1iXiOFRTI4"
    } else {
        "spotify:playlist:37i9dQZF1EP6YuccBxUcC1"
    };
    uri.to_owned()
}

/// The mapping is total: each of the four recognized lower-cased labels
/// yields that label's own playlist reference, and every other string — the
/// empty string, numbers, anything unrecognized — yields the one fallback
/// reference. No input is an error.
pub proof fn lemma_playlist_for_total(label: Seq<char>)
    ensures
        label == "happy"@ ==> playlist_for(label) == "spotify:playlist:37i9dQZF1EVJSvZp5AOML2"@,
        label == "sad"@ ==> playlist_for(label) == "spotify:playlist:37i9dQZF1EIg85EO6f7KwU"@,
        label == "angry"@ ==> playlist_for(label) == "spotify:playlist:37i9dQZF1EVHGWrwldPRtj"@,
        label == "neutral"@ ==> playlist_for(label) == "spotify:playlist:37i9dQZF1EpT1iXiOFRTI4"@,
        label != "happy"@ && label != "sad"@ && label != "angry"@ && label != "neutral"@
            ==> playlist_for(label) == "spotify:playlist:37i9dQZF1EP6YuccBxUcC1"@,
{
    reveal_strlit("happy");
    reveal_strlit("sad");
    reveal_strlit("angry");
    reveal_strlit("neutral");
    assert("happy"@.len() == 5);
    assert("sad"@.len() == 3);
    assert("angry"@.len() == 5);
    assert("neutral"@.len() == 7);
    assert("happy"@[0] == 'h');
    assert("angry"@[0] == 'a');
}

} // verus!
