//! The shapes of the provider's recently-played listing, as plain values,
//! and the classification of its error statuses. The network call and the
//! JSON decoding stay with the caller; the logic here is what the caller
//! computes from the decoded values.

use vstd::prelude::*;
use vstd::string::StringExecFns;
use crate::text::{dec_digits, u64_to_string};

verus! {

/// One page of recently played items.
pub struct RecentlyPlayedResponse {
    pub href: String,
    pub limit: u32,
    pub next: Option<String>,
    pub cursors: Cursors,
    pub total: Option<u32>,
    pub items: Vec<RecentlyPlayedItem>,
}

/// The paging cursors of a listing.
pub struct Cursors {
    pub after: String,
    pub before: String,
}

/// One play: the track, when it was played, and from where.
pub struct RecentlyPlayedItem {
    pub track: Track,
    pub played_at: String,
    pub context: Option<PlayContext>,
}

/// A track as the listing carries it.
pub struct Track {
    pub album: Album,
    pub artists: Vec<Artist>,
    pub available_markets: Vec<String>,
    pub disc_number: u32,
    pub duration_ms: u64,
    pub explicit: bool,
    pub external_ids: ExternalIds,
    pub external_urls: ExternalUrls,
    pub href: String,
    pub id: String,
    pub is_playable: Option<bool>,
    pub name: String,
    pub popularity: u32,
    pub preview_url: Option<String>,
    pub track_number: u32,
    pub track_type: String,
    pub uri: String,
    pub is_local: bool,
    pub restrictions: Option<Restrictions>,
}

/// An album as the listing carries it.
pub struct Album {
    pub album_type: String,
    pub total_tracks: u32,
    pub available_markets: Vec<String>,
    pub external_urls: ExternalUrls,
    pub href: String,
    pub id: String,
    pub images: Vec<Image>,
    pub name: String,
    pub release_date: String,
    pub release_date_precision: String,
    pub restrictions: Option<Restrictions>,
    pub album_type_field: String,
    pub uri: String,
    pub artists: Vec<Artist>,
}

/// An artist as the listing carries it.
pub struct Artist {
    pub external_urls: ExternalUrls,
    pub href: String,
    pub id: String,
    pub name: String,
    pub artist_type: String,
    pub uri: String,
}

/// One cover image.
pub struct Image {
    pub url: String,
    pub height: u32,
    pub width: u32,
}

/// The provider-page links of an entity.
pub struct ExternalUrls {
    pub spotify: String,
}

/// Industry identifiers of a track.
pub struct ExternalIds {
    pub isrc: Option<String>,
    pub ean: Option<String>,
    pub upc: Option<String>,
}

/// Why an item is restricted in the requesting market.
pub struct Restrictions {
    pub reason: String,
}

/// The context a play happened in.
pub struct PlayContext {
    pub context_type: String,
    pub href: String,
    pub external_urls: ExternalUrls,
    pub uri: String,
}

/// The endpoint the recently-played listing is fetched from.
pub fn recently_played_url() -> (r: String)
    ensures
        r@ == "https://api.spotify.com/v1/me/player/recently-played"@,
{
    String::from_str("https://api.spotify.com/v1/me/player/recently-played")
}

/// The reader-facing message for a failed recently-played fetch, by
/// status.
pub fn recently_played_error_message(status: u32, response_text: &str) -> (r: String)
    ensures
        status == 401 ==> r@
            == "Authentication failed - your access token may be expired or invalid. Please re-authenticate."@,
        status == 403 ==> r@ == "Forbidden - insufficient permissions or invalid client token."@,
        status == 429 ==> r@
            == "Rate limit exceeded - too many requests. Please wait a moment and try again."@,
        500 <= status < 600 ==> r@ == "Spotify API server error - please try again later."@,
        (status != 401 && status != 403 && status != 429 && !(500 <= status < 600)) ==> r@
            == "API request failed with status: "@ + dec_digits(status as nat) + " - "@
            + response_text@,
{
    if status == 401 {
        String::from_str(
            "Authentication failed - your access token may be expired or invalid. Please re-authenticate.",
        )
    } else if status == 403 {
        String::from_str("Forbidden - insufficient permissions or invalid client token.")
    } else if status == 429 {
        String::from_str(
            "Rate limit exceeded - too many requests. Please wait a moment and try again.",
        )
    } else if 500 <= status && status < 600 {
        String::from_str("Spotify API server error - please try again later.")
    } else {
        let mut r = String::from_str("API request failed with status: ");
        r.append(u64_to_string(status as u64).as_str());
        r.append(" - ");
        r.append(response_text);
        r
    }
}

} // verus!
