//! The settings-driven top-items listing: the request URL it asks with,
//! the shapes of the decoded answer, and the classification of its error
//! statuses — including the scope hint read off the provider's forbidden
//! answer. The network call and the JSON decoding stay with the caller.

use vstd::prelude::*;
use vstd::string::StringExecFns;
use crate::settings::Settings;
use crate::text::{contains_sub, dec_digits, spec_contains_sub, u64_to_string};

verus! {

/// One page of top items, tracks and artists mixed.
pub struct SpotifyTopResponse {
    pub items: Vec<TopItem>,
    pub total: u32,
    pub offset: u32,
    pub limit: u32,
    pub href: String,
    pub next: Option<String>,
    pub previous: Option<String>,
}

/// One listed item.
pub enum TopItem {
    Track(Track),
    Artist(Artist),
}

/// A track as the listing carries it.
pub struct Track {
    pub album: Album,
    pub artists: Vec<Artist>,
    pub available_markets: Vec<String>,
    pub disc_number: u32,
    pub duration_ms: u64,
    pub explicit: bool,
    pub external_ids: ExternalIds,
    pub external_urls: ExternalUrls,
    pub href: String,
    pub id: String,
    pub is_playable: bool,
    pub name: String,
    pub popularity: u32,
    pub preview_url: Option<String>,
    pub track_number: u32,
    pub item_type: String,
    pub uri: String,
    pub is_local: bool,
    pub restrictions: Option<Restrictions>,
}

/// An album as the listing carries it.
pub struct Album {
    pub album_type: String,
    pub total_tracks: u32,
    pub available_markets: Vec<String>,
    pub external_urls: ExternalUrls,
    pub href: String,
    pub id: String,
    pub images: Vec<AlbumImage>,
    pub name: String,
    pub release_date: String,
    pub release_date_precision: String,
    pub item_type: String,
    pub uri: String,
    pub artists: Vec<Artist>,
    pub is_playable: Option<bool>,
}

/// An artist as the listing carries it.
pub struct Artist {
    pub external_urls: ExternalUrls,
    pub followers: Option<Followers>,
    pub genres: Option<Vec<String>>,
    pub href: String,
    pub id: String,
    pub images: Option<Vec<AlbumImage>>,
    pub name: String,
    pub popularity: Option<u32>,
    pub item_type: String,
    pub uri: String,
}

/// One cover image.
pub struct AlbumImage {
    pub url: String,
    pub height: u32,
    pub width: u32,
}

/// The provider-page links of an entity.
pub struct ExternalUrls {
    pub spotify: String,
}

/// Industry identifiers of a track.
pub struct ExternalIds {
    pub isrc: Option<String>,
    pub ean: Option<String>,
    pub upc: Option<String>,
}

/// An artist's follower count.
pub struct Followers {
    pub href: Option<String>,
    pub total: u32,
}

/// Why an item is restricted in the requesting market.
pub struct Restrictions {
    pub reason: String,
}

/// The settings-driven top-items request URL: kind, the settings' item
/// count, the offset, and the time range, in that order.
pub open spec fn spec_settings_top_items_url(
    item_type: Seq<char>,
    limit: u32,
    offset: u32,
    time_range: Seq<char>,
) -> Seq<char> {
    "https://api.spotify.com/v1/me/top/"@ + item_type + "?limit="@ + dec_digits(limit as nat)
        + "&offset="@ + dec_digits(offset as nat) + "&time_range="@ + time_range
}

/// Builds the settings-driven top-items request URL.
pub fn settings_top_items_url(
    settings: &Settings,
    item_type: &str,
    time_range: &str,
    offset: u32,
) -> (r: String)
    ensures
        r@ == spec_settings_top_items_url(item_type@, settings.limit, offset, time_range@),
{
    let mut r = String::from_str("https://api.spotify.com/v1/me/top/");
    r.append(item_type);
    r.append("?limit=");
    r.append(u64_to_string(settings.limit as u64).as_str());
    r.append("&offset=");
    r.append(u64_to_string(offset as u64).as_str());
    r.append("&time_range=");
    r.append(time_range);
    r
}

/// The reader-facing message for a failed settings-driven fetch: the
/// forbidden status distinguishes a missing scope, read off the
/// provider's answer, from any other denial.
pub fn settings_top_items_error_message(status: u32, response_text: &str) -> (r: String)
    ensures
        status == 401 ==> r@
            == "Authentication failed - your access token may be expired or invalid. Please re-authenticate."@,
        (status == 403 && spec_contains_sub(response_text@, "Insufficient client scope"@)) ==> r@
            == "Insufficient permissions - your access token doesn't have the required scope. You need 'user-top-read' scope to access top items. Please re-authenticate with the correct scopes."@,
        (status == 403 && !spec_contains_sub(response_text@, "Insufficient client scope"@)) ==> r@
            == "Forbidden - "@ + response_text@,
        status == 429 ==> r@
            == "Rate limit exceeded - too many requests. Please wait a moment and try again."@,
        500 <= status < 600 ==> r@ == "Spotify API server error - please try again later."@,
        (status != 401 && status != 403 && status != 429 && !(500 <= status < 600)) ==> r@
            == "API request failed with status: "@ + dec_digits(status as nat) + " - "@
            + response_text@,
{
    if status == 401 {
        String::from_str(
            "Authentication failed - your access token may be expired or invalid. Please re-authenticate.",
        )
    } else if status == 403 {
        if contains_sub(response_text, "Insufficient client scope") {
            String::from_str(
                "Insufficient permissions - your access token doesn't have the required scope. You need 'user-top-read' scope to access top items. Please re-authenticate with the correct scopes.",
            )
        } else {
            let mut r = String::from_str("Forbidden - ");
            r.append(response_text);
            r
        }
    } else if status == 429 {
        String::from_str(
            "Rate limit exceeded - too many requests. Please wait a moment and try again.",
        )
    } else if 500 <= status && status < 600 {
        String::from_str("Spotify API server error - please try again later.")
    } else {
        let mut r = String::from_str("API request failed with status: ");
        r.append(u64_to_string(status as u64).as_str());
        r.append(" - ");
        r.append(response_text);
        r
    }
}

} // verus!
