//! The top-items listing: which kind of item and over which time range it
//! is asked for, the request URL those choices produce, the shapes of the
//! decoded answer, and the classification of its error statuses. The
//! network call and the JSON decoding stay with the caller.

use vstd::prelude::*;
use vstd::string::StringExecFns;
use crate::text::{dec_digits, spec_join, join_with, u64_to_string};

verus! {

/// Which kind of top item is requested.
#[derive(Debug, Clone)]
pub enum TopItemType {
    Artists,
    Tracks,
}

impl TopItemType {
    /// The path segment of this kind.
    pub fn as_str(&self) -> (r: &str)
        ensures
            *self is Artists ==> r@ == "artists"@,
            *self is Tracks ==> r@ == "tracks"@,
    {
        match self {
            TopItemType::Artists => "artists",
            TopItemType::Tracks => "tracks",
        }
    }

    /// The path segment, as a mathematical value.
    pub open spec fn spec_str(&self) -> Seq<char> {
        match self {
            TopItemType::Artists => "artists"@,
            TopItemType::Tracks => "tracks"@,
        }
    }
}

/// Over which span the listening history is aggregated.
#[derive(Debug, Clone)]
pub enum TimeRange {
    /// About a year.
    LongTerm,
    /// About six months; the provider's default.
    MediumTerm,
    /// About four weeks.
    ShortTerm,
}

impl TimeRange {
    /// The query value of this range.
    pub fn as_str(&self) -> (r: &str)
        ensures
            *self is LongTerm ==> r@ == "long_term"@,
            *self is MediumTerm ==> r@ == "medium_term"@,
            *self is ShortTerm ==> r@ == "short_term"@,
    {
        match self {
            TimeRange::LongTerm => "long_term",
            TimeRange::MediumTerm => "medium_term",
            TimeRange::ShortTerm => "short_term",
        }
    }

    /// The query value, as a mathematical value.
    pub open spec fn spec_str(&self) -> Seq<char> {
        match self {
            TimeRange::LongTerm => "long_term"@,
            TimeRange::MediumTerm => "medium_term"@,
            TimeRange::ShortTerm => "short_term"@,
        }
    }
}

/// One page of top items.
pub struct TopItemsResponse<T> {
    pub href: String,
    pub limit: u32,
    pub next: Option<String>,
    pub offset: u32,
    pub previous: Option<String>,
    pub total: u32,
    pub items: Vec<T>,
}

/// An artist in a top-artists listing.
pub struct TopArtist {
    pub external_urls: ExternalUrls,
    pub followers: Followers,
    pub genres: Vec<String>,
    pub href: String,
    pub id: String,
    pub images: Vec<Image>,
    pub name: String,
    pub popularity: u32,
    pub artist_type: String,
    pub uri: String,
}

/// The provider-page links of an entity.
pub struct ExternalUrls {
    pub spotify: String,
}

/// An artist's follower count.
pub struct Followers {
    pub href: Option<String>,
    pub total: u32,
}

/// One cover image.
pub struct Image {
    pub url: String,
    pub height: Option<u32>,
    pub width: Option<u32>,
}

/// An album as a top-tracks listing carries it.
pub struct Album {
    pub album_type: String,
    pub total_tracks: u32,
    pub available_markets: Vec<String>,
    pub external_urls: ExternalUrls,
    pub href: String,
    pub id: String,
    pub images: Vec<Image>,
    pub name: String,
    pub release_date: String,
    pub release_date_precision: String,
    pub restrictions: Option<Restrictions>,
    pub album_type_field: String,
    pub uri: String,
    pub artists: Vec<Artist>,
}

/// An artist reference inside a track or album.
pub struct Artist {
    pub external_urls: ExternalUrls,
    pub href: String,
    pub id: String,
    pub name: String,
    pub artist_type: String,
    pub uri: String,
}

/// Industry identifiers of a track.
pub struct ExternalIds {
    pub isrc: Option<String>,
    pub ean: Option<String>,
    pub upc: Option<String>,
}

/// Why an item is restricted in the requesting market.
pub struct Restrictions {
    pub reason: String,
}

/// The requested item count, held to the provider's accepted window.
pub open spec fn spec_clamp_limit(l: u32) -> u32 {
    if l < 1 {
        1
    } else if l > 50 {
        50
    } else {
        l
    }
}

/// The optional query parameters, in their fixed order.
pub open spec fn spec_top_items_params(
    time_range: Option<Seq<char>>,
    limit: Option<u32>,
    offset: Option<u32>,
) -> Seq<Seq<char>> {
    (match time_range {
        Some(t) => seq!["time_range="@ + t],
        None => Seq::<Seq<char>>::empty(),
    }) + (match limit {
        Some(l) => seq!["limit="@ + dec_digits(spec_clamp_limit(l) as nat)],
        None => Seq::<Seq<char>>::empty(),
    }) + (match offset {
        Some(o) => seq!["offset="@ + dec_digits(o as nat)],
        None => Seq::<Seq<char>>::empty(),
    })
}

/// The full top-items request URL: the kind's path segment, then the
/// given parameters behind a `?`, or none at all.
pub open spec fn spec_top_items_url(
    ty: Seq<char>,
    time_range: Option<Seq<char>>,
    limit: Option<u32>,
    offset: Option<u32>,
) -> Seq<char> {
    let base = "https://api.spotify.com/v1/me/top/"@ + ty;
    let params = spec_top_items_params(time_range, limit, offset);
    if params.len() == 0 {
        base
    } else {
        base + "?"@ + spec_join(params, "&"@)
    }
}

/// Builds the top-items request URL, clamping a given limit to the
/// provider's accepted window.
pub fn top_items_request_url(
    item_type: &TopItemType,
    time_range: Option<&TimeRange>,
    limit: Option<u32>,
    offset: Option<u32>,
) -> (r: String)
    ensures
        r@ == spec_top_items_url(
            item_type.spec_str(),
            match time_range {
                Some(t) => Some(t.spec_str()),
                None => None,
            },
            limit,
            offset,
        ),
{
    let ghost tr_view: Option<Seq<char>> = match time_range {
        Some(t) => Some(t.spec_str()),
        None => None,
    };
    let ghost params = spec_top_items_params(tr_view, limit, offset);
    let mut pieces: Vec<String> = Vec::new();
    if let Some(t) = time_range {
        let mut p = String::from_str("time_range=");
        p.append(t.as_str());
        pieces.push(p);
    }
    if let Some(l) = limit {
        let clamped: u32 = if l < 1 {
            1
        } else if l > 50 {
            50
        } else {
            l
        };
        let mut p = String::from_str("limit=");
        p.append(u64_to_string(clamped as u64).as_str());
        pieces.push(p);
    }
    if let Some(o) = offset {
        let mut p = String::from_str("offset=");
        p.append(u64_to_string(o as u64).as_str());
        pieces.push(p);
    }
    proof {
        assert(pieces.deep_view() =~= params);
    }
    let mut r = String::from_str("https://api.spotify.com/v1/me/top/");
    r.append(item_type.as_str());
    if pieces.len() > 0 {
        r.append("?");
        r.append(join_with(&pieces, "&").as_str());
    }
    r
}

/// The reader-facing message for a failed top-items fetch, by status.
pub fn top_items_error_message(status: u32, response_text: &str) -> (r: String)
    ensures
        status == 401 ==> r@
            == "Authentication failed - your access token may be expired or invalid. Please re-authenticate."@,
        status == 403 ==> r@
            == "Forbidden - insufficient permissions. Ensure you have the 'user-top-read' scope."@,
        status == 429 ==> r@
            == "Rate limit exceeded - too many requests. Please wait a moment and try again."@,
        500 <= status < 600 ==> r@ == "Spotify API server error - please try again later."@,
        (status != 401 && status != 403 && status != 429 && !(500 <= status < 600)) ==> r@
            == "API request failed with status: "@ + dec_digits(status as nat) + " - "@
            + response_text@,
{
    if status == 401 {
        String::from_str(
            "Authentication failed - your access token may be expired or invalid. Please re-authenticate.",
        )
    } else if status == 403 {
        String::from_str(
            "Forbidden - insufficient permissions. Ensure you have the 'user-top-read' scope.",
        )
    } else if status == 429 {
        String::from_str(
            "Rate limit exceeded - too many requests. Please wait a moment and try again.",
        )
    } else if 500 <= status && status < 600 {
        String::from_str("Spotify API server error - please try again later.")
    } else {
        let mut r = String::from_str("API request failed with status: ");
        r.append(u64_to_string(status as u64).as_str());
        r.append(" - ");
        r.append(response_text);
        r
    }
}

} // verus!
