//! The content families of the crawl and the URLs that belong to each.

use crate::text::starts_with;
use vstd::prelude::*;

verus! {

/// Where the site's pages live.
pub const BASE_URL: &'static str = "https://www.omvarlden.se";

/// Where the listing of the podcast's episodes lives.
pub const PODD_META_URL: &'static str = "https://utvecklingssamtalet.libsyn.com";

/// Where the podcast's media files live.
pub const PODD_URL: &'static str = "https://traffic.libsyn.com";

/// The bucket a URL falls into, which decides how its response is read and
/// where its records go.
#[derive(Debug, Clone, Copy, PartialEq, Eq, Structural)]
pub enum Family {
    /// An HTML page of the site.
    Page,
    /// A page that lists podcast episodes.
    FeedListing,
    /// A media file.
    Media,
}

/// The family of `url`: that of the first base URL, in the order page, feed
/// listing, media, that `url` begins with; `None` where it begins with none.
pub open spec fn family_of(url: Seq<char>) -> Option<Family> {
    if BASE_URL@.is_prefix_of(url) {
        Some(Family::Page)
    } else if PODD_META_URL@.is_prefix_of(url) {
        Some(Family::FeedListing)
    } else if PODD_URL@.is_prefix_of(url) {
        Some(Family::Media)
    } else {
        None
    }
}

/// `family_of`, computed.
pub fn classify(url: &str) -> (r: Option<Family>)
    ensures
        r == family_of(url@),
{
    if starts_with(url, BASE_URL) {
        Some(Family::Page)
    } else if starts_with(url, PODD_META_URL) {
        Some(Family::FeedListing)
    } else if starts_with(url, PODD_URL) {
        Some(Family::Media)
    } else {
        None
    }
}

impl Family {
    /// Whether responses of this family are read as text; the others are
    /// read as bytes.
    pub fn reads_text(&self) -> (r: bool)
        ensures
            r == (*self != Family::Media),
    {
        match self {
            Family::Page => true,
            Family::FeedListing => true,
            Family::Media => false,
        }
    }
}

} // verus!
