//! The records that extraction produces.

use vstd::prelude::*;

verus! {

/// A unit of extracted content, produced from one fetched URL.
#[derive(Debug, Clone)]
pub enum Item {
    /// The body of a fetched HTML page.
    Html(String),
    /// One episode of the podcast feed, as listed on a feed page.
    PoddMeta {
        meta_url: String,
        title: String,
        release_date: String,
        description: Option<String>,
        mp3_url: String,
    },
    /// The bytes of a fetched media file.
    Podd(Vec<u8>),
}

/// What an [`Item`] holds, as mathematical values.
pub enum ItemView {
    Html(Seq<char>),
    PoddMeta {
        meta_url: Seq<char>,
        title: Seq<char>,
        release_date: Seq<char>,
        description: Option<Seq<char>>,
        mp3_url: Seq<char>,
    },
    Podd(Seq<u8>),
}

impl View for Item {
    type V = ItemView;

    open spec fn view(&self) -> ItemView {
        match self {
            Item::Html(body) => ItemView::Html(body@),
            Item::PoddMeta { meta_url, title, release_date, description, mp3_url } => {
                ItemView::PoddMeta {
                    meta_url: meta_url@,
                    title: title@,
                    release_date: release_date@,
                    description: match description {
                        Some(d) => Some(d@),
                        None => None,
                    },
                    mp3_url: mp3_url@,
                }
            },
            Item::Podd(bytes) => ItemView::Podd(bytes@),
        }
    }
}

/// The views of a sequence of items.
pub open spec fn item_views(items: Seq<Item>) -> Seq<ItemView> {
    Seq::new(items.len(), |i: int| items[i]@)
}

} // verus!
