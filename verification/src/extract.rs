//! From the body of a response to records and follow-up URLs.

use crate::family::BASE_URL;
use crate::html::{select, selected};
use crate::item::{item_views, Item, ItemView};
use crate::text::views;
use vstd::prelude::*;

verus! {

/// The selector for links.
pub const ANCHOR: &'static str = "a";

/// The attribute that holds a link's target.
pub const HREF: &'static str = "href";

/// Whether `href` is a path from the root of its site.
pub open spec fn is_absolute_path(href: Seq<char>) -> bool {
    href.len() > 0 && href[0] == '/'
}

/// The URLs to follow from a page whose links carry `hrefs`, a link without
/// target being `None`: for each target that is a path from the root, in the
/// order of the links and as often as it occurs, the site's base URL
/// followed by it.
pub open spec fn page_links(hrefs: Seq<Option<Seq<char>>>) -> Seq<Seq<char>>
    decreases hrefs.len(),
{
    if hrefs.len() == 0 {
        Seq::empty()
    } else {
        let before = page_links(hrefs.drop_last());
        match hrefs.last() {
            Some(href) => if is_absolute_path(href) {
                before.push(BASE_URL@ + href)
            } else {
                before
            },
            None => before,
        }
    }
}

/// The links picked from one list of targets followed by another are those
/// picked from the first followed by those picked from the second: links
/// keep their order, and none is dropped for occurring twice.
pub proof fn lemma_page_links_concat(a: Seq<Option<Seq<char>>>, b: Seq<Option<Seq<char>>>)
    ensures
        page_links(a + b) == page_links(a) + page_links(b),
    decreases b.len(),
{
    if b.len() == 0 {
        assert(a + b =~= a);
        assert(page_links(a) + page_links(b) =~= page_links(a));
    } else {
        lemma_page_links_concat(a, b.drop_last());
        assert((a + b).drop_last() =~= a + b.drop_last());
        assert((a + b).last() == b.last());
        assert(page_links(a + b) =~= page_links(a) + page_links(b));
    }
}

/// What is picked from a single link: the base URL followed by its target
/// where that is a path from the root, and nothing otherwise.
pub proof fn lemma_page_links_one(href: Option<Seq<char>>)
    ensures
        page_links(seq![href]) == match href {
            Some(target) => if is_absolute_path(target) {
                seq![BASE_URL@ + target]
            } else {
                Seq::<Seq<char>>::empty()
            },
            None => Seq::<Seq<char>>::empty(),
        },
{
    assert(seq![href].drop_last() =~= Seq::<Option<Seq<char>>>::empty());
    assert(page_links(seq![href].drop_last()) =~= Seq::<Seq<char>>::empty());
    assert(seq![href].last() == href);
    match href {
        Some(target) => {
            if is_absolute_path(target) {
                assert(page_links(seq![href]) =~= seq![BASE_URL@ + target]);
            }
        },
        None => {},
    }
}

/// Whether `link` is the follow-up URL for the link at position `j`.
pub open spec fn follows_from(hrefs: Seq<Option<Seq<char>>>, j: int, link: Seq<char>) -> bool {
    &&& 0 <= j < hrefs.len()
    &&& hrefs[j] matches Some(target) && is_absolute_path(target) && link == BASE_URL@ + target
}

/// Every URL that is picked comes from a link whose target is a path from
/// the root, and is the base URL followed by that target.
pub proof fn lemma_page_links_come_from_targets(hrefs: Seq<Option<Seq<char>>>, i: int)
    requires
        0 <= i < page_links(hrefs).len(),
    ensures
        exists|j: int| follows_from(hrefs, j, page_links(hrefs)[i]),
    decreases hrefs.len(),
{
    let before = page_links(hrefs.drop_last());
    if i < before.len() {
        lemma_page_links_come_from_targets(hrefs.drop_last(), i);
        let j = choose|j: int| follows_from(hrefs.drop_last(), j, before[i]);
        assert(follows_from(hrefs, j, page_links(hrefs)[i]));
    } else {
        assert(follows_from(hrefs, hrefs.len() - 1, page_links(hrefs)[i]));
    }
}

/// `page_links`, computed.
pub fn collect_page_links(hrefs: &Vec<Option<String>>) -> (urls: Vec<String>)
    ensures
        views(urls@) == page_links(hrefs.deep_view()),
{
    let ghost all = hrefs.deep_view();
    let mut urls: Vec<String> = Vec::new();
    let mut i: usize = 0;
    assert(views(urls@) =~= page_links(all.subrange(0, 0)));
    while i < hrefs.len()
        invariant
            i <= hrefs.len(),
            all == hrefs.deep_view(),
            views(urls@) == page_links(all.subrange(0, i as int)),
        decreases hrefs.len() - i,
    {
        let ghost found = views(urls@);
        assert(all.subrange(0, i + 1).drop_last() =~= all.subrange(0, i as int));
        assert(all.subrange(0, i + 1).last() == hrefs[i as int].deep_view());
        match &hrefs[i] {
            Some(href) => {
                if href.as_str().unicode_len() > 0 && href.as_str().get_char(0) == '/' {
                    urls.push(String::from_str(BASE_URL).concat(href.as_str()));
                    assert(views(urls@) =~= found.push(BASE_URL@ + href@));
                }
            },
            None => {},
        }
        i += 1;
    }
    assert(all.subrange(0, i as int) =~= all);
    urls
}

/// The records and follow-up URLs of a page: the body as one record, and the
/// links that `page_links` picks.
pub fn page_records(body: String, hrefs: &Vec<Option<String>>) -> (r: (Vec<Item>, Vec<String>))
    ensures
        item_views(r.0@) == seq![ItemView::Html(body@)],
        views(r.1@) == page_links(hrefs.deep_view()),
{
    let urls = collect_page_links(hrefs);
    let mut items: Vec<Item> = Vec::new();
    items.push(Item::Html(body));
    assert(item_views(items@) =~= seq![ItemView::Html(body@)]);
    (items, urls)
}

/// The selector for the container of one episode.
pub const FEED_ITEM: &'static str = "div[class=\"libsyn-item\"]";

/// The selector, below an episode, for the element that holds its title.
pub const FEED_TITLE: &'static str = "div[class=\"libsyn-item-title\"]";

/// The selector, below an episode, for the element that holds its date.
pub const FEED_RELEASE_DATE: &'static str = "div[class=\"libsyn-item-release-date\"]";

/// The selector, below an episode, for the element that holds its description.
pub const FEED_BODY: &'static str = "div[class=\"libsyn-item-body\"]";

/// The selector, below an episode, for the element that holds its player.
pub const FEED_CONTENT: &'static str = "div[class=\"libsyn-item-content\"]";

/// What was found for the episodes of a feed page, one entry for each episode
/// in each of the four lists, `None` where an episode lacks the part.
pub struct FeedParts {
    /// The link in the title: its text and its target.
    pub titles: Vec<Option<(String, Option<String>)>>,
    /// The element that holds the release date: its text; the target is not read.
    pub dates: Vec<Option<(String, Option<String>)>>,
    /// The element that holds the description: its text; the target is not read.
    pub descriptions: Vec<Option<(String, Option<String>)>>,
    /// The link to the media file: its text and its target.
    pub media: Vec<Option<(String, Option<String>)>>,
}

/// What a [`FeedParts`] holds, as mathematical values.
pub struct FeedPartsView {
    pub titles: Seq<Option<(Seq<char>, Option<Seq<char>>)>>,
    pub dates: Seq<Option<(Seq<char>, Option<Seq<char>>)>>,
    pub descriptions: Seq<Option<(Seq<char>, Option<Seq<char>>)>>,
    pub media: Seq<Option<(Seq<char>, Option<Seq<char>>)>>,
}

impl View for FeedParts {
    type V = FeedPartsView;

    open spec fn view(&self) -> FeedPartsView {
        FeedPartsView {
            titles: self.titles.deep_view(),
            dates: self.dates.deep_view(),
            descriptions: self.descriptions.deep_view(),
            media: self.media.deep_view(),
        }
    }
}

/// The target of a link, empty where the link has none.
pub open spec fn target_or_empty(target: Option<Seq<char>>) -> Seq<char> {
    match target {
        Some(t) => t,
        None => Seq::empty(),
    }
}

/// The text of what was found, if anything was.
pub open spec fn text_of(found: Option<(Seq<char>, Option<Seq<char>>)>) -> Option<Seq<char>> {
    match found {
        Some((text, _)) => Some(text),
        None => None,
    }
}

/// The target of what was found, if anything was and it has one.
pub open spec fn target_of(found: Option<(Seq<char>, Option<Seq<char>>)>) -> Option<Seq<char>> {
    match found {
        Some((_, target)) => target,
        None => None,
    }
}

/// The target of each of `found`.
pub open spec fn targets_of(found: Seq<Option<(Seq<char>, Option<Seq<char>>)>>) -> Seq<
    Option<Seq<char>>,
> {
    Seq::new(found.len(), |i: int| target_of(found[i]))
}

impl FeedPartsView {
    /// Whether the four lists are equally long and every episode has its
    /// title link, its date and its media link. The description may be
    /// missing.
    pub open spec fn complete(self) -> bool {
        &&& self.dates.len() == self.titles.len()
        &&& self.descriptions.len() == self.titles.len()
        &&& self.media.len() == self.titles.len()
        &&& forall|i: int|
            0 <= i < self.titles.len() ==> self.titles[i] is Some && self.dates[i] is Some
                && self.media[i] is Some
    }

    /// The address of the media file of episode `i`.
    pub open spec fn media_url(self, i: int) -> Seq<char> {
        target_or_empty(self.media[i].unwrap().1)
    }

    /// The record of episode `i`.
    pub open spec fn episode(self, i: int) -> ItemView {
        ItemView::PoddMeta {
            meta_url: target_or_empty(self.titles[i].unwrap().1),
            title: self.titles[i].unwrap().0,
            release_date: self.dates[i].unwrap().0,
            description: text_of(self.descriptions[i]),
            mp3_url: self.media_url(i),
        }
    }

    /// The records of all episodes, in the order in which they were found.
    pub open spec fn episodes(self) -> Seq<ItemView> {
        Seq::new(self.titles.len(), |i: int| self.episode(i))
    }

    /// The addresses of all media files, in the order in which they were found, each as
    /// often as it occurs.
    pub open spec fn media_urls(self) -> Seq<Seq<char>> {
        Seq::new(self.titles.len(), |i: int| self.media_url(i))
    }
}

fn cloned_target(target: &Option<String>) -> (r: String)
    ensures
        r@ == target_or_empty(target.deep_view()),
{
    match target {
        Some(t) => t.clone(),
        None => String::new(),
    }
}

fn cloned_text(found: &Option<(String, Option<String>)>) -> (r: Option<String>)
    ensures
        r.deep_view() == text_of(found.deep_view()),
{
    match found {
        Some(f) => Some(f.0.clone()),
        None => None,
    }
}

/// `targets_of`, computed.
pub fn link_targets(found: &Vec<Option<(String, Option<String>)>>) -> (hrefs: Vec<Option<String>>)
    ensures
        hrefs.deep_view() == targets_of(found.deep_view()),
{
    let mut hrefs: Vec<Option<String>> = Vec::new();
    let mut i: usize = 0;
    while i < found.len()
        invariant
            i <= found.len(),
            hrefs@.len() == i,
            forall|k: int| 0 <= k < i ==> hrefs@[k].deep_view() == target_of(found@[k].deep_view()),
        decreases found.len() - i,
    {
        let href = match &found[i] {
            Some(f) => match &f.1 {
                Some(target) => Some(target.clone()),
                None => None,
            },
            None => None,
        };
        hrefs.push(href);
        i += 1;
    }
    assert(hrefs.deep_view() =~= targets_of(found.deep_view()));
    hrefs
}

impl FeedParts {
    /// `complete`, computed.
    pub fn is_complete(&self) -> (r: bool)
        ensures
            r == self@.complete(),
    {
        let n: usize = self.titles.len();
        if self.dates.len() != n || self.descriptions.len() != n || self.media.len() != n {
            return false;
        }
        let mut i: usize = 0;
        while i < n
            invariant
                i <= n,
                n == self.titles.len(),
                n == self.dates.len(),
                n == self.media.len(),
                forall|k: int|
                    0 <= k < i ==> self@.titles[k] is Some && self@.dates[k] is Some
                        && self@.media[k] is Some,
            decreases n - i,
        {
            assert(self@.titles[i as int] == self.titles[i as int].deep_view());
            assert(self@.dates[i as int] == self.dates[i as int].deep_view());
            assert(self@.media[i as int] == self.media[i as int].deep_view());
            if self.titles[i].is_none() || self.dates[i].is_none() || self.media[i].is_none() {
                return false;
            }
            i += 1;
        }
        true
    }
}

/// The records and follow-up URLs of a feed page: one record for each
/// episode, and the address of each episode's media file to follow.
pub fn feed_records(parts: &FeedParts) -> (r: (Vec<Item>, Vec<String>))
    requires
        parts@.complete(),
    ensures
        item_views(r.0@) == parts@.episodes(),
        views(r.1@) == parts@.media_urls(),
{
    let n: usize = parts.titles.len();
    let mut items: Vec<Item> = Vec::new();
    let mut urls: Vec<String> = Vec::new();
    let mut i: usize = 0;
    while i < n
        invariant
            i <= n,
            n == parts.titles.len(),
            parts@.complete(),
            items@.len() == i,
            urls@.len() == i,
            forall|k: int| 0 <= k < i ==> items@[k]@ == parts@.episode(k),
            forall|k: int| 0 <= k < i ==> urls@[k]@ == parts@.media_url(k),
        decreases n - i,
    {
        assert(parts@.titles[i as int] == parts.titles[i as int].deep_view());
        assert(parts@.dates[i as int] == parts.dates[i as int].deep_view());
        assert(parts@.descriptions[i as int] == parts.descriptions[i as int].deep_view());
        assert(parts@.media[i as int] == parts.media[i as int].deep_view());
        match (&parts.titles[i], &parts.dates[i], &parts.media[i]) {
            (Some(title_link), Some(date), Some(media_link)) => {
                let mp3_url = cloned_target(&media_link.1);
                urls.push(mp3_url.clone());
                items.push(
                    Item::PoddMeta {
                        meta_url: cloned_target(&title_link.1),
                        title: title_link.0.clone(),
                        release_date: date.0.clone(),
                        description: cloned_text(&parts.descriptions[i]),
                        mp3_url,
                    },
                );
            },
            _ => {
                assert(false);
            },
        }
        i += 1;
    }
    assert(item_views(items@) =~= parts@.episodes());
    assert(views(urls@) =~= parts@.media_urls());
    (items, urls)
}

/// The records and follow-up URLs of a media file: the bytes as one record,
/// and nothing to follow.
pub fn media_records(bytes: Vec<u8>) -> (r: (Vec<Item>, Vec<String>))
    ensures
        item_views(r.0@) == seq![ItemView::Podd(bytes@)],
        r.1@.len() == 0,
{
    let mut items: Vec<Item> = Vec::new();
    items.push(Item::Podd(bytes));
    assert(item_views(items@) =~= seq![ItemView::Podd(bytes@)]);
    (items, Vec::new())
}

/// The targets of the links of the page `body`, `None` for a link without
/// one; `None` as a whole where the document cannot be searched.
pub open spec fn page_hrefs(body: Seq<char>) -> Option<Seq<Option<Seq<char>>>> {
    match selected(body, ANCHOR@, Seq::empty(), HREF@) {
        Some(found) => Some(targets_of(found)),
        None => None,
    }
}

/// What is found for the episodes of the feed page `body`; `None` where the
/// document cannot be searched.
pub open spec fn feed_parts_of(body: Seq<char>) -> Option<FeedPartsView> {
    match (
        selected(body, FEED_ITEM@, seq![FEED_TITLE@, ANCHOR@], HREF@),
        selected(body, FEED_ITEM@, seq![FEED_RELEASE_DATE@], HREF@),
        selected(body, FEED_ITEM@, seq![FEED_BODY@], HREF@),
        selected(body, FEED_ITEM@, seq![FEED_CONTENT@, ANCHOR@], HREF@),
    ) {
        (Some(titles), Some(dates), Some(descriptions), Some(media)) => Some(
            FeedPartsView { titles, dates, descriptions, media },
        ),
        _ => None,
    }
}

/// Searches the page `body` for its links and gives its records and
/// follow-up URLs, as `page_records` does; `None` where the document cannot
/// be searched.
pub fn extract_page(body: String) -> (r: Option<(Vec<Item>, Vec<String>)>)
    ensures
        match r {
            Some((items, urls)) => page_hrefs(body@) matches Some(hrefs) && item_views(items@)
                == seq![ItemView::Html(body@)] && views(urls@) == page_links(hrefs),
            None => page_hrefs(body@) is None,
        },
{
    let here: Vec<String> = Vec::new();
    assert(here.deep_view() =~= Seq::<Seq<char>>::empty());
    match select(body.as_str(), ANCHOR, &here, HREF) {
        Some(found) => {
            let hrefs = link_targets(&found);
            Some(page_records(body, &hrefs))
        },
        None => None,
    }
}

fn below(first: &str, then: Option<&str>) -> (steps: Vec<String>)
    ensures
        steps.deep_view() == match then {
            Some(second) => seq![first@, second@],
            None => seq![first@],
        },
{
    let mut steps: Vec<String> = Vec::new();
    steps.push(String::from_str(first));
    match then {
        Some(second) => {
            steps.push(String::from_str(second));
            assert(steps.deep_view() =~= seq![first@, second@]);
        },
        None => {
            assert(steps.deep_view() =~= seq![first@]);
        },
    }
    steps
}

/// `feed_parts_of`, computed.
pub fn select_feed_parts(body: &str) -> (r: Option<FeedParts>)
    ensures
        match r {
            Some(parts) => feed_parts_of(body@) == Some(parts@),
            None => feed_parts_of(body@) is None,
        },
{
    let titles = match select(body, FEED_ITEM, &below(FEED_TITLE, Some(ANCHOR)), HREF) {
        Some(found) => found,
        None => { return None; },
    };
    let dates = match select(body, FEED_ITEM, &below(FEED_RELEASE_DATE, None), HREF) {
        Some(found) => found,
        None => { return None; },
    };
    let descriptions = match select(body, FEED_ITEM, &below(FEED_BODY, None), HREF) {
        Some(found) => found,
        None => { return None; },
    };
    let media = match select(body, FEED_ITEM, &below(FEED_CONTENT, Some(ANCHOR)), HREF) {
        Some(found) => found,
        None => { return None; },
    };
    Some(FeedParts { titles, dates, descriptions, media })
}

/// Searches the feed page `body` for its episodes and gives its records and
/// follow-up URLs, as `feed_records` does; `None` where the document cannot
/// be searched or an episode lacks a part that it must have.
pub fn extract_feed(body: &str) -> (r: Option<(Vec<Item>, Vec<String>)>)
    ensures
        match r {
            Some((items, urls)) => feed_parts_of(body@) matches Some(parts) && parts.complete()
                && item_views(items@) == parts.episodes() && views(urls@) == parts.media_urls(),
            None => !(feed_parts_of(body@) matches Some(parts) && parts.complete()),
        },
{
    match select_feed_parts(body) {
        Some(parts) => if parts.is_complete() {
            Some(feed_records(&parts))
        } else {
            None
        },
        None => None,
    }
}

} // verus!
