//! The spider for omvarlden.se: what the crawl engine asks of it.

use crate::derive::{derive_dir, derive_path, derived, derived_dir, Format, Outcome, OutcomeView};
use crate::encode::{parse_url_path, url_path};
use crate::error::{Error, ErrorView};
use crate::extract::{
    extract_feed, extract_page, feed_parts_of, media_records, page_hrefs, page_links,
};
use crate::family::{classify, family_of, Family, BASE_URL};
use crate::item::{item_views, Item, ItemView};
use crate::sink::{encode_error, encoded, format_of, is_encode_failure, Job, JobView};
use crate::status::StatusCode;
use crate::text::views;
use vstd::prelude::*;

verus! {

/// How the spider names itself to servers unless it is told otherwise.
pub const APP_USER_AGENT: &'static str = "omvarlden-spider/0.1.0;SpråkbankenTextBot/1.0";

/// The name of this spider.
pub const NAME: &'static str = "omvarlden";

/// The first page of the podcast's episode listing.
pub const FEED_START_URL: &'static str = "https://utvecklingssamtalet.libsyn.com/page/1/size/200";

/// The directory that records go to unless another is given.
pub const DEFAULT_OUTPUT_PATH: &'static str = "./output";

/// How the spider shows itself where values are printed for inspection:
/// without its settings.
pub const DEBUG_TEXT: &'static str = "OmvarldenSpider { /* omitted */ }";

/// What is reported where a response was not read in the way its family
/// asks for.
pub const MISREAD: &'static str = "the response was not read as its family requires";

/// What a spider is made from.
#[derive(Debug, Clone)]
pub struct OmvarldenSpiderOptions {
    /// How the spider names itself to servers; `None` for the default.
    pub user_agent: Option<String>,
    /// The directory below which records are written.
    pub output_path: String,
}

impl Default for OmvarldenSpiderOptions {
    fn default() -> (r: Self)
        ensures
            r.user_agent is None,
            r.output_path@ == DEFAULT_OUTPUT_PATH@,
    {
        OmvarldenSpiderOptions {
            user_agent: None,
            output_path: String::from_str(DEFAULT_OUTPUT_PATH),
        }
    }
}

/// The spider: its settings, fixed when it is made.
pub struct OmvarldenSpider {
    /// How the spider names itself to servers.
    pub user_agent: String,
    /// The directory below which records are written.
    pub output_path: String,
}

/// The body of a response, as far as it was read.
#[derive(Debug)]
pub enum Body {
    /// Read as text.
    Text(String),
    /// Read as bytes.
    Bytes(Vec<u8>),
    /// Reading failed, with this report.
    Failed(String),
    /// Not read.
    Unread,
}

/// What a [`Body`] holds, as mathematical values.
pub enum BodyView {
    Text(Seq<char>),
    Bytes(Seq<u8>),
    Failed(Seq<char>),
    Unread,
}

impl View for Body {
    type V = BodyView;

    open spec fn view(&self) -> BodyView {
        match self {
            Body::Text(text) => BodyView::Text(text@),
            Body::Bytes(bytes) => BodyView::Bytes(bytes@),
            Body::Failed(report) => BodyView::Failed(report@),
            Body::Unread => BodyView::Unread,
        }
    }
}

/// The response to the request for a URL.
#[derive(Debug)]
pub struct Response {
    pub status: StatusCode,
    pub body: Body,
}

/// What scraping gives, over mathematical values: the records and the URLs to
/// follow, or a failure; `None` where the body lacks the structure that
/// extraction depends on.
pub type ScrapedView = Option<Result<(Seq<ItemView>, Seq<Seq<char>>), ErrorView>>;

/// `ScrapedView` of what `scrape` returns.
pub open spec fn scraped_view(r: Option<Result<(Vec<Item>, Vec<String>), Error>>) -> ScrapedView {
    match r {
        None => None,
        Some(Err(e)) => Some(Err(e@)),
        Some(Ok((items, urls))) => Some(Ok((item_views(items@), views(urls@)))),
    }
}

/// What the body of a successful response to a URL of `family` gives.
///
/// A page gives its body as one record and its links to follow; a feed page
/// one record and one URL for each episode; a media file its bytes as one
/// record. A body that could not be read is a failure to get data.
pub open spec fn extracted(url: Seq<char>, family: Family, body: BodyView) -> ScrapedView {
    match body {
        BodyView::Failed(report) => Some(Err(ErrorView::FailedToGetData { url, error: report })),
        BodyView::Text(text) => match family {
            Family::Page => match page_hrefs(text) {
                Some(hrefs) => Some(Ok((seq![ItemView::Html(text)], page_links(hrefs)))),
                None => None,
            },
            Family::FeedListing => match feed_parts_of(text) {
                Some(parts) => if parts.complete() {
                    Some(Ok((parts.episodes(), parts.media_urls())))
                } else {
                    None
                },
                None => None,
            },
            Family::Media => Some(Err(ErrorView::Unknown(MISREAD@))),
        },
        BodyView::Bytes(bytes) => match family {
            Family::Media => Some(Ok((seq![ItemView::Podd(bytes)], Seq::empty()))),
            _ => Some(Err(ErrorView::Unknown(MISREAD@))),
        },
        BodyView::Unread => Some(Err(ErrorView::Unknown(MISREAD@))),
    }
}

/// What the request for `url` gives, `fetched` being the response or the
/// report of why there is none.
///
/// A URL of no family gives no records, no URLs to follow and no failure,
/// whatever `fetched` is. For a URL of a family, a request that failed and a
/// response whose status is not a success are failures; else see
/// `extracted`.
pub open spec fn scraped(url: Seq<char>, fetched: Result<(u16, BodyView), Seq<char>>) -> ScrapedView {
    match family_of(url) {
        None => Some(Ok((Seq::empty(), Seq::empty()))),
        Some(family) => match fetched {
            Err(report) => Some(Err(ErrorView::ScrapeError { url, error: report })),
            Ok((status, body)) => if 200 <= status < 300 {
                extracted(url, family, body)
            } else {
                Some(Err(ErrorView::RequestReturnedError { url, status_code: status }))
            },
        },
    }
}

/// `fetched` over mathematical values.
pub open spec fn fetched_view(fetched: Result<Response, String>) -> Result<(u16, BodyView), Seq<char>> {
    match fetched {
        Ok(response) => Ok((response.status@, response.body@)),
        Err(report) => Err(report@),
    }
}

/// The path by which the record `item`, found at `url`, is filed: that of the
/// episode's own page for an episode, else that of `url`. `None` where `url`,
/// or the address of the episode's page, is no URL.
pub open spec fn source_path(url: Seq<char>, item: ItemView) -> Option<Seq<char>> {
    match url_path(url) {
        None => None,
        Some(path) => match item {
            ItemView::PoddMeta { meta_url, .. } => url_path(meta_url),
            _ => Some(path),
        },
    }
}

/// The job of writing `item`, filed by `path` below `root`, as `bytes`: the
/// directory and the file that the path and the record's format give. A
/// page that is not filed has no bytes. The reply is the file's path for a
/// page that is filed, and empty otherwise.
pub open spec fn job_of(root: Seq<char>, path: Seq<char>, item: ItemView, bytes: Seq<u8>) -> JobView {
    let outcome = derived(root, path, format_of(item));
    JobView {
        dir: derived_dir(root, path, format_of(item)),
        outcome,
        bytes: match outcome {
            OutcomeView::Write { .. } => bytes,
            OutcomeView::Skip => Seq::empty(),
        },
        reply: match outcome {
            OutcomeView::Write { path: file, format: Format::GzipHtml } => file,
            _ => Seq::empty(),
        },
    }
}

fn misread() -> (r: Option<Result<(Vec<Item>, Vec<String>), Error>>)
    ensures
        scraped_view(r) == Some(
            Err::<(Seq<ItemView>, Seq<Seq<char>>), ErrorView>(ErrorView::Unknown(MISREAD@)),
        ),
{
    Some(Err(Error::Unknown(String::from_str(MISREAD))))
}

fn unread(url: String, report: String) -> (r: Option<Result<(Vec<Item>, Vec<String>), Error>>)
    ensures
        scraped_view(r) == Some(
            Err::<(Seq<ItemView>, Seq<Seq<char>>), ErrorView>(
                ErrorView::FailedToGetData { url: url@, error: report@ },
            ),
        ),
{
    Some(Err(Error::FailedToGetData { url, error: report }))
}

fn found(records: Option<(Vec<Item>, Vec<String>)>) -> (r: Option<
    Result<(Vec<Item>, Vec<String>), Error>,
>)
    ensures
        scraped_view(r) == match records {
            Some((items, urls)) => Some(
                Ok::<(Seq<ItemView>, Seq<Seq<char>>), ErrorView>((item_views(items@), views(urls@))),
            ),
            None => None,
        },
{
    match records {
        Some(records) => Some(Ok(records)),
        None => None,
    }
}

impl OmvarldenSpider {
    /// The spider with the given settings. The output path is taken as it
    /// is: it names a directory that exists.
    pub fn new(options: OmvarldenSpiderOptions) -> (r: Self)
        ensures
            r.output_path@ == options.output_path@,
            r.user_agent@ == match options.user_agent {
                Some(user_agent) => user_agent@,
                None => APP_USER_AGENT@,
            },
    {
        let user_agent = match options.user_agent {
            Some(user_agent) => user_agent,
            None => String::from_str(APP_USER_AGENT),
        };
        OmvarldenSpider { user_agent, output_path: options.output_path }
    }

    /// The spider as it is printed for inspection: a fixed text that shows
    /// neither the user agent nor the output path.
    pub fn debug_text(&self) -> (r: String)
        ensures
            r@ == "OmvarldenSpider { /* omitted */ }"@,
    {
        String::from_str(DEBUG_TEXT)
    }

    /// The name of this spider.
    pub fn name(&self) -> (r: String)
        ensures
            r@ == NAME@,
    {
        String::from_str(NAME)
    }

    /// The URLs at which a crawl begins: the root of the site, and the first
    /// page of the episode listing.
    pub fn start_urls(&self) -> (r: Vec<String>)
        ensures
            views(r@) == seq![BASE_URL@, FEED_START_URL@],
    {
        let mut urls: Vec<String> = Vec::new();
        urls.push(String::from_str(BASE_URL));
        urls.push(String::from_str(FEED_START_URL));
        assert(views(urls@) =~= seq![BASE_URL@, FEED_START_URL@]);
        urls
    }

    /// The records and follow-up URLs that the request for `url` gives; see
    /// `scraped`. `None` where the body lacks the structure that extraction
    /// depends on: the caller must not go on with it.
    pub fn scrape(&self, url: String, fetched: Result<Response, String>) -> (r: Option<
        Result<(Vec<Item>, Vec<String>), Error>,
    >)
        ensures
            scraped_view(r) == scraped(url@, fetched_view(fetched)),
    {
        let family = match classify(url.as_str()) {
            Some(family) => family,
            None => {
                let items: Vec<Item> = Vec::new();
                let urls: Vec<String> = Vec::new();
                assert(item_views(items@) =~= Seq::empty());
                assert(views(urls@) =~= Seq::empty());
                return Some(Ok((items, urls)));
            },
        };
        let response = match fetched {
            Ok(response) => response,
            Err(report) => {
                return Some(Err(Error::ScrapeError { url, error: report }));
            },
        };
        if !response.status.is_success() {
            return Some(Err(Error::RequestReturnedError { url, status_code: response.status }));
        }
        match response.body {
            Body::Failed(report) => unread(url, report),
            Body::Text(text) => match family {
                Family::Page => found(extract_page(text)),
                Family::FeedListing => found(extract_feed(text.as_str())),
                Family::Media => misread(),
            },
            Body::Bytes(bytes) => match family {
                Family::Media => {
                    let records = media_records(bytes);
                    assert(views(records.1@) =~= Seq::empty());
                    Some(Ok(records))
                },
                _ => misread(),
            },
            Body::Unread => misread(),
        }
    }

    /// The job of writing out `item`, which was found at `url`; see `job_of`.
    ///
    /// `None` where there is no path to file the record by, `url` or the
    /// address of an episode's page being no URL: the caller must not go on
    /// with it. A failure where the record's file is named but its bytes
    /// cannot be had, because the encoder fails. Else the job, whose bytes,
    /// where a file is named, are those of `encoded`.
    pub fn process(&self, url: &str, item: Item) -> (r: Option<Result<Job, Error>>)
        ensures
            r is None <==> source_path(url@, item@) is None,
            r matches Some(Ok(job)) ==> {
                let path = source_path(url@, item@).unwrap();
                &&& job@ == job_of(self.output_path@, path, item@, job@.bytes)
                &&& job@.outcome is Write ==> encoded(item@) == Some(job@.bytes)
            },
            r matches Some(Err(e)) ==> {
                let path = source_path(url@, item@).unwrap();
                &&& encoded(item@) is None
                &&& derived(self.output_path@, path, format_of(item@)) matches OutcomeView::Write {
                    path: file,
                    format,
                }
                &&& is_encode_failure(e@, file, format)
            },
    {
        let own_path = match parse_url_path(url) {
            Some(path) => path,
            None => {
                return None;
            },
        };
        let path = match &item {
            Item::PoddMeta { meta_url, .. } => match parse_url_path(meta_url.as_str()) {
                Some(path) => path,
                None => {
                    return None;
                },
            },
            _ => own_path,
        };
        assert(source_path(url@, item@) == Some(path@));
        let format = item.format();
        let root = self.output_path.as_str();
        let dir = derive_dir(root, path.as_str(), format);
        match derive_path(root, path.as_str(), format) {
            Outcome::Skip => Some(
                Ok(Job { dir, outcome: Outcome::Skip, bytes: Vec::new(), reply: String::new() }),
            ),
            Outcome::Write { path: file, format } => match item.encode() {
                Ok(bytes) => {
                    let reply = match format {
                        Format::GzipHtml => file.clone(),
                        _ => String::new(),
                    };
                    Some(Ok(Job { dir, outcome: Outcome::Write { path: file, format }, bytes, reply }))
                },
                Err(report) => Some(Err(encode_error(file, format, report))),
            },
        }
    }
}

} // verus!
