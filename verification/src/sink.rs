//! From a record to the bytes of its file, and the work that writing it takes.

use crate::derive::{Format, Outcome, OutcomeView};
use crate::encode::{gzip, gzipped, json_object, write_json_object};
use crate::error::{Error, ErrorView};
use crate::item::{Item, ItemView};
use vstd::prelude::*;
use vstd::utf8::encode_utf8;

verus! {

/// The form in which `item` is written out.
pub open spec fn format_of(item: ItemView) -> Format {
    match item {
        ItemView::Html(_) => Format::GzipHtml,
        ItemView::PoddMeta { .. } => Format::Json,
        ItemView::Podd(_) => Format::Raw,
    }
}

/// The members of the JSON document of an episode, in the order in which
/// they are written.
pub open spec fn json_members(
    title: Seq<char>,
    release_date: Seq<char>,
    description: Option<Seq<char>>,
    mp3_url: Seq<char>,
) -> Seq<(Seq<char>, Option<Seq<char>>)> {
    seq![
        ("title"@, Some(title)),
        ("release_date"@, Some(release_date)),
        ("description"@, description),
        ("mp3_url"@, Some(mp3_url)),
    ]
}

/// The bytes of the file of `item`: a page's text in UTF-8, compressed; an
/// episode's title, release date, description and media address as a JSON
/// document; a media file's bytes as they are. `None` where the encoder
/// fails.
pub open spec fn encoded(item: ItemView) -> Option<Seq<u8>> {
    match item {
        ItemView::Html(body) => gzipped(encode_utf8(body)),
        ItemView::PoddMeta { meta_url, title, release_date, description, mp3_url } => json_object(
            json_members(title, release_date, description, mp3_url),
        ),
        ItemView::Podd(bytes) => Some(bytes),
    }
}

impl Item {
    /// `format_of`, computed.
    pub fn format(&self) -> (r: Format)
        ensures
            r == format_of(self@),
    {
        match self {
            Item::Html(_) => Format::GzipHtml,
            Item::PoddMeta { .. } => Format::Json,
            Item::Podd(_) => Format::Raw,
        }
    }

    /// `encoded`, computed; where the encoder fails, its report.
    pub fn encode(self) -> (r: Result<Vec<u8>, String>)
        ensures
            match r {
                Ok(bytes) => encoded(self@) == Some(bytes@),
                Err(_) => encoded(self@) is None,
            },
    {
        match self {
            Item::Html(body) => gzip(body.as_str().as_bytes()),
            Item::PoddMeta { meta_url, title, release_date, description, mp3_url } => {
                let mut members: Vec<(String, Option<String>)> = Vec::new();
                members.push((String::from_str("title"), Some(title)));
                members.push((String::from_str("release_date"), Some(release_date)));
                members.push((String::from_str("description"), description));
                members.push((String::from_str("mp3_url"), Some(mp3_url)));
                assert(members.deep_view() =~= json_members(
                    title@,
                    release_date@,
                    description.deep_view(),
                    mp3_url@,
                ));
                write_json_object(&members)
            },
            Item::Podd(bytes) => Ok(bytes),
        }
    }
}

/// The work that writing one record takes, in this order: make sure that
/// `dir` exists, create the file that `outcome` names, write `bytes` to it.
/// `reply` is what the engine is told once that went well.
#[derive(Debug)]
pub struct Job {
    /// The directory that must exist, created with all that is above it.
    pub dir: String,
    /// The file to write, or that there is none.
    pub outcome: Outcome,
    /// What the file holds; empty where there is none.
    pub bytes: Vec<u8>,
    /// What is reported to the engine.
    pub reply: String,
}

/// What a [`Job`] holds, as mathematical values.
pub struct JobView {
    pub dir: Seq<char>,
    pub outcome: OutcomeView,
    pub bytes: Seq<u8>,
    pub reply: Seq<char>,
}

impl View for Job {
    type V = JobView;

    open spec fn view(&self) -> JobView {
        JobView {
            dir: self.dir@,
            outcome: self.outcome@,
            bytes: self.bytes@,
            reply: self.reply@,
        }
    }
}

/// A step of a [`Job`].
#[derive(Debug, Clone, Copy, PartialEq, Eq, Structural)]
pub enum Stage {
    CreateDir,
    CreateFile,
    WriteFile,
}

/// The failure to encode a record for the file `path`, with the encoder's
/// report.
pub open spec fn encode_failure(path: Seq<char>, format: Format, report: Seq<char>) -> ErrorView {
    match format {
        Format::Json => ErrorView::FailedWritingJson { path, error: report },
        _ => ErrorView::FailedWritingFile { path, error: report },
    }
}

/// Whether `e` is the failure to encode a record for the file `path`,
/// whatever the encoder's report.
pub open spec fn is_encode_failure(e: ErrorView, path: Seq<char>, format: Format) -> bool {
    match format {
        Format::Json => e matches ErrorView::FailedWritingJson { path: p, .. } && p == path,
        _ => e matches ErrorView::FailedWritingFile { path: p, .. } && p == path,
    }
}

/// `encode_failure`, computed.
pub fn encode_error(path: String, format: Format, report: String) -> (r: Error)
    ensures
        r@ == encode_failure(path@, format, report@),
{
    match format {
        Format::Json => Error::FailedWritingJson { path, error: report },
        _ => Error::FailedWritingFile { path, error: report },
    }
}

impl JobView {
    /// The failure to report where `stage` went wrong with `report`; `None`
    /// where the job has no such step. That a directory or a file could not
    /// be created is reported alike, with the path that was to be created;
    /// that a file could not be written, by its format.
    pub open spec fn failure(self, stage: Stage, report: Seq<char>) -> Option<ErrorView> {
        match stage {
            Stage::CreateDir => Some(ErrorView::CantCreateDir { path: self.dir, error: report }),
            Stage::CreateFile => match self.outcome {
                OutcomeView::Write { path, format } => Some(
                    ErrorView::CantCreateDir { path, error: report },
                ),
                OutcomeView::Skip => None,
            },
            Stage::WriteFile => match self.outcome {
                OutcomeView::Write { path, format } => Some(encode_failure(path, format, report)),
                OutcomeView::Skip => None,
            },
        }
    }
}

impl Job {
    /// `failure`, computed.
    pub fn failure(&self, stage: Stage, report: String) -> (r: Option<Error>)
        ensures
            r.is_some() == self@.failure(stage, report@).is_some(),
            r matches Some(e) ==> self@.failure(stage, report@) == Some(e@),
    {
        match stage {
            Stage::CreateDir => Some(
                Error::CantCreateDir { path: self.dir.clone(), error: report },
            ),
            Stage::CreateFile => match &self.outcome {
                Outcome::Write { path, format } => Some(
                    Error::CantCreateDir { path: path.clone(), error: report },
                ),
                Outcome::Skip => None,
            },
            Stage::WriteFile => match &self.outcome {
                Outcome::Write { path, format } => Some(
                    encode_error(path.clone(), *format, report),
                ),
                Outcome::Skip => None,
            },
        }
    }
}

} // verus!
