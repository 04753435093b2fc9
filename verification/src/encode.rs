//! The encodings in which records are written out, and the reading of URLs:
//! what `flate2`, `serde_json` and `reqwest` compute for this library.

use flate2::write::GzEncoder;
use flate2::Compression;
use std::io::Write;
use vstd::prelude::*;

verus! {

/// The path component of `url`, as `reqwest::Url` reads it; `None` where
/// `url` is no URL.
pub uninterp spec fn url_path(url: Seq<char>) -> Option<Seq<char>>;

/// The gzip stream that `flate2` writes for `data` at its best compression
/// level; `None` where the encoder reports a failure.
pub uninterp spec fn gzipped(data: Seq<u8>) -> Option<Seq<u8>>;

/// The JSON text that `serde_json` writes for the object that is filled
/// with the given members one after the other, a string or `null` each;
/// `None` where it reports a failure.
pub uninterp spec fn json_object(members: Seq<(Seq<char>, Option<Seq<char>>)>) -> Option<Seq<u8>>;

/// `Url::parse` and `Url::path` of `reqwest`. Parsing reads nothing but its
/// argument, so the path is a function of the text, and is named.
#[verifier::external_body]
pub(crate) fn parse_url_path(url: &str) -> (r: Option<String>)
    ensures
        r.deep_view() == url_path(url@),
{
    reqwest::Url::parse(url).ok().map(|u| u.path().to_string())
}

/// `GzEncoder::new` with `Compression::best`, `write_all` and
/// `GzEncoder::finish` of `flate2`, into memory. The stream carries no time
/// stamp and no file name, so it is a function of the data, and is named; of
/// the report of a failure nothing is claimed.
#[verifier::external_body]
pub(crate) fn gzip(data: &[u8]) -> (r: Result<Vec<u8>, String>)
    ensures
        match r {
            Ok(stream) => gzipped(data@) == Some(stream@),
            Err(_) => gzipped(data@) is None,
        },
{
    let mut encoder = GzEncoder::new(Vec::new(), Compression::best());
    encoder.write_all(data).map_err(|e| e.to_string())?;
    encoder.finish().map_err(|e| e.to_string())
}

/// `Map::insert` for each member, then `serde_json::to_vec` on the object.
/// A member that is `None` becomes `null`. The text is a function of the
/// members, and is named; of the report of a failure nothing is claimed.
#[verifier::external_body]
pub(crate) fn write_json_object(members: &Vec<(String, Option<String>)>) -> (r: Result<
    Vec<u8>,
    String,
>)
    ensures
        match r {
            Ok(text) => json_object(members.deep_view()) == Some(text@),
            Err(_) => json_object(members.deep_view()) is None,
        },
{
    let mut object = serde_json::Map::new();
    for (name, value) in members {
        object.insert(name.clone(), serde_json::Value::from(value.clone()));
    }
    serde_json::to_vec(&serde_json::Value::Object(object)).map_err(|e| e.to_string())
}

} // verus!
