//! From the path of a URL to the file that its record becomes.

use crate::path::{add_suffix, file_stem, join_path, joined, stem_of, with_suffix};
use crate::text::{lemma_split_on_nonempty, split, split_on, str_eq, views};
use vstd::prelude::*;

verus! {

/// The directory, below the output directory, that holds episode records.
pub const META_DIR: &'static str = "podd_meta";

/// The name under which the page at the root of the site is filed.
pub const INDEX_NAME: &'static str = "index";

/// The extension of a compressed page.
pub const PAGE_EXTENSION: &'static str = "html.gz";

/// The extension of an episode record.
pub const META_EXTENSION: &'static str = "json";

/// The form in which a record is written out.
#[derive(Debug, Clone, Copy, PartialEq, Eq, Structural)]
pub enum Format {
    /// A page, as gzip-compressed HTML.
    GzipHtml,
    /// A media file, byte for byte.
    Raw,
    /// An episode record, as a JSON document.
    Json,
}

/// What becomes of a record: a file at `path` in `format`, or nothing.
#[derive(Debug, Clone)]
pub enum Outcome {
    Write { path: String, format: Format },
    Skip,
}

/// What an [`Outcome`] holds, as mathematical values.
pub enum OutcomeView {
    Write { path: Seq<char>, format: Format },
    Skip,
}

impl View for Outcome {
    type V = OutcomeView;

    open spec fn view(&self) -> OutcomeView {
        match self {
            Outcome::Write { path, format } => OutcomeView::Write { path: path@, format: *format },
            Outcome::Skip => OutcomeView::Skip,
        }
    }
}

/// Whether `name` is one of the site's sections. The page of a section is not
/// filed: its name is that of the directory that holds the section's pages.
pub open spec fn is_section(name: Seq<char>) -> bool {
    ||| name == "nyheter"@
    ||| name == "globala-malen"@
    ||| name == "opinion"@
    ||| name == "reportage"@
    ||| name == "intervjuer"@
    ||| name == "poddar"@
    ||| name == "teman"@
}

/// `is_section`, computed.
pub fn is_section_name(name: &str) -> (r: bool)
    ensures
        r == is_section(name@),
{
    str_eq(name, "nyheter") || str_eq(name, "globala-malen") || str_eq(name, "opinion") || str_eq(
        name,
        "reportage",
    ) || str_eq(name, "intervjuer") || str_eq(name, "poddar") || str_eq(name, "teman")
}

/// `base` with each piece of `parts` that is not empty joined on as a further
/// directory, in order.
pub open spec fn nested(base: Seq<char>, parts: Seq<Seq<char>>) -> Seq<char>
    decreases parts.len(),
{
    if parts.len() == 0 {
        base
    } else {
        let above = nested(base, parts.drop_last());
        if parts.last().len() == 0 {
            above
        } else {
            joined(above, parts.last())
        }
    }
}

/// The last piece of `url_path`: what follows its last `/`.
pub open spec fn last_piece(url_path: Seq<char>) -> Seq<char> {
    split_on(url_path, '/').last()
}

/// The directory for `url_path` below `base`: one directory for each piece
/// of the path but the last, empty pieces left out.
pub open spec fn dir_below(base: Seq<char>, url_path: Seq<char>) -> Seq<char> {
    nested(base, split_on(url_path, '/').drop_last())
}

/// The name under which the page at `url_path` is filed, before its
/// extension: the index name for the root of the site, else the whole last
/// piece of the path.
pub open spec fn page_file_name(url_path: Seq<char>) -> Seq<char> {
    if url_path == "/"@ {
        INDEX_NAME@
    } else {
        last_piece(url_path)
    }
}

/// The directory in which the page at `url_path` is filed.
pub open spec fn page_dir(root: Seq<char>, url_path: Seq<char>) -> Seq<char> {
    dir_below(root, url_path)
}

/// The file of the page at `url_path`: its name, followed by the extension
/// of a page, in its directory.
pub open spec fn page_file(root: Seq<char>, url_path: Seq<char>) -> Seq<char> {
    with_suffix(joined(page_dir(root, url_path), page_file_name(url_path)), PAGE_EXTENSION@)
}

/// The file of the media file at `url_path`: the path below `root`, its
/// last piece unchanged.
pub open spec fn media_file(root: Seq<char>, url_path: Seq<char>) -> Seq<char> {
    joined(dir_below(root, url_path), last_piece(url_path))
}

/// The directory for episode records below `root`.
pub open spec fn meta_root(root: Seq<char>) -> Seq<char> {
    joined(root, META_DIR@)
}

/// The file of the episode whose page is at `url_path`: the path below the
/// directory for episode records, the extension of its last piece replaced
/// by that of such a record.
pub open spec fn meta_file(root: Seq<char>, url_path: Seq<char>) -> Seq<char> {
    with_suffix(
        joined(dir_below(meta_root(root), url_path), stem_of(last_piece(url_path))),
        META_EXTENSION@,
    )
}

/// What becomes of the record in `format` that was found at `url_path`, with
/// `root` as the output directory.
pub open spec fn derived(root: Seq<char>, url_path: Seq<char>, format: Format) -> OutcomeView {
    match format {
        Format::GzipHtml => if is_section(page_file_name(url_path)) {
            OutcomeView::Skip
        } else {
            OutcomeView::Write { path: page_file(root, url_path), format }
        },
        Format::Raw => OutcomeView::Write { path: media_file(root, url_path), format },
        Format::Json => OutcomeView::Write { path: meta_file(root, url_path), format },
    }
}

/// The directory that must exist before the record is written: the one that
/// holds its file. For a page it is named whether or not the page itself is
/// filed.
pub open spec fn derived_dir(root: Seq<char>, url_path: Seq<char>, format: Format) -> Seq<char> {
    match format {
        Format::Json => dir_below(meta_root(root), url_path),
        _ => dir_below(root, url_path),
    }
}

fn nest(base: String, parts: &Vec<String>) -> (r: String)
    ensures
        r@ == nested(base@, views(parts@)),
{
    let ghost all = views(parts@);
    let ghost from = base@;
    let mut dir = base;
    let mut i: usize = 0;
    assert(all.subrange(0, 0) =~= Seq::<Seq<char>>::empty());
    while i < parts.len()
        invariant
            i <= parts.len(),
            all == views(parts@),
            dir@ == nested(from, all.subrange(0, i as int)),
        decreases parts.len() - i,
    {
        assert(all.subrange(0, i + 1).drop_last() =~= all.subrange(0, i as int));
        assert(all.subrange(0, i + 1).last() == parts[i as int]@);
        if parts[i].as_str().unicode_len() > 0 {
            dir = join_path(dir.as_str(), parts[i].as_str());
        }
        i += 1;
    }
    assert(all.subrange(0, i as int) =~= all);
    dir
}

fn dir_and_last(base: String, url_path: &str) -> (r: (String, String))
    ensures
        r.0@ == dir_below(base@, url_path@),
        r.1@ == last_piece(url_path@),
{
    let mut parts = split(url_path, '/');
    proof {
        lemma_split_on_nonempty(url_path@, '/');
    }
    let ghost all = views(parts@);
    let last = parts.pop().unwrap();
    assert(views(parts@) =~= all.drop_last());
    (nest(base, &parts), last)
}

/// `derived`, computed.
pub fn derive_path(root: &str, url_path: &str, format: Format) -> (r: Outcome)
    ensures
        r@ == derived(root@, url_path@, format),
{
    match format {
        Format::GzipHtml => {
            let (dir, last) = dir_and_last(String::from_str(root), url_path);
            let name = if str_eq(url_path, "/") {
                String::from_str(INDEX_NAME)
            } else {
                last
            };
            if is_section_name(name.as_str()) {
                Outcome::Skip
            } else {
                let file = join_path(dir.as_str(), name.as_str());
                Outcome::Write { path: add_suffix(file, PAGE_EXTENSION), format }
            }
        },
        Format::Raw => {
            let (dir, last) = dir_and_last(String::from_str(root), url_path);
            Outcome::Write { path: join_path(dir.as_str(), last.as_str()), format }
        },
        Format::Json => {
            let (dir, last) = dir_and_last(join_path(root, META_DIR), url_path);
            let file = join_path(dir.as_str(), file_stem(last.as_str()).as_str());
            Outcome::Write { path: add_suffix(file, META_EXTENSION), format }
        },
    }
}

/// `derived_dir`, computed.
pub fn derive_dir(root: &str, url_path: &str, format: Format) -> (r: String)
    ensures
        r@ == derived_dir(root@, url_path@, format),
{
    let base = match format {
        Format::Json => join_path(root, META_DIR),
        _ => String::from_str(root),
    };
    let (dir, _) = dir_and_last(base, url_path);
    dir
}

} // verus!
