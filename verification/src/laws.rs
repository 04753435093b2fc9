//! What holds of every crawl: statements that relate the functions of this
//! library to one another, each proved from their definitions.

use crate::derive::{
    derived, derived_dir, is_section, last_piece, media_file, meta_root, nested, page_dir,
    page_file, page_file_name, Format, OutcomeView,
};
use crate::error::ErrorView;
use crate::extract::{follows_from, lemma_page_links_come_from_targets, page_hrefs, page_links};
use crate::family::{family_of, Family};
use crate::item::ItemView;
use crate::omvarlden::{job_of, scraped, BodyView};
use crate::path::{
    is_below, joined, lemma_joined_is_below, lemma_suffixed_is_below, with_suffix,
};
use crate::sink::{encoded, format_of};
use crate::text::{last_index_of, lemma_split_on_last, split_on};
use vstd::prelude::*;

verus! {

/// What follows the last `/` of `url_path`.
pub open spec fn last_segment(url_path: Seq<char>) -> Seq<char> {
    url_path.subrange(last_index_of(url_path, '/') + 1, url_path.len() as int)
}

/// A URL of no family gives no records and no URLs to follow, and no
/// failure, whatever came of the request for it.
pub proof fn law_no_family_no_failure(url: Seq<char>, fetched: Result<(u16, BodyView), Seq<char>>)
    requires
        family_of(url) is None,
    ensures
        scraped(url, fetched) == Some(
            Ok::<(Seq<ItemView>, Seq<Seq<char>>), ErrorView>((Seq::empty(), Seq::empty())),
        ),
{
}

/// A page that was fetched with success and can be searched gives its body
/// as its one record, and as follow-up URLs those that `page_links` picks
/// from its links; each of them is the base URL followed by the target of
/// one of the links, a path from the root.
pub proof fn law_page_follow_ups(url: Seq<char>, status: u16, body: Seq<char>, i: int)
    requires
        family_of(url) == Some(Family::Page),
        200 <= status < 300,
        page_hrefs(body) is Some,
        0 <= i < page_links(page_hrefs(body).unwrap()).len(),
    ensures
        scraped(url, Ok((status, BodyView::Text(body)))) == Some(
            Ok::<(Seq<ItemView>, Seq<Seq<char>>), ErrorView>(
                (seq![ItemView::Html(body)], page_links(page_hrefs(body).unwrap())),
            ),
        ),
        exists|j: int|
            follows_from(page_hrefs(body).unwrap(), j, page_links(page_hrefs(body).unwrap())[i]),
{
    lemma_page_links_come_from_targets(page_hrefs(body).unwrap(), i);
}

/// No section has the empty name, and none is named like the index page.
proof fn lemma_section_names()
    ensures
        !is_section(Seq::<char>::empty()),
        !is_section("index"@),
{
    reveal_strlit("nyheter");
    reveal_strlit("globala-malen");
    reveal_strlit("opinion");
    reveal_strlit("reportage");
    reveal_strlit("intervjuer");
    reveal_strlit("poddar");
    reveal_strlit("teman");
    reveal_strlit("index");
    assert("nyheter"@.len() == 7);
    assert("globala-malen"@.len() == 13);
    assert("opinion"@.len() == 7);
    assert("reportage"@.len() == 9);
    assert("intervjuer"@.len() == 10);
    assert("poddar"@.len() == 6);
    assert("teman"@.len() == 5);
    assert("index"@.len() == 5);
    assert("index"@[0] == 'i');
    assert("teman"@[0] == 't');
}

/// The last piece of a path is what follows its last `/`.
proof fn lemma_last_piece(url_path: Seq<char>)
    ensures
        last_piece(url_path) == last_segment(url_path),
{
    lemma_split_on_last(url_path, '/');
}

/// The root path has two pieces, both empty.
proof fn lemma_root_path()
    ensures
        "/"@.len() == 1,
        last_segment("/"@) == Seq::<char>::empty(),
        forall|base: Seq<char>| nested(base, split_on("/"@, '/').drop_last()) == base,
{
    reveal_strlit("/");
    let s = "/"@;
    let none = Seq::<char>::empty();
    assert(s.len() == 1 && s[0] == '/');
    assert(s.drop_last() =~= none);
    assert(split_on(none, '/') =~= seq![none]);
    assert(split_on(s, '/') =~= seq![none, none]);
    assert(split_on(s, '/').drop_last() =~= seq![none]);
    assert(seq![none].drop_last() =~= Seq::<Seq<char>>::empty());
    assert forall|base: Seq<char>| nested(base, seq![none]) == base by {
        assert(nested(base, seq![none].drop_last()) == base);
    }
    lemma_split_on_last(s, '/');
}

/// A page whose path ends in the name of a section is not filed: no file is
/// named, there are no bytes to write, and the reply is empty.
pub proof fn law_section_page_is_skipped(
    root: Seq<char>,
    url_path: Seq<char>,
    body: Seq<char>,
    bytes: Seq<u8>,
)
    requires
        is_section(last_segment(url_path)),
    ensures
        derived(root, url_path, Format::GzipHtml) is Skip,
        job_of(root, url_path, ItemView::Html(body), bytes).outcome is Skip,
        job_of(root, url_path, ItemView::Html(body), bytes).bytes.len() == 0,
        job_of(root, url_path, ItemView::Html(body), bytes).reply.len() == 0,
{
    lemma_last_piece(url_path);
    lemma_section_names();
    lemma_root_path();
}

/// A media file is written byte for byte, to the file that its path names
/// below the output directory.
pub proof fn law_media_is_written_verbatim(root: Seq<char>, url_path: Seq<char>, bytes: Seq<u8>)
    ensures
        encoded(ItemView::Podd(bytes)) == Some(bytes),
        job_of(root, url_path, ItemView::Podd(bytes), bytes).bytes == bytes,
        job_of(root, url_path, ItemView::Podd(bytes), bytes).outcome == (OutcomeView::Write {
            path: media_file(root, url_path),
            format: Format::Raw,
        }),
{
}

/// Where a record goes depends on its path and its format alone: two
/// records of one format that are filed by the same path have the same
/// directory, file and reply, whatever they hold.
pub proof fn law_same_path_same_file(
    root: Seq<char>,
    url_path: Seq<char>,
    first: ItemView,
    first_bytes: Seq<u8>,
    second: ItemView,
    second_bytes: Seq<u8>,
)
    requires
        format_of(first) == format_of(second),
    ensures
        job_of(root, url_path, first, first_bytes).dir == job_of(
            root,
            url_path,
            second,
            second_bytes,
        ).dir,
        job_of(root, url_path, first, first_bytes).outcome == job_of(
            root,
            url_path,
            second,
            second_bytes,
        ).outcome,
        job_of(root, url_path, first, first_bytes).reply == job_of(
            root,
            url_path,
            second,
            second_bytes,
        ).reply,
{
}

/// The page at the root of the site is filed as the index page, directly
/// in the output directory. Only the path of the URL is read, so a query or
/// a fragment changes nothing.
pub proof fn law_root_page_is_index(root: Seq<char>)
    ensures
        derived(root, "/"@, Format::GzipHtml) == (OutcomeView::Write {
            path: joined(root, "index.html.gz"@),
            format: Format::GzipHtml,
        }),
        derived_dir(root, "/"@, Format::GzipHtml) == root,
{
    lemma_root_path();
    lemma_section_names();
    reveal_strlit("index");
    reveal_strlit("html.gz");
    reveal_strlit("index.html.gz");
    assert(page_dir(root, "/"@) == root);
    assert("index"@ + seq!['.'] + "html.gz"@ =~= "index.html.gz"@);
    assert(with_suffix(joined(root, "index"@), "html.gz"@) =~= joined(root, "index.html.gz"@));
}

/// A page that is not at the root of the site, and whose path does not end
/// in the name of a section, is filed under the whole of what follows the
/// last `/` of its path, followed by `.html.gz`, in the directory that the
/// rest of its path names.
pub proof fn law_page_keeps_its_name(root: Seq<char>, url_path: Seq<char>)
    requires
        url_path != "/"@,
        !is_section(last_segment(url_path)),
    ensures
        derived(root, url_path, Format::GzipHtml) == (OutcomeView::Write {
            path: joined(page_dir(root, url_path), last_segment(url_path)) + ".html.gz"@,
            format: Format::GzipHtml,
        }),
{
    lemma_last_piece(url_path);
    reveal_strlit("html.gz");
    reveal_strlit(".html.gz");
    let file = joined(page_dir(root, url_path), last_segment(url_path));
    assert(with_suffix(file, "html.gz"@) =~= file + ".html.gz"@);
}

/// Two pages of one directory whose names differ are filed apart.
pub proof fn law_pages_do_not_collide(root: Seq<char>, first: Seq<char>, second: Seq<char>)
    requires
        first != "/"@,
        second != "/"@,
        page_dir(root, first) == page_dir(root, second),
        last_segment(first) != last_segment(second),
    ensures
        page_file(root, first) != page_file(root, second),
{
    lemma_last_piece(first);
    lemma_last_piece(second);
    let dir = page_dir(root, first);
    let a = last_segment(first);
    let b = last_segment(second);
    let before = joined(dir, Seq::<char>::empty());
    assert(joined(dir, a) =~= before + a);
    assert(joined(dir, b) =~= before + b);
    let fa = page_file(root, first);
    let fb = page_file(root, second);
    if fa == fb {
        assert(fa.len() == before.len() + a.len() + 1 + "html.gz"@.len());
        assert(fb.len() == before.len() + b.len() + 1 + "html.gz"@.len());
        assert forall|k: int| 0 <= k < a.len() implies a[k] == b[k] by {
            assert(fa[before.len() + k] == a[k]);
            assert(fb[before.len() + k] == b[k]);
        }
        assert(a =~= b);
    }
}

/// Directories nested below a path that lies below `root` lie below `root`.
proof fn lemma_nested_is_below(root: Seq<char>, base: Seq<char>, parts: Seq<Seq<char>>)
    requires
        is_below(root, base),
    ensures
        is_below(root, nested(base, parts)),
    decreases parts.len(),
{
    if parts.len() > 0 {
        lemma_nested_is_below(root, base, parts.drop_last());
        lemma_joined_is_below(root, nested(base, parts.drop_last()), parts.last());
    }
}

/// Nothing is written outside the output directory: the directory that a
/// record asks for is the output directory or lies below it, and so does
/// the record's file, whatever the path of its URL.
pub proof fn law_files_stay_below_root(root: Seq<char>, url_path: Seq<char>, format: Format)
    ensures
        is_below(root, derived_dir(root, url_path, format)),
        derived(root, url_path, format) matches OutcomeView::Write { path, .. } ==> is_below(
            root,
            path,
        ),
{
    let parts = split_on(url_path, '/').drop_last();
    assert(is_below(root, root)) by {
        assert(root =~= root.subrange(0, root.len() as int));
    }
    lemma_joined_is_below(root, root, crate::derive::META_DIR@);
    lemma_nested_is_below(root, root, parts);
    lemma_nested_is_below(root, meta_root(root), parts);
    let dir = derived_dir(root, url_path, format);
    match format {
        Format::GzipHtml => {
            lemma_suffixed_is_below(
                root,
                dir,
                page_file_name(url_path),
                crate::derive::PAGE_EXTENSION@,
            );
        },
        Format::Raw => {
            lemma_joined_is_below(root, dir, last_piece(url_path));
        },
        Format::Json => {
            lemma_suffixed_is_below(
                root,
                dir,
                crate::path::stem_of(last_piece(url_path)),
                crate::derive::META_EXTENSION@,
            );
        },
    }
}

} // verus!
