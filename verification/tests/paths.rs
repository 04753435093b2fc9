use omvarlden_spider::derive::{derive_dir, derive_path, is_section_name, Format, Outcome};
use omvarlden_spider::path::{add_suffix, file_stem, join_path};
use omvarlden_spider::text::{rfind, split, starts_with, str_eq};

fn written(outcome: Outcome) -> (String, Format) {
    match outcome {
        Outcome::Write { path, format } => (path, format),
        Outcome::Skip => panic!("expected a file"),
    }
}

#[test]
fn starts_with_prefix_and_not() {
    assert!(starts_with("https://www.omvarlden.se/nyheter", "https://www.omvarlden.se"));
    assert!(starts_with("abc", ""));
    assert!(starts_with("abc", "abc"));
    assert!(!starts_with("ab", "abc"));
    assert!(!starts_with("abd", "abc"));
}

#[test]
fn str_eq_compares_characters() {
    assert!(str_eq("nyheter", "nyheter"));
    assert!(!str_eq("nyheter", "nyhete"));
    assert!(!str_eq("nyheter", "nyheteR"));
    assert!(str_eq("", ""));
}

#[test]
fn split_keeps_empty_pieces() {
    assert_eq!(split("/nyheter/some-article", '/'), vec!["", "nyheter", "some-article"]);
    assert_eq!(split("/", '/'), vec!["", ""]);
    assert_eq!(split("", '/'), vec![""]);
    assert_eq!(split("a//b/", '/'), vec!["a", "", "b", ""]);
    assert_eq!(split("å/ö", '/'), vec!["å", "ö"]);
}

#[test]
fn rfind_gives_last_position() {
    assert_eq!(rfind("a.b.c", '.', 5), Some(3));
    assert_eq!(rfind("a.b.c", '.', 3), Some(1));
    assert_eq!(rfind("a.b.c", '.', 1), None);
    assert_eq!(rfind("abc", '.', 3), None);
}

#[test]
fn join_path_puts_one_separator() {
    assert_eq!(join_path("/out", "nyheter"), "/out/nyheter");
    assert_eq!(join_path("/out/", "nyheter"), "/out/nyheter");
    assert_eq!(join_path("", "nyheter"), "nyheter");
    assert_eq!(join_path("/out", ""), "/out/");
    assert_eq!(join_path("/out", "a/b.mp3"), "/out/a/b.mp3");
}

#[test]
fn file_stem_cuts_at_the_last_dot() {
    assert_eq!(file_stem("episode-1"), "episode-1");
    assert_eq!(file_stem("ep.1.html"), "ep.1");
    assert_eq!(file_stem("index.html"), "index");
    assert_eq!(file_stem(".hidden"), ".hidden");
    assert_eq!(file_stem(".hidden.txt"), ".hidden");
    assert_eq!(file_stem("name."), "name");
    assert_eq!(file_stem(""), "");
}

#[test]
fn add_suffix_appends_dot_and_extension() {
    assert_eq!(add_suffix("/out/some-article".to_string(), "html.gz"), "/out/some-article.html.gz");
    assert_eq!(add_suffix("/out/a.b".to_string(), "json"), "/out/a.b.json");
    assert_eq!(add_suffix(String::new(), "json"), ".json");
}

#[test]
fn section_names_are_recognised() {
    for name in ["nyheter", "globala-malen", "opinion", "reportage", "intervjuer", "poddar", "teman"] {
        assert!(is_section_name(name));
    }
    assert!(!is_section_name("nyhet"));
    assert!(!is_section_name("index.html"));
    assert!(!is_section_name(""));
}

#[test]
fn page_path_nests_directories() {
    let (path, format) = written(derive_path("/out", "/nyheter/some-article", Format::GzipHtml));
    assert_eq!(path, "/out/nyheter/some-article.html.gz");
    assert_eq!(format, Format::GzipHtml);
    assert_eq!(derive_dir("/out", "/nyheter/some-article", Format::GzipHtml), "/out/nyheter");
    let (path, _) = written(derive_path("/out/", "/a//b/c", Format::GzipHtml));
    assert_eq!(path, "/out/a/b/c.html.gz");
    assert_eq!(derive_dir("/out/", "/a//b/c", Format::GzipHtml), "/out/a/b");
}

#[test]
fn page_root_is_index() {
    let (path, _) = written(derive_path("/out", "/", Format::GzipHtml));
    assert_eq!(path, "/out/index.html.gz");
    assert_eq!(derive_dir("/out", "/", Format::GzipHtml), "/out");
}

#[test]
fn page_of_a_section_is_skipped() {
    for name in ["nyheter", "globala-malen", "opinion", "reportage", "intervjuer", "poddar", "teman"] {
        let url_path = format!("/{}", name);
        assert!(matches!(derive_path("/out", &url_path, Format::GzipHtml), Outcome::Skip));
        assert_eq!(derive_dir("/out", &url_path, Format::GzipHtml), "/out");
    }
    assert!(matches!(derive_path("/out", "/teman/nyheter", Format::GzipHtml), Outcome::Skip));
    assert!(matches!(derive_path("/out", "nyheter", Format::GzipHtml), Outcome::Skip));
}

#[test]
fn page_keeps_its_whole_last_segment() {
    let (path, _) = written(derive_path("/out", "/a/page.html", Format::GzipHtml));
    assert_eq!(path, "/out/a/page.html.html.gz");
    let (path, _) = written(derive_path("/out", "/a/v1.2", Format::GzipHtml));
    assert_eq!(path, "/out/a/v1.2.html.gz");
    let (path, _) = written(derive_path("/out", "/index", Format::GzipHtml));
    assert_eq!(path, "/out/index.html.gz");
    let (path, _) = written(derive_path("/out", "/nyheter.html", Format::GzipHtml));
    assert_eq!(path, "/out/nyheter.html.html.gz");
}

#[test]
fn pages_that_differ_after_a_dot_are_filed_apart() {
    let (first, _) = written(derive_path("/out", "/a/b.x", Format::GzipHtml));
    let (second, _) = written(derive_path("/out", "/a/b.y", Format::GzipHtml));
    assert_eq!(first, "/out/a/b.x.html.gz");
    assert_eq!(second, "/out/a/b.y.html.gz");
    assert_ne!(first, second);
    let (first, _) = written(derive_path("/out", "/a/v1.2", Format::GzipHtml));
    let (second, _) = written(derive_path("/out", "/a/v1.3", Format::GzipHtml));
    assert_ne!(first, second);
}

#[test]
fn page_with_empty_last_segment_stays_in_its_directory() {
    let (path, _) = written(derive_path("/out", "/nyheter/", Format::GzipHtml));
    assert_eq!(path, "/out/nyheter/.html.gz");
    assert_eq!(derive_dir("/out", "/nyheter/", Format::GzipHtml), "/out/nyheter");
    let (path, _) = written(derive_path("/out", "//", Format::GzipHtml));
    assert_eq!(path, "/out/.html.gz");
    assert_eq!(derive_dir("/out", "//", Format::GzipHtml), "/out");
    let (path, _) = written(derive_path("/out", "", Format::GzipHtml));
    assert_eq!(path, "/out/.html.gz");
}

#[test]
fn every_file_stays_below_the_output_directory() {
    let url_paths = ["", "/", "//", "///", "//etc/x.mp3", "/a/", "/a//", "/..", "/a/b.c.d", "x"];
    for format in [Format::GzipHtml, Format::Raw, Format::Json] {
        for url_path in url_paths {
            let dir = derive_dir("/out", url_path, format);
            assert!(dir == "/out" || dir.starts_with("/out/"), "{:?} {:?}", url_path, dir);
            if let Outcome::Write { path, .. } = derive_path("/out", url_path, format) {
                assert!(path.starts_with("/out/"), "{:?} {:?}", url_path, path);
                assert!(path.starts_with(&dir), "{:?} {:?}", url_path, path);
            }
        }
    }
}

#[test]
fn media_path_mirrors_url_path() {
    let (path, format) = written(derive_path("/out", "/secure/show/ep1.mp3", Format::Raw));
    assert_eq!(path, "/out/secure/show/ep1.mp3");
    assert_eq!(format, Format::Raw);
    assert_eq!(derive_dir("/out", "/secure/show/ep1.mp3", Format::Raw), "/out/secure/show");
    let (path, _) = written(derive_path("/out", "//etc/x.mp3", Format::Raw));
    assert_eq!(path, "/out/etc/x.mp3");
    assert_eq!(derive_dir("/out", "//etc/x.mp3", Format::Raw), "/out/etc");
    let (path, _) = written(derive_path("/out", "/nyheter", Format::Raw));
    assert_eq!(path, "/out/nyheter");
}

#[test]
fn meta_path_goes_below_podd_meta_as_json() {
    let (path, format) = written(derive_path("/out", "/episode-1", Format::Json));
    assert_eq!(path, "/out/podd_meta/episode-1.json");
    assert_eq!(format, Format::Json);
    assert_eq!(derive_dir("/out", "/episode-1", Format::Json), "/out/podd_meta");
    let (path, _) = written(derive_path("/out", "/show/ep.1.html", Format::Json));
    assert_eq!(path, "/out/podd_meta/show/ep.1.json");
    assert_eq!(derive_dir("/out", "/show/ep.1.html", Format::Json), "/out/podd_meta/show");
    let (path, _) = written(derive_path("/out", "/", Format::Json));
    assert_eq!(path, "/out/podd_meta/.json");
}
