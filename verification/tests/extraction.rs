use omvarlden_spider::extract::{
    collect_page_links, extract_feed, extract_page, feed_records, link_targets, media_records,
    page_records, select_feed_parts, FeedParts,
};
use omvarlden_spider::family::{classify, Family};
use omvarlden_spider::item::Item;

fn some(s: &str) -> Option<String> {
    Some(s.to_string())
}

fn text(s: &str) -> Option<(String, Option<String>)> {
    Some((s.to_string(), None))
}

fn feed_item(title: &str, meta: &str, date: &str, body: Option<&str>, media: &str) -> String {
    let body = match body {
        Some(text) => format!("<div class=\"libsyn-item-body\">{}</div>", text),
        None => String::new(),
    };
    format!(
        "<div class=\"libsyn-item\">\
         <div class=\"libsyn-item-title\"><a href=\"{}\">{}</a></div>\
         <div class=\"libsyn-item-release-date\">{}</div>{}\
         <div class=\"libsyn-item-content\"><a href=\"{}\">listen</a></div>\
         </div>",
        meta, title, date, body, media
    )
}

fn page(inner: &str) -> String {
    format!("<html><head><title>t</title></head><body>{}</body></html>", inner)
}

#[test]
fn classify_by_prefix() {
    assert_eq!(classify("https://www.omvarlden.se"), Some(Family::Page));
    assert_eq!(classify("https://www.omvarlden.se/nyheter/x"), Some(Family::Page));
    assert_eq!(classify("https://utvecklingssamtalet.libsyn.com/page/1/size/200"), Some(Family::FeedListing));
    assert_eq!(classify("https://traffic.libsyn.com/secure/x/ep1.mp3"), Some(Family::Media));
    assert_eq!(classify("https://example.test/"), None);
    assert_eq!(classify("http://www.omvarlden.se/"), None);
    assert_eq!(classify(""), None);
}

#[test]
fn family_reads_text_or_bytes() {
    assert!(Family::Page.reads_text());
    assert!(Family::FeedListing.reads_text());
    assert!(!Family::Media.reads_text());
}

#[test]
fn page_links_keep_order_and_duplicates() {
    let hrefs = vec![
        some("/nyheter/a"),
        None,
        some("https://other.test/x"),
        some("relative/path"),
        some("/nyheter/a"),
        some(""),
        some("/"),
        some("#top"),
    ];
    assert_eq!(
        collect_page_links(&hrefs),
        vec![
            "https://www.omvarlden.se/nyheter/a",
            "https://www.omvarlden.se/nyheter/a",
            "https://www.omvarlden.se/",
        ]
    );
    assert!(collect_page_links(&Vec::new()).is_empty());
}

#[test]
fn link_targets_keep_one_entry_per_link() {
    let found = vec![
        Some(("a".to_string(), some("/a"))),
        Some(("b".to_string(), None)),
        None,
        Some((String::new(), some(""))),
    ];
    assert_eq!(link_targets(&found), vec![some("/a"), None, None, some("")]);
    assert!(link_targets(&Vec::new()).is_empty());
}

#[test]
fn page_records_hold_the_body() {
    let (items, urls) = page_records("<p>hi</p>".to_string(), &vec![some("/a")]);
    assert_eq!(items.len(), 1);
    assert!(matches!(&items[0], Item::Html(body) if body == "<p>hi</p>"));
    assert_eq!(urls, vec!["https://www.omvarlden.se/a"]);
}

#[test]
fn extract_page_finds_links_in_document_order() {
    let body = page(
        "<a href=\"/first\">1</a><a>no target</a><div><a href=\"rel\">2</a>\
         <a href=\"/second?x=1\">3</a></div><a href=\"https://else.test/\">4</a><a href=\"/first\">5</a>",
    );
    let (items, urls) = extract_page(body.clone()).unwrap();
    assert_eq!(items.len(), 1);
    assert!(matches!(&items[0], Item::Html(text) if *text == body));
    assert_eq!(
        urls,
        vec![
            "https://www.omvarlden.se/first",
            "https://www.omvarlden.se/second?x=1",
            "https://www.omvarlden.se/first",
        ]
    );
}

#[test]
fn extract_page_without_links_gives_only_the_body() {
    let (items, urls) = extract_page("plain text".to_string()).unwrap();
    assert_eq!(items.len(), 1);
    assert!(urls.is_empty());
}

#[test]
fn feed_item_gives_one_record_and_one_follow_up() {
    let body = page(&feed_item("Episode 1", "https://feed.test/ep1", "2024-01-01", None, "https://media.test/ep1.mp3"));
    let (items, urls) = extract_feed(&body).unwrap();
    assert_eq!(urls, vec!["https://media.test/ep1.mp3"]);
    assert_eq!(items.len(), 1);
    match &items[0] {
        Item::PoddMeta { meta_url, title, release_date, description, mp3_url } => {
            assert_eq!(meta_url, "https://feed.test/ep1");
            assert_eq!(title, "Episode 1");
            assert_eq!(release_date, "2024-01-01");
            assert_eq!(*description, None);
            assert_eq!(mp3_url, "https://media.test/ep1.mp3");
        }
        other => panic!("unexpected record {:?}", other),
    }
    let json = items[0].clone().encode().unwrap();
    assert_eq!(
        String::from_utf8(json).unwrap(),
        "{\"title\":\"Episode 1\",\"release_date\":\"2024-01-01\",\"description\":null,\"mp3_url\":\"https://media.test/ep1.mp3\"}"
    );
}

#[test]
fn feed_items_come_in_document_order_without_dedup() {
    let body = page(&format!(
        "{}{}{}",
        feed_item("One", "https://feed.test/1", "d1", Some("about <b>one</b>"), "https://media.test/same.mp3"),
        feed_item("Two", "https://feed.test/2", "d2", None, "https://media.test/same.mp3"),
        feed_item("Three", "https://feed.test/3", "d3", Some(""), "https://media.test/3.mp3"),
    ));
    let (items, urls) = extract_feed(&body).unwrap();
    assert_eq!(urls, vec!["https://media.test/same.mp3", "https://media.test/same.mp3", "https://media.test/3.mp3"]);
    let titles: Vec<String> = items
        .iter()
        .map(|item| match item {
            Item::PoddMeta { title, .. } => title.clone(),
            other => panic!("unexpected record {:?}", other),
        })
        .collect();
    assert_eq!(titles, vec!["One", "Two", "Three"]);
    assert!(matches!(&items[0], Item::PoddMeta { description: Some(d), .. } if d == "about one"));
    assert!(matches!(&items[1], Item::PoddMeta { description: None, .. }));
    assert!(matches!(&items[2], Item::PoddMeta { description: Some(d), .. } if d.is_empty()));
}

#[test]
fn feed_without_items_gives_nothing() {
    let (items, urls) = extract_feed(&page("<p>no episodes</p>")).unwrap();
    assert!(items.is_empty());
    assert!(urls.is_empty());
}

#[test]
fn feed_link_without_target_gives_empty_address() {
    let body = page(
        "<div class=\"libsyn-item\"><div class=\"libsyn-item-title\"><a>T</a></div>\
         <div class=\"libsyn-item-release-date\">d</div>\
         <div class=\"libsyn-item-content\"><a>listen</a></div></div>",
    );
    let (items, urls) = extract_feed(&body).unwrap();
    assert_eq!(urls, vec![""]);
    assert!(matches!(&items[0], Item::PoddMeta { meta_url, mp3_url, .. } if meta_url.is_empty() && mp3_url.is_empty()));
}

#[test]
fn feed_item_that_lacks_a_part_is_refused() {
    let no_title = page(
        "<div class=\"libsyn-item\"><div class=\"libsyn-item-release-date\">d</div>\
         <div class=\"libsyn-item-content\"><a href=\"m\">x</a></div></div>",
    );
    assert!(extract_feed(&no_title).is_none());
    let no_title_link = page(
        "<div class=\"libsyn-item\"><div class=\"libsyn-item-title\">T</div>\
         <div class=\"libsyn-item-release-date\">d</div>\
         <div class=\"libsyn-item-content\"><a href=\"m\">x</a></div></div>",
    );
    assert!(extract_feed(&no_title_link).is_none());
    let no_date = page(
        "<div class=\"libsyn-item\"><div class=\"libsyn-item-title\"><a href=\"u\">T</a></div>\
         <div class=\"libsyn-item-content\"><a href=\"m\">x</a></div></div>",
    );
    assert!(extract_feed(&no_date).is_none());
    let no_content = page(
        "<div class=\"libsyn-item\"><div class=\"libsyn-item-title\"><a href=\"u\">T</a></div>\
         <div class=\"libsyn-item-release-date\">d</div></div>",
    );
    assert!(extract_feed(&no_content).is_none());
    let good_then_bad = page(&format!(
        "{}<div class=\"libsyn-item\"></div>",
        feed_item("One", "u", "d", None, "m")
    ));
    assert!(extract_feed(&good_then_bad).is_none());
}

#[test]
fn feed_title_comes_from_the_first_title_element() {
    let body = page(
        "<div class=\"libsyn-item\">\
         <div class=\"libsyn-item-title\"><a href=\"u1\">First</a><a href=\"u2\">Second</a></div>\
         <div class=\"libsyn-item-title\"><a href=\"u3\">Third</a></div>\
         <div class=\"libsyn-item-release-date\">d</div>\
         <div class=\"libsyn-item-content\"><a href=\"m\">x</a></div></div>",
    );
    let (items, _) = extract_feed(&body).unwrap();
    assert!(matches!(&items[0], Item::PoddMeta { title, meta_url, .. } if title == "First" && meta_url == "u1"));
}

#[test]
fn select_feed_parts_lists_each_part_per_item() {
    let body = page(&format!(
        "{}<div class=\"libsyn-item\"><div class=\"libsyn-item-body\">only body</div></div>",
        feed_item("One", "u", "d", None, "m")
    ));
    let parts = select_feed_parts(&body).unwrap();
    assert_eq!(parts.titles, vec![Some(("One".to_string(), some("u"))), None]);
    assert_eq!(parts.dates, vec![text("d"), None]);
    assert_eq!(parts.descriptions, vec![None, text("only body")]);
    assert_eq!(parts.media, vec![Some(("listen".to_string(), some("m"))), None]);
    assert!(!parts.is_complete());
}

#[test]
fn feed_parts_of_unequal_length_are_incomplete() {
    let parts = FeedParts {
        titles: vec![Some(("T".to_string(), None))],
        dates: vec![text("d")],
        descriptions: vec![],
        media: vec![Some(("x".to_string(), some("m")))],
    };
    assert!(!parts.is_complete());
    let parts = FeedParts {
        titles: vec![Some(("T".to_string(), None))],
        dates: vec![text("d")],
        descriptions: vec![None],
        media: vec![Some(("x".to_string(), some("m")))],
    };
    assert!(parts.is_complete());
    let (items, urls) = feed_records(&parts);
    assert_eq!(urls, vec!["m"]);
    assert!(matches!(&items[0], Item::PoddMeta { meta_url, title, .. } if meta_url.is_empty() && title == "T"));
}

#[test]
fn media_records_hold_the_bytes() {
    let (items, urls) = media_records(vec![0, 159, 255, 10]);
    assert_eq!(items.len(), 1);
    assert!(matches!(&items[0], Item::Podd(bytes) if *bytes == vec![0, 159, 255, 10]));
    assert!(urls.is_empty());
}
