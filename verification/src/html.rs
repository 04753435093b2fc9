//! What CSS selectors find in an HTML document, through the `scraper` crate.
//! Documents go in as text and findings come out as strings.

use scraper::{Html, Selector};
use vstd::prelude::*;

verus! {

/// What is found in the document parsed from `html`, one entry for each
/// element that `outer` selects, in the order in which the crate yields
/// them, which is that in which the parser made them.
///
/// From such an element the search goes down one step for each selector of
/// `steps`, in turn, to the first element below that the selector selects.
/// The entry holds, of the element so reached, the text inside it and the
/// value of its attribute `attr`, `None` for an element without it. The
/// entry is `None` where a step selects nothing.
///
/// `None` as a whole where `outer` or one of `steps` is no selector.
pub uninterp spec fn selected(
    html: Seq<char>,
    outer: Seq<char>,
    steps: Seq<Seq<char>>,
    attr: Seq<char>,
) -> Option<Seq<Option<(Seq<char>, Option<Seq<char>>)>>>;

/// `Selector::parse`, `Html::parse_document`, `Html::select`,
/// `ElementRef::select`, `ElementRef::text` and `ElementRef::attr` of
/// `scraper`. Parsing a document accepts any text, and the same arguments
/// always give the same result, which is named and not spelled out. Only a
/// selector that does not parse gives `None`.
#[verifier::external_body]
pub(crate) fn select(html: &str, outer: &str, steps: &Vec<String>, attr: &str) -> (r: Option<
    Vec<Option<(String, Option<String>)>>,
>)
    ensures
        r.deep_view() == selected(html@, outer@, steps.deep_view(), attr@),
{
    let outer = Selector::parse(outer).ok()?;
    let steps: Vec<Selector> = steps.iter().map(|css| Selector::parse(css).ok()).collect::<
        Option<_>,
    >()?;
    let document = Html::parse_document(html);
    Some(document.select(&outer).map(|element| {
        let reached = steps.iter().try_fold(element, |at, step| at.select(step).next())?;
        Some((reached.text().collect(), reached.attr(attr).map(String::from)))
    }).collect())
}

} // verus!
