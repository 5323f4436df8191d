//! Trusted wrappers around the scraper crate. Each one hands a fragment of
//! HTML back as plain strings; what it returns is named by an
//! uninterpreted spec function of the arguments, and all verified
//! extraction logic is stated over those names.

use vstd::prelude::*;

verus! {

/// The serialized HTML of every element of `body` matching the release
/// container selector `.rls-info-container`, in document order.
pub uninterp spec fn containers_of(body: Seq<char>) -> Seq<Seq<char>>;

/// Relies on scraper's `Html::parse_document` and `Selector` matching:
/// the serialized HTML of every element matching `.rls-info-container`,
/// in document order, a function of the body alone.
#[verifier::external_body]
pub(crate) fn select_containers(body: &str) -> (r: Vec<String>)
    ensures
        r.deep_view() == containers_of(body@),
{
    let sel = scraper::Selector::parse(".rls-info-container").unwrap();
    let doc = scraper::Html::parse_document(body);
    let mut out = Vec::new();
    for e in doc.select(&sel) {
        out.push(e.html());
    }
    out
}

/// The serialized HTML of the first element of the fragment `html`
/// matching `selector`, `None` when nothing matches (or the selector text
/// itself does not parse as a selector).
pub uninterp spec fn first_inner(html: Seq<char>, selector: Seq<char>) -> Option<Seq<char>>;

/// Relies on scraper's `Html::parse_fragment` and `Selector` matching:
/// the serialized HTML of the first matching element, a function of the
/// two arguments alone; `None` when nothing matches or `selector` is not
/// a valid selector.
#[verifier::external_body]
pub(crate) fn select_first(html: &str, selector: &str) -> (r: Option<String>)
    ensures
        r.deep_view() == first_inner(html@, selector@),
{
    let sel = match scraper::Selector::parse(selector) {
        Ok(s) => s,
        Err(_) => return None,
    };
    let doc = scraper::Html::parse_fragment(html);
    match doc.select(&sel).next() {
        Some(e) => Some(e.html()),
        None => None,
    }
}

/// The concatenated descendant text of the first element of the fragment
/// matching the release label selector `.rls-label`, `None` when no such
/// element exists.
pub uninterp spec fn label_text_of(container: Seq<char>) -> Option<Seq<char>>;

/// Relies on scraper's `Html::parse_fragment`, `Selector` matching and
/// `ElementRef::text`: the concatenated text nodes of the first element
/// matching `.rls-label`, a function of the fragment alone.
#[verifier::external_body]
pub(crate) fn first_label_text(container: &str) -> (r: Option<String>)
    ensures
        r.deep_view() == label_text_of(container@),
{
    let sel = scraper::Selector::parse(".rls-label").unwrap();
    let doc = scraper::Html::parse_fragment(container);
    match doc.select(&sel).next() {
        Some(e) => Some(e.text().collect::<String>()),
        None => None,
    }
}

/// The `href` attribute of the first `a` element of the fragment, `None`
/// when there is no anchor or the first one carries no `href`.
pub uninterp spec fn anchor_href_of(fragment: Seq<char>) -> Option<Seq<char>>;

/// Relies on scraper's `Html::parse_fragment`, `Selector` matching and
/// `ElementRef::attr`: the `href` of the first anchor, a function of the
/// fragment alone.
#[verifier::external_body]
pub(crate) fn first_anchor_href(fragment: &str) -> (r: Option<String>)
    ensures
        r.deep_view() == anchor_href_of(fragment@),
{
    let sel = scraper::Selector::parse("a").unwrap();
    let doc = scraper::Html::parse_fragment(fragment);
    match doc.select(&sel).next() {
        Some(e) => match e.attr("href") {
            Some(h) => Some(h.to_owned()),
            None => None,
        },
        None => None,
    }
}

} // verus!
