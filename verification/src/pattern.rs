//! Trusted wrappers around the regex crate: the two fixed textual patterns
//! of the library, one for the show id embedded in a show page and one for
//! the anchors of the show directory.

use vstd::prelude::*;

verus! {

/// The digit capture of the first match of the fixed show-id pattern in
/// `body`, `None` when the pattern does not match.
pub uninterp spec fn show_id_capture(body: Seq<char>) -> Option<Seq<char>>;

/// Relies on regex's `Regex::captures` with the fixed pattern
/// `<script type="text/javascript">var hs_showid = (\d+);</script>`:
/// the digit capture of the first match, a function of the body alone.
#[verifier::external_body]
pub(crate) fn capture_show_id(body: &str) -> (r: Option<String>)
    ensures
        r.deep_view() == show_id_capture(body@),
{
    let re = regex::Regex::new(
        "<script type=\"text/javascript\">var hs_showid = (\\d+);</script>",
    ).unwrap();
    match re.captures(body).and_then(|c| c.get(1)) {
        Some(m) => Some(m.as_str().to_owned()),
        None => None,
    }
}

/// The `(href, title)` capture pairs of every match of the fixed anchor
/// pattern in `body`, in order of appearance.
pub uninterp spec fn show_link_captures(body: Seq<char>) -> Seq<(Seq<char>, Seq<char>)>;

/// Relies on regex's `Regex::captures_iter` with the fixed pattern
/// `<a href="([^"]+)" title="([^"]+)">`: for every match, in order of
/// appearance, the pair of its two captures, a function of the body alone.
#[verifier::external_body]
pub(crate) fn capture_show_links(body: &str) -> (r: Vec<(String, String)>)
    ensures
        r.deep_view() == show_link_captures(body@),
{
    let re = regex::Regex::new("<a href=\"([^\"]+)\" title=\"([^\"]+)\">").unwrap();
    let mut out = Vec::new();
    for c in re.captures_iter(body) {
        out.push((c[1].to_owned(), c[2].to_owned()));
    }
    out
}

} // verus!
