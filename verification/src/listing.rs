//! Scraping the site's show directory: every anchor matched by the fixed
//! pattern becomes a `(title, url)` pair, the url absolized with the
//! site's origin.

use vstd::prelude::*;
use vstd::string::StringExecFns;
use crate::pattern::{capture_show_links, show_link_captures};

verus! {

/// The site's origin, prefixed to every site-relative path.
pub open spec fn origin() -> Seq<char> {
    "https://horriblesubs.info"@
}

/// The show list extracted from a directory page body: one
/// `(title, origin + href)` pair per anchor match, in order of appearance.
pub open spec fn spec_show_list(body: Seq<char>) -> Seq<(Seq<char>, Seq<char>)> {
    show_link_captures(body).map(|i: int, p: (Seq<char>, Seq<char>)| (p.1, origin() + p.0))
}

/// Extracts the show list from the fetched body of the directory page.
/// Zero matches yield an empty list, never an error.
pub fn get_show_list(body: &str) -> (r: Vec<(String, String)>)
    ensures
        r.deep_view() == spec_show_list(body@),
{
    let caps = capture_show_links(body);
    let mut out: Vec<(String, String)> = Vec::new();
    let n = caps.len();
    let mut i: usize = 0;
    while i < n
        invariant
            n == caps@.len(),
            caps.deep_view() == show_link_captures(body@),
            0 <= i <= n,
            out.deep_view() == spec_show_list(body@).take(i as int),
        decreases n - i,
    {
        let href = caps[i].0.clone();
        let title = caps[i].1.clone();
        let mut url = "https://horriblesubs.info".to_owned();
        url.append(href.as_str());
        let ghost prev = out.deep_view();
        out.push((title, url));
        proof {
            assert(caps.deep_view()[i as int] == (caps@[i as int].0@, caps@[i as int].1@));
            assert(spec_show_list(body@)[i as int] == (
                caps@[i as int].1@,
                origin() + caps@[i as int].0@,
            ));
            assert(out.deep_view() =~= prev.push((title@, url@)));
            assert(out.deep_view() =~= spec_show_list(body@).take(i + 1));
        }
        i += 1;
    }
    proof {
        assert(spec_show_list(body@).take(n as int) =~= spec_show_list(body@));
    }
    out
}

/// Law: the show list is a pure function of the page body; two
/// retrievals against an unchanged body yield identical listings.
pub proof fn lemma_show_list_idempotent(
    body: Seq<char>,
    r1: Seq<(Seq<char>, Seq<char>)>,
    r2: Seq<(Seq<char>, Seq<char>)>,
)
    requires
        r1 == spec_show_list(body),
        r2 == spec_show_list(body),
    ensures
        r1 == r2,
{
}

} // verus!
