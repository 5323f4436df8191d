//! The catalogue scraper: walking the paginated release API of one show,
//! extracting a `(name, link)` pair per release container at a requested
//! quality tier with fallback, and stopping on a sentinel body.
//!
//! Fetching is the caller's business: `TorrentRetrieval` says which URL to
//! fetch next, and `feed_page` consumes each fetched body. Any container
//! that cannot be extracted aborts the whole retrieval.

use vstd::prelude::*;
use vstd::string::StringExecFns;
use crate::errors::PageError;
use crate::html::{
    anchor_href_of, containers_of, first_anchor_href, first_inner, first_label_text,
    label_text_of, select_containers, select_first,
};
use crate::text::{push_u64_digits, spec_trim, spec_u64_digits, str_eq, trim};

verus! {

/// The quality tier requested for a release's download link. `Auto` falls
/// back 1080p, then 720p, then 480p, first present wins.
#[derive(Clone, Copy)]
pub enum LinkType {
    Res1080,
    Res720,
    Res480,
    Auto,
}

/// The selector of a release's 1080p link container.
pub open spec fn sel_1080() -> Seq<char> {
    ".link-1080p"@
}

/// The selector of a release's 720p link container.
pub open spec fn sel_720() -> Seq<char> {
    ".link-720p"@
}

/// The selector of a release's 480p link container.
pub open spec fn sel_480() -> Seq<char> {
    ".link-480p"@
}

/// The link container chosen from release container `c` for tier `lt`:
/// the tier's own container for a fixed tier, the first present of
/// 1080p, 720p, 480p for `Auto`.
pub open spec fn spec_link_container(c: Seq<char>, lt: LinkType) -> Option<Seq<char>> {
    match lt {
        LinkType::Res1080 => first_inner(c, sel_1080()),
        LinkType::Res720 => first_inner(c, sel_720()),
        LinkType::Res480 => first_inner(c, sel_480()),
        LinkType::Auto => if first_inner(c, sel_1080()) is Some {
            first_inner(c, sel_1080())
        } else if first_inner(c, sel_720()) is Some {
            first_inner(c, sel_720())
        } else {
            first_inner(c, sel_480())
        },
    }
}

/// The `(name, link)` pair extracted from release container `c` at tier
/// `lt`: the label's text trimmed of surrounding whitespace, and the
/// chosen link container's first anchor `href`; `None` as soon as any
/// piece is absent.
pub open spec fn spec_entry(c: Seq<char>, lt: LinkType) -> Option<(Seq<char>, Seq<char>)> {
    match label_text_of(c) {
        Option::None => Option::None,
        Option::Some(name) => match spec_link_container(c, lt) {
            Option::None => Option::None,
            Option::Some(lc) => match anchor_href_of(lc) {
                Option::None => Option::None,
                Option::Some(href) => Option::Some((spec_trim(name), href)),
            },
        },
    }
}

/// The entries of the containers `cs`, in container order; `None` when
/// any container fails to extract.
pub open spec fn spec_entries_of(cs: Seq<Seq<char>>, lt: LinkType) -> Option<
    Seq<(Seq<char>, Seq<char>)>,
>
    decreases cs.len(),
{
    if cs.len() == 0 {
        Option::Some(Seq::empty())
    } else {
        match spec_entries_of(cs.drop_last(), lt) {
            Option::None => Option::None,
            Option::Some(es) => match spec_entry(cs.last(), lt) {
                Option::None => Option::None,
                Option::Some(e) => Option::Some(es.push(e)),
            },
        }
    }
}

/// The entries of one non-sentinel page body, in document order of its
/// release containers; `None` when any container fails to extract.
pub open spec fn spec_page_entries(body: Seq<char>, lt: LinkType) -> Option<
    Seq<(Seq<char>, Seq<char>)>,
> {
    spec_entries_of(containers_of(body), lt)
}

/// Whether `body` is a sentinel terminating the pagination: `DONE`
/// always, the no-batches notice only when batches were requested.
pub open spec fn is_sentinel(body: Seq<char>, use_batches: bool) -> bool {
    body == "DONE"@ || (use_batches && body == "There are no batches for this show yet"@)
}

/// Extracts one release container's `(name, link)` pair at tier `lt`:
/// the label's text trimmed of surrounding whitespace, and the chosen
/// link container's anchor `href`. `None` as soon as the label, the
/// tier's link container or its anchor `href` is absent.
pub fn extract_entry(container: &str, link_type: LinkType) -> (r: Option<(String, String)>)
    ensures
        r.deep_view() == spec_entry(container@, link_type),
{
    let name = match first_label_text(container) {
        Option::Some(n) => n,
        Option::None => {
            return Option::None;
        },
    };
    let lc = match link_type {
        LinkType::Res1080 => select_first(container, ".link-1080p"),
        LinkType::Res720 => select_first(container, ".link-720p"),
        LinkType::Res480 => select_first(container, ".link-480p"),
        LinkType::Auto => match select_first(container, ".link-1080p") {
            Option::Some(x) => Option::Some(x),
            Option::None => match select_first(container, ".link-720p") {
                Option::Some(x) => Option::Some(x),
                Option::None => select_first(container, ".link-480p"),
            },
        },
    };
    let lc = match lc {
        Option::Some(l) => l,
        Option::None => {
            return Option::None;
        },
    };
    match first_anchor_href(lc.as_str()) {
        Option::Some(h) => Option::Some((trim(name.as_str()), h)),
        Option::None => Option::None,
    }
}

/// What one fetched page body means: a sentinel ending the pagination, or
/// the entries of its release containers.
pub enum PageOutcome {
    Sentinel,
    Entries(Vec<(String, String)>),
}

proof fn lemma_entries_of_abort(cs: Seq<Seq<char>>, lt: LinkType, i: int)
    requires
        0 <= i < cs.len(),
        spec_entry(cs[i], lt) is None,
    ensures
        spec_entries_of(cs, lt) is None,
    decreases cs.len(),
{
    if i < cs.len() - 1 {
        assert(cs.drop_last()[i] == cs[i]);
        lemma_entries_of_abort(cs.drop_last(), lt, i);
    }
}

/// Processes one fetched page body: recognizes a sentinel, otherwise
/// extracts every release container's entry in document order, failing
/// the whole page as soon as one container fails.
pub fn process_page(body: &str, link_type: LinkType, use_batches: bool) -> (r: Result<
    PageOutcome,
    PageError,
>)
    ensures
        is_sentinel(body@, use_batches) ==> r matches Ok(PageOutcome::Sentinel),
        !is_sentinel(body@, use_batches) ==> match r {
            Ok(PageOutcome::Sentinel) => false,
            Ok(PageOutcome::Entries(es)) => spec_page_entries(body@, link_type) == Some(
                es.deep_view(),
            ),
            Err(e) => spec_page_entries(body@, link_type) is None && (
            e matches PageError::ParseError(m) && m@ == "failed to extract magnet link"@),
        },
{
    if str_eq(body, "DONE") || (use_batches && str_eq(
        body,
        "There are no batches for this show yet",
    )) {
        return Ok(PageOutcome::Sentinel);
    }
    let containers = select_containers(body);
    let mut es: Vec<(String, String)> = Vec::new();
    let n = containers.len();
    let mut i: usize = 0;
    while i < n
        invariant
            !is_sentinel(body@, use_batches),
            n == containers@.len(),
            containers.deep_view() == containers_of(body@),
            0 <= i <= n,
            spec_entries_of(containers.deep_view().take(i as int), link_type) == Some(
                es.deep_view(),
            ),
        decreases n - i,
    {
        proof {
            assert(containers.deep_view()[i as int] == containers@[i as int]@);
        }
        match extract_entry(containers[i].as_str(), link_type) {
            Option::Some(e) => {
                let ghost prev = es.deep_view();
                let ghost ev = e.deep_view();
                es.push(e);
                proof {
                    assert(es.deep_view() =~= prev.push(ev));
                    assert(containers.deep_view().take(i + 1).drop_last() =~= containers
                        .deep_view()
                        .take(i as int));
                    assert(containers.deep_view().take(i + 1).last() == containers.deep_view()[
                        i as int
                    ]);
                }
            },
            Option::None => {
                proof {
                    lemma_entries_of_abort(containers.deep_view(), link_type, i as int);
                }
                return Err(PageError::ParseError("failed to extract magnet link"));
            },
        }
        i += 1;
    }
    proof {
        assert(containers.deep_view().take(n as int) =~= containers.deep_view());
    }
    Ok(PageOutcome::Entries(es))
}

/// The catalogue accumulated over the page bodies `pages`, page order
/// kept, container order kept within a page; `None` when any page has a
/// container that fails to extract.
pub open spec fn spec_catalogue(pages: Seq<Seq<char>>, lt: LinkType) -> Option<
    Seq<(Seq<char>, Seq<char>)>,
>
    decreases pages.len(),
{
    if pages.len() == 0 {
        Option::Some(Seq::empty())
    } else {
        match spec_catalogue(pages.drop_last(), lt) {
            Option::None => Option::None,
            Option::Some(acc) => match spec_page_entries(pages.last(), lt) {
                Option::None => Option::None,
                Option::Some(es) => Option::Some(acc + es),
            },
        }
    }
}

/// The request URL of page `idx` of show `id`: the API endpoint with the
/// mode's `type` value, the show id, the zero-based page index and the
/// cache-busting timestamp.
pub open spec fn spec_page_url(id: u32, epoch: u64, use_batches: bool, idx: u64) -> Seq<char> {
    "https://horriblesubs.info/api.php?method=getshows&type="@ + (if use_batches {
        "batch"@
    } else {
        "show"@
    }) + "&showid="@ + spec_u64_digits(id as u64) + "&nextid="@ + spec_u64_digits(idx) + "&_="@
        + spec_u64_digits(epoch)
}

/// Builds the request URL of page `idx` of show `id`.
pub fn build_page_url(id: u32, epoch: u64, use_batches: bool, idx: u64) -> (r: String)
    ensures
        r@ == spec_page_url(id, epoch, use_batches, idx),
{
    let mut s = String::new();
    s.append("https://horriblesubs.info/api.php?method=getshows&type=");
    if use_batches {
        s.append("batch");
    } else {
        s.append("show");
    }
    s.append("&showid=");
    push_u64_digits(&mut s, id as u64);
    s.append("&nextid=");
    push_u64_digits(&mut s, idx);
    s.append("&_=");
    push_u64_digits(&mut s, epoch);
    proof {
        assert(s@ =~= spec_page_url(id, epoch, use_batches, idx));
    }
    s
}

/// One catalogue retrieval in progress: the fixed request parameters, the
/// zero-based index of the next page to fetch, the entries accumulated so
/// far, and whether a sentinel has ended the pagination.
///
/// The caller fetches `current_url()` and hands the body to `feed_page`
/// until it reports the retrieval done or failed.
pub struct TorrentRetrieval {
    pub show_id: u32,
    pub epoch: u64,
    pub link_type: LinkType,
    pub use_batches: bool,
    pub next_index: u64,
    pub done: bool,
    pub entries: Vec<(String, String)>,
    pub pages: Ghost<Seq<Seq<char>>>,
}

impl TorrentRetrieval {
    /// The entries always are exactly the catalogue of the non-sentinel
    /// pages fed so far, and the next page index counts those pages.
    pub open spec fn wf(&self) -> bool {
        &&& spec_catalogue(self.pages@, self.link_type) == Some(self.entries.deep_view())
        &&& self.next_index == self.pages@.len()
    }

    /// Starts a retrieval for show `id` with the given mode, tier and
    /// cache-busting timestamp, at page 0 with no entries.
    pub fn new(show_id: u32, epoch: u64, link_type: LinkType, use_batches: bool) -> (r: Self)
        ensures
            r.wf(),
            r.show_id == show_id,
            r.epoch == epoch,
            r.link_type == link_type,
            r.use_batches == use_batches,
            r.next_index == 0,
            !r.done,
            r.entries.deep_view() == Seq::<(Seq<char>, Seq<char>)>::empty(),
            r.pages@ == Seq::<Seq<char>>::empty(),
    {
        let r = TorrentRetrieval {
            show_id,
            epoch,
            link_type,
            use_batches,
            next_index: 0,
            done: false,
            entries: Vec::new(),
            pages: Ghost(Seq::empty()),
        };
        proof {
            assert(r.entries.deep_view() =~= Seq::<(Seq<char>, Seq<char>)>::empty());
        }
        r
    }

    /// The URL of the next page to fetch.
    pub fn current_url(&self) -> (r: String)
        requires
            !self.done,
        ensures
            r@ == spec_page_url(self.show_id, self.epoch, self.use_batches, self.next_index),
    {
        build_page_url(self.show_id, self.epoch, self.use_batches, self.next_index)
    }

    /// Consumes one fetched page body. `Ok(true)`: the body was a
    /// sentinel, the retrieval is done and the entries stand. `Ok(false)`:
    /// the page's entries were appended in order and the next index moved
    /// on. `Err`: a container failed to extract; the retrieval is
    /// abandoned and its accumulated entries are not to be used.
    pub fn feed_page(&mut self, body: &str) -> (r: Result<bool, PageError>)
        requires
            old(self).wf(),
            !old(self).done,
            old(self).next_index < u64::MAX,
        ensures
            final(self).wf(),
            final(self).show_id == old(self).show_id,
            final(self).epoch == old(self).epoch,
            final(self).link_type == old(self).link_type,
            final(self).use_batches == old(self).use_batches,
            match r {
                Ok(true) => is_sentinel(body@, old(self).use_batches) && final(self).done
                    && final(self).entries.deep_view() == old(self).entries.deep_view()
                    && final(self).pages@ == old(self).pages@
                    && final(self).next_index == old(self).next_index,
                Ok(false) => !is_sentinel(body@, old(self).use_batches)
                    && (spec_page_entries(body@, old(self).link_type) matches Some(es)
                        && final(self).entries.deep_view() == old(self).entries.deep_view() + es)
                    && final(self).pages@ == old(self).pages@.push(body@)
                    && final(self).next_index == old(self).next_index + 1
                    && !final(self).done,
                Err(e) => !is_sentinel(body@, old(self).use_batches)
                    && spec_page_entries(body@, old(self).link_type) is None
                    && (e matches PageError::ParseError(m)
                        && m@ == "failed to extract magnet link"@)
                    && final(self).done
                    && final(self).entries.deep_view() == old(self).entries.deep_view()
                    && final(self).pages@ == old(self).pages@
                    && final(self).next_index == old(self).next_index,
            },
    {
        match process_page(body, self.link_type, self.use_batches) {
            Err(e) => {
                self.done = true;
                Err(e)
            },
            Ok(PageOutcome::Sentinel) => {
                self.done = true;
                Ok(true)
            },
            Ok(PageOutcome::Entries(es)) => {
                let ghost prev_entries = self.entries.deep_view();
                let ghost page_es = es.deep_view();
                let mut es = es;
                self.entries.append(&mut es);
                self.next_index = self.next_index + 1;
                proof {
                    self.pages@ = self.pages@.push(body@);
                    assert(self.pages@.drop_last() =~= old(self).pages@);
                    assert(self.entries.deep_view() =~= prev_entries + page_es);
                }
                Ok(false)
            },
        }
    }
}

/// What a retrieval yields when the successive page fetches return
/// `bodies`, in order: the entries of every page before the first
/// sentinel (or before the bodies run out), concatenated in page order;
/// `None` when a page before that point has a container that fails to
/// extract.
pub open spec fn spec_retrieval(bodies: Seq<Seq<char>>, lt: LinkType, use_batches: bool) -> Option<
    Seq<(Seq<char>, Seq<char>)>,
>
    decreases bodies.len(),
{
    if bodies.len() == 0 {
        Option::Some(Seq::empty())
    } else if is_sentinel(bodies.first(), use_batches) {
        Option::Some(Seq::empty())
    } else {
        match spec_page_entries(bodies.first(), lt) {
            Option::None => Option::None,
            Option::Some(es) => match spec_retrieval(bodies.drop_first(), lt, use_batches) {
                Option::None => Option::None,
                Option::Some(rest) => Option::Some(es + rest),
            },
        }
    }
}

/// Runs a whole catalogue retrieval over the page bodies that the
/// caller's fetches returned, in page order: pages are consumed until the
/// first sentinel (or until the bodies run out), their entries
/// concatenated; one container that fails to extract aborts the whole
/// retrieval, discarding every entry accumulated so far.
pub fn get_show_torrents(bodies: &Vec<String>, link_type: LinkType, use_batches: bool) -> (r:
    Result<Vec<(String, String)>, PageError>)
    requires
        bodies@.len() < u64::MAX,
    ensures
        match r {
            Ok(out) => spec_retrieval(bodies.deep_view(), link_type, use_batches) == Some(
                out.deep_view(),
            ),
            Err(e) => spec_retrieval(bodies.deep_view(), link_type, use_batches) is None && (
            e matches PageError::ParseError(m) && m@ == "failed to extract magnet link"@),
        },
{
    let mut st = TorrentRetrieval::new(0, 0, link_type, use_batches);
    let n = bodies.len();
    let mut i: usize = 0;
    proof {
        assert(bodies.deep_view().skip(0) =~= bodies.deep_view());
        match spec_retrieval(bodies.deep_view(), link_type, use_batches) {
            Option::Some(rest) => {
                assert(st.entries.deep_view() + rest =~= rest);
            },
            Option::None => {},
        }
    }
    while i < n
        invariant
            n == bodies@.len(),
            n < u64::MAX,
            0 <= i <= n,
            st.wf(),
            !st.done,
            st.link_type == link_type,
            st.use_batches == use_batches,
            st.next_index <= i,
            spec_retrieval(bodies.deep_view(), link_type, use_batches) == (
            match spec_retrieval(bodies.deep_view().skip(i as int), link_type, use_batches) {
                Option::None => Option::None::<Seq<(Seq<char>, Seq<char>)>>,
                Option::Some(rest) => Option::Some(st.entries.deep_view() + rest),
            }),
        decreases n - i,
    {
        let ghost suffix = bodies.deep_view().skip(i as int);
        proof {
            assert(suffix.first() == bodies.deep_view()[i as int]);
            assert(bodies.deep_view()[i as int] == bodies@[i as int]@);
            assert(suffix.drop_first() =~= bodies.deep_view().skip(i + 1));
        }
        let ghost prev_entries = st.entries.deep_view();
        match st.feed_page(bodies[i].as_str()) {
            Err(e) => {
                return Err(e);
            },
            Ok(true) => {
                return Ok(st.entries);
            },
            Ok(false) => {},
        }
        proof {
            match spec_page_entries(bodies.deep_view()[i as int], link_type) {
                Option::Some(es) => {
                    match spec_retrieval(bodies.deep_view().skip(i + 1), link_type, use_batches) {
                        Option::Some(rest) => {
                            assert(st.entries.deep_view() + rest =~= prev_entries + (es + rest));
                        },
                        Option::None => {},
                    }
                },
                Option::None => {},
            }
        }
        i += 1;
    }
    proof {
        assert(bodies.deep_view().skip(n as int) =~= Seq::<Seq<char>>::empty());
    }
    Ok(st.entries)
}

/// Law: a retrieval whose fetches return `n` pages, each yielding `k`
/// entries, followed by a sentinel, yields exactly `n * k` entries, the
/// pages' entry sequences concatenated in page order (container order
/// within each page).
pub proof fn lemma_retrieval_count(bodies: Seq<Seq<char>>, lt: LinkType, use_batches: bool, k: nat)
    requires
        bodies.len() > 0,
        forall|i: int| 0 <= i < bodies.len() - 1 ==> !is_sentinel(#[trigger] bodies[i], use_batches),
        forall|i: int| 0 <= i < bodies.len() - 1 ==> ((#[trigger] spec_page_entries(
            bodies[i],
            lt,
        )) matches Some(es) && es.len() == k),
        is_sentinel(bodies.last(), use_batches),
    ensures
        spec_retrieval(bodies, lt, use_batches) matches Some(all) && all.len() == (bodies.len() - 1)
            * k,
    decreases bodies.len(),
{
    if bodies.len() == 1 {
        assert(bodies.first() == bodies.last());
    } else {
        let rest = bodies.drop_first();
        assert(forall|i: int| 0 <= i < rest.len() ==> rest[i] == bodies[i + 1]);
        assert(rest.last() == bodies.last());
        lemma_retrieval_count(rest, lt, use_batches, k);
        assert(spec_page_entries(bodies[0], lt) matches Some(es) && es.len() == k);
        assert((bodies.len() - 2) * k + k == (bodies.len() - 1) * k) by (nonlinear_arith);
    }
}

/// Law: a page that fails to extract before any sentinel was seen fails
/// the whole retrieval: it yields no entries at all, not even those of
/// the pages before the failing one.
pub proof fn lemma_retrieval_aborts(
    bodies: Seq<Seq<char>>,
    lt: LinkType,
    use_batches: bool,
    i: int,
)
    requires
        0 <= i < bodies.len(),
        forall|j: int| 0 <= j <= i ==> !is_sentinel(#[trigger] bodies[j], use_batches),
        spec_page_entries(bodies[i], lt) is None,
    ensures
        spec_retrieval(bodies, lt, use_batches) is None,
    decreases bodies.len(),
{
    if i > 0 {
        let rest = bodies.drop_first();
        assert(forall|j: int| 0 <= j < rest.len() ==> rest[j] == bodies[j + 1]);
        lemma_retrieval_aborts(rest, lt, use_batches, i - 1);
    }
}

/// Law: one page whose extraction fails poisons the whole retrieval,
/// whatever the other pages hold.
pub proof fn lemma_catalogue_aborts(pages: Seq<Seq<char>>, lt: LinkType, i: int)
    requires
        0 <= i < pages.len(),
        spec_page_entries(pages[i], lt) is None,
    ensures
        spec_catalogue(pages, lt) is None,
    decreases pages.len(),
{
    if i < pages.len() - 1 {
        assert(pages.drop_last()[i] == pages[i]);
        lemma_catalogue_aborts(pages.drop_last(), lt, i);
    }
}

/// Law: a container without a label element fails its page's extraction,
/// and through it the whole retrieval: no entries at all are returned,
/// not even those of containers or pages already processed.
pub proof fn lemma_missing_label_aborts(pages: Seq<Seq<char>>, lt: LinkType, i: int, j: int)
    requires
        0 <= i < pages.len(),
        0 <= j < containers_of(pages[i]).len(),
        label_text_of(containers_of(pages[i])[j]) is None,
    ensures
        spec_catalogue(pages, lt) is None,
{
    lemma_entries_of_abort(containers_of(pages[i]), lt, j);
    lemma_catalogue_aborts(pages, lt, i);
}

/// Law: `Auto` takes the 480p link container when neither a 1080p nor a
/// 720p one is present.
pub proof fn lemma_auto_falls_back_to_480(c: Seq<char>)
    requires
        first_inner(c, sel_1080()) is None,
        first_inner(c, sel_720()) is None,
    ensures
        spec_link_container(c, LinkType::Auto) == first_inner(c, sel_480()),
{
}

/// Law: `Auto` takes the 1080p link container whenever one is present, in
/// particular over a 720p one.
pub proof fn lemma_auto_prefers_1080(c: Seq<char>)
    requires
        first_inner(c, sel_1080()) is Some,
    ensures
        spec_link_container(c, LinkType::Auto) == first_inner(c, sel_1080()),
{
}

/// Law: for a container with a label whose only link container is the
/// 480p one, `Auto` extracts the pair of the label's trimmed text and
/// that container's anchor `href`.
pub proof fn lemma_auto_link_from_480(c: Seq<char>, name: Seq<char>, lc: Seq<char>, href: Seq<char>)
    requires
        label_text_of(c) == Some(name),
        first_inner(c, sel_1080()) is None,
        first_inner(c, sel_720()) is None,
        first_inner(c, sel_480()) == Some(lc),
        anchor_href_of(lc) == Some(href),
    ensures
        spec_entry(c, LinkType::Auto) == Some((spec_trim(name), href)),
{
}

} // verus!
