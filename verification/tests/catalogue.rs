use hsdl::catalogue::{build_page_url, get_show_torrents, process_page, LinkType, PageOutcome, TorrentRetrieval};
use hsdl::errors::PageError;

fn container(label: Option<&str>, links: &[(&str, &str)]) -> String {
    let mut s = String::from("<div class=\"rls-info-container\">");
    if let Some(l) = label {
        s.push_str(&format!("<a class=\"rls-label\">{}</a>", l));
    }
    for (class, href) in links {
        s.push_str(&format!(
            "<div class=\"rls-link link-{}\"><span><a href=\"{}\">Magnet</a></span></div>",
            class, href
        ));
    }
    s.push_str("</div>");
    s
}

fn page(containers: &[String]) -> String {
    format!("<div>{}</div>", containers.join(""))
}

#[test]
fn paginates_in_page_then_document_order() {
    let p1 = page(&[
        container(Some("Show - 01"), &[("1080p", "magnet:a1")]),
        container(Some("Show - 02"), &[("1080p", "magnet:a2")]),
    ]);
    let p2 = page(&[
        container(Some("Show - 03"), &[("1080p", "magnet:b1")]),
        container(Some("Show - 04"), &[("1080p", "magnet:b2")]),
    ]);
    let bodies = vec![p1, p2, String::from("DONE")];
    let r = get_show_torrents(&bodies, LinkType::Res1080, false).unwrap();
    assert_eq!(
        r,
        vec![
            (String::from("Show - 01"), String::from("magnet:a1")),
            (String::from("Show - 02"), String::from("magnet:a2")),
            (String::from("Show - 03"), String::from("magnet:b1")),
            (String::from("Show - 04"), String::from("magnet:b2")),
        ]
    );
}

#[test]
fn batches_sentinel_yields_empty() {
    let bodies = vec![String::from("There are no batches for this show yet")];
    let r = get_show_torrents(&bodies, LinkType::Auto, true).unwrap();
    assert_eq!(r, Vec::<(String, String)>::new());
}

#[test]
fn batch_sentinel_not_a_sentinel_for_episodes() {
    let p1 = page(&[container(Some("Show - 01"), &[("1080p", "magnet:a1")])]);
    let bodies = vec![
        String::from("There are no batches for this show yet"),
        p1,
        String::from("DONE"),
    ];
    let r = get_show_torrents(&bodies, LinkType::Res1080, false).unwrap();
    assert_eq!(r, vec![(String::from("Show - 01"), String::from("magnet:a1"))]);
}

#[test]
fn done_sentinel_stops_immediately() {
    let p1 = page(&[container(Some("Show - 01"), &[("1080p", "magnet:a1")])]);
    let bodies = vec![String::from("DONE"), p1];
    let r = get_show_torrents(&bodies, LinkType::Res1080, false).unwrap();
    assert_eq!(r, Vec::<(String, String)>::new());
}

#[test]
fn auto_falls_back_to_480() {
    let p1 = page(&[container(Some("Show - 05"), &[("480p", "magnet:only480")])]);
    let bodies = vec![p1, String::from("DONE")];
    let r = get_show_torrents(&bodies, LinkType::Auto, false).unwrap();
    assert_eq!(r, vec![(String::from("Show - 05"), String::from("magnet:only480"))]);
}

#[test]
fn auto_prefers_1080_over_720() {
    let p1 = page(&[container(
        Some("Show - 06"),
        &[("720p", "magnet:720"), ("1080p", "magnet:1080")],
    )]);
    let bodies = vec![p1, String::from("DONE")];
    let r = get_show_torrents(&bodies, LinkType::Auto, false).unwrap();
    assert_eq!(r, vec![(String::from("Show - 06"), String::from("magnet:1080"))]);
}

#[test]
fn fixed_tier_requires_its_container() {
    let p1 = page(&[container(Some("Show - 07"), &[("1080p", "magnet:1080")])]);
    let bodies = vec![p1, String::from("DONE")];
    let r = get_show_torrents(&bodies, LinkType::Res720, false);
    assert!(matches!(
        r,
        Err(PageError::ParseError(m)) if m == "failed to extract magnet link"
    ));
}

#[test]
fn missing_label_aborts_whole_retrieval() {
    let p1 = page(&[container(Some("Show - 01"), &[("1080p", "magnet:a1")])]);
    let p2 = page(&[
        container(Some("Show - 02"), &[("1080p", "magnet:b1")]),
        container(None, &[("1080p", "magnet:b2")]),
    ]);
    let bodies = vec![p1, p2, String::from("DONE")];
    let r = get_show_torrents(&bodies, LinkType::Res1080, false);
    assert!(matches!(
        r,
        Err(PageError::ParseError(m)) if m == "failed to extract magnet link"
    ));
}

#[test]
fn missing_href_aborts() {
    let body = page(&[String::from(
        "<div class=\"rls-info-container\"><a class=\"rls-label\">X</a>\
         <div class=\"rls-link link-1080p\"><span><a>Magnet</a></span></div></div>",
    )]);
    let bodies = vec![body, String::from("DONE")];
    let r = get_show_torrents(&bodies, LinkType::Res1080, false);
    assert!(matches!(r, Err(PageError::ParseError(_))));
}

#[test]
fn page_url_exact() {
    assert_eq!(
        build_page_url(482, 1000, false, 0),
        "https://horriblesubs.info/api.php?method=getshows&type=show&showid=482&nextid=0&_=1000"
    );
    assert_eq!(
        build_page_url(7, 1581000000, true, 3),
        "https://horriblesubs.info/api.php?method=getshows&type=batch&showid=7&nextid=3&_=1581000000"
    );
}

#[test]
fn retrieval_state_machine_steps() {
    let mut st = TorrentRetrieval::new(482, 1000, LinkType::Auto, false);
    assert_eq!(
        st.current_url(),
        "https://horriblesubs.info/api.php?method=getshows&type=show&showid=482&nextid=0&_=1000"
    );
    let p1 = page(&[container(Some("Show - 01"), &[("1080p", "magnet:a1")])]);
    let done = st.feed_page(&p1).unwrap();
    assert!(!done);
    assert_eq!(
        st.current_url(),
        "https://horriblesubs.info/api.php?method=getshows&type=show&showid=482&nextid=1&_=1000"
    );
    let done = st.feed_page("DONE").unwrap();
    assert!(done);
    assert!(st.done);
    assert_eq!(st.entries, vec![(String::from("Show - 01"), String::from("magnet:a1"))]);
}

#[test]
fn process_page_recognizes_sentinel_and_entries() {
    let r = process_page("DONE", LinkType::Auto, false).unwrap();
    assert!(matches!(r, PageOutcome::Sentinel));
    let body = page(&[container(Some("Show - 01"), &[("480p", "magnet:x")])]);
    let r = process_page(&body, LinkType::Res480, false).unwrap();
    match r {
        PageOutcome::Entries(es) => {
            assert_eq!(es, vec![(String::from("Show - 01"), String::from("magnet:x"))]);
        }
        PageOutcome::Sentinel => panic!("not a sentinel"),
    }
}

#[test]
fn label_text_is_trimmed() {
    let p1 = page(&[container(Some("\n  Show - 09 \t"), &[("1080p", "magnet:t1")])]);
    let bodies = vec![p1, String::from("DONE")];
    let r = get_show_torrents(&bodies, LinkType::Res1080, false).unwrap();
    assert_eq!(r, vec![(String::from("Show - 09"), String::from("magnet:t1"))]);
}

#[test]
fn label_inner_whitespace_is_kept() {
    let p1 = page(&[container(Some(" Show  -  10 "), &[("1080p", "magnet:t2")])]);
    let bodies = vec![p1, String::from("DONE")];
    let r = get_show_torrents(&bodies, LinkType::Res1080, false).unwrap();
    assert_eq!(r, vec![(String::from("Show  -  10"), String::from("magnet:t2"))]);
}

#[test]
fn empty_page_has_no_entries_and_continues() {
    let bodies = vec![String::from("<div></div>"), String::from("DONE")];
    let r = get_show_torrents(&bodies, LinkType::Auto, false).unwrap();
    assert_eq!(r, Vec::<(String, String)>::new());
}
