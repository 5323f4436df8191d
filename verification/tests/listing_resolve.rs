use hsdl::errors::PageError;
use hsdl::listing::get_show_list;
use hsdl::resolve::get_show_id;

#[test]
fn show_id_of_482() {
    let body = "<html><head><script type=\"text/javascript\">var hs_showid = 482;</script></head><body></body></html>";
    assert_eq!(get_show_id(body).unwrap(), 482);
}

#[test]
fn show_id_missing_is_parse_error() {
    let body = "<html><body>no script here</body></html>";
    let r = get_show_id(body);
    assert!(matches!(
        r,
        Err(PageError::ParseError(m)) if m == "failed to extract show id"
    ));
}

#[test]
fn show_id_out_of_range_is_parse_error() {
    let body = "<script type=\"text/javascript\">var hs_showid = 99999999999;</script>";
    let r = get_show_id(body);
    assert!(matches!(
        r,
        Err(PageError::ParseError(m)) if m == "failed to parse extracted show id"
    ));
}

#[test]
fn show_list_two_anchors_in_order() {
    let body = "<html><body>\
        <a href=\"/shows/foo\" title=\"Foo\">Foo</a>\
        <a href=\"/shows/bar\" title=\"Bar\">Bar</a>\
        </body></html>";
    let r = get_show_list(body);
    assert_eq!(
        r,
        vec![
            (String::from("Foo"), String::from("https://horriblesubs.info/shows/foo")),
            (String::from("Bar"), String::from("https://horriblesubs.info/shows/bar")),
        ]
    );
}

#[test]
fn show_list_idempotent() {
    let body = "<a href=\"/shows/foo\" title=\"Foo\"><a href=\"/shows/bar\" title=\"Bar\">";
    let first = get_show_list(body);
    let second = get_show_list(body);
    assert_eq!(first, second);
}

#[test]
fn show_list_empty_when_nothing_matches() {
    let body = "<html><body><a href=\"/shows/foo\">no title attribute</a></body></html>";
    assert_eq!(get_show_list(body), Vec::<(String, String)>::new());
}
