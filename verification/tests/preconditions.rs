use c_at_e_file_server::message::Metadata;
use c_at_e_file_server::message::Method;
use c_at_e_file_server::message::Request;
use c_at_e_file_server::message::Response;
use c_at_e_file_server::precondition::check_preconditions;
use c_at_e_file_server::precondition::if_match;
use c_at_e_file_server::precondition::if_modified_since;
use c_at_e_file_server::precondition::if_none_match;
use c_at_e_file_server::precondition::if_range;

const MODIFIED: &str = "Wed, 21 Oct 2015 07:28:00 GMT";
const EARLIER: &str = "Wed, 21 Oct 2015 07:27:00 GMT";
const LATER: &str = "Wed, 21 Oct 2015 07:29:00 GMT";

fn strong_resource() -> Metadata {
    Metadata::new(
        String::from("\"abc\""),
        String::from(MODIFIED),
        Some(String::from("text/html")),
    )
    .unwrap()
}

fn weak_resource() -> Metadata {
    Metadata::new(String::from("W/\"abc\""), String::from(MODIFIED), None).unwrap()
}

fn bare_request(method: Method) -> Request {
    Request::new(method, String::from("/"))
}

fn text(value: &str) -> Option<String> {
    Some(String::from(value))
}

fn not_modified_for_strong_resource() -> Response {
    Response {
        status: 304,
        etag: text("\"abc\""),
        last_modified: text(MODIFIED),
        accept_ranges: text("bytes"),
        content_type: text("text/html"),
        content_length: None,
        content_range: None,
        body: Vec::new(),
    }
}

fn precondition_failed() -> Response {
    Response {
        status: 412,
        etag: None,
        last_modified: None,
        accept_ranges: None,
        content_type: None,
        content_length: None,
        content_range: None,
        body: Vec::new(),
    }
}

#[test]
fn metadata_needs_an_http_date() {
    assert!(Metadata::new(String::from("\"a\""), String::from("carrot"), None).is_none());
    assert!(Metadata::new(String::from("\"a\""), String::from(""), None).is_none());
    assert!(Metadata::new(String::from("\"a\""), String::from("Thu, 21 Oct 2015 07:28:00 GMT"), None)
        .is_none());
    assert!(Metadata::new(String::from("\"a\""), String::from("2015-10-21T07:28:00Z"), None).is_none());
    assert!(Metadata::new(String::from(""), String::from(MODIFIED), None).is_some());
}

#[test]
fn metadata_accepts_the_three_date_forms() {
    for date in [
        "Sun, 06 Nov 1994 08:49:37 GMT",
        "Sunday, 06-Nov-94 08:49:37 GMT",
        "Sun Nov  6 08:49:37 1994",
    ] {
        let metadata = Metadata::new(String::from("\"a\""), String::from(date), None).unwrap();
        assert_eq!(metadata.modified_at(), 784111777);
        assert_eq!(metadata.last_modified(), date);
    }
}

#[test]
fn metadata_hands_back_what_it_was_given() {
    let metadata = strong_resource();
    assert_eq!(metadata.etag(), "\"abc\"");
    assert_eq!(metadata.last_modified(), MODIFIED);
    assert_eq!(metadata.content_type(), &text("text/html"));
    assert_eq!(metadata.modified_at(), 1445412480);
    assert_eq!(weak_resource().content_type(), &None);
}

#[test]
fn if_match_any_holds() {
    assert!(if_match(&strong_resource(), "*"));
    assert!(if_match(&weak_resource(), "*"));
}

#[test]
fn if_match_uses_strong_comparison() {
    let strong = strong_resource();
    assert!(if_match(&strong, "\"abc\""));
    assert!(if_match(&strong, "\"x\", \"abc\""));
    assert!(if_match(&strong, " \"abc\" ,\"x\""));
    assert!(!if_match(&strong, "W/\"abc\""));
    assert!(!if_match(&strong, "\"x\", \"y\""));
    assert!(!if_match(&strong, ""));
    assert!(!if_match(&strong, " * "));
    assert!(!if_match(&strong, "*, \"x\""));
    let weak = weak_resource();
    assert!(!if_match(&weak, "W/\"abc\""));
    assert!(!if_match(&weak, "\"abc\""));
}

#[test]
fn if_none_match_any_fails() {
    assert!(!if_none_match(&strong_resource(), "*"));
    assert!(!if_none_match(&weak_resource(), "*"));
}

#[test]
fn if_none_match_uses_weak_comparison() {
    let strong = strong_resource();
    assert!(!if_none_match(&strong, "\"abc\""));
    assert!(!if_none_match(&strong, "W/\"abc\""));
    assert!(!if_none_match(&strong, "\"x\" , W/\"abc\""));
    assert!(if_none_match(&strong, "\"x\""));
    assert!(if_none_match(&strong, ""));
    assert!(if_none_match(&strong, " * "));
    let weak = weak_resource();
    assert!(!if_none_match(&weak, "\"abc\""));
    assert!(!if_none_match(&weak, "W/\"abc\""));
    assert!(if_none_match(&weak, "W/\"abd\""));
}

#[test]
fn if_modified_since_orders_instants() {
    let resource = strong_resource();
    assert!(!if_modified_since(&resource, MODIFIED));
    assert!(!if_modified_since(&resource, LATER));
    assert!(if_modified_since(&resource, EARLIER));
    assert!(!if_modified_since(&resource, "Wednesday, 21-Oct-15 07:28:00 GMT"));
    assert!(!if_modified_since(&resource, "Wed Oct 21 07:28:00 2015"));
    assert!(if_modified_since(&resource, "Wed Oct 21 07:27:59 2015"));
    assert!(!if_modified_since(&resource, "Fri, 01 Jan 2016 00:00:00 GMT"));
    assert!(if_modified_since(&resource, "Thu, 31 Dec 2009 23:59:59 GMT"));
}

#[test]
fn if_modified_since_ignores_what_is_no_date() {
    let resource = strong_resource();
    assert!(if_modified_since(&resource, "carrot"));
    assert!(if_modified_since(&resource, ""));
    assert!(if_modified_since(&resource, "Thu, 21 Oct 2015 07:28:00 GMT"));
}

#[test]
fn if_range_with_a_date_needs_the_same_instant() {
    let resource = strong_resource();
    assert!(if_range(&resource, MODIFIED));
    assert!(if_range(&resource, "Wednesday, 21-Oct-15 07:28:00 GMT"));
    assert!(!if_range(&resource, EARLIER));
    assert!(!if_range(&resource, LATER));
}

#[test]
fn if_range_with_a_tag_uses_strong_comparison() {
    let strong = strong_resource();
    assert!(if_range(&strong, "\"abc\""));
    assert!(!if_range(&strong, "W/\"abc\""));
    assert!(!if_range(&strong, "\"abd\""));
    assert!(!if_range(&strong, "\"abc\", \"abd\""));
    assert!(!if_range(&strong, "carrot"));
    let weak = weak_resource();
    assert!(!if_range(&weak, "W/\"abc\""));
    assert!(!if_range(&weak, "\"abc\""));
}

#[test]
fn without_conditions_the_request_passes_unchanged() {
    for method in [Method::Get, Method::Head, Method::Other] {
        let mut request = bare_request(method);
        request.range = text("bytes=0-1");
        let (early, after) = check_preconditions(request.clone(), &strong_resource());
        assert_eq!(early, None);
        assert_eq!(after, request);
    }
}

#[test]
fn a_failing_if_match_gives_412_for_every_method() {
    for method in [Method::Get, Method::Head, Method::Other] {
        let mut request = bare_request(method);
        request.if_match = text("\"x\"");
        request.if_none_match = text("*");
        let (early, after) = check_preconditions(request.clone(), &strong_resource());
        assert_eq!(early, Some(precondition_failed()));
        assert_eq!(after, request);
    }
}

#[test]
fn if_match_any_then_other_headers_decide() {
    let mut request = bare_request(Method::Get);
    request.if_match = text("*");
    let (early, _) = check_preconditions(request.clone(), &strong_resource());
    assert_eq!(early, None);
    request.if_none_match = text("\"abc\"");
    let (early, _) = check_preconditions(request, &strong_resource());
    assert_eq!(early, Some(not_modified_for_strong_resource()));
}

#[test]
fn a_failing_if_none_match_gives_304_or_412_by_method() {
    for (method, expected) in [
        (Method::Get, not_modified_for_strong_resource()),
        (Method::Head, not_modified_for_strong_resource()),
        (Method::Other, precondition_failed()),
    ] {
        let mut request = bare_request(method);
        request.if_none_match = text("*");
        let (early, after) = check_preconditions(request.clone(), &strong_resource());
        assert_eq!(early, Some(expected));
        assert_eq!(after, request);
    }
}

#[test]
fn not_modified_leaves_out_an_absent_media_type() {
    let mut request = bare_request(Method::Get);
    request.if_none_match = text("\"abc\"");
    let (early, _) = check_preconditions(request, &weak_resource());
    let response = early.unwrap();
    assert_eq!(response.status, 304);
    assert_eq!(response.etag, text("W/\"abc\""));
    assert_eq!(response.last_modified, text(MODIFIED));
    assert_eq!(response.accept_ranges, text("bytes"));
    assert_eq!(response.content_type, None);
    assert_eq!(response.content_length, None);
    assert_eq!(response.content_range, None);
    assert!(response.body.is_empty());
}

#[test]
fn if_modified_since_is_not_read_beside_if_none_match() {
    let mut request = bare_request(Method::Get);
    request.if_none_match = text("\"other\"");
    request.if_modified_since = text(LATER);
    let (early, _) = check_preconditions(request, &strong_resource());
    assert_eq!(early, None);
}

#[test]
fn if_modified_since_gives_304_for_get_and_head_only() {
    for (method, expected) in [
        (Method::Get, Some(not_modified_for_strong_resource())),
        (Method::Head, Some(not_modified_for_strong_resource())),
        (Method::Other, None),
    ] {
        let mut request = bare_request(method);
        request.if_modified_since = text(MODIFIED);
        let (early, _) = check_preconditions(request, &strong_resource());
        assert_eq!(early, expected);
    }
    let mut request = bare_request(Method::Get);
    request.if_modified_since = text(EARLIER);
    assert_eq!(check_preconditions(request, &strong_resource()).0, None);
    let mut request = bare_request(Method::Get);
    request.if_modified_since = text("carrot");
    assert_eq!(check_preconditions(request, &strong_resource()).0, None);
}

#[test]
fn a_failing_if_range_removes_the_range_of_a_get() {
    for (if_range_value, kept) in [
        (MODIFIED, true),
        ("\"abc\"", true),
        (EARLIER, false),
        (LATER, false),
        ("W/\"abc\"", false),
        ("\"abd\"", false),
    ] {
        let mut request = bare_request(Method::Get);
        request.range = text("bytes=1-10");
        request.if_range = text(if_range_value);
        let (early, after) = check_preconditions(request.clone(), &strong_resource());
        assert_eq!(early, None);
        if kept {
            assert_eq!(after, request);
        } else {
            request.range = None;
            assert_eq!(after, request);
        }
    }
}

#[test]
fn if_range_is_read_for_get_only() {
    for method in [Method::Head, Method::Other] {
        let mut request = bare_request(method);
        request.range = text("bytes=1-10");
        request.if_range = text("\"abd\"");
        let (early, after) = check_preconditions(request.clone(), &strong_resource());
        assert_eq!(early, None);
        assert_eq!(after, request);
    }
}

#[test]
fn if_range_without_range_changes_nothing() {
    let mut request = bare_request(Method::Get);
    request.if_range = text("\"abd\"");
    let (early, after) = check_preconditions(request.clone(), &strong_resource());
    assert_eq!(early, None);
    assert_eq!(after, request);
}
