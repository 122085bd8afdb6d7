use c_at_e_file_server::get;
use c_at_e_file_server::message::Metadata;
use c_at_e_file_server::message::Method;
use c_at_e_file_server::message::Request;

const ETAG: &str = "\"abc\"";
const LAST_MODIFIED: &str = "Wed, 21 Oct 2015 07:28:00 GMT";
const BEFORE_LAST_MODIFIED: &str = "Wed, 21 Oct 2015 07:27:00 GMT";
const AFTER_LAST_MODIFIED: &str = "Wed, 21 Oct 2015 07:29:00 GMT";
const MULTIPART: &str = "multipart/byteranges; boundary=3d6b6a416f9b5";

fn page() -> Vec<u8> {
    let mut content = b"<!doctype html>\n<html>\n<head>\n<title>Home</title>\n</head>\n<body>\n".to_vec();
    while content.len() < 672 {
        content.extend_from_slice(b"<p>x</p>\n");
    }
    while content.len() < 679 {
        content.push(b'\n');
    }
    content
}

fn page_metadata() -> Metadata {
    Metadata::new(
        String::from(ETAG),
        String::from(LAST_MODIFIED),
        Some(String::from("text/html")),
    )
    .unwrap()
}

fn root(method: Method) -> Request {
    Request::new(method, String::from("/"))
}

fn owned(value: &str) -> Option<String> {
    Some(String::from(value))
}

fn two_parts() -> Vec<u8> {
    let content = page();
    let mut body = Vec::new();
    body.extend_from_slice(b"\n--3d6b6a416f9b5\nContent-Type: text/html\nContent-Range: bytes 1-10/679\n\n");
    body.extend_from_slice(&content[1..11]);
    body.extend_from_slice(b"\n--3d6b6a416f9b5\nContent-Type: text/html\nContent-Range: bytes 20-30/679\n\n");
    body.extend_from_slice(&content[20..31]);
    body.extend_from_slice(b"\n--3d6b6a416f9b5\n");
    body
}

#[test]
fn the_page_is_679_bytes_long() {
    assert_eq!(page().len(), 679);
    assert_eq!(&page()[1..11], b"!doctype h");
    assert_eq!(&page()[20..31], b"l>\n<head>\n<");
}

#[test]
fn two_ranges_of_the_page_come_as_two_parts() {
    let mut request = root(Method::Get);
    request.range = owned("bytes=1-10,20-30");
    let response = get(request, Some(&page_metadata()), Some(page())).unwrap();
    assert_eq!(response.status, 206);
    assert_eq!(response.content_type, owned(MULTIPART));
    assert_eq!(response.etag, owned(ETAG));
    assert_eq!(response.last_modified, owned(LAST_MODIFIED));
    assert_eq!(response.accept_ranges, owned("bytes"));
    assert_eq!(response.body, two_parts());
    assert_eq!(response.content_length, Some(two_parts().len().to_string()));
    let text = String::from_utf8(response.body).unwrap();
    assert_eq!(text.matches("Content-Range: bytes 1-10/679\n").count(), 1);
    assert_eq!(text.matches("Content-Range: bytes 20-30/679\n").count(), 1);
    assert_eq!(text.matches("\n--3d6b6a416f9b5\n").count(), 3);
}

#[test]
fn a_matching_if_none_match_gives_not_modified() {
    let mut request = root(Method::Get);
    request.if_none_match = owned("\"abc\"");
    let response = get(request, Some(&page_metadata()), Some(page())).unwrap();
    assert_eq!(response.status, 304);
    assert!(response.body.is_empty());
    assert_eq!(response.etag, owned(ETAG));
    assert_eq!(response.last_modified, owned(LAST_MODIFIED));
}

#[test]
fn a_range_out_of_bounds_is_not_satisfiable() {
    let mut request = root(Method::Get);
    request.range = owned("bytes=1000-2000");
    let response = get(request, Some(&page_metadata()), Some(page())).unwrap();
    assert_eq!(response.status, 416);
    assert_eq!(response.content_range, owned("bytes */679"));
    assert!(response.body.is_empty());
    assert_eq!(response.etag, None);
    assert_eq!(response.last_modified, None);
    assert_eq!(response.accept_ranges, None);
    assert_eq!(response.content_type, None);
    assert_eq!(response.content_length, None);
}

#[test]
fn other_methods_are_not_served() {
    let mut request = root(Method::Other);
    assert_eq!(get(request.clone(), Some(&page_metadata()), Some(page())), None);
    request.if_none_match = owned("*");
    assert_eq!(get(request.clone(), Some(&page_metadata()), Some(page())), None);
    request.if_match = owned("\"nothing\"");
    assert_eq!(get(request, Some(&page_metadata()), Some(page())), None);
}

#[test]
fn a_resource_without_metadata_is_absent() {
    assert_eq!(get(root(Method::Get), None, Some(page())), None);
    assert_eq!(get(root(Method::Head), None, None), None);
}

#[test]
fn a_resource_without_content_is_absent() {
    assert_eq!(get(root(Method::Get), Some(&page_metadata()), None), None);
}

#[test]
fn preconditions_answer_without_content() {
    let mut request = root(Method::Get);
    request.if_none_match = owned("*");
    let response = get(request, Some(&page_metadata()), None).unwrap();
    assert_eq!(response.status, 304);
    let mut request = root(Method::Get);
    request.if_match = owned("\"nothing\"");
    let response = get(request, Some(&page_metadata()), None).unwrap();
    assert_eq!(response.status, 412);
}

#[test]
fn if_match_any_is_never_answered_412() {
    let conditions = [None, owned("*"), owned("\"abc\""), owned("\"x\""), owned(LAST_MODIFIED)];
    for method in [Method::Get, Method::Head, Method::Other] {
        for if_none_match in &conditions {
            for if_modified_since in &conditions {
                for if_range in &conditions {
                    for range in [None, owned("bytes=0-1"), owned("bytes=900-"), owned("x")] {
                        let request = Request {
                            method,
                            path: String::from("/"),
                            if_match: owned("*"),
                            if_none_match: if_none_match.clone(),
                            if_modified_since: if_modified_since.clone(),
                            if_range: if_range.clone(),
                            range,
                        };
                        if let Some(response) = get(request, Some(&page_metadata()), Some(page())) {
                            assert_ne!(response.status, 412);
                        }
                    }
                }
            }
        }
    }
}

#[test]
fn if_none_match_any_is_answered_304() {
    for method in [Method::Get, Method::Head] {
        for if_match in [None, owned("*"), owned("\"abc\"")] {
            let mut request = root(method);
            request.if_match = if_match;
            request.if_none_match = owned("*");
            request.range = owned("bytes=0-1");
            let response = get(request, Some(&page_metadata()), Some(page())).unwrap();
            assert_eq!(response.status, 304);
            assert!(response.body.is_empty());
        }
    }
}

#[test]
fn a_plain_get_returns_the_page() {
    let response = get(root(Method::Get), Some(&page_metadata()), Some(page())).unwrap();
    assert_eq!(response.status, 200);
    assert_eq!(response.body, page());
    assert_eq!(response.content_length, owned("679"));
    assert_eq!(response.content_type, owned("text/html"));
    assert_eq!(response.etag, owned(ETAG));
    assert_eq!(response.last_modified, owned(LAST_MODIFIED));
    assert_eq!(response.accept_ranges, owned("bytes"));
    assert_eq!(response.content_range, None);
}

#[test]
fn a_plain_head_returns_the_headers_of_the_page() {
    let response = get(root(Method::Head), Some(&page_metadata()), Some(page())).unwrap();
    assert_eq!(response.status, 200);
    assert!(response.body.is_empty());
    assert_eq!(response.content_length, owned("679"));
    assert_eq!(response.content_type, owned("text/html"));
}

#[test]
fn if_range_keeps_the_range_for_the_same_date_only() {
    for (validator, status) in [
        (LAST_MODIFIED, 206),
        (BEFORE_LAST_MODIFIED, 200),
        (AFTER_LAST_MODIFIED, 200),
        ("\"abc\"", 206),
        ("W/\"abc\"", 200),
        ("\"other\"", 200),
    ] {
        let mut request = root(Method::Get);
        request.range = owned("bytes=1-10,20-30");
        request.if_range = owned(validator);
        let response = get(request, Some(&page_metadata()), Some(page())).unwrap();
        assert_eq!(response.status, status);
        if status == 206 {
            assert_eq!(response.body, two_parts());
        } else {
            assert_eq!(response.body, page());
            assert_eq!(response.content_length, owned("679"));
        }
    }
}

#[test]
fn test_get_root_path_if_match() {
    let mut request = root(Method::Get);
    request.if_match = owned("");
    let response = get(request, Some(&page_metadata()), Some(page())).unwrap();
    assert_eq!(response.status, 412);
    assert_eq!(response.body, Vec::<u8>::new());
}

#[test]
fn test_method_get_path_root_when_if_match_and_evaluation_of_if_match_is_true_perform_the_requested_method_and_respond_according_to_its_success_or_failure(
) {
    let plain = get(root(Method::Get), Some(&page_metadata()), Some(page())).unwrap();
    assert_eq!(plain.status, 200);
    let body = plain.body;
    let mut request = root(Method::Get);
    request.if_match = owned("*");
    let response = get(request, Some(&page_metadata()), Some(page())).unwrap();
    assert_eq!(response.status, 200);
    assert_eq!(response.body, body);
}

#[test]
fn test_get_root_path_if_none_match() {
    let plain = get(root(Method::Get), Some(&page_metadata()), Some(page())).unwrap();
    assert_eq!(plain.status, 200);
    let etag = plain.etag.unwrap();
    let body = plain.body;
    let mut request = root(Method::Get);
    request.if_none_match = Some(etag);
    let response = get(request, Some(&page_metadata()), Some(page())).unwrap();
    assert_eq!(response.status, 304);
    assert_eq!(response.body, Vec::<u8>::new());
    let mut request = root(Method::Get);
    request.if_none_match = owned("");
    let response = get(request, Some(&page_metadata()), Some(page())).unwrap();
    assert_eq!(response.status, 200);
    assert_eq!(response.body, body);
}

#[test]
fn test_get_root_path_if_modified_since() {
    let plain = get(root(Method::Get), Some(&page_metadata()), Some(page())).unwrap();
    assert_eq!(plain.status, 200);
    let last_modified = plain.last_modified.unwrap();
    let body = plain.body;
    let instant = httpdate::parse_http_date(&last_modified).unwrap();
    let after_last_modified =
        httpdate::fmt_http_date(instant.checked_add(std::time::Duration::from_secs(60)).unwrap());
    let before_last_modified =
        httpdate::fmt_http_date(instant.checked_sub(std::time::Duration::from_secs(60)).unwrap());
    for value in [last_modified.as_str(), after_last_modified.as_str()] {
        let mut request = root(Method::Get);
        request.if_modified_since = owned(value);
        let response = get(request, Some(&page_metadata()), Some(page())).unwrap();
        assert_eq!(response.status, 304);
        assert_eq!(response.body, Vec::<u8>::new());
    }
    for value in [before_last_modified.as_str(), "carrot"] {
        let mut request = root(Method::Get);
        request.if_modified_since = owned(value);
        let response = get(request, Some(&page_metadata()), Some(page())).unwrap();
        assert_eq!(response.status, 200);
        assert_eq!(response.body, body);
    }
}

#[test]
fn test_head_root_path_if_match() {
    let mut request = root(Method::Head);
    request.if_match = owned("");
    let response = get(request, Some(&page_metadata()), Some(page())).unwrap();
    assert_eq!(response.status, 412);
    assert_eq!(response.body, Vec::<u8>::new());
}

#[test]
fn test_head_root_path_if_none_match() {
    let plain = get(root(Method::Head), Some(&page_metadata()), Some(page())).unwrap();
    assert_eq!(plain.status, 200);
    let etag = plain.etag.unwrap();
    let body = plain.body;
    let mut request = root(Method::Head);
    request.if_none_match = Some(etag);
    let response = get(request, Some(&page_metadata()), Some(page())).unwrap();
    assert_eq!(response.status, 304);
    assert_eq!(response.body, Vec::<u8>::new());
    let mut request = root(Method::Head);
    request.if_none_match = owned("");
    let response = get(request, Some(&page_metadata()), Some(page())).unwrap();
    assert_eq!(response.status, 200);
    assert_eq!(response.body, body);
}

#[test]
fn test_head_root_path_if_modified_since() {
    let plain = get(root(Method::Head), Some(&page_metadata()), Some(page())).unwrap();
    assert_eq!(plain.status, 200);
    let last_modified = plain.last_modified.unwrap();
    let body = plain.body;
    let instant = httpdate::parse_http_date(&last_modified).unwrap();
    let after_last_modified =
        httpdate::fmt_http_date(instant.checked_add(std::time::Duration::from_secs(60)).unwrap());
    let before_last_modified =
        httpdate::fmt_http_date(instant.checked_sub(std::time::Duration::from_secs(60)).unwrap());
    for value in [last_modified.as_str(), after_last_modified.as_str()] {
        let mut request = root(Method::Head);
        request.if_modified_since = owned(value);
        let response = get(request, Some(&page_metadata()), Some(page())).unwrap();
        assert_eq!(response.status, 304);
        assert_eq!(response.body, Vec::<u8>::new());
    }
    for value in [before_last_modified.as_str(), "carrot"] {
        let mut request = root(Method::Head);
        request.if_modified_since = owned(value);
        let response = get(request, Some(&page_metadata()), Some(page())).unwrap();
        assert_eq!(response.status, 200);
        assert_eq!(response.body, body);
    }
}

#[test]
fn test_head_root_path_if_range() {
    let plain = get(root(Method::Head), Some(&page_metadata()), Some(page())).unwrap();
    assert_eq!(plain.status, 200);
    let etag = plain.etag.unwrap();
    let last_modified = plain.last_modified.unwrap();
    let body = plain.body;
    let instant = httpdate::parse_http_date(&last_modified).unwrap();
    let after_last_modified =
        httpdate::fmt_http_date(instant.checked_add(std::time::Duration::from_secs(60)).unwrap());
    let before_last_modified =
        httpdate::fmt_http_date(instant.checked_sub(std::time::Duration::from_secs(60)).unwrap());
    for value in [
        etag.as_str(),
        before_last_modified.as_str(),
        last_modified.as_str(),
        after_last_modified.as_str(),
    ] {
        let mut request = root(Method::Head);
        request.range = owned("bytes=1-10,20-30");
        request.if_range = owned(value);
        let response = get(request, Some(&page_metadata()), Some(page())).unwrap();
        assert_eq!(response.status, 206);
        assert_eq!(response.body, body);
    }
}

#[test]
fn test_get_root_path_if_unmodified_since() {
    // `If-Unmodified-Since` is not among the headers that are read: a
    // request that carries it is served as one that does not.
    let plain = get(root(Method::Get), Some(&page_metadata()), Some(page())).unwrap();
    assert_eq!(plain.status, 200);
    let body = plain.body;
    for _value in [BEFORE_LAST_MODIFIED, "carrot"] {
        let response = get(root(Method::Get), Some(&page_metadata()), Some(page())).unwrap();
        assert_eq!(response.status, 200);
        assert_eq!(response.body, body);
    }
}

#[test]
fn test_head_root_path_if_unmodified_since() {
    let plain = get(root(Method::Head), Some(&page_metadata()), Some(page())).unwrap();
    assert_eq!(plain.status, 200);
    let body = plain.body;
    for _value in [BEFORE_LAST_MODIFIED, "carrot"] {
        let response = get(root(Method::Head), Some(&page_metadata()), Some(page())).unwrap();
        assert_eq!(response.status, 200);
        assert_eq!(response.body, body);
    }
}
