use giphy_api::{
    decimal_text, decode, decode_with_link, header_value_ok, next_link, resolve_target,
    status_is_success, unfold_pages, Client, ClientError, Expect, LinkValue, Method, PageStep,
    Payload, Unfolder, DEFAULT_HOST,
};

fn pair(name: &str, value: &str) -> (String, String) {
    (name.to_string(), value.to_string())
}

fn next_to(target: &str) -> Option<Vec<LinkValue>> {
    Some(vec![LinkValue { target: target.to_string(), rel: Some(vec!["next".to_string()]) }])
}

#[test]
fn relative_target_gets_default_host() {
    assert_eq!(resolve_target("/gifs/trending"), "https://api.giphy.com/v1/gifs/trending");
    assert_eq!(resolve_target(""), DEFAULT_HOST);
}

#[test]
fn secure_target_is_kept() {
    let t = "https://example.com/a?b=c";
    assert_eq!(resolve_target(t), t);
}

#[test]
fn plain_http_target_is_treated_as_relative() {
    assert_eq!(resolve_target("http://x"), "https://api.giphy.com/v1http://x");
}

#[test]
fn no_content_ignores_garbage_body() {
    assert_eq!(decode(204, b"}{ not json", Expect::Json), Ok(Payload::Empty));
    assert_eq!(decode(204, b"", Expect::Nothing), Ok(Payload::Empty));
}

#[test]
fn nothing_expected_ignores_body() {
    assert_eq!(decode(200, b"garbage", Expect::Nothing), Ok(Payload::Empty));
}

#[test]
fn success_with_json_body_yields_body() {
    let body = br#"{"data": [1, 2, 3]}"#;
    assert_eq!(decode(200, body, Expect::Json), Ok(Payload::Json(body.to_vec())));
    assert_eq!(decode(299, b" 17 \n", Expect::Json), Ok(Payload::Json(b" 17 \n".to_vec())));
}

#[test]
fn success_with_bad_body_is_decode_error() {
    assert_eq!(decode(200, b"{\"data\": ", Expect::Json), Err(ClientError::Decode));
    assert_eq!(decode(201, b"", Expect::Json), Err(ClientError::Decode));
    assert_eq!(decode(200, b"1 2", Expect::Json), Err(ClientError::Decode));
}

#[test]
fn failure_status_is_api_error_with_body_text() {
    assert_eq!(
        decode(404, b"{\"message\":\"missing\"}", Expect::Json),
        Err(ClientError::Api { status: 404, body_text: Some("{\"message\":\"missing\"}".to_string()) })
    );
}

#[test]
fn failure_status_with_empty_body_carries_status_alone() {
    assert_eq!(decode(500, b"", Expect::Nothing), Err(ClientError::Api { status: 500, body_text: None }));
}

#[test]
fn failure_body_is_read_lossily() {
    assert_eq!(
        decode(400, &[b'a', 0xff, b'b'], Expect::Json),
        Err(ClientError::Api { status: 400, body_text: Some("a\u{fffd}b".to_string()) })
    );
}

#[test]
fn success_range_bounds() {
    assert!(!status_is_success(199));
    assert!(status_is_success(200));
    assert!(status_is_success(299));
    assert!(!status_is_success(300));
    assert_eq!(decode(300, b"{}", Expect::Json), Err(ClientError::Api { status: 300, body_text: Some("{}".to_string()) }));
    assert_eq!(decode(199, b"", Expect::Json), Err(ClientError::Api { status: 199, body_text: None }));
}

#[test]
fn link_header_is_parsed_beside_payload() {
    let header = "<https://api.giphy.com/v1/gifs?offset=25>; rel=\"next\", <https://api.giphy.com/v1/gifs?offset=0>; rel=\"prev\"";
    let (link, payload) = decode_with_link(200, Some(header), b"[]", Expect::Json).unwrap();
    assert_eq!(payload, Payload::Json(b"[]".to_vec()));
    let values = link.unwrap();
    assert_eq!(values.len(), 2);
    assert_eq!(values[0].target, "https://api.giphy.com/v1/gifs?offset=25");
    assert_eq!(values[0].rel, Some(vec!["next".to_string()]));
    assert_eq!(next_link(&values), Some("https://api.giphy.com/v1/gifs?offset=25".to_string()));
}

#[test]
fn next_link_is_the_first_with_next_relation() {
    let header = "<https://a.example/1>; rel=\"prev\", <https://a.example/2>; rel=\"NEXT\", <https://a.example/3>; rel=\"next\"";
    let (link, _) = decode_with_link(200, Some(header), b"", Expect::Nothing).unwrap();
    assert_eq!(next_link(&link.unwrap()), Some("https://a.example/2".to_string()));
}

#[test]
fn absent_or_bad_link_header_is_no_link() {
    let (link, _) = decode_with_link(204, None, b"", Expect::Json).unwrap();
    assert_eq!(link, None);
    let (link, _) = decode_with_link(204, Some("not a link"), b"", Expect::Json).unwrap();
    assert_eq!(link, None);
    let header = "<https://a.example/1>; rel=\"prev\"";
    let (link, _) = decode_with_link(204, Some(header), b"", Expect::Json).unwrap();
    assert_eq!(next_link(&link.unwrap()), None);
}

#[test]
fn link_aware_decode_fails_like_decode() {
    let header = "<https://a.example/2>; rel=\"next\"";
    assert_eq!(
        decode_with_link(503, Some(header), b"down", Expect::Json),
        Err(ClientError::Api { status: 503, body_text: Some("down".to_string()) })
    );
}

#[test]
fn unfold_concatenates_pages_in_order() {
    let pages = vec![
        (next_to("https://h/2"), vec![1, 2]),
        (next_to("https://h/3"), vec![3]),
        (None, vec![4, 5, 6]),
    ];
    assert_eq!(unfold_pages(pages), vec![1, 2, 3, 4, 5, 6]);
}

#[test]
fn unfold_stops_at_empty_page() {
    let pages = vec![(next_to("https://h/2"), vec![7, 8]), (next_to("https://h/3"), vec![]), (None, vec![9])];
    assert_eq!(unfold_pages(pages), vec![7, 8]);
}

#[test]
fn unfold_stops_without_next_link() {
    let pages = vec![(None, vec![1]), (None, vec![2])];
    assert_eq!(unfold_pages(pages), vec![1]);
}

#[test]
fn unfold_keeps_repeated_items() {
    let pages = vec![(next_to("https://h/1"), vec![1, 1]), (None, vec![1])];
    assert_eq!(unfold_pages(pages), vec![1, 1, 1]);
}

#[test]
fn unfolder_steps() {
    let mut walk: Unfolder<u8> = Unfolder::new();
    assert_eq!(walk.on_page(&next_to("https://h/2"), vec![1]), PageStep::Fetch("https://h/2".to_string()));
    assert_eq!(walk.on_page(&None, vec![2]), PageStep::Finished);
    assert_eq!(walk.into_items(), vec![1, 2]);
}

#[test]
fn json_request_carries_default_and_auth_headers() {
    let client = Client::new("s3cr3t", ());
    let plan = client.get("/gifs/trending", None).unwrap();
    assert_eq!(plan.method, Method::Get);
    assert_eq!(plan.target, "https://api.giphy.com/v1/gifs/trending");
    assert_eq!(
        plan.headers,
        vec![pair("accept", "application/json"), pair("content-type", "application/json"), pair("authorization", "Bearer s3cr3t")]
    );
    assert_eq!(plan.body, None);
}

#[test]
fn request_keeps_body_and_method() {
    let client = Client::new("t", ());
    let plan = client.post("/x", Some(b"{}".to_vec())).unwrap();
    assert_eq!(plan.method, Method::Post);
    assert_eq!(plan.body, Some(b"{}".to_vec()));
    assert_eq!(client.put("/x", None).unwrap().method, Method::Put);
    assert_eq!(client.patch("/x", None).unwrap().method, Method::Patch);
    assert_eq!(client.delete("/x", None).unwrap().method, Method::Delete);
}

#[test]
fn page_requests() {
    let client = Client::new("t", ());
    assert_eq!(client.get_pages("/gifs").unwrap().target, "https://api.giphy.com/v1/gifs");
    let plan = client.get_pages_url("https://other.example/p?page=2").unwrap();
    assert_eq!(plan.target, "https://other.example/p?page=2");
    assert_eq!(plan.method, Method::Get);
}

#[test]
fn malformed_target_is_url_error() {
    let client = Client::new("t", ());
    assert_eq!(client.request_raw(Method::Get, "https://[::1", None).unwrap_err(), ClientError::UrlParse);
    assert_eq!(client.url_and_auth("no scheme").unwrap_err(), ClientError::UrlParse);
}

#[test]
fn url_and_auth_makes_bearer_value() {
    let client = Client::new("abc", ());
    let (url, auth) = client.url_and_auth("https://api.giphy.com/v1/x").unwrap();
    assert_eq!(url, "https://api.giphy.com/v1/x");
    assert_eq!(auth, "Bearer abc");
    assert_eq!(client.token(), "abc");
}

#[test]
fn upload_request_headers_and_body() {
    let client = Client::new("k", ());
    let plan = client.request_with_mime(Method::Post, "/upload", b"hello", "image/gif").unwrap();
    assert_eq!(plan.target, "https://api.giphy.com/v1/upload");
    assert_eq!(
        plan.headers,
        vec![
            pair("accept", "application/json"),
            pair("content-type", "image/gif"),
            pair("x-upload-content-type", "application/octet-stream"),
            pair("x-upload-content-length", "5"),
            pair("authorization", "Bearer k"),
        ]
    );
    assert_eq!(plan.body, Some(b"hello".to_vec()));
}

#[test]
fn upload_of_one_byte_keeps_its_body() {
    let client = Client::new("k", ());
    let plan = client.request_with_mime(Method::Put, "/upload", b"x", "text/plain").unwrap();
    assert_eq!(plan.body, Some(b"x".to_vec()));
    assert_eq!(plan.headers[3], pair("x-upload-content-length", "1"));
}

#[test]
fn empty_upload_has_no_body() {
    let client = Client::new("k", ());
    let plan = client.request_with_mime(Method::Put, "/upload", b"", "text/plain").unwrap();
    assert_eq!(plan.body, None);
    assert_eq!(plan.headers[3], pair("x-upload-content-length", "0"));
}

#[test]
fn absolute_targets_are_used_unchanged() {
    let client = Client::new("k", ());
    let t = "https://upload.giphy.com/v1/gifs";
    assert_eq!(client.get(t, None).unwrap().target, t);
    assert_eq!(client.post(t, None).unwrap().target, t);
    assert_eq!(client.get_pages(t).unwrap().target, t);
    assert_eq!(client.request_with_mime(Method::Post, t, b"ab", "image/gif").unwrap().target, t);
}

#[test]
fn decimal_text_values() {
    assert_eq!(decimal_text(0), "0");
    assert_eq!(decimal_text(9), "9");
    assert_eq!(decimal_text(10), "10");
    assert_eq!(decimal_text(1234567), "1234567");
}

#[test]
fn header_values() {
    assert!(header_value_ok("image/gif; charset=x"));
    assert!(header_value_ok("a\tb"));
    assert!(!header_value_ok("a\nb"));
    assert!(!header_value_ok("\u{7f}"));
}

#[test]
fn concurrent_plans_do_not_mix() {
    let client = Client::new("shared", ());
    let other = client.clone();
    let a = client.get("/a", Some(b"1".to_vec())).unwrap();
    let b = other.delete("/b", Some(b"2".to_vec())).unwrap();
    assert_eq!((a.method, a.target.as_str(), a.body), (Method::Get, "https://api.giphy.com/v1/a", Some(b"1".to_vec())));
    assert_eq!((b.method, b.target.as_str(), b.body), (Method::Delete, "https://api.giphy.com/v1/b", Some(b"2".to_vec())));
    assert_eq!(a.headers, b.headers);
}
