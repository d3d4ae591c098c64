use axum_htmx::{
    extract_current_url, extract_header_bool, extract_header_string, find_header, HxBoosted,
    HxCurrentUrl, HxHistoryRestoreRequest, HxPrompt, HxRequest, HxTarget, HxTrigger,
    HxTriggerName, RawHeader, RequestHeaders, Url, HX_BOOSTED, HX_CURRENT_URL, HX_PROMPT,
    HX_REQUEST,
};

fn header(name: &str, value: &[u8]) -> RawHeader {
    RawHeader::new(name.to_string(), value.to_vec())
}

#[test]
fn flag_true_only_for_exact_true() {
    let hs = vec![header("hx-request", b"true")];
    assert!(extract_header_bool(&hs, HX_REQUEST));
    for v in [&b"True"[..], b"1", b"", b"TRUE", b"true "] {
        let hs = vec![header("hx-request", v)];
        assert!(!extract_header_bool(&hs, HX_REQUEST));
    }
}

#[test]
fn flag_absent_is_false() {
    let hs = vec![header("hx-prompt", b"true")];
    assert!(!extract_header_bool(&hs, HX_REQUEST));
    assert!(!extract_header_bool(&[], HX_BOOSTED));
}

#[test]
fn header_names_ignore_ascii_case() {
    let hs = vec![header("HX-REQUEST", b"true"), header("Hx-Boosted", b"true")];
    assert!(HxRequest::from_headers(&hs).0);
    assert!(HxBoosted::from_headers(&hs).0);
    assert!(!HxHistoryRestoreRequest::from_headers(&hs).0);
}

#[test]
fn first_header_of_a_name_wins() {
    let hs = vec![header("hx-prompt", b"first"), header("hx-prompt", b"second")];
    assert_eq!(find_header(&hs, HX_PROMPT), Some(&b"first".to_vec()));
    assert_eq!(extract_header_string(&hs, HX_PROMPT), Some("first".to_string()));
}

#[test]
fn string_present_absent_and_not_text() {
    let hs = vec![header("hx-prompt", b"Bob")];
    assert_eq!(HxPrompt::from_headers(&hs).0, Some("Bob".to_string()));
    assert_eq!(HxTarget::from_headers(&hs).0, None);
    let hs = vec![header("hx-target", &[0x62, 0xff, 0x63])];
    assert_eq!(HxTarget::from_headers(&hs).0, None);
    let hs = vec![header("hx-trigger", b"a\x01b")];
    assert_eq!(HxTrigger::from_headers(&hs).0, None);
    let hs = vec![header("hx-trigger-name", b"with\ttab")];
    assert_eq!(HxTriggerName::from_headers(&hs).0, Some("with\ttab".to_string()));
}

#[test]
fn current_url_parsed_or_none() {
    let hs = vec![header("hx-current-url", b"https://example.com/page?x=1")];
    let u = extract_current_url(&hs).expect("a URI");
    assert_eq!(u.as_str(), "https://example.com/page?x=1");
    let hs = vec![header("hx-current-url", b"https://exa mple.com")];
    assert!(HxCurrentUrl::from_headers(&hs).0.is_none());
    assert!(extract_current_url(&[]).is_none());
    let hs = vec![header(HX_CURRENT_URL, b"/relative/path")];
    assert_eq!(extract_current_url(&hs).unwrap().as_str(), "/relative/path");
}

#[test]
fn url_is_written_back_by_http() {
    let u = Url::parse("https://tokio.rs").unwrap();
    assert_eq!(u.as_str(), "https://tokio.rs/");
    assert!(Url::parse("").is_err());
}

#[test]
fn snapshot_reads_every_field() {
    let hs = vec![
        header("hx-boosted", b"true"),
        header("hx-current-url", b"/now"),
        header("hx-history-restore-request", b"false"),
        header("hx-prompt", b"Bob"),
        header("hx-target", b"main"),
        header("hx-trigger-name", b"button"),
        header("hx-trigger", b"btn-1"),
    ];
    let r = RequestHeaders::from_headers(&hs);
    assert!(r.boosted);
    assert_eq!(r.current_url.unwrap().as_str(), "/now");
    assert!(!r.history_restore);
    assert_eq!(r.prompt.as_deref(), Some("Bob"));
    assert_eq!(r.target.as_deref(), Some("main"));
    assert_eq!(r.trigger_name.as_deref(), Some("button"));
    assert_eq!(r.trigger.as_deref(), Some("btn-1"));
}

#[test]
fn snapshot_of_no_headers_is_all_defaults() {
    let r = RequestHeaders::from_headers(&[]);
    assert!(!r.boosted);
    assert!(r.current_url.is_none());
    assert!(!r.history_restore);
    assert!(r.prompt.is_none() && r.target.is_none());
    assert!(r.trigger_name.is_none() && r.trigger.is_none());
}
