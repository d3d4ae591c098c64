use axum_htmx::{
    GuardOutcome, Htmx, HtmxLayer, HxError, HxEvent, HxLocation, HxPushUrl, HxRedirect, HxRefresh,
    HxReplaceUrl, HxRequestGuardLayer, HxReselect, HxResponseTrigger, HxReswap, HxRetarget,
    PendingHeader, PendingResponseHeaders, RawHeader, ResponseHeaders, SwapOption, TriggerMode,
    Url, WireHeader, SEE_OTHER,
};

fn pairs(hs: Vec<WireHeader>) -> Vec<(String, String)> {
    hs.into_iter().map(|h| (h.name.to_string(), h.value)).collect()
}

fn finish(res: &ResponseHeaders) -> Vec<(String, String)> {
    pairs(res.finish().expect("sendable headers"))
}

fn p(name: &str, value: &str) -> (String, String) {
    (name.to_string(), value.to_string())
}

#[test]
fn nothing_set_sends_nothing() {
    let res = ResponseHeaders::new();
    assert!(finish(&res).is_empty());
    assert!(PendingResponseHeaders::new().serialize().unwrap().is_empty());
}

#[test]
fn last_write_wins() {
    let res = ResponseHeaders::new();
    res.set_retarget(HxRetarget("#first".to_string()));
    res.set_retarget(HxRetarget("#second".to_string()));
    assert_eq!(finish(&res), vec![p("HX-Retarget", "#second")]);
}

#[test]
fn different_kinds_come_in_fixed_order() {
    let res = ResponseHeaders::new();
    res.set_reswap(HxReswap(SwapOption::OuterHtml))
        .set_location(HxLocation::from_path("/next".to_string()));
    assert_eq!(
        finish(&res),
        vec![p("HX-Location", "/next"), p("HX-Reswap", "outerHTML")]
    );
}

#[test]
fn every_kind_in_order() {
    let res = ResponseHeaders::new();
    let trigger = HxResponseTrigger::new(TriggerMode::Normal, vec![HxEvent::new("done".to_string())]);
    res.set_trigger(trigger)
        .set_reselect(HxReselect("#part".to_string()))
        .set_retarget(HxRetarget("#box".to_string()))
        .set_reswap(HxReswap(SwapOption::Delete))
        .set_replace_url(HxReplaceUrl(Url::parse("/replaced").unwrap()))
        .set_refresh(HxRefresh(true))
        .set_redirect(HxRedirect(Url::parse("/away").unwrap()))
        .set_push_url(HxPushUrl(Url::parse("/pushed").unwrap()))
        .set_location(HxLocation::from_path("/loc".to_string()));
    assert_eq!(
        finish(&res),
        vec![
            p("HX-Location", "/loc"),
            p("HX-Push-Url", "/pushed"),
            p("HX-Redirect", "/away"),
            p("HX-Refresh", "true"),
            p("HX-Replace-Url", "/replaced"),
            p("HX-Reswap", "delete"),
            p("HX-Retarget", "#box"),
            p("HX-Reselect", "#part"),
            p("HX-Trigger", "done"),
        ]
    );
}

#[test]
fn finishing_drains_the_buffer() {
    let res = ResponseHeaders::new();
    res.set_refresh(HxRefresh(true));
    assert_eq!(finish(&res), vec![p("HX-Refresh", "true")]);
    assert!(finish(&res).is_empty());
}

#[test]
fn refresh_false_sends_nothing() {
    let res = ResponseHeaders::new();
    res.set_refresh(HxRefresh(false));
    assert!(finish(&res).is_empty());
}

#[test]
fn clones_share_one_buffer() {
    let res = ResponseHeaders::new();
    let other = res.clone();
    other.set_retarget(HxRetarget("#t".to_string()));
    res.set_reselect(HxReselect("#s".to_string()));
    assert_eq!(finish(&res), vec![p("HX-Retarget", "#t"), p("HX-Reselect", "#s")]);
}

#[test]
fn control_byte_in_value_is_an_error() {
    let res = ResponseHeaders::new();
    res.set_retarget(HxRetarget("a\nb".to_string()));
    assert_eq!(res.finish().unwrap_err(), HxError::InvalidHeaderValue);
    assert_eq!(HxError::InvalidHeaderValue.describe(), "invalid header value");
}

#[test]
fn location_without_options_is_bare_path() {
    let l = HxLocation::from_path("/a/b".to_string());
    assert_eq!(l.to_header_value(), "/a/b");
}

#[test]
fn location_with_options_is_json_of_set_fields() {
    let l = HxLocation::from_path("/a".to_string()).with_target("#x".to_string());
    assert_eq!(l.to_header_value(), r##"{"path":"/a","target":"#x"}"##);
    let l = HxLocation::from_path("/a".to_string())
        .with_swap(SwapOption::InnerHtml)
        .with_values(r#"{"k":1}"#.to_string())
        .unwrap()
        .with_headers(r#"{"X-A":"b"}"#.to_string())
        .unwrap()
        .with_select("#s".to_string());
    assert_eq!(
        l.to_header_value(),
        r##"{"path":"/a","swap":"innerHTML","values":{"k":1},"headers":{"X-A":"b"},"select":"#s"}"##
    );
}

#[test]
fn location_path_is_json_escaped() {
    let l = HxLocation::from_path("/q\"t".to_string()).with_select("s".to_string());
    assert_eq!(l.to_header_value(), r#"{"path":"/q\"t","select":"s"}"#);
}

#[test]
fn invalid_json_is_refused_when_built() {
    let l = HxLocation::from_path("/a".to_string());
    assert_eq!(l.with_values("{nope".to_string()).unwrap_err(), HxError::InvalidJson);
    assert_eq!(
        HxEvent::new_with_data("e".to_string(), "[1,".to_string()).unwrap_err(),
        HxError::InvalidJson
    );
    assert_eq!(HxError::InvalidJson.describe(), "invalid json");
    assert_eq!(Url::parse("a b").unwrap_err(), HxError::InvalidUri);
    assert_eq!(HxError::InvalidUri.describe(), "invalid uri");
}

#[test]
fn trigger_names_are_joined() {
    let t = HxResponseTrigger::new(
        TriggerMode::Normal,
        vec![HxEvent::new("a".to_string()), HxEvent::new("b".to_string())],
    );
    assert_eq!(t.to_header_value(), "a, b");
}

#[test]
fn trigger_with_payload_is_json_object() {
    let t = HxResponseTrigger::new(
        TriggerMode::AfterSettle,
        vec![
            HxEvent::new("a".to_string()),
            HxEvent::new_with_data("b".to_string(), r#"{"x":1}"#.to_string()).unwrap(),
        ],
    );
    assert_eq!(t.to_header_value(), r#"{"a":null,"b":{"x":1}}"#);
    let res = ResponseHeaders::new();
    res.set_trigger(t);
    assert_eq!(
        finish(&res),
        vec![p("HX-Trigger-After-Settle", r#"{"a":null,"b":{"x":1}}"#)]
    );
}

#[test]
fn after_swap_trigger_uses_its_own_header() {
    let res = ResponseHeaders::new();
    res.set_trigger(HxResponseTrigger::new(
        TriggerMode::AfterSwap,
        vec![HxEvent::new("swapped".to_string())],
    ));
    let out = finish(&res);
    assert_eq!(out, vec![p("HX-Trigger-After-Swap", "swapped")]);
    assert!(out.iter().all(|(n, _)| n != "HX-Trigger" && n != "HX-Trigger-After-Settle"));
}

#[test]
fn trigger_without_events_sends_nothing() {
    let res = ResponseHeaders::new();
    res.set_trigger(HxResponseTrigger::new(TriggerMode::Normal, Vec::new()));
    assert!(finish(&res).is_empty());
}

#[test]
fn pending_record_setter_replaces_slot() {
    let mut rec = PendingResponseHeaders::new();
    rec.set(PendingHeader::Reswap(HxReswap(SwapOption::BeforeBegin)));
    rec.set(PendingHeader::Reswap(HxReswap(SwapOption::AfterEnd)));
    let out = pairs(rec.serialize().unwrap());
    assert_eq!(out, vec![p("HX-Reswap", "afterend")]);
}

#[test]
fn swap_tokens() {
    let all = [
        (SwapOption::InnerHtml, "innerHTML"),
        (SwapOption::OuterHtml, "outerHTML"),
        (SwapOption::BeforeBegin, "beforebegin"),
        (SwapOption::AfterBegin, "afterbegin"),
        (SwapOption::BeforeEnd, "beforeend"),
        (SwapOption::AfterEnd, "afterend"),
        (SwapOption::Delete, "delete"),
        (SwapOption::NoSwap, "none"),
    ];
    for (o, t) in all {
        assert_eq!(o.as_str(), t);
    }
}

#[test]
fn guard_forwards_htmx_requests() {
    let layer = HxRequestGuardLayer::new("/login");
    let guard = layer.layer(());
    let hs = vec![RawHeader::new("hx-request".to_string(), b"true".to_vec())];
    assert_eq!(guard.outcome(&hs), GuardOutcome::Forward);
}

#[test]
fn guard_redirects_other_requests() {
    let guard = HxRequestGuardLayer::new("/login").layer(());
    assert_eq!(guard.outcome(&[]), GuardOutcome::Redirect("/login"));
    let guard = HxRequestGuardLayer::default().layer(());
    assert_eq!(guard.outcome(&[]), GuardOutcome::Redirect("/"));
    assert_eq!(SEE_OTHER, 303);
}

#[test]
fn end_to_end_prompt_and_reswap() {
    let layer = HtmxLayer::new();
    let service = layer.layer(());
    let res = service.begin();
    let hs = vec![
        RawHeader::new("HX-Request".to_string(), b"true".to_vec()),
        RawHeader::new("HX-Prompt".to_string(), b"Bob".to_vec()),
    ];
    let htmx = Htmx::new(&hs, res.clone());
    htmx.res.set_reswap(HxReswap(SwapOption::AfterBegin));
    let body = format!("Hello, {}", htmx.req.prompt.clone().unwrap());
    assert_eq!(body, "Hello, Bob");
    assert_eq!(finish(&res), vec![p("HX-Reswap", "afterbegin")]);
}
