use amplifier_relayer::propagation::{is_valid_header, RequestCarrier};

fn request() -> reqwest::Request {
    reqwest::Request::new(reqwest::Method::GET, "https://example.com".parse().unwrap())
}

#[test]
fn carrier_sets_headers() {
    let mut req = request();
    {
        let mut carrier = RequestCarrier::new(&mut req);
        carrier.set_inner("traceparent", "00-0af7651916cd43dd8448eb211c80319c-b7ad6b7169203331-01");
        assert!(carrier.try_set("tracestate", "k=v"));
        assert!(!carrier.try_set("bad header", "v"));
        assert!(!carrier.try_set("x-ok", "bad\nvalue"));
    }
    assert_eq!(
        req.headers().get("traceparent").unwrap(),
        "00-0af7651916cd43dd8448eb211c80319c-b7ad6b7169203331-01"
    );
    assert_eq!(req.headers().get("tracestate").unwrap(), "k=v");
    assert!(req.headers().get("bad header").is_none());
    assert_eq!(req.headers().len(), 2);
}

#[test]
fn set_replaces_previous_values() {
    let mut req = request();
    req.headers_mut().append("x-trace", "one".parse().unwrap());
    req.headers_mut().append("x-trace", "two".parse().unwrap());
    {
        let mut carrier = RequestCarrier::new(&mut req);
        carrier.set_inner("X-Trace", "three");
    }
    let values: Vec<_> = req.headers().get_all("x-trace").iter().collect();
    assert_eq!(values, vec!["three"]);
}

#[test]
fn header_text_rules() {
    assert!(is_valid_header("A-z0_9!#$%&'*+.^`|~", "v"));
    assert!(!is_valid_header("", "v"));
    assert!(!is_valid_header("a{b", "v"));
    assert!(!is_valid_header("caf\u{e9}", "v"));
    assert!(is_valid_header("k", "tab\there"));
    assert!(is_valid_header("k", "caf\u{e9}"));
    assert!(is_valid_header("k", ""));
    assert!(!is_valid_header("k", "del\u{7f}"));
    assert!(!is_valid_header("k", "nul\u{0}"));
}
