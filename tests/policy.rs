use cache_control_layer::directive::CacheDirective;
use cache_control_layer::middleware::{CacheControlLayer, Handled};
use cache_control_layer::policy::{
    classify, decide, directive_for_status, effective_hint, fallback, resolve_default,
    StatusClass,
};

fn max_age(secs: u64) -> CacheDirective {
    CacheDirective::new().with_max_age(secs)
}

#[test]
fn empty_directive_sets_nothing() {
    let d = CacheDirective::new();
    assert!(d.is_empty());
    assert_eq!(d.max_age, None);
    assert!(!d.public && !d.private && !d.no_cache);
    assert!(!max_age(0).is_empty());
    assert!(!CacheDirective::new().with_public().is_empty());
}

#[test]
fn builders_set_one_field_each() {
    let d = max_age(7).with_public().with_private().with_no_cache();
    assert_eq!(d.max_age, Some(7));
    assert!(d.public && d.private && d.no_cache);
    assert!(!d.no_store && !d.immutable);
    assert_eq!(max_age(7).with_max_age(9).max_age, Some(9));
}

#[test]
fn classify_status_codes() {
    assert_eq!(classify(100), StatusClass::Success);
    assert_eq!(classify(200), StatusClass::Success);
    assert_eq!(classify(299), StatusClass::Success);
    assert_eq!(classify(301), StatusClass::MovedPermanently);
    assert_eq!(classify(302), StatusClass::Redirection);
    assert_eq!(classify(399), StatusClass::Redirection);
    assert_eq!(classify(404), StatusClass::ClientError);
    assert_eq!(classify(503), StatusClass::Other);
    assert_eq!(classify(999), StatusClass::Other);
    assert_eq!(classify(42), StatusClass::Other);
}

#[test]
fn fallback_default_is_five_seconds() {
    assert_eq!(fallback(), max_age(5));
    assert_eq!(resolve_default(None), max_age(5));
    assert_eq!(resolve_default(Some(max_age(10))), max_age(10));
}

#[test]
fn existing_response_directive_is_kept() {
    let existing = max_age(60).with_private();
    for status in [200u16, 204, 301, 302, 404, 503] {
        assert_eq!(decide(status, Some(existing), Some(max_age(120)), fallback()), None);
        assert_eq!(decide(status, Some(CacheDirective::new()), None, fallback()), None);
    }
}

#[test]
fn ok_without_hint_or_default_gets_five_seconds() {
    assert_eq!(decide(200, None, None, resolve_default(None)), Some(max_age(5)));
}

#[test]
fn ok_with_hint_takes_the_hint() {
    let r = decide(200, None, Some(max_age(120)), resolve_default(None));
    assert_eq!(r, Some(max_age(120)));
    let r = decide(200, None, Some(max_age(120)), max_age(10).with_public());
    assert_eq!(r, Some(max_age(120)));
}

#[test]
fn moved_permanently_is_one_day_public() {
    let expected = max_age(86_400).with_public();
    assert_eq!(decide(301, None, None, fallback()), Some(expected));
    assert_eq!(decide(301, None, Some(max_age(120)), fallback()), Some(expected));
    assert_eq!(decide(301, None, Some(max_age(120).with_private()), max_age(10)), Some(expected));
}

#[test]
fn found_with_default_is_private() {
    let r = decide(302, None, None, resolve_default(Some(max_age(10))));
    assert_eq!(r, Some(max_age(10).with_private()));
    let r = decide(307, None, Some(max_age(120)), max_age(10));
    assert_eq!(r, Some(max_age(120).with_private()));
}

#[test]
fn not_found_is_no_cache_private() {
    let expected = CacheDirective::new().with_no_cache().with_private();
    assert_eq!(decide(404, None, None, CacheDirective::new()), Some(expected));
    assert_eq!(decide(404, None, Some(max_age(120)), CacheDirective::new()), Some(expected));
    assert_eq!(decide(404, None, None, resolve_default(None)), Some(expected));
    assert_eq!(decide(404, None, Some(max_age(120)), resolve_default(None)), Some(expected));
    let r = directive_for_status(404, Some(max_age(120)), resolve_default(Some(max_age(10))));
    assert_eq!(r, expected);
    assert_eq!(decide(451, None, None, max_age(10).with_public()), Some(expected));
}

#[test]
fn proxy_revalidate_hint_counts() {
    let hint = CacheDirective { proxy_revalidate: true, ..CacheDirective::new() };
    assert!(!hint.is_empty());
    assert_eq!(effective_hint(Some(hint)), Some(hint));
    assert_eq!(decide(200, None, Some(hint), fallback()), Some(hint));
    assert_eq!(decide(302, None, Some(hint), fallback()), Some(hint.with_private()));
}

#[test]
fn service_unavailable_is_half_an_hour_public() {
    let expected = max_age(1_800).with_public();
    assert_eq!(decide(503, None, None, fallback()), Some(expected));
    assert_eq!(decide(503, None, Some(max_age(120)), fallback()), Some(expected));
    assert_eq!(decide(503, None, Some(max_age(120)), max_age(10)), Some(expected));
    assert_eq!(decide(42, None, None, fallback()), Some(expected));
}

#[test]
fn no_content_with_empty_hint_uses_default() {
    assert_eq!(effective_hint(Some(CacheDirective::new())), None);
    assert_eq!(effective_hint(Some(max_age(1))), Some(max_age(1)));
    let r = decide(204, None, Some(CacheDirective::new()), resolve_default(Some(max_age(10))));
    assert_eq!(r, Some(max_age(10)));
    let r = decide(204, None, Some(CacheDirective::new()), resolve_default(None));
    assert_eq!(r, Some(max_age(5)));
}

#[test]
fn same_inputs_same_decision() {
    for status in [100u16, 200, 301, 302, 404, 503] {
        let a = decide(status, None, Some(max_age(120)), max_age(10));
        let b = decide(status, None, Some(max_age(120)), max_age(10));
        assert_eq!(a, b);
    }
}

#[derive(Clone, Debug, PartialEq)]
struct Handler {
    calls: u32,
}

#[test]
fn layer_copies_its_default() {
    let layer = CacheControlLayer::new(max_age(10));
    assert_eq!(layer.default_directive(), Some(max_age(10)));
    let a = layer.layer(Handler { calls: 1 });
    let b = layer.layer(Handler { calls: 2 });
    assert_eq!(a.default_directive(), Some(max_age(10)));
    assert_eq!(b.default_directive(), Some(max_age(10)));
    assert_eq!(CacheControlLayer::default().default_directive(), None);
}

#[test]
fn begin_call_hands_out_the_handler() {
    let mut service = CacheControlLayer::default().layer(Handler { calls: 3 });
    service.inner_mut().calls = 4;
    let (handler, pending) = service.begin_call(Some(max_age(120)));
    assert_eq!(handler, Handler { calls: 4 });
    assert_eq!(service.inner_mut().calls, 4);
    assert_eq!(pending.default, max_age(5));
    assert_eq!(pending.hint, Some(max_age(120)));
    let (_, pending) = service.begin_call(Some(CacheDirective::new()));
    assert_eq!(pending.hint, None);
}

#[test]
fn finish_attaches_the_decision() {
    let mut service = CacheControlLayer::new(max_age(10)).layer(Handler { calls: 0 });
    let (_, pending) = service.begin_call(None);
    let handled: Result<Handled<&str>, String> =
        Ok(Handled { response: "body", status: 302, existing: None });
    let r = pending.finish(handled);
    assert_eq!(r, Ok(("body", Some(max_age(10).with_private()))));
    let kept: Result<Handled<&str>, String> =
        Ok(Handled { response: "body", status: 200, existing: Some(max_age(1)) });
    assert_eq!(pending.finish(kept), Ok(("body", None)));
}

#[test]
fn finish_passes_a_failure_through() {
    let mut service = CacheControlLayer::default().layer(Handler { calls: 0 });
    let (_, pending) = service.begin_call(Some(max_age(120)));
    let failed: Result<Handled<&str>, String> = Err(String::from("inner failed"));
    assert_eq!(pending.finish(failed), Err(String::from("inner failed")));
}
