use traced_fetch::diag::reversed;
use traced_fetch::errors::FetchError;
use traced_fetch::fetcher::{Fetcher, TransportEvent, CONNECT_TIMEOUT_SECS};
use traced_fetch::json::to_json;
use traced_fetch::span::{SpanOutcome, SpanRecord};

#[test]
fn reversal_of_example_url() {
    assert_eq!(reversed("https://example.com"), "moc.elpmaxe//:sptth");
}

#[test]
fn reversal_of_empty_and_unicode() {
    assert_eq!(reversed(""), "");
    assert_eq!(reversed("a"), "a");
    assert_eq!(reversed("héllo"), "olléh");
}

#[test]
fn reversal_twice_is_identity() {
    let url = "https://httpbin.org/get";
    assert_eq!(reversed(&reversed(url)), url);
}

#[test]
fn decode_matches_direct_parse() {
    let body = "{\"name\": \"value\", \"n\": 3}";
    let direct: serde_json::Value = serde_json::from_str(body).unwrap();
    let decoded = to_json(body).unwrap();
    assert_eq!(decoded, direct);
}

#[test]
fn decode_rejects_non_json() {
    let r = to_json("not json");
    match r {
        Err(FetchError::Decode(cause)) => assert!(!cause.is_empty()),
        _ => panic!("expected a decode failure"),
    }
}

#[test]
fn decode_rejects_empty_and_truncated_text() {
    assert!(matches!(to_json(""), Err(FetchError::Decode(_))));
    assert!(matches!(to_json("{\"open\": "), Err(FetchError::Decode(_))));
}

#[test]
fn decode_handles_every_json_shape() {
    let body = "{\"null\": null, \"flag\": true, \"n\": -2.5, \"s\": \"x\", \"seq\": [1, \"two\"], \"map\": {\"k\": false}}";
    let direct: serde_json::Value = serde_json::from_str(body).unwrap();
    assert_eq!(to_json(body).unwrap(), direct);
}

#[test]
fn fetcher_builds_with_fixed_timeout() {
    let f = Fetcher::new().unwrap();
    assert_eq!(f.timeout_secs(), CONNECT_TIMEOUT_SECS);
    assert_eq!(CONNECT_TIMEOUT_SECS, 1);
}

#[test]
fn conclusion_of_well_formed_body() {
    let body = "[1, 2, 3]";
    let c = Fetcher::conclude("https://example.com", TransportEvent::Fetched(body.to_string()));
    let direct: serde_json::Value = serde_json::from_str(body).unwrap();
    assert_eq!(c.result.unwrap(), direct);
    assert!(!c.span.open);
    assert_eq!(c.span.name, "get_json_with_tracing");
    assert_eq!(c.span.diagnostic, "moc.elpmaxe//:sptth");
    match c.span.outcome {
        Some(SpanOutcome::Value(s)) => assert_eq!(s, direct.to_string()),
        _ => panic!("expected a recorded value"),
    }
}

#[test]
fn conclusion_renders_compactly_not_verbatim() {
    let body = "  { \"a\" : 1 }  ";
    let c = Fetcher::conclude("u", TransportEvent::Fetched(body.to_string()));
    match c.span.outcome {
        Some(SpanOutcome::Value(s)) => {
            assert_eq!(s, "{\"a\":1}");
            assert_ne!(s, body);
        }
        _ => panic!("expected a recorded value"),
    }
}

#[test]
fn conclusion_of_non_json_body() {
    let c = Fetcher::conclude("https://example.com", TransportEvent::Fetched("not json".to_string()));
    let cause = match &c.result {
        Err(FetchError::Decode(m)) => m.clone(),
        _ => panic!("expected a decode failure"),
    };
    assert!(!c.span.open);
    match c.span.outcome {
        Some(SpanOutcome::Error(d)) => assert_eq!(d, cause),
        _ => panic!("expected a recorded error"),
    }
}

#[test]
fn conclusion_of_transport_failure() {
    let c = Fetcher::conclude(
        "https://unreachable.invalid",
        TransportEvent::TransportFailed("connect timeout".to_string()),
    );
    match &c.result {
        Err(FetchError::Transport(m)) => assert_eq!(m, "connect timeout"),
        _ => panic!("expected a transport failure"),
    }
    assert!(!c.span.open);
    match c.span.outcome {
        Some(SpanOutcome::Error(d)) => assert_eq!(d, "connect timeout"),
        _ => panic!("expected a recorded error"),
    }
}

#[test]
fn conclusion_of_body_failure() {
    let c = Fetcher::conclude(
        "https://example.com",
        TransportEvent::BodyFailed("truncated stream".to_string()),
    );
    match &c.result {
        Err(FetchError::Body(m)) => assert_eq!(m, "truncated stream"),
        _ => panic!("expected a body failure"),
    }
    assert!(!c.span.open);
}

#[test]
fn open_span_then_conclude_is_one_closed_span() {
    let s = SpanRecord::open_for("https://example.com");
    assert!(s.open);
    assert!(s.outcome.is_none());
    let c = Fetcher::conclude("https://example.com", TransportEvent::Fetched("null".to_string()));
    assert!(!c.span.open);
    assert!(c.span.outcome.is_some());
    assert_eq!(c.span.name, s.name);
    assert_eq!(c.span.diagnostic, s.diagnostic);
}

#[test]
fn interleaved_fetches_keep_their_own_results() {
    let first_url = "https://one.example";
    let second_url = "https://two.example";
    let first_body = "{\"who\": \"one\"}";
    let second_body = "{\"who\": \"two\"}";
    let c1 = Fetcher::conclude(first_url, TransportEvent::Fetched(first_body.to_string()));
    let c2 = Fetcher::conclude(second_url, TransportEvent::Fetched(second_body.to_string()));
    let v1: serde_json::Value = serde_json::from_str(first_body).unwrap();
    let v2: serde_json::Value = serde_json::from_str(second_body).unwrap();
    assert_eq!(c1.result.unwrap(), v1);
    assert_eq!(c2.result.unwrap(), v2);
    assert_ne!(c1.span.diagnostic, c2.span.diagnostic);
    assert_eq!(c1.span.diagnostic, reversed(first_url));
    assert_eq!(c2.span.diagnostic, reversed(second_url));
}

#[test]
fn error_causes_are_carried() {
    let t = FetchError::Transport("dns".to_string());
    let b = FetchError::Body("short read".to_string());
    let d = FetchError::Decode("bad token".to_string());
    assert_eq!(t.cause(), "dns");
    assert_eq!(b.cause(), "short read");
    assert_eq!(d.cause(), "bad token");
}
