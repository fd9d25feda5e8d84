use playwright::event::{Event, EventType, Evt};
use playwright::session::{detach_call, handle_event, send_call, send_result};
use serde_json::Value;

fn object(entries: &[(&str, Value)]) -> serde_json::Map<String, Value> {
    let mut m = serde_json::Map::new();
    for (k, v) in entries {
        m.insert(k.to_string(), v.clone());
    }
    m
}

fn text(s: &str) -> Value {
    Value::String(s.to_string())
}

#[test]
fn event_type_of_cdp_event() {
    let e = Evt::Event { method: "Page.loadEventFired".to_string(), params: Value::Null };
    assert_eq!(e.event_type(), EventType::Event);
}

#[test]
fn event_type_of_detached() {
    assert_eq!(Evt::Detached.event_type(), EventType::Detached);
}

#[test]
fn from_cdp_event_keeps_method_and_params() {
    let params = Value::Object(object(&[("timestamp", Value::from(12))]));
    let e = Evt::Event { method: "Page.loadEventFired".to_string(), params: params.clone() };
    match Event::from(e) {
        Event::Event(method, p) => {
            assert_eq!(method, "Page.loadEventFired");
            assert_eq!(p, params);
        }
        Event::Detached => panic!("expected a CDP event"),
    }
}

#[test]
fn from_detached_is_detached() {
    assert!(matches!(Event::from(Evt::Detached), Event::Detached));
}

#[test]
fn from_keeps_event_type() {
    let cases = vec![
        Evt::Event { method: "Network.requestWillBeSent".to_string(), params: text("x") },
        Evt::Detached,
    ];
    for e in cases {
        let t = e.event_type();
        let detached = matches!(Event::from(e), Event::Detached);
        assert_eq!(detached, t == EventType::Detached);
    }
}

#[test]
fn send_call_with_params() {
    let params = object(&[("type", text("mouseMoved")), ("x", Value::from(10))]);
    let call = send_call("Input.dispatchMouseEvent", Some(params.clone()));
    assert_eq!(call.method, "send");
    assert_eq!(call.args.len(), 2);
    assert_eq!(call.args.get("method"), Some(&text("Input.dispatchMouseEvent")));
    assert_eq!(call.args.get("params"), Some(&Value::Object(params)));
}

#[test]
fn send_call_without_params() {
    let call = send_call("Runtime.evaluate", None);
    assert_eq!(call.method, "send");
    assert_eq!(call.args.len(), 1);
    assert_eq!(call.args.get("method"), Some(&text("Runtime.evaluate")));
    assert_eq!(call.args.get("params"), None);
}

#[test]
fn send_call_with_empty_params() {
    let call = send_call("Page.enable", Some(serde_json::Map::new()));
    assert_eq!(call.args.len(), 2);
    assert_eq!(call.args.get("params"), Some(&Value::Object(serde_json::Map::new())));
}

#[test]
fn send_result_takes_result() {
    let result = Value::Object(object(&[("value", Value::from(3))]));
    let reply = Value::Object(object(&[("result", result.clone()), ("other", Value::Bool(true))]));
    assert_eq!(send_result(&reply), result);
}

#[test]
fn send_result_without_result_is_null() {
    let reply = Value::Object(object(&[("other", Value::Bool(true))]));
    assert_eq!(send_result(&reply), Value::Null);
}

#[test]
fn send_result_of_non_object_is_null() {
    assert_eq!(send_result(&text("result")), Value::Null);
    assert_eq!(send_result(&Value::Null), Value::Null);
}

#[test]
fn send_result_keeps_null_result() {
    let reply = Value::Object(object(&[("result", Value::Null)]));
    assert_eq!(send_result(&reply), Value::Null);
}

#[test]
fn detach_call_has_no_args() {
    let call = detach_call();
    assert_eq!(call.method, "detach");
    assert!(call.args.is_empty());
}

#[test]
fn handle_event_reports_cdp_event() {
    let inner = Value::Object(object(&[("frameId", text("F1"))]));
    let params = object(&[("method", text("Page.frameNavigated")), ("params", inner.clone())]);
    match handle_event("event", &params) {
        Some(Evt::Event { method, params: p }) => {
            assert_eq!(method, "Page.frameNavigated");
            assert_eq!(p, inner);
        }
        other => panic!("unexpected {:?}", other),
    }
}

#[test]
fn handle_event_without_method_or_params() {
    match handle_event("event", &serde_json::Map::new()) {
        Some(Evt::Event { method, params }) => {
            assert_eq!(method, "");
            assert_eq!(params, Value::Null);
        }
        other => panic!("unexpected {:?}", other),
    }
}

#[test]
fn handle_event_with_non_string_method() {
    let params = object(&[("method", Value::from(7)), ("params", Value::Bool(false))]);
    match handle_event("event", &params) {
        Some(Evt::Event { method, params }) => {
            assert_eq!(method, "");
            assert_eq!(params, Value::Bool(false));
        }
        other => panic!("unexpected {:?}", other),
    }
}

#[test]
fn handle_event_detached() {
    let params = object(&[("method", text("ignored"))]);
    assert!(matches!(handle_event("detached", &params), Some(Evt::Detached)));
}

#[test]
fn handle_event_ignores_other_messages() {
    let params = object(&[("method", text("Page.loadEventFired"))]);
    assert!(handle_event("__create__", &params).is_none());
    assert!(handle_event("", &params).is_none());
    assert!(handle_event("Event", &params).is_none());
    assert!(handle_event("events", &params).is_none());
    assert!(handle_event("detach", &params).is_none());
}

#[test]
fn handled_event_type_follows_message_name() {
    let params = object(&[("method", text("Target.targetCreated"))]);
    assert_eq!(handle_event("event", &params).unwrap().event_type(), EventType::Event);
    assert_eq!(handle_event("detached", &params).unwrap().event_type(), EventType::Detached);
}

#[test]
fn send_args_read_back_as_event() {
    let params = object(&[("expression", text("1 + 1"))]);
    let call = send_call("Runtime.evaluate", Some(params.clone()));
    match handle_event("event", &call.args) {
        Some(Evt::Event { method, params: p }) => {
            assert_eq!(method, "Runtime.evaluate");
            assert_eq!(p, Value::Object(params));
        }
        other => panic!("unexpected {:?}", other),
    }
}

#[test]
fn clone_keeps_event() {
    let params = Value::Object(object(&[("requestId", text("R7"))]));
    let e = Evt::Event { method: "Network.loadingFinished".to_string(), params: params.clone() };
    let c = e.clone();
    assert_eq!(c.event_type(), e.event_type());
    match c {
        Evt::Event { method, params: p } => {
            assert_eq!(method, "Network.loadingFinished");
            assert_eq!(p, params);
        }
        Evt::Detached => panic!("expected a CDP event"),
    }
    assert_eq!(Evt::Detached.clone().event_type(), EventType::Detached);
    match Event::Event("Page.loadEventFired".to_string(), Value::Null).clone() {
        Event::Event(method, p) => {
            assert_eq!(method, "Page.loadEventFired");
            assert_eq!(p, Value::Null);
        }
        Event::Detached => panic!("expected a CDP event"),
    }
}
