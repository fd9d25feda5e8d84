//! What a CDP session says to the driver, and what it makes of what the driver
//! says back: the calls it sends, the result it keeps of a reply, and the event
//! it emits for a message.
use vstd::prelude::*;
use vstd::string::StrSliceExecFns;
use crate::event::{Evt, EventType};
use crate::json::{
    JsonMap, JsonValue, json_value, json_object, json_entry, json_field, json_str, json_map_new,
    json_map_insert, json_map_get, json_value_get, json_as_str, json_null, json_string,
    json_object_value,
};

verus! {

/// A call to the driver: the driver method to call on the session's channel,
/// with its arguments.
pub struct DriverCall {
    pub method: String,
    pub args: JsonMap,
}

/// `args` are the arguments of a `send` of the CDP method `method` with the
/// CDP parameters `params`: the key `method` holds the method's name as a
/// string, the key `params` holds the parameters as an object when there are
/// any, and there is no other key.
pub open spec fn is_send_args(args: JsonMap, method: Seq<char>, params: Option<JsonMap>) -> bool {
    let o = json_object(args);
    &&& o.dom() == (if params is Some {
        set!["method"@, "params"@]
    } else {
        set!["method"@]
    })
    &&& json_value(o["method"@]) == JsonValue::String(method)
    &&& params matches Some(pp) ==> json_value(o["params"@]) == JsonValue::Object(pp)
}

/// The CDP method name that a driver message carries under `method`: the
/// string there, or the empty string where there is none or it is no string.
pub open spec fn message_method(params: JsonMap) -> Seq<char> {
    match json_entry(params, "method"@) {
        Some(v) => match json_str(v) {
            Some(s) => s,
            None => Seq::empty(),
        },
        None => Seq::empty(),
    }
}

/// `p` is the CDP parameters that a driver message carries under `params`:
/// the value there, or null where there is none.
pub open spec fn is_message_params(params: JsonMap, p: serde_json::Value) -> bool {
    match json_entry(params, "params"@) {
        Some(v) => p == v,
        None => json_value(p) == JsonValue::Null,
    }
}

/// `e` is the event that the driver message with parameters `params` reports:
/// a CDP event with the message's method name and parameters.
pub open spec fn is_message_event(e: Evt, params: JsonMap) -> bool {
    match e {
        Evt::Event { method, params: p } => method@ == message_method(params) && is_message_params(
            params,
            p,
        ),
        Evt::Detached => false,
    }
}

/// Whether two strings hold the same characters.
fn same_text(a: &str, b: &str) -> (r: bool)
    ensures
        r == (a@ == b@),
{
    let n = a.unicode_len();
    if n != b.unicode_len() {
        return false;
    }
    let mut i: usize = 0;
    while i < n
        invariant
            n == a@.len(),
            n == b@.len(),
            i <= n,
            forall|j: int| 0 <= j < i ==> a@[j] == b@[j],
        decreases n - i,
    {
        if a.get_char(i) != b.get_char(i) {
            return false;
        }
        i = i + 1;
    }
    assert(a@ =~= b@);
    true
}

/// The driver call that sends the CDP command `method` with the parameters
/// `params` over the session.
pub fn send_call(method: &str, params: Option<JsonMap>) -> (c: DriverCall)
    ensures
        c.method@ == "send"@,
        is_send_args(c.args, method@, params),
{
    let ghost pp = params;
    proof {
        reveal_strlit("method");
        reveal_strlit("params");
        assert("method"@ != "params"@) by {
            assert("method"@[0] != "params"@[0]);
        }
    }
    let mut p = json_map_new();
    let name = json_string(method.to_owned());
    assert(json_value(name) == JsonValue::String(method@));
    json_map_insert(&mut p, "method".to_owned(), name);
    assert(json_object(p) =~= Map::empty().insert("method"@, name));
    match params {
        Some(q) => {
            let obj = json_object_value(q);
            json_map_insert(&mut p, "params".to_owned(), obj);
            assert(json_object(p) =~= Map::empty().insert("method"@, name).insert("params"@, obj));
            assert(json_object(p).dom() =~= set!["method"@, "params"@]);
            assert(is_send_args(p, method@, pp));
        },
        None => {
            assert(json_object(p).dom() =~= set!["method"@]);
            assert(is_send_args(p, method@, pp));
        },
    }
    DriverCall { method: "send".to_owned(), args: p }
}

/// What `send` hands back of the driver's reply: the reply's `result`, or null
/// where the reply has none.
pub fn send_result(reply: &serde_json::Value) -> (r: serde_json::Value)
    ensures
        match json_field(*reply, "result"@) {
            Some(v) => r == v,
            None => json_value(r) == JsonValue::Null,
        },
{
    match json_value_get(reply, "result") {
        Some(v) => v.clone(),
        None => json_null(),
    }
}

/// The driver call that detaches the session: `detach`, with no arguments.
pub fn detach_call() -> (c: DriverCall)
    ensures
        c.method@ == "detach"@,
        json_object(c.args).is_empty(),
{
    DriverCall { method: "detach".to_owned(), args: json_map_new() }
}

/// The event that the session emits for the driver message `method` with the
/// parameters `params`: a CDP event for `event`, `Detached` for `detached`,
/// and none for any other message.
pub fn handle_event(method: &str, params: &JsonMap) -> (r: Option<Evt>)
    ensures
        method@ == "event"@ ==> (r matches Some(e) && is_message_event(e, *params)),
        method@ == "detached"@ ==> r == Some(Evt::Detached),
        method@ != "event"@ && method@ != "detached"@ ==> r is None,
{
    proof {
        reveal_strlit("event");
        reveal_strlit("detached");
        assert("event"@.len() != "detached"@.len());
    }
    if same_text(method, "event") {
        proof {
            reveal_strlit("");
        }
        let m: &str = match json_map_get(params, "method") {
            Some(v) => match json_as_str(v) {
                Some(s) => s,
                None => "",
            },
            None => "",
        };
        assert(m@ == message_method(*params));
        let p = match json_map_get(params, "params") {
            Some(v) => v.clone(),
            None => json_null(),
        };
        Some(Evt::Event { method: m.to_owned(), params: p })
    } else if same_text(method, "detached") {
        Some(Evt::Detached)
    } else {
        None
    }
}

/// The event that `handle_event` reports for a message is of the type that the
/// message's name says: `Event` for `event`, `Detached` for `detached`.
pub proof fn lemma_handled_event_type(method: Seq<char>, params: JsonMap, e: Evt)
    requires
        method == "event"@ ==> is_message_event(e, params),
        method == "detached"@ ==> e == Evt::Detached,
        method == "event"@ || method == "detached"@,
    ensures
        e.event_type() == (if method == "event"@ {
            EventType::Event
        } else {
            EventType::Detached
        }),
{
    reveal_strlit("event");
    reveal_strlit("detached");
}

/// The arguments that `send` gives the driver are read back, by the keys that
/// `handle_event` reads, as the same CDP method name and parameters.
pub proof fn lemma_send_args_read_back(args: JsonMap, method: Seq<char>, params: JsonMap)
    requires
        is_send_args(args, method, Some(params)),
    ensures
        message_method(args) == method,
        json_entry(args, "params"@) matches Some(v) && json_value(v) == JsonValue::Object(params),
{
    reveal_strlit("method");
    reveal_strlit("params");
    assert(json_object(args).contains_key("method"@));
    assert(json_object(args).contains_key("params"@));
}

} // verus!
