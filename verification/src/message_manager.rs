//! What the server remembers about the messages it sends: the requests that await
//! a response, and how much of its work it reports to the client.
use vstd::prelude::*;

use crate::keyed::{
    find_key, lemma_entries_map_found, lemma_entries_map_remove, lemma_entries_map_update,
    spec_entries_map, spec_unique_keys,
};
use crate::lsp_any::{spec_any_model, JsonValue, LSPAny};
use crate::lsp_json::{IntegerOrString, TraceValue};
use crate::text::append_str;

verus! {

/// Sends a message text to the client.
pub trait Sender: Send + Sync {
    fn send(&self, message: &String) -> Result<bool, &'static str>;
}

/// A `$/logTrace` notification to send: its message, and whether the verbose
/// detail (the text of the message it reports on) goes with it.
#[derive(Debug)]
pub struct TraceNote {
    pub message: String,
    pub with_detail: bool,
}

impl TraceNote {
    pub open spec fn model(&self) -> (Seq<char>, bool) {
        (self.message@, self.with_detail)
    }
}

/// The `$/logTrace` notification that reports `message` at trace level `level`:
/// none when tracing is off, the message alone at `messages`, the message with its
/// detail at `verbose`.
pub open spec fn spec_trace_note(level: TraceValue, message: Seq<char>) -> Option<(Seq<char>, bool)> {
    match level {
        TraceValue::Off => None,
        TraceValue::Messages => Some((message, false)),
        TraceValue::Verbose => Some((message, true)),
    }
}

/// The model of an optional [`TraceNote`].
pub open spec fn spec_note_model(n: Option<TraceNote>) -> Option<(Seq<char>, bool)> {
    match n {
        Some(t) => Some(t.model()),
        None => None,
    }
}

/// The `$/logTrace` notification that reports `message` at trace level `level`.
pub fn trace_note(level: TraceValue, message: String) -> (r: Option<TraceNote>)
    ensures
        spec_note_model(r) == spec_trace_note(level, message@),
{
    match level {
        TraceValue::Off => None,
        TraceValue::Messages => Some(TraceNote { message, with_detail: false }),
        TraceValue::Verbose => Some(TraceNote { message, with_detail: true }),
    }
}

/// `a` followed by `b`.
pub fn concat(a: &str, b: &str) -> (r: String)
    ensures
        r@ == a@ + b@,
{
    let mut r = String::from_str(a);
    append_str(&mut r, b);
    r
}

/// A request the server sent and has no response to yet.
pub struct HeldRequest {
    pub method: String,
    pub request: LSPAny,
}

impl View for HeldRequest {
    type V = (Seq<char>, JsonValue);

    open spec fn view(&self) -> (Seq<char>, JsonValue) {
        (self.method@, self.request.model())
    }
}

/// Whether `c` is a lowercase hexadecimal digit.
pub open spec fn spec_is_lower_hex(c: char) -> bool {
    ('0' <= c <= '9') || ('a' <= c <= 'f')
}

/// Whether `s` is the hyphenated lowercase text of a version 4 UUID of the
/// RFC 4122 variant: 32 hex digits in groups of 8, 4, 4, 4 and 12 joined by `-`,
/// the first digit of the third group `4`, the first of the fourth one of
/// `8`, `9`, `a`, `b`.
pub open spec fn spec_is_v4_uuid_text(s: Seq<char>) -> bool {
    &&& s.len() == 36
    &&& forall|i: int|
        0 <= i < 36 ==> if i == 8 || i == 13 || i == 18 || i == 23 {
            s[i] == '-'
        } else {
            spec_is_lower_hex(#[trigger] s[i])
        }
    &&& s[14] == '4'
    &&& (s[19] == '8' || s[19] == '9' || s[19] == 'a' || s[19] == 'b')
}

/// `uuid::Uuid::new_v4().to_string()`: a random version 4 UUID in its hyphenated
/// lowercase text form. The value is random; the contract claims the shape that
/// `new_v4` (which sets the version and variant bits) and the hyphenated
/// formatting give every outcome, and nothing of the random digits.
#[verifier::external_body]
fn new_uuid_text() -> (s: String)
    ensures
        spec_is_v4_uuid_text(s@),
{
    uuid::Uuid::new_v4().to_string()
}

/// The JSON object of a request with id `id`, method `method` and, where there
/// are any, `params`, its members in sorted order.
pub open spec fn spec_request_json(id: Seq<char>, method: Seq<char>, params: Option<JsonValue>) -> JsonValue {
    let head = seq![
        ("id"@, JsonValue::String(id)),
        ("jsonrpc"@, JsonValue::String("2.0"@)),
        ("method"@, JsonValue::String(method)),
    ];
    JsonValue::Object(
        match params {
            Some(p) => head.push(("params"@, p)),
            None => head,
        },
    )
}

/// The requests awaiting a response and the trace level.
pub struct MessageManager {
    held_requests: Vec<(String, HeldRequest)>,
    trace: TraceValue,
}

impl MessageManager {
    #[verifier::type_invariant]
    spec fn ids_unique(self) -> bool {
        spec_unique_keys(self.held_requests@)
    }

    /// The requests awaiting a response, by id: their method and JSON text.
    pub closed spec fn held(&self) -> Map<Seq<char>, (Seq<char>, JsonValue)> {
        spec_entries_map(self.held_requests@)
    }

    /// How much of its work the server reports.
    pub closed spec fn trace(&self) -> TraceValue {
        self.trace
    }

    /// No request held, tracing off.
    pub fn new() -> (m: MessageManager)
        ensures
            m.held() == Map::<Seq<char>, (Seq<char>, JsonValue)>::empty(),
            m.trace() == TraceValue::Off,
    {
        MessageManager { held_requests: Vec::new(), trace: TraceValue::Off }
    }

    /// The trace level.
    pub fn get_trace(&self) -> (t: TraceValue)
        ensures
            t == self.trace(),
    {
        self.trace
    }

    /// Sets the trace level to `trace`. When the level was `verbose`, gives the
    /// message to log about the change.
    pub fn set_trace(&mut self, trace: TraceValue) -> (log: Option<String>)
        ensures
            final(self).trace() == trace,
            final(self).held() == old(self).held(),
            match log {
                Some(m) => old(self).trace() == TraceValue::Verbose && m@ == "Setting trace value to \""@
                    + trace.spec_name() + "\""@,
                None => old(self).trace() != TraceValue::Verbose,
            },
    {
        proof {
            use_type_invariant(&*self);
        }
        let log = if self.trace == TraceValue::Verbose {
            let m = concat("Setting trace value to \"", trace.name());
            let m = concat(m.as_str(), "\"");
            Some(m)
        } else {
            None
        };
        self.trace = trace;
        log
    }

    /// A copy of the JSON of the request held under `key`.
    pub fn get_request(&self, key: &String) -> (r: Option<LSPAny>)
        ensures
            match r {
                Some(v) => self.held().contains_key(key@) && v.model() == self.held()[key@].1,
                None => !self.held().contains_key(key@),
            },
    {
        proof {
            use_type_invariant(self);
        }
        match find_key(&self.held_requests, key) {
            Some(i) => Some(self.held_requests[i].1.request.clone_value()),
            None => None,
        }
    }

    /// The method of the request held under `key`.
    pub fn request_method(&self, key: &String) -> (r: Option<String>)
        ensures
            match r {
                Some(m) => self.held().contains_key(key@) && m@ == self.held()[key@].0,
                None => !self.held().contains_key(key@),
            },
    {
        proof {
            use_type_invariant(self);
        }
        match find_key(&self.held_requests, key) {
            Some(i) => Some(self.held_requests[i].1.method.clone()),
            None => None,
        }
    }

    /// Forgets the request held under `key`; whether there was one.
    pub fn free_request(&mut self, key: &String) -> (r: bool)
        ensures
            final(self).held() == old(self).held().remove(key@),
            r == old(self).held().contains_key(key@),
            final(self).trace() == old(self).trace(),
    {
        proof {
            use_type_invariant(&*self);
        }
        match find_key(&self.held_requests, key) {
            Some(i) => {
                proof {
                    lemma_entries_map_remove(self.held_requests@, i as int);
                }
                let mut held: Vec<(String, HeldRequest)> = Vec::new();
                std::mem::swap(&mut held, &mut self.held_requests);
                let _ = held.remove(i);
                self.held_requests = held;
                true
            },
            None => {
                assert(self.held() =~= old(self).held().remove(key@));
                false
            },
        }
    }

    /// Holds the request `request`, of method `method`, under `id` until its
    /// response comes.
    pub fn hold_request(&mut self, id: String, method: String, request: LSPAny)
        ensures
            final(self).held() == old(self).held().insert(id@, (method@, request.model())),
            final(self).trace() == old(self).trace(),
    {
        proof {
            use_type_invariant(&*self);
        }
        let entry = HeldRequest { method, request };
        let mut held: Vec<(String, HeldRequest)> = Vec::new();
        std::mem::swap(&mut held, &mut self.held_requests);
        let ghost before = held@;
        match find_key(&held, &id) {
            Some(i) => {
                proof {
                    lemma_entries_map_update(held@, i as int, (id, entry));
                }
                held.set(i, (id, entry));
            },
            None => {
                held.push((id, entry));
                assert(held@.drop_last() =~= before);
                assert forall|a: int, b: int| 0 <= a < b < held@.len() implies (
                #[trigger] held@[a]).0@ != (#[trigger] held@[b]).0@ by {
                    if b == held@.len() - 1 {
                        assert(held@[a] == before[a]);
                        lemma_entries_map_found(before, a);
                    } else {
                        assert(held@[a] == before[a]);
                        assert(held@[b] == before[b]);
                    }
                }
            },
        }
        self.held_requests = held;
        assert(self.held() =~= old(self).held().insert(id@, (method@, request.model())));
    }

    /// A fresh id for a request the server sends: a random UUID in its hyphenated form.
    pub fn new_request_id(&self) -> (id: String)
        ensures
            spec_is_v4_uuid_text(id@),
    {
        new_uuid_text()
    }

    /// The `$/logTrace` notification that reports sending a response with id `id`.
    pub fn response_trace(&self, id: &Option<IntegerOrString>) -> (r: Option<TraceNote>)
        ensures
            spec_note_model(r) == match id {
                Some(i) => spec_trace_note(self.trace(), "Sending response "@ + i.spec_display()),
                None => None,
            },
    {
        match id {
            Some(i) => {
                let d = i.to_display_string();
                trace_note(self.trace, concat("Sending response ", d.as_str()))
            },
            None => None,
        }
    }

    /// The `$/logTrace` notification that reports sending a notification of method
    /// `method`; none for `$/logTrace` notifications themselves.
    pub fn notification_trace(&self, method: &str) -> (r: Option<TraceNote>)
        ensures
            spec_note_model(r) == if method@ == "$/logTrace"@ {
                None
            } else {
                spec_trace_note(self.trace(), "Sending notification "@ + method@)
            },
    {
        let m = String::from_str(method);
        let log = String::from_str("$/logTrace");
        if m == log {
            None
        } else {
            trace_note(self.trace, concat("Sending notification ", method))
        }
    }

    /// The `$/logTrace` notification that reports sending a request of method
    /// `method` with id `id`.
    pub fn request_trace(&self, method: &str, id: &IntegerOrString) -> (r: Option<TraceNote>)
        ensures
            spec_note_model(r) == spec_trace_note(
                self.trace(),
                "Sending request "@ + method@ + " "@ + id.spec_display(),
            ),
    {
        let d = id.to_display_string();
        let m = concat("Sending request ", method);
        let m = concat(m.as_str(), " ");
        let m = concat(m.as_str(), d.as_str());
        trace_note(self.trace, m)
    }

    /// Makes the request `id` of method `method` with `params`, and holds it until
    /// its response comes. Gives back the request as JSON (its members in the
    /// order a JSON writer sorts them) and the `$/logTrace` notification that
    /// reports sending it.
    pub fn make_request(&mut self, id: String, method: &str, params: Option<LSPAny>) -> (r: (
        LSPAny,
        Option<TraceNote>,
    ))
        ensures
            r.0.model() == spec_request_json(id@, method@, spec_any_model(params)),
            final(self).held() == old(self).held().insert(id@, (method@, r.0.model())),
            final(self).trace() == old(self).trace(),
            spec_note_model(r.1) == spec_trace_note(
                old(self).trace(),
                "Sending request "@ + method@ + " \""@ + id@ + "\""@,
            ),
    {
        let mut members: Vec<(String, LSPAny)> = Vec::new();
        members.push((String::from_str("id"), LSPAny::String(id.clone())));
        members.push((String::from_str("jsonrpc"), LSPAny::String(String::from_str("2.0"))));
        members.push((String::from_str("method"), LSPAny::String(String::from_str(method))));
        let ghost p = spec_any_model(params);
        match params {
            Some(v) => {
                members.push((String::from_str("params"), v));
            },
            None => {},
        }
        let ghost ms = members@;
        let request = LSPAny::Object(members);
        proof {
            let want = spec_request_json(id@, method@, p)->Object_0;
            let got = request.model()->Object_0;
            assert(got.len() == want.len());
            assert forall|i: int| 0 <= i < want.len() implies got[i] == want[i] by {
                assert(got[i] == (ms[i].0@, ms[i].1.model()));
            }
            assert(got =~= want);
        }
        let note = self.request_trace(method, &IntegerOrString::String(id.clone()));
        assert(("Sending request "@ + method@ + " "@ + (seq!['"'] + id@ + seq!['"'])) =~= (
        "Sending request "@ + method@ + " \""@ + id@ + "\""@)) by {
            reveal_strlit(" ");
            reveal_strlit(" \"");
            reveal_strlit("\"");
        }
        self.hold_request(id, String::from_str(method), request.clone_value());
        (request, note)
    }

    /// Makes a request of method `method` with `params` under a fresh id (see
    /// `make_request`), and holds it until its response comes. Gives back the id,
    /// the request as JSON, and the `$/logTrace` notification that reports sending it.
    pub fn prepare_request(&mut self, method: &str, params: Option<LSPAny>) -> (r: (
        String,
        LSPAny,
        Option<TraceNote>,
    ))
        ensures
            spec_is_v4_uuid_text(r.0@),
            r.1.model() == spec_request_json(r.0@, method@, spec_any_model(params)),
            final(self).held() == old(self).held().insert(r.0@, (method@, r.1.model())),
            final(self).trace() == old(self).trace(),
            spec_note_model(r.2) == spec_trace_note(
                old(self).trace(),
                "Sending request "@ + method@ + " \""@ + r.0@ + "\""@,
            ),
    {
        let id = self.new_request_id();
        let (request, note) = self.make_request(id.clone(), method, params);
        (id, request, note)
    }
}

/// A request held under `id` is what `get_request(id)` and `request_method(id)`
/// give back, until `free_request(id)`, after which there is none, and no other
/// id is touched by either.
pub proof fn law_held_request_read_back(
    before: MessageManager,
    holding: MessageManager,
    freed: MessageManager,
    id: Seq<char>,
    method: Seq<char>,
    request: JsonValue,
)
    requires
        holding.held() == before.held().insert(id, (method, request)),
        freed.held() == holding.held().remove(id),
    ensures
        holding.held().contains_key(id),
        holding.held()[id] == (method, request),
        !freed.held().contains_key(id),
        forall|k: Seq<char>|
            k != id ==> #[trigger] freed.held().contains_key(k) == before.held().contains_key(k),
{
}

/// When tracing is off nothing is reported; at `messages` no report carries the
/// verbose detail; at `verbose` every report does.
pub proof fn law_trace_levels(message: Seq<char>)
    ensures
        spec_trace_note(TraceValue::Off, message) is None,
        spec_trace_note(TraceValue::Messages, message) == Some((message, false)),
        spec_trace_note(TraceValue::Verbose, message) == Some((message, true)),
{
}

} // verus!
