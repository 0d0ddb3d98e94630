//! The LSP `any` type: an arbitrary JSON value, and reading JSON text into it.
use vstd::prelude::*;

verus! {

/// The LSP any type: any JSON value.
///
/// Numbers keep the three shapes JSON readers give them: `UInteger` for a
/// non-negative integer, `Integer` for a negative one and `Decimal` for any
/// other number, held as its JSON text.
#[derive(Debug, PartialEq)]
pub enum LSPAny {
    Object(Vec<(String, LSPAny)>),
    Array(Vec<LSPAny>),
    String(String),
    Integer(i64),
    UInteger(u64),
    Decimal(String),
    Boolean(bool),
    Null,
}

/// The mathematical value of an [`LSPAny`].
pub enum JsonValue {
    Object(Seq<(Seq<char>, JsonValue)>),
    Array(Seq<JsonValue>),
    String(Seq<char>),
    Integer(i64),
    UInteger(u64),
    Decimal(Seq<char>),
    Boolean(bool),
    Null,
}

impl LSPAny {
    /// The value that `self` holds.
    pub open spec fn model(self) -> JsonValue
        decreases self,
    {
        match self {
            LSPAny::Object(v) => JsonValue::Object(
                Seq::new(
                    v@.len(),
                    |i: int|
                        if 0 <= i < v@.len() {
                            (v@[i].0@, v@[i].1.model())
                        } else {
                            (Seq::empty(), JsonValue::Null)
                        },
                ),
            ),
            LSPAny::Array(v) => JsonValue::Array(
                Seq::new(
                    v@.len(),
                    |i: int|
                        if 0 <= i < v@.len() {
                            v@[i].model()
                        } else {
                            JsonValue::Null
                        },
                ),
            ),
            LSPAny::String(s) => JsonValue::String(s@),
            LSPAny::Integer(i) => JsonValue::Integer(i),
            LSPAny::UInteger(u) => JsonValue::UInteger(u),
            LSPAny::Decimal(d) => JsonValue::Decimal(d@),
            LSPAny::Boolean(b) => JsonValue::Boolean(b),
            LSPAny::Null => JsonValue::Null,
        }
    }
}


/// The first value stored under `key` in the object entries `es`.
pub open spec fn spec_entries_get(es: Seq<(Seq<char>, JsonValue)>, key: Seq<char>) -> Option<
    JsonValue,
>
    decreases es.len(),
{
    if es.len() == 0 {
        None
    } else if es[0].0 == key {
        Some(es[0].1)
    } else {
        spec_entries_get(es.drop_first(), key)
    }
}

/// The value under `key` when `v` is an object, as `serde_json::Value::get` finds it.
pub open spec fn spec_json_get(v: JsonValue, key: Seq<char>) -> Option<JsonValue> {
    match v {
        JsonValue::Object(es) => spec_entries_get(es, key),
        _ => None,
    }
}

proof fn lemma_entries_get_index(es: Seq<(Seq<char>, JsonValue)>, key: Seq<char>, i: int)
    requires
        0 <= i < es.len(),
        es[i].0 == key,
        forall|j: int| 0 <= j < i ==> (#[trigger] es[j]).0 != key,
    ensures
        spec_entries_get(es, key) == Some(es[i].1),
    decreases i,
{
    if i > 0 {
        assert forall|j: int| 0 <= j < i - 1 implies (#[trigger] es.drop_first()[j]).0 != key by {
            assert(es.drop_first()[j] == es[j + 1]);
        }
        lemma_entries_get_index(es.drop_first(), key, i - 1);
    }
}

proof fn lemma_entries_get_none(es: Seq<(Seq<char>, JsonValue)>, key: Seq<char>)
    requires
        forall|j: int| 0 <= j < es.len() ==> (#[trigger] es[j]).0 != key,
    ensures
        spec_entries_get(es, key) is None,
    decreases es.len(),
{
    if es.len() > 0 {
        assert forall|j: int| 0 <= j < es.len() - 1 implies (#[trigger] es.drop_first()[j]).0
            != key by {
            assert(es.drop_first()[j] == es[j + 1]);
        }
        lemma_entries_get_none(es.drop_first(), key);
    }
}

/// The value of an optional [`LSPAny`].
pub open spec fn spec_any_model(v: Option<LSPAny>) -> Option<JsonValue> {
    match v {
        Some(a) => Some(a.model()),
        None => None,
    }
}

impl LSPAny {
    /// The value stored under `key`, when `self` is an object holding one.
    pub fn get(&self, key: &str) -> (r: Option<&LSPAny>)
        ensures
            match r {
                Some(x) => spec_json_get(self.model(), key@) == Some(x.model()),
                None => spec_json_get(self.model(), key@) is None,
            },
    {
        match self {
            LSPAny::Object(es) => {
                let k = String::from_str(key);
                let ghost m = self.model();
                let n = es.len();
                let mut i: usize = 0;
                while i < n
                    invariant
                        n == es@.len(),
                        0 <= i <= n,
                        k@ == key@,
                        m == self.model(),
                        *self == LSPAny::Object(*es),
                        forall|j: int| 0 <= j < i ==> (#[trigger] es@[j]).0@ != key@,
                    decreases n - i,
                {
                    if es[i].0 == k {
                        proof {
                            let ms = m->Object_0;
                            assert(ms[i as int] == (es@[i as int].0@, es@[i as int].1.model()));
                            assert forall|j: int| 0 <= j < i implies (#[trigger] ms[j]).0 != key@ by {
                                assert(ms[j].0 == es@[j].0@);
                            }
                            lemma_entries_get_index(ms, key@, i as int);
                        }
                        return Some(&es[i].1);
                    }
                    i = i + 1;
                }
                proof {
                    let ms = m->Object_0;
                    assert forall|j: int| 0 <= j < ms.len() implies (#[trigger] ms[j]).0 != key@ by {
                        assert(ms[j].0 == es@[j].0@);
                    }
                    lemma_entries_get_none(ms, key@);
                }
                None
            },
            _ => None,
        }
    }

    /// A copy of `self` holding the same value.
    pub fn clone_value(&self) -> (r: LSPAny)
        ensures
            r.model() == self.model(),
        decreases self,
    {
        match self {
            LSPAny::Object(es) => {
                let mut out: Vec<(String, LSPAny)> = Vec::new();
                let n = es.len();
                let mut i: usize = 0;
                while i < n
                    invariant
                        n == es@.len(),
                        0 <= i <= n,
                        out@.len() == i,
                        *self == LSPAny::Object(*es),
                        forall|j: int|
                            0 <= j < i ==> (#[trigger] out@[j]).0@ == es@[j].0@ && out@[j].1.model()
                                == es@[j].1.model(),
                    decreases n - i,
                {
                    let k = es[i].0.clone();
                    proof {
                        assert(decreases_to!(*es => es@));
                        assert(decreases_to!(es@ => es@[i as int]));
                        assert(decreases_to!(es@[i as int] => es@[i as int].1));
                        assert((*self)->Object_0 == *es);
                        assert(decreases_to!(*self => (*self)->Object_0));
                        assert(decreases_to!(*self => es@[i as int].1));
                    }
                    let v = es[i].1.clone_value();
                    out.push((k, v));
                    i = i + 1;
                }
                let r = LSPAny::Object(out);
                assert(r.model()->Object_0 =~= self.model()->Object_0);
                r
            },
            LSPAny::Array(xs) => {
                let mut out: Vec<LSPAny> = Vec::new();
                let n = xs.len();
                let mut i: usize = 0;
                while i < n
                    invariant
                        n == xs@.len(),
                        0 <= i <= n,
                        out@.len() == i,
                        *self == LSPAny::Array(*xs),
                        forall|j: int| 0 <= j < i ==> (#[trigger] out@[j]).model() == xs@[j].model(),
                    decreases n - i,
                {
                    proof {
                        assert(decreases_to!(*xs => xs@));
                        assert(decreases_to!(xs@ => xs@[i as int]));
                        assert((*self)->Array_0 == *xs);
                        assert(decreases_to!(*self => (*self)->Array_0));
                        assert(decreases_to!(*self => xs@[i as int]));
                    }
                    let v = xs[i].clone_value();
                    out.push(v);
                    i = i + 1;
                }
                let r = LSPAny::Array(out);
                assert(r.model()->Array_0 =~= self.model()->Array_0);
                r
            },
            LSPAny::String(s) => LSPAny::String(s.clone()),
            LSPAny::Integer(i) => LSPAny::Integer(*i),
            LSPAny::UInteger(u) => LSPAny::UInteger(*u),
            LSPAny::Decimal(d) => LSPAny::Decimal(d.clone()),
            LSPAny::Boolean(b) => LSPAny::Boolean(*b),
            LSPAny::Null => LSPAny::Null,
        }
    }
}


#[verifier::external_type_specification]
#[verifier::external_body]
pub struct ExSerdeJsonValue(serde_json::Value);

/// The value that `serde_json::from_str` reads from the JSON text `text`, or `None`
/// where it reports an error.
pub uninterp spec fn spec_parse_json(text: Seq<char>) -> Option<JsonValue>;

/// Reads `text` as one JSON document with `serde_json::from_str::<serde_json::Value>`.
/// The contract claims no more of it than that the result is the value that the call
/// reads from `text` (`spec_parse_json`), held as an [`LSPAny`], and `None` exactly where
/// the call reports an error.
#[verifier::external_body]
pub(crate) fn parse_json(text: &str) -> (r: Option<LSPAny>)
    ensures
        match r {
            Some(v) => spec_parse_json(text@) == Some(v.model()),
            None => spec_parse_json(text@) is None,
        },
{
    serde_json::from_str::<serde_json::Value>(text).ok().map(lsp_any_from_serde)
}

/// Moves a `serde_json::Value` into an [`LSPAny`] of the same shape, variant by
/// variant; only [`parse_json`] uses it, and the contract there covers its result.
/// `as_u64` and `as_i64` tell apart the three private variants of a number (a
/// non-negative integer, a negative one, a float), which become `UInteger`,
/// `Integer` and `Decimal` (its text).
#[verifier::external_body]
fn lsp_any_from_serde(v: serde_json::Value) -> LSPAny {
    match v {
        serde_json::Value::Null => LSPAny::Null,
        serde_json::Value::Bool(b) => LSPAny::Boolean(b),
        serde_json::Value::Number(n) => match (n.as_u64(), n.as_i64()) {
            (Some(u), _) => LSPAny::UInteger(u),
            (None, Some(i)) => LSPAny::Integer(i),
            (None, None) => LSPAny::Decimal(n.to_string()),
        },
        serde_json::Value::String(s) => LSPAny::String(s),
        serde_json::Value::Array(a) => LSPAny::Array(a.into_iter().map(lsp_any_from_serde).collect()),
        serde_json::Value::Object(m) => LSPAny::Object(
            m.into_iter().map(|(k, x)| (k, lsp_any_from_serde(x))).collect(),
        ),
    }
}

} // verus!
