//! JSON support: the model of a parsed JSON document, the one trusted
//! parse through serde_json, and verified builders for the JSON text this
//! crate *writes*.
//!
//! A parsed document is held as a [`JsonValue`] tree of plain values, so
//! everything that reads model output is verified logic; only the parse
//! itself is trusted.  Writing never leaves the crate: the exact text is
//! built and specified here.

use vstd::prelude::*;

use crate::model::DetectedEvent;
use crate::text::{spec_json_escape, spec_u64_str, json_escape, str_eq, u64_to_string};

verus! {

/// A parsed JSON document.  Numbers are kept as the decimal text the
/// parser renders them with, since this pipeline never computes with
/// them; object entries carry unique keys, in the parser's (sorted)
/// order, a later duplicate key having replaced an earlier one.
#[derive(Debug)]
pub enum JsonValue {
    Null,
    Bool(bool),
    /// A number, as its decimal text.
    Num(String),
    Str(String),
    Arr(Vec<JsonValue>),
    Obj(Vec<(String, JsonValue)>),
}

/// Declares serde_json's document type so the conversion below can take
/// it; nothing is claimed of it, and no verified code holds one.
#[verifier::external_type_specification]
#[verifier::external_body]
pub struct ExValue(serde_json::Value);

/// What `serde_json::from_str::<Value>` makes of a text: the parsed
/// document as a [`JsonValue`] tree, or nothing when the text is not one
/// complete JSON document.  The outcome depends on the text alone.
pub uninterp spec fn json_doc_of(s: Seq<char>) -> Option<JsonValue>;

/// Relies on serde_json::from_str::<Value>: parses one complete JSON
/// document, or fails; the tree handed back is the parsed document,
/// converted node for node by `value_to_tree`.
#[verifier::external_body]
pub(crate) fn parse_json(s: &str) -> (r: Option<JsonValue>)
    ensures
        r == json_doc_of(s@),
{
    match serde_json::from_str::<serde_json::Value>(s) {
        Ok(v) => Some(value_to_tree(&v)),
        Err(_) => None,
    }
}

/// Relies on serde_json's Value variants and the Display of
/// serde_json::Number: converts a parsed document into the library's
/// tree, variant by variant, moving the content.
#[verifier::external_body]
fn value_to_tree(v: &serde_json::Value) -> JsonValue {
    match v {
        serde_json::Value::Null => JsonValue::Null,
        serde_json::Value::Bool(b) => JsonValue::Bool(*b),
        serde_json::Value::Number(n) => JsonValue::Num(n.to_string()),
        serde_json::Value::String(s) => JsonValue::Str(s.clone()),
        serde_json::Value::Array(a) => JsonValue::Arr(a.iter().map(value_to_tree).collect()),
        serde_json::Value::Object(m) => JsonValue::Obj(
            m.iter().map(|(k, x)| (k.clone(), value_to_tree(x))).collect(),
        ),
    }
}

/// The value under a key among an object's entries: the first entry whose
/// key matches (keys are unique after parsing).
pub open spec fn spec_entries_get(es: Seq<(String, JsonValue)>, key: Seq<char>) -> Option<
    JsonValue,
>
    decreases es.len(),
{
    if es.len() == 0 {
        None
    } else if es[0].0@ == key {
        Some(es[0].1)
    } else {
        spec_entries_get(es.drop_first(), key)
    }
}

/// The value under a key: nothing on non-objects and absent keys.
pub open spec fn spec_get(v: JsonValue, key: Seq<char>) -> Option<JsonValue> {
    match v {
        JsonValue::Obj(es) => spec_entries_get(es@, key),
        _ => None,
    }
}

/// The content of a JSON string, nothing for every other kind of value.
pub open spec fn spec_str_of(v: JsonValue) -> Option<Seq<char>> {
    match v {
        JsonValue::Str(s) => Some(s@),
        _ => None,
    }
}

/// The decimal text of a JSON number, nothing for every other kind of
/// value.
pub open spec fn spec_num_text_of(v: JsonValue) -> Option<Seq<char>> {
    match v {
        JsonValue::Num(n) => Some(n@),
        _ => None,
    }
}

/// The elements of a JSON array, nothing for every other kind of value.
pub open spec fn spec_arr_of(v: JsonValue) -> Option<Seq<JsonValue>> {
    match v {
        JsonValue::Arr(a) => Some(a@),
        _ => None,
    }
}

proof fn lemma_entries_get_skip(es: Seq<(String, JsonValue)>, key: Seq<char>, i: int)
    requires
        0 <= i <= es.len(),
        forall|j: int| 0 <= j < i ==> (#[trigger] es[j]).0@ != key,
    ensures
        spec_entries_get(es, key) == spec_entries_get(es.skip(i), key),
    decreases i,
{
    if i > 0 {
        assert(es[0].0@ != key);
        assert(es.drop_first() =~= es.skip(1));
        lemma_entries_get_skip(es.skip(1), key, i - 1);
        assert(es.skip(1).skip(i - 1) =~= es.skip(i));
        assert(forall|j: int| 0 <= j < i - 1 ==> (#[trigger] es.skip(1)[j]) == es[j + 1]);
    } else {
        assert(es.skip(0) =~= es);
    }
}

impl JsonValue {
    /// Looks a key up: the value under it when this is an object holding
    /// the key, nothing otherwise.
    pub fn get<'a>(&'a self, key: &str) -> (r: Option<&'a JsonValue>)
        ensures
            match r {
                Some(v) => spec_get(*self, key@) == Some(*v),
                None => spec_get(*self, key@) is None,
            },
    {
        match self {
            JsonValue::Obj(es) => {
                let mut i: usize = 0;
                while i < es.len()
                    invariant
                        0 <= i <= es@.len(),
                        spec_get(*self, key@) == spec_entries_get(es@, key@),
                        forall|j: int| 0 <= j < i ==> (#[trigger] es@[j]).0@ != key@,
                    decreases es@.len() - i,
                {
                    if str_eq(es[i].0.as_str(), key) {
                        proof {
                            lemma_entries_get_skip(es@, key@, i as int);
                            let rest = es@.skip(i as int);
                            assert(rest[0] == es@[i as int]);
                            assert(spec_entries_get(rest, key@) == Some(es@[i as int].1));
                            assert(spec_get(*self, key@) == Some(es@[i as int].1));
                        }
                        return Some(&es[i].1);
                    }
                    i = i + 1;
                }
                proof {
                    lemma_entries_get_skip(es@, key@, es@.len() as int);
                    assert(es@.skip(es@.len() as int) =~= Seq::<(String, JsonValue)>::empty());
                }
                None
            },
            _ => None,
        }
    }

    /// The string content, when this is a JSON string.
    pub fn as_text<'a>(&'a self) -> (r: Option<&'a String>)
        ensures
            match r {
                Some(s) => spec_str_of(*self) == Some(s@),
                None => spec_str_of(*self) is None,
            },
    {
        match self {
            JsonValue::Str(s) => Some(s),
            _ => None,
        }
    }

    /// The decimal text, when this is a JSON number.
    pub fn as_number_text<'a>(&'a self) -> (r: Option<&'a String>)
        ensures
            match r {
                Some(n) => spec_num_text_of(*self) == Some(n@),
                None => spec_num_text_of(*self) is None,
            },
    {
        match self {
            JsonValue::Num(n) => Some(n),
            _ => None,
        }
    }

    /// The elements, when this is a JSON array.
    pub fn as_elements<'a>(&'a self) -> (r: Option<&'a Vec<JsonValue>>)
        ensures
            match r {
                Some(a) => spec_arr_of(*self) == Some(a@),
                None => spec_arr_of(*self) is None,
            },
    {
        match self {
            JsonValue::Arr(a) => Some(a),
            _ => None,
        }
    }

    /// Whether this is JSON `null`.
    pub fn is_null(&self) -> (r: bool)
        ensures
            r == (*self is Null),
    {
        match self {
            JsonValue::Null => true,
            _ => false,
        }
    }
}

/// The JSON string literal denoting `s`.
pub open spec fn spec_json_string(s: Seq<char>) -> Seq<char> {
    seq!['"'] + spec_json_escape(s) + seq!['"']
}

/// Builds the JSON string literal denoting `s`, quotes included.
pub fn json_string(s: &str) -> (r: String)
    ensures
        r@ == spec_json_string(s@),
{
    proof {
        reveal_strlit("\"");
    }
    let mut out = String::from_str("\"");
    out.append(json_escape(s).as_str());
    out.append("\"");
    proof {
        assert(out@ =~= spec_json_string(s@));
    }
    out
}

/// The JSON text for one detected event: an object with the event type,
/// the optional details (`null` when absent), and the confidence number
/// written verbatim.
pub open spec fn spec_event_json(e: DetectedEvent) -> Seq<char> {
    "{\"event_type\":"@ + spec_json_string(e.event_type@) + ",\"details\":"@ + (match e.details {
        Some(d) => spec_json_string(d@),
        None => "null"@,
    }) + ",\"confidence\":"@ + e.confidence@ + "}"@
}

/// The comma-separated bodies of the serialized event list.
pub open spec fn spec_events_json_items(evs: Seq<DetectedEvent>) -> Seq<char>
    decreases evs.len(),
{
    if evs.len() == 0 {
        Seq::empty()
    } else if evs.len() == 1 {
        spec_event_json(evs[0])
    } else {
        spec_events_json_items(evs.drop_last()) + ","@ + spec_event_json(evs.last())
    }
}

/// The JSON array holding the serialized event list.
pub open spec fn spec_events_json(evs: Seq<DetectedEvent>) -> Seq<char> {
    "["@ + spec_events_json_items(evs) + "]"@
}

fn event_json(e: &DetectedEvent) -> (r: String)
    ensures
        r@ == spec_event_json(*e),
{
    let mut out = String::from_str("{\"event_type\":");
    out.append(json_string(e.event_type.as_str()).as_str());
    out.append(",\"details\":");
    match &e.details {
        Some(d) => {
            out.append(json_string(d.as_str()).as_str());
        },
        None => {
            out.append("null");
        },
    }
    out.append(",\"confidence\":");
    out.append(e.confidence.as_str());
    out.append("}");
    proof {
        assert(out@ =~= spec_event_json(*e));
    }
    out
}

/// Serializes the detected events of an analysis result as a JSON array,
/// for persistence in the event record.
pub fn events_to_json(evs: &Vec<DetectedEvent>) -> (r: String)
    ensures
        r@ == spec_events_json(evs@),
{
    let mut out = String::from_str("[");
    let mut i: usize = 0;
    while i < evs.len()
        invariant
            0 <= i <= evs@.len(),
            out@ == "["@ + spec_events_json_items(evs@.take(i as int)),
        decreases evs@.len() - i,
    {
        if i > 0 {
            out.append(",");
        }
        out.append(event_json(&evs[i]).as_str());
        proof {
            assert(evs@.take(i + 1).drop_last() =~= evs@.take(i as int));
            assert(evs@.take(i + 1).last() == evs@[i as int]);
            assert(out@ =~= "["@ + spec_events_json_items(evs@.take(i + 1)));
        }
        i = i + 1;
    }
    out.append("]");
    proof {
        assert(evs@.take(evs@.len() as int) =~= evs@);
        assert(out@ =~= spec_events_json(evs@));
    }
    out
}

/// The synthetic notification a lagging subscriber receives, carrying how
/// many messages it missed.
pub open spec fn spec_lag_warning_json(n: nat) -> Seq<char> {
    "{\"type\":\"lag_warning\",\"missed\":"@ + spec_u64_str(n) + "}"@
}

/// Builds the lag-warning notification text.
pub fn lag_warning_json(n: u64) -> (r: String)
    ensures
        r@ == spec_lag_warning_json(n as nat),
{
    let mut out = String::from_str("{\"type\":\"lag_warning\",\"missed\":");
    out.append(u64_to_string(n).as_str());
    out.append("}");
    proof {
        assert(out@ =~= spec_lag_warning_json(n as nat));
    }
    out
}

} // verus!
