//! The directive parser: classifies one raw model reply as either a
//! structured tool-call directive or a final answer.
//!
//! A directive is a single JSON object with exactly two keys, `tool_name`
//! (a string) and `arguments` (ideally an object or null). The parser is
//! two-tier: a strict tier that requires the trimmed reply to be exactly
//! the JSON object, and a heuristic fallback that recovers a directive from
//! the span between the first `{` and the last `}`. A reply that fits
//! neither tier is the final answer, returned verbatim.

use vstd::prelude::*;

use crate::text::{
    find_char, first_index_of, last_index_of, rfind_char, spec_trim, trim_str,
};

verus! {

/// The top-level kind of a decoded JSON value.
#[derive(Clone, Copy, Debug, PartialEq, Eq, Structural)]
pub enum JsonKind {
    NullValue,
    BoolValue,
    NumberValue,
    StringValue,
    ArrayValue,
    ObjectValue,
}

/// The shape of a directive's `arguments` member. Only an object or null
/// is well-formed; any other value is carried as `OtherArgs` and treated
/// as "no arguments" by the router, with a diagnostic.
#[derive(Clone, Copy, Debug, PartialEq, Eq, Structural)]
pub enum ArgShape {
    ObjectArgs,
    NullArgs,
    OtherArgs,
}

/// What serde_json decodes from a text that holds exactly one JSON object:
/// the top-level members in the decoder's order, each as its key, the kind
/// of its value, and, for a string value, the string itself (empty for the
/// other kinds). `None` when the text is not exactly one JSON object.
pub uninterp spec fn json_object_entries(s: Seq<char>) -> Option<
    Seq<(Seq<char>, JsonKind, Seq<char>)>,
>;

pub open spec fn entries_view(v: Seq<(String, JsonKind, String)>) -> Seq<
    (Seq<char>, JsonKind, Seq<char>),
> {
    v.map_values(|e: (String, JsonKind, String)| (e.0@, e.1, e.2@))
}

#[verifier::external_type_specification]
#[verifier::external_body]
pub struct ExJsonValue(serde_json::Value);

/// Relies on serde_json::Value: the six variants of the decoded value; this
/// reports the variant's kind, and the text held by a string value.
#[verifier::external_body]
fn member_summary(key: String, v: serde_json::Value) -> (String, JsonKind, String) {
    match v {
        serde_json::Value::Null => (key, JsonKind::NullValue, String::new()),
        serde_json::Value::Bool(_) => (key, JsonKind::BoolValue, String::new()),
        serde_json::Value::Number(_) => (key, JsonKind::NumberValue, String::new()),
        serde_json::Value::String(t) => (key, JsonKind::StringValue, t),
        serde_json::Value::Array(_) => (key, JsonKind::ArrayValue, String::new()),
        serde_json::Value::Object(_) => (key, JsonKind::ObjectValue, String::new()),
    }
}

/// Relies on serde_json::from_str::<serde_json::Value>: decoding depends on
/// the input text alone; the result is `Ok` of an object exactly when the
/// text is one JSON object, whose map holds each key once.
#[verifier::external_body]
fn parse_json_object(s: &str) -> (r: Option<Vec<(String, JsonKind, String)>>)
    ensures
        r is Some <==> json_object_entries(s@) is Some,
        r matches Some(v) ==> json_object_entries(s@) == Some(entries_view(v@)),
        r matches Some(v) ==> forall|i: int, j: int|
            0 <= i < j < v@.len() ==> v@[i].0@ != v@[j].0@,
{
    match serde_json::from_str::<serde_json::Value>(s) {
        Ok(serde_json::Value::Object(m)) => {
            Some(m.into_iter().map(|(k, v)| member_summary(k, v)).collect())
        },
        Ok(_) => None,
        Err(_) => None,
    }
}

pub open spec fn shape_of_kind(k: JsonKind) -> ArgShape {
    match k {
        JsonKind::ObjectValue => ArgShape::ObjectArgs,
        JsonKind::NullValue => ArgShape::NullArgs,
        _ => ArgShape::OtherArgs,
    }
}

fn shape_of(k: JsonKind) -> (r: ArgShape)
    ensures
        r == shape_of_kind(k),
{
    match k {
        JsonKind::ObjectValue => ArgShape::ObjectArgs,
        JsonKind::NullValue => ArgShape::NullArgs,
        _ => ArgShape::OtherArgs,
    }
}

/// The directive read from the top-level members of a JSON object: exactly
/// the two keys `tool_name` (a string) and `arguments`, in either order.
pub open spec fn directive_of_entries(es: Seq<(Seq<char>, JsonKind, Seq<char>)>) -> Option<
    (Seq<char>, ArgShape),
> {
    if es.len() == 2 {
        if es[0].0 == "tool_name"@ && es[0].1 == JsonKind::StringValue && es[1].0
            == "arguments"@ {
            Some((es[0].2, shape_of_kind(es[1].1)))
        } else if es[1].0 == "tool_name"@ && es[1].1 == JsonKind::StringValue && es[0].0
            == "arguments"@ {
            Some((es[1].2, shape_of_kind(es[0].1)))
        } else {
            None
        }
    } else {
        None
    }
}

/// The directive decoded from a candidate text, if the text is exactly one
/// JSON object of the directive schema.
pub open spec fn spec_decode(s: Seq<char>) -> Option<(Seq<char>, ArgShape)> {
    match json_object_entries(s) {
        None => None,
        Some(es) => directive_of_entries(es),
    }
}

/// Decode a candidate text as a directive: one JSON object with exactly the
/// keys `tool_name` (string) and `arguments`.
fn decode_directive_text(s: &str) -> (r: Option<(String, ArgShape)>)
    ensures
        r is Some <==> spec_decode(s@) is Some,
        r matches Some(p) ==> spec_decode(s@) == Some((p.0@, p.1)),
{
    let entries = parse_json_object(s);
    match entries {
        None => None,
        Some(v) => {
            if v.len() != 2 {
                return None;
            }
            let tool_key = String::from_str("tool_name");
            let args_key = String::from_str("arguments");
            let e0 = &v[0];
            let e1 = &v[1];
            if e0.0 == tool_key && e0.1 == JsonKind::StringValue && e1.0 == args_key {
                Some((e0.2.clone(), shape_of(e1.1)))
            } else if e1.0 == tool_key && e1.1 == JsonKind::StringValue && e0.0 == args_key {
                Some((e1.2.clone(), shape_of(e0.1)))
            } else {
                None
            }
        },
    }
}

/// The trimmed reply has the strict boundary shape: it starts with `{` and
/// ends with `}`.
pub open spec fn strict_shape(t: Seq<char>) -> bool {
    t.len() > 0 && t[0] == '{' && t.last() == '}'
}

/// The span from the first `{` through the last `}`, when the first `{`
/// comes strictly before the last `}`.
pub open spec fn spec_extract(s: Seq<char>) -> Option<Seq<char>> {
    let a = first_index_of(s, '{');
    let b = last_index_of(s, '}');
    if a < s.len() && 0 <= b && a < b {
        Some(s.subrange(a, b + 1))
    } else {
        None
    }
}

/// Extracts a JSON object candidate from a text that may hold other prose:
/// the span between the first `{` and the last `}`, inclusive.
pub fn extract_json_from_str(s: &str) -> (r: Option<&str>)
    ensures
        r matches Some(b) ==> spec_extract(s@) == Some(b@),
        r is None ==> spec_extract(s@) is None,
{
    let start = match find_char(s, '{') {
        Some(i) => i,
        None => {
            return None;
        },
    };
    let end = match rfind_char(s, '}') {
        Some(j) => j,
        None => {
            return None;
        },
    };
    if start >= end {
        return None;
    }
    Some(s.substring_char(start, end + 1))
}

/// One classified model reply: a tool-call directive, or the final answer.
/// A directive carries the exact JSON block it was decoded from, so the
/// caller can recover the `arguments` value, and whether the heuristic tier
/// had to be used — a format-compliance violation worth reporting.
#[derive(Debug)]
pub enum ParsedReply {
    Directive { tool_name: String, args: ArgShape, via_heuristic: bool, block: String },
    FinalAnswer(String),
}

/// The spec-level image of a classified reply.
pub enum ReplySpec {
    Directive { tool_name: Seq<char>, args: ArgShape, via_heuristic: bool, block: Seq<char> },
    FinalAnswer(Seq<char>),
}

impl View for ParsedReply {
    type V = ReplySpec;

    open spec fn view(&self) -> ReplySpec {
        match self {
            ParsedReply::Directive { tool_name, args, via_heuristic, block } => {
                ReplySpec::Directive {
                    tool_name: tool_name@,
                    args: *args,
                    via_heuristic: *via_heuristic,
                    block: block@,
                }
            },
            ParsedReply::FinalAnswer(t) => ReplySpec::FinalAnswer(t@),
        }
    }
}

/// How a raw reply is classified: strict tier on the trimmed text; then the
/// heuristic span; a reply that fits neither is the final answer, verbatim.
pub open spec fn spec_parse_reply(raw: Seq<char>) -> ReplySpec {
    let t = spec_trim(raw);
    if strict_shape(t) {
        match spec_decode(t) {
            Some(d) => ReplySpec::Directive {
                tool_name: d.0,
                args: d.1,
                via_heuristic: false,
                block: t,
            },
            None => ReplySpec::FinalAnswer(raw),
        }
    } else {
        match spec_extract(t) {
            Some(b) => match spec_decode(b) {
                Some(d) => ReplySpec::Directive {
                    tool_name: d.0,
                    args: d.1,
                    via_heuristic: true,
                    block: b,
                },
                None => ReplySpec::FinalAnswer(raw),
            },
            None => ReplySpec::FinalAnswer(raw),
        }
    }
}

/// Classify one raw assistant reply.
pub fn parse_reply(raw: &str) -> (r: ParsedReply)
    ensures
        r@ == spec_parse_reply(raw@),
{
    let t = trim_str(raw);
    let tn = t.unicode_len();
    if tn > 0 && t.get_char(0) == '{' && t.get_char(tn - 1) == '}' {
        match decode_directive_text(t) {
            Some(p) => ParsedReply::Directive {
                tool_name: p.0,
                args: p.1,
                via_heuristic: false,
                block: String::from_str(t),
            },
            None => ParsedReply::FinalAnswer(String::from_str(raw)),
        }
    } else {
        match extract_json_from_str(t) {
            Some(b) => match decode_directive_text(b) {
                Some(p) => ParsedReply::Directive {
                    tool_name: p.0,
                    args: p.1,
                    via_heuristic: true,
                    block: String::from_str(b),
                },
                None => ParsedReply::FinalAnswer(String::from_str(raw)),
            },
            None => ParsedReply::FinalAnswer(String::from_str(raw)),
        }
    }
}

/// A reply that matches the strict grammar exactly — its trimmed text is
/// one JSON object of the directive schema — parses to that directive, and
/// the heuristic tier is never used.
pub proof fn lemma_strict_reply_never_heuristic(raw: Seq<char>)
    requires
        strict_shape(spec_trim(raw)),
        spec_decode(spec_trim(raw)) is Some,
    ensures
        spec_parse_reply(raw) == (ReplySpec::Directive {
            tool_name: spec_decode(spec_trim(raw)).unwrap().0,
            args: spec_decode(spec_trim(raw)).unwrap().1,
            via_heuristic: false,
            block: spec_trim(raw),
        }),
{
}

/// A reply with prose around a single well-formed directive block — its
/// trimmed text fails the strict boundary check, but the span between the
/// first `{` and the last `}` decodes — recovers that same directive, and
/// is flagged as having needed the heuristic tier.
pub proof fn lemma_heuristic_recovery(raw: Seq<char>, block: Seq<char>)
    requires
        !strict_shape(spec_trim(raw)),
        spec_extract(spec_trim(raw)) == Some(block),
        spec_decode(block) is Some,
    ensures
        spec_parse_reply(raw) == (ReplySpec::Directive {
            tool_name: spec_decode(block).unwrap().0,
            args: spec_decode(block).unwrap().1,
            via_heuristic: true,
            block: block,
        }),
{
}

} // verus!
