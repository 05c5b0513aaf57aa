//! The conversational assistant over recorded events: its system prompt and
//! tool schema, the interpretation of the model's tool calls, and the
//! plain-text summaries handed back as tool results.
//!
//! The surrounding process runs the conversation loop — it POSTs the chat
//! requests and queries the store — and asks this module what each round
//! means.

use vstd::prelude::*;

use crate::config::{parse_decimal_i64, spec_signed_dec_val, spec_valid_signed_dec};
use crate::ids::{spec_uuid_parse, spec_uuid_str, uuid_from_str, uuid_to_string};
use crate::json::{parse_json, spec_get, spec_num_text_of, spec_str_of, JsonValue};
use crate::model::{AnalysisEvent, StreamRecord};
use crate::text::{spec_trim, spec_u64_str, str_eq, trim, u64_to_string};
use crate::timefmt::{parse_opt_datetime, format_minute, spec_minute_text, spec_parse_datetime};

verus! {

/// The system prompt of the assistant.
pub const ASSISTANT_SYSTEM_PROMPT: &'static str =
    "You are an assistant for Cipher-Shield, a security camera app. Use the tools to answer. Be concise.";

/// The tool schema offered to the model, as JSON text.
pub const ASSISTANT_TOOLS_JSON: &'static str = r#"[
  {"type":"function","function":{"name":"list_events","description":"List security events. Use for any question about what happened, threats, summaries, counts.","parameters":{"type":"object","properties":{"from":{"type":"string","description":"Start date ISO8601 e.g. 2024-01-01 or 2024-01-01T00:00:00Z"}, "to":{"type":"string","description":"End date ISO8601"}, "stream_id":{"type":"string","description":"Stream UUID filter"}, "risk_level":{"type":"string","description":"none|low|medium|high"}, "limit":{"type":"integer","description":"Max events, default 1000"}}}}},
  {"type":"function","function":{"name":"list_streams","description":"List camera streams.","parameters":{"type":"object","properties":{}}}},
  {"type":"function","function":{"name":"resolve_events","description":"Mark unresolved events as resolved.","parameters":{"type":"object","properties":{"from":{"type":"string"}, "to":{"type":"string"}, "stream_id":{"type":"string"}, "risk_level":{"type":"string"}}}}}
]"#;

/// How many tool rounds one question may take before the loop gives up.
pub const MAX_TOOL_ROUNDS: usize = 5;

/// The reply when the round limit is reached.
pub const MAX_ROUNDS_REPLY: &'static str = "Max tool rounds reached.";

/// Filters for querying recorded events.
#[derive(Debug, Clone)]
pub struct EventQuery {
    /// Restrict to one stream, by the UUID's 128-bit value.
    pub stream_id: Option<u128>,
    pub risk_level: Option<String>,
    /// Inclusive lower bound on capture time, epoch milliseconds.
    pub from: Option<i64>,
    /// Inclusive upper bound on capture time, epoch milliseconds.
    pub to: Option<i64>,
    pub limit: i64,
    pub offset: i64,
}

/// The text of a string argument: its content when the key holds a JSON
/// string, empty otherwise.
pub open spec fn spec_arg_text(args: JsonValue, key: Seq<char>) -> Seq<char> {
    match spec_get(args, key) {
        Some(v) => match spec_str_of(v) {
            Some(t) => t,
            None => Seq::empty(),
        },
        None => Seq::empty(),
    }
}

/// The requested limit: the `limit` argument read as an integer, a
/// thousand when absent or unreadable, capped at two thousand.
pub open spec fn spec_arg_limit(args: JsonValue) -> int {
    let raw: int = match spec_get(args, "limit"@) {
        Some(v) => match spec_num_text_of(v) {
            Some(t) => if spec_valid_signed_dec(t) {
                spec_signed_dec_val(t)
            } else {
                1000
            },
            None => 1000,
        },
        None => 1000,
    };
    if raw > 2000 {
        2000
    } else {
        raw
    }
}

fn arg_str<'a>(args: &'a JsonValue, key: &str) -> (r: &'a str)
    ensures
        r@ == spec_arg_text(*args, key@),
{
    proof {
        reveal_strlit("");
        assert(""@ =~= Seq::<char>::empty());
    }
    match args.get(key) {
        Some(v) => match v.as_text() {
            Some(s) => s.as_str(),
            None => "",
        },
        None => "",
    }
}

/// Reads the event filters out of a tool call's arguments: `from` and
/// `to` as timestamps in the accepted shapes, the stream UUID (ignored
/// when malformed), the risk level (trimmed, empty meaning none), and the
/// limit, a thousand by default and capped at two thousand.  The offset
/// is always zero.
pub fn event_query_from_args(args: &JsonValue) -> (q: EventQuery)
    ensures
        match q.from {
            Some(ms) => spec_parse_datetime(spec_trim(spec_arg_text(*args, "from"@))) == Some(
                ms as int,
            ),
            None => spec_parse_datetime(spec_trim(spec_arg_text(*args, "from"@))) is None,
        },
        match q.to {
            Some(ms) => spec_parse_datetime(spec_trim(spec_arg_text(*args, "to"@))) == Some(
                ms as int,
            ),
            None => spec_parse_datetime(spec_trim(spec_arg_text(*args, "to"@))) is None,
        },
        match q.stream_id {
            Some(v) => spec_trim(spec_arg_text(*args, "stream_id"@)).len() > 0
                && spec_uuid_parse(spec_trim(spec_arg_text(*args, "stream_id"@))) == Some(
                v as nat,
            ),
            None => spec_trim(spec_arg_text(*args, "stream_id"@)).len() == 0 || spec_uuid_parse(
                spec_trim(spec_arg_text(*args, "stream_id"@)),
            ) is None,
        },
        match q.risk_level {
            Some(t) => t@ == spec_trim(spec_arg_text(*args, "risk_level"@)) && t@.len() > 0,
            None => spec_trim(spec_arg_text(*args, "risk_level"@)).len() == 0,
        },
        q.limit as int == spec_arg_limit(*args),
        q.offset == 0,
{
    let from = parse_opt_datetime(arg_str(args, "from"));
    let to = parse_opt_datetime(arg_str(args, "to"));
    let sid_raw = trim(arg_str(args, "stream_id"));
    let stream_id: Option<u128> = if sid_raw.unicode_len() == 0 {
        None
    } else {
        uuid_from_str(sid_raw)
    };
    let rl_raw = trim(arg_str(args, "risk_level"));
    let risk_level: Option<String> = if rl_raw.unicode_len() == 0 {
        None
    } else {
        Some(rl_raw.to_owned())
    };
    let limit_raw: i64 = match args.get("limit") {
        Some(v) => match v.as_number_text() {
            Some(t) => match parse_decimal_i64(t.as_str()) {
                Some(n) => n,
                None => 1000,
            },
            None => 1000,
        },
        None => 1000,
    };
    let limit: i64 = if limit_raw > 2000 {
        2000
    } else {
        limit_raw
    };
    EventQuery { stream_id, risk_level, from, to, limit, offset: 0 }
}

/// What a tool call asks the process to do.
pub enum ToolAction {
    /// Query recorded events and summarize them.
    ListEvents(EventQuery),
    /// List the camera streams.
    ListStreams,
    /// Mark the matching unresolved events resolved.
    ResolveEvents(EventQuery),
    /// A tool name the assistant does not offer.
    Unknown(String),
}

/// The note handed back for a tool the assistant does not offer.
pub open spec fn spec_unknown_tool_text(name: Seq<char>) -> Seq<char> {
    "Unknown tool: "@ + name
}

/// Interprets one tool call by its name and its arguments as JSON text;
/// unparseable arguments act as none given.
pub fn tool_action(name: &str, args_json: &str) -> (r: ToolAction)
    ensures
        name@ == "list_events"@ ==> r is ListEvents,
        name@ == "list_streams"@ ==> r is ListStreams,
        name@ == "resolve_events"@ ==> r is ResolveEvents,
        name@ != "list_events"@ && name@ != "list_streams"@ && name@ != "resolve_events"@ ==> (
        r matches ToolAction::Unknown(t) && t@ == spec_unknown_tool_text(name@)),
{
    proof {
        reveal_strlit("list_events");
        reveal_strlit("list_streams");
        reveal_strlit("resolve_events");
        assert("list_events"@.len() == 11);
        assert("list_streams"@.len() == 12);
        assert("list_events"@ != "list_streams"@);
    }
    let args = match parse_json(args_json) {
        Some(doc) => doc,
        None => JsonValue::Obj(Vec::new()),
    };
    if str_eq(name, "list_events") {
        ToolAction::ListEvents(event_query_from_args(&args))
    } else if str_eq(name, "list_streams") {
        ToolAction::ListStreams
    } else if str_eq(name, "resolve_events") {
        ToolAction::ResolveEvents(event_query_from_args(&args))
    } else {
        let mut out = String::from_str("Unknown tool: ");
        out.append(name);
        proof {
            assert(out@ =~= spec_unknown_tool_text(name@));
        }
        ToolAction::Unknown(out)
    }
}

/// What the assistant answers when the model stops calling tools: the
/// model's text, or a stock line when it said nothing.  While tool calls
/// are pending there is no answer yet.
pub fn assistant_reply(content: &str, has_tool_calls: bool) -> (r: Option<String>)
    ensures
        has_tool_calls ==> r is None,
        !has_tool_calls ==> (r matches Some(t) && t@ == if content@.len() == 0 {
            "No response."@
        } else {
            content@
        }),
{
    if has_tool_calls {
        None
    } else if content.unicode_len() == 0 {
        Some(String::from_str("No response."))
    } else {
        Some(content.to_owned())
    }
}

/// One event as a summary line: capture time to the minute, risk level,
/// title (a dash when absent), description, status, and the stream's UUID.
pub open spec fn spec_event_line(e: AnalysisEvent) -> Seq<char> {
    "- "@ + spec_minute_text(e.captured_at as int) + " | "@ + e.risk_level@ + " | "@ + (
    match e.title {
        Some(t) => t@,
        None => "-"@,
    }) + " | "@ + e.description@ + " | "@ + e.status@ + " | "@ + spec_uuid_str(
        e.stream_id as nat,
    )
}

/// Formats one event as a summary line.
pub fn format_event_line(e: &AnalysisEvent) -> (r: String)
    ensures
        r@ == spec_event_line(*e),
{
    let mut out = String::from_str("- ");
    out.append(format_minute(e.captured_at).as_str());
    out.append(" | ");
    out.append(e.risk_level.as_str());
    out.append(" | ");
    match &e.title {
        Some(t) => {
            out.append(t.as_str());
        },
        None => {
            out.append("-");
        },
    }
    out.append(" | ");
    out.append(e.description.as_str());
    out.append(" | ");
    out.append(e.status.as_str());
    out.append(" | ");
    out.append(uuid_to_string(e.stream_id).as_str());
    proof {
        assert(out@ =~= spec_event_line(*e));
    }
    out
}

/// The event lines joined with line breaks.
pub open spec fn spec_event_lines(events: Seq<AnalysisEvent>) -> Seq<char>
    decreases events.len(),
{
    if events.len() == 0 {
        Seq::empty()
    } else if events.len() == 1 {
        spec_event_line(events[0])
    } else {
        spec_event_lines(events.drop_last()) + "\n"@ + spec_event_line(events.last())
    }
}

/// The tool result for an event query: a count and one line per event, or
/// a stock line when nothing matched.
pub open spec fn spec_events_summary(events: Seq<AnalysisEvent>) -> Seq<char> {
    if events.len() == 0 {
        "No events."@
    } else {
        spec_u64_str(events.len()) + " events:\n"@ + spec_event_lines(events)
    }
}

/// Summarizes the events an event query returned.
pub fn events_summary(events: &Vec<AnalysisEvent>) -> (r: String)
    requires
        events@.len() <= u64::MAX,
    ensures
        r@ == spec_events_summary(events@),
{
    if events.len() == 0 {
        return String::from_str("No events.");
    }
    let mut out = u64_to_string(events.len() as u64);
    out.append(" events:\n");
    let ghost header = out@;
    let mut i: usize = 0;
    while i < events.len()
        invariant
            0 < events@.len() <= u64::MAX,
            0 <= i <= events@.len(),
            out@ == header + spec_event_lines(events@.take(i as int)),
        decreases events@.len() - i,
    {
        if i > 0 {
            out.append("\n");
        }
        out.append(format_event_line(&events[i]).as_str());
        proof {
            assert(events@.take(i + 1).drop_last() =~= events@.take(i as int));
            assert(events@.take(i + 1).last() == events@[i as int]);
            assert(out@ =~= header + spec_event_lines(events@.take(i + 1)));
        }
        i = i + 1;
    }
    proof {
        assert(events@.take(events@.len() as int) =~= events@);
        assert(out@ =~= spec_events_summary(events@));
    }
    out
}

/// One stream as a summary line: UUID, name, and source kind.
pub open spec fn spec_stream_line(s: StreamRecord) -> Seq<char> {
    spec_uuid_str(s.id as nat) + " | "@ + s.name@ + " | "@ + s.source_type@
}

/// Formats one stream as a summary line.
pub fn format_stream_line(s: &StreamRecord) -> (r: String)
    ensures
        r@ == spec_stream_line(*s),
{
    let mut out = uuid_to_string(s.id);
    out.append(" | ");
    out.append(s.name.as_str());
    out.append(" | ");
    out.append(s.source_type.as_str());
    proof {
        assert(out@ =~= spec_stream_line(*s));
    }
    out
}

/// The stream lines joined with line breaks.
pub open spec fn spec_stream_lines(streams: Seq<StreamRecord>) -> Seq<char>
    decreases streams.len(),
{
    if streams.len() == 0 {
        Seq::empty()
    } else if streams.len() == 1 {
        spec_stream_line(streams[0])
    } else {
        spec_stream_lines(streams.drop_last()) + "\n"@ + spec_stream_line(streams.last())
    }
}

/// Summarizes the camera streams.
pub fn streams_summary(streams: &Vec<StreamRecord>) -> (r: String)
    ensures
        r@ == spec_stream_lines(streams@),
{
    let mut out = String::new();
    let mut i: usize = 0;
    while i < streams.len()
        invariant
            0 <= i <= streams@.len(),
            out@ == spec_stream_lines(streams@.take(i as int)),
        decreases streams@.len() - i,
    {
        if i > 0 {
            out.append("\n");
        }
        out.append(format_stream_line(&streams[i]).as_str());
        proof {
            assert(streams@.take(i + 1).drop_last() =~= streams@.take(i as int));
            assert(streams@.take(i + 1).last() == streams@[i as int]);
            assert(out@ =~= spec_stream_lines(streams@.take(i + 1)));
        }
        i = i + 1;
    }
    proof {
        assert(streams@.take(streams@.len() as int) =~= streams@);
    }
    out
}

/// The tool result after resolving events: how many were resolved.
pub open spec fn spec_resolved_summary(n: nat) -> Seq<char> {
    "Resolved "@ + spec_u64_str(n) + " events."@
}

/// Reports how many events a resolve call touched.
pub fn resolved_summary(n: u64) -> (r: String)
    ensures
        r@ == spec_resolved_summary(n as nat),
{
    let mut out = String::from_str("Resolved ");
    out.append(u64_to_string(n).as_str());
    out.append(" events.");
    proof {
        assert(out@ =~= spec_resolved_summary(n as nat));
    }
    out
}

} // verus!
