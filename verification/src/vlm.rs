//! The vision-language-model contract: the system prompt and its per-stream
//! rules addendum, the request bodies of the two provider styles, the
//! extraction of the raw reply text, and the best-effort parsing of that
//! text into an [`AnalysisResult`].

use vstd::prelude::*;

use crate::b64::{b64_of, b64_encode};
use crate::json::{
    json_doc_of, json_string, parse_json, spec_arr_of, spec_get, spec_json_string,
    spec_num_text_of, spec_str_of, JsonValue,
};
use crate::model::{AnalysisResult, DetectedEvent, RiskLevel, VlmRule};
use crate::text::{
    ascii_upper, spec_ascii_upper, spec_strip_prefix_all, spec_strip_suffix_all, spec_trim,
    strip_prefix_all, strip_suffix_all, trim,
};

verus! {

/// The system prompt sent to the model before the image: respond with one
/// JSON object in the fixed schema, and nothing else.
pub const SYSTEM_PROMPT: &'static str = r#"You are a security camera analysis AI.
Analyze the provided camera frame and respond ONLY with a valid JSON object using this exact schema:

{
  "title": "Short title (max 4 words) that describes what you actually see as the security concern in THIS image. Invent the title from the scene—do not copy the examples. Focus on the threatening action, object, or behavior (e.g. weapon, fire, intrusion, suspicious object). Do not use generic scene names like 'kitchen' or 'office'.",
  "description": "Brief natural language description of the scene",
  "events": [
    {
      "event_type": "one of: person_detected, vehicle_detected, crowd_detected, fire_detected, smoke_detected, unusual_activity, empty_scene, animal_detected, package_left",
      "details": "optional string with additional details, or null",
      "confidence": 0.95
    }
  ],
  "risk_level": "one of: none, low, medium, high",
  "triggered_rule": "Copy verbatim from the custom rule list, or null if no rule matched. Never invent a rule."
}

Return ONLY the JSON object. Do not include any other text, markdown, or explanation."#;

/// A provider base URL as the clients use it: any trailing slashes
/// removed, so path segments can be appended.
pub fn normalized_base_url(url: &str) -> (r: String)
    ensures
        r@ == spec_strip_suffix_all(url@, "/"@),
{
    strip_suffix_all(url, "/").to_owned()
}

/// The rules lines of the addendum, one `- LEVEL: description` line per
/// rule, in order.
pub open spec fn spec_rules_lines(rules: Seq<VlmRule>) -> Seq<char>
    decreases rules.len(),
{
    if rules.len() == 0 {
        Seq::empty()
    } else {
        spec_rules_lines(rules.drop_last()) + "- "@ + spec_ascii_upper(rules.last().threat_level@)
            + ": "@ + rules.last().description@ + "\n"@
    }
}

/// The addendum appended to the system prompt: an instruction to answer
/// `null` when there are no rules, else the rule list with directions to
/// copy the matching rule verbatim.
pub open spec fn spec_rules_prompt(rules: Seq<VlmRule>) -> Seq<char> {
    if rules.len() == 0 {
        "\n\nThere are no custom rules for this camera. Set triggered_rule to null."@
    } else {
        "\n\nCustom threat assessment rules for this camera (apply these strictly when setting risk_level — they override your default judgment):\n"@
            + spec_rules_lines(rules)
            + "\nIf a rule matches what you see, use its threat level and set triggered_rule to that rule's description (copy verbatim from the list above). If multiple rules match, use the highest level and set triggered_rule to that rule's description. If no rule matches, use your own judgment for risk_level and set triggered_rule to null. Do not invent or paraphrase a rule; triggered_rule must be either null or an exact copy from the list above."@
    }
}

/// Builds the rules addendum that is appended to the base system prompt.
pub fn build_rules_prompt(rules: &[VlmRule]) -> (r: String)
    ensures
        r@ == spec_rules_prompt(rules@),
{
    if rules.len() == 0 {
        return String::from_str(
            "\n\nThere are no custom rules for this camera. Set triggered_rule to null.",
        );
    }
    let mut out = String::from_str(
        "\n\nCustom threat assessment rules for this camera (apply these strictly when setting risk_level — they override your default judgment):\n",
    );
    let ghost header = out@;
    let mut i: usize = 0;
    while i < rules.len()
        invariant
            0 <= i <= rules@.len(),
            out@ == header + spec_rules_lines(rules@.take(i as int)),
        decreases rules@.len() - i,
    {
        out.append("- ");
        out.append(ascii_upper(rules[i].threat_level.as_str()).as_str());
        out.append(": ");
        out.append(rules[i].description.as_str());
        out.append("\n");
        proof {
            assert(rules@.take(i + 1).drop_last() =~= rules@.take(i as int));
            assert(rules@.take(i + 1).last() == rules@[i as int]);
            assert(out@ =~= header + spec_rules_lines(rules@.take(i + 1)));
        }
        i = i + 1;
    }
    out.append(
        "\nIf a rule matches what you see, use its threat level and set triggered_rule to that rule's description (copy verbatim from the list above). If multiple rules match, use the highest level and set triggered_rule to that rule's description. If no rule matches, use your own judgment for risk_level and set triggered_rule to null. Do not invent or paraphrase a rule; triggered_rule must be either null or an exact copy from the list above.",
    );
    proof {
        assert(rules@.take(rules@.len() as int) =~= rules@);
        assert(out@ =~= spec_rules_prompt(rules@));
    }
    out
}

/// The full system prompt for one analysis call: the fixed schema prompt
/// followed by the rules addendum.
pub fn full_system_prompt(rules: &[VlmRule]) -> (r: String)
    ensures
        r@ == SYSTEM_PROMPT@ + spec_rules_prompt(rules@),
{
    let mut out = String::from_str(SYSTEM_PROMPT);
    out.append(build_rules_prompt(rules).as_str());
    out
}

/// The user prompt naming the stream the frame came from.
pub open spec fn spec_analysis_prompt(stream_name: Seq<char>) -> Seq<char> {
    "Analyze this security camera frame from '"@ + stream_name
        + "'. Respond with the required JSON."@
}

/// Builds the user prompt for one analysis call.
pub fn analysis_prompt(stream_name: &str) -> (r: String)
    ensures
        r@ == spec_analysis_prompt(stream_name@),
{
    let mut out = String::from_str("Analyze this security camera frame from '");
    out.append(stream_name);
    out.append("'. Respond with the required JSON.");
    proof {
        assert(out@ =~= spec_analysis_prompt(stream_name@));
    }
    out
}

/// The body of a "generate"-style request: model, prompt, system text, the
/// image as base64, and streaming off.
pub open spec fn spec_generate_request_body(
    model: Seq<char>,
    prompt: Seq<char>,
    system: Seq<char>,
    image_b64: Seq<char>,
) -> Seq<char> {
    "{\"model\":"@ + spec_json_string(model) + ",\"prompt\":"@ + spec_json_string(prompt)
        + ",\"system\":"@ + spec_json_string(system) + ",\"images\":["@ + spec_json_string(
        image_b64,
    ) + "],\"stream\":false}"@
}

/// Builds the body of a "generate"-style request around an already
/// base64-encoded image.
pub fn generate_request_body(model: &str, prompt: &str, system: &str, image_b64: &str) -> (r:
    String)
    ensures
        r@ == spec_generate_request_body(model@, prompt@, system@, image_b64@),
{
    let mut out = String::from_str("{\"model\":");
    out.append(json_string(model).as_str());
    out.append(",\"prompt\":");
    out.append(json_string(prompt).as_str());
    out.append(",\"system\":");
    out.append(json_string(system).as_str());
    out.append(",\"images\":[");
    out.append(json_string(image_b64).as_str());
    out.append("],\"stream\":false}");
    proof {
        assert(out@ =~= spec_generate_request_body(model@, prompt@, system@, image_b64@));
    }
    out
}

/// The data URI carrying a base64 JPEG.
pub open spec fn spec_jpeg_data_uri(image_b64: Seq<char>) -> Seq<char> {
    "data:image/jpeg;base64,"@ + image_b64
}

/// Builds the data URI for a base64-encoded JPEG.
pub fn jpeg_data_uri(image_b64: &str) -> (r: String)
    ensures
        r@ == spec_jpeg_data_uri(image_b64@),
{
    let mut out = String::from_str("data:image/jpeg;base64,");
    out.append(image_b64);
    out
}

/// The body of a "chat"-style request with vision: a system message, then
/// one user message whose content is the image as a data URI followed by
/// the prompt text.
pub open spec fn spec_chat_request_body(
    model: Seq<char>,
    system: Seq<char>,
    user_text: Seq<char>,
    image_data_uri: Seq<char>,
) -> Seq<char> {
    "{\"model\":"@ + spec_json_string(model)
        + ",\"messages\":[{\"role\":\"system\",\"content\":"@ + spec_json_string(system)
        + "},{\"role\":\"user\",\"content\":[{\"type\":\"image_url\",\"image_url\":{\"url\":"@
        + spec_json_string(image_data_uri) + "}},{\"type\":\"text\",\"text\":"@ + spec_json_string(
        user_text,
    ) + "}]}],\"max_tokens\":512,\"stream\":false}"@
}

/// Builds the body of a "chat"-style request around an image data URI.
pub fn chat_request_body(model: &str, system: &str, user_text: &str, image_data_uri: &str) -> (r:
    String)
    ensures
        r@ == spec_chat_request_body(model@, system@, user_text@, image_data_uri@),
{
    let mut out = String::from_str("{\"model\":");
    out.append(json_string(model).as_str());
    out.append(",\"messages\":[{\"role\":\"system\",\"content\":");
    out.append(json_string(system).as_str());
    out.append("},{\"role\":\"user\",\"content\":[{\"type\":\"image_url\",\"image_url\":{\"url\":");
    out.append(json_string(image_data_uri).as_str());
    out.append("}},{\"type\":\"text\",\"text\":");
    out.append(json_string(user_text).as_str());
    out.append("}]}],\"max_tokens\":512,\"stream\":false}");
    proof {
        assert(out@ =~= spec_chat_request_body(model@, system@, user_text@, image_data_uri@));
    }
    out
}

/// Encodes a JPEG for a request body.
pub fn encode_image(jpeg: &[u8]) -> (r: String)
    requires
        jpeg@.len() <= usize::MAX as nat / 4,
    ensures
        r@ == b64_of(jpeg@),
{
    b64_encode(jpeg)
}

/// What an optional free-text field of the schema denotes: an absent or
/// null field is "none", a string is its text, and any other kind of
/// value breaks the shape.
pub open spec fn spec_opt_text(doc: JsonValue, key: Seq<char>) -> Option<Option<Seq<char>>> {
    match spec_get(doc, key) {
        None => Some(None),
        Some(v) => if v is Null {
            Some(None)
        } else {
            match spec_str_of(v) {
                Some(t) => Some(Some(t)),
                None => None,
            }
        },
    }
}

fn opt_text_field(doc: &JsonValue, key: &str) -> (r: Option<Option<String>>)
    ensures
        match r {
            Some(t) => match t {
                Some(text) => spec_opt_text(*doc, key@) == Some(Some(text@)),
                None => spec_opt_text(*doc, key@) == Some(None::<Seq<char>>),
            },
            None => spec_opt_text(*doc, key@) is None,
        },
{
    match doc.get(key) {
        None => Some(None),
        Some(v) => {
            if v.is_null() {
                Some(None)
            } else {
                match v.as_text() {
                    Some(s) => Some(Some(s.clone())),
                    None => None,
                }
            }
        },
    }
}

/// A detected-event object of the schema: event type and confidence
/// required, details optional or null.
pub open spec fn spec_event_shape(v: JsonValue) -> bool {
    &&& spec_get(v, "event_type"@) matches Some(t) && spec_str_of(t) is Some
    &&& spec_opt_text(v, "details"@) is Some
    &&& spec_get(v, "confidence"@) matches Some(c) && spec_num_text_of(c) is Some
}

/// `e` is exactly the event the object describes.
pub open spec fn spec_event_matches(v: JsonValue, e: DetectedEvent) -> bool {
    &&& spec_get(v, "event_type"@) matches Some(t) && spec_str_of(t) == Some(e.event_type@)
    &&& match e.details {
        Some(d) => spec_opt_text(v, "details"@) == Some(Some(d@)),
        None => spec_opt_text(v, "details"@) == Some(None::<Seq<char>>),
    }
    &&& spec_get(v, "confidence"@) matches Some(c) && spec_num_text_of(c) == Some(e.confidence@)
}

fn detected_event_from_value(v: &JsonValue) -> (r: Option<DetectedEvent>)
    ensures
        match r {
            Some(e) => spec_event_shape(*v) && spec_event_matches(*v, e),
            None => !spec_event_shape(*v),
        },
{
    let event_type = match v.get("event_type") {
        Some(t) => match t.as_text() {
            Some(s) => s.clone(),
            None => {
                return None;
            },
        },
        None => {
            return None;
        },
    };
    let details = match opt_text_field(v, "details") {
        Some(d) => d,
        None => {
            return None;
        },
    };
    let confidence = match v.get("confidence") {
        Some(c) => match c.as_number_text() {
            Some(t) => t.clone(),
            None => {
                return None;
            },
        },
        None => {
            return None;
        },
    };
    Some(DetectedEvent { event_type, details, confidence })
}

/// A whole analysis document of the schema: `description`, `events` and
/// `risk_level` required, `title` and `triggered_rule` optional or null,
/// the risk level one of the four levels, every event well-shaped.
pub open spec fn spec_analysis_shape(doc: JsonValue) -> bool {
    &&& spec_opt_text(doc, "title"@) is Some
    &&& spec_get(doc, "description"@) matches Some(d) && spec_str_of(d) is Some
    &&& spec_get(doc, "events"@) matches Some(e) && spec_arr_of(e) matches Some(a) && (forall|
        k: int,
    |
        0 <= k < a.len() ==> spec_event_shape(#[trigger] a[k]))
    &&& spec_get(doc, "risk_level"@) matches Some(rl) && spec_str_of(rl) matches Some(t)
        && RiskLevel::spec_from_str(t) is Some
    &&& spec_opt_text(doc, "triggered_rule"@) is Some
}

/// `r` is exactly the analysis result the document describes, field for
/// field.
pub open spec fn spec_analysis_matches(doc: JsonValue, r: AnalysisResult) -> bool {
    &&& match r.title {
        Some(t) => spec_opt_text(doc, "title"@) == Some(Some(t@)),
        None => spec_opt_text(doc, "title"@) == Some(None::<Seq<char>>),
    }
    &&& spec_get(doc, "description"@) matches Some(d) && spec_str_of(d) == Some(r.description@)
    &&& spec_get(doc, "events"@) matches Some(e) && spec_arr_of(e) matches Some(a) && a.len()
        == r.events@.len() && (forall|k: int|
        0 <= k < a.len() ==> spec_event_matches(#[trigger] a[k], r.events@[k]))
    &&& spec_get(doc, "risk_level"@) matches Some(rl) && spec_str_of(rl) matches Some(t)
        && RiskLevel::spec_from_str(t) == Some(r.risk_level)
    &&& match r.triggered_rule {
        Some(t) => spec_opt_text(doc, "triggered_rule"@) == Some(Some(t@)),
        None => spec_opt_text(doc, "triggered_rule"@) == Some(None::<Seq<char>>),
    }
}

/// Reads an analysis result out of a parsed document: exactly the
/// documents of the schema's shape yield a result, and the result's
/// fields are exactly the document's.
pub fn analysis_from_value(doc: &JsonValue) -> (r: Option<AnalysisResult>)
    ensures
        match r {
            Some(a) => spec_analysis_shape(*doc) && spec_analysis_matches(*doc, a),
            None => !spec_analysis_shape(*doc),
        },
{
    let title = match opt_text_field(doc, "title") {
        Some(t) => t,
        None => {
            return None;
        },
    };
    let description = match doc.get("description") {
        Some(d) => match d.as_text() {
            Some(s) => s.clone(),
            None => {
                return None;
            },
        },
        None => {
            return None;
        },
    };
    let arr = match doc.get("events") {
        Some(e) => match e.as_elements() {
            Some(a) => a,
            None => {
                return None;
            },
        },
        None => {
            return None;
        },
    };
    let ghost events_value = spec_get(*doc, "events"@);
    let mut events: Vec<DetectedEvent> = Vec::new();
    let mut i: usize = 0;
    while i < arr.len()
        invariant
            0 <= i <= arr@.len(),
            events@.len() == i,
            spec_get(*doc, "events"@) == events_value,
            events_value matches Some(e) && spec_arr_of(e) == Some(arr@),
            forall|k: int|
                0 <= k < i ==> spec_event_shape(#[trigger] arr@[k]) && spec_event_matches(
                    arr@[k],
                    events@[k],
                ),
        decreases arr@.len() - i,
    {
        match detected_event_from_value(&arr[i]) {
            Some(ev) => {
                events.push(ev);
            },
            None => {
                proof {
                    assert(!spec_event_shape(arr@[i as int]));
                    assert(!spec_analysis_shape(*doc)) by {
                        if spec_analysis_shape(*doc) {
                            let e0 = spec_get(*doc, "events"@)->0;
                            let a0 = spec_arr_of(e0)->0;
                            assert(a0 == arr@);
                            assert(spec_event_shape(a0[i as int]));
                        }
                    }
                }
                return None;
            },
        }
        i = i + 1;
    }
    let risk_level = match doc.get("risk_level") {
        Some(rl) => match rl.as_text() {
            Some(s) => match RiskLevel::from_str(s.as_str()) {
                Some(level) => level,
                None => {
                    return None;
                },
            },
            None => {
                return None;
            },
        },
        None => {
            return None;
        },
    };
    let triggered_rule = match opt_text_field(doc, "triggered_rule") {
        Some(t) => t,
        None => {
            return None;
        },
    };
    Some(AnalysisResult { title, description, events, risk_level, triggered_rule })
}

/// The reply text inside a "generate"-style response document: its
/// `response` string.
pub open spec fn spec_generate_reply(doc: JsonValue) -> Option<Seq<char>> {
    match spec_get(doc, "response"@) {
        Some(v) => spec_str_of(v),
        None => None,
    }
}

/// Extracts the reply text of a "generate"-style response document.
pub fn generate_response_text(doc: &JsonValue) -> (r: Option<String>)
    ensures
        match r {
            Some(s) => spec_generate_reply(*doc) == Some(s@),
            None => spec_generate_reply(*doc) is None,
        },
{
    match doc.get("response") {
        Some(v) => match v.as_text() {
            Some(s) => Some(s.clone()),
            None => None,
        },
        None => None,
    }
}

/// A well-shaped element of the `choices` array: a message with a string
/// `content`.
pub open spec fn spec_choice_ok(v: JsonValue) -> bool {
    spec_get(v, "message"@) matches Some(m) && spec_get(m, "content"@) matches Some(c)
        && spec_str_of(c) is Some
}

/// The reply text inside a "chat"-style response document: the content of
/// the first choice's message, empty when there are no choices at all,
/// nothing when the document does not have that shape (every choice must
/// be well-shaped, as deserialization reads them all).
pub open spec fn spec_chat_reply(doc: JsonValue) -> Option<Seq<char>> {
    match spec_get(doc, "choices"@) {
        Some(c) => match spec_arr_of(c) {
            Some(a) => if !(forall|k: int| 0 <= k < a.len() ==> spec_choice_ok(#[trigger] a[k])) {
                None
            } else if a.len() == 0 {
                Some(Seq::empty())
            } else {
                spec_str_of(spec_get(spec_get(a[0], "message"@)->0, "content"@)->0)
            },
            None => None,
        },
        None => None,
    }
}

/// Extracts the reply text of a "chat"-style response document.
pub fn chat_response_text(doc: &JsonValue) -> (r: Option<String>)
    ensures
        match r {
            Some(s) => spec_chat_reply(*doc) == Some(s@),
            None => spec_chat_reply(*doc) is None,
        },
{
    let choices = match doc.get("choices") {
        Some(c) => match c.as_elements() {
            Some(arr) => arr,
            None => {
                return None;
            },
        },
        None => {
            return None;
        },
    };
    let ghost choices_value = spec_get(*doc, "choices"@);
    let mut content: Option<String> = None;
    let mut i: usize = 0;
    while i < choices.len()
        invariant
            0 <= i <= choices@.len(),
            spec_get(*doc, "choices"@) == choices_value,
            choices_value matches Some(c) && spec_arr_of(c) == Some(choices@),
            forall|k: int| 0 <= k < i ==> spec_choice_ok(#[trigger] choices@[k]),
            if choices@.len() == 0 {
                content is None
            } else if i == 0 {
                content is None
            } else {
                content matches Some(s) && spec_str_of(
                    spec_get(spec_get(choices@[0], "message"@)->0, "content"@)->0,
                ) == Some(s@)
            },
        decreases choices@.len() - i,
    {
        let msg = match choices[i].get("message") {
            Some(m) => m,
            None => {
                proof {
                    assert(!spec_choice_ok(choices@[i as int]));
                }
                return None;
            },
        };
        let text = match msg.get("content") {
            Some(c) => match c.as_text() {
                Some(s) => s.clone(),
                None => {
                    proof {
                        assert(!spec_choice_ok(choices@[i as int]));
                    }
                    return None;
                },
            },
            None => {
                proof {
                    assert(!spec_choice_ok(choices@[i as int]));
                }
                return None;
            },
        };
        if i == 0 {
            content = Some(text);
        }
        i = i + 1;
    }
    match content {
        Some(c) => Some(c),
        None => Some(String::new()),
    }
}

/// The reply text inside a "generate"-style response body.
pub open spec fn spec_generate_reply_of(body: Seq<char>) -> Option<Seq<char>> {
    match json_doc_of(body) {
        Some(doc) => spec_generate_reply(doc),
        None => None,
    }
}

/// Parses a "generate"-style response body and extracts the reply text:
/// the `response` string of the parsed document, or nothing when the body
/// is not a document of that shape.
pub fn generate_reply_text(body: &str) -> (r: Option<String>)
    ensures
        match r {
            Some(s) => spec_generate_reply_of(body@) == Some(s@),
            None => spec_generate_reply_of(body@) is None,
        },
{
    match parse_json(body) {
        Some(doc) => generate_response_text(&doc),
        None => None,
    }
}

/// The reply text inside a "chat"-style response body.
pub open spec fn spec_chat_reply_of(body: Seq<char>) -> Option<Seq<char>> {
    match json_doc_of(body) {
        Some(doc) => spec_chat_reply(doc),
        None => None,
    }
}

/// Parses a "chat"-style response body and extracts the reply text:
/// `choices[0].message.content` of the parsed document, empty when there
/// are no choices, nothing when the body is not a document of that shape.
pub fn chat_reply_text(body: &str) -> (r: Option<String>)
    ensures
        match r {
            Some(s) => spec_chat_reply_of(body@) == Some(s@),
            None => spec_chat_reply_of(body@) is None,
        },
{
    match parse_json(body) {
        Some(doc) => chat_response_text(&doc),
        None => None,
    }
}

/// The model's raw reply after fence stripping: trimmed, any leading
/// triple-backtick-json or triple-backtick fences and trailing
/// triple-backtick fences removed, trimmed again.
pub open spec fn spec_cleaned(raw: Seq<char>) -> Seq<char> {
    spec_trim(
        spec_strip_suffix_all(
            spec_strip_prefix_all(spec_strip_prefix_all(spec_trim(raw), "```json"@), "```"@),
            "```"@,
        ),
    )
}

/// Strips markdown code fences from around the model's reply.
pub fn strip_fences(raw: &str) -> (r: &str)
    ensures
        r@ == spec_cleaned(raw@),
{
    let t1 = trim(raw);
    let t2 = strip_prefix_all(t1, "```json");
    let t3 = strip_prefix_all(t2, "```");
    let t4 = strip_suffix_all(t3, "```");
    trim(t4)
}

/// The fallback result for unparseable model output: the raw text is kept
/// as the description so no data is lost.
pub open spec fn spec_fallback(raw: Seq<char>, r: AnalysisResult) -> bool {
    &&& r.title is None
    &&& r.description@ == raw
    &&& r.events@.len() == 0
    &&& r.risk_level == RiskLevel::NoRisk
    &&& r.triggered_rule is None
}

/// The fence-stripped text parses as one JSON document of the analysis
/// schema's shape.
pub open spec fn spec_parses_as_analysis(s: Seq<char>) -> bool {
    json_doc_of(s) matches Some(doc) && spec_analysis_shape(doc)
}

/// Position `k` of the fence-stripped text holds a `{` whose suffix
/// parses as an analysis document.
pub open spec fn candidate_wins(cleaned: Seq<char>, k: int) -> bool {
    0 <= k < cleaned.len() && cleaned[k] == '{' && spec_parses_as_analysis(cleaned.skip(k))
}

/// No `{` in the fence-stripped text starts a parseable analysis
/// document.
pub open spec fn no_winning_candidate(cleaned: Seq<char>) -> bool {
    forall|k: int| !#[trigger] candidate_wins(cleaned, k)
}

/// `k` is the winning position of the rightmost-first scan: its suffix
/// parses as an analysis document and no later `{` does.
pub open spec fn best_candidate(cleaned: Seq<char>, k: int) -> bool {
    candidate_wins(cleaned, k) && forall|j: int| j > k ==> !#[trigger] candidate_wins(cleaned, j)
}

/// Parses the model's raw reply into an [`AnalysisResult`], never failing.
///
/// First the fence-stripped text is tried whole; then, from the rightmost
/// `{` leftwards, each suffix is tried, so that chain-of-thought output
/// still yields the final JSON object; the first success wins.  When no
/// candidate is an analysis document, a fallback carrying the raw text as
/// its description is returned.
pub fn parse_or_fallback(raw: &str) -> (r: AnalysisResult)
    ensures
        spec_parses_as_analysis(spec_cleaned(raw@)) ==> spec_analysis_matches(
            json_doc_of(spec_cleaned(raw@))->0,
            r,
        ),
        forall|k: int|
            !spec_parses_as_analysis(spec_cleaned(raw@)) && #[trigger] best_candidate(
                spec_cleaned(raw@),
                k,
            ) ==> spec_analysis_matches(json_doc_of(spec_cleaned(raw@).skip(k))->0, r),
        !spec_parses_as_analysis(spec_cleaned(raw@)) && no_winning_candidate(spec_cleaned(raw@))
            ==> spec_fallback(raw@, r),
{
    let cleaned = strip_fences(raw);
    match parse_json(cleaned) {
        Some(doc) => {
            match analysis_from_value(&doc) {
                Some(a) => {
                    return a;
                },
                None => {},
            }
        },
        None => {},
    }
    let n = cleaned.unicode_len();
    let mut k: usize = n;
    while k > 0
        invariant
            n == cleaned@.len(),
            0 <= k <= n,
            cleaned@ == spec_cleaned(raw@),
            !spec_parses_as_analysis(cleaned@),
            forall|j: int| k <= j < n ==> !#[trigger] candidate_wins(cleaned@, j),
        decreases k,
    {
        k = k - 1;
        if cleaned.get_char(k) == '{' {
            let cand = cleaned.substring_char(k, n);
            proof {
                assert(cand@ =~= cleaned@.skip(k as int));
            }
            match parse_json(cand) {
                Some(doc) => {
                    match analysis_from_value(&doc) {
                        Some(a) => {
                            proof {
                                assert(candidate_wins(cleaned@, k as int));
                                assert forall|kp: int| #[trigger] best_candidate(
                                    cleaned@,
                                    kp,
                                ) implies kp == k as int by {
                                    if kp > k as int {
                                        assert(!candidate_wins(cleaned@, kp));
                                    } else if kp < k as int {
                                        assert(!candidate_wins(cleaned@, k as int));
                                    }
                                }
                            }
                            return a;
                        },
                        None => {
                            proof {
                                assert(!candidate_wins(cleaned@, k as int));
                            }
                        },
                    }
                },
                None => {
                    proof {
                        assert(!candidate_wins(cleaned@, k as int));
                    }
                },
            }
        } else {
            proof {
                assert(!candidate_wins(cleaned@, k as int));
            }
        }
    }
    proof {
        assert forall|j: int| !#[trigger] candidate_wins(cleaned@, j) by {
            if 0 <= j < n {
                assert(!candidate_wins(cleaned@, j));
            }
        }
    }
    AnalysisResult {
        title: None,
        description: raw.to_owned(),
        events: Vec::new(),
        risk_level: RiskLevel::NoRisk,
        triggered_rule: None,
    }
}

} // verus!
