use vstd::prelude::*;

use crate::agent_prompts::{agent_context, context_text, note_draft_context, AGENT_INSTRUCTIONS, NOTE_DRAFT_INSTRUCTIONS};
use crate::agent_types::{AgentOutputMode, AgentRequest, AgentResult, AgentSessionTurn, ToolCall};
use crate::config::AgentConfig;
use crate::json::{entry, jstr, Json, JsonV};
use crate::agent_types::same_call;
use crate::text::{
    chars_of, find_char, find_chars, join, join_chars, lemma_find_match, lower, lower_str, owned,
    rfind_char, rfind_char_exec, slice_chars, str_eq, string_of, trim, trim_chars, trim_end,
    trim_end_chars, trim_str, views, CharClass,
};

verus! {

/// Why the agent could not answer.
#[derive(Debug)]
pub enum AgentError {
    /// Agent mode is switched off.
    Disabled,
    /// The provider (named) is not OpenAI.
    UnsupportedProvider(String),
    /// No API key in the settings or the environment.
    MissingApiKey,
    /// The reply held no output text.
    NoOutputText,
    /// The agent's JSON had no text.
    EmptyText,
    /// The agent's JSON named an unknown mode (lower-cased).
    UnsupportedMode(String),
    /// The agent chose tool mode but named no tool.
    ToolModeWithoutTool,
    /// The agent's output (given) could not be read as agent JSON.
    InvalidJson(String),
    /// Even the repaired output could not be used: the first error's message
    /// and the repaired output.
    RepairFailed(String, String),
    /// No API key for speech.
    MissingTtsKey,
    /// The speech reply held less than one sample.
    EmptyAudio,
    /// The request itself failed (the message says how).
    Request(String),
    /// An answer in tool mode reached the runtime without its tool.
    NoToolCall,
}

impl AgentError {
    /// The text that describes the error to the user.
    pub open spec fn describe(self) -> Seq<char> {
        match self {
            AgentError::Disabled => "Agent mode is not enabled. Add an OpenAI API key in Settings."@,
            AgentError::UnsupportedProvider(p) => "Unsupported agent provider: "@ + p@,
            AgentError::MissingApiKey => "OpenAI API key is missing. Add it in Settings."@,
            AgentError::NoOutputText => "OpenAI response did not include output text"@,
            AgentError::EmptyText => "OpenAI agent returned empty text"@,
            AgentError::UnsupportedMode(m) => "OpenAI agent returned unsupported mode: "@ + m@,
            AgentError::ToolModeWithoutTool => "OpenAI agent returned tool mode without a tool call"@,
            AgentError::InvalidJson(o) => "OpenAI agent output was not valid JSON: "@ + o@,
            AgentError::RepairFailed(first, repaired) =>
                "OpenAI agent output was not valid JSON after repair. First error: "@ + first@
                    + ". Repaired output: "@ + repaired@,
            AgentError::MissingTtsKey => "OpenAI API key is missing for TTS"@,
            AgentError::EmptyAudio => "OpenAI TTS returned empty audio"@,
            AgentError::Request(m) => m@,
            AgentError::NoToolCall => "agent requested tool mode without a tool call"@,
        }
    }

    /// The message shown for the error.
    pub fn message(&self) -> (r: String)
        ensures
            r@ == self.describe(),
    {
        match self {
            AgentError::Disabled => String::from_str(
                "Agent mode is not enabled. Add an OpenAI API key in Settings.",
            ),
            AgentError::UnsupportedProvider(p) => crate::text::concat2(
                "Unsupported agent provider: ",
                p.as_str(),
            ),
            AgentError::MissingApiKey => String::from_str(
                "OpenAI API key is missing. Add it in Settings.",
            ),
            AgentError::NoOutputText => String::from_str("OpenAI response did not include output text"),
            AgentError::EmptyText => String::from_str("OpenAI agent returned empty text"),
            AgentError::UnsupportedMode(m) => crate::text::concat2(
                "OpenAI agent returned unsupported mode: ",
                m.as_str(),
            ),
            AgentError::ToolModeWithoutTool => String::from_str(
                "OpenAI agent returned tool mode without a tool call",
            ),
            AgentError::InvalidJson(o) => crate::text::concat2(
                "OpenAI agent output was not valid JSON: ",
                o.as_str(),
            ),
            AgentError::RepairFailed(first, repaired) => {
                let mut s = String::from_str(
                    "OpenAI agent output was not valid JSON after repair. First error: ",
                );
                s.append(first.as_str());
                s.append(". Repaired output: ");
                s.append(repaired.as_str());
                s
            },
            AgentError::MissingTtsKey => String::from_str("OpenAI API key is missing for TTS"),
            AgentError::EmptyAudio => String::from_str("OpenAI TTS returned empty audio"),
            AgentError::Request(m) => m.clone(),
            AgentError::NoToolCall => String::from_str("agent requested tool mode without a tool call"),
        }
    }
}

/// Whether the agent may call OpenAI: it must be on, with provider `openai`.
pub open spec fn provider_ok(config: AgentConfig) -> bool {
    config.enabled && config.provider@ == "openai"@
}

/// Refuses to run the agent unless it is on and its provider is OpenAI.
pub fn ensure_openai_provider(config: &AgentConfig) -> (r: Result<(), AgentError>)
    ensures
        !config.enabled ==> r matches Err(AgentError::Disabled),
        config.enabled && config.provider@ != "openai"@ ==> (r matches Err(
            AgentError::UnsupportedProvider(p),
        ) && p@ == config.provider@),
        provider_ok(*config) ==> r is Ok,
{
    if !config.enabled {
        return Err(AgentError::Disabled);
    }
    if !str_eq(config.provider.as_str(), "openai") {
        return Err(AgentError::UnsupportedProvider(config.provider.clone()));
    }
    Ok(())
}

/// The API key to use: the configured one, trimmed, unless blank; else the
/// `OPENAI_API_KEY` environment variable (`env_key`).
pub open spec fn api_key_of(config: AgentConfig, env_key: Option<Seq<char>>) -> Option<Seq<char>> {
    match config.api_key {
        Some(k) => if trim(k@, CharClass::Whitespace).len() == 0 {
            env_key
        } else {
            Some(trim(k@, CharClass::Whitespace))
        },
        None => env_key,
    }
}

/// The API key to use; `env_key` is the value of `OPENAI_API_KEY`, if set.
pub fn openai_api_key(config: &AgentConfig, env_key: Option<String>) -> (r: Option<String>)
    ensures
        api_key_of(*config, crate::todoist::opt_view(env_key)) == crate::todoist::opt_view(r),
{
    match &config.api_key {
        Some(k) => {
            let t = trim_str(k.as_str(), CharClass::Whitespace);
            if t.as_str().unicode_len() == 0 {
                env_key
            } else {
                Some(t)
            }
        },
        None => env_key,
    }
}

/// A call to the OpenAI Responses API: the URL, the key, and the JSON body.
#[derive(Debug)]
pub struct ModelCall {
    pub url: String,
    pub api_key: String,
    pub body: Json,
}

/// The Responses API address for a base URL: its trailing slashes dropped,
/// then `/responses`.
pub open spec fn responses_url(base: Seq<char>) -> Seq<char> {
    trim_end(base, CharClass::Slash) + "/responses"@
}

/// The body of a Responses API call.
pub open spec fn responses_body(model: Seq<char>, instructions: Seq<char>, input: Seq<char>) -> JsonV {
    JsonV::Object(
        seq![
            ("model"@, JsonV::Str(model)),
            ("instructions"@, JsonV::Str(instructions)),
            ("input"@, JsonV::Str(input)),
        ],
    )
}

/// The Responses API call for instructions and input; refused without a key.
/// `env_key` is the value of `OPENAI_API_KEY`, if set.
pub fn responses_call(config: &AgentConfig, env_key: Option<String>, instructions: &str, input: &str) -> (r:
    Result<ModelCall, AgentError>)
    ensures
        api_key_of(*config, crate::todoist::opt_view(env_key)) is None ==> r matches Err(
            AgentError::MissingApiKey,
        ),
        api_key_of(*config, crate::todoist::opt_view(env_key)) matches Some(k) ==> (r is Ok
            && r.unwrap().url@ == responses_url(config.base_url@) && r.unwrap().api_key@ == k
            && r.unwrap().body@ == responses_body(config.model@, instructions@, input@)),
{
    let key = match openai_api_key(config, env_key) {
        Some(k) => k,
        None => {
            return Err(AgentError::MissingApiKey);
        },
    };
    let b = chars_of(config.base_url.as_str());
    let base = trim_end_chars(b.as_slice(), CharClass::Slash);
    let bs = string_of(base.as_slice());
    let url = crate::text::concat2(bs.as_str(), "/responses");
    let body = Json::Object(
        vec![
            entry("model", jstr(config.model.as_str())),
            entry("instructions", jstr(instructions)),
            entry("input", jstr(input)),
        ],
    );
    proof {
        let es = match body@ {
            JsonV::Object(e) => e,
            _ => Seq::empty(),
        };
        assert(es =~= seq![
            ("model"@, JsonV::Str(config.model@)),
            ("instructions"@, JsonV::Str(instructions@)),
            ("input"@, JsonV::Str(input@)),
        ]);
    }
    Ok(ModelCall { url, api_key: key, body })
}

/// The texts of one output item: the trimmed `text` of each part of its
/// `content` array.
pub open spec fn item_texts(item: JsonV) -> Seq<Seq<char>> {
    match item.field("content"@) {
        Some(JsonV::Array(parts)) => part_texts(parts),
        _ => Seq::empty(),
    }
}

/// The trimmed `text` strings of the parts, in order.
pub open spec fn part_texts(parts: Seq<JsonV>) -> Seq<Seq<char>>
    decreases parts.len(),
{
    if parts.len() == 0 {
        Seq::empty()
    } else {
        let pre = part_texts(parts.drop_last());
        match parts.last().str_field("text"@) {
            Some(t) => pre.push(trim(t, CharClass::Whitespace)),
            None => pre,
        }
    }
}

/// The texts of all output items, item by item.
pub open spec fn output_texts(items: Seq<JsonV>) -> Seq<Seq<char>>
    decreases items.len(),
{
    if items.len() == 0 {
        Seq::empty()
    } else {
        output_texts(items.drop_last()) + item_texts(items.last())
    }
}

/// The text of a Responses API reply: its `output_text`, trimmed; else the
/// non-empty texts of its `output` items joined by newlines; none if empty.
pub open spec fn reply_text(value: JsonV) -> Option<Seq<char>> {
    match value.str_field("output_text"@) {
        Some(t) => Some(trim(t, CharClass::Whitespace)),
        None => {
            let items = match value.field("output"@) {
                Some(JsonV::Array(a)) => a,
                _ => Seq::empty(),
            };
            let text = join(
                output_texts(items).filter(|c: Seq<char>| crate::text::nonempty(c)),
                "\n"@,
            );
            if text.len() == 0 {
                None
            } else {
                Some(text)
            }
        },
    }
}

fn array_items(v: Option<&Json>) -> (r: Option<&Vec<Json>>)
    ensures
        match v {
            Some(j) => match j@ {
                JsonV::Array(a) => r is Some && r.unwrap()@.len() == a.len() && forall|i: int|
                    0 <= i < a.len() ==> #[trigger] r.unwrap()@[i]@ == a[i],
                _ => r is None,
            },
            None => r is None,
        },
{
    match v {
        Some(j) => match j {
            Json::Array(a) => Some(a),
            _ => None,
        },
        None => None,
    }
}

/// Reads the answer text out of a Responses API reply.
pub fn parse_output_text(value: &Json) -> (r: Result<String, AgentError>)
    ensures
        match reply_text(value@) {
            Some(t) => r is Ok && r.unwrap()@ == t,
            None => r matches Err(AgentError::NoOutputText),
        },
{
    match value.get_str("output_text") {
        Some(t) => {
            return Ok(trim_str(t.as_str(), CharClass::Whitespace));
        },
        None => {},
    }
    let mut chunks: Vec<Vec<char>> = Vec::new();
    let ghost items = match value@.field("output"@) {
        Some(JsonV::Array(a)) => a,
        _ => Seq::empty(),
    };
    match array_items(value.get("output")) {
        Some(output) => {
            let n = output.len();
            for i in 0..n
                invariant
                    n == output@.len(),
                    items.len() == n,
                    forall|k: int| 0 <= k < n ==> #[trigger] output@[k]@ == items[k],
                    views(chunks@) == output_texts(items.take(i as int)),
            {
                proof {
                    assert(items.take(i + 1).drop_last() == items.take(i as int));
                    assert(items.take(i + 1).last() == items[i as int]);
                }
                let ghost before = views(chunks@);
                let item = &output[i];
                match array_items(item.get("content")) {
                    Some(content) => {
                        let ghost parts = match item@.field("content"@) {
                            Some(JsonV::Array(p)) => p,
                            _ => Seq::empty(),
                        };
                        let m = content.len();
                        for j in 0..m
                            invariant
                                m == content@.len(),
                                parts.len() == m,
                                forall|k: int| 0 <= k < m ==> #[trigger] content@[k]@ == parts[k],
                                views(chunks@) == before + part_texts(parts.take(j as int)),
                        {
                            proof {
                                assert(parts.take(j + 1).drop_last() == parts.take(j as int));
                                assert(parts.take(j + 1).last() == parts[j as int]);
                            }
                            match content[j].get_str("text") {
                                Some(t) => {
                                    let c = chars_of(t.as_str());
                                    let tc = trim_chars(c.as_slice(), CharClass::Whitespace);
                                    let ghost pre = part_texts(parts.take(j as int));
                                    chunks.push(tc);
                                    assert(views(chunks@) == views(chunks@).drop_last().push(tc@));
                                    assert(before + pre.push(tc@) == (before + pre).push(tc@));
                                },
                                None => {},
                            }
                        }
                        assert(parts.take(m as int) == parts);
                    },
                    None => {
                        assert(item_texts(items[i as int]) == Seq::<Seq<char>>::empty());
                        assert(before + Seq::<Seq<char>>::empty() == before);
                    },
                }
            }
            assert(items.take(n as int) == items);
        },
        None => {
            assert(items == Seq::<JsonV>::empty());
        },
    }
    let ghost all = views(chunks@);
    let mut kept: Vec<Vec<char>> = Vec::new();
    let n = chunks.len();
    for i in 0..n
        invariant
            n == chunks@.len(),
            all == views(chunks@),
            views(kept@) == all.take(i as int).filter(|c: Seq<char>| crate::text::nonempty(c)),
    {
        proof {
            assert(all.take(i + 1) == all.take(i as int).push(all[i as int]));
            all.take(i as int).lemma_filter_push(all[i as int], |c: Seq<char>| crate::text::nonempty(c));
        }
        if chunks[i].len() > 0 {
            let c = slice_chars(chunks[i].as_slice(), 0, chunks[i].len());
            assert(chunks@[i as int]@.subrange(0, chunks@[i as int]@.len() as int) == all[i as int]);
            kept.push(c);
            assert(views(kept@) == views(kept@).drop_last().push(c@));
        }
    }
    assert(all.take(n as int) == all);
    let text = join_chars(&kept, chars_of("\n").as_slice());
    if text.len() == 0 {
        Err(AgentError::NoOutputText)
    } else {
        Ok(string_of(text.as_slice()))
    }
}


/// The JSON object inside a model's output: from the first `{` to the last `}`
/// (to the end when there is no `}`); none without a `{` or when the last `}`
/// comes before the first `{`.
pub open spec fn json_object(text: Seq<char>) -> Option<Seq<char>> {
    match find_char(text, '{') {
        None => None,
        Some(start) => {
            let end: int = match rfind_char(text, '}') {
                Some(e) => e as int,
                None => text.len() - 1,
            };
            if end < start {
                None
            } else {
                Some(text.subrange(start as int, end + 1))
            }
        },
    }
}

/// Cuts the JSON object out of a model's output (see `json_object`).
pub fn extract_json_object(text: &str) -> (r: Option<String>)
    ensures
        r matches Some(o) ==> o@.len() <= text@.len(),
        match json_object(text@) {
            Some(o) => r is Some && r.unwrap()@ == o,
            None => r is None,
        },
{
    let v = chars_of(text);
    let brace: [char; 1] = ['{'];
    let start = match find_chars(v.as_slice(), brace.as_slice()) {
        Some(s) => s,
        None => {
            assert(brace@ == seq!['{']);
            return None;
        },
    };
    assert(brace@ == seq!['{']);
    proof {
        lemma_find_match(text@, seq!['{']);
    }
    let len = v.len();
    assert(start < len);
    let end: usize = match rfind_char_exec(v.as_slice(), '}') {
        Some(e) => e,
        None => len - 1,
    };
    assert(end < len);
    if end < start {
        return None;
    }
    let o = slice_chars(v.as_slice(), start, end + 1);
    Some(string_of(o.as_slice()))
}

/// The object cut out of an output opens with `{`, and closes with `}` when
/// the output has a `}` after its first `{`.
pub proof fn law_object_is_delimited(text: Seq<char>)
    ensures
        json_object(text) matches Some(o) ==> o.len() > 0 && o[0] == '{',
        json_object(text) matches Some(o) ==> (rfind_char(text, '}') is Some ==> o.last() == '}'),
{
    match json_object(text) {
        Some(o) => {
            let start = find_char(text, '{').unwrap();
            lemma_find_match(text, seq!['{']);
            assert(crate::text::match_at(text, seq!['{'], start as int));
            assert(text.subrange(start as int, (start + 1) as int)[0] == text[start as int]);
            lemma_rfind_char(text, '}');
            assert(o[0] == text[start as int]);
            match rfind_char(text, '}') {
                Some(e) => {
                    lemma_rfind_char(text, '}');
                    assert(o.last() == text[e as int]);
                },
                None => {},
            }
        },
        None => {},
    }
}

proof fn lemma_rfind_char(s: Seq<char>, c: char)
    ensures
        rfind_char(s, c) matches Some(k) ==> k < s.len() && s[k as int] == c,
    decreases s.len(),
{
    if s.len() > 0 && s.last() != c {
        lemma_rfind_char(s.drop_last(), c);
    }
}

/// The scanner's state after one character: inside a string or not, after a
/// backslash in a string or not, and the count of open braces outside strings.
pub open spec fn scan_step(st: (bool, bool, int), ch: char) -> (bool, bool, int) {
    let (in_string, escaped, balance) = st;
    if escaped {
        (in_string, false, balance)
    } else if ch == '\\' && in_string {
        (in_string, true, balance)
    } else if ch == '"' {
        (!in_string, false, balance)
    } else if in_string {
        st
    } else if ch == '{' {
        (in_string, escaped, balance + 1)
    } else if ch == '}' {
        (in_string, escaped, balance - 1)
    } else {
        st
    }
}

/// The scanner's state after the whole text.
pub open spec fn brace_scan(s: Seq<char>) -> (bool, bool, int)
    decreases s.len(),
{
    if s.len() == 0 {
        (false, false, 0)
    } else {
        scan_step(brace_scan(s.drop_last()), s.last())
    }
}

/// The text, trimmed, with one `}` added for each brace left open outside
/// strings.
pub open spec fn balanced(text: Seq<char>) -> Seq<char> {
    let open = brace_scan(text).2;
    let missing: nat = if open > 0 {
        open as nat
    } else {
        0
    };
    trim(text, CharClass::Whitespace) + Seq::new(missing, |i: int| '}')
}

proof fn lemma_scan_bound(s: Seq<char>)
    ensures
        -s.len() <= brace_scan(s).2 <= s.len(),
    decreases s.len(),
{
    if s.len() > 0 {
        lemma_scan_bound(s.drop_last());
    }
}

/// Closes the braces that a truncated JSON object left open (see `balanced`).
pub fn balance_json_braces(text: &str) -> (r: String)
    requires
        text@.len() <= i64::MAX,
    ensures
        r@ == balanced(text@),
{
    let v = chars_of(text);
    let n = v.len();
    let mut in_string = false;
    let mut escaped = false;
    let mut balance: i64 = 0;
    for i in 0..n
        invariant
            n == v@.len(),
            v@ == text@,
            n <= i64::MAX,
            (in_string, escaped, balance as int) == brace_scan(v@.take(i as int)),
    {
        proof {
            assert(v@.take(i + 1).drop_last() == v@.take(i as int));
            lemma_scan_bound(v@.take(i as int));
        }
        let ch = v[i];
        if escaped {
            escaped = false;
        } else if ch == '\\' && in_string {
            escaped = true;
        } else if ch == '"' {
            in_string = !in_string;
        } else if in_string {
        } else if ch == '{' {
            balance = balance + 1;
        } else if ch == '}' {
            balance = balance - 1;
        }
    }
    assert(v@.take(n as int) == text@);
    let t = trim_chars(v.as_slice(), CharClass::Whitespace);
    let mut out = t;
    let ghost base = out@;
    let mut k: i64 = 0;
    while k < balance
        invariant
            0 <= k,
            balance > 0 ==> k <= balance,
            balance <= 0 ==> k == 0,
            out@ == base + Seq::new(k as nat, |i: int| '}'),
        decreases balance - k,
    {
        out.push('}');
        k = k + 1;
        assert(out@ =~= base + Seq::new(k as nat, |i: int| '}'));
    }
    proof {
        if balance > 0 {
            assert(k == balance);
        } else {
            assert(k == 0);
            assert(out@ =~= base + Seq::new(0, |i: int| '}'));
        }
    }
    string_of(out.as_slice())
}

/// The scanner's state after reading `s` from state `st`.
pub open spec fn scan_over(st: (bool, bool, int), s: Seq<char>) -> (bool, bool, int)
    decreases s.len(),
{
    if s.len() == 0 {
        st
    } else {
        scan_step(scan_over(st, s.drop_last()), s.last())
    }
}

proof fn lemma_scan_concat(a: Seq<char>, b: Seq<char>)
    ensures
        brace_scan(a + b) == scan_over(brace_scan(a), b),
    decreases b.len(),
{
    if b.len() == 0 {
        assert(a + b == a);
    } else {
        lemma_scan_concat(a, b.drop_last());
        assert((a + b).drop_last() == a + b.drop_last());
        assert((a + b).last() == b.last());
    }
}

proof fn lemma_escaped_in_string(s: Seq<char>)
    ensures
        brace_scan(s).1 ==> brace_scan(s).0,
    decreases s.len(),
{
    if s.len() > 0 {
        lemma_escaped_in_string(s.drop_last());
    }
}

proof fn lemma_scan_whitespace(st: (bool, bool, int), w: Seq<char>)
    requires
        forall|i: int| 0 <= i < w.len() ==> crate::text::is_ws(#[trigger] w[i]),
    ensures
        scan_over(st, w) == (if w.len() > 0 && st.1 {
            (st.0, false, st.2)
        } else {
            st
        }),
    decreases w.len(),
{
    if w.len() > 0 {
        lemma_scan_whitespace(st, w.drop_last());
        let c = w.last();
        assert(crate::text::is_ws(w[w.len() - 1]));
        assert(c != '\\' && c != '"' && c != '{' && c != '}');
    }
}

proof fn lemma_close_braces(st: (bool, bool, int), k: nat)
    requires
        !st.0,
        !st.1,
    ensures
        scan_over(st, Seq::new(k, |i: int| '}')) == (false, false, st.2 - k),
    decreases k,
{
    if k > 0 {
        lemma_close_braces(st, (k - 1) as nat);
        assert(Seq::new(k, |i: int| '}').drop_last() == Seq::new((k - 1) as nat, |i: int| '}'));
    }
}

proof fn lemma_lead_in_class(s: Seq<char>, cls: CharClass)
    ensures
        forall|i: int| 0 <= i < crate::text::lead(s, cls) ==> crate::text::in_class(cls, #[trigger] s[i]),
    decreases s.len(),
{
    if s.len() > 0 && crate::text::in_class(cls, s[0]) {
        lemma_lead_in_class(s.drop_first(), cls);
        crate::text::lemma_lead_bound(s.drop_first(), cls);
        assert forall|i: int| 0 <= i < crate::text::lead(s, cls) implies crate::text::in_class(cls, #[trigger] s[i]) by {
            if i > 0 {
                assert(s[i] == s.drop_first()[i - 1]);
            }
        }
    }
}

proof fn lemma_trail_in_class(s: Seq<char>, cls: CharClass)
    ensures
        forall|i: int| s.len() - crate::text::trail(s, cls) <= i < s.len() ==> crate::text::in_class(cls, #[trigger] s[i]),
    decreases s.len(),
{
    if s.len() > 0 && crate::text::in_class(cls, s.last()) {
        lemma_trail_in_class(s.drop_last(), cls);
        crate::text::lemma_trail_bound(s.drop_last(), cls);
        assert forall|i: int| s.len() - crate::text::trail(s, cls) <= i < s.len() implies crate::text::in_class(
            cls,
            #[trigger] s[i],
        ) by {
            if i < s.len() - 1 {
                assert(s[i] == s.drop_last()[i]);
            }
        }
    }
}

/// Closing the open braces leaves none open: when the text does not end
/// inside a string, the balanced text ends outside any string with no brace
/// left open (a surplus of closing braces stays as it was).
pub proof fn law_balanced_closes_braces(text: Seq<char>)
    requires
        !brace_scan(text).0,
    ensures
        brace_scan(balanced(text)) == (false, false, if brace_scan(text).2 > 0 {
            0
        } else {
            brace_scan(text).2
        }),
{
    let ws = CharClass::Whitespace;
    let init: (bool, bool, int) = (false, false, 0);
    let l = crate::text::lead(text, ws);
    crate::text::lemma_lead_bound(text, ws);
    lemma_lead_in_class(text, ws);
    let head = text.take(l as int);
    let u = text.skip(l as int);
    assert(text == head + u);
    assert forall|i: int| 0 <= i < head.len() implies crate::text::is_ws(#[trigger] head[i]) by {
        assert(head[i] == text[i]);
        assert(crate::text::in_class(ws, text[i]));
    }
    lemma_scan_whitespace(init, head);
    assert(brace_scan(Seq::<char>::empty()) == init);
    lemma_scan_concat(Seq::<char>::empty(), head);
    assert(Seq::<char>::empty() + head == head);
    lemma_scan_concat(head, u);
    lemma_scan_concat(Seq::<char>::empty(), u);
    assert(Seq::<char>::empty() + u == u);
    assert(brace_scan(text) == brace_scan(u));
    let tr = crate::text::trail(u, ws);
    crate::text::lemma_trail_bound(u, ws);
    lemma_trail_in_class(u, ws);
    let v = u.take(u.len() - tr);
    let w = u.skip(u.len() - tr);
    assert(u == v + w);
    assert forall|i: int| 0 <= i < w.len() implies crate::text::is_ws(#[trigger] w[i]) by {
        assert(w[i] == u[u.len() - tr + i]);
        assert(crate::text::in_class(ws, u[u.len() - tr + i]));
    }
    lemma_scan_concat(v, w);
    lemma_scan_whitespace(brace_scan(v), w);
    lemma_escaped_in_string(v);
    assert(brace_scan(v) == brace_scan(text));
    assert(v == trim(text, ws));
    let open = brace_scan(text).2;
    let k: nat = if open > 0 {
        open as nat
    } else {
        0
    };
    let closing = Seq::new(k, |i: int| '}');
    assert(balanced(text) == v + closing);
    lemma_scan_concat(v, closing);
    lemma_close_braces(brace_scan(v), k);
}

/// Balancing is done in one pass: a balanced text that does not end inside a
/// string is left as it is when balanced again.
pub proof fn law_balancing_is_stable(text: Seq<char>)
    requires
        !brace_scan(text).0,
    ensures
        balanced(balanced(text)) == balanced(text),
{
    law_balanced_closes_braces(text);
    let ws = CharClass::Whitespace;
    let x = balanced(text);
    let v = trim(text, ws);
    let open = brace_scan(text).2;
    let k: nat = if open > 0 {
        open as nat
    } else {
        0
    };
    let closing = Seq::new(k, |i: int| '}');
    assert(x == v + closing);
    crate::text::lemma_trim_edges(text, ws);
    assert(!crate::text::in_class(ws, '}'));
    if x.len() > 0 {
        if v.len() > 0 {
            assert(x[0] == v[0]);
        } else {
            assert(x[0] == closing[0]);
        }
        if k > 0 {
            assert(x.last() == closing[k - 1]);
        } else {
            assert(x.last() == v.last());
        }
    }
    crate::text::lemma_trim_fixed(x, ws);
    assert(Seq::new(0, |i: int| '}') =~= Seq::<char>::empty());
    assert(balanced(x) =~= x);
}

/// The texts tried, in order, as the agent's JSON: the trimmed output; its JSON
/// object (or the trimmed output when it has none); that with its open braces
/// closed.
pub open spec fn json_candidates(output: Seq<char>) -> Seq<Seq<char>> {
    let t = trim(output, CharClass::Whitespace);
    let c = match json_object(t) {
        Some(o) => o,
        None => t,
    };
    seq![t, c, balanced(c)]
}

/// The texts to try, in order, as the agent's JSON (see `json_candidates`).
pub fn agent_json_candidates(output: &str) -> (r: Vec<String>)
    requires
        output@.len() <= i64::MAX,
    ensures
        crate::text::string_views(r@) == json_candidates(output@),
{
    let t = trim_str(output, CharClass::Whitespace);
    proof {
        crate::text::lemma_lead_bound(output@, CharClass::Whitespace);
    }
    let c = match extract_json_object(t.as_str()) {
        Some(o) => o,
        None => t.clone(),
    };
    proof {
        crate::text::lemma_trail_bound(crate::text::trim_start(output@, CharClass::Whitespace), CharClass::Whitespace);
        assert(t@.len() <= output@.len());
        match json_object(t@) {
            Some(o) => {
                crate::text::lemma_find_match(t@, seq!['{']);
                assert(c@.len() <= t@.len());
            },
            None => {},
        }
    }
    let b = balance_json_braces(c.as_str());
    let r = vec![t, c, b];
    assert(crate::text::string_views(r@) =~= json_candidates(output@));
    r
}

/// The agent's answer as its JSON gives it: a mode, a text, and maybe a tool.
#[derive(Debug)]
pub struct AgentJson {
    pub mode: String,
    pub text: String,
    pub tool: Option<ToolCall>,
}

/// The first value that is there.
pub open spec fn first_some<A>(s: Seq<Option<A>>) -> Option<A>
    decreases s.len(),
{
    if s.len() == 0 {
        None
    } else if s[0] is Some {
        s[0]
    } else {
        first_some(s.drop_first())
    }
}

/// The first candidate that parsed, given each candidate's parse in order.
pub fn first_parsed(parses: Vec<Option<AgentJson>>) -> (r: Option<AgentJson>)
    ensures
        r == first_some(parses@),
{
    let ghost all = parses@;
    let mut rest = parses;
    let mut r: Option<AgentJson> = None;
    while rest.len() > 0
        invariant
            rest@ == all.take(rest@.len() as int),
            rest@.len() <= all.len(),
            r == first_some(all.skip(rest@.len() as int)),
        decreases rest@.len(),
    {
        let k = rest.len() - 1;
        let x = rest.pop().unwrap();
        proof {
            assert(all.skip(k as int).drop_first() == all.skip(k + 1));
            assert(all.skip(k as int)[0] == all[k as int]);
            assert(rest@ == all.take(k as int));
        }
        if x.is_some() {
            r = x;
        }
    }
    assert(all.skip(0) == all);
    r
}

/// The output mode a JSON mode names: `speak`, `insert` or `tool`, after
/// trimming and lower-casing.
pub open spec fn mode_of(m: Seq<char>) -> Option<AgentOutputMode> {
    let l = lower(trim(m, CharClass::Whitespace));
    if l == "speak"@ {
        Some(AgentOutputMode::Speak)
    } else if l == "insert"@ {
        Some(AgentOutputMode::Insert)
    } else if l == "tool"@ {
        Some(AgentOutputMode::Tool)
    } else {
        None
    }
}

/// Reading a mode's own label gives the mode back, and labels are read
/// ignoring case and surrounding space.
pub proof fn law_mode_labels_read_back(mode: AgentOutputMode, pad: Seq<char>)
    requires
        forall|i: int| 0 <= i < pad.len() ==> crate::text::is_ws(#[trigger] pad[i]),
    ensures
        mode_of(crate::agent_runtime::mode_text(mode)) == Some(mode),
        mode_of(pad + crate::agent_runtime::mode_text(mode) + pad) == Some(mode),
{
    reveal_strlit("speak");
    reveal_strlit("insert");
    reveal_strlit("tool");
    let t = crate::agent_runtime::mode_text(mode);
    assert(!crate::text::is_ws(t[0]) && !crate::text::is_ws(t.last()));
    crate::text::lemma_trim_fixed(t, CharClass::Whitespace);
    assert(lower(t) =~= t);
    let u = pad + t + pad;
    let ws = CharClass::Whitespace;
    crate::text::lemma_lead_before(u, ws, pad.len() as int);
    crate::text::lemma_trail_after(u, ws, pad.len() + t.len() - 1);
    lemma_lead_in_class(u, ws);
    lemma_trail_in_class(u, ws);
    let l = crate::text::lead(u, ws);
    assert(l == pad.len()) by {
        if l < pad.len() {
            crate::text::lemma_lead_stops(u, ws);
            assert(u[l as int] == pad[l as int]);
        }
    }
    let y = u.skip(l as int);
    crate::text::lemma_trail_bound(y, ws);
    let tr = crate::text::trail(y, ws);
    crate::text::lemma_trail_stops(y, ws);
    crate::text::lemma_trail_after(y, ws, t.len() - 1);
    assert(y[t.len() - 1] == t.last());
    assert(tr == pad.len()) by {
        if tr < pad.len() {
            assert(y[y.len() - 1 - tr] == pad[pad.len() - 1 - tr]);
        }
    }
    assert(trim(u, ws) =~= t);
}

/// The error, if any, that an agent JSON answer is refused with: empty text,
/// an unknown mode, or tool mode without a tool.
pub open spec fn answer_error(parsed: AgentJson) -> Option<AgentError> {
    if trim(parsed.text@, CharClass::Whitespace).len() == 0 {
        Some(AgentError::EmptyText)
    } else {
        match mode_of(parsed.mode@) {
            None => Some(AgentError::UnsupportedMode(arbitrary())),
            Some(m) => if m == AgentOutputMode::Tool && parsed.tool is None {
                Some(AgentError::ToolModeWithoutTool)
            } else {
                None
            },
        }
    }
}

/// Turns the agent's JSON answer into its result. `parsed` is the first
/// candidate of `agent_json_candidates(output)` that parsed, if any.
pub fn parse_agent_result(output: &str, parsed: Option<AgentJson>) -> (r: Result<AgentResult, AgentError>)
    ensures
        match parsed {
            None => r matches Err(AgentError::InvalidJson(o)) && o@ == output@,
            Some(p) => {
                &&& trim(p.text@, CharClass::Whitespace).len() == 0 ==> (r matches Err(AgentError::EmptyText))
                &&& trim(p.text@, CharClass::Whitespace).len() > 0 && mode_of(p.mode@) is None ==> (r matches Err(
                    AgentError::UnsupportedMode(m),
                ) && m@ == lower(trim(p.mode@, CharClass::Whitespace)))
                &&& trim(p.text@, CharClass::Whitespace).len() > 0 && mode_of(p.mode@) == Some(
                    AgentOutputMode::Tool,
                ) && p.tool is None ==> (r matches Err(AgentError::ToolModeWithoutTool))
                &&& answer_error(p) is None ==> (r matches Ok(res) && Some(res.mode) == mode_of(p.mode@)
                    && res.text@ == trim(p.text@, CharClass::Whitespace) && match (res.tool_call, p.tool) {
                    (Some(a), Some(b)) => same_call(a, b),
                    (None, None) => true,
                    _ => false,
                })
            },
        },
{
    let p = match parsed {
        Some(p) => p,
        None => {
            return Err(AgentError::InvalidJson(owned(output)));
        },
    };
    let text = trim_str(p.text.as_str(), CharClass::Whitespace);
    if text.as_str().unicode_len() == 0 {
        return Err(AgentError::EmptyText);
    }
    let m0 = trim_str(p.mode.as_str(), CharClass::Whitespace);
    let m = lower_str(m0.as_str());
    proof {
        reveal_strlit("speak");
        reveal_strlit("insert");
        reveal_strlit("tool");
    }
    let mode = if str_eq(m.as_str(), "speak") {
        AgentOutputMode::Speak
    } else if str_eq(m.as_str(), "insert") {
        AgentOutputMode::Insert
    } else if str_eq(m.as_str(), "tool") {
        AgentOutputMode::Tool
    } else {
        return Err(AgentError::UnsupportedMode(m));
    };
    if mode == AgentOutputMode::Tool && p.tool.is_none() {
        return Err(AgentError::ToolModeWithoutTool);
    }
    Ok(AgentResult { mode, text, tool_call: p.tool })
}

/// The instructions of the request that repairs a malformed answer.
pub const REPAIR_INSTRUCTIONS: &'static str = "Repair the output into valid compact JSON only. No markdown fences. No explanation.";

/// The input of the repair request: the bad output, the original context, and
/// the schema the answer must follow.
pub open spec fn repair_text(output: Seq<char>, context: Seq<char>) -> Seq<char> {
    "The previous model output was not valid agent JSON.\n\nPrevious output:\n"@ + output
        + "\n\nOriginal request context:\n"@ + context
        + "\n\nReturn only one compact valid JSON object with this schema: {\"mode\":\"speak\"|\"insert\"|\"tool\",\"text\":\"...\",\"tool\":{\"name\":\"...\",\"args\":{}}}. For speak or insert, omit tool or set it to null."@
}

/// The context the agent is given for a request.
pub open spec fn request_context(request: AgentRequest<'_>) -> Seq<char> {
    context_text(
        request.command@,
        match request.selected_text {
            Some(s) => Some(s@),
            None => None,
        },
        request.target_app@,
        request.history@,
        match request.workspace_context {
            Some(w) => Some(w@),
            None => None,
        },
    )
}

/// The call that asks the agent about a request: refused unless the agent is on
/// with provider OpenAI; then the Responses API call with the agent's
/// instructions and the request's context. `env_key` is `OPENAI_API_KEY`.
pub fn agent_call(config: &AgentConfig, env_key: Option<String>, request: AgentRequest<'_>) -> (r: Result<
    ModelCall,
    AgentError,
>)
    ensures
        !config.enabled ==> r matches Err(AgentError::Disabled),
        config.enabled && config.provider@ != "openai"@ ==> (r matches Err(AgentError::UnsupportedProvider(p)) && p@
            == config.provider@),
        provider_ok(*config) && api_key_of(*config, crate::todoist::opt_view(env_key)) is None ==> r matches Err(
            AgentError::MissingApiKey,
        ),
        provider_ok(*config) ==> match api_key_of(*config, crate::todoist::opt_view(env_key)) {
            Some(k) => r matches Ok(c) && c.url@ == responses_url(config.base_url@) && c.api_key@ == k
                && c.body@ == responses_body(config.model@, AGENT_INSTRUCTIONS@, request_context(request)),
            None => true,
        },
{
    ensure_openai_provider(config)?;
    let context = agent_context(request);
    responses_call(config, env_key, AGENT_INSTRUCTIONS, context.as_str())
}

/// What follows the agent's first answer.
#[derive(Debug)]
pub enum AgentStep {
    /// The answer was usable.
    Done(AgentResult),
    /// Ask for a repair with this input; the first answer's error message.
    Repair(String, String),
}

/// Whether a parsed answer can be used: it parsed, and `answer_error` finds
/// nothing wrong with it.
pub open spec fn usable(parsed: Option<AgentJson>) -> bool {
    parsed matches Some(p) && answer_error(p) is None
}

/// `res` is what the parsed answer `p` says: its mode, its trimmed text and
/// its tool call.
pub open spec fn reads_as(res: AgentResult, p: AgentJson) -> bool {
    &&& Some(res.mode) == mode_of(p.mode@)
    &&& res.text@ == trim(p.text@, CharClass::Whitespace)
    &&& match (res.tool_call, p.tool) {
        (Some(a), Some(b)) => same_call(a, b),
        (None, None) => true,
        _ => false,
    }
}

/// The first step of asking the agent: a usable answer is the result; any
/// other asks for a repair that quotes the output and the request.
pub open spec fn first_step(request: AgentRequest<'_>, output: Seq<char>, parsed: Option<AgentJson>, r: AgentStep) -> bool {
    &&& usable(parsed) ==> (r matches AgentStep::Done(res) && reads_as(res, parsed.unwrap()))
    &&& !usable(parsed) ==> (r matches AgentStep::Repair(input, _) && input@ == repair_text(
        output,
        request_context(request),
    ))
}

/// The repair step: a usable repaired answer is the result; any other fails
/// with the first error's message and the repaired output.
pub open spec fn repair_step(first_error: Seq<char>, repaired: Seq<char>, parsed: Option<AgentJson>, r: Result<AgentResult, AgentError>) -> bool {
    &&& usable(parsed) ==> (r matches Ok(res) && reads_as(res, parsed.unwrap()))
    &&& !usable(parsed) ==> (r matches Err(AgentError::RepairFailed(f, o)) && f@ == first_error && o@ == repaired)
}

/// Asking the agent takes one request when its first output is usable, and
/// that output is the answer. Otherwise a second request quotes the first
/// output (after the fixed opening), and the turn succeeds exactly when the
/// repaired output is usable, with that output as the answer.
pub proof fn law_repair_protocol(
    request: AgentRequest<'_>,
    out1: Seq<char>,
    parsed1: Option<AgentJson>,
    step: AgentStep,
    out2: Seq<char>,
    parsed2: Option<AgentJson>,
    r2: Result<AgentResult, AgentError>,
)
    requires
        first_step(request, out1, parsed1, step),
        step matches AgentStep::Repair(_, first) ==> repair_step(first@, out2, parsed2, r2),
    ensures
        usable(parsed1) ==> (step matches AgentStep::Done(res) && reads_as(res, parsed1.unwrap())),
        !usable(parsed1) ==> (step matches AgentStep::Repair(input, _) && input@.subrange(
            "The previous model output was not valid agent JSON.\n\nPrevious output:\n"@.len() as int,
            ("The previous model output was not valid agent JSON.\n\nPrevious output:\n"@.len() + out1.len()) as int,
        ) == out1),
        !usable(parsed1) ==> (r2 is Ok <==> usable(parsed2)),
        !usable(parsed1) && usable(parsed2) ==> (r2 matches Ok(res) && reads_as(res, parsed2.unwrap())),
{
    if !usable(parsed1) {
        let pre = "The previous model output was not valid agent JSON.\n\nPrevious output:\n"@;
        let input = repair_text(out1, request_context(request));
        assert(input.subrange(pre.len() as int, (pre.len() + out1.len()) as int) =~= out1);
    }
}

/// Reads the agent's first answer; when it is unusable, the repair request's
/// input and the error's message. `parsed` is the first candidate of
/// `agent_json_candidates(output)` that parsed.
pub fn after_agent_output(request: AgentRequest<'_>, output: &str, parsed: Option<AgentJson>) -> (r: AgentStep)
    ensures
        first_step(request, output@, parsed, r),
        match parsed {
            None => r matches AgentStep::Repair(input, _) && input@ == repair_text(output@, request_context(request)),
            Some(p) => {
                &&& answer_error(p) is None ==> (r matches AgentStep::Done(res) && Some(res.mode) == mode_of(p.mode@)
                    && res.text@ == trim(p.text@, CharClass::Whitespace) && match (res.tool_call, p.tool) {
                    (Some(a), Some(b)) => same_call(a, b),
                    (None, None) => true,
                    _ => false,
                })
                &&& answer_error(p) is Some ==> (r matches AgentStep::Repair(input, _) && input@ == repair_text(
                    output@,
                    request_context(request),
                ))
            },
        },
{
    match parse_agent_result(output, parsed) {
        Ok(res) => AgentStep::Done(res),
        Err(e) => {
            let context = agent_context(request);
            let mut input = String::from_str(
                "The previous model output was not valid agent JSON.\n\nPrevious output:\n",
            );
            input.append(output);
            input.append("\n\nOriginal request context:\n");
            input.append(context.as_str());
            input.append(
                "\n\nReturn only one compact valid JSON object with this schema: {\"mode\":\"speak\"|\"insert\"|\"tool\",\"text\":\"...\",\"tool\":{\"name\":\"...\",\"args\":{}}}. For speak or insert, omit tool or set it to null.",
            );
            AgentStep::Repair(input, e.message())
        },
    }
}

/// The repair request for a malformed answer.
pub fn repair_call(config: &AgentConfig, env_key: Option<String>, input: &str) -> (r: Result<ModelCall, AgentError>)
    ensures
        api_key_of(*config, crate::todoist::opt_view(env_key)) is None ==> r matches Err(
            AgentError::MissingApiKey,
        ),
        api_key_of(*config, crate::todoist::opt_view(env_key)) matches Some(k) ==> (r matches Ok(c)
            && c.url@ == responses_url(config.base_url@) && c.api_key@ == k
            && c.body@ == responses_body(config.model@, REPAIR_INSTRUCTIONS@, input@)),
{
    responses_call(config, env_key, REPAIR_INSTRUCTIONS, input)
}

/// Reads the repaired answer: its result, or the repair failure carrying the
/// first error's message and the repaired output.
pub fn after_repair_output(first_error: String, repaired: &str, parsed: Option<AgentJson>) -> (r: Result<
    AgentResult,
    AgentError,
>)
    ensures
        repair_step(first_error@, repaired@, parsed, r),
        match parsed {
            None => r matches Err(AgentError::RepairFailed(f, o)) && f@ == first_error@ && o@ == repaired@,
            Some(p) => {
                &&& answer_error(p) is None ==> (r matches Ok(res) && Some(res.mode) == mode_of(p.mode@)
                    && res.text@ == trim(p.text@, CharClass::Whitespace) && match (res.tool_call, p.tool) {
                    (Some(a), Some(b)) => same_call(a, b),
                    (None, None) => true,
                    _ => false,
                })
                &&& answer_error(p) is Some ==> (r matches Err(AgentError::RepairFailed(f, o)) && f@
                    == first_error@ && o@ == repaired@)
            },
        },
{
    match parse_agent_result(repaired, parsed) {
        Ok(res) => Ok(res),
        Err(_) => Err(AgentError::RepairFailed(first_error, owned(repaired))),
    }
}

/// Drafts a workspace note's content: refused unless the agent is on with
/// provider OpenAI; then the Responses API call with the drafting
/// instructions and the note's context, whose answer text is the draft.
pub fn draft_workspace_note(
    config: &AgentConfig,
    env_key: Option<String>,
    command: &str,
    path: &str,
    history: &[AgentSessionTurn],
) -> (r: Result<ModelCall, AgentError>)
    ensures
        !config.enabled ==> r matches Err(AgentError::Disabled),
        config.enabled && config.provider@ != "openai"@ ==> (r matches Err(AgentError::UnsupportedProvider(p)) && p@
            == config.provider@),
        provider_ok(*config) && api_key_of(*config, crate::todoist::opt_view(env_key)) is None ==> r matches Err(
            AgentError::MissingApiKey,
        ),
        provider_ok(*config) ==> match api_key_of(*config, crate::todoist::opt_view(env_key)) {
            Some(k) => r matches Ok(c) && c.url@ == responses_url(config.base_url@) && c.api_key@ == k
                && c.body@ == responses_body(
                config.model@,
                NOTE_DRAFT_INSTRUCTIONS@,
                "Recent conversation:\n"@ + crate::agent_memory::history_text(history@) + "\n\nTarget file: "@
                    + path@ + "\nUser request:\n"@ + command@,
            ),
            None => true,
        },
{
    ensure_openai_provider(config)?;
    let context = note_draft_context(command, path, history);
    responses_call(config, env_key, NOTE_DRAFT_INSTRUCTIONS, context.as_str())
}

/// The voice the speech is asked to have.
pub const TTS_INSTRUCTIONS: &'static str = "Natural, clear assistant voice. Keep a calm, helpful tone.";

/// The speech API address for a base URL.
pub open spec fn speech_url(base: Seq<char>) -> Seq<char> {
    trim_end(base, CharClass::Slash) + "/audio/speech"@
}

/// The body of a speech call.
pub open spec fn speech_body(config: AgentConfig, text: Seq<char>) -> JsonV {
    JsonV::Object(
        seq![
            ("model"@, JsonV::Str(config.tts_model@)),
            ("voice"@, JsonV::Str(config.tts_voice@)),
            ("input"@, JsonV::Str(text)),
            ("instructions"@, JsonV::Str(TTS_INSTRUCTIONS@)),
            ("response_format"@, JsonV::Str("pcm"@)),
        ],
    )
}

/// The call that speaks an answer aloud: none when the agent is off, spoken
/// answers are off, or the text is blank; refused for another provider or
/// without a key; else the speech API call asking for raw PCM.
pub fn speech_call(config: &AgentConfig, env_key: Option<String>, text: &str) -> (r: Result<
    Option<ModelCall>,
    AgentError,
>)
    ensures
        !config.enabled || !config.speak_responses || trim(text@, CharClass::Whitespace).len() == 0 ==> r
            matches Ok(None),
        config.enabled && config.speak_responses && trim(text@, CharClass::Whitespace).len() > 0 ==> {
            &&& config.provider@ != "openai"@ ==> (r matches Err(AgentError::UnsupportedProvider(p)) && p@
                == config.provider@)
            &&& config.provider@ == "openai"@ ==> match api_key_of(
                *config,
                crate::todoist::opt_view(env_key),
            ) {
                None => (r matches Err(AgentError::MissingTtsKey)),
                Some(k) => (r matches Ok(Some(c)) && c.url@ == speech_url(config.base_url@) && c.api_key@
                    == k && c.body@ == speech_body(*config, text@)),
            }
        },
{
    let t = trim_str(text, CharClass::Whitespace);
    if !config.enabled || !config.speak_responses || t.as_str().unicode_len() == 0 {
        return Ok(None);
    }
    ensure_openai_provider(config)?;
    let key = match openai_api_key(config, env_key) {
        Some(k) => k,
        None => {
            return Err(AgentError::MissingTtsKey);
        },
    };
    let b = chars_of(config.base_url.as_str());
    let base = trim_end_chars(b.as_slice(), CharClass::Slash);
    let bs = string_of(base.as_slice());
    let url = crate::text::concat2(bs.as_str(), "/audio/speech");
    let body = Json::Object(
        vec![
            entry("model", jstr(config.tts_model.as_str())),
            entry("voice", jstr(config.tts_voice.as_str())),
            entry("input", jstr(text)),
            entry("instructions", jstr(TTS_INSTRUCTIONS)),
            entry("response_format", jstr("pcm")),
        ],
    );
    proof {
        let es = match body@ {
            JsonV::Object(e) => e,
            _ => Seq::empty(),
        };
        assert(es =~= seq![
            ("model"@, JsonV::Str(config.tts_model@)),
            ("voice"@, JsonV::Str(config.tts_voice@)),
            ("input"@, JsonV::Str(text@)),
            ("instructions"@, JsonV::Str(TTS_INSTRUCTIONS@)),
            ("response_format"@, JsonV::Str("pcm"@)),
        ]);
    }
    Ok(Some(ModelCall { url, api_key: key, body }))
}

/// The signed 16-bit sample two little-endian bytes make.
pub open spec fn le_sample(lo: u8, hi: u8) -> int {
    let u = lo + 256 * hi;
    if u >= 32768 {
        u - 65536
    } else {
        u
    }
}

/// The 16-bit little-endian samples of raw PCM audio, pair by pair (a last odd
/// byte is dropped); refused when there is not one whole sample.
pub fn pcm_samples(bytes: &[u8]) -> (r: Result<Vec<i16>, AgentError>)
    ensures
        bytes@.len() < 2 ==> r matches Err(AgentError::EmptyAudio),
        bytes@.len() >= 2 ==> (r matches Ok(s) && s@.len() == bytes@.len() / 2 && forall|i: int|
            0 <= i < s@.len() ==> #[trigger] s@[i] as int == le_sample(bytes@[2 * i], bytes@[2 * i + 1])),
{
    if bytes.len() < 2 {
        return Err(AgentError::EmptyAudio);
    }
    let len = bytes.len();
    let n = len / 2;
    let mut s: Vec<i16> = Vec::new();
    for i in 0..n
        invariant
            len == bytes@.len(),
            n == len / 2,
            s@.len() == i,
            forall|j: int| 0 <= j < i ==> #[trigger] s@[j] as int == le_sample(bytes@[2 * j], bytes@[2 * j + 1]),
    {
        assert(2 * i + 1 < bytes@.len());
        let lo = bytes[2 * i] as i32;
        let hi = bytes[2 * i + 1] as i32;
        let u: i32 = lo + 256 * hi;
        let v: i32 = if u >= 32768 {
            u - 65536
        } else {
            u
        };
        s.push(v as i16);
    }
    Ok(s)
}

} // verus!
