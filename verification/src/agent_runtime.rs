use vstd::prelude::*;

use crate::agent_memory::{append_turns, is_turn, recent, session_limit, with_tool_result};
use crate::agent_provider::AgentError;
use crate::agent_tools::{
    coerce_workspace_note_write, note_args, note_write_path, opt_views, workspace_confirmation,
};
use crate::agent_types::{AgentOutputMode, AgentResult, AgentSessionTurn, ToolCall};
use crate::config::Config;
use crate::json::{entry, jstr, Json, JsonV};
use crate::todoist::{required_arg, TodoistTaskRef, TodoistToolResult};
use crate::tool_error::ToolError;
use crate::workspace::WorkspaceToolResult;
use crate::text::{
    chars_of, contains, contains_chars, find, find_chars, join, join_chars, lower, lower_chars,
    slice_chars, starts_with, starts_with_chars, string_of, trim, trim_chars, words, words_chars,
    eq_chars, opt_nat, CharClass,
};

verus! {

/// The label of an output mode, as the history records it.
pub open spec fn mode_text(mode: AgentOutputMode) -> Seq<char> {
    match mode {
        AgentOutputMode::Insert => "insert"@,
        AgentOutputMode::Speak => "speak"@,
        AgentOutputMode::Tool => "tool"@,
    }
}

/// The label of an output mode: `insert`, `speak` or `tool`.
pub fn mode_label(mode: AgentOutputMode) -> (r: &'static str)
    ensures
        r@ == mode_text(mode),
{
    match mode {
        AgentOutputMode::Insert => "insert",
        AgentOutputMode::Speak => "speak",
        AgentOutputMode::Tool => "tool",
    }
}

/// A reply to a pending confirmation, reduced to lower-case words: trimmed,
/// lower-cased, stripped of punctuation at both ends, split at punctuation and
/// whitespace, joined by single spaces, and without a leading `agent`.
pub open spec fn normalized_answer(command: Seq<char>) -> Seq<char> {
    let text = trim(lower(trim(command, CharClass::Whitespace)), CharClass::PunctOrSpace);
    let w = join(words(text, CharClass::PunctOrSpace), " "@);
    if starts_with(w, "agent "@) {
        trim(w.skip("agent "@.len() as int), CharClass::Whitespace)
    } else if w == "agent"@ {
        Seq::empty()
    } else {
        w
    }
}

/// Reduces a reply to a pending confirmation to lower-case words.
pub fn normalize_confirmation(command: &str) -> (r: String)
    ensures
        r@ == normalized_answer(command@),
{
    let v = chars_of(command);
    let t1 = trim_chars(v.as_slice(), CharClass::Whitespace);
    let l = lower_chars(t1.as_slice());
    let text = trim_chars(l.as_slice(), CharClass::PunctOrSpace);
    let ws = words_chars(text.as_slice(), CharClass::PunctOrSpace);
    let sp = chars_of(" ");
    let w = join_chars(&ws, sp.as_slice());
    let agent_sp = chars_of("agent ");
    let agent = chars_of("agent");
    if starts_with_chars(w.as_slice(), agent_sp.as_slice()) {
        let rest = slice_chars(w.as_slice(), agent_sp.len(), w.len());
        assert(rest@ == w@.skip(agent_sp@.len() as int));
        let t = trim_chars(rest.as_slice(), CharClass::Whitespace);
        string_of(t.as_slice())
    } else if eq_chars(w.as_slice(), agent.as_slice()) {
        String::new()
    } else {
        string_of(w.as_slice())
    }
}

/// The replies that answer a pending confirmation.
pub open spec fn is_answer(a: Seq<char>) -> bool {
    ||| a == "yes"@
    ||| a == "yes please"@
    ||| a == "yeah"@
    ||| a == "yep"@
    ||| a == "confirm"@
    ||| a == "do it"@
    ||| a == "go ahead"@
    ||| a == "please do it"@
    ||| is_refusal(a)
}

/// The replies that decline a pending confirmation.
pub open spec fn is_refusal(a: Seq<char>) -> bool {
    a == "no"@ || a == "nope"@ || a == "cancel"@
}

/// The affirmative replies: each answers a pending confirmation and is no
/// refusal, so the held call is handed out to run; and "no", "nope" and
/// "cancel" answer it as a refusal. Nothing else answers.
pub proof fn law_confirmation_words(a: Seq<char>)
    ensures
        (a == "yes"@ || a == "yes please"@ || a == "yeah"@ || a == "yep"@ || a == "confirm"@ || a == "do it"@
            || a == "go ahead"@ || a == "please do it"@) ==> is_answer(a) && !is_refusal(a),
        (a == "no"@ || a == "nope"@ || a == "cancel"@) ==> is_answer(a) && is_refusal(a),
        is_answer(a) ==> (a == "yes"@ || a == "yes please"@ || a == "yeah"@ || a == "yep"@ || a == "confirm"@
            || a == "do it"@ || a == "go ahead"@ || a == "please do it"@ || a == "no"@ || a == "nope"@ || a
            == "cancel"@),
{
    reveal_strlit("yes");
    reveal_strlit("yes please");
    reveal_strlit("yeah");
    reveal_strlit("yep");
    reveal_strlit("confirm");
    reveal_strlit("do it");
    reveal_strlit("go ahead");
    reveal_strlit("please do it");
    reveal_strlit("no");
    reveal_strlit("nope");
    reveal_strlit("cancel");
    if a == "yeah"@ || a == "yes please"@ || a == "confirm"@ || a == "go ahead"@ || a == "please do it"@ {
        assert(a.len() != 2 && a.len() != 4 && a.len() != 6 || a[0] != 'n' && a[0] != 'c');
    }
    if a == "yep"@ || a == "yes"@ || a == "do it"@ {
        assert(a[0] != 'n' && a[0] != 'c');
    }
}

/// Whether a normalized reply answers a pending confirmation, yes or no.
pub fn is_confirmation_answer(answer: &str) -> (r: bool)
    ensures
        r == is_answer(answer@),
{
    let a = chars_of(answer);
    let s = a.as_slice();
    eq_chars(s, chars_of("yes").as_slice()) || eq_chars(s, chars_of("yes please").as_slice())
        || eq_chars(s, chars_of("yeah").as_slice()) || eq_chars(s, chars_of("yep").as_slice())
        || eq_chars(s, chars_of("confirm").as_slice()) || eq_chars(s, chars_of("do it").as_slice())
        || eq_chars(s, chars_of("go ahead").as_slice()) || eq_chars(
        s,
        chars_of("please do it").as_slice(),
    ) || is_negative_confirmation(answer)
}

/// Whether a normalized reply declines a pending confirmation.
pub fn is_negative_confirmation(answer: &str) -> (r: bool)
    ensures
        r == is_refusal(answer@),
{
    let a = chars_of(answer);
    let s = a.as_slice();
    eq_chars(s, chars_of("no").as_slice()) || eq_chars(s, chars_of("nope").as_slice()) || eq_chars(
        s,
        chars_of("cancel").as_slice(),
    )
}

/// Every refusal is an answer: "no" never leaves a confirmation pending.
pub proof fn law_refusal_is_answer(a: Seq<char>)
    ensures
        is_refusal(a) ==> is_answer(a),
{
}


/// `text` trimmed, without a leading `word` (compared without regard to ASCII
/// case, and followed by a space); empty when the text is only that word.
pub open spec fn strip_word(text: Seq<char>, word: Seq<char>) -> Seq<char> {
    let t = trim(text, CharClass::Whitespace);
    let l = lower(t);
    if l == word {
        Seq::empty()
    } else if starts_with(l, word + " "@) {
        trim(t.skip(word.len() as int + 1), CharClass::Whitespace)
    } else {
        t
    }
}

fn strip_word_chars(text: &[char], word: &[char]) -> (r: Vec<char>)
    ensures
        r@ == strip_word(text@, word@),
{
    let t = trim_chars(text, CharClass::Whitespace);
    let l = lower_chars(t.as_slice());
    let mut ws: Vec<char> = slice_chars(word, 0, word.len());
    let sp = chars_of(" ");
    crate::text::append_chars(&mut ws, sp.as_slice());
    assert(word@.subrange(0, word@.len() as int) == word@);
    proof {
        reveal_strlit(" ");
    }
    assert(ws@.len() == word@.len() + 1);
    if eq_chars(l.as_slice(), word) {
        Vec::new()
    } else if starts_with_chars(l.as_slice(), ws.as_slice()) {
        assert(lower(t@).len() == t@.len());
        assert(ws@.len() <= l@.len());
        let tl = t.len();
        let wl = word.len();
        assert(wl + 1 <= tl);
        let rest = slice_chars(t.as_slice(), wl + 1, tl);
        assert(rest@ == t@.skip(word@.len() as int + 1));
        trim_chars(rest.as_slice(), CharClass::Whitespace)
    } else {
        t
    }
}

/// The text trimmed, without `word` and the space after it at its start
/// (ASCII case aside); empty when the text is just that word.
pub fn strip_leading_word(text: String, word: &str) -> (r: String)
    ensures
        r@ == strip_word(text@, word@),
{
    let v = chars_of(text.as_str());
    let w = chars_of(word);
    let r = strip_word_chars(v.as_slice(), w.as_slice());
    string_of(r.as_slice())
}

/// The earlier of two positions, either of which may be absent.
pub open spec fn min_pos(a: Option<nat>, b: Option<nat>) -> Option<nat> {
    match (a, b) {
        (Some(x), Some(y)) => Some(if x <= y { x } else { y }),
        (Some(x), None) => Some(x),
        (None, y) => y,
    }
}

/// Where a due date starts in a (lower-cased) task text: the earliest of the
/// date words, each with the space before it.
pub open spec fn due_start(l: Seq<char>) -> Option<nat> {
    min_pos(
        find(l, " tomorrow"@),
        min_pos(
            find(l, " today"@),
            min_pos(
                find(l, " tonight"@),
                min_pos(
                    find(l, " next "@),
                    min_pos(
                        find(l, " on monday"@),
                        min_pos(
                            find(l, " on tuesday"@),
                            min_pos(
                                find(l, " on wednesday"@),
                                min_pos(
                                    find(l, " on thursday"@),
                                    min_pos(
                                        find(l, " on friday"@),
                                        min_pos(find(l, " on saturday"@), find(l, " on sunday"@)),
                                    ),
                                ),
                            ),
                        ),
                    ),
                ),
            ),
        ),
    )
}

/// A task text split at its due date: the content before it and the due
/// words from it on (absent when empty), both trimmed.
pub open spec fn due_split(text: Seq<char>) -> (Seq<char>, Option<Seq<char>>) {
    match due_start(lower(text)) {
        Some(p) => {
            let due = trim(text.skip(p as int), CharClass::Whitespace);
            (
                trim(text.take(p as int), CharClass::Whitespace),
                if due.len() == 0 {
                    None
                } else {
                    Some(due)
                },
            )
        },
        None => (trim(text, CharClass::Whitespace), None),
    }
}

/// The date words a due date starts with, each with the space before it.
pub open spec fn due_markers() -> Seq<Seq<char>> {
    seq![
        " tomorrow"@,
        " today"@,
        " tonight"@,
        " next "@,
        " on monday"@,
        " on tuesday"@,
        " on wednesday"@,
        " on thursday"@,
        " on friday"@,
        " on saturday"@,
        " on sunday"@,
    ]
}

proof fn lemma_min_pos_bound(a: Option<nat>, b: Option<nat>)
    ensures
        a matches Some(x) ==> (min_pos(a, b) matches Some(q) && q <= x),
        b matches Some(y) ==> (min_pos(a, b) matches Some(q) && q <= y),
        min_pos(a, b) matches Some(q) ==> (a == Some(q) || b == Some(q)),
{
}

/// A due date is cut at the first date word: whenever the lower-cased text
/// holds one of the date words, a cut is found no later than it; and every
/// cut is at an occurrence of a date word.
pub proof fn law_due_date_cut(l: Seq<char>)
    ensures
        forall|k: int|
            0 <= k < due_markers().len() ==> (#[trigger] find(l, due_markers()[k]) matches Some(p) ==> (due_start(l) matches Some(
                q,
            ) && q <= p)),
        due_start(l) matches Some(q) ==> exists|k: int|
            0 <= k < due_markers().len() && #[trigger] crate::text::match_at(l, due_markers()[k], q as int),
{
    let m = due_markers();
    let f = |k: int| find(l, m[k]);
    let t10 = min_pos(f(9), f(10));
    let t9 = min_pos(f(8), t10);
    let t8 = min_pos(f(7), t9);
    let t7 = min_pos(f(6), t8);
    let t6 = min_pos(f(5), t7);
    let t5 = min_pos(f(4), t6);
    let t4 = min_pos(f(3), t5);
    let t3 = min_pos(f(2), t4);
    let t2 = min_pos(f(1), t3);
    let t1 = min_pos(f(0), t2);
    assert(due_start(l) == t1);
    lemma_min_pos_bound(f(9), f(10));
    lemma_min_pos_bound(f(8), t10);
    lemma_min_pos_bound(f(7), t9);
    lemma_min_pos_bound(f(6), t8);
    lemma_min_pos_bound(f(5), t7);
    lemma_min_pos_bound(f(4), t6);
    lemma_min_pos_bound(f(3), t5);
    lemma_min_pos_bound(f(2), t4);
    lemma_min_pos_bound(f(1), t3);
    lemma_min_pos_bound(f(0), t2);
    assert forall|k: int| 0 <= k < m.len() implies (#[trigger] find(l, m[k]) matches Some(p) ==> (due_start(l) matches Some(
        q,
    ) && q <= p)) by {
        assert(find(l, m[k]) == f(k));
    }
    if due_start(l) is Some {
        let q = due_start(l).unwrap();
        assert(exists|k: int| 0 <= k < 11 && #[trigger] find(l, m[k]) == Some(q)) by {
            assert(f(0) == find(l, m[0]) && f(1) == find(l, m[1]) && f(2) == find(l, m[2]));
            assert(f(3) == find(l, m[3]) && f(4) == find(l, m[4]) && f(5) == find(l, m[5]));
            assert(f(6) == find(l, m[6]) && f(7) == find(l, m[7]) && f(8) == find(l, m[8]));
            assert(f(9) == find(l, m[9]) && f(10) == find(l, m[10]));
        }
        let k = choose|k: int| 0 <= k < 11 && #[trigger] find(l, m[k]) == Some(q);
        crate::text::lemma_find_match(l, m[k]);
        assert(crate::text::match_at(l, m[k], q as int));
    }
}

/// A task text that holds a date word always gets a due date: the rest from
/// the first date word, trimmed, is never empty (e.g. "call Bob today" is due
/// "today").
pub proof fn law_date_word_gives_due(text: Seq<char>)
    ensures
        (exists|k: int| 0 <= k < due_markers().len() && #[trigger] find(lower(text), due_markers()[k]) is Some)
            ==> due_split(text).1 is Some,
{
    let l = lower(text);
    law_due_date_cut(l);
    if exists|k: int| 0 <= k < due_markers().len() && #[trigger] find(l, due_markers()[k]) is Some {
        let k = choose|k: int| 0 <= k < due_markers().len() && #[trigger] find(l, due_markers()[k]) is Some;
        let m = due_markers()[k];
        let p: int = find(l, m).unwrap() as int;
        let q: int = due_start(l).unwrap() as int;
        crate::text::lemma_find_match(l, m);
        reveal_strlit(" tomorrow");
        reveal_strlit(" today");
        reveal_strlit(" tonight");
        reveal_strlit(" next ");
        reveal_strlit(" on monday");
        reveal_strlit(" on tuesday");
        reveal_strlit(" on wednesday");
        reveal_strlit(" on thursday");
        reveal_strlit(" on friday");
        reveal_strlit(" on saturday");
        reveal_strlit(" on sunday");
        assert(m.len() >= 2 && (m[1] == 't' || m[1] == 'n' || m[1] == 'o'));
        assert(l[p + 1] == m[1]) by {
            assert(l.subrange(p, p + m.len()) == m);
            assert(l.subrange(p, p + m.len())[1] == l[p + 1]);
        }
        let c = text[p + 1];
        assert(crate::text::lower_char(c) == l[p + 1]);
        assert(!crate::text::is_ws(c));
        let rest = text.skip(q);
        assert(rest[p + 1 - q] == c);
        crate::text::lemma_trim_keeps(rest, CharClass::Whitespace, p + 1 - q);
    }
}

fn min_pos_exec(a: Option<usize>, b: Option<usize>) -> (r: Option<usize>)
    ensures
        opt_nat(r) == min_pos(opt_nat(a), opt_nat(b)),
        r matches Some(k) ==> (a == Some(k) || b == Some(k)),
{
    match (a, b) {
        (Some(x), Some(y)) => Some(if x <= y { x } else { y }),
        (Some(x), None) => Some(x),
        (None, y) => y,
    }
}

/// Where `marker` first occurs in `l`, as a position that fits in `l`.
fn find_lit(l: &[char], marker: &str) -> (r: Option<usize>)
    ensures
        opt_nat(r) == find(l@, marker@),
        r matches Some(k) ==> k <= l@.len(),
{
    let m = chars_of(marker);
    find_chars(l, m.as_slice())
}


fn due_start_exec(l: &[char]) -> (r: Option<usize>)
    ensures
        opt_nat(r) == due_start(l@),
        r matches Some(k) ==> k <= l@.len(),
{
    let a10 = min_pos_exec(find_lit(l, " on saturday"), find_lit(l, " on sunday"));
    let a9 = min_pos_exec(find_lit(l, " on friday"), a10);
    let a8 = min_pos_exec(find_lit(l, " on thursday"), a9);
    let a7 = min_pos_exec(find_lit(l, " on wednesday"), a8);
    let a6 = min_pos_exec(find_lit(l, " on tuesday"), a7);
    let a5 = min_pos_exec(find_lit(l, " on monday"), a6);
    let a4 = min_pos_exec(find_lit(l, " next "), a5);
    let a3 = min_pos_exec(find_lit(l, " tonight"), a4);
    let a2 = min_pos_exec(find_lit(l, " today"), a3);
    min_pos_exec(find_lit(l, " tomorrow"), a2)
}

fn due_split_chars(text: &[char]) -> (r: (Vec<char>, Option<Vec<char>>))
    ensures
        r.0@ == due_split(text@).0,
        match r.1 {
            Some(d) => due_split(text@).1 == Some(d@),
            None => due_split(text@).1 is None,
        },
{
    let l = lower_chars(text);
    assert(l@.len() == text@.len());
    match due_start_exec(l.as_slice()) {
        Some(pos) => {
            let head = slice_chars(text, 0, pos);
            let tail = slice_chars(text, pos, text.len());
            assert(head@ == text@.take(pos as int));
            assert(tail@ == text@.skip(pos as int));
            let content = trim_chars(head.as_slice(), CharClass::Whitespace);
            let due = trim_chars(tail.as_slice(), CharClass::Whitespace);
            if due.len() == 0 {
                (content, None)
            } else {
                (content, Some(due))
            }
        },
        None => (trim_chars(text, CharClass::Whitespace), None),
    }
}

/// Splits a task text into its content and its due date, at the earliest of
/// " tomorrow", " today", " tonight", " next ", " on monday" to " on sunday".
pub fn split_todoist_due(text: &str) -> (r: (String, Option<String>))
    ensures
        r.0@ == due_split(text@).0,
        match r.1 {
            Some(d) => due_split(text@).1 == Some(d@),
            None => due_split(text@).1 is None,
        },
{
    let v = chars_of(text);
    let (c, d) = due_split_chars(v.as_slice());
    let content = string_of(c.as_slice());
    match d {
        Some(d) => (content, Some(string_of(d.as_slice()))),
        None => (content, None),
    }
}


/// What a direct "add a task" command asks for: the task's content and, when
/// the command names one, its due date.
pub open spec fn todoist_task(command: Seq<char>) -> Option<(Seq<char>, Option<Seq<char>>)> {
    let t0 = trim(trim(command, CharClass::Whitespace), CharClass::PunctOrSpace);
    let t1 = strip_word(strip_word(t0, "agent"@), "please"@);
    let l = lower(t1);
    let pos = match find(l, "task"@) {
        Some(p) => Some(p),
        None => find(l, "ask"@),
    };
    match pos {
        None => None,
        Some(p) => {
            let rem0 = t1.skip(p as int);
            let rem1 = match find(lower(rem0), " to "@) {
                Some(q) => rem0.skip((q + " to "@.len()) as int),
                None => strip_word(strip_word(rem0, "task"@), "ask"@),
            };
            let rem2 = strip_word(
                strip_word(strip_word(strip_word(strip_word(rem1, "called"@), "named"@), "for"@), "about"@),
                "to"@,
            );
            let content = trim(trim(due_split(rem2).0, CharClass::Whitespace), CharClass::PunctOrSpace);
            if content.len() == 0 {
                None
            } else {
                Some((content, due_split(rem2).1))
            }
        },
    }
}

fn strip_lit(text: &[char], word: &str) -> (r: Vec<char>)
    ensures
        r@ == strip_word(text@, word@),
{
    let w = chars_of(word);
    strip_word_chars(text, w.as_slice())
}

/// Reads a task out of a direct command such as "add a task to call Bob
/// tomorrow": the words after "task" (or "ask"), or after the first " to ",
/// without a leading "called", "named", "for", "about" or "to", split into
/// content and due date; nothing when no content is left.
pub fn parse_todoist_task(command: &str) -> (r: Option<(String, Option<String>)>)
    ensures
        match todoist_task(command@) {
            None => r is None,
            Some(t) => r is Some && r.unwrap().0@ == t.0 && match r.unwrap().1 {
                Some(d) => t.1 == Some(d@),
                None => t.1 is None,
            },
        },
{
    let v = chars_of(command);
    let a = trim_chars(v.as_slice(), CharClass::Whitespace);
    let t0 = trim_chars(a.as_slice(), CharClass::PunctOrSpace);
    let t0a = strip_lit(t0.as_slice(), "agent");
    let t1 = strip_lit(t0a.as_slice(), "please");
    let l = lower_chars(t1.as_slice());
    assert(l@.len() == t1@.len());
    let pos = match find_lit(l.as_slice(), "task") {
        Some(p) => Some(p),
        None => find_lit(l.as_slice(), "ask"),
    };
    let p = match pos {
        Some(p) => p,
        None => {
            return None;
        },
    };
    let rem0 = slice_chars(t1.as_slice(), p, t1.len());
    assert(rem0@ == t1@.skip(p as int));
    let l0 = lower_chars(rem0.as_slice());
    let rem1 = match find_lit(l0.as_slice(), " to ") {
        Some(q) => {
            proof {
                reveal_strlit(" to ");
            }
            let m = chars_of(" to ");
            assert(crate::text::match_at(l0@, m@, q as int)) by {
                crate::text::lemma_find_match(l0@, m@);
            }
            let r = slice_chars(rem0.as_slice(), q + 4, rem0.len());
            assert(r@ == rem0@.skip((q + " to "@.len()) as int));
            r
        },
        None => {
            let x = strip_lit(rem0.as_slice(), "task");
            strip_lit(x.as_slice(), "ask")
        },
    };
    let r1 = strip_lit(rem1.as_slice(), "called");
    let r2 = strip_lit(r1.as_slice(), "named");
    let r3 = strip_lit(r2.as_slice(), "for");
    let r4 = strip_lit(r3.as_slice(), "about");
    let rem2 = strip_lit(r4.as_slice(), "to");
    let (c, due) = due_split_chars(rem2.as_slice());
    let c1 = trim_chars(c.as_slice(), CharClass::Whitespace);
    let content = trim_chars(c1.as_slice(), CharClass::PunctOrSpace);
    if content.len() == 0 {
        None
    } else {
        let due_s = match due {
            Some(d) => Some(string_of(d.as_slice())),
            None => None,
        };
        Some((string_of(content.as_slice()), due_s))
    }
}

/// Reply to a pending confirmation that mentions one of the words of a change
/// of mind ("no i need", "use another", "actually", "instead", ...).
pub open spec fn mentions_revision(n: Seq<char>) -> bool {
    ||| contains(n, "no i need"@)
    ||| contains(n, "no use"@)
    ||| contains(n, "no make"@)
    ||| contains(n, "no create"@)
    ||| contains(n, "no save"@)
    ||| contains(n, "no add"@)
    ||| contains(n, "no put"@)
    ||| contains(n, "no change"@)
    ||| contains(n, "not that"@)
    ||| contains(n, "different file"@)
    ||| contains(n, "use a different"@)
    ||| contains(n, "use another"@)
    ||| contains(n, "actually"@)
    ||| contains(n, "instead"@)
}

/// One step of taking the leading filler word `p` off a revision: none when
/// the text is only that word, the rest (trimmed) when it starts with it.
pub open spec fn revise_step(r: Option<Seq<char>>, p: Seq<char>) -> Option<Seq<char>> {
    match r {
        None => None,
        Some(x) => {
            let l = lower(x);
            if l == p {
                None
            } else if starts_with(l, p + " "@) {
                Some(trim(x.skip(p.len() as int + 1), CharClass::Whitespace))
            } else {
                Some(x)
            }
        },
    }
}

/// The new instruction in a reply that changes a pending request.
pub open spec fn revised_instruction(command: Seq<char>) -> Option<Seq<char>> {
    let text = trim(command, CharClass::Whitespace);
    if text.len() == 0 {
        None
    } else if !mentions_revision(normalized_answer(text)) {
        None
    } else {
        let r = revise_step(
            revise_step(
                revise_step(
                    revise_step(revise_step(Some(trim(text, CharClass::PunctOrSpace)), "agent"@), "no"@),
                    "nope"@,
                ),
                "cancel"@,
            ),
            "actually"@,
        );
        match r {
            None => None,
            Some(x) => if x.len() == 0 {
                None
            } else if starts_with(lower(x), "i need "@) {
                Some("Create "@ + x)
            } else if starts_with(lower(x), "use "@) {
                Some("Save this using "@ + x)
            } else {
                Some(x)
            },
        }
    }
}

fn revise_step_exec(x: Vec<char>, p: &str) -> (r: Option<Vec<char>>)
    ensures
        match revise_step(Some(x@), p@) {
            Some(y) => r is Some && r.unwrap()@ == y,
            None => r is None,
        },
{
    let pc = chars_of(p);
    let l = lower_chars(x.as_slice());
    let mut ps: Vec<char> = slice_chars(pc.as_slice(), 0, pc.len());
    assert(pc@.subrange(0, pc@.len() as int) == pc@);
    let sp = chars_of(" ");
    crate::text::append_chars(&mut ps, sp.as_slice());
    proof {
        reveal_strlit(" ");
    }
    assert(ps@.len() == pc@.len() + 1);
    if eq_chars(l.as_slice(), pc.as_slice()) {
        None
    } else if starts_with_chars(l.as_slice(), ps.as_slice()) {
        let xl = x.len();
        let pl = pc.len();
        assert(l@.len() == x@.len());
        assert(pl + 1 <= xl);
        let rest = slice_chars(x.as_slice(), pl + 1, xl);
        assert(rest@ == x@.skip(p@.len() as int + 1));
        Some(trim_chars(rest.as_slice(), CharClass::Whitespace))
    } else {
        Some(x)
    }
}

fn contains_lit(v: &[char], t: &str) -> (r: bool)
    ensures
        r == contains(v@, t@),
{
    let w = chars_of(t);
    contains_chars(v, w.as_slice())
}

/// The new instruction in a reply to a pending confirmation that changes the
/// request ("no, use ideas.md instead"): the reply without its punctuation at
/// the ends and without leading "agent", "no", "nope", "cancel", "actually";
/// "I need ..." becomes "Create I need ...", "use ..." becomes "Save this using
/// use ...". Nothing when the reply mentions no change or nothing is left.
pub fn extract_revised_instruction(command: &str) -> (r: Option<String>)
    ensures
        match revised_instruction(command@) {
            Some(t) => r is Some && r.unwrap()@ == t,
            None => r is None,
        },
{
    let v = chars_of(command);
    let text = trim_chars(v.as_slice(), CharClass::Whitespace);
    if text.len() == 0 {
        return None;
    }
    let text_s = string_of(text.as_slice());
    let normalized = normalize_confirmation(text_s.as_str());
    let nv = chars_of(normalized.as_str());
    let n = nv.as_slice();
    let mentions = contains_lit(n, "no i need") || contains_lit(n, "no use") || contains_lit(n, "no make")
        || contains_lit(n, "no create") || contains_lit(n, "no save") || contains_lit(n, "no add")
        || contains_lit(n, "no put") || contains_lit(n, "no change") || contains_lit(n, "not that")
        || contains_lit(n, "different file") || contains_lit(n, "use a different") || contains_lit(
        n,
        "use another",
    ) || contains_lit(n, "actually") || contains_lit(n, "instead");
    if !mentions {
        return None;
    }
    let start = trim_chars(text.as_slice(), CharClass::PunctOrSpace);
    let r1 = match revise_step_exec(start, "agent") {
        Some(x) => x,
        None => {
            return None;
        },
    };
    let r2 = match revise_step_exec(r1, "no") {
        Some(x) => x,
        None => {
            return None;
        },
    };
    let r3 = match revise_step_exec(r2, "nope") {
        Some(x) => x,
        None => {
            return None;
        },
    };
    let r4 = match revise_step_exec(r3, "cancel") {
        Some(x) => x,
        None => {
            return None;
        },
    };
    let revised = match revise_step_exec(r4, "actually") {
        Some(x) => x,
        None => {
            return None;
        },
    };
    if revised.len() == 0 {
        return None;
    }
    let lr = lower_chars(revised.as_slice());
    let rs = string_of(revised.as_slice());
    if starts_with_chars(lr.as_slice(), chars_of("i need ").as_slice()) {
        Some(crate::text::concat2("Create ", rs.as_str()))
    } else if starts_with_chars(lr.as_slice(), chars_of("use ").as_slice()) {
        Some(crate::text::concat2("Save this using ", rs.as_str()))
    } else {
        Some(rs)
    }
}


/// A tool call waiting for the user's yes or no, with the command that asked
/// for it.
#[derive(Debug)]
pub struct PendingToolCall {
    pub user_command: String,
    pub tool: ToolCall,
}

/// What the agent keeps from one command to the next: the conversation, the
/// tool call waiting for confirmation, and the last Todoist task it created.
#[derive(Debug)]
pub struct AgentSession {
    pub turns: Vec<AgentSessionTurn>,
    pub pending: Option<PendingToolCall>,
    pub last_task: Option<TodoistTaskRef>,
}

impl AgentSession {
    /// A session with no turns, nothing pending and no task.
    pub fn new() -> (r: AgentSession)
        ensures
            r.turns@.len() == 0,
            r.pending is None,
            r.last_task is None,
    {
        AgentSession { turns: Vec::new(), pending: None, last_task: None }
    }
}

/// What a tool run reports to the runtime: its summary and content, the task
/// it created, and whether it completed the last task.
#[derive(Debug, Clone)]
pub struct RuntimeToolResult {
    pub summary: String,
    pub content: String,
    pub last_todoist_task: Option<TodoistTaskRef>,
    pub clear_last_todoist_task: bool,
}

/// The answer `r` speaks `text` and calls no tool.
pub open spec fn speaks(r: AgentResult, text: Seq<char>) -> bool {
    r.mode == AgentOutputMode::Speak && r.text@ == text && r.tool_call is None
}

/// `after` is `before` with one exchange recorded: the user's words, then the
/// assistant's reply in `mode` (see `append_turns`).
pub open spec fn records(
    before: Seq<AgentSessionTurn>,
    after: Seq<AgentSessionTurn>,
    user: Seq<char>,
    reply: Seq<char>,
    mode: Seq<char>,
) -> bool {
    exists|u: AgentSessionTurn, a: AgentSessionTurn|
        {
            &&& is_turn(u, "user"@, trim(user, CharClass::Whitespace), None)
            &&& is_turn(a, "assistant"@, trim(reply, CharClass::Whitespace), Some(mode))
            &&& after == recent(before.push(u).push(a), session_limit())
        }
}

/// `after` is `before` with the exchange that gave `res` recorded: the
/// user's command, then the answer's text in some mode. Every step of the
/// agent's turn that hands an answer back (`resolve_pending` and `after_check`
/// when they reply, `direct_step` when it acts, `propose_tool`,
/// `finish_pending_run`, `after_answer` when it replies, `finish_answer`)
/// leaves the session so, and the turn ends with that answer.
pub open spec fn answered(before: Seq<AgentSessionTurn>, after: Seq<AgentSessionTurn>, command: Seq<char>, res: AgentResult) -> bool {
    exists|m: Seq<char>| #[trigger] records(before, after, command, res.text@, m)
}

proof fn lemma_answered(
    before: Seq<AgentSessionTurn>,
    after: Seq<AgentSessionTurn>,
    command: Seq<char>,
    res: AgentResult,
    mode: Seq<char>,
)
    requires
        records(before, after, command, res.text@, mode),
    ensures
        answered(before, after, command, res),
{
}

/// However the agent's turn ends, the answer closes the session: it holds
/// at most 40 turns, the last is the assistant's trimmed answer with a mode,
/// and the one before it is the user's trimmed command without one.
pub proof fn law_turn_answer_closes_session(
    before: Seq<AgentSessionTurn>,
    after: Seq<AgentSessionTurn>,
    command: Seq<char>,
    res: AgentResult,
)
    requires
        answered(before, after, command, res),
    ensures
        2 <= after.len() <= session_limit(),
        after.last().role@ == "assistant"@,
        after.last().content@ == trim(res.text@, CharClass::Whitespace),
        after.last().mode is Some,
        after[after.len() - 2].role@ == "user"@,
        after[after.len() - 2].content@ == trim(command, CharClass::Whitespace),
        after[after.len() - 2].mode is None,
{
    let m = choose|m: Seq<char>| #[trigger] records(before, after, command, res.text@, m);
    law_answer_closes_session(before, after, command, res.text@, m);
}

/// Every answer the agent's turn gives is recorded the same way: the session
/// then holds at most 40 turns and ends with the user's trimmed words and
/// the assistant's trimmed reply in its mode.
pub proof fn law_answer_closes_session(
    before: Seq<AgentSessionTurn>,
    after: Seq<AgentSessionTurn>,
    user: Seq<char>,
    reply: Seq<char>,
    mode: Seq<char>,
)
    requires
        records(before, after, user, reply, mode),
    ensures
        2 <= after.len() <= session_limit(),
        is_turn(after.last(), "assistant"@, trim(reply, CharClass::Whitespace), Some(mode)),
        is_turn(after[after.len() - 2], "user"@, trim(user, CharClass::Whitespace), None),
{
    let (u, a) = choose|u: AgentSessionTurn, a: AgentSessionTurn|
        {
            &&& is_turn(u, "user"@, trim(user, CharClass::Whitespace), None)
            &&& is_turn(a, "assistant"@, trim(reply, CharClass::Whitespace), Some(mode))
            &&& after == recent(before.push(u).push(a), session_limit())
        };
    crate::agent_memory::law_session_keeps_recent_exchange(before, u, a);
}

/// Every tool that changes something outside the agent (a note write or a
/// Todoist task) asks for confirmation before it runs.
pub proof fn law_changes_ask_first(name: Seq<char>)
    requires
        name == "workspace.save_note"@ || name == "workspace.create_note"@ || name == "workspace.append_note"@
            || name == "todoist.create_task"@ || name == "todoist.complete_task"@,
    ensures
        confirm_first(name),
{
}

fn spoken(text: &str) -> (r: AgentResult)
    ensures
        speaks(r, text@),
{
    AgentResult { mode: AgentOutputMode::Speak, text: String::from_str(text), tool_call: None }
}

/// What answering a pending confirmation leads to.
#[derive(Debug)]
pub enum PendingStep {
    /// Nothing was pending: go on with the command.
    Proceed,
    /// The user changed the request: go on with this command instead.
    Revised(String),
    /// Answer with this.
    Reply(AgentResult),
    /// The user said yes: run this tool, then `finish_pending_run`.
    Run(ToolCall),
}

/// Handles a command while a tool call waits for confirmation. A change of
/// mind drops the call and gives the new command; a reply that is no answer
/// asks again and keeps the call; "no" drops it; "yes" hands it out to run.
pub fn resolve_pending(session: &mut AgentSession, command: &str) -> (r: PendingStep)
    ensures
        final(session).last_task == old(session).last_task,
        r matches PendingStep::Reply(res) ==> answered(old(session).turns@, final(session).turns@, command@, res),
        old(session).pending is None ==> (r is Proceed && final(session).turns@ == old(session).turns@
            && final(session).pending is None),
        old(session).pending matches Some(p) ==> {
            let n = normalized_answer(command@);
            match revised_instruction(command@) {
                Some(x) => (r matches PendingStep::Revised(s) && s@ == x && final(session).pending is None
                    && records(
                    old(session).turns@,
                    final(session).turns@,
                    command@,
                    "Okay, I will update that request."@,
                    "confirm"@,
                )),
                None => if n.len() == 0 {
                    (r matches PendingStep::Reply(res) && speaks(
                        res,
                        "Please say yes to confirm, or no to cancel."@,
                    ) && final(session).pending == old(session).pending && records(
                        old(session).turns@,
                        final(session).turns@,
                        command@,
                        "Please say yes to confirm, or no to cancel."@,
                        "confirm"@,
                    ))
                } else if !is_answer(n) {
                    (r matches PendingStep::Reply(res) && speaks(
                        res,
                        "Please say yes to confirm, no to cancel, or say what you want changed."@,
                    ) && final(session).pending == old(session).pending && records(
                        old(session).turns@,
                        final(session).turns@,
                        command@,
                        "Please say yes to confirm, no to cancel, or say what you want changed."@,
                        "confirm"@,
                    ))
                } else if is_refusal(n) {
                    (r matches PendingStep::Reply(res) && speaks(res, "Cancelled."@) && final(session).pending is None && records(
                        old(session).turns@,
                        final(session).turns@,
                        command@,
                        "Cancelled."@,
                        "speak"@,
                    ))
                } else {
                    (r matches PendingStep::Run(t) && t == p.tool && final(session).pending is None
                        && final(session).turns@ == old(session).turns@)
                },
            }
        },
{
    let ghost before = session.turns@;
    if session.pending.is_none() {
        return PendingStep::Proceed;
    }
    match extract_revised_instruction(command) {
        Some(revised) => {
            session.pending = None;
            append_turns(&mut session.turns, command, "Okay, I will update that request.", "confirm");
            return PendingStep::Revised(revised);
        },
        None => {},
    }
    let answer = normalize_confirmation(command);
    if answer.as_str().unicode_len() == 0 {
        let text = "Please say yes to confirm, or no to cancel.";
        append_turns(&mut session.turns, command, text, "confirm");
        let res = spoken(text);
        proof {
            lemma_answered(before, session.turns@, command@, res, "confirm"@);
        }
        return PendingStep::Reply(res);
    }
    if !is_confirmation_answer(answer.as_str()) {
        let text = "Please say yes to confirm, no to cancel, or say what you want changed.";
        append_turns(&mut session.turns, command, text, "confirm");
        let res = spoken(text);
        proof {
            lemma_answered(before, session.turns@, command@, res, "confirm"@);
        }
        return PendingStep::Reply(res);
    }
    let mut taken: Option<PendingToolCall> = None;
    std::mem::swap(&mut taken, &mut session.pending);
    let pending = match taken {
        Some(p) => p,
        None => {
            return PendingStep::Proceed;
        },
    };
    if is_negative_confirmation(answer.as_str()) {
        let text = "Cancelled.";
        append_turns(&mut session.turns, command, text, "speak");
        let res = spoken(text);
        proof {
            lemma_answered(before, session.turns@, command@, res, "speak"@);
        }
        return PendingStep::Reply(res);
    }
    PendingStep::Run(pending.tool)
}

/// The last task after a tool ran: the task it created, if any; otherwise none
/// when it completed the last task; otherwise unchanged.
pub open spec fn after_effects(last: Option<TodoistTaskRef>, result: RuntimeToolResult) -> Option<
    TodoistTaskRef,
> {
    if result.last_todoist_task is Some {
        result.last_todoist_task
    } else if result.clear_last_todoist_task {
        None
    } else {
        last
    }
}

/// Remembers the task a tool created, or forgets the one it completed.
pub fn apply_tool_side_effects(last_task: &mut Option<TodoistTaskRef>, result: &RuntimeToolResult)
    ensures
        *final(last_task) == after_effects(*old(last_task), *result),
{
    if result.clear_last_todoist_task {
        *last_task = None;
    }
    match &result.last_todoist_task {
        Some(t) => {
            *last_task = Some(t.copied());
        },
        None => {},
    }
}

/// Finishes a confirmed tool call: applies its effects, records the exchange
/// in mode `tool`, and speaks the tool's summary.
pub fn finish_pending_run(session: &mut AgentSession, command: &str, result: RuntimeToolResult) -> (r:
    AgentResult)
    ensures
        final(session).last_task == after_effects(old(session).last_task, result),
        answered(old(session).turns@, final(session).turns@, command@, r),
        final(session).pending == old(session).pending,
        records(old(session).turns@, final(session).turns@, command@, result.summary@, "tool"@),
        speaks(r, result.summary@),
{
    let ghost before = session.turns@;
    apply_tool_side_effects(&mut session.last_task, &result);
    append_turns(&mut session.turns, command, result.summary.as_str(), "tool");
    let res = AgentResult { mode: AgentOutputMode::Speak, text: result.summary, tool_call: None };
    proof {
        lemma_answered(before, session.turns@, command@, res, "tool"@);
    }
    res
}

/// The question asked before a call runs: Todoist's wording for Todoist tools,
/// the workspace's for the others.
pub open spec fn call_confirmation(name: Seq<char>, args: JsonV) -> Seq<char> {
    if starts_with(name, "todoist."@) {
        crate::todoist::confirmation(name, args)
    } else {
        workspace_confirmation(name, args)
    }
}

/// The question asked before a tool call runs (see `call_confirmation`).
pub fn confirmation_text(tool: &ToolCall) -> (r: String)
    ensures
        r@ == call_confirmation(tool.name@, tool.args@),
{
    if crate::text::starts_with_str(tool.name.as_str(), "todoist.") {
        crate::todoist::confirmation_text(tool.name.as_str(), &tool.args)
    } else {
        crate::agent_tools::confirmation_text(tool)
    }
}

/// Holds a tool call for confirmation: it becomes the pending call, the
/// question is recorded in mode `confirm`, and the question is spoken.
pub fn propose_tool(session: &mut AgentSession, command: &str, tool: ToolCall) -> (r: AgentResult)
    ensures
        answered(old(session).turns@, final(session).turns@, command@, r),
        final(session).pending matches Some(p) && p.user_command@ == command@ && p.tool == tool,
        final(session).last_task == old(session).last_task,
        records(
            old(session).turns@,
            final(session).turns@,
            command@,
            call_confirmation(tool.name@, tool.args@),
            "confirm"@,
        ),
        speaks(r, call_confirmation(tool.name@, tool.args@)),
{
    let ghost before = session.turns@;
    let text = confirmation_text(&tool);
    session.pending = Some(PendingToolCall { user_command: String::from_str(command), tool });
    append_turns(&mut session.turns, command, text.as_str(), "confirm");
    let res = AgentResult { mode: AgentOutputMode::Speak, text, tool_call: None };
    proof {
        lemma_answered(before, session.turns@, command@, res, "confirm"@);
    }
    res
}

/// A command that asks to create a Todoist task: it names Todoist, a task,
/// and one of create, add, save, put (`l` is lower-cased).
pub open spec fn asks_todoist_create(l: Seq<char>) -> bool {
    &&& contains(l, "todoist"@) || contains(l, "to do ist"@)
    &&& contains(l, "task"@) || contains(l, "ask"@)
    &&& contains(l, "create"@) || contains(l, "add"@) || contains(l, "save"@) || contains(l, "put"@)
}

/// A command that asks to complete the task just created (`l` is lower-cased).
pub open spec fn asks_todoist_complete(l: Seq<char>) -> bool {
    &&& contains(l, "complete"@) || contains(l, "mark done"@) || contains(l, "mark it done"@) || contains(
        l,
        "check off"@,
    ) || contains(l, "close the task"@) || contains(l, "finish the task"@)
    &&& contains(l, "task you created"@) || contains(l, "the task"@) || contains(l, "that task"@)
        || contains(l, "it"@)
}

/// A command that names Todoist, a task and an act of adding asks to create
/// a task: Todoist by "todoist" or "to do ist", the task by "task" or "ask",
/// the act by "create", "add", "save" or "put".
pub proof fn law_todoist_create_words(l: Seq<char>)
    requires
        contains(l, "todoist"@) || contains(l, "to do ist"@),
        contains(l, "task"@) || contains(l, "ask"@),
        contains(l, "create"@) || contains(l, "add"@) || contains(l, "save"@) || contains(l, "put"@),
    ensures
        asks_todoist_create(l),
{
}

/// A command that asks to complete, mark done, mark it done, check off,
/// close the task or finish the task, and points at a task ("task you
/// created", "the task", "that task" or "it"), asks to complete the last
/// task.
pub proof fn law_todoist_complete_words(l: Seq<char>)
    requires
        contains(l, "complete"@) || contains(l, "mark done"@) || contains(l, "mark it done"@) || contains(
            l,
            "check off"@,
        ) || contains(l, "close the task"@) || contains(l, "finish the task"@),
        contains(l, "task you created"@) || contains(l, "the task"@) || contains(l, "that task"@) || contains(
            l,
            "it"@,
        ),
    ensures
        asks_todoist_complete(l),
{
}

/// The arguments of a task creation.
pub open spec fn create_task_args(content: Seq<char>, due: Option<Seq<char>>) -> JsonV {
    JsonV::Object(
        seq![
            ("content"@, JsonV::Str(content)),
            (
                "due_string"@,
                match due {
                    Some(d) => JsonV::Str(d),
                    None => JsonV::Null,
                },
            ),
        ],
    )
}

/// The arguments of a task completion.
pub open spec fn complete_task_args(task: TodoistTaskRef) -> JsonV {
    JsonV::Object(seq![("content"@, JsonV::Str(task.content@)), ("task_id"@, JsonV::Str(task.id@))])
}

/// The Todoist call a command makes without asking the model: a task creation
/// when it asks for one and a task can be read out of it; else the completion
/// of the last task when it asks for that and there is one.
pub open spec fn direct_call(cfg: Config, last: Option<TodoistTaskRef>, command: Seq<char>) -> Option<
    (Seq<char>, JsonV),
> {
    let l = lower(command);
    if !cfg.connectors.todoist.enabled {
        None
    } else if asks_todoist_create(l) && todoist_task(command) is Some {
        let (c, d) = todoist_task(command).unwrap();
        Some(("todoist.create_task"@, create_task_args(c, d)))
    } else if asks_todoist_complete(l) && last is Some {
        Some(("todoist.complete_task"@, complete_task_args(last.unwrap())))
    } else {
        None
    }
}

fn contains_any(v: &[char], lits: &[&str]) -> (r: bool)
    ensures
        r == exists|i: int| 0 <= i < lits@.len() && contains(v@, #[trigger] lits@[i]@),
{
    let n = lits.len();
    for i in 0..n
        invariant
            n == lits@.len(),
            forall|j: int| 0 <= j < i ==> !contains(v@, #[trigger] lits@[j]@),
    {
        let t = chars_of(lits[i]);
        if contains_chars(v, t.as_slice()) {
            return true;
        }
    }
    false
}

/// The task creation a command asks for, if Todoist is on and the command
/// names Todoist, a task, and an act of creating.
pub fn direct_todoist_create(cfg: &Config, command: &str) -> (r: Option<ToolCall>)
    ensures
        !cfg.connectors.todoist.enabled || !asks_todoist_create(lower(command@)) ==> r is None,
        cfg.connectors.todoist.enabled && asks_todoist_create(lower(command@)) ==> match todoist_task(
            command@,
        ) {
            None => r is None,
            Some((c, d)) => (r matches Some(t) && t.name@ == "todoist.create_task"@ && t.args@
                == create_task_args(c, d)),
        },
{
    if !cfg.connectors.todoist.enabled {
        return None;
    }
    let v = chars_of(command);
    let lv = lower_chars(v.as_slice());
    let l = lv.as_slice();
    let a: [&str; 2] = ["todoist", "to do ist"];
    let b: [&str; 2] = ["task", "ask"];
    let c: [&str; 4] = ["create", "add", "save", "put"];
    let m1 = contains_any(l, &a);
    let m2 = contains_any(l, &b);
    let m3 = contains_any(l, &c);
    proof {
        assert(a@[0]@ == "todoist"@ && a@[1]@ == "to do ist"@);
        assert(b@[0]@ == "task"@ && b@[1]@ == "ask"@);
        assert(c@[0]@ == "create"@ && c@[1]@ == "add"@ && c@[2]@ == "save"@ && c@[3]@ == "put"@);
        if m1 != (contains(l@, "todoist"@) || contains(l@, "to do ist"@)) {
            let i = choose|i: int| 0 <= i < 2 && contains(l@, #[trigger] a@[i]@);
            assert(i == 0 || i == 1);
        }
        if m2 != (contains(l@, "task"@) || contains(l@, "ask"@)) {
            let i = choose|i: int| 0 <= i < 2 && contains(l@, #[trigger] b@[i]@);
            assert(i == 0 || i == 1);
        }
        if m3 != (contains(l@, "create"@) || contains(l@, "add"@) || contains(l@, "save"@) || contains(
            l@,
            "put"@,
        )) {
            let i = choose|i: int| 0 <= i < 4 && contains(l@, #[trigger] c@[i]@);
            assert(i == 0 || i == 1 || i == 2 || i == 3);
        }
    }
    if !(m1 && m2 && m3) {
        return None;
    }
    match parse_todoist_task(command) {
        None => None,
        Some((content, due)) => {
            let due_json = match due {
                Some(d) => Json::Str(d),
                None => Json::Null,
            };
            let args = Json::Object(vec![entry("content", Json::Str(content)), entry("due_string", due_json)]);
            proof {
                let es = match args@ {
                    JsonV::Object(e) => e,
                    _ => Seq::empty(),
                };
                let (tc, td) = todoist_task(command@).unwrap();
                assert(es =~= seq![
                    ("content"@, JsonV::Str(tc)),
                    (
                        "due_string"@,
                        match td {
                            Some(d) => JsonV::Str(d),
                            None => JsonV::Null,
                        },
                    ),
                ]);
            }
            Some(ToolCall { name: String::from_str("todoist.create_task"), args })
        },
    }
}

/// The completion of the last task a command asks for, if Todoist is on, the
/// command asks to complete and points at the task, and there is a last task.
pub fn direct_todoist_followup(last_task: &Option<TodoistTaskRef>, cfg: &Config, command: &str) -> (r:
    Option<ToolCall>)
    ensures
        cfg.connectors.todoist.enabled && asks_todoist_complete(lower(command@)) && last_task is Some ==> (r matches Some(t)
            && t.name@ == "todoist.complete_task"@ && t.args@ == complete_task_args(last_task.unwrap())),
        !(cfg.connectors.todoist.enabled && asks_todoist_complete(lower(command@)) && last_task is Some) ==> r is None,
{
    if !cfg.connectors.todoist.enabled {
        return None;
    }
    let v = chars_of(command);
    let lv = lower_chars(v.as_slice());
    let l = lv.as_slice();
    let a: [&str; 6] = ["complete", "mark done", "mark it done", "check off", "close the task", "finish the task"];
    let b: [&str; 4] = ["task you created", "the task", "that task", "it"];
    let m1 = contains_any(l, &a);
    let m2 = contains_any(l, &b);
    proof {
        assert(a@[0]@ == "complete"@ && a@[1]@ == "mark done"@ && a@[2]@ == "mark it done"@ && a@[3]@
            == "check off"@ && a@[4]@ == "close the task"@ && a@[5]@ == "finish the task"@);
        assert(b@[0]@ == "task you created"@ && b@[1]@ == "the task"@ && b@[2]@ == "that task"@ && b@[3]@
            == "it"@);
        if m1 && !(contains(l@, "complete"@) || contains(l@, "mark done"@) || contains(l@, "mark it done"@)
            || contains(l@, "check off"@) || contains(l@, "close the task"@) || contains(
            l@,
            "finish the task"@,
        )) {
            let i = choose|i: int| 0 <= i < 6 && contains(l@, #[trigger] a@[i]@);
            assert(i == 0 || i == 1 || i == 2 || i == 3 || i == 4 || i == 5);
        }
        if m2 && !(contains(l@, "task you created"@) || contains(l@, "the task"@) || contains(
            l@,
            "that task"@,
        ) || contains(l@, "it"@)) {
            let i = choose|i: int| 0 <= i < 4 && contains(l@, #[trigger] b@[i]@);
            assert(i == 0 || i == 1 || i == 2 || i == 3);
        }
    }
    if !(m1 && m2) {
        return None;
    }
    match last_task {
        None => None,
        Some(task) => {
            let args = Json::Object(vec![entry("content", jstr(task.content.as_str())), entry("task_id", jstr(task.id.as_str()))]);
            proof {
                let es = match args@ {
                    JsonV::Object(e) => e,
                    _ => Seq::empty(),
                };
                assert(es =~= seq![("content"@, JsonV::Str(task.content@)), ("task_id"@, JsonV::Str(task.id@))]);
            }
            Some(ToolCall { name: String::from_str("todoist.complete_task"), args })
        },
    }
}

/// Handles the commands that need no model: a Todoist task creation, or the
/// completion of the last task; each is held for confirmation. Nothing
/// happens to other commands.
pub fn direct_step(session: &mut AgentSession, cfg: &Config, command: &str) -> (r: Option<AgentResult>)
    ensures
        final(session).last_task == old(session).last_task,
        r matches Some(res) ==> answered(old(session).turns@, final(session).turns@, command@, res),
        match direct_call(*cfg, old(session).last_task, command@) {
            None => r is None && final(session).turns@ == old(session).turns@ && final(session).pending
                == old(session).pending,
            Some((n, a)) => (r matches Some(res) && speaks(res, call_confirmation(n, a))) && (final(session).pending matches Some(p) && p.user_command@ == command@ && p.tool.name@ == n && p.tool.args@
                == a) && records(
                old(session).turns@,
                final(session).turns@,
                command@,
                call_confirmation(n, a),
                "confirm"@,
            ),
        },
{
    proof {
        reveal_strlit("todoist.create_task");
        reveal_strlit("todoist.complete_task");
    }
    match direct_todoist_create(cfg, command) {
        Some(t) => {
            return Some(propose_tool(session, command, t));
        },
        None => {},
    }
    match direct_todoist_followup(&session.last_task, cfg, command) {
        Some(t) => Some(propose_tool(session, command, t)),
        None => None,
    }
}

/// What the agent is told about its tools: the workspace's description, then
/// Todoist's, then the last task created (or none).
pub open spec fn tool_context_text(cfg: Config, root_exists: bool, last: Option<TodoistTaskRef>) -> Seq<char> {
    crate::workspace::context_text(cfg.workspace, root_exists) + "\n\n"@ + crate::todoist::context_text(
        cfg.connectors.todoist,
    ) + match last {
        Some(t) => "\nLast Todoist task: id="@ + t.id@ + ", content="@ + t.content@,
        None => "\nLast Todoist task: none"@,
    }
}

/// What the agent is told about its tools (see `tool_context_text`);
/// `root_exists` tells whether the workspace folder exists.
pub fn tool_context(cfg: &Config, root_exists: bool, last_task: &Option<TodoistTaskRef>) -> (r: String)
    ensures
        r@ == tool_context_text(*cfg, root_exists, *last_task),
{
    let mut out = crate::workspace::context(&cfg.workspace, root_exists);
    out.append("\n\n");
    let t = crate::todoist::context(&cfg.connectors.todoist);
    out.append(t.as_str());
    match last_task {
        Some(task) => {
            out.append("\nLast Todoist task: id=");
            out.append(task.id.as_str());
            out.append(", content=");
            out.append(task.content.as_str());
        },
        None => {
            out.append("\nLast Todoist task: none");
        },
    }
    out
}

/// The message a tool call is refused with, if it is: by its family's checks
/// for workspace and Todoist tools; every other name is unknown.
pub open spec fn validation_error(name: Seq<char>, args: JsonV) -> Option<Seq<char>> {
    if starts_with(name, "workspace."@) {
        if crate::workspace::known_tool(name) {
            match crate::workspace::missing_key(name, args) {
                Some(k) => Some("missing required string argument: "@ + k),
                None => None,
            }
        } else {
            Some("unknown workspace tool: "@ + name)
        }
    } else if starts_with(name, "todoist."@) {
        if name == "todoist.create_task"@ {
            if required_arg(args, "content"@) is None {
                Some("missing required string argument: content"@)
            } else {
                None
            }
        } else if name == "todoist.complete_task"@ {
            if required_arg(args, "task_id"@) is None {
                Some("missing required string argument: task_id"@)
            } else {
                None
            }
        } else {
            Some("unknown Todoist tool: "@ + name)
        }
    } else {
        Some("unknown tool: "@ + name)
    }
}

/// Checks a tool call before it is held or run (see `validation_error`).
pub fn validate_tool_args(tool: &ToolCall) -> (r: Result<(), ToolError>)
    ensures
        match validation_error(tool.name@, tool.args@) {
            None => r is Ok,
            Some(m) => (r matches Err(e) && e.describe() == m),
        },
{
    proof {
        reveal_strlit("missing required string argument: ");
        reveal_strlit("missing required string argument: content");
        reveal_strlit("missing required string argument: task_id");
        reveal_strlit("content");
        reveal_strlit("task_id");
        reveal_strlit("unknown ");
        reveal_strlit(" tool: ");
        reveal_strlit("unknown workspace tool: ");
        reveal_strlit("unknown Todoist tool: ");
        reveal_strlit("workspace");
        reveal_strlit("Todoist");
        assert("missing required string argument: content"@ =~= "missing required string argument: "@
            + "content"@);
        assert("missing required string argument: task_id"@ =~= "missing required string argument: "@
            + "task_id"@);
        assert("unknown workspace tool: "@ =~= "unknown "@ + "workspace"@ + " tool: "@);
        assert("unknown Todoist tool: "@ =~= "unknown "@ + "Todoist"@ + " tool: "@);
    }
    if crate::text::starts_with_str(tool.name.as_str(), "workspace.") {
        let r = crate::workspace::validate_tool_args(tool.name.as_str(), &tool.args);
        assert(r matches Err(ToolError::UnknownTool(f, n)) ==> f@ == "workspace"@ ==> "unknown "@ + f@ + " tool: "@ + n@
            =~= "unknown workspace tool: "@ + n@);
        r
    } else if crate::text::starts_with_str(tool.name.as_str(), "todoist.") {
        let r = crate::todoist::validate_tool_args(tool.name.as_str(), &tool.args);
        assert(r matches Err(ToolError::UnknownTool(f, n)) ==> f@ == "Todoist"@ ==> "unknown "@ + f@ + " tool: "@ + n@
            =~= "unknown Todoist tool: "@ + n@);
        r
    } else {
        Err(ToolError::UnknownName(String::from_str(tool.name.as_str())))
    }
}

/// The tools that ask first: workspace note creation and appending, and both
/// Todoist tools.
pub open spec fn confirm_first(name: Seq<char>) -> bool {
    crate::workspace::needs_confirmation(name) || crate::todoist::needs_confirmation(name)
}

/// Whether a tool asks for confirmation before it runs (see `confirm_first`).
pub fn requires_confirmation(name: &str) -> (r: bool)
    ensures
        r == confirm_first(name@),
{
    crate::workspace::requires_confirmation(name) || crate::todoist::requires_confirmation(name)
}

/// What the agent says when a tool call cannot be prepared.
pub open spec fn prepare_failure(message: Seq<char>) -> Seq<char> {
    "I could not prepare that workspace action: "@ + message + ". Please include the file name and content."@
}

fn refuse_tool(session: &mut AgentSession, command: &str, e: ToolError) -> (r: AgentResult)
    ensures
        final(session).last_task == old(session).last_task,
        final(session).pending == old(session).pending,
        records(old(session).turns@, final(session).turns@, command@, prepare_failure(e.describe()), "speak"@),
        speaks(r, prepare_failure(e.describe())),
{
    let m = e.message();
    let text = crate::text::concat3(
        "I could not prepare that workspace action: ",
        m.as_str(),
        ". Please include the file name and content.",
    );
    append_turns(&mut session.turns, command, text.as_str(), "speak");
    AgentResult { mode: AgentOutputMode::Speak, text, tool_call: None }
}

/// What follows the agent's answer.
#[derive(Debug)]
pub enum AnswerStep {
    /// Answer with this.
    Reply(AgentResult),
    /// The agent asked for this tool: normalize it, then `after_check`.
    Check(ToolCall),
}

/// Handles the agent's answer. An insertion for a command that asked to write
/// a note becomes a note save held for confirmation (or a refusal when it
/// cannot be prepared); a spoken or inserted answer is recorded and given
/// back; a tool answer hands out its tool. `files` lists the workspace's
/// text files, if they could be listed.
pub fn after_answer(session: &mut AgentSession, command: &str, result: AgentResult, files: Option<
    &[String],
>) -> (r: Result<AnswerStep, AgentError>)
    ensures
        r matches Ok(AnswerStep::Reply(res)) ==> answered(old(session).turns@, final(session).turns@, command@, res),
        final(session).last_task == old(session).last_task,
        ({
            let w = note_write_path(command@, opt_views(files));
            let coerced = result.mode == AgentOutputMode::Insert && w is Some;
            &&& coerced ==> {
                let args = note_args(w.unwrap(), trim(result.text@, CharClass::Whitespace));
                match validation_error("workspace.save_note"@, args) {
                    Some(m) => (r matches Ok(AnswerStep::Reply(res)) && speaks(res, prepare_failure(m))
                        && final(session).pending == old(session).pending && records(
                        old(session).turns@,
                        final(session).turns@,
                        command@,
                        prepare_failure(m),
                        "speak"@,
                    )),
                    None => (r matches Ok(AnswerStep::Reply(res)) && speaks(
                        res,
                        call_confirmation("workspace.save_note"@, args),
                    )) && (final(session).pending matches Some(p) && p.user_command@ == command@
                        && p.tool.name@ == "workspace.save_note"@ && p.tool.args@ == args) && records(
                        old(session).turns@,
                        final(session).turns@,
                        command@,
                        call_confirmation("workspace.save_note"@, args),
                        "confirm"@,
                    ),
                }
            }
            &&& !coerced && result.mode != AgentOutputMode::Tool ==> (r matches Ok(AnswerStep::Reply(res))
                && res == result && final(session).pending == old(session).pending && records(
                old(session).turns@,
                final(session).turns@,
                command@,
                result.text@,
                mode_text(result.mode),
            ))
            &&& !coerced && result.mode == AgentOutputMode::Tool ==> final(session).turns@ == old(session).turns@ && final(session).pending == old(session).pending && match result.tool_call {
                None => (r matches Err(AgentError::NoToolCall)),
                Some(t) => (r matches Ok(AnswerStep::Check(u)) && u == t),
            }
        }),
{
    proof {
        reveal_strlit("workspace.save_note");
        reveal_strlit("todoist.");
        assert("workspace.save_note"@[0] == 'w' && "todoist."@[0] == 't');
        if starts_with("workspace.save_note"@, "todoist."@) {
            assert("workspace.save_note"@.subrange(0, 8)[0] == "todoist."@[0]);
        }
    }
    if result.mode == AgentOutputMode::Insert {
        match coerce_workspace_note_write(command, result.text.as_str(), files) {
            Some(tool) => {
                match validate_tool_args(&tool) {
                    Err(e) => {
                        return Ok(AnswerStep::Reply(refuse_tool(session, command, e)));
                    },
                    Ok(()) => {
                        return Ok(AnswerStep::Reply(propose_tool(session, command, tool)));
                    },
                }
            },
            None => {},
        }
    }
    if result.mode != AgentOutputMode::Tool {
        let ghost before = session.turns@;
        append_turns(&mut session.turns, command, result.text.as_str(), mode_label(result.mode));
        proof {
            lemma_answered(before, session.turns@, command@, result, mode_text(result.mode));
        }
        return Ok(AnswerStep::Reply(result));
    }
    match result.tool_call {
        None => Err(AgentError::NoToolCall),
        Some(t) => Ok(AnswerStep::Check(t)),
    }
}

/// What follows the check of a requested tool.
#[derive(Debug)]
pub enum ToolStep {
    /// Answer with this.
    Reply(AgentResult),
    /// Run this tool, then `record_tool_result` and ask the agent again.
    Run(ToolCall),
}

/// Checks a tool the agent asked for (already normalized): a refused call is
/// explained; a tool that asks first is held for confirmation; only a valid
/// tool that needs no confirmation is handed out to run.
pub fn after_check(session: &mut AgentSession, command: &str, tool: ToolCall) -> (r: ToolStep)
    ensures
        final(session).last_task == old(session).last_task,
        r matches ToolStep::Reply(res) ==> answered(old(session).turns@, final(session).turns@, command@, res),
        match validation_error(tool.name@, tool.args@) {
            Some(m) => (r matches ToolStep::Reply(res) && speaks(res, prepare_failure(m)) && final(session).pending == old(session).pending && records(
                old(session).turns@,
                final(session).turns@,
                command@,
                prepare_failure(m),
                "speak"@,
            )),
            None => if confirm_first(tool.name@) {
                (r matches ToolStep::Reply(res) && speaks(res, call_confirmation(tool.name@, tool.args@)))
                    && (final(session).pending matches Some(p) && p.user_command@ == command@ && p.tool
                    == tool) && records(
                    old(session).turns@,
                    final(session).turns@,
                    command@,
                    call_confirmation(tool.name@, tool.args@),
                    "confirm"@,
                )
            } else {
                (r matches ToolStep::Run(t) && t == tool && final(session).turns@ == old(session).turns@
                    && final(session).pending == old(session).pending)
            },
        },
        r matches ToolStep::Run(t) ==> (!confirm_first(t.name@) && validation_error(t.name@, t.args@) is None),
{
    match validate_tool_args(&tool) {
        Err(e) => {
            return ToolStep::Reply(refuse_tool(session, command, e));
        },
        Ok(()) => {},
    }
    if requires_confirmation(tool.name.as_str()) {
        return ToolStep::Reply(propose_tool(session, command, tool));
    }
    ToolStep::Run(tool)
}

/// Applies a tool run's effects and gives the history the agent is asked
/// with next: `history` with the command and the tool's report added.
pub fn record_tool_result(
    session: &mut AgentSession,
    command: &str,
    history: &[AgentSessionTurn],
    result: &RuntimeToolResult,
) -> (r: Vec<AgentSessionTurn>)
    ensures
        final(session).last_task == after_effects(old(session).last_task, *result),
        final(session).turns@ == old(session).turns@,
        final(session).pending == old(session).pending,
        r@.len() == history@.len() + 2,
        r@.take(history@.len() as int) == history@,
        is_turn(r@[history@.len() as int], "user"@, trim(command@, CharClass::Whitespace), None),
        is_turn(
            r@[history@.len() as int + 1],
            "tool"@,
            result.summary@ + "\n\n"@ + result.content@,
            Some("workspace"@),
        ),
{
    apply_tool_side_effects(&mut session.last_task, result);
    with_tool_result(history, command, result.summary.as_str(), result.content.as_str())
}

/// Records the agent's final answer in its mode and gives it back.
pub fn finish_answer(session: &mut AgentSession, command: &str, result: AgentResult) -> (r: AgentResult)
    ensures
        answered(old(session).turns@, final(session).turns@, command@, r),
        r == result,
        final(session).last_task == old(session).last_task,
        final(session).pending == old(session).pending,
        records(old(session).turns@, final(session).turns@, command@, result.text@, mode_text(result.mode)),
{
    let ghost before = session.turns@;
    append_turns(&mut session.turns, command, result.text.as_str(), mode_label(result.mode));
    proof {
        lemma_answered(before, session.turns@, command@, result, mode_text(result.mode));
    }
    result
}

/// The family a tool belongs to, which decides who runs it.
#[derive(Clone, Copy, PartialEq, Eq, Structural, Debug)]
pub enum ToolFamily {
    Workspace,
    Todoist,
}

/// Which family runs a tool: `workspace.` and `todoist.` names; others are
/// refused as unknown.
pub fn tool_family(name: &str) -> (r: Result<ToolFamily, ToolError>)
    ensures
        starts_with(name@, "workspace."@) ==> r == Ok::<ToolFamily, ToolError>(ToolFamily::Workspace),
        !starts_with(name@, "workspace."@) && starts_with(name@, "todoist."@) ==> r == Ok::<
            ToolFamily,
            ToolError,
        >(ToolFamily::Todoist),
        !starts_with(name@, "workspace."@) && !starts_with(name@, "todoist."@) ==> (r matches Err(
            ToolError::UnknownName(n),
        ) && n@ == name@),
{
    if crate::text::starts_with_str(name, "workspace.") {
        Ok(ToolFamily::Workspace)
    } else if crate::text::starts_with_str(name, "todoist.") {
        Ok(ToolFamily::Todoist)
    } else {
        Err(ToolError::UnknownName(String::from_str(name)))
    }
}

/// A workspace tool's report, for the runtime: no task effects.
pub fn workspace_runtime_result(result: WorkspaceToolResult) -> (r: RuntimeToolResult)
    ensures
        r.summary == result.summary,
        r.content == result.content,
        r.last_todoist_task is None,
        !r.clear_last_todoist_task,
{
    RuntimeToolResult {
        summary: result.summary,
        content: result.content,
        last_todoist_task: None,
        clear_last_todoist_task: false,
    }
}

/// A Todoist tool's report, for the runtime: the task it created, and whether
/// it was `todoist.complete_task`, which forgets the last task.
pub fn todoist_runtime_result(name: &str, result: TodoistToolResult) -> (r: RuntimeToolResult)
    ensures
        r.summary == result.summary,
        r.content == result.content,
        r.last_todoist_task == result.task,
        r.clear_last_todoist_task == (name@ == "todoist.complete_task"@),
{
    RuntimeToolResult {
        summary: result.summary,
        content: result.content,
        last_todoist_task: result.task,
        clear_last_todoist_task: crate::text::str_eq(name, "todoist.complete_task"),
    }
}

} // verus!
