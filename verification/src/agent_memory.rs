use vstd::prelude::*;

use crate::agent_types::{AgentSessionTurn, copy_turns};
use crate::text::{chars_of, join, join_chars, string_of, trim, trim_str, views, CharClass};

verus! {

/// The last `n` items of `s` (all of them when there are fewer).
pub open spec fn recent<A>(s: Seq<A>, n: nat) -> Seq<A> {
    if s.len() > n {
        s.skip(s.len() - n)
    } else {
        s
    }
}

/// How a turn reads in the history: `role (mode): content`, or `role: content`
/// when the turn has no mode.
pub open spec fn turn_line(t: AgentSessionTurn) -> Seq<char> {
    let mode = match t.mode {
        Some(m) => " ("@ + m@ + ")"@,
        None => Seq::empty(),
    };
    t.role@ + mode + ": "@ + t.content@
}

/// The history as the agent reads it: the last 12 turns, one per line, or a
/// note that there are none.
pub open spec fn history_text(h: Seq<AgentSessionTurn>) -> Seq<char> {
    let lines = recent(h, 12).map_values(|t: AgentSessionTurn| turn_line(t));
    if lines.len() == 0 {
        "No prior turns in this session."@
    } else {
        join(lines, "\n"@)
    }
}


fn turn_line_exec(t: &AgentSessionTurn) -> (r: Vec<char>)
    ensures
        r@ == turn_line(*t),
{
    let mut s = t.role.clone();
    match &t.mode {
        Some(m) => {
            s.append(" (");
            s.append(m.as_str());
            s.append(")");
        },
        None => {},
    }
    s.append(": ");
    s.append(t.content.as_str());
    chars_of(s.as_str())
}

/// The recent conversation as text: the last 12 turns, oldest first, each as
/// `role (mode): content`, joined by newlines; or "No prior turns in this
/// session." when there are no turns.
pub fn format_history(history: &[AgentSessionTurn]) -> (r: String)
    ensures
        r@ == history_text(history@),
{
    let n = history.len();
    let start: usize = if n > 12 {
        n - 12
    } else {
        0
    };
    let ghost rec = recent(history@, 12);
    assert(rec == history@.subrange(start as int, n as int));
    let mut lines: Vec<Vec<char>> = Vec::new();
    let mut i: usize = start;
    while i < n
        invariant
            start <= i <= n == history@.len(),
            rec == history@.subrange(start as int, n as int),
            views(lines@) == rec.take(i - start).map_values(|t: AgentSessionTurn| turn_line(t)),
        decreases n - i,
    {
        let line = turn_line_exec(&history[i]);
        lines.push(line);
        proof {
            assert(rec.take(i + 1 - start) == rec.take(i - start).push(history@[i as int]));
            assert(rec.take(i + 1 - start).map_values(|t: AgentSessionTurn| turn_line(t)) == rec.take(
                i - start,
            ).map_values(|t: AgentSessionTurn| turn_line(t)).push(turn_line(history@[i as int])));
            assert(views(lines@) == views(lines@).drop_last().push(line@));
        }
        i = i + 1;
    }
    assert(rec.take(n - start) == rec);
    if lines.len() == 0 {
        String::from_str("No prior turns in this session.")
    } else {
        let nl = chars_of("\n");
        let joined = join_chars(&lines, nl.as_slice());
        string_of(joined.as_slice())
    }
}


/// The most turns a session keeps.
pub open spec fn session_limit() -> nat {
    40
}

/// A turn with the given role, content and mode.
pub open spec fn is_turn(t: AgentSessionTurn, role: Seq<char>, content: Seq<char>, mode: Option<Seq<char>>) -> bool {
    &&& t.role@ == role
    &&& t.content@ == content
    &&& match (t.mode, mode) {
        (Some(m), Some(n)) => m@ == n,
        (None, None) => true,
        _ => false,
    }
}

/// The history with two turns added: the user's trimmed command, and a `tool`
/// turn in mode `workspace` holding the summary, a blank line, and the content.
pub fn with_tool_result(history: &[AgentSessionTurn], command: &str, summary: &str, content: &str) -> (r: Vec<
    AgentSessionTurn,
>)
    ensures
        r@.len() == history@.len() + 2,
        r@.take(history@.len() as int) == history@,
        is_turn(r@[history@.len() as int], "user"@, trim(command@, CharClass::Whitespace), None),
        is_turn(
            r@[history@.len() as int + 1],
            "tool"@,
            summary@ + "\n\n"@ + content@,
            Some("workspace"@),
        ),
{
    let mut next = copy_turns(history);
    next.push(
        AgentSessionTurn {
            role: String::from_str("user"),
            content: trim_str(command, CharClass::Whitespace),
            mode: None,
        },
    );
    let mut body = String::from_str(summary);
    body.append("\n\n");
    body.append(content);
    next.push(
        AgentSessionTurn {
            role: String::from_str("tool"),
            content: body,
            mode: Some(String::from_str("workspace")),
        },
    );
    next
}

/// Drops the oldest turns until at most 40 are left.
pub fn trim_session(session: &mut Vec<AgentSessionTurn>)
    ensures
        final(session)@ == recent(old(session)@, session_limit()),
{
    if session.len() > 40 {
        let remove_count = session.len() - 40;
        let tail = session.split_off(remove_count);
        *session = tail;
    }
}

/// Records one exchange: the user's trimmed words, then the assistant's trimmed
/// answer in the given mode; then keeps the 40 most recent turns.
pub fn append_turns(session: &mut Vec<AgentSessionTurn>, user: &str, assistant: &str, mode: &str)
    ensures
        exists|u: AgentSessionTurn, a: AgentSessionTurn|
            {
                &&& is_turn(u, "user"@, trim(user@, CharClass::Whitespace), None)
                &&& is_turn(a, "assistant"@, trim(assistant@, CharClass::Whitespace), Some(mode@))
                &&& final(session)@ == recent(old(session)@.push(u).push(a), session_limit())
            },
{
    let u = AgentSessionTurn {
        role: String::from_str("user"),
        content: trim_str(user, CharClass::Whitespace),
        mode: None,
    };
    let a = AgentSessionTurn {
        role: String::from_str("assistant"),
        content: trim_str(assistant, CharClass::Whitespace),
        mode: Some(String::from_str(mode)),
    };
    let ghost gu = u;
    let ghost ga = a;
    session.push(u);
    session.push(a);
    trim_session(session);
    assert(is_turn(gu, "user"@, trim(user@, CharClass::Whitespace), None));
}

/// A session never holds more than 40 turns, and recording an exchange keeps
/// that exchange as its two newest turns.
pub proof fn law_session_keeps_recent_exchange(
    before: Seq<AgentSessionTurn>,
    u: AgentSessionTurn,
    a: AgentSessionTurn,
)
    ensures
        recent(before.push(u).push(a), session_limit()).len() <= session_limit(),
        recent(before.push(u).push(a), session_limit()).len() >= 2,
        recent(before.push(u).push(a), session_limit()).last() == a,
        recent(before.push(u).push(a), session_limit())[recent(before.push(u).push(a), session_limit()).len() - 2] == u,
{
}

} // verus!
