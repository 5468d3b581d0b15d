use vstd::prelude::*;

use crate::json::{Json, JsonV};

verus! {

/// One turn of the agent conversation: who spoke, what was said, and for an
/// assistant or tool turn the mode it answered in.
#[derive(Debug, Clone)]
pub struct AgentSessionTurn {
    pub role: String,
    pub content: String,
    pub mode: Option<String>,
}

impl AgentSessionTurn {
    /// A copy of this turn.
    pub fn copied(&self) -> (r: AgentSessionTurn)
        ensures
            r == *self,
    {
        AgentSessionTurn {
            role: self.role.clone(),
            content: self.content.clone(),
            mode: match &self.mode {
                Some(m) => Some(m.clone()),
                None => None,
            },
        }
    }
}

/// A copy of a list of turns.
pub fn copy_turns(turns: &[AgentSessionTurn]) -> (r: Vec<AgentSessionTurn>)
    ensures
        r@ == turns@,
{
    let mut r: Vec<AgentSessionTurn> = Vec::new();
    let n = turns.len();
    for i in 0..n
        invariant
            n == turns@.len(),
            r@ == turns@.take(i as int),
    {
        r.push(turns[i].copied());
        assert(turns@.take(i + 1) == turns@.take(i as int).push(turns@[i as int]));
    }
    assert(turns@.take(n as int) == turns@);
    r
}

/// What the agent is asked: the spoken command, the selected text, the app in
/// front, the conversation so far and what the tools can see.
#[derive(Clone, Copy)]
pub struct AgentRequest<'a> {
    pub command: &'a str,
    pub selected_text: Option<&'a str>,
    pub target_app: &'a str,
    pub history: &'a [AgentSessionTurn],
    pub workspace_context: Option<&'a str>,
}

/// The agent's answer.
#[derive(Debug)]
pub struct AgentResult {
    pub mode: AgentOutputMode,
    pub text: String,
    pub tool_call: Option<ToolCall>,
}

/// How an answer is delivered: typed into the app, spoken, or a tool call.
#[derive(Debug, Clone, Copy, PartialEq, Eq, Structural)]
pub enum AgentOutputMode {
    Insert,
    Speak,
    Tool,
}

/// A tool the agent asks to run, by name, with JSON arguments.
#[derive(Debug)]
pub struct ToolCall {
    pub name: String,
    pub args: Json,
}

impl ToolCall {
    /// A copy of this call.
    pub fn copied(&self) -> (r: ToolCall)
        ensures
            r.name@ == self.name@,
            r.args@ == self.args@,
    {
        ToolCall { name: self.name.clone(), args: self.args.copied() }
    }
}

/// Two tool calls name the same tool with the same arguments.
pub open spec fn same_call(a: ToolCall, b: ToolCall) -> bool {
    a.name@ == b.name@ && a.args@ == b.args@
}

} // verus!
