use vstd::prelude::*;

use crate::config::TodoistConfig;
use crate::json::{entry, jstr, Json, JsonV};
use crate::text::{str_eq, trim, trim_str, CharClass};
use crate::tool_error::ToolError;

verus! {

/// What a Todoist tool reports: the tool, a one-line summary, the raw
/// response, and the task it created, if it created one.
#[derive(Debug, Clone)]
pub struct TodoistToolResult {
    pub tool: String,
    pub summary: String,
    pub content: String,
    pub task: Option<TodoistTaskRef>,
}

/// A Todoist task, by id and content.
#[derive(Debug, Clone)]
pub struct TodoistTaskRef {
    pub id: String,
    pub content: String,
}

impl TodoistTaskRef {
    pub fn copied(&self) -> (r: TodoistTaskRef)
        ensures
            r == *self,
    {
        TodoistTaskRef { id: self.id.clone(), content: self.content.clone() }
    }
}

/// The configured API token, trimmed, unless it is missing or blank.
pub open spec fn token_of(config: TodoistConfig) -> Option<Seq<char>> {
    match config.api_token {
        Some(t) => if trim(t@, CharClass::Whitespace).len() == 0 {
            None
        } else {
            Some(trim(t@, CharClass::Whitespace))
        },
        None => None,
    }
}

/// The configured API token, trimmed, unless it is missing or blank.
pub fn token(config: &TodoistConfig) -> (r: Option<String>)
    ensures
        match token_of(*config) {
            Some(t) => r is Some && r.unwrap()@ == t,
            None => r is None,
        },
{
    match &config.api_token {
        Some(t) => {
            let v = trim_str(t.as_str(), CharClass::Whitespace);
            if v.as_str().unicode_len() == 0 {
                None
            } else {
                Some(v)
            }
        },
        None => None,
    }
}

/// How the connector describes itself to the agent.
pub open spec fn context_text(config: TodoistConfig) -> Seq<char> {
    if !config.enabled {
        "Todoist connector is disabled."@
    } else if token_of(config) is None {
        "Todoist connector is enabled, but no API token is configured."@
    } else {
        "Todoist connector is available. Tools: todoist.create_task, todoist.complete_task. Writes require confirmation."@
    }
}

/// How the connector describes itself to the agent: disabled, enabled without
/// a token, or available with its two tools.
pub fn context(config: &TodoistConfig) -> (r: String)
    ensures
        r@ == context_text(*config),
{
    if !config.enabled {
        return String::from_str("Todoist connector is disabled.");
    }
    if token(config).is_none() {
        return String::from_str("Todoist connector is enabled, but no API token is configured.");
    }
    String::from_str(
        "Todoist connector is available. Tools: todoist.create_task, todoist.complete_task. Writes require confirmation.",
    )
}

/// The argument `key` as a non-blank string, untrimmed.
pub open spec fn required_arg(args: JsonV, key: Seq<char>) -> Option<Seq<char>> {
    match args.str_field(key) {
        Some(s) => if trim(s, CharClass::Whitespace).len() == 0 {
            None
        } else {
            Some(s)
        },
        None => None,
    }
}

/// The argument `key` as a string, trimmed, unless missing or blank.
pub open spec fn optional_arg(args: JsonV, key: Seq<char>) -> Option<Seq<char>> {
    match args.str_field(key) {
        Some(s) => if trim(s, CharClass::Whitespace).len() == 0 {
            None
        } else {
            Some(trim(s, CharClass::Whitespace))
        },
        None => None,
    }
}

/// The string argument `key`, which must be present and not blank.
pub fn required_string<'a>(args: &'a Json, key: &str) -> (r: Result<&'a String, ToolError>)
    ensures
        match required_arg(args@, key@) {
            Some(s) => r is Ok && r.unwrap()@ == s,
            None => r matches Err(ToolError::MissingArgument(k)) && k@ == key@,
        },
{
    match args.get_str(key) {
        Some(s) => {
            let t = trim_str(s.as_str(), CharClass::Whitespace);
            if t.as_str().unicode_len() == 0 {
                Err(ToolError::MissingArgument(String::from_str(key)))
            } else {
                Ok(s)
            }
        },
        None => Err(ToolError::MissingArgument(String::from_str(key))),
    }
}

/// The string argument `key`, trimmed, if it is present and not blank.
pub fn optional_string(args: &Json, key: &str) -> (r: Option<String>)
    ensures
        match optional_arg(args@, key@) {
            Some(s) => r is Some && r.unwrap()@ == s,
            None => r is None,
        },
{
    match args.get_str(key) {
        Some(s) => {
            let t = trim_str(s.as_str(), CharClass::Whitespace);
            if t.as_str().unicode_len() == 0 {
                None
            } else {
                Some(t)
            }
        },
        None => None,
    }
}

/// Whether a Todoist call's arguments are acceptable: `create_task` needs a
/// `content`, `complete_task` a `task_id`.
pub open spec fn args_ok(name: Seq<char>, args: JsonV) -> bool {
    if name == "todoist.create_task"@ {
        required_arg(args, "content"@) is Some
    } else if name == "todoist.complete_task"@ {
        required_arg(args, "task_id"@) is Some
    } else {
        false
    }
}

/// Checks a Todoist call's arguments; unknown tools are refused.
pub fn validate_tool_args(name: &str, args: &Json) -> (r: Result<(), ToolError>)
    ensures
        r is Ok <==> args_ok(name@, args@),
        name@ == "todoist.create_task"@ && r is Err ==> (r matches Err(ToolError::MissingArgument(k))
            && k@ == "content"@),
        name@ == "todoist.complete_task"@ && r is Err ==> (r matches Err(ToolError::MissingArgument(k))
            && k@ == "task_id"@),
        name@ != "todoist.create_task"@ && name@ != "todoist.complete_task"@ ==> (r matches Err(
            ToolError::UnknownTool(f, n),
        ) && f@ == "Todoist"@ && n@ == name@),
{
    proof {
        reveal_strlit("todoist.create_task");
        reveal_strlit("todoist.complete_task");
        assert("todoist.create_task"@.len() == 19);
        assert("todoist.create_task"@ != "todoist.complete_task"@);
    }
    if str_eq(name, "todoist.create_task") {
        match required_string(args, "content") {
            Ok(_) => Ok(()),
            Err(e) => Err(e),
        }
    } else if str_eq(name, "todoist.complete_task") {
        match required_string(args, "task_id") {
            Ok(_) => Ok(()),
            Err(e) => Err(e),
        }
    } else {
        Err(ToolError::UnknownTool(String::from_str("Todoist"), String::from_str(name)))
    }
}

/// Both Todoist tools change the account, so both ask first.
pub open spec fn needs_confirmation(name: Seq<char>) -> bool {
    name == "todoist.create_task"@ || name == "todoist.complete_task"@
}

/// Whether a Todoist tool asks for confirmation before it runs.
pub fn requires_confirmation(name: &str) -> (r: bool)
    ensures
        r == needs_confirmation(name@),
{
    str_eq(name, "todoist.create_task") || str_eq(name, "todoist.complete_task")
}

/// The question asked before a Todoist tool runs.
pub open spec fn confirmation(tool: Seq<char>, args: JsonV) -> Seq<char> {
    if tool == "todoist.create_task"@ {
        let content = match args.str_field("content"@) {
            Some(c) => c,
            None => "(missing task)"@,
        };
        let due = match args.str_field("due_string"@) {
            Some(d) => d,
            None => Seq::empty(),
        };
        if trim(due, CharClass::Whitespace).len() == 0 {
            "Create Todoist task `"@ + content + "`?"@
        } else {
            "Create Todoist task `"@ + content + "` due "@ + due + "?"@
        }
    } else if tool == "todoist.complete_task"@ {
        let content = match args.str_field("content"@) {
            Some(c) => c,
            None => "that task"@,
        };
        "Complete Todoist task `"@ + content + "`?"@
    } else {
        "Run `"@ + tool + "`?"@
    }
}

/// The question asked before a Todoist tool runs: which task is created (and
/// when it is due) or completed.
pub fn confirmation_text(tool: &str, args: &Json) -> (r: String)
    ensures
        r@ == confirmation(tool@, args@),
{
    if str_eq(tool, "todoist.create_task") {
        let content: &str = match args.get_str("content") {
            Some(c) => c.as_str(),
            None => "(missing task)",
        };
        let due: String = match args.get_str("due_string") {
            Some(d) => d.clone(),
            None => String::new(),
        };
        let t = trim_str(due.as_str(), CharClass::Whitespace);
        if t.as_str().unicode_len() == 0 {
            crate::text::concat3("Create Todoist task `", content, "`?")
        } else {
            let mut s = crate::text::concat3("Create Todoist task `", content, "` due ");
            s.append(due.as_str());
            s.append("?");
            s
        }
    } else if str_eq(tool, "todoist.complete_task") {
        let content: &str = match args.get_str("content") {
            Some(c) => c.as_str(),
            None => "that task",
        };
        crate::text::concat3("Complete Todoist task `", content, "`?")
    } else {
        crate::text::concat3("Run `", tool, "`?")
    }
}


/// An HTTP request to Todoist: where it goes, the token, and the JSON body
/// (none for closing a task).
#[derive(Debug)]
pub struct TodoistRequest {
    pub url: String,
    pub token: String,
    pub body: Option<Json>,
}

pub open spec fn opt_view(o: Option<String>) -> Option<Seq<char>> {
    match o {
        Some(x) => Some(x@),
        None => None,
    }
}

/// An object entry for an optional string, or none.
pub open spec fn opt_entry(key: Seq<char>, v: Option<Seq<char>>) -> Seq<(Seq<char>, JsonV)> {
    match v {
        Some(x) => seq![(key, JsonV::Str(x))],
        None => Seq::empty(),
    }
}

/// The body that creates a task: its content, and the description and due
/// date when they are given.
pub open spec fn task_body(content: Seq<char>, description: Option<Seq<char>>, due: Option<Seq<char>>) -> JsonV {
    JsonV::Object(
        seq![("content"@, JsonV::Str(content))] + opt_entry("description"@, description) + opt_entry(
            "due_string"@,
            due,
        ),
    )
}

/// The request that creates the task a call describes; refused when the
/// connector is off, has no token, or the call has no content.
pub fn create_task_request(config: &TodoistConfig, args: &Json) -> (r: Result<TodoistRequest, ToolError>)
    ensures
        !config.enabled ==> (r matches Err(ToolError::Disabled(w)) && w@ == "Todoist connector"@),
        config.enabled && token_of(*config) is None ==> (r matches Err(ToolError::NotConfigured(w))
            && w@ == "Todoist API token"@),
        config.enabled && token_of(*config) is Some && required_arg(args@, "content"@) is None ==> (
        r matches Err(ToolError::MissingArgument(k)) && k@ == "content"@),
        config.enabled && token_of(*config) is Some && required_arg(args@, "content"@) is Some ==> (
        r is Ok && r.unwrap().url@ == "https://api.todoist.com/api/v1/tasks"@ && r.unwrap().token@
            == token_of(*config).unwrap() && r.unwrap().body is Some && r.unwrap().body.unwrap()@
            == task_body(
            required_arg(args@, "content"@).unwrap(),
            optional_arg(args@, "description"@),
            optional_arg(args@, "due_string"@),
        )),
{
    if !config.enabled {
        return Err(ToolError::Disabled(String::from_str("Todoist connector")));
    }
    let api_token = match token(config) {
        Some(t) => t,
        None => {
            return Err(ToolError::NotConfigured(String::from_str("Todoist API token")));
        },
    };
    let content = match required_string(args, "content") {
        Ok(c) => c,
        Err(e) => {
            return Err(e);
        },
    };
    let description = optional_string(args, "description");
    let due_string = optional_string(args, "due_string");
    let mut es: Vec<(String, Json)> = vec![entry("content", Json::Str(content.clone()))];
    let ghost d = opt_entry("description"@, opt_view(description));
    let ghost u = opt_entry("due_string"@, opt_view(due_string));
    match description {
        Some(x) => {
            es.push(entry("description", Json::Str(x)));
        },
        None => {},
    }
    match due_string {
        Some(x) => {
            es.push(entry("due_string", Json::Str(x)));
        },
        None => {},
    }
    let body = Json::Object(es);
    proof {
        let ev = match body@ {
            JsonV::Object(e) => e,
            _ => Seq::empty(),
        };
        assert(ev =~= seq![("content"@, JsonV::Str(content@))] + d + u);
    }
    Ok(
        TodoistRequest {
            url: String::from_str("https://api.todoist.com/api/v1/tasks"),
            token: api_token,
            body: Some(body),
        },
    )
}

/// The request that closes the task a call names; refused when the connector
/// is off, has no token, or the call has no task id.
pub fn complete_task_request(config: &TodoistConfig, args: &Json) -> (r: Result<TodoistRequest, ToolError>)
    ensures
        !config.enabled ==> (r matches Err(ToolError::Disabled(w)) && w@ == "Todoist connector"@),
        config.enabled && token_of(*config) is None ==> (r matches Err(ToolError::NotConfigured(w))
            && w@ == "Todoist API token"@),
        config.enabled && token_of(*config) is Some && required_arg(args@, "task_id"@) is None ==> (
        r matches Err(ToolError::MissingArgument(k)) && k@ == "task_id"@),
        config.enabled && token_of(*config) is Some && required_arg(args@, "task_id"@) is Some ==> (
        r is Ok && r.unwrap().url@ == "https://api.todoist.com/api/v1/tasks/"@ + required_arg(
            args@,
            "task_id"@,
        ).unwrap() + "/close"@ && r.unwrap().token@ == token_of(*config).unwrap()
            && r.unwrap().body is None),
{
    if !config.enabled {
        return Err(ToolError::Disabled(String::from_str("Todoist connector")));
    }
    let api_token = match token(config) {
        Some(t) => t,
        None => {
            return Err(ToolError::NotConfigured(String::from_str("Todoist API token")));
        },
    };
    let task_id = match required_string(args, "task_id") {
        Ok(c) => c,
        Err(e) => {
            return Err(e);
        },
    };
    Ok(
        TodoistRequest {
            url: crate::text::concat3(
                "https://api.todoist.com/api/v1/tasks/",
                task_id.as_str(),
                "/close",
            ),
            token: api_token,
            body: None,
        },
    )
}

/// The request for a Todoist call: its arguments are checked, then the task
/// is created or closed.
pub fn execute_request(config: &TodoistConfig, name: &str, args: &Json) -> (r: Result<TodoistRequest, ToolError>)
    ensures
        !args_ok(name@, args@) ==> r is Err,
        args_ok(name@, args@) && !config.enabled ==> (r matches Err(ToolError::Disabled(w)) && w@
            == "Todoist connector"@),
        args_ok(name@, args@) && config.enabled && token_of(*config) is None ==> (r matches Err(
            ToolError::NotConfigured(w),
        ) && w@ == "Todoist API token"@),
        args_ok(name@, args@) && config.enabled && token_of(*config) is Some && name@
            == "todoist.create_task"@ ==> (r is Ok && r.unwrap().url@
            == "https://api.todoist.com/api/v1/tasks"@ && r.unwrap().token@ == token_of(
            *config,
        ).unwrap() && r.unwrap().body is Some && r.unwrap().body.unwrap()@ == task_body(
            required_arg(args@, "content"@).unwrap(),
            optional_arg(args@, "description"@),
            optional_arg(args@, "due_string"@),
        )),
        args_ok(name@, args@) && config.enabled && token_of(*config) is Some && name@
            == "todoist.complete_task"@ ==> (r is Ok && r.unwrap().url@
            == "https://api.todoist.com/api/v1/tasks/"@ + required_arg(args@, "task_id"@).unwrap()
            + "/close"@ && r.unwrap().body is None),
{
    proof {
        reveal_strlit("todoist.create_task");
        reveal_strlit("todoist.complete_task");
        assert("todoist.create_task"@.len() == 19);
    }
    match validate_tool_args(name, args) {
        Ok(()) => {},
        Err(e) => {
            return Err(e);
        },
    }
    if str_eq(name, "todoist.create_task") {
        create_task_request(config, args)
    } else {
        complete_task_request(config, args)
    }
}


/// The task a Todoist response describes: its `id` and `content` strings.
pub open spec fn task_ref_of(value: JsonV) -> Option<(Seq<char>, Seq<char>)> {
    match (value.str_field("id"@), value.str_field("content"@)) {
        (Some(i), Some(c)) => Some((i, c)),
        _ => None,
    }
}

/// Reads the created task out of Todoist's JSON reply, if it has an `id` and
/// a `content` string.
pub fn parse_task_ref(value: &Json) -> (r: Option<TodoistTaskRef>)
    ensures
        match task_ref_of(value@) {
            Some(t) => r is Some && r.unwrap().id@ == t.0 && r.unwrap().content@ == t.1,
            None => r is None,
        },
{
    let id = match value.get_str("id") {
        Some(i) => i.clone(),
        None => {
            return None;
        },
    };
    let content = match value.get_str("content") {
        Some(c) => c.clone(),
        None => {
            return None;
        },
    };
    Some(TodoistTaskRef { id, content })
}

/// The outcome of creating a task: a summary naming the content, the raw reply,
/// and the created task when the reply names one with a non-empty id.
/// `reply` is the reply read as JSON, if it was JSON.
pub fn create_task_result(content: &str, response_text: String, reply: Option<&Json>) -> (r: TodoistToolResult)
    ensures
        r.tool@ == "todoist.create_task"@,
        r.summary@ == "Created Todoist task: "@ + content@ + "."@,
        r.content@ == response_text@,
        match reply {
            Some(v) => match task_ref_of(v@) {
                Some(t) => if t.0.len() == 0 {
                    r.task is None
                } else {
                    r.task is Some && r.task.unwrap().id@ == t.0 && r.task.unwrap().content@ == t.1
                },
                None => r.task is None,
            },
            None => r.task is None,
        },
{
    let created = match reply {
        Some(v) => parse_task_ref(v),
        None => None,
    };
    let task = match created {
        Some(t) => if t.id.as_str().unicode_len() == 0 {
            None
        } else {
            Some(t)
        },
        None => None,
    };
    TodoistToolResult {
        tool: String::from_str("todoist.create_task"),
        summary: crate::text::concat3("Created Todoist task: ", content, "."),
        content: response_text,
        task,
    }
}

/// The outcome of closing a task: a summary naming its content (or "task").
pub fn complete_task_result(args: &Json, response_text: String) -> (r: TodoistToolResult)
    ensures
        r.tool@ == "todoist.complete_task"@,
        r.summary@ == "Completed Todoist task: "@ + match optional_arg(args@, "content"@) {
            Some(c) => c,
            None => "task"@,
        } + "."@,
        r.content@ == response_text@,
        r.task is None,
{
    let content = match optional_string(args, "content") {
        Some(c) => c,
        None => String::from_str("task"),
    };
    TodoistToolResult {
        tool: String::from_str("todoist.complete_task"),
        summary: crate::text::concat3("Completed Todoist task: ", content.as_str(), "."),
        content: response_text,
        task: None,
    }
}

} // verus!
