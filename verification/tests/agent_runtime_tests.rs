use voice_mcp_host::agent_runtime::{
    after_answer, after_check, apply_tool_side_effects, confirmation_text, direct_step,
    direct_todoist_create, direct_todoist_followup, extract_revised_instruction, finish_answer,
    finish_pending_run, is_confirmation_answer, is_negative_confirmation, mode_label,
    normalize_confirmation, parse_todoist_task, propose_tool, record_tool_result, requires_confirmation,
    resolve_pending, split_todoist_due, strip_leading_word, todoist_runtime_result, tool_context,
    tool_family, validate_tool_args, workspace_runtime_result, AgentSession, AnswerStep, PendingStep,
    PendingToolCall, RuntimeToolResult, ToolFamily, ToolStep,
};
use voice_mcp_host::agent_provider::AgentError;
use voice_mcp_host::agent_types::{AgentOutputMode, AgentResult, ToolCall};
use voice_mcp_host::config::{default_config, Config};
use voice_mcp_host::json::Json;
use voice_mcp_host::platform::TargetOs;
use voice_mcp_host::todoist::{TodoistTaskRef, TodoistToolResult};
use voice_mcp_host::workspace::WorkspaceToolResult;

fn obj(pairs: Vec<(&str, Json)>) -> Json {
    Json::Object(pairs.into_iter().map(|(k, v)| (k.to_string(), v)).collect())
}

fn st(s: &str) -> Json {
    Json::Str(s.to_string())
}

fn arg<'a>(j: &'a Json, key: &str) -> Option<&'a Json> {
    match j {
        Json::Object(es) => es.iter().find(|(k, _)| k == key).map(|(_, v)| v),
        _ => None,
    }
}

fn arg_str(j: &Json, key: &str) -> Option<String> {
    match arg(j, key) {
        Some(Json::Str(s)) => Some(s.clone()),
        _ => None,
    }
}

fn cfg_todoist() -> Config {
    let mut c = default_config(TargetOs::Windows);
    c.connectors.todoist.enabled = true;
    c.connectors.todoist.api_token = Some("tok".into());
    c
}

fn note_call(path: &str) -> ToolCall {
    ToolCall { name: "workspace.create_note".into(), args: obj(vec![("path", st(path)), ("content", st("hello"))]) }
}

fn session_with_pending() -> AgentSession {
    let mut s = AgentSession::new();
    s.pending = Some(PendingToolCall { user_command: "make a note".into(), tool: note_call("notes.md") });
    s
}

fn speak(text: &str) -> AgentResult {
    AgentResult { mode: AgentOutputMode::Speak, text: text.into(), tool_call: None }
}

#[test]
fn mode_labels() {
    assert_eq!(mode_label(AgentOutputMode::Insert), "insert");
    assert_eq!(mode_label(AgentOutputMode::Speak), "speak");
    assert_eq!(mode_label(AgentOutputMode::Tool), "tool");
}

#[test]
fn confirmation_answers_are_normalized() {
    assert_eq!(normalize_confirmation("  Agent, YES please!  "), "yes please");
    assert_eq!(normalize_confirmation("agent"), "");
    assert_eq!(normalize_confirmation("Go -- ahead."), "go ahead");
    assert!(is_confirmation_answer("yes"));
    assert!(is_confirmation_answer("nope"));
    assert!(!is_confirmation_answer("maybe"));
    assert!(is_negative_confirmation("cancel"));
    assert!(!is_negative_confirmation("yes"));
}

#[test]
fn revised_instructions() {
    assert_eq!(extract_revised_instruction("no i need a new file called plans").as_deref(), Some("Create i need a new file called plans"));
    assert_eq!(extract_revised_instruction("No, I need a new file called plans").as_deref(), Some("No, I need a new file called plans"));
    assert_eq!(extract_revised_instruction("no use ideas.md instead").as_deref(), Some("Save this using use ideas.md instead"));
    assert_eq!(extract_revised_instruction("Actually put it in todo.md.").as_deref(), Some("put it in todo.md"));
    assert_eq!(extract_revised_instruction("yes"), None);
    assert_eq!(extract_revised_instruction("   "), None);
}

#[test]
fn leading_words_are_stripped() {
    assert_eq!(strip_leading_word("  Please add milk ".to_string(), "please"), "add milk");
    assert_eq!(strip_leading_word("please".to_string(), "please"), "");
    assert_eq!(strip_leading_word("pleased to".to_string(), "please"), "pleased to");
}

#[test]
fn due_dates_are_split_off() {
    assert_eq!(split_todoist_due("call Bob tomorrow at 5"), ("call Bob".to_string(), Some("tomorrow at 5".to_string())));
    assert_eq!(split_todoist_due("buy milk"), ("buy milk".to_string(), None));
    assert_eq!(split_todoist_due("pay rent on friday"), ("pay rent".to_string(), Some("on friday".to_string())));
}

#[test]
fn todoist_tasks_are_read_from_commands() {
    assert_eq!(
        parse_todoist_task("Agent, please add a task to call Bob tomorrow."),
        Some(("call Bob".to_string(), Some("tomorrow".to_string())))
    );
    assert_eq!(parse_todoist_task("Create a Todoist task called buy milk"), Some(("buy milk".to_string(), None)));
    assert_eq!(parse_todoist_task("create something"), None);
}

#[test]
fn direct_todoist_create_needs_todoist_task_and_create() {
    let c = cfg_todoist();
    let t = direct_todoist_create(&c, "Add a Todoist task to call Bob tomorrow").unwrap();
    assert_eq!(t.name, "todoist.create_task");
    assert_eq!(arg_str(&t.args, "content").as_deref(), Some("call Bob"));
    assert_eq!(arg_str(&t.args, "due_string").as_deref(), Some("tomorrow"));
    let t = direct_todoist_create(&c, "Add a Todoist task to buy milk").unwrap();
    assert!(matches!(arg(&t.args, "due_string"), Some(Json::Null)));
    assert!(direct_todoist_create(&c, "add a task to buy milk").is_none());
    assert!(direct_todoist_create(&default_config(TargetOs::Windows), "Add a Todoist task to buy milk").is_none());
}

#[test]
fn direct_todoist_followup_needs_a_last_task() {
    let c = cfg_todoist();
    let last = Some(TodoistTaskRef { id: "42".into(), content: "buy milk".into() });
    let t = direct_todoist_followup(&last, &c, "mark it done").unwrap();
    assert_eq!(t.name, "todoist.complete_task");
    assert_eq!(arg_str(&t.args, "task_id").as_deref(), Some("42"));
    assert_eq!(arg_str(&t.args, "content").as_deref(), Some("buy milk"));
    assert!(direct_todoist_followup(&None, &c, "mark it done").is_none());
    assert!(direct_todoist_followup(&last, &c, "hello there").is_none());
}

#[test]
fn direct_step_holds_the_task_for_confirmation() {
    let c = cfg_todoist();
    let mut s = AgentSession::new();
    let r = direct_step(&mut s, &c, "Add a Todoist task to buy milk").unwrap();
    assert_eq!(r.mode, AgentOutputMode::Speak);
    assert_eq!(r.text, "Create Todoist task `buy milk`?");
    let p = s.pending.as_ref().unwrap();
    assert_eq!(p.user_command, "Add a Todoist task to buy milk");
    assert_eq!(p.tool.name, "todoist.create_task");
    assert_eq!(s.turns.len(), 2);
    assert_eq!(s.turns[1].mode.as_deref(), Some("confirm"));
    let mut s2 = AgentSession::new();
    assert!(direct_step(&mut s2, &c, "what time is it").is_none());
    assert!(s2.turns.is_empty() && s2.pending.is_none());
}

#[test]
fn nothing_pending_proceeds() {
    let mut s = AgentSession::new();
    assert!(matches!(resolve_pending(&mut s, "yes"), PendingStep::Proceed));
    assert!(s.turns.is_empty());
}

#[test]
fn yes_runs_the_pending_tool() {
    let mut s = session_with_pending();
    match resolve_pending(&mut s, "Yes, go ahead") {
        PendingStep::Reply(r) => assert_eq!(r.text, "Please say yes to confirm, no to cancel, or say what you want changed."),
        other => panic!("unexpected {:?}", other),
    }
    assert!(s.pending.is_some());
    match resolve_pending(&mut s, "Yes.") {
        PendingStep::Run(t) => {
            assert_eq!(t.name, "workspace.create_note");
            assert_eq!(arg_str(&t.args, "path").as_deref(), Some("notes.md"));
        }
        other => panic!("unexpected {:?}", other),
    }
    assert!(s.pending.is_none());
}

#[test]
fn no_cancels_the_pending_tool() {
    let mut s = session_with_pending();
    match resolve_pending(&mut s, "no") {
        PendingStep::Reply(r) => assert_eq!(r.text, "Cancelled."),
        other => panic!("unexpected {:?}", other),
    }
    assert!(s.pending.is_none());
    assert_eq!(s.turns.len(), 2);
    assert_eq!(s.turns[1].content, "Cancelled.");
    assert_eq!(s.turns[1].mode.as_deref(), Some("speak"));
}

#[test]
fn a_blank_answer_asks_again() {
    let mut s = session_with_pending();
    match resolve_pending(&mut s, "agent") {
        PendingStep::Reply(r) => assert_eq!(r.text, "Please say yes to confirm, or no to cancel."),
        other => panic!("unexpected {:?}", other),
    }
    assert!(s.pending.is_some());
}

#[test]
fn a_change_of_mind_drops_the_call() {
    let mut s = session_with_pending();
    match resolve_pending(&mut s, "No, use ideas.md instead") {
        PendingStep::Revised(c) => assert_eq!(c, "No, use ideas.md instead"),
        other => panic!("unexpected {:?}", other),
    }
    assert!(s.pending.is_none());
    assert_eq!(s.turns[1].content, "Okay, I will update that request.");
}

#[test]
fn finishing_a_run_records_the_summary_and_task() {
    let mut s = AgentSession::new();
    let result = RuntimeToolResult {
        summary: "Created Todoist task: milk.".into(),
        content: "{}".into(),
        last_todoist_task: Some(TodoistTaskRef { id: "1".into(), content: "milk".into() }),
        clear_last_todoist_task: false,
    };
    let r = finish_pending_run(&mut s, "yes", result);
    assert_eq!(r.text, "Created Todoist task: milk.");
    assert_eq!(s.last_task.as_ref().unwrap().id, "1");
    assert_eq!(s.turns[1].mode.as_deref(), Some("tool"));
}

#[test]
fn side_effects_clear_or_set_the_last_task() {
    let mut last = Some(TodoistTaskRef { id: "1".into(), content: "a".into() });
    let clear = RuntimeToolResult { summary: String::new(), content: String::new(), last_todoist_task: None, clear_last_todoist_task: true };
    apply_tool_side_effects(&mut last, &clear);
    assert!(last.is_none());
    let keep = RuntimeToolResult { summary: String::new(), content: String::new(), last_todoist_task: None, clear_last_todoist_task: false };
    let mut last = Some(TodoistTaskRef { id: "1".into(), content: "a".into() });
    apply_tool_side_effects(&mut last, &keep);
    assert_eq!(last.unwrap().id, "1");
}

#[test]
fn confirmation_texts() {
    assert_eq!(confirmation_text(&note_call("a.md")), "Create a new note at `a.md` in your workspace?");
    let t = ToolCall { name: "todoist.complete_task".into(), args: obj(vec![("content", st("milk"))]) };
    assert_eq!(confirmation_text(&t), "Complete Todoist task `milk`?");
    let t = ToolCall { name: "todoist.create_task".into(), args: obj(vec![("content", st("milk")), ("due_string", st("today"))]) };
    assert_eq!(confirmation_text(&t), "Create Todoist task `milk` due today?");
}

#[test]
fn validation_messages() {
    let t = ToolCall { name: "workspace.save_note".into(), args: obj(vec![("path", st("a.md"))]) };
    assert_eq!(validate_tool_args(&t).unwrap_err().message(), "missing required string argument: content");
    let t = ToolCall { name: "workspace.delete".into(), args: obj(vec![]) };
    assert_eq!(validate_tool_args(&t).unwrap_err().message(), "unknown workspace tool: workspace.delete");
    let t = ToolCall { name: "todoist.delete".into(), args: obj(vec![]) };
    assert_eq!(validate_tool_args(&t).unwrap_err().message(), "unknown Todoist tool: todoist.delete");
    let t = ToolCall { name: "shell.run".into(), args: obj(vec![]) };
    assert_eq!(validate_tool_args(&t).unwrap_err().message(), "unknown tool: shell.run");
    let t = ToolCall { name: "workspace.list_files".into(), args: obj(vec![]) };
    assert!(validate_tool_args(&t).is_ok());
}

#[test]
fn which_tools_ask_first() {
    assert!(requires_confirmation("workspace.create_note"));
    assert!(requires_confirmation("workspace.append_note"));
    assert!(requires_confirmation("todoist.create_task"));
    assert!(requires_confirmation("todoist.complete_task"));
    assert!(requires_confirmation("workspace.save_note"));
    assert!(!requires_confirmation("workspace.read_file"));
}

#[test]
fn checked_tools_are_held_refused_or_run() {
    let mut s = AgentSession::new();
    match after_check(&mut s, "note it", note_call("a.md")) {
        ToolStep::Reply(r) => assert_eq!(r.text, "Create a new note at `a.md` in your workspace?"),
        other => panic!("unexpected {:?}", other),
    }
    assert!(s.pending.is_some());
    let mut s = AgentSession::new();
    let read = ToolCall { name: "workspace.read_file".into(), args: obj(vec![("path", st("a.md"))]) };
    assert!(matches!(after_check(&mut s, "read it", read), ToolStep::Run(_)));
    assert!(s.pending.is_none() && s.turns.is_empty());
    let bad = ToolCall { name: "workspace.read_file".into(), args: obj(vec![]) };
    match after_check(&mut s, "read it", bad) {
        ToolStep::Reply(r) => assert_eq!(
            r.text,
            "I could not prepare that workspace action: missing required string argument: path. Please include the file name and content."
        ),
        other => panic!("unexpected {:?}", other),
    }
}

#[test]
fn answers_are_recorded_or_coerced() {
    let mut s = AgentSession::new();
    match after_answer(&mut s, "what time is it", speak("noon"), None) {
        Ok(AnswerStep::Reply(r)) => assert_eq!(r.text, "noon"),
        other => panic!("unexpected {:?}", other),
    }
    assert_eq!(s.turns.len(), 2);
    let mut s = AgentSession::new();
    let insert = AgentResult { mode: AgentOutputMode::Insert, text: " - buy milk ".into(), tool_call: None };
    let files = vec!["todo.md".to_string()];
    match after_answer(&mut s, "save this to my todo note", insert, Some(&files)) {
        Ok(AnswerStep::Reply(r)) => assert_eq!(r.text, "Save this to `todo.md` in your workspace?"),
        other => panic!("unexpected {:?}", other),
    }
    let p = s.pending.as_ref().unwrap();
    assert_eq!(p.tool.name, "workspace.save_note");
    assert_eq!(arg_str(&p.tool.args, "content").as_deref(), Some("- buy milk"));
    let mut s = AgentSession::new();
    let tool = AgentResult { mode: AgentOutputMode::Tool, text: "x".into(), tool_call: None };
    assert!(matches!(after_answer(&mut s, "x", tool, None), Err(AgentError::NoToolCall)));
    let tool = AgentResult {
        mode: AgentOutputMode::Tool,
        text: "x".into(),
        tool_call: Some(ToolCall { name: "workspace.list_files".into(), args: obj(vec![]) }),
    };
    assert!(matches!(after_answer(&mut s, "x", tool, None), Ok(AnswerStep::Check(_))));
}

#[test]
fn tool_results_feed_the_next_question() {
    let mut s = AgentSession::new();
    let result = RuntimeToolResult { summary: "Found 1 text files.".into(), content: "a.md".into(), last_todoist_task: None, clear_last_todoist_task: false };
    let h = record_tool_result(&mut s, " list ", &[], &result);
    assert_eq!(h.len(), 2);
    assert_eq!(h[0].content, "list");
    assert_eq!(h[1].role, "tool");
    assert_eq!(h[1].content, "Found 1 text files.\n\na.md");
    let r = finish_answer(&mut s, "list", speak("One file."));
    assert_eq!(r.text, "One file.");
    assert_eq!(s.turns.len(), 2);
}

#[test]
fn proposing_sets_the_pending_call() {
    let mut s = AgentSession::new();
    let r = propose_tool(&mut s, "cmd", note_call("b.md"));
    assert_eq!(r.text, "Create a new note at `b.md` in your workspace?");
    assert_eq!(s.pending.unwrap().user_command, "cmd");
}

#[test]
fn tool_context_names_the_last_task() {
    let c = cfg_todoist();
    let t = tool_context(&c, false, &Some(TodoistTaskRef { id: "7".into(), content: "milk".into() }));
    assert_eq!(
        t,
        "Workspace Notes skill is disabled.\n\nTodoist connector is available. Tools: todoist.create_task, todoist.complete_task. Writes require confirmation.\nLast Todoist task: id=7, content=milk"
    );
    assert!(tool_context(&c, false, &None).ends_with("\nLast Todoist task: none"));
}

#[test]
fn tool_families_and_results() {
    assert_eq!(tool_family("workspace.read_file").unwrap(), ToolFamily::Workspace);
    assert_eq!(tool_family("todoist.create_task").unwrap(), ToolFamily::Todoist);
    assert_eq!(tool_family("x.y").unwrap_err().message(), "unknown tool: x.y");
    let w = workspace_runtime_result(WorkspaceToolResult { tool: "t".into(), summary: "s".into(), content: "c".into() });
    assert!(w.last_todoist_task.is_none() && !w.clear_last_todoist_task);
    let t = todoist_runtime_result(
        "todoist.complete_task",
        TodoistToolResult { tool: "todoist.complete_task".into(), summary: "s".into(), content: "c".into(), task: None },
    );
    assert!(t.clear_last_todoist_task);
}

#[test]
fn saving_a_note_waits_for_confirmation() {
    let mut s = AgentSession::new();
    let save = ToolCall {
        name: "workspace.save_note".into(),
        args: obj(vec![("path", st("ideas.md")), ("content", st("cats"))]),
    };
    match after_check(&mut s, "save that", save) {
        ToolStep::Reply(r) => assert_eq!(r.text, "Save this to `ideas.md` in your workspace?"),
        other => panic!("unexpected {:?}", other),
    }
    assert_eq!(s.pending.as_ref().unwrap().tool.name, "workspace.save_note");
}
