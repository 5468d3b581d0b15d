use voice_mcp_host::agent_memory::{append_turns, format_history, trim_session, with_tool_result};
use voice_mcp_host::agent_prompts::{agent_context, agent_instructions, note_draft_context, note_draft_instructions};
use voice_mcp_host::agent_tools::{
    best_existing_note, clean_markdown_path, clean_markdown_segment, coerce_workspace_note_write,
    extract_markdown_path, infer_workspace_note_path, mentions_workspace_note, normalize_note_name,
    normalize_workspace_tool, normalized_stem, prepare_direct_workspace_note_write, preferred_note_write_tool,
};
use voice_mcp_host::agent_types::{AgentRequest, AgentSessionTurn, ToolCall};
use voice_mcp_host::browser;
use voice_mcp_host::config::{default_config, BrowserConfig, TodoistConfig, WorkspaceConfig};
use voice_mcp_host::json::Json;
use voice_mcp_host::paths::EnvVars;
use voice_mcp_host::platform::{check_ax_permission, hash_title, hex16, macos_permissions, u64_to_decimal, PermissionState, TargetOs, TargetWindow};
use voice_mcp_host::todoist;
use voice_mcp_host::tool_error::ToolError;
use voice_mcp_host::workspace::{self, PathPart};

fn obj(pairs: Vec<(&str, Json)>) -> Json {
    Json::Object(pairs.into_iter().map(|(k, v)| (k.to_string(), v)).collect())
}

fn st(s: &str) -> Json {
    Json::Str(s.to_string())
}

fn turn(role: &str, content: &str, mode: Option<&str>) -> AgentSessionTurn {
    AgentSessionTurn { role: role.into(), content: content.into(), mode: mode.map(|m| m.to_string()) }
}

fn env() -> EnvVars {
    EnvVars { home: Some("/home/ann".into()), userprofile: None, appdata: None, local_appdata: Some("C:\\L".into()) }
}

#[test]
fn history_shows_the_last_twelve_turns() {
    assert_eq!(format_history(&[]), "No prior turns in this session.");
    let h = vec![turn("user", "hi", None), turn("assistant", "hello", Some("speak"))];
    assert_eq!(format_history(&h), "user: hi\nassistant (speak): hello");
    let many: Vec<_> = (0..15).map(|i| turn("user", &i.to_string(), None)).collect();
    let text = format_history(&many);
    assert!(text.starts_with("user: 3\n"));
    assert!(text.ends_with("user: 14"));
}

#[test]
fn sessions_keep_forty_turns() {
    let mut s: Vec<AgentSessionTurn> = Vec::new();
    for i in 0..25 {
        append_turns(&mut s, &format!(" q{i} "), &format!(" a{i} "), "speak");
    }
    assert_eq!(s.len(), 40);
    assert_eq!(s[38].content, "q24");
    assert_eq!(s[39].content, "a24");
    assert_eq!(s[39].mode.as_deref(), Some("speak"));
    let mut t: Vec<AgentSessionTurn> = (0..45).map(|i| turn("user", &i.to_string(), None)).collect();
    trim_session(&mut t);
    assert_eq!(t.len(), 40);
    assert_eq!(t[0].content, "5");
    let w = with_tool_result(&[], " cmd ", "sum", "body");
    assert_eq!(w[1].content, "sum\n\nbody");
    assert_eq!(w[1].mode.as_deref(), Some("workspace"));
}

#[test]
fn prompts() {
    assert!(agent_instructions().starts_with("You are voice-mcp-host's voice agent."));
    assert!(note_draft_instructions().starts_with("You draft Markdown note file content"));
    let req = AgentRequest { command: "fix this", selected_text: Some("  teh cat "), target_app: "Word", history: &[], workspace_context: None };
    assert_eq!(
        agent_context(req),
        "Recent conversation:\nNo prior turns in this session.\n\nWorkspace context:\nWorkspace Notes skill is unavailable. No workspace folder is configured.\n\nTarget app: Word\nUser command:\nfix this\n\nSelected text:\nteh cat"
    );
    assert_eq!(
        note_draft_context("note it", "a.md", &[]),
        "Recent conversation:\nNo prior turns in this session.\n\nTarget file: a.md\nUser request:\nnote it"
    );
}

#[test]
fn note_paths() {
    assert_eq!(extract_markdown_path("save to \"Meeting Notes.md\" please").as_deref(), Some("Notes.md"));
    assert_eq!(extract_markdown_path("put it in projects\\Q3 plan.md.").as_deref(), Some("plan.md"));
    assert_eq!(extract_markdown_path("put it in projects\\Q3_plan!.md.").as_deref(), Some("projects/Q3-plan.md"));
    assert_eq!(extract_markdown_path("no path here"), None);
    assert_eq!(clean_markdown_path("a\\\\b//My File!.md"), "a/b/My-File.md");
    assert_eq!(clean_markdown_segment("!!.md"), "note.md");
    assert_eq!(clean_markdown_segment("readme.txt"), "readme.txt");
    assert_eq!(normalize_note_name("To-Do List!"), "todolist");
    assert_eq!(normalized_stem("notes/My Ideas.markdown"), "myideas");
    assert!(mentions_workspace_note("add this to my ideas"));
    assert!(!mentions_workspace_note("what time is it"));
}

#[test]
fn existing_notes_are_reused() {
    let files = vec!["archive/old-notes.md".to_string(), "To-Do.md".to_string(), "tasks.txt".to_string()];
    assert_eq!(best_existing_note(&files, &["to-do", "todo", "tasks", "task"]).as_deref(), Some("To-Do.md"));
    assert_eq!(best_existing_note(&files, &["notes", "note"]).as_deref(), Some("archive/old-notes.md"));
    assert_eq!(best_existing_note(&files, &["ideas"]), None);
    assert_eq!(infer_workspace_note_path("add milk to my todo list", Some(&files)).as_deref(), Some("To-Do.md"));
    assert_eq!(infer_workspace_note_path("add an idea", None).as_deref(), Some("ideas.md"));
    assert_eq!(infer_workspace_note_path("write to plan.md", None).as_deref(), Some("plan.md"));
    assert_eq!(infer_workspace_note_path("hello", None), None);
}

#[test]
fn note_writes() {
    assert_eq!(preferred_note_write_tool(false, "create a new note about cats"), "workspace.create_note");
    assert_eq!(preferred_note_write_tool(true, "create a new note about cats"), "workspace.save_note");
    assert_eq!(preferred_note_write_tool(false, "save a note"), "workspace.save_note");
    let c = coerce_workspace_note_write("save this in my notes", "  text  ", None).unwrap();
    assert_eq!(c.name, "workspace.save_note");
    assert!(coerce_workspace_note_write("translate this", "x", None).is_none());
    assert_eq!(prepare_direct_workspace_note_write(true, "write a note about cats", None).as_deref(), Some("notes.md"));
    assert_eq!(prepare_direct_workspace_note_write(false, "write a note about cats", None), None);
    let create = ToolCall { name: "workspace.create_note".into(), args: obj(vec![("path", st("a.md")), ("content", st("x"))]) };
    assert_eq!(normalize_workspace_tool(create, true).name, "workspace.save_note");
    let append = ToolCall { name: "workspace.append_note".into(), args: obj(vec![("path", st("a.md")), ("content", st("x"))]) };
    assert_eq!(normalize_workspace_tool(append, true).name, "workspace.append_note");
    let read = ToolCall { name: "workspace.read_file".into(), args: obj(vec![("path", st("a.md"))]) };
    assert_eq!(normalize_workspace_tool(read, false).name, "workspace.read_file");
}

#[test]
fn workspace_skill() {
    let off = WorkspaceConfig { enabled: false, folder_path: None };
    assert_eq!(workspace::context(&off, false), "Workspace Notes skill is disabled.");
    let blank = WorkspaceConfig { enabled: true, folder_path: Some("  ".into()) };
    assert_eq!(workspace::context(&blank, false), "Workspace Notes skill is enabled, but no folder path is configured.");
    let on = WorkspaceConfig { enabled: true, folder_path: Some("~/notes".into()) };
    assert_eq!(workspace::context(&on, false), "Workspace Notes skill is enabled, but the folder does not exist: ~/notes");
    assert!(workspace::context(&on, true).starts_with("Workspace Notes skill is available."));
    assert_eq!(workspace::root_path(&on, TargetOs::Macos, &env()).unwrap(), "/home/ann/notes");
    assert!(matches!(workspace::root_path(&off, TargetOs::Macos, &env()), Err(ToolError::Disabled(_))));
    assert_eq!(workspace::root_path(&blank, TargetOs::Macos, &env()).unwrap_err().message(), "workspace folder path is not configured");
    let st_on = workspace::status(&on, true);
    assert!(st_on.enabled && st_on.configured && st_on.exists);
    assert!(workspace::requires_confirmation("workspace.append_note"));
    assert!(workspace::requires_confirmation("workspace.save_note"));
}

#[test]
fn workspace_checks() {
    assert!(workspace::is_text_path("Notes.MD"));
    assert!(workspace::is_text_path("a.text"));
    assert!(!workspace::is_text_path("a.pdf"));
    assert!(!workspace::is_text_path(".md"));
    assert_eq!(workspace::ensure_markdown_or_text_path("a.pdf").unwrap_err().message(), "workspace v1 only supports .md, .markdown, .txt, and .text files");
    assert!(workspace::check_relative_path(false, &[PathPart::Normal, PathPart::CurDir]).is_ok());
    assert!(matches!(workspace::check_relative_path(false, &[PathPart::ParentDir]), Err(ToolError::PathEscapes)));
    assert!(matches!(workspace::check_relative_path(true, &[]), Err(ToolError::NotRelative)));
    assert_eq!(workspace::check_relative_path(true, &[]).unwrap_err().message(), "workspace paths must be relative");
    assert_eq!(workspace::validate_tool_args("workspace.search_files", &obj(vec![])).unwrap_err().message(), "missing required string argument: query");
    assert_eq!(workspace::validate_tool_args("workspace.x", &obj(vec![])).unwrap_err().message(), "unknown workspace tool: workspace.x");
}

#[test]
fn workspace_results() {
    let l = workspace::list_result(&["a.md".to_string(), "b/c.txt".to_string()]);
    assert_eq!(l.summary, "Found 2 text files.");
    assert_eq!(l.content, "a.md\nb/c.txt");
    assert_eq!(workspace::list_result(&[]).content, "No Markdown or text files found.");
    let files = vec![("a.md".to_string(), "Alpha\n  beta PRICING  \nzeta".to_string()), ("b.md".to_string(), "pricing!".to_string())];
    let s = workspace::search_result(&files, "Pricing");
    assert_eq!(s.summary, "Found 2 matches for \"Pricing\".");
    assert_eq!(s.content, "a.md:2: beta PRICING\nb.md:1: pricing!");
    assert_eq!(workspace::search_result(&files, "zzz").content, "No matches found.");
    let r = workspace::read_result("a.md", "x".repeat(16001));
    assert_eq!(r.summary, "Read a.md.");
    assert!(r.content.ends_with("\n...[truncated]"));
    assert_eq!(r.content.len(), 16000 + "\n...[truncated]".len());
    assert_eq!(workspace::truncate("short".into(), 10), "short");
    assert_eq!(workspace::plan_write("workspace.save_note", "a.md", true).unwrap(), true);
    assert_eq!(workspace::plan_write("workspace.save_note", "a.md", false).unwrap(), false);
    assert_eq!(
        workspace::plan_write("workspace.create_note", "a.md", true).unwrap_err().message(),
        "file already exists: a.md. Use append_note or choose another path."
    );
    assert_eq!(workspace::write_result("a.md", true).summary, "Appended to a.md.");
    assert_eq!(workspace::write_result("a.md", false).tool, "workspace.create_note");
}

#[test]
fn todoist_connector() {
    let off = TodoistConfig { enabled: false, api_token: None };
    let no_token = TodoistConfig { enabled: true, api_token: Some(" ".into()) };
    let on = TodoistConfig { enabled: true, api_token: Some(" tok ".into()) };
    assert_eq!(todoist::context(&off), "Todoist connector is disabled.");
    assert_eq!(todoist::context(&no_token), "Todoist connector is enabled, but no API token is configured.");
    assert_eq!(todoist::token(&on).as_deref(), Some("tok"));
    let args = obj(vec![("content", st("milk")), ("description", st("  2L ")), ("due_string", st(" "))]);
    let r = todoist::create_task_request(&on, &args).unwrap();
    assert_eq!(r.url, "https://api.todoist.com/api/v1/tasks");
    assert_eq!(r.token, "tok");
    assert_eq!(todoist::create_task_request(&off, &args).unwrap_err().message(), "Todoist connector is disabled");
    assert_eq!(todoist::create_task_request(&no_token, &args).unwrap_err().message(), "Todoist API token is not configured");
    let c = todoist::complete_task_request(&on, &obj(vec![("task_id", st("9"))])).unwrap();
    assert_eq!(c.url, "https://api.todoist.com/api/v1/tasks/9/close");
    assert!(c.body.is_none());
    assert_eq!(todoist::validate_tool_args("todoist.complete_task", &obj(vec![])).unwrap_err().message(), "missing required string argument: task_id");
    assert_eq!(todoist::confirmation_text("todoist.other", &obj(vec![])), "Run `todoist.other`?");
    let reply = obj(vec![("id", st("55")), ("content", st("milk"))]);
    let res = todoist::create_task_result("milk", "{..}".into(), Some(&reply));
    assert_eq!(res.summary, "Created Todoist task: milk.");
    assert_eq!(res.task.unwrap().id, "55");
    assert!(todoist::create_task_result("milk", "x".into(), None).task.is_none());
    let done = todoist::complete_task_result(&obj(vec![("task_id", st("9"))]), "".into());
    assert_eq!(done.summary, "Completed Todoist task: task.");
}

#[test]
fn browser_connector() {
    let off = BrowserConfig { enabled: false };
    let on = BrowserConfig { enabled: true };
    assert_eq!(browser::context(&off), "Browser connector is disabled.");
    assert!(browser::context(&on).starts_with("Browser connector is available in read-only mode."));
    assert!(browser::validate_url(" HTTPS://example.com ").is_ok());
    assert_eq!(browser::validate_url("ftp://x").unwrap_err().message(), "browser URL must start with http:// or https://");
    assert!(browser::validate_tool_args("browser.search_web", &obj(vec![("query", st("rust"))])).is_ok());
    assert!(browser::validate_tool_args("browser.open_url", &obj(vec![("url", st("file:///etc"))])).is_err());
    assert!(!browser::requires_confirmation("browser.open_url"));
    assert!(browser::execute_payload(&off, "browser.search_web", &obj(vec![("query", st("rust"))])).is_err());
    match browser::execute_payload(&on, "browser.search_web", &obj(vec![("query", st("rust"))])).unwrap() {
        Json::Object(es) => {
            assert_eq!(es[0].0, "tool");
            assert_eq!(es[1].0, "args");
        }
        _ => panic!(),
    }
    assert_eq!(browser::sidecar_failure_message(" oops ", " out "), "browser sidecar failed: oops; stdout: out");
    assert_eq!(browser::sidecar_failure_message("oops", "  "), "browser sidecar failed: oops");
}

#[test]
fn configuration_defaults_and_paths() {
    let w = default_config(TargetOs::Windows);
    assert_eq!(w.dictation.primary_hotkey, "F3");
    assert_eq!(w.asr.faster_whisper_device, "cuda");
    let m = default_config(TargetOs::Macos);
    assert_eq!(m.dictation.primary_hotkey, "F5");
    assert_eq!(m.asr.model_name, "ggml-large-v3-turbo-q5_0.bin");
    assert_eq!(m.agent.tts_voice, "coral");
    assert_eq!(w.model_cache_dir(TargetOs::Windows, &env()), "C:\\L\\voice-mcp-host\\models");
    assert_eq!(m.model_cache_dir(TargetOs::Macos, &env()), "/home/ann/Library/Application Support/voice-mcp-host/models");
    let mut c = default_config(TargetOs::Windows);
    c.asr.model_cache_dir = Some("%LOCALAPPDATA%\\m".into());
    assert_eq!(c.model_cache_dir(TargetOs::Windows, &env()), "C:\\L\\m");
    assert_eq!(voice_mcp_host::config::config_path(TargetOs::Macos, &env()).as_deref(), Some("/home/ann/Library/Application Support/voice-mcp-host/config.json"));
    assert_eq!(voice_mcp_host::config::config_path(TargetOs::Windows, &env()), None);
}

#[test]
fn platform_helpers() {
    assert_eq!(hex16(255), "00000000000000ff");
    assert_eq!(u64_to_decimal(1203), "1203");
    let h = hash_title("Untitled - Notepad");
    assert_eq!(h.len(), 16);
    assert_eq!(h, hash_title("Untitled - Notepad"));
    assert_ne!(h, hash_title("Other"));
    assert_eq!(check_ax_permission(true), PermissionState::Granted);
    assert_eq!(macos_permissions(false).accessibility, PermissionState::Denied);
    let t = TargetWindow { hwnd: Some(5), title: "T".into(), title_hash: "h".into(), process_name: "p.exe".into(), pid: None };
    match t.context_json() {
        Json::Object(es) => {
            assert_eq!(es.len(), 5);
            assert!(matches!(&es[0].1, Json::Number(n) if n == "5"));
            assert!(matches!(&es[4].1, Json::Null));
        }
        _ => panic!(),
    }
}

#[test]
fn browser_argument_errors() {
    let e = browser::validate_tool_args("browser.open_url", &obj(vec![])).unwrap_err();
    assert_eq!(e.message(), "missing required string argument: url");
    let e = browser::validate_tool_args("browser.extract_page_text", &obj(vec![("url", st("mailto:x"))])).unwrap_err();
    assert_eq!(e.message(), "browser URL must start with http:// or https://");
    let e = browser::validate_tool_args("browser.search_web", &obj(vec![("query", st("   "))])).unwrap_err();
    assert_eq!(e.message(), "missing required string argument: query");
    let e = browser::validate_tool_args("browser.click", &obj(vec![])).unwrap_err();
    assert_eq!(e.message(), "unknown browser tool: browser.click");
}

#[test]
fn note_key_twice_is_the_same_key() {
    for name in ["To-Do List", "ideas.md", "  Notes 2024!", "ÄbC-9"] {
        let once = normalize_note_name(name);
        assert_eq!(normalize_note_name(&once), once);
    }
    assert_eq!(normalize_note_name("To-Do List"), normalize_note_name("todo_list"));
}
