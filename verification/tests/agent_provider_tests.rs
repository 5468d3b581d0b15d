use voice_mcp_host::agent_provider::{
    after_agent_output, after_repair_output, agent_call, agent_json_candidates, balance_json_braces,
    ensure_openai_provider, extract_json_object, first_parsed, draft_workspace_note, openai_api_key,
    parse_agent_result, parse_output_text, pcm_samples, repair_call, speech_call, AgentError, AgentJson,
    AgentStep,
};
use voice_mcp_host::agent_types::{AgentOutputMode, AgentRequest, ToolCall};
use voice_mcp_host::config::{default_agent_config, AgentConfig};
use voice_mcp_host::json::Json;

fn obj(pairs: Vec<(&str, Json)>) -> Json {
    Json::Object(pairs.into_iter().map(|(k, v)| (k.to_string(), v)).collect())
}

fn st(s: &str) -> Json {
    Json::Str(s.to_string())
}

fn enabled_config() -> AgentConfig {
    let mut c = default_agent_config();
    c.enabled = true;
    c.api_key = Some("  sk-test  ".to_string());
    c
}

fn agent_json(mode: &str, text: &str, tool: Option<ToolCall>) -> AgentJson {
    AgentJson { mode: mode.to_string(), text: text.to_string(), tool }
}

#[test]
fn extract_json_object_cuts_between_braces() {
    assert_eq!(
        extract_json_object("Sure! {\"mode\":\"speak\",\"text\":\"hi\"} done").as_deref(),
        Some("{\"mode\":\"speak\",\"text\":\"hi\"}")
    );
}

#[test]
fn extract_json_object_without_closing_runs_to_end() {
    assert_eq!(extract_json_object("x {\"a\":1").as_deref(), Some("{\"a\":1"));
}

#[test]
fn extract_json_object_needs_an_opening_brace() {
    assert_eq!(extract_json_object("no json here"), None);
    assert_eq!(extract_json_object("} before {"), None);
}

#[test]
fn balance_closes_open_braces() {
    assert_eq!(balance_json_braces("  {\"a\":{\"b\":1 "), "{\"a\":{\"b\":1}}");
}

#[test]
fn balance_ignores_braces_in_strings() {
    assert_eq!(balance_json_braces("{\"t\":\"{{\\\"\""), "{\"t\":\"{{\\\"\"}");
}

#[test]
fn balance_leaves_balanced_text() {
    assert_eq!(balance_json_braces("{\"a\":1}"), "{\"a\":1}");
    assert_eq!(balance_json_braces("{}}"), "{}}");
}

#[test]
fn candidates_are_trimmed_extracted_and_balanced() {
    let c = agent_json_candidates("  here: {\"mode\":\"speak\",\"text\":\"x\"  ");
    assert_eq!(c.len(), 3);
    assert_eq!(c[0], "here: {\"mode\":\"speak\",\"text\":\"x\"");
    assert_eq!(c[1], "{\"mode\":\"speak\",\"text\":\"x\"");
    assert_eq!(c[2], "{\"mode\":\"speak\",\"text\":\"x\"}");
}

#[test]
fn first_parsed_takes_the_earliest() {
    let r = first_parsed(vec![None, Some(agent_json("speak", "b", None)), Some(agent_json("insert", "c", None))]);
    assert_eq!(r.unwrap().text, "b");
    assert!(first_parsed(vec![None, None, None]).is_none());
}

#[test]
fn parse_agent_result_reads_modes() {
    let r = parse_agent_result("raw", Some(agent_json(" Speak ", "  Hello  ", None))).unwrap();
    assert_eq!(r.mode, AgentOutputMode::Speak);
    assert_eq!(r.text, "Hello");
    assert!(r.tool_call.is_none());
    let r = parse_agent_result("raw", Some(agent_json("INSERT", "text", None))).unwrap();
    assert_eq!(r.mode, AgentOutputMode::Insert);
    let tool = ToolCall { name: "workspace.list_files".to_string(), args: obj(vec![]) };
    let r = parse_agent_result("raw", Some(agent_json("tool", "listing", Some(tool)))).unwrap();
    assert_eq!(r.mode, AgentOutputMode::Tool);
    assert_eq!(r.tool_call.unwrap().name, "workspace.list_files");
}

#[test]
fn parse_agent_result_errors() {
    match parse_agent_result("garbage", None) {
        Err(AgentError::InvalidJson(o)) => assert_eq!(o, "garbage"),
        other => panic!("unexpected {:?}", other),
    }
    assert!(matches!(parse_agent_result("x", Some(agent_json("speak", "   ", None))), Err(AgentError::EmptyText)));
    match parse_agent_result("x", Some(agent_json(" Shout ", "hi", None))) {
        Err(AgentError::UnsupportedMode(m)) => assert_eq!(m, "shout"),
        other => panic!("unexpected {:?}", other),
    }
    assert!(matches!(
        parse_agent_result("x", Some(agent_json("tool", "hi", None))),
        Err(AgentError::ToolModeWithoutTool)
    ));
}

#[test]
fn agent_error_messages() {
    assert_eq!(AgentError::Disabled.message(), "Agent mode is not enabled. Add an OpenAI API key in Settings.");
    assert_eq!(AgentError::UnsupportedProvider("x".into()).message(), "Unsupported agent provider: x");
    assert_eq!(AgentError::MissingApiKey.message(), "OpenAI API key is missing. Add it in Settings.");
    assert_eq!(AgentError::NoOutputText.message(), "OpenAI response did not include output text");
    assert_eq!(AgentError::EmptyText.message(), "OpenAI agent returned empty text");
    assert_eq!(AgentError::UnsupportedMode("m".into()).message(), "OpenAI agent returned unsupported mode: m");
    assert_eq!(
        AgentError::ToolModeWithoutTool.message(),
        "OpenAI agent returned tool mode without a tool call"
    );
    assert_eq!(AgentError::InvalidJson("o".into()).message(), "OpenAI agent output was not valid JSON: o");
    assert_eq!(
        AgentError::RepairFailed("first".into(), "second".into()).message(),
        "OpenAI agent output was not valid JSON after repair. First error: first. Repaired output: second"
    );
    assert_eq!(AgentError::MissingTtsKey.message(), "OpenAI API key is missing for TTS");
    assert_eq!(AgentError::EmptyAudio.message(), "OpenAI TTS returned empty audio");
    assert_eq!(AgentError::Request("boom".into()).message(), "boom");
    assert_eq!(AgentError::NoToolCall.message(), "agent requested tool mode without a tool call");
}

#[test]
fn provider_checks() {
    let mut c = default_agent_config();
    assert!(matches!(ensure_openai_provider(&c), Err(AgentError::Disabled)));
    c.enabled = true;
    assert!(ensure_openai_provider(&c).is_ok());
    c.provider = "anthropic".into();
    match ensure_openai_provider(&c) {
        Err(AgentError::UnsupportedProvider(p)) => assert_eq!(p, "anthropic"),
        other => panic!("unexpected {:?}", other),
    }
}

#[test]
fn api_key_prefers_trimmed_setting_then_environment() {
    let mut c = default_agent_config();
    c.api_key = Some("  key1 ".into());
    assert_eq!(openai_api_key(&c, Some("env".into())).as_deref(), Some("key1"));
    c.api_key = Some("   ".into());
    assert_eq!(openai_api_key(&c, Some("env".into())).as_deref(), Some("env"));
    c.api_key = None;
    assert_eq!(openai_api_key(&c, None), None);
}

#[test]
fn agent_call_builds_the_request() {
    let mut c = enabled_config();
    c.base_url = "https://example.test/v1//".into();
    let req = AgentRequest {
        command: "hello",
        selected_text: None,
        target_app: "notepad.exe",
        history: &[],
        workspace_context: Some("ws"),
    };
    let call = agent_call(&c, None, req).unwrap();
    assert_eq!(call.url, "https://example.test/v1/responses");
    assert_eq!(call.api_key, "sk-test");
    match &call.body {
        Json::Object(es) => {
            assert_eq!(es.len(), 3);
            assert_eq!(es[0].0, "model");
            assert_eq!(es[1].0, "instructions");
            assert_eq!(es[2].0, "input");
            match &es[2].1 {
                Json::Str(s) => assert_eq!(
                    s,
                    "Recent conversation:\nNo prior turns in this session.\n\nWorkspace context:\nws\n\nTarget app: notepad.exe\nUser command/content:\nhello"
                ),
                _ => panic!("input is not a string"),
            }
        }
        _ => panic!("body is not an object"),
    }
}

#[test]
fn agent_call_refusals() {
    let req = || AgentRequest { command: "x", selected_text: None, target_app: "a", history: &[], workspace_context: None };
    assert!(matches!(agent_call(&default_agent_config(), None, req()), Err(AgentError::Disabled)));
    let mut c = enabled_config();
    c.api_key = None;
    assert!(matches!(agent_call(&c, None, req()), Err(AgentError::MissingApiKey)));
    assert!(agent_call(&c, Some("env".into()), req()).is_ok());
}

#[test]
fn repair_flow() {
    let req = AgentRequest { command: "c", selected_text: None, target_app: "a", history: &[], workspace_context: Some("w") };
    match after_agent_output(req, "oops", None) {
        AgentStep::Repair(input, first) => {
            assert!(input.starts_with(
                "The previous model output was not valid agent JSON.\n\nPrevious output:\noops\n\nOriginal request context:\nRecent conversation:"
            ));
            assert!(input.ends_with("For speak or insert, omit tool or set it to null."));
            assert_eq!(first, "OpenAI agent output was not valid JSON: oops");
        }
        other => panic!("unexpected {:?}", other),
    }
    let req = AgentRequest { command: "c", selected_text: None, target_app: "a", history: &[], workspace_context: None };
    match after_agent_output(req, "ok", Some(agent_json("speak", "fine", None))) {
        AgentStep::Done(r) => assert_eq!(r.text, "fine"),
        other => panic!("unexpected {:?}", other),
    }
    match after_repair_output("first".into(), "still bad", None) {
        Err(AgentError::RepairFailed(f, o)) => {
            assert_eq!(f, "first");
            assert_eq!(o, "still bad");
        }
        other => panic!("unexpected {:?}", other),
    }
    let call = repair_call(&enabled_config(), None, "fix").unwrap();
    assert_eq!(call.url, "https://api.openai.com/v1/responses");
}

#[test]
fn note_draft_uses_the_note_context() {
    let call = draft_workspace_note(&enabled_config(), None, "save a note", "notes.md", &[]).unwrap();
    match &call.body {
        Json::Object(es) => match &es[2].1 {
            Json::Str(s) => assert_eq!(
                s,
                "Recent conversation:\nNo prior turns in this session.\n\nTarget file: notes.md\nUser request:\nsave a note"
            ),
            _ => panic!(),
        },
        _ => panic!(),
    }
}

#[test]
fn speech_call_cases() {
    let mut c = enabled_config();
    assert!(matches!(speech_call(&c, None, "hello"), Ok(None)));
    c.speak_responses = true;
    assert!(matches!(speech_call(&c, None, "   "), Ok(None)));
    let call = speech_call(&c, None, "hello").unwrap().unwrap();
    assert_eq!(call.url, "https://api.openai.com/v1/audio/speech");
    match &call.body {
        Json::Object(es) => {
            assert_eq!(es.len(), 5);
            assert_eq!(es[4].0, "response_format");
        }
        _ => panic!(),
    }
    c.api_key = None;
    assert!(matches!(speech_call(&c, None, "hello"), Err(AgentError::MissingTtsKey)));
}

#[test]
fn pcm_samples_are_little_endian() {
    assert!(matches!(pcm_samples(&[1]), Err(AgentError::EmptyAudio)));
    assert_eq!(pcm_samples(&[0x01, 0x00, 0xff, 0xff, 0x00, 0x80, 7]).unwrap(), vec![1i16, -1, -32768]);
}

#[test]
fn output_text_prefers_output_text() {
    let v = obj(vec![("output_text", st("  hi  "))]);
    assert_eq!(parse_output_text(&v).unwrap(), "hi");
}

#[test]
fn output_text_joins_parts() {
    let part = |t: &str| obj(vec![("type", st("output_text")), ("text", st(t))]);
    let v = obj(vec![(
        "output",
        Json::Array(vec![
            obj(vec![("content", Json::Array(vec![part(" one "), part("   ")]))]),
            obj(vec![("content", Json::Array(vec![part("two")]))]),
        ]),
    )]);
    assert_eq!(parse_output_text(&v).unwrap(), "one\ntwo");
    assert!(matches!(parse_output_text(&obj(vec![])), Err(AgentError::NoOutputText)));
}

#[test]
fn balancing_twice_changes_nothing() {
    for text in ["  {\"a\":{\"b\":1 ", "{\"a\":1}", "{}}", "\n{\"x\":[1,2]\t", ""] {
        let once = balance_json_braces(text);
        assert_eq!(balance_json_braces(&once), once);
    }
}

#[test]
fn tool_answers_keep_their_tool_call() {
    let req = AgentRequest { command: "c", selected_text: None, target_app: "a", history: &[], workspace_context: None };
    let tool = ToolCall { name: "workspace.read_file".into(), args: Json::Object(vec![("path".into(), Json::Str("a.md".into()))]) };
    match after_agent_output(req, "x", Some(agent_json("tool", "reading", Some(tool.copied())))) {
        AgentStep::Done(r) => {
            let t = r.tool_call.expect("tool call kept");
            assert_eq!(t.name, "workspace.read_file");
            assert_eq!(format!("{:?}", t.args), format!("{:?}", tool.args));
        }
        other => panic!("unexpected {:?}", other),
    }
    let r = after_repair_output("first".into(), "x", Some(agent_json("tool", "reading", Some(tool)))).unwrap();
    assert_eq!(r.tool_call.unwrap().name, "workspace.read_file");
}
