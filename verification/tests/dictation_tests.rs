use voice_mcp_host::agent_types::{AgentOutputMode, AgentResult};
use voice_mcp_host::app_state::{after_overlay_hidden, overlay_position, OverlayPayload, RecorderState};
use voice_mcp_host::audio::{capture_duration_ms, max_samples, push_capped, range_with_16k};
use voice_mcp_host::commands::{chat_message, text_preview};
use voice_mcp_host::hotkeys::{fallback_hotkey, hotkey_action, hotkey_changed, shortcut_text, HotkeyAction};
use voice_mcp_host::insertion::{after_clipboard_set, after_restore, after_shortcut, PasteReport, PasteStep};
use voice_mcp_host::logging::{log_dir_path, log_file_name};
use voice_mcp_host::paths::{join, same_path, EnvVars};
use voice_mcp_host::platform::TargetOs;
use voice_mcp_host::recorder::{
    checked_agent_command, config_dir_fallback, failure, focus_settle_delay_ms, parse_agent_command,
    paste_feedback, reply_step, selection_result, selection_sentinel, should_capture_selection,
    start_feedback, stop_step, transcript_step, ReplyStep, StopStep, TranscriptStep,
};

fn env() -> EnvVars {
    EnvVars {
        home: Some("/Users/ann".into()),
        userprofile: None,
        appdata: Some("C:\\Users\\ann\\AppData\\Roaming".into()),
        local_appdata: None,
    }
}

#[test]
fn agent_commands_follow_the_trigger_word() {
    assert_eq!(parse_agent_command("  AGENT, write a haiku.", "agent").as_deref(), Some("write a haiku."));
    assert_eq!(parse_agent_command("Agent", " agent ").as_deref(), Some(""));
    assert_eq!(parse_agent_command("hello agent", "agent"), None);
    assert_eq!(parse_agent_command("agent: - summarize", "agent").as_deref(), Some("summarize"));
    assert_eq!(parse_agent_command("agent anything", "  "), None);
}

#[test]
fn checked_agent_command_reads_ordinary_text() {
    assert_eq!(checked_agent_command("Agent - hi", "agent"), Some(Some("hi".to_string())));
    assert_eq!(checked_agent_command("hello", "agent"), Some(None));
}

#[test]
fn selection_is_not_copied_in_terminals() {
    assert!(!should_capture_selection("WindowsTerminal.exe"));
    assert!(!should_capture_selection("iTerm2"));
    assert!(!should_capture_selection("PowerShell.exe"));
    assert!(should_capture_selection("notepad.exe"));
}

#[test]
fn focus_delays() {
    assert_eq!(focus_settle_delay_ms(TargetOs::Macos), 250);
    assert_eq!(focus_settle_delay_ms(TargetOs::Windows), 80);
}

#[test]
fn fallback_paths() {
    assert_eq!(
        config_dir_fallback(TargetOs::Windows, &env()).as_deref(),
        Some("C:\\Users\\ann\\AppData\\Roaming\\voice-mcp-host\\last_transcript.txt")
    );
    assert_eq!(
        config_dir_fallback(TargetOs::Macos, &env()).as_deref(),
        Some("/Users/ann/Library/Application Support/voice-mcp-host/last_transcript.txt")
    );
    let none = EnvVars { home: None, userprofile: None, appdata: None, local_appdata: None };
    assert_eq!(config_dir_fallback(TargetOs::Macos, &none), None);
}

#[test]
fn selection_marker_and_result() {
    assert_eq!(selection_sentinel(1234), "__voice_mcp_host_selection_1234__");
    assert_eq!(selection_result("  ".into(), "__m__"), None);
    assert_eq!(selection_result("__m__".into(), "__m__"), None);
    assert_eq!(selection_result(" picked ".into(), "__m__").as_deref(), Some(" picked "));
}

#[test]
fn starting_feedback() {
    let f = start_feedback(Ok(()), "F3");
    assert!(matches!(f.state, RecorderState::Recording));
    assert_eq!(f.overlay.subtitle, "Press F3 again to stop");
    let f = start_feedback(Err("no mic".into()), "F3");
    assert!(matches!(&f.state, RecorderState::Error(m) if m == "no mic"));
    assert_eq!(f.overlay.hide_after_ms, Some(7000));
}

#[test]
fn stopping_checks_the_length() {
    assert!(matches!(stop_step(false, 5000, 300), StopStep::Nothing));
    match stop_step(true, 200, 300) {
        StopStep::TooShort(f) => {
            assert!(matches!(&f.state, RecorderState::Error(m) if m == "Recording too short"));
            assert_eq!(f.overlay.title, "Too short");
            assert_eq!(f.overlay.hide_after_ms, Some(4000));
        }
        other => panic!("unexpected {:?}", other),
    }
    match stop_step(true, 300, 300) {
        StopStep::Transcribe(f) => assert_eq!(f.overlay.subtitle, "Turning speech into text"),
        other => panic!("unexpected {:?}", other),
    }
}

#[test]
fn transcripts_go_to_the_agent_or_get_pasted() {
    match transcript_step("   ".into(), None, false) {
        TranscriptStep::NothingHeard(f) => assert_eq!(f.overlay.title, "Nothing heard"),
        other => panic!("unexpected {:?}", other),
    }
    match transcript_step("agent hi".into(), Some("hi".into()), false) {
        TranscriptStep::Ask(c, f) => {
            assert_eq!(c, "hi");
            assert_eq!(f.overlay.title, "Thinking");
        }
        other => panic!("unexpected {:?}", other),
    }
    match transcript_step(" yes ".into(), None, true) {
        TranscriptStep::Ask(c, _) => assert_eq!(c, "yes"),
        other => panic!("unexpected {:?}", other),
    }
    match transcript_step(" dictated text ".into(), None, false) {
        TranscriptStep::Paste(t, f) => {
            assert_eq!(t, " dictated text ");
            assert!(matches!(f.state, RecorderState::Pasting));
        }
        other => panic!("unexpected {:?}", other),
    }
}

#[test]
fn replies_are_spoken_or_pasted() {
    let spoken = AgentResult { mode: AgentOutputMode::Speak, text: "hello".into(), tool_call: None };
    match reply_step(Ok(spoken)) {
        ReplyStep::Speak(t, f, g) => {
            assert_eq!(t, "hello");
            assert_eq!(f.overlay.state, "speaking");
            assert_eq!(g.overlay.subtitle, "Response spoken");
        }
        other => panic!("unexpected {:?}", other),
    }
    let inserted = AgentResult { mode: AgentOutputMode::Insert, text: "text".into(), tool_call: None };
    assert!(matches!(reply_step(Ok(inserted)), ReplyStep::Paste(_, _)));
    match reply_step(Err("boom".into())) {
        ReplyStep::Failed(f) => assert_eq!(f.overlay.title, "Agent failed"),
        other => panic!("unexpected {:?}", other),
    }
}

#[test]
fn paste_feedback_shows_the_error() {
    let ok = PasteReport {
        paste_status: "success".into(),
        clipboard_restore_status: "success".into(),
        error_message: String::new(),
        recovery_action: String::new(),
    };
    assert_eq!(paste_feedback(&ok).overlay.title, "Inserted");
    let bad = PasteReport { paste_status: "failed".into(), ..ok.clone() };
    assert_eq!(paste_feedback(&bad).overlay.subtitle, "Paste failed - transcript is on clipboard");
    let bad = PasteReport { paste_status: "failed".into(), error_message: "set_clipboard failed: x".into(), ..ok };
    assert_eq!(paste_feedback(&bad).overlay.subtitle, "set_clipboard failed: x");
    assert_eq!(failure("No model", "m".into()).overlay.state, "error");
}

#[test]
fn paste_steps() {
    match after_clipboard_set(Err("busy".into())) {
        PasteStep::SetAgain(r) => {
            assert_eq!(r.error_message, "set_clipboard failed: busy");
            assert_eq!(r.recovery_action, "transcript_on_clipboard");
        }
        other => panic!("unexpected {:?}", other),
    }
    assert!(matches!(after_clipboard_set(Ok(())), PasteStep::SendShortcut));
    match after_shortcut(TargetOs::Macos, Ok(())) {
        PasteStep::Done(r, save) => {
            assert!(!save);
            assert_eq!(r.clipboard_restore_status, "skipped_macos_transcript_left_on_clipboard");
        }
        other => panic!("unexpected {:?}", other),
    }
    assert!(matches!(after_shortcut(TargetOs::Windows, Ok(())), PasteStep::Restore));
    match after_shortcut(TargetOs::Windows, Err("denied".into())) {
        PasteStep::Done(r, save) => {
            assert!(save);
            assert_eq!(r.error_message, "send_paste_shortcut failed: denied");
        }
        other => panic!("unexpected {:?}", other),
    }
    assert_eq!(after_restore(None).0.clipboard_restore_status, "no_original");
    assert_eq!(after_restore(Some(Ok(()))).0.clipboard_restore_status, "success");
    let (r, save) = after_restore(Some(Err("x".into())));
    assert_eq!(r.clipboard_restore_status, "restore_failed: x");
    assert!(save);
}

#[test]
fn hotkey_is_ignored_while_busy() {
    assert_eq!(hotkey_action(&RecorderState::Idle), HotkeyAction::Start);
    assert_eq!(hotkey_action(&RecorderState::Error("x".into())), HotkeyAction::Start);
    assert_eq!(hotkey_action(&RecorderState::Recording), HotkeyAction::Stop);
    assert_eq!(hotkey_action(&RecorderState::Transcribing), HotkeyAction::Ignore);
    assert_eq!(hotkey_action(&RecorderState::Pasting), HotkeyAction::Ignore);
}

#[test]
fn hotkey_text() {
    assert_eq!(shortcut_text(" f3 "), "F3");
    assert_eq!(shortcut_text("ctrl+shift+space"), "CTRL+SHIFT+SPACE");
    assert_eq!(fallback_hotkey(TargetOs::Macos), "F5");
    assert_eq!(fallback_hotkey(TargetOs::Windows), "F2");
    assert!(hotkey_changed("F3", "F4"));
    assert!(!hotkey_changed("F3", "F3"));
}

#[test]
fn overlay_rules() {
    assert_eq!(RecorderState::Ready.label(), "ready");
    assert_eq!(RecorderState::Error("e".into()).label(), "error");
    let idle = OverlayPayload::idle();
    assert_eq!(idle.state, "idle");
    assert!(idle.hide_after_ms.is_none());
    assert!(matches!(after_overlay_hidden(&RecorderState::Ready), Some((RecorderState::Idle, _))));
    assert!(after_overlay_hidden(&RecorderState::Recording).is_none());
    assert_eq!(overlay_position(1920, 1080), (765, 842));
    assert_eq!(overlay_position(100, 100), (0, 0));
}

#[test]
fn audio_arithmetic() {
    assert_eq!(capture_duration_ms(32000, 16000, 1), 2000);
    assert_eq!(capture_duration_ms(96000, 48000, 2), 1000);
    assert_eq!(max_samples(16000, 1, 120), 1_920_000);
    let mut buf = vec![1, 2];
    push_capped(&mut buf, &[3, 4, 5], 4);
    assert_eq!(buf, vec![1, 2, 3, 4]);
    push_capped(&mut buf, &[6], 4);
    assert_eq!(buf, vec![1, 2, 3, 4]);
    assert_eq!(range_with_16k(&[(44100, 48000), (8000, 48000)]), Some(1));
    assert_eq!(range_with_16k(&[(44100, 48000)]), None);
}

#[test]
fn logging_paths() {
    assert_eq!(log_dir_path(TargetOs::Windows, &env()), "C:\\Users\\ann\\AppData\\Roaming\\voice-mcp-host\\logs");
    assert_eq!(log_dir_path(TargetOs::Macos, &env()), "/Users/ann/Library/Logs/voice-mcp-host");
    let none = EnvVars { home: None, userprofile: None, appdata: None, local_appdata: None };
    assert_eq!(log_dir_path(TargetOs::Macos, &none), "./Library/Logs/voice-mcp-host");
    assert_eq!(log_file_name("2025-01-02"), "events-2025-01-02.jsonl");
}

#[test]
fn chat_preview_and_message() {
    assert_eq!(text_preview("  hello   world \n again ", 220), "hello world again");
    assert_eq!(text_preview("abcdefghij", 8), "abcde...");
    assert_eq!(text_preview("abcdef", 2), "...");
    assert_eq!(chat_message("  hi  ").unwrap(), "hi");
    assert_eq!(chat_message("   ").unwrap_err(), "Message is empty");
}

#[test]
fn joining_onto_a_bare_drive_adds_no_separator() {
    assert_eq!(join(TargetOs::Windows, "C:", "x"), "C:x");
    assert_eq!(join(TargetOs::Windows, "C:\\", "x"), "C:\\x");
    assert_eq!(join(TargetOs::Windows, "C:\\m", "x"), "C:\\m\\x");
    assert_eq!(join(TargetOs::Macos, "C:", "x"), "C:/x");
}

#[test]
fn paths_are_compared_by_components() {
    assert!(same_path(TargetOs::Macos, "/a/b", "/a//b/"));
    assert!(same_path(TargetOs::Macos, "a/./b", "a/b"));
    assert!(!same_path(TargetOs::Macos, "a", "/a"));
    assert!(!same_path(TargetOs::Macos, "./a", "a"));
    assert!(same_path(TargetOs::Windows, "C:\\m\\x", "C:/m/x"));
    assert!(!same_path(TargetOs::Macos, "C:\\m\\x", "C:/m/x"));
}
