use vstd::prelude::*;

use crate::agent_runtime::{mode_label, mode_text, AgentSession};
use crate::agent_types::{AgentOutputMode, AgentResult, AgentSessionTurn};
use crate::app_state::RecorderState;
use crate::config::Config;
use crate::model_store::EngineStatus;
use crate::platform::PermissionsStatus;
use crate::text::{chars_of, join, join_chars, slice_chars, string_of, trim, trim_str, words, words_chars, CharClass};
use crate::workspace::WorkspaceStatus;

verus! {

/// What the settings window shows about the app.
#[derive(Debug)]
pub struct AppStatus {
    pub model_downloaded: bool,
    pub engine_downloaded: bool,
    pub gpu_detected: bool,
    pub preferred_acceleration: String,
    pub active_acceleration: Option<String>,
    pub model_name: String,
    pub transcriber_ready: bool,
    pub recorder_state: String,
    pub permissions: PermissionsStatus,
    pub workspace: WorkspaceStatus,
}

/// The app's status: the model counts as downloaded for faster-whisper (which
/// fetches its own) or when its file exists; the engine facts come from the
/// engine status.
pub fn app_status(
    cfg: &Config,
    model_file_exists: bool,
    engine: EngineStatus,
    transcriber_ready: bool,
    recorder: &RecorderState,
    permissions: PermissionsStatus,
    workspace: WorkspaceStatus,
) -> (r: AppStatus)
    ensures
        r.model_downloaded == (cfg.asr.backend@ == "faster_whisper"@ || model_file_exists),
        r.engine_downloaded == engine.engine_downloaded,
        r.gpu_detected == engine.gpu_detected,
        r.preferred_acceleration == engine.preferred_acceleration,
        r.active_acceleration == engine.active_acceleration,
        r.model_name@ == cfg.asr.model_name@,
        r.transcriber_ready == transcriber_ready,
        r.recorder_state@ == recorder.label_text(),
        r.permissions == permissions,
        r.workspace == workspace,
{
    let model_downloaded = crate::text::str_eq(cfg.asr.backend.as_str(), "faster_whisper") || model_file_exists;
    AppStatus {
        model_downloaded,
        engine_downloaded: engine.engine_downloaded,
        gpu_detected: engine.gpu_detected,
        preferred_acceleration: engine.preferred_acceleration,
        active_acceleration: engine.active_acceleration,
        model_name: cfg.asr.model_name.clone(),
        transcriber_ready,
        recorder_state: String::from_str(recorder.label()),
        permissions,
        workspace,
    }
}

/// The answer to a chat message: the conversation so far, the answer's mode
/// and its text.
#[derive(Debug)]
pub struct AgentChatResponse {
    pub messages: Vec<AgentSessionTurn>,
    pub mode: String,
    pub text: String,
}

/// A chat message as the agent gets it: trimmed; an empty one is refused.
pub fn chat_message(message: &str) -> (r: Result<String, String>)
    ensures
        trim(message@, CharClass::Whitespace).len() == 0 ==> (r matches Err(e) && e@ == "Message is empty"@),
        trim(message@, CharClass::Whitespace).len() > 0 ==> (r matches Ok(m) && m@ == trim(message@, CharClass::Whitespace)),
{
    let m = trim_str(message, CharClass::Whitespace);
    if m.as_str().unicode_len() == 0 {
        Err(String::from_str("Message is empty"))
    } else {
        Ok(m)
    }
}

/// The name the chat gives the session's source app.
pub const CHAT_TARGET: &'static str = "voice-mcp-host chat";

/// The answer to a chat message: the session's turns, the mode's label and
/// the answer's text.
pub fn chat_response(messages: Vec<AgentSessionTurn>, result: AgentResult) -> (r: AgentChatResponse)
    ensures
        r.messages@ == messages@,
        r.mode@ == mode_text(result.mode),
        r.text == result.text,
{
    AgentChatResponse { messages, mode: String::from_str(mode_label(result.mode)), text: result.text }
}

/// Whether a chat answer is also spoken: when it is a spoken answer and
/// spoken answers are on.
pub fn chat_should_speak(result: &AgentResult, cfg: &Config) -> (r: bool)
    ensures
        r == (result.mode == AgentOutputMode::Speak && cfg.agent.speak_responses),
{
    result.mode == AgentOutputMode::Speak && cfg.agent.speak_responses
}

/// A short preview of a text: its words joined by single spaces, cut to
/// `max_chars` characters with `...` (taking three from the limit) when longer.
pub open spec fn preview(text: Seq<char>, max_chars: nat) -> Seq<char> {
    let n = join(words(text, CharClass::Whitespace), " "@);
    if n.len() <= max_chars {
        n
    } else {
        n.take(if max_chars >= 3 {
            max_chars - 3
        } else {
            0
        }) + "..."@
    }
}

/// A short preview of a text (see `preview`).
pub fn text_preview(text: &str, max_chars: usize) -> (r: String)
    ensures
        r@ == preview(text@, max_chars as nat),
{
    let v = chars_of(text);
    let ws = words_chars(v.as_slice(), CharClass::Whitespace);
    let sp = chars_of(" ");
    let n = join_chars(&ws, sp.as_slice());
    if n.len() <= max_chars {
        return string_of(n.as_slice());
    }
    let keep: usize = if max_chars >= 3 {
        max_chars - 3
    } else {
        0
    };
    let mut p = slice_chars(n.as_slice(), 0, keep);
    assert(p@ == n@.take(keep as int));
    let dots = chars_of("...");
    crate::text::append_chars(&mut p, dots.as_slice());
    string_of(p.as_slice())
}

/// Whether the transcriber is loaded: always for faster-whisper; for
/// whisper.cpp only when the model file and an engine are there.
pub fn should_load_transcriber(cfg: &Config, model_exists: bool, engine_downloaded: bool) -> (r: bool)
    ensures
        r == (cfg.asr.backend@ == "faster_whisper"@ || (model_exists && engine_downloaded)),
{
    crate::text::str_eq(cfg.asr.backend.as_str(), "faster_whisper") || (model_exists && engine_downloaded)
}

/// Clears the conversation and drops the call waiting for confirmation; the
/// last Todoist task is kept.
pub fn clear_agent_session(session: &mut AgentSession)
    ensures
        final(session).turns@.len() == 0,
        final(session).pending is None,
        final(session).last_task == old(session).last_task,
{
    session.turns.clear();
    session.pending = None;
}

/// A preview is never longer than its limit, once the limit leaves room for
/// the three dots.
pub proof fn law_preview_fits(text: Seq<char>, max_chars: nat)
    requires
        max_chars >= 3,
    ensures
        preview(text, max_chars).len() <= max_chars,
{
    reveal_strlit("...");
    assert("..."@.len() == 3);
}

} // verus!
