use vstd::prelude::*;

use crate::agent_types::{AgentOutputMode, AgentResult};
use crate::app_state::{overlay, shows, OverlayPayload, RecorderState};
use crate::insertion::PasteReport;
use crate::paths::{join, join_path, EnvVars};
use crate::platform::TargetOs;
use crate::text::{
    chars_of, contains, contains_chars, lower, lower_chars, starts_with, starts_with_str, str_eq,
    string_of, to_lowercase, trim, trim_chars, trim_start, trim_start_chars, trim_str, unicode_lower,
    CharClass,
};
use vstd::string::StringSliceAdditionalSpecFns;
use vstd::utf8::{decode_utf8, encode_utf8, is_char_boundary};

verus! {

/// Apps whose selection is not copied before recording: terminals, where a
/// copy shortcut would interrupt (`l` is the lower-cased process name).
pub open spec fn blocked_process(l: Seq<char>) -> bool {
    ||| contains(l, "cmd.exe"@)
    ||| contains(l, "powershell.exe"@)
    ||| contains(l, "pwsh.exe"@)
    ||| contains(l, "windowsterminal.exe"@)
    ||| contains(l, "terminal"@)
    ||| contains(l, "iterm2"@)
}

/// The process names (lower-cased, as parts) of terminals, where no copy
/// shortcut may be sent.
pub open spec fn terminal_markers() -> Seq<Seq<char>> {
    seq!["cmd.exe"@, "powershell.exe"@, "pwsh.exe"@, "windowsterminal.exe"@, "terminal"@, "iterm2"@]
}

/// No selection is captured in a terminal: a process whose lower-cased name
/// holds any of the terminal markers (`cmd.exe`, `powershell.exe`,
/// `pwsh.exe`, `windowsterminal.exe`, `terminal`, `iterm2`) is never sent the
/// copy shortcut, and every other process is.
pub proof fn law_terminals_are_left_alone(process_name: Seq<char>)
    ensures
        (exists|k: int| 0 <= k < terminal_markers().len() && contains(lower(process_name), #[trigger] terminal_markers()[k]))
            <==> blocked_process(lower(process_name)),
{
    let l = lower(process_name);
    let m = terminal_markers();
    if blocked_process(l) {
        if contains(l, "cmd.exe"@) {
            assert(contains(l, m[0]));
        } else if contains(l, "powershell.exe"@) {
            assert(contains(l, m[1]));
        } else if contains(l, "pwsh.exe"@) {
            assert(contains(l, m[2]));
        } else if contains(l, "windowsterminal.exe"@) {
            assert(contains(l, m[3]));
        } else if contains(l, "terminal"@) {
            assert(contains(l, m[4]));
        } else {
            assert(contains(l, m[5]));
        }
    }
}

/// Whether the selection is copied before recording into this process: not
/// in terminals.
pub fn should_capture_selection(process_name: &str) -> (r: bool)
    ensures
        r == !blocked_process(lower(process_name@)),
{
    let v = chars_of(process_name);
    let lv = lower_chars(v.as_slice());
    let l = lv.as_slice();
    let blocked = contains_chars(l, chars_of("cmd.exe").as_slice()) || contains_chars(
        l,
        chars_of("powershell.exe").as_slice(),
    ) || contains_chars(l, chars_of("pwsh.exe").as_slice()) || contains_chars(
        l,
        chars_of("windowsterminal.exe").as_slice(),
    ) || contains_chars(l, chars_of("terminal").as_slice()) || contains_chars(
        l,
        chars_of("iterm2").as_slice(),
    );
    !blocked
}

/// The command a transcript gives the agent: none without a trigger word;
/// empty when the transcript is just the trigger word; else, when it starts
/// with the trigger word (compared in lower case), what follows it, without
/// the separators and spaces after it. Both are trimmed first.
pub open spec fn agent_command_text(text: Seq<char>, trigger: Seq<char>) -> Option<Seq<char>> {
    let t = trim(text, CharClass::Whitespace);
    let g = trim(trigger, CharClass::Whitespace);
    if g.len() == 0 {
        None
    } else if unicode_lower(t) == unicode_lower(g) {
        Some(Seq::empty())
    } else if !starts_with(unicode_lower(t), unicode_lower(g)) {
        None
    } else {
        let rest = decode_utf8(encode_utf8(t).skip(encode_utf8(g).len() as int));
        Some(trim(trim_start(rest, CharClass::CommandSep), CharClass::Whitespace))
    }
}

/// The text is cut after as many bytes as the trigger word has: where it is
/// cut, that must fall between two characters of the text.
pub open spec fn command_cut_ok(text: Seq<char>, trigger: Seq<char>) -> bool {
    let t = trim(text, CharClass::Whitespace);
    let g = trim(trigger, CharClass::Whitespace);
    g.len() > 0 && unicode_lower(t) != unicode_lower(g) && starts_with(unicode_lower(t), unicode_lower(g))
        ==> is_char_boundary(encode_utf8(t), encode_utf8(g).len() as int)
}

/// Reads the agent command out of a transcript (see `agent_command_text`).
pub fn parse_agent_command(text: &str, trigger_word: &str) -> (r: Option<String>)
    requires
        encode_utf8(trim(trigger_word@, CharClass::Whitespace)).len() <= usize::MAX,
        command_cut_ok(text@, trigger_word@),
    ensures
        match agent_command_text(text@, trigger_word@) {
            Some(c) => r is Some && r.unwrap()@ == c,
            None => r is None,
        },
{
    let trimmed = trim_str(text, CharClass::Whitespace);
    let trigger = trim_str(trigger_word, CharClass::Whitespace);
    if trigger.as_str().unicode_len() == 0 {
        return None;
    }
    let lower_text = to_lowercase(trimmed.as_str());
    let lower_trigger = to_lowercase(trigger.as_str());
    if str_eq(lower_text.as_str(), lower_trigger.as_str()) {
        return Some(String::new());
    }
    if !starts_with_str(lower_text.as_str(), lower_trigger.as_str()) {
        return None;
    }
    let ts = trimmed.as_str();
    let glen = trigger.as_str().len();
    let (_head, rest) = ts.split_at(glen);
    proof {
        assert(rest.spec_bytes() == encode_utf8(rest@));
        vstd::utf8::encode_utf8_decode_utf8(rest@);
        assert(encode_utf8(trimmed@).subrange(glen as int, encode_utf8(trimmed@).len() as int) == encode_utf8(
            trimmed@,
        ).skip(glen as int));
    }
    let rv = chars_of(rest);
    let a = trim_start_chars(rv.as_slice(), CharClass::CommandSep);
    let b = trim_chars(a.as_slice(), CharClass::Whitespace);
    Some(string_of(b.as_slice()))
}

/// Reads the agent command out of a transcript, first checking where the
/// text would be cut (see `command_cut_ok`): none when the cut falls inside a
/// character, else the command `parse_agent_command` reads.
pub fn checked_agent_command(text: &str, trigger_word: &str) -> (r: Option<Option<String>>)
    requires
        encode_utf8(trim(trigger_word@, CharClass::Whitespace)).len() <= usize::MAX,
    ensures
        !command_cut_ok(text@, trigger_word@) ==> r is None,
        command_cut_ok(text@, trigger_word@) ==> (r matches Some(c) && match agent_command_text(
            text@,
            trigger_word@,
        ) {
            Some(t) => c is Some && c.unwrap()@ == t,
            None => c is None,
        }),
{
    let trimmed = trim_str(text, CharClass::Whitespace);
    let trigger = trim_str(trigger_word, CharClass::Whitespace);
    if trigger.as_str().unicode_len() > 0 {
        let lower_text = to_lowercase(trimmed.as_str());
        let lower_trigger = to_lowercase(trigger.as_str());
        if !str_eq(lower_text.as_str(), lower_trigger.as_str()) && starts_with_str(
            lower_text.as_str(),
            lower_trigger.as_str(),
        ) {
            let glen = trigger.as_str().len();
            if !trimmed.as_str().is_char_boundary(glen) {
                return None;
            }
        }
    }
    Some(parse_agent_command(text, trigger_word))
}

/// How long the target window is given to take focus before pasting.
pub fn focus_settle_delay_ms(os: TargetOs) -> (r: u64)
    ensures
        os == TargetOs::Macos ==> r == 250,
        os == TargetOs::Windows ==> r == 80,
{
    match os {
        TargetOs::Macos => 250,
        TargetOs::Windows => 80,
    }
}

/// Where the last transcript is saved when pasting fails: under `APPDATA` on
/// Windows, under `HOME`'s Application Support on macOS; none without that
/// variable.
pub open spec fn fallback_path(os: TargetOs, env: EnvVars) -> Option<Seq<char>> {
    match os {
        TargetOs::Windows => match env.appdata {
            Some(a) => Some(
                join_path(os, join_path(os, a@, "voice-mcp-host"@), "last_transcript.txt"@),
            ),
            None => None,
        },
        TargetOs::Macos => match env.home {
            Some(h) => Some(
                join_path(
                    os,
                    join_path(os, join_path(os, join_path(os, h@, "Library"@), "Application Support"@), "voice-mcp-host"@),
                    "last_transcript.txt"@,
                ),
            ),
            None => None,
        },
    }
}

/// Where the last transcript is saved when pasting fails (see `fallback_path`).
pub fn config_dir_fallback(os: TargetOs, env: &EnvVars) -> (r: Option<String>)
    ensures
        match fallback_path(os, *env) {
            Some(p) => r is Some && r.unwrap()@ == p,
            None => r is None,
        },
{
    match os {
        TargetOs::Windows => match &env.appdata {
            Some(a) => {
                let d = join(os, a.as_str(), "voice-mcp-host");
                Some(join(os, d.as_str(), "last_transcript.txt"))
            },
            None => None,
        },
        TargetOs::Macos => match &env.home {
            Some(h) => {
                let d1 = join(os, h.as_str(), "Library");
                let d2 = join(os, d1.as_str(), "Application Support");
                let d3 = join(os, d2.as_str(), "voice-mcp-host");
                Some(join(os, d3.as_str(), "last_transcript.txt"))
            },
            None => None,
        },
    }
}

/// The marker put on the clipboard to tell whether a copy brought a selection.
pub fn selection_sentinel(pid: u32) -> (r: String)
    ensures
        r@ == "__voice_mcp_host_selection_"@ + crate::platform::decimal(pid as nat) + "__"@,
{
    let n = crate::platform::u64_to_decimal(pid as u64);
    crate::text::concat3("__voice_mcp_host_selection_", n.as_str(), "__")
}

/// The selection a copy brought: none when the clipboard is blank or still
/// holds the marker.
pub fn selection_result(copied: String, sentinel: &str) -> (r: Option<String>)
    ensures
        trim(copied@, CharClass::Whitespace).len() == 0 || copied@ == sentinel@ ==> r is None,
        !(trim(copied@, CharClass::Whitespace).len() == 0 || copied@ == sentinel@) ==> r == Some(copied),
{
    let t = trim_str(copied.as_str(), CharClass::Whitespace);
    if t.as_str().unicode_len() == 0 || str_eq(copied.as_str(), sentinel) {
        None
    } else {
        Some(copied)
    }
}

/// What the user is shown: the recorder's state and the overlay.
#[derive(Debug, Clone)]
pub struct Feedback {
    pub state: RecorderState,
    pub overlay: OverlayPayload,
}

fn feedback(state: RecorderState, kind: &str, title: &str, subtitle: &str, hide_after_ms: Option<u64>) -> (r:
    Feedback)
    ensures
        r.state == state,
        shows(r.overlay, kind@, title@, subtitle@, hide_after_ms),
{
    Feedback { state, overlay: overlay(kind, title, subtitle, hide_after_ms) }
}

/// A failure: the recorder shows the error, and the overlay shows it under
/// `title` for seven seconds.
pub open spec fn fails_with(f: Feedback, title: Seq<char>, message: Seq<char>) -> bool {
    &&& f.state matches RecorderState::Error(m) && m@ == message
    &&& shows(f.overlay, "error"@, title, message, Some(7000))
}

/// Shows a failure (see `fails_with`).
pub fn failure(title: &str, message: String) -> (r: Feedback)
    ensures
        fails_with(r, title@, message@),
{
    let overlay = overlay("error", title, message.as_str(), Some(7000));
    Feedback { state: RecorderState::Error(message), overlay }
}

/// What starting a recording shows: listening, with how to stop; or the
/// error that kept the microphone from opening.
pub fn start_feedback(result: Result<(), String>, hotkey: &str) -> (r: Feedback)
    ensures
        result is Ok ==> r.state is Recording && shows(
            r.overlay,
            "recording"@,
            "Listening"@,
            "Press "@ + hotkey@ + " again to stop"@,
            None,
        ),
        result matches Err(e) ==> fails_with(r, "Error"@, e@),
{
    match result {
        Ok(()) => {
            let hint = crate::text::concat3("Press ", hotkey, " again to stop");
            feedback(RecorderState::Recording, "recording", "Listening", hint.as_str(), None)
        },
        Err(e) => failure("Error", e),
    }
}

/// What stopping a recording leads to.
#[derive(Debug)]
pub enum StopStep {
    /// No recording was running.
    Nothing,
    /// The recording was too short: show this and stop.
    TooShort(Feedback),
    /// Show this, then finish the capture and transcribe it.
    Transcribe(Feedback),
}

/// Stopping: nothing without a recording; too short under the configured
/// minimum; else on to transcription.
pub fn stop_step(has_capture: bool, duration_ms: u64, min_record_ms: u64) -> (r: StopStep)
    ensures
        !has_capture ==> r is Nothing,
        has_capture && duration_ms < min_record_ms ==> (r matches StopStep::TooShort(f) && (f.state matches RecorderState::Error(
            m,
        ) && m@ == "Recording too short"@) && shows(f.overlay, "error"@, "Too short"@, "Hold the hotkey longer"@, Some(4000))),
        has_capture && duration_ms >= min_record_ms ==> (r matches StopStep::Transcribe(f) && f.state is Transcribing
            && shows(f.overlay, "transcribing"@, "Transcribing"@, "Turning speech into text"@, None)),
{
    if !has_capture {
        return StopStep::Nothing;
    }
    if duration_ms < min_record_ms {
        return StopStep::TooShort(
            feedback(
                RecorderState::Error(String::from_str("Recording too short")),
                "error",
                "Too short",
                "Hold the hotkey longer",
                Some(4000),
            ),
        );
    }
    StopStep::Transcribe(
        feedback(RecorderState::Transcribing, "transcribing", "Transcribing", "Turning speech into text", None),
    )
}

/// The message shown when no transcriber is loaded.
pub const NO_MODEL: &'static str = "Model not loaded — download a model in Settings first";

/// What a transcript leads to.
#[derive(Debug)]
pub enum TranscriptStep {
    /// Nothing was said: show this.
    NothingHeard(Feedback),
    /// Ask the agent this command, showing this meanwhile.
    Ask(String, Feedback),
    /// Paste this text, showing this meanwhile.
    Paste(String, Feedback),
}

/// The feedback shown while text is pasted.
pub open spec fn pasting(f: Feedback) -> bool {
    f.state is Pasting && shows(f.overlay, "pasting"@, "Inserting"@, "Sending text to your app"@, None)
}

/// Handles a transcript: a blank one was nothing; one that starts with the
/// trigger word (`command` is what `parse_agent_command` read from it), or
/// any while a tool call waits for confirmation, goes to the agent; the rest
/// is pasted as it is.
pub fn transcript_step(text: String, command: Option<String>, pending: bool) -> (r: TranscriptStep)
    ensures
        trim(text@, CharClass::Whitespace).len() == 0 ==> (r matches TranscriptStep::NothingHeard(f) && f.state is Ready
            && shows(f.overlay, "ready"@, "Nothing heard"@, "Try speaking louder"@, Some(4000))),
        trim(text@, CharClass::Whitespace).len() > 0 ==> match command {
            Some(c) => (r matches TranscriptStep::Ask(a, f) && a@ == c@ && f.state is Transcribing && shows(
                f.overlay,
                "transcribing"@,
                "Thinking"@,
                "Asking agent"@,
                None,
            )),
            None => if pending {
                (r matches TranscriptStep::Ask(a, f) && a@ == trim(text@, CharClass::Whitespace) && f.state is Transcribing
                    && shows(f.overlay, "transcribing"@, "Thinking"@, "Asking agent"@, None))
            } else {
                (r matches TranscriptStep::Paste(p, f) && p@ == text@ && pasting(f))
            },
        },
{
    let t = trim_str(text.as_str(), CharClass::Whitespace);
    if t.as_str().unicode_len() == 0 {
        return TranscriptStep::NothingHeard(
            feedback(RecorderState::Ready, "ready", "Nothing heard", "Try speaking louder", Some(4000)),
        );
    }
    let thinking = feedback(RecorderState::Transcribing, "transcribing", "Thinking", "Asking agent", None);
    match command {
        Some(c) => TranscriptStep::Ask(c, thinking),
        None => if pending {
            TranscriptStep::Ask(t, thinking)
        } else {
            TranscriptStep::Paste(
                text,
                feedback(RecorderState::Pasting, "pasting", "Inserting", "Sending text to your app", None),
            )
        },
    }
}

/// What the agent's answer leads to.
#[derive(Debug)]
pub enum ReplyStep {
    /// The agent failed: show this.
    Failed(Feedback),
    /// Speak this text, showing the first feedback, then the second.
    Speak(String, Feedback, Feedback),
    /// Paste this text, showing this meanwhile.
    Paste(String, Feedback),
}

/// Handles the agent's answer: a failure is shown; a spoken answer is spoken;
/// any other is pasted.
pub fn reply_step(result: Result<AgentResult, String>) -> (r: ReplyStep)
    ensures
        result matches Err(e) ==> (r matches ReplyStep::Failed(f) && fails_with(f, "Agent failed"@, e@)),
        result matches Ok(a) ==> (a.mode == AgentOutputMode::Speak ==> (r matches ReplyStep::Speak(t, f, g) && t@
            == a.text@ && f.state is Pasting && shows(f.overlay, "speaking"@, "Speaking"@, "Playing response"@, None)
            && g.state is Ready && shows(g.overlay, "ready"@, "Done"@, "Response spoken"@, Some(1200)))),
        result matches Ok(a) ==> (a.mode != AgentOutputMode::Speak ==> (r matches ReplyStep::Paste(t, f) && t@
            == a.text@ && pasting(f))),
{
    match result {
        Err(e) => ReplyStep::Failed(failure("Agent failed", e)),
        Ok(a) => if a.mode == AgentOutputMode::Speak {
            ReplyStep::Speak(
                a.text,
                feedback(RecorderState::Pasting, "speaking", "Speaking", "Playing response", None),
                feedback(RecorderState::Ready, "ready", "Done", "Response spoken", Some(1200)),
            )
        } else {
            ReplyStep::Paste(
                a.text,
                feedback(RecorderState::Pasting, "pasting", "Inserting", "Sending text to your app", None),
            )
        },
    }
}

/// What a paste's report shows: inserted on success; else the report's error,
/// or that the transcript is on the clipboard when it gives none.
pub fn paste_feedback(report: &PasteReport) -> (r: Feedback)
    ensures
        report.paste_status@ == "success"@ ==> r.state is Ready && shows(r.overlay, "ready"@, "Inserted"@, "Text added"@, Some(1200)),
        report.paste_status@ != "success"@ ==> fails_with(
            r,
            "Paste failed"@,
            if report.error_message@.len() == 0 {
                "Paste failed - transcript is on clipboard"@
            } else {
                report.error_message@
            },
        ),
{
    if str_eq(report.paste_status.as_str(), "success") {
        feedback(RecorderState::Ready, "ready", "Inserted", "Text added", Some(1200))
    } else {
        let msg = if report.error_message.as_str().unicode_len() == 0 {
            String::from_str("Paste failed - transcript is on clipboard")
        } else {
            report.error_message.clone()
        };
        failure("Paste failed", msg)
    }
}

} // verus!
