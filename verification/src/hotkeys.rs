use vstd::prelude::*;

use crate::app_state::RecorderState;
use crate::platform::TargetOs;
use crate::text::{to_uppercase, trim, trim_str, unicode_upper, CharClass};

verus! {

/// What a press of the dictation hotkey does.
#[derive(Debug, Clone, Copy, PartialEq, Eq, Structural)]
pub enum HotkeyAction {
    /// Start recording.
    Start,
    /// Stop recording and transcribe.
    Stop,
    /// Nothing: the app is busy.
    Ignore,
}

/// The hotkey starts a recording from rest (idle, ready or failed), stops a
/// recording in progress, and is ignored while transcribing or pasting.
pub fn hotkey_action(current: &RecorderState) -> (r: HotkeyAction)
    ensures
        (current is Idle || current is Ready || current is Error) <==> r == HotkeyAction::Start,
        current is Recording <==> r == HotkeyAction::Stop,
        (current is Transcribing || current is Pasting) <==> r == HotkeyAction::Ignore,
{
    match current {
        RecorderState::Idle | RecorderState::Ready | RecorderState::Error(_) => HotkeyAction::Start,
        RecorderState::Recording => HotkeyAction::Stop,
        RecorderState::Transcribing | RecorderState::Pasting => HotkeyAction::Ignore,
    }
}

/// The shortcut text handed to the shortcut parser: the configured hotkey,
/// trimmed and upper-cased.
pub fn shortcut_text(hotkey: &str) -> (r: String)
    ensures
        r@ == unicode_upper(trim(hotkey@, CharClass::Whitespace)),
{
    let t = trim_str(hotkey, CharClass::Whitespace);
    to_uppercase(t.as_str())
}

/// The hotkey used when the configured one cannot be parsed: F5 on macOS, F2
/// elsewhere.
pub fn fallback_hotkey(os: TargetOs) -> (r: &'static str)
    ensures
        os == TargetOs::Macos ==> r@ == "F5"@,
        os == TargetOs::Windows ==> r@ == "F2"@,
{
    match os {
        TargetOs::Macos => "F5",
        TargetOs::Windows => "F2",
    }
}

/// Whether saving the settings must register the hotkey again: when it changed.
pub fn hotkey_changed(old: &str, new: &str) -> (r: bool)
    ensures
        r == (old@ != new@),
{
    !crate::text::str_eq(old, new)
}

} // verus!
