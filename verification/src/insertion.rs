use vstd::prelude::*;

use crate::platform::TargetOs;

verus! {

/// How a paste went: its status, what became of the clipboard, the error, and
/// what the user can do to recover.
#[derive(Debug, Clone)]
pub struct PasteReport {
    pub paste_status: String,
    pub clipboard_restore_status: String,
    pub error_message: String,
    pub recovery_action: String,
}

/// The report has these four texts.
pub open spec fn reports(r: PasteReport, paste: Seq<char>, restore: Seq<char>, error: Seq<char>, recovery: Seq<char>) -> bool {
    r.paste_status@ == paste && r.clipboard_restore_status@ == restore && r.error_message@ == error
        && r.recovery_action@ == recovery
}

fn report(paste: &str, restore: &str, error: String, recovery: &str) -> (r: PasteReport)
    ensures
        reports(r, paste@, restore@, error@, recovery@),
{
    PasteReport {
        paste_status: String::from_str(paste),
        clipboard_restore_status: String::from_str(restore),
        error_message: error,
        recovery_action: String::from_str(recovery),
    }
}

/// What a paste does next.
#[derive(Debug)]
pub enum PasteStep {
    /// Wait the paste delay, then send the paste shortcut.
    SendShortcut,
    /// Wait the restore delay, then put the original clipboard back.
    Restore,
    /// Put the text on the clipboard once more, whatever comes of it, then
    /// stop with this report and save the text to the fallback file.
    SetAgain(PasteReport),
    /// Stop with this report; save the text to the fallback file when `true`.
    Done(PasteReport, bool),
}

/// After the text was put on the clipboard: go on to the shortcut, or fail:
/// the text is put on the clipboard once more as a recovery and saved to the
/// fallback file.
pub fn after_clipboard_set(result: Result<(), String>) -> (r: PasteStep)
    ensures
        result is Ok ==> r is SendShortcut,
        result matches Err(e) ==> (r matches PasteStep::SetAgain(rep) && reports(
            rep,
            "failed"@,
            "skipped"@,
            "set_clipboard failed: "@ + e@,
            "transcript_on_clipboard"@,
        )),
{
    match result {
        Ok(()) => PasteStep::SendShortcut,
        Err(e) => PasteStep::SetAgain(
            report(
                "failed",
                "skipped",
                crate::text::concat2("set_clipboard failed: ", e.as_str()),
                "transcript_on_clipboard",
            ),
        ),
    }
}

/// After the paste shortcut was sent: a failure is reported (and the text
/// saved); on macOS the paste is done and the text stays on the clipboard; on
/// Windows the original clipboard is restored next.
pub fn after_shortcut(os: TargetOs, result: Result<(), String>) -> (r: PasteStep)
    ensures
        result matches Err(e) ==> (r matches PasteStep::Done(rep, save) && save && reports(
            rep,
            "failed"@,
            "skipped"@,
            "send_paste_shortcut failed: "@ + e@,
            "transcript_left_on_clipboard"@,
        )),
        result is Ok && os == TargetOs::Macos ==> (r matches PasteStep::Done(rep, save) && !save && reports(
            rep,
            "success"@,
            "skipped_macos_transcript_left_on_clipboard"@,
            Seq::empty(),
            "manual_cmd_v_available"@,
        )),
        result is Ok && os == TargetOs::Windows ==> r is Restore,
{
    match result {
        Err(e) => PasteStep::Done(
            report(
                "failed",
                "skipped",
                crate::text::concat2("send_paste_shortcut failed: ", e.as_str()),
                "transcript_left_on_clipboard",
            ),
            true,
        ),
        Ok(()) => match os {
            TargetOs::Macos => PasteStep::Done(
                report("success", "skipped_macos_transcript_left_on_clipboard", String::new(), "manual_cmd_v_available"),
                false,
            ),
            TargetOs::Windows => PasteStep::Restore,
        },
    }
}

/// The report after restoring the clipboard on Windows: `restore` is none
/// when there was no original text, else how putting it back went. A failed
/// restore saves the text to the fallback file.
pub fn after_restore(restore: Option<Result<(), String>>) -> (r: (PasteReport, bool))
    ensures
        restore is None ==> reports(r.0, "success"@, "no_original"@, Seq::empty(), Seq::empty()) && !r.1,
        restore matches Some(Ok(())) ==> reports(r.0, "success"@, "success"@, Seq::empty(), Seq::empty()) && !r.1,
        restore matches Some(Err(e)) ==> reports(r.0, "success"@, "restore_failed: "@ + e@, Seq::empty(), Seq::empty())
            && r.1,
{
    let status = match &restore {
        None => String::from_str("no_original"),
        Some(Ok(())) => String::from_str("success"),
        Some(Err(e)) => crate::text::concat2("restore_failed: ", e.as_str()),
    };
    let rep = PasteReport {
        paste_status: String::from_str("success"),
        clipboard_restore_status: status,
        error_message: String::new(),
        recovery_action: String::new(),
    };
    let save = match &restore {
        Some(Err(_)) => true,
        _ => false,
    };
    (rep, save)
}

} // verus!
