use vstd::prelude::*;

use crate::paths::{join, join_path, EnvVars};
use crate::platform::TargetOs;

verus! {

/// Where the event log is written: `APPDATA\voice-mcp-host\logs` on Windows,
/// `~/Library/Logs/voice-mcp-host` on macOS; `.` stands in for a missing
/// variable.
pub open spec fn log_dir(os: TargetOs, env: EnvVars) -> Seq<char> {
    match os {
        TargetOs::Windows => {
            let base = match env.appdata {
                Some(a) => a@,
                None => "."@,
            };
            join_path(os, join_path(os, base, "voice-mcp-host"@), "logs"@)
        },
        TargetOs::Macos => {
            let base = match env.home {
                Some(h) => h@,
                None => "."@,
            };
            join_path(os, join_path(os, join_path(os, base, "Library"@), "Logs"@), "voice-mcp-host"@)
        },
    }
}

/// Where the event log is written (see `log_dir`).
pub fn log_dir_path(os: TargetOs, env: &EnvVars) -> (r: String)
    ensures
        r@ == log_dir(os, *env),
{
    match os {
        TargetOs::Windows => {
            let base = crate::paths::or_default(&env.appdata, ".");
            let d = join(os, base.as_str(), "voice-mcp-host");
            join(os, d.as_str(), "logs")
        },
        TargetOs::Macos => {
            let base = crate::paths::or_default(&env.home, ".");
            let d1 = join(os, base.as_str(), "Library");
            let d2 = join(os, d1.as_str(), "Logs");
            join(os, d2.as_str(), "voice-mcp-host")
        },
    }
}

/// The day's log file name: `events-<date>.jsonl`.
pub fn log_file_name(date: &str) -> (r: String)
    ensures
        r@ == "events-"@ + date@ + ".jsonl"@,
{
    crate::text::concat3("events-", date, ".jsonl")
}

} // verus!
