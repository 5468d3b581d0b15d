use vstd::prelude::*;

use crate::json::{entry, jstr, Json, JsonV};
use std::hash::{Hash, Hasher};

verus! {

/// The operating systems the app runs on.
#[derive(Debug, Clone, Copy, PartialEq, Eq, Structural)]
pub enum TargetOs {
    Windows,
    Macos,
}

/// The window that had focus when recording started: its handle (on
/// Windows), title, a hash of the title, the process name and its id.
#[derive(Debug, Clone)]
pub struct TargetWindow {
    pub hwnd: Option<u64>,
    pub title: String,
    pub title_hash: String,
    pub process_name: String,
    pub pid: Option<u32>,
}

/// Whether the app may use a device or feature.
#[derive(Debug, Clone, Copy, PartialEq, Eq, Structural)]
pub enum PermissionState {
    Granted,
    Denied,
    Unknown,
    NotRequired,
}

/// The app's permissions for the microphone and for accessibility (paste).
#[derive(Debug, Clone, Copy)]
pub struct PermissionsStatus {
    pub microphone: PermissionState,
    pub accessibility: PermissionState,
}

/// On Windows neither permission has to be granted.
pub fn windows_permissions() -> (r: PermissionsStatus)
    ensures
        r.microphone == PermissionState::NotRequired,
        r.accessibility == PermissionState::NotRequired,
{
    PermissionsStatus {
        microphone: PermissionState::NotRequired,
        accessibility: PermissionState::NotRequired,
    }
}

/// The microphone permission on macOS is not known before capture.
pub fn check_mic_permission() -> (r: PermissionState)
    ensures
        r == PermissionState::Unknown,
{
    PermissionState::Unknown
}

/// The accessibility permission on macOS, from whether the process is trusted.
pub fn check_ax_permission(trusted: bool) -> (r: PermissionState)
    ensures
        r == (if trusted {
            PermissionState::Granted
        } else {
            PermissionState::Denied
        }),
{
    if trusted {
        PermissionState::Granted
    } else {
        PermissionState::Denied
    }
}

/// The permissions on macOS: the microphone unknown, accessibility granted
/// exactly when the process is trusted.
pub fn macos_permissions(ax_trusted: bool) -> (r: PermissionsStatus)
    ensures
        r.microphone == PermissionState::Unknown,
        r.accessibility == (if ax_trusted {
            PermissionState::Granted
        } else {
            PermissionState::Denied
        }),
{
    PermissionsStatus { microphone: check_mic_permission(), accessibility: check_ax_permission(ax_trusted) }
}

/// The characters `0`-`9`, `a`-`f` for the values 0 to 15.
pub open spec fn hex_char(d: nat) -> char {
    if d < 10 {
        ((d + 48) as u8) as char
    } else {
        ((d + 87) as u8) as char
    }
}

/// The last `k` hexadecimal digits of `n`, most significant first.
pub open spec fn hex_digits(n: nat, k: nat) -> Seq<char>
    decreases k,
{
    if k == 0 {
        Seq::empty()
    } else {
        hex_digits(n / 16, (k - 1) as nat).push(hex_char(n % 16))
    }
}

fn hex_char_exec(d: u64) -> (c: char)
    requires
        d < 16,
    ensures
        c == hex_char(d as nat),
{
    if d < 10 {
        let b: u8 = (d + 48) as u8;
        b as char
    } else {
        let b: u8 = (d + 87) as u8;
        b as char
    }
}

/// `format!("{:016x}", n)`: sixteen lower-case hexadecimal digits.
pub fn hex16(n: u64) -> (r: String)
    ensures
        r@ == hex_digits(n as nat, 16),
{
    let mut m: u64 = n;
    let mut out: Vec<char> = Vec::new();
    let mut i: usize = 0;
    while i < 16
        invariant
            i <= 16,
            hex_digits(n as nat, 16) == hex_digits(m as nat, (16 - i) as nat) + out@,
        decreases 16 - i,
    {
        let c = hex_char_exec(m % 16);
        proof {
            let j = (16 - i) as nat;
            assert(hex_digits(m as nat, j) == hex_digits((m / 16) as nat, (j - 1) as nat).push(
                hex_char((m % 16) as nat),
            ));
            assert(hex_digits((m / 16) as nat, (j - 1) as nat).push(hex_char((m % 16) as nat)) + out@
                =~= hex_digits((m / 16) as nat, (j - 1) as nat) + seq![c] + out@);
        }
        out.insert(0, c);
        assert(out@ =~= seq![c] + out@.drop_first());
        m = m / 16;
        i = i + 1;
    }
    assert(hex_digits(m as nat, 0) == Seq::<char>::empty());
    assert(out@ =~= hex_digits(n as nat, 16));
    crate::text::string_of(out.as_slice())
}

/// The value std's `DefaultHasher` (as `DefaultHasher::new` makes it) gives for
/// a string.
pub uninterp spec fn default_str_hash(s: Seq<char>) -> u64;

/// Hashes a string with std's `DefaultHasher`. Trusted: the result is the one
/// the hasher gives for these characters; all hashers made by
/// `DefaultHasher::new` are the same, so equal strings hash alike.
#[verifier::external_body]
fn default_hash(s: &str) -> (r: u64)
    ensures
        r == default_str_hash(s@),
{
    let mut hasher = std::collections::hash_map::DefaultHasher::new();
    s.hash(&mut hasher);
    hasher.finish()
}

/// The title's hash as sixteen hexadecimal digits.
pub fn hash_title(title: &str) -> (r: String)
    ensures
        r@ == hex_digits(default_str_hash(title@) as nat, 16),
{
    let h = default_hash(title);
    hex16(h)
}

/// The decimal digits of `n`.
pub open spec fn decimal(n: nat) -> Seq<char>
    decreases n,
{
    if n < 10 {
        seq![hex_char(n)]
    } else {
        decimal(n / 10).push(hex_char(n % 10))
    }
}

/// `n.to_string()` for an unsigned integer.
pub fn u64_to_decimal(n: u64) -> (r: String)
    ensures
        r@ == decimal(n as nat),
{
    let mut m: u64 = n;
    let mut out: Vec<char> = Vec::new();
    while m >= 10
        invariant
            decimal(n as nat) == decimal(m as nat) + out@,
        decreases m,
    {
        let c = hex_char_exec(m % 10);
        proof {
            assert(decimal(m as nat) == decimal((m / 10) as nat).push(hex_char((m % 10) as nat)));
            assert(decimal((m / 10) as nat).push(hex_char((m % 10) as nat)) + out@ =~= decimal(
                (m / 10) as nat,
            ) + seq![c] + out@);
        }
        out.insert(0, c);
        assert(out@ =~= seq![c] + out@.drop_first());
        m = m / 10;
    }
    let c = hex_char_exec(m);
    out.insert(0, c);
    assert(out@ =~= decimal(n as nat));
    crate::text::string_of(out.as_slice())
}

/// A number as JSON.
pub open spec fn opt_number(n: Option<u64>) -> JsonV {
    match n {
        Some(v) => JsonV::Number(decimal(v as nat)),
        None => JsonV::Null,
    }
}

/// A process id as a 64-bit number.
pub open spec fn widen(p: Option<u32>) -> Option<u64> {
    match p {
        Some(v) => Some(v as u64),
        None => None,
    }
}

fn opt_number_exec(n: Option<u64>) -> (r: Json)
    ensures
        r@ == opt_number(n),
{
    match n {
        Some(v) => Json::Number(u64_to_decimal(v)),
        None => Json::Null,
    }
}

impl TargetWindow {
    /// The window as a log record: `hwnd`, `title`, `title_hash`,
    /// `process_name` and `pid`, missing numbers as null.
    pub fn context_json(&self) -> (r: Json)
        ensures
            r@ == JsonV::Object(
                seq![
                    ("hwnd"@, opt_number(self.hwnd)),
                    ("title"@, JsonV::Str(self.title@)),
                    ("title_hash"@, JsonV::Str(self.title_hash@)),
                    ("process_name"@, JsonV::Str(self.process_name@)),
                    ("pid"@, opt_number(widen(self.pid))),
                ],
            ),
    {
        let pid: Option<u64> = match self.pid {
            Some(p) => Some(p as u64),
            None => None,
        };
        let r = Json::Object(
            vec![
                entry("hwnd", opt_number_exec(self.hwnd)),
                entry("title", jstr(self.title.as_str())),
                entry("title_hash", jstr(self.title_hash.as_str())),
                entry("process_name", jstr(self.process_name.as_str())),
                entry("pid", opt_number_exec(pid)),
            ],
        );
        proof {
            let es = match r@ {
                JsonV::Object(e) => e,
                _ => Seq::empty(),
            };
            assert(es =~= seq![
                ("hwnd"@, opt_number(self.hwnd)),
                ("title"@, JsonV::Str(self.title@)),
                ("title_hash"@, JsonV::Str(self.title_hash@)),
                ("process_name"@, JsonV::Str(self.process_name@)),
                ("pid"@, opt_number(pid)),
            ]);
            assert(r@ == JsonV::Object(es));
            assert(pid == widen(self.pid));
        }
        r
    }
}

/// The clipboard of the platform.
pub trait ClipboardOps {
    /// The clipboard's text.
    fn get_text(&self) -> Result<String, String>;

    /// Puts text on the clipboard.
    fn set_text(&self, text: &str) -> Result<(), String>;

    /// Sends the paste shortcut: Ctrl+V on Windows, Cmd+V on macOS.
    fn send_paste_shortcut(&self) -> Result<(), String>;

    /// Sends the copy shortcut: Ctrl+C on Windows, Cmd+C on macOS.
    fn send_copy_shortcut(&self) -> Result<(), String>;
}

/// The window that receives the text.
pub trait WindowTargetOps {
    /// The window in front now.
    fn capture_foreground(&self) -> TargetWindow;

    /// Brings a window back to the front.
    fn focus_target(&self, target: &TargetWindow) -> Result<(), String>;
}

/// The permissions the app needs.
pub trait PermissionsOps {
    /// The current permissions.
    fn check_permissions(&self) -> PermissionsStatus;

    /// Opens the system accessibility permission dialog; whether the app is
    /// trusted after the prompt.
    fn request_accessibility_permission(&self) -> bool;
}

} // verus!
