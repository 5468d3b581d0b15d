use vstd::prelude::*;

verus! {

/// Where the dictation cycle stands.
#[derive(Debug, Clone)]
pub enum RecorderState {
    Idle,
    Recording,
    Transcribing,
    Pasting,
    Ready,
    /// Something failed; the message says what.
    Error(String),
}

impl RecorderState {
    /// The state's name as the settings window shows it.
    pub open spec fn label_text(self) -> Seq<char> {
        match self {
            RecorderState::Idle => "idle"@,
            RecorderState::Recording => "recording"@,
            RecorderState::Transcribing => "transcribing"@,
            RecorderState::Pasting => "pasting"@,
            RecorderState::Ready => "ready"@,
            RecorderState::Error(_) => "error"@,
        }
    }

    /// The state's name: `idle`, `recording`, `transcribing`, `pasting`,
    /// `ready` or `error`.
    pub fn label(&self) -> (r: &'static str)
        ensures
            r@ == self.label_text(),
    {
        match self {
            RecorderState::Idle => "idle",
            RecorderState::Recording => "recording",
            RecorderState::Transcribing => "transcribing",
            RecorderState::Pasting => "pasting",
            RecorderState::Ready => "ready",
            RecorderState::Error(_) => "error",
        }
    }
}

/// What the overlay shows: its state, a title, a subtitle, and after how many
/// milliseconds it hides itself, if it does.
#[derive(Debug, Clone)]
pub struct OverlayPayload {
    pub state: String,
    pub title: String,
    pub subtitle: String,
    pub hide_after_ms: Option<u64>,
}

/// The overlay has the given state, title, subtitle and hiding delay.
pub open spec fn shows(p: OverlayPayload, state: Seq<char>, title: Seq<char>, subtitle: Seq<char>, hide: Option<u64>) -> bool {
    p.state@ == state && p.title@ == title && p.subtitle@ == subtitle && p.hide_after_ms == hide
}

/// An overlay payload with the given texts.
pub fn overlay(state: &str, title: &str, subtitle: &str, hide_after_ms: Option<u64>) -> (r: OverlayPayload)
    ensures
        shows(r, state@, title@, subtitle@, hide_after_ms),
{
    OverlayPayload {
        state: String::from_str(state),
        title: String::from_str(title),
        subtitle: String::from_str(subtitle),
        hide_after_ms,
    }
}

impl OverlayPayload {
    /// The resting overlay: state `idle`, no texts, never hidden on a timer.
    pub fn idle() -> (r: OverlayPayload)
        ensures
            shows(r, "idle"@, Seq::empty(), Seq::empty(), None),
    {
        OverlayPayload {
            state: String::from_str("idle"),
            title: String::new(),
            subtitle: String::new(),
            hide_after_ms: None,
        }
    }
}

/// What a timed hide of the overlay leads to: a finished cycle (ready or
/// failed) goes back to idle with the resting overlay; any other state is
/// left as it is.
pub fn after_overlay_hidden(current: &RecorderState) -> (r: Option<(RecorderState, OverlayPayload)>)
    ensures
        (current is Ready || current is Error) ==> (r matches Some((s, p)) && s is Idle && shows(
            p,
            "idle"@,
            Seq::empty(),
            Seq::empty(),
            None,
        )),
        !(current is Ready || current is Error) ==> r is None,
{
    match current {
        RecorderState::Ready | RecorderState::Error(_) => Some((RecorderState::Idle, OverlayPayload::idle())),
        _ => None,
    }
}

/// Where the overlay window is placed: centred at the bottom of the screen,
/// 120 pixels above its edge (0 where the screen is too small).
pub fn overlay_position(screen_width: u32, screen_height: u32) -> (r: (u32, u32))
    ensures
        r.0 == (if screen_width >= 390 {
            (screen_width - 390) as int
        } else {
            0int
        }) / 2,
        r.1 == (if screen_height >= 238 {
            (screen_height - 238) as int
        } else {
            0int
        }),
{
    let x = (if screen_width >= 390 {
        screen_width - 390
    } else {
        0
    }) / 2;
    let h: u32 = if screen_height >= 118 {
        screen_height - 118
    } else {
        0
    };
    let y = if h >= 120 {
        h - 120
    } else {
        0
    };
    (x, y)
}

} // verus!
