use vstd::prelude::*;
use crate::pomodoro::{Pomodoro, PomodoroView, activity_label, activity_name};
use crate::screen::Screen;
use crate::text::{decimal, push_decimal};

verus! {

/// The text of a chat-status ("rich presence") entry.
#[derive(Debug, PartialEq, Eq)]
pub struct Presence {
    /// The first line: what the user is doing.
    pub state: String,
    /// The second line: where in the plan the user is.
    pub details: String,
    /// Whether the entry shows a countdown to the end of the phase.
    pub counts_down: bool,
}

/// "Session `current` of `total`".
pub open spec fn session_text(current: u32, total: u32) -> Seq<char> {
    "Session "@ + decimal(current as nat) + " of "@ + decimal(total as nat)
}

/// The first line of the status entry: on the timer screen, the paused or
/// running activity or the break; elsewhere, that the user is configuring.
pub open spec fn presence_state(v: PomodoroView) -> Seq<char> {
    if v.screen == Screen::Timer {
        if v.paused {
            "⏸️ Paused: "@ + activity_name(v.idx as int)
        } else if !v.work {
            "☕ Taking a Break"@
        } else {
            "🔥 Focusing: "@ + activity_name(v.idx as int)
        }
    } else {
        "Configuring..."@
    }
}

/// The second line of the status entry: the session count on the timer
/// screen, the main menu elsewhere.
pub open spec fn presence_details(v: PomodoroView) -> Seq<char> {
    if v.screen == Screen::Timer {
        session_text(v.current, v.total)
    } else {
        "Main Menu"@
    }
}

/// "Session `current` of `total`".
pub fn session_string(current: u32, total: u32) -> (s: String)
    ensures
        s@ == session_text(current, total),
{
    let mut s = String::from_str("Session ");
    push_decimal(&mut s, current);
    s.append(" of ");
    push_decimal(&mut s, total);
    s
}

impl Pomodoro {
    /// The chat-status entry for the current state.
    pub fn presence(&self) -> (p: Presence)
        requires
            self.wf(),
        ensures
            p.state@ == presence_state(self@),
            p.details@ == presence_details(self@),
            p.counts_down == (self.screen == Screen::Timer && !self.paused),
    {
        if self.screen == Screen::Timer {
            let state = if self.paused {
                String::from_str("⏸️ Paused: ").concat(activity_label(self.idx))
            } else if !self.work {
                String::from_str("☕ Taking a Break")
            } else {
                String::from_str("🔥 Focusing: ").concat(activity_label(self.idx))
            };
            Presence {
                state,
                details: session_string(self.current, self.total),
                counts_down: !self.paused,
            }
        } else {
            Presence {
                state: String::from_str("Configuring..."),
                details: String::from_str("Main Menu"),
                counts_down: false,
            }
        }
    }

    /// The moment, in seconds since the epoch, at which the current phase
    /// ends, given the present moment `now`: `now + rem` as a signed value.
    pub fn countdown_end(&self, now: u64) -> (r: i64)
        requires
            now + self.rem <= u64::MAX,
        ensures
            r == (now + self.rem) as i64,
    {
        (now + self.rem as u64) as i64
    }
}

} // verus!
