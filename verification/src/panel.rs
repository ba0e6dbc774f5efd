use vstd::prelude::*;
use crate::pomodoro::{Pomodoro, PomodoroView};
use crate::screen::Screen;
use crate::text::{decimal, push_char, push_decimal, string_of_chars, two_digits};
use crate::theme::theme_name;

verus! {

/// The key help shown at the bottom of each screen.
pub open spec fn help_line(s: Screen) -> Seq<char> {
    match s {
        Screen::Activity => " [Arrows/HJKL] Move | [S] Settings | [Q] Quit "@,
        Screen::Timer => " [Space] Pause | [+/-] Vol | [M] Mute | [H/Left] Stop & Menu "@,
        Screen::Settings => " [J/K] Select | [H/L] Change | [Esc/Q] Back "@,
        _ => " [Arrows/HJKL] Navigate | [Esc] Back "@,
    }
}

/// The key help shown at the bottom of screen `s`.
pub fn help_text(s: Screen) -> (r: &'static str)
    ensures
        r@ == help_line(s),
{
    match s {
        Screen::Activity => " [Arrows/HJKL] Move | [S] Settings | [Q] Quit ",
        Screen::Timer => " [Space] Pause | [+/-] Vol | [M] Mute | [H/Left] Stop & Menu ",
        Screen::Settings => " [J/K] Select | [H/L] Change | [Esc/Q] Back ",
        _ => " [Arrows/HJKL] Navigate | [Esc] Back ",
    }
}

/// The body of the focus-length screen.
pub open spec fn duration_body(mins: u32) -> Seq<char> {
    "\n\nFocus Time: "@ + decimal(mins as nat) + " min\n\n[J/K] Adjust | [L/Right] Next"@
}

/// The body of the session-count screen.
pub open spec fn sessions_body(total: u32) -> Seq<char> {
    "\n\nSessions: "@ + decimal(total as nat) + "\n\n[J/K] Adjust | [L/Right] Next"@
}

/// The body of the import prompt, showing the address typed so far.
pub open spec fn import_body(input: Seq<char>) -> Seq<char> {
    "\nPaste YouTube URL:\n"@ + input + "\n\n[Enter] Download | [Esc] Cancel"@
}

/// The body of the panel shown while a download runs.
pub open spec fn download_body(status: Seq<char>) -> Seq<char> {
    "\n\n"@ + status
}

/// The volume as the timer shows it: "Muted", or the percentage.
pub open spec fn volume_text(v: PomodoroView) -> Seq<char> {
    if v.muted {
        "Muted"@
    } else {
        decimal(v.volume as nat) + "%"@
    }
}

/// The timer's label: minutes and two-digit seconds left, and the volume.
pub open spec fn timer_text(v: PomodoroView) -> Seq<char> {
    decimal((v.rem / 60) as nat) + ":"@ + two_digits((v.rem % 60) as nat) + " | Vol: "@ + volume_text(v)
}

/// The timer's title: which session of how many.
pub open spec fn timer_heading(v: PomodoroView) -> Seq<char> {
    " Session "@ + decimal(v.current as nat) + " of "@ + decimal(v.total as nat) + " "@
}

/// The colour role of the timer's gauge.
#[derive(Clone, Copy, Debug, PartialEq, Eq, Structural)]
pub enum Tone {
    Paused,
    Focus,
    Rest,
}

/// The gauge's colour role: paused, else focus or rest by the phase.
pub open spec fn tone_of(v: PomodoroView) -> Tone {
    if v.paused {
        Tone::Paused
    } else if v.work {
        Tone::Focus
    } else {
        Tone::Rest
    }
}

/// The body of the panel shown while a download runs.
pub fn download_panel(status: &str) -> (r: String)
    ensures
        r@ == download_body(status@),
{
    String::from_str("\n\n").concat(status)
}

/// The body of the focus-length screen.
pub fn duration_panel(mins: u32) -> (r: String)
    ensures
        r@ == duration_body(mins),
{
    let mut s = String::from_str("\n\nFocus Time: ");
    push_decimal(&mut s, mins);
    s.append(" min\n\n[J/K] Adjust | [L/Right] Next");
    s
}

/// The body of the session-count screen.
pub fn sessions_panel(total: u32) -> (r: String)
    ensures
        r@ == sessions_body(total),
{
    let mut s = String::from_str("\n\nSessions: ");
    push_decimal(&mut s, total);
    s.append("\n\n[J/K] Adjust | [L/Right] Next");
    s
}

/// The body of the import prompt.
pub fn import_panel(input: &Vec<char>) -> (r: String)
    ensures
        r@ == import_body(input@),
{
    let typed = string_of_chars(input);
    let s = String::from_str("\nPaste YouTube URL:\n").concat(typed.as_str());
    s.concat("\n\n[Enter] Download | [Esc] Cancel")
}

impl Pomodoro {
    /// The label of the notification line of the settings, marked when highlighted.
    pub fn notifications_label(&self) -> (r: &'static str)
        ensures
            r@ == (if self.settings_cursor == 0 { "> Notifications: "@ } else { "  Notifications: "@ }),
    {
        if self.settings_cursor == 0 {
            "> Notifications: "
        } else {
            "  Notifications: "
        }
    }

    /// Whether notifications are on, as the settings show it.
    pub fn notifications_value(&self) -> (r: &'static str)
        ensures
            r@ == (if self.notifications { "ON"@ } else { "OFF"@ }),
    {
        if self.notifications {
            "ON"
        } else {
            "OFF"
        }
    }

    /// The label of the theme line of the settings, marked when highlighted.
    pub fn theme_label(&self) -> (r: &'static str)
        ensures
            r@ == (if self.settings_cursor == 1 { "> Theme: "@ } else { "  Theme: "@ }),
    {
        if self.settings_cursor == 1 {
            "> Theme: "
        } else {
            "  Theme: "
        }
    }

    /// The theme's name, as the settings show it.
    pub fn theme_value(&self) -> (r: &'static str)
        ensures
            r@ == theme_name(self.theme),
    {
        self.theme.name()
    }

    /// The timer's title.
    pub fn timer_title(&self) -> (r: String)
        ensures
            r@ == timer_heading(self@),
    {
        let mut s = String::from_str(" Session ");
        push_decimal(&mut s, self.current);
        s.append(" of ");
        push_decimal(&mut s, self.total);
        s.append(" ");
        s
    }

    /// The volume as the timer shows it.
    pub fn volume_label(&self) -> (r: String)
        ensures
            r@ == volume_text(self@),
    {
        if self.muted {
            String::from_str("Muted")
        } else {
            let mut s = String::new();
            push_decimal(&mut s, self.volume);
            s.append("%");
            assert(s@ =~= volume_text(self@));
            s
        }
    }

    /// The timer's label: time left and volume.
    pub fn timer_label(&self) -> (r: String)
        ensures
            r@ == timer_text(self@),
    {
        let mut s = String::new();
        push_decimal(&mut s, self.rem / 60);
        s.append(":");
        let secs = self.rem % 60;
        if secs < 10 {
            push_char(&mut s, '0');
        }
        push_decimal(&mut s, secs);
        s.append(" | Vol: ");
        let v = self.volume_label();
        s.append(v.as_str());
        assert(s@ =~= timer_text(self@));
        s
    }

    /// The gauge's colour role.
    pub fn tone(&self) -> (t: Tone)
        ensures
            t == tone_of(self@),
    {
        if self.paused {
            Tone::Paused
        } else if self.work {
            Tone::Focus
        } else {
            Tone::Rest
        }
    }

    /// The current phase's length and the seconds of it already spent, on the
    /// timer screen.
    pub fn progress(&self) -> (r: (u32, u32))
        requires
            self.wf(),
            self.screen == Screen::Timer,
        ensures
            r.0 == self@.phase_seconds(),
            r.1 == self@.phase_seconds() - self.rem,
    {
        let phase = if self.work {
            self.mins * 60
        } else if self.mins >= 40 {
            600
        } else {
            300
        };
        (phase, phase - self.rem)
    }
}

} // verus!
