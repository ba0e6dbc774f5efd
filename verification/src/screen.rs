use vstd::prelude::*;

verus! {

/// The screens of the interface: the four set-up steps, the music import
/// prompt, the settings and the running timer.
#[derive(Clone, Copy, Debug, PartialEq, Eq, Structural)]
pub enum Screen {
    Activity,
    Duration,
    Sessions,
    Bgm,
    BgmImport,
    Settings,
    Timer,
}

/// A key press, reduced to what the interface tells apart.
#[derive(Clone, Copy, Debug, PartialEq, Eq, Structural)]
pub enum Key {
    Up,
    Down,
    Left,
    Right,
    Enter,
    Esc,
    Backspace,
    Char(char),
    Other,
}

impl Key {
    /// Up, or `k`.
    pub open spec fn is_up(self) -> bool {
        self == Key::Up || self == Key::Char('k')
    }

    /// Down, or `j`.
    pub open spec fn is_down(self) -> bool {
        self == Key::Down || self == Key::Char('j')
    }

    /// Enter, `l` or Right: go on to the next step.
    pub open spec fn is_forward(self) -> bool {
        self == Key::Enter || self == Key::Char('l') || self == Key::Right
    }

    /// `h`, Left or Esc: go back one step.
    pub open spec fn is_back(self) -> bool {
        self == Key::Char('h') || self == Key::Left || self == Key::Esc
    }

    /// Left, `h`, Right or `l`: change the selected setting.
    pub open spec fn is_sideways(self) -> bool {
        self == Key::Left || self == Key::Char('h') || self == Key::Right || self == Key::Char('l')
    }

    /// Exec form of [`Key::is_up`].
    pub fn up(self) -> (r: bool)
        ensures
            r == self.is_up(),
    {
        self == Key::Up || self == Key::Char('k')
    }

    /// Exec form of [`Key::is_down`].
    pub fn down(self) -> (r: bool)
        ensures
            r == self.is_down(),
    {
        self == Key::Down || self == Key::Char('j')
    }

    /// Exec form of [`Key::is_forward`].
    pub fn forward(self) -> (r: bool)
        ensures
            r == self.is_forward(),
    {
        self == Key::Enter || self == Key::Char('l') || self == Key::Right
    }

    /// Exec form of [`Key::is_back`].
    pub fn back(self) -> (r: bool)
        ensures
            r == self.is_back(),
    {
        self == Key::Char('h') || self == Key::Left || self == Key::Esc
    }

    /// Exec form of [`Key::is_sideways`].
    pub fn sideways(self) -> (r: bool)
        ensures
            r == self.is_sideways(),
    {
        self == Key::Left || self == Key::Char('h') || self == Key::Right || self == Key::Char('l')
    }
}

} // verus!
