use vstd::prelude::*;

verus! {

/// The accent colour of the interface.
#[derive(Clone, Copy, Debug, PartialEq, Eq, Structural)]
pub enum Theme {
    Cyan,
    Magenta,
    Green,
    Yellow,
    Red,
}

/// The theme that follows `t` in the settings cycle
/// Cyan, Magenta, Green, Yellow, Red, and back to Cyan.
pub open spec fn following(t: Theme) -> Theme {
    match t {
        Theme::Cyan => Theme::Magenta,
        Theme::Magenta => Theme::Green,
        Theme::Green => Theme::Yellow,
        Theme::Yellow => Theme::Red,
        Theme::Red => Theme::Cyan,
    }
}

/// The name under which a theme is shown in the settings screen.
pub open spec fn theme_name(t: Theme) -> Seq<char> {
    match t {
        Theme::Cyan => seq!['C', 'y', 'a', 'n'],
        Theme::Magenta => seq!['M', 'a', 'g', 'e', 'n', 't', 'a'],
        Theme::Green => seq!['G', 'r', 'e', 'e', 'n'],
        Theme::Yellow => seq!['Y', 'e', 'l', 'l', 'o', 'w'],
        Theme::Red => seq!['R', 'e', 'd'],
    }
}

impl Theme {
    /// The next theme in the cycle.
    pub fn next(self) -> (r: Theme)
        ensures
            r == following(self),
    {
        match self {
            Theme::Cyan => Theme::Magenta,
            Theme::Magenta => Theme::Green,
            Theme::Green => Theme::Yellow,
            Theme::Yellow => Theme::Red,
            Theme::Red => Theme::Cyan,
        }
    }

    /// The theme's name as the settings screen shows it.
    pub fn name(self) -> (r: &'static str)
        ensures
            r@ == theme_name(self),
    {
        match self {
            Theme::Cyan => {
                proof { reveal_strlit("Cyan"); }
                "Cyan"
            },
            Theme::Magenta => {
                proof { reveal_strlit("Magenta"); }
                "Magenta"
            },
            Theme::Green => {
                proof { reveal_strlit("Green"); }
                "Green"
            },
            Theme::Yellow => {
                proof { reveal_strlit("Yellow"); }
                "Yellow"
            },
            Theme::Red => {
                proof { reveal_strlit("Red"); }
                "Red"
            },
        }
    }
}

} // verus!
