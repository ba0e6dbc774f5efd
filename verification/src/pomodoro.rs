use vstd::prelude::*;
use crate::screen::{Key, Screen};
use crate::theme::{Theme, following};

verus! {

/// How many activities the first screen offers.
pub const ACTIVITY_COUNT: usize = 4;

/// The label of activity `i` (one of the first `ACTIVITY_COUNT`).
pub open spec fn activity_name(i: int) -> Seq<char> {
    if i == 0 {
        "Studying 📚"@
    } else if i == 1 {
        "Coding 💻"@
    } else if i == 2 {
        "Deep Work 🧠"@
    } else {
        "Reading 📖"@
    }
}

/// The label of activity `i`.
pub fn activity_label(i: usize) -> (r: &'static str)
    requires
        i < ACTIVITY_COUNT,
    ensures
        r@ == activity_name(i as int),
{
    if i == 0 {
        "Studying 📚"
    } else if i == 1 {
        "Coding 💻"
    } else if i == 2 {
        "Deep Work 🧠"
    } else {
        "Reading 📖"
    }
}

/// The labels of all activities, in the order the first screen lists them.
pub fn activity_labels() -> (r: Vec<&'static str>)
    ensures
        r.len() == ACTIVITY_COUNT,
        forall|i: int| 0 <= i < ACTIVITY_COUNT ==> #[trigger] r[i]@ == activity_name(i),
{
    let mut r: Vec<&'static str> = Vec::new();
    let mut i: usize = 0;
    while i < ACTIVITY_COUNT
        invariant
            i <= ACTIVITY_COUNT,
            r.len() == i,
            forall|j: int| 0 <= j < i ==> #[trigger] r[j]@ == activity_name(j),
        decreases ACTIVITY_COUNT - i,
    {
        r.push(activity_label(i));
        i = i + 1;
    }
    r
}

/// The entry at the top of the music list, which plays nothing.
pub open spec fn no_music_name() -> Seq<char> {
    "None"@
}

/// The length of a break after a focus session of `mins` minutes:
/// ten minutes after sessions of 40 minutes or more, five minutes otherwise.
pub open spec fn break_seconds(mins: u32) -> u32 {
    if mins >= 40 {
        600
    } else {
        300
    }
}

/// What the caller does outside the state after a key press or a setting change.
/// `U` is the type of the download address: `String`, or its characters in specifications.
#[derive(Debug, PartialEq, Eq)]
pub enum Action<U> {
    /// Nothing outside the state changes.
    Nothing,
    /// A download is in progress: the key was swallowed.
    Held,
    /// The finished download was acknowledged: clear the download flags and
    /// reread the music folder.
    CollectDownload,
    /// Leave the program.
    Quit,
    /// Stop any music, then play entry `track` of the music list (none for `None`),
    /// looping, at `level` percent.
    StartMusic { track: Option<usize>, level: u32 },
    /// Stop the music.
    StopMusic,
    /// Pause the music.
    PauseMusic,
    /// Resume the music.
    ResumeMusic,
    /// Set the music's volume to the given percentage.
    SetMusicLevel(u32),
    /// Download the audio at this address into the music folder.
    Download(U),
}

/// An action as the specifications see it.
pub type Reply = Action<Seq<char>>;

impl View for Action<String> {
    type V = Reply;

    open spec fn view(&self) -> Reply {
        match *self {
            Action::Nothing => Action::Nothing,
            Action::Held => Action::Held,
            Action::CollectDownload => Action::CollectDownload,
            Action::Quit => Action::Quit,
            Action::StartMusic { track, level } => Action::StartMusic { track, level },
            Action::StopMusic => Action::StopMusic,
            Action::PauseMusic => Action::PauseMusic,
            Action::ResumeMusic => Action::ResumeMusic,
            Action::SetMusicLevel(l) => Action::SetMusicLevel(l),
            Action::Download(u) => Action::Download(u@),
        }
    }
}

/// A desktop notification: its title and its body.
#[derive(Clone, Copy, Debug, PartialEq, Eq)]
pub struct Notice {
    pub title: &'static str,
    pub body: &'static str,
}

/// What happens to the music when a phase of the timer ends.
#[derive(Clone, Copy, Debug, PartialEq, Eq)]
pub enum Music {
    Keep,
    Stop,
    Pause,
}

/// What the caller does after one second has passed: show the notice, if any,
/// and apply the music change (a stop comes before the notice, a pause after it).
#[derive(Clone, Copy, Debug, PartialEq, Eq)]
pub struct Tick {
    pub notice: Option<Notice>,
    pub music: Music,
}

/// The notice when the last focus session ends.
pub open spec fn done_notice() -> Notice {
    Notice { title: "Done! 🎉", body: "All sessions finished!" }
}

/// The notice when a break begins.
pub open spec fn break_notice() -> Notice {
    Notice { title: "Break! ☕", body: "Time to rest." }
}

/// The notice when a focus session begins after a break.
pub open spec fn work_notice() -> Notice {
    Notice { title: "Work! 🔥", body: "Focus time." }
}

/// The whole state of the timer and its menus, as specifications see it.
#[verifier::ext_equal]
pub struct PomodoroView {
    pub screen: Screen,
    pub idx: usize,
    pub mins: u32,
    pub total: u32,
    pub current: u32,
    pub rem: u32,
    pub work: bool,
    pub paused: bool,
    pub input: Seq<char>,
    pub bgm_list: Seq<Seq<char>>,
    pub bgm_idx: usize,
    pub notifications: bool,
    pub theme: Theme,
    pub settings_cursor: usize,
    pub volume: u32,
    pub muted: bool,
    pub selection: usize,
}

/// The state of the timer and its menus.
pub struct Pomodoro {
    /// The screen shown.
    pub screen: Screen,
    /// The chosen activity.
    pub idx: usize,
    /// Minutes of a focus session.
    pub mins: u32,
    /// Number of focus sessions.
    pub total: u32,
    /// The focus session in progress, counted from one.
    pub current: u32,
    /// Seconds left in the current phase.
    pub rem: u32,
    /// Whether the current phase is a focus session (else a break).
    pub work: bool,
    /// Whether the timer is paused.
    pub paused: bool,
    /// The address typed on the import screen.
    pub input: Vec<char>,
    /// The music entries: `None`, then the MP3 files of the music folder.
    pub bgm_list: Vec<String>,
    /// The chosen music entry.
    pub bgm_idx: usize,
    /// Whether phase changes raise a desktop notification.
    pub notifications: bool,
    /// The accent colour.
    pub theme: Theme,
    /// The highlighted line of the settings screen (0 or 1).
    pub settings_cursor: usize,
    /// The music volume, in percent.
    pub volume: u32,
    /// Whether the music is muted.
    pub muted: bool,
    /// The row highlighted in the list on screen.
    pub selection: usize,
}

impl View for Pomodoro {
    type V = PomodoroView;

    open spec fn view(&self) -> PomodoroView {
        PomodoroView {
            screen: self.screen,
            idx: self.idx,
            mins: self.mins,
            total: self.total,
            current: self.current,
            rem: self.rem,
            work: self.work,
            paused: self.paused,
            input: self.input@,
            bgm_list: self.bgm_list@.map_values(|s: String| s@),
            bgm_idx: self.bgm_idx,
            notifications: self.notifications,
            theme: self.theme,
            settings_cursor: self.settings_cursor,
            volume: self.volume,
            muted: self.muted,
            selection: self.selection,
        }
    }
}

impl PomodoroView {
    /// The length in seconds of the current phase.
    pub open spec fn phase_seconds(self) -> int {
        if self.work {
            self.mins * 60
        } else {
            break_seconds(self.mins) as int
        }
    }

    /// The volume the music plays at: nothing while muted.
    pub open spec fn level(self) -> u32 {
        if self.muted {
            0
        } else {
            self.volume
        }
    }

    /// The state's invariant.
    pub open spec fn wf(self) -> bool {
        &&& self.idx < ACTIVITY_COUNT
        &&& self.mins >= 1
        &&& self.total >= 1
        &&& self.current >= 1
        &&& self.bgm_list.len() >= 1
        &&& self.bgm_list[0] == no_music_name()
        &&& forall|i: int| 1 <= i < self.bgm_list.len() ==> crate::text::ends_with_mp3(#[trigger] self.bgm_list[i])
        &&& self.settings_cursor <= 1
        &&& self.volume <= 100
        &&& self.screen == Screen::Timer ==> self.mins * 60 <= u32::MAX && self.rem <= self.phase_seconds()
        &&& (self.screen == Screen::Timer && !self.work) ==> self.current < self.total
    }

    /// Keys on which the program would stop with an overflow or an index out of
    /// bounds are left out: raising the focus length or the session count past
    /// `u32::MAX`, starting a session whose length in seconds passes `u32::MAX`,
    /// or starting one with a music entry past the end of the list.
    pub open spec fn key_fits(self, key: Key, downloading: bool) -> bool {
        !downloading ==> match self.screen {
            Screen::Duration => key.is_up() ==> self.mins < u32::MAX,
            Screen::Sessions => key.is_up() ==> self.total < u32::MAX,
            Screen::Bgm => (key != Key::Char('i') && !key.is_up() && !key.is_down() && key.is_forward())
                ==> (self.mins * 60 <= u32::MAX && (self.bgm_idx == 0 || self.bgm_idx < self.bgm_list.len())),
            _ => true,
        }
    }

    /// The state and action after `key`; `downloading` and `done` tell whether a
    /// download runs and whether it has finished.
    pub open spec fn on_key(self, key: Key, downloading: bool, done: bool) -> (PomodoroView, Reply) {
        if downloading {
            if done && key == Key::Enter {
                (PomodoroView { screen: Screen::Bgm, ..self }, Action::CollectDownload)
            } else {
                (self, Action::Held)
            }
        } else {
            match self.screen {
                Screen::Activity => self.activity_key(key),
                Screen::Duration => self.duration_key(key),
                Screen::Sessions => self.sessions_key(key),
                Screen::Bgm => self.bgm_key(key),
                Screen::BgmImport => self.import_key(key),
                Screen::Settings => self.settings_key(key),
                Screen::Timer => self.timer_key(key),
            }
        }
    }

    /// Keys on the activity screen: move through the activities, go on to the
    /// focus length, open the settings, or quit.
    pub open spec fn activity_key(self, key: Key) -> (PomodoroView, Reply) {
        if key.is_up() {
            let i: usize = if self.idx == 0 { 0 } else { (self.idx - 1) as usize };
            (PomodoroView { idx: i, selection: i, ..self }, Action::Nothing)
        } else if key.is_down() {
            if self.idx < ACTIVITY_COUNT - 1 {
                let i: usize = (self.idx + 1) as usize;
                (PomodoroView { idx: i, selection: i, ..self }, Action::Nothing)
            } else {
                (self, Action::Nothing)
            }
        } else if key.is_forward() {
            (PomodoroView { screen: Screen::Duration, ..self }, Action::Nothing)
        } else if key == Key::Char('s') {
            (PomodoroView { screen: Screen::Settings, ..self }, Action::Nothing)
        } else if key == Key::Char('q') {
            (self, Action::Quit)
        } else {
            (self, Action::Nothing)
        }
    }

    /// Keys on the focus-length screen: one minute more or less (never under
    /// one), on to the session count, or back.
    pub open spec fn duration_key(self, key: Key) -> (PomodoroView, Reply) {
        if key.is_up() {
            (PomodoroView { mins: (self.mins + 1) as u32, ..self }, Action::Nothing)
        } else if key.is_down() {
            let m: u32 = if self.mins <= 2 { 1 } else { (self.mins - 1) as u32 };
            (PomodoroView { mins: m, ..self }, Action::Nothing)
        } else if key.is_forward() {
            (PomodoroView { screen: Screen::Sessions, ..self }, Action::Nothing)
        } else if key.is_back() {
            (PomodoroView { screen: Screen::Activity, ..self }, Action::Nothing)
        } else {
            (self, Action::Nothing)
        }
    }

    /// Keys on the session-count screen: one session more or less (never under
    /// one), on to the music list (highlighting the chosen entry), or back.
    pub open spec fn sessions_key(self, key: Key) -> (PomodoroView, Reply) {
        if key.is_up() {
            (PomodoroView { total: (self.total + 1) as u32, ..self }, Action::Nothing)
        } else if key.is_down() {
            let t: u32 = if self.total <= 2 { 1 } else { (self.total - 1) as u32 };
            (PomodoroView { total: t, ..self }, Action::Nothing)
        } else if key.is_forward() {
            (PomodoroView { screen: Screen::Bgm, selection: self.bgm_idx, ..self }, Action::Nothing)
        } else if key.is_back() {
            (PomodoroView { screen: Screen::Duration, ..self }, Action::Nothing)
        } else {
            (self, Action::Nothing)
        }
    }

    /// Keys on the music screen: open the import prompt with an empty address,
    /// move through the entries, start the timer with the chosen music, or back.
    pub open spec fn bgm_key(self, key: Key) -> (PomodoroView, Reply) {
        if key == Key::Char('i') {
            (PomodoroView { screen: Screen::BgmImport, input: Seq::empty(), ..self }, Action::Nothing)
        } else if key.is_up() {
            let i: usize = if self.bgm_idx == 0 { 0 } else { (self.bgm_idx - 1) as usize };
            (PomodoroView { bgm_idx: i, selection: i, ..self }, Action::Nothing)
        } else if key.is_down() {
            if self.bgm_idx < self.bgm_list.len() - 1 {
                let i: usize = (self.bgm_idx + 1) as usize;
                (PomodoroView { bgm_idx: i, selection: i, ..self }, Action::Nothing)
            } else {
                (self, Action::Nothing)
            }
        } else if key.is_forward() {
            (
                PomodoroView {
                    rem: (self.mins * 60) as u32,
                    screen: Screen::Timer,
                    work: true,
                    paused: false,
                    ..self
                },
                Action::StartMusic {
                    track: if self.bgm_idx == 0 { None } else { Some(self.bgm_idx) },
                    level: self.level(),
                },
            )
        } else if key.is_back() {
            (PomodoroView { screen: Screen::Sessions, ..self }, Action::Nothing)
        } else {
            (self, Action::Nothing)
        }
    }

    /// Keys on the import prompt: Enter hands the typed address to the
    /// download and empties the prompt, a character is appended, Backspace
    /// removes the last one, Esc goes back to the music list.
    pub open spec fn import_key(self, key: Key) -> (PomodoroView, Reply) {
        match key {
            Key::Enter => (PomodoroView { input: Seq::empty(), ..self }, Action::Download(self.input)),
            Key::Char(c) => (PomodoroView { input: self.input.push(c), ..self }, Action::Nothing),
            Key::Backspace => {
                if self.input.len() > 0 {
                    (PomodoroView { input: self.input.drop_last(), ..self }, Action::Nothing)
                } else {
                    (self, Action::Nothing)
                }
            },
            Key::Esc => (PomodoroView { screen: Screen::Bgm, ..self }, Action::Nothing),
            _ => (self, Action::Nothing),
        }
    }

    /// Keys on the settings screen: highlight the first or second line,
    /// change the highlighted setting, or back to the activities.
    pub open spec fn settings_key(self, key: Key) -> (PomodoroView, Reply) {
        if key.is_up() {
            (PomodoroView { settings_cursor: 0, ..self }, Action::Nothing)
        } else if key.is_down() {
            (PomodoroView { settings_cursor: 1, ..self }, Action::Nothing)
        } else if key.is_sideways() {
            if self.settings_cursor == 0 {
                (PomodoroView { notifications: !self.notifications, ..self }, Action::Nothing)
            } else {
                (PomodoroView { theme: following(self.theme), ..self }, Action::Nothing)
            }
        } else if key == Key::Esc || key == Key::Char('q') {
            (PomodoroView { screen: Screen::Activity, ..self }, Action::Nothing)
        } else {
            (self, Action::Nothing)
        }
    }

    /// Keys on the timer screen: pause, mute, louder, quieter, or stop.
    pub open spec fn timer_key(self, key: Key) -> (PomodoroView, Reply) {
        if key == Key::Char(' ') {
            self.toggled_pause()
        } else if key == Key::Char('m') || key == Key::Char('M') {
            self.toggled_mute()
        } else if key == Key::Char('+') || key == Key::Char('=') {
            self.adjusted_volume(5)
        } else if key == Key::Char('-') || key == Key::Char('_') {
            self.adjusted_volume(-5)
        } else if key == Key::Char('q') || key.is_back() {
            (PomodoroView { screen: Screen::Activity, ..self }, Action::StopMusic)
        } else {
            (self, Action::Nothing)
        }
    }

    /// Pausing or resuming the timer, with the music.
    pub open spec fn toggled_pause(self) -> (PomodoroView, Reply) {
        (
            PomodoroView { paused: !self.paused, ..self },
            if !self.paused { Action::PauseMusic } else { Action::ResumeMusic },
        )
    }

    /// Muting or unmuting the music.
    pub open spec fn toggled_mute(self) -> (PomodoroView, Reply) {
        let after = PomodoroView { muted: !self.muted, ..self };
        (after, Action::SetMusicLevel(after.level()))
    }

    /// Changing the volume by `delta` percent, kept within 0 and 100; the
    /// music follows unless it is muted.
    pub open spec fn adjusted_volume(self, delta: int) -> (PomodoroView, Reply) {
        let v = self.volume + delta;
        let w: u32 = if v < 0 { 0 } else if v > 100 { 100 } else { v as u32 };
        (
            PomodoroView { volume: w, ..self },
            if self.muted { Action::Nothing } else { Action::SetMusicLevel(w) },
        )
    }

    /// One second of the timer. Outside the timer screen, while paused, or with
    /// no time left, nothing changes. Otherwise a second is taken off; when the
    /// phase runs out, the timer pauses and: after the last focus session it
    /// returns to the activity screen and stops the music; after another focus
    /// session a break begins; after a break the next focus session begins.
    pub open spec fn ticked(self) -> (PomodoroView, Tick) {
        if self.screen != Screen::Timer || self.paused || self.rem == 0 {
            (self, Tick { notice: None, music: Music::Keep })
        } else if self.rem > 1 {
            (PomodoroView { rem: (self.rem - 1) as u32, ..self }, Tick { notice: None, music: Music::Keep })
        } else if self.work && self.current >= self.total {
            (
                PomodoroView { rem: 0, screen: Screen::Activity, paused: true, ..self },
                Tick { notice: if self.notifications { Some(done_notice()) } else { None }, music: Music::Stop },
            )
        } else if self.work {
            (
                PomodoroView { rem: break_seconds(self.mins), work: false, paused: true, ..self },
                Tick { notice: if self.notifications { Some(break_notice()) } else { None }, music: Music::Pause },
            )
        } else {
            (
                PomodoroView {
                    rem: (self.mins * 60) as u32,
                    work: true,
                    current: (self.current + 1) as u32,
                    paused: true,
                    ..self
                },
                Tick { notice: if self.notifications { Some(work_notice()) } else { None }, music: Music::Pause },
            )
        }
    }
}


impl Pomodoro {
    /// The state's invariant.
    pub open spec fn wf(&self) -> bool {
        self@.wf()
    }

    /// The state on start-up: the first activity, 25-minute sessions, four of
    /// them, no music, notifications on, the cyan theme, half volume.
    pub fn new() -> (s: Pomodoro)
        ensures
            s.wf(),
            s@ == (PomodoroView {
                screen: Screen::Activity,
                idx: 0,
                mins: 25,
                total: 4,
                current: 1,
                rem: 1500,
                work: true,
                paused: true,
                input: Seq::empty(),
                bgm_list: seq![no_music_name()],
                bgm_idx: 0,
                notifications: true,
                theme: Theme::Cyan,
                settings_cursor: 0,
                volume: 50,
                muted: false,
                selection: 0,
            }),
    {
        let mut bgm_list: Vec<String> = Vec::new();
        bgm_list.push(String::from_str("None"));
        let s = Pomodoro {
            screen: Screen::Activity,
            idx: 0,
            mins: 25,
            total: 4,
            current: 1,
            rem: 25 * 60,
            work: true,
            paused: true,
            input: Vec::new(),
            bgm_list,
            bgm_idx: 0,
            notifications: true,
            theme: Theme::Cyan,
            settings_cursor: 0,
            volume: 50,
            muted: false,
            selection: 0,
        };
        assert(s@.bgm_list =~= seq![no_music_name()]);
        assert(s@.input =~= Seq::<char>::empty());
        s
    }

    /// Whether `key` can be handled without an overflow or a bad index
    /// (see [`PomodoroView::key_fits`]).
    pub fn key_fits(&self, key: Key, downloading: bool) -> (r: bool)
        ensures
            r == self@.key_fits(key, downloading),
    {
        if downloading {
            return true;
        }
        match self.screen {
            Screen::Duration => !key.up() || self.mins < u32::MAX,
            Screen::Sessions => !key.up() || self.total < u32::MAX,
            Screen::Bgm => {
                let starts = key != Key::Char('i') && !key.up() && !key.down() && key.forward();
                !starts || (self.mins <= u32::MAX / 60 && (self.bgm_idx == 0 || self.bgm_idx < self.bgm_list.len()))
            },
            _ => true,
        }
    }

    /// Handles one key press; `downloading` and `done` tell whether a download
    /// runs and whether it has finished. Returns what the caller does outside.
    pub fn handle_key(&mut self, key: Key, downloading: bool, done: bool) -> (r: Action<String>)
        requires
            old(self).wf(),
            old(self)@.key_fits(key, downloading),
        ensures
            final(self).wf(),
            final(self)@ == old(self)@.on_key(key, downloading, done).0,
            r@ == old(self)@.on_key(key, downloading, done).1,
    {
        if downloading {
            if done && key == Key::Enter {
                self.screen = Screen::Bgm;
                return Action::CollectDownload;
            }
            return Action::Held;
        }
        match self.screen {
            Screen::Activity => self.activity_key(key),
            Screen::Duration => self.duration_key(key),
            Screen::Sessions => self.sessions_key(key),
            Screen::Bgm => self.bgm_key(key),
            Screen::BgmImport => self.import_key(key),
            Screen::Settings => self.settings_key(key),
            Screen::Timer => self.timer_key(key),
        }
    }

    fn activity_key(&mut self, key: Key) -> (r: Action<String>)
        requires
            old(self).wf(),
            old(self).screen == Screen::Activity,
        ensures
            final(self).wf(),
            final(self)@ == old(self)@.activity_key(key).0,
            r@ == old(self)@.activity_key(key).1,
    {
        if key.up() {
            self.idx = if self.idx == 0 { 0 } else { self.idx - 1 };
            self.selection = self.idx;
        } else if key.down() {
            if self.idx < ACTIVITY_COUNT - 1 {
                self.idx = self.idx + 1;
                self.selection = self.idx;
            }
        } else if key.forward() {
            self.screen = Screen::Duration;
        } else if key == Key::Char('s') {
            self.screen = Screen::Settings;
        } else if key == Key::Char('q') {
            return Action::Quit;
        }
        Action::Nothing
    }

    fn duration_key(&mut self, key: Key) -> (r: Action<String>)
        requires
            old(self).wf(),
            old(self).screen == Screen::Duration,
            old(self)@.key_fits(key, false),
        ensures
            final(self).wf(),
            final(self)@ == old(self)@.duration_key(key).0,
            r@ == old(self)@.duration_key(key).1,
    {
        if key.up() {
            self.mins = self.mins + 1;
        } else if key.down() {
            self.mins = if self.mins <= 2 { 1 } else { self.mins - 1 };
        } else if key.forward() {
            self.screen = Screen::Sessions;
        } else if key.back() {
            self.screen = Screen::Activity;
        }
        Action::Nothing
    }

    fn sessions_key(&mut self, key: Key) -> (r: Action<String>)
        requires
            old(self).wf(),
            old(self).screen == Screen::Sessions,
            old(self)@.key_fits(key, false),
        ensures
            final(self).wf(),
            final(self)@ == old(self)@.sessions_key(key).0,
            r@ == old(self)@.sessions_key(key).1,
    {
        if key.up() {
            self.total = self.total + 1;
        } else if key.down() {
            self.total = if self.total <= 2 { 1 } else { self.total - 1 };
        } else if key.forward() {
            self.screen = Screen::Bgm;
            self.selection = self.bgm_idx;
        } else if key.back() {
            self.screen = Screen::Duration;
        }
        Action::Nothing
    }

    fn bgm_key(&mut self, key: Key) -> (r: Action<String>)
        requires
            old(self).wf(),
            old(self).screen == Screen::Bgm,
            old(self)@.key_fits(key, false),
        ensures
            final(self).wf(),
            final(self)@ == old(self)@.bgm_key(key).0,
            r@ == old(self)@.bgm_key(key).1,
    {
        if key == Key::Char('i') {
            self.screen = Screen::BgmImport;
            self.input = Vec::new();
            assert(self@.input =~= Seq::<char>::empty());
        } else if key.up() {
            self.bgm_idx = if self.bgm_idx == 0 { 0 } else { self.bgm_idx - 1 };
            self.selection = self.bgm_idx;
        } else if key.down() {
            if self.bgm_idx < self.bgm_list.len() - 1 {
                self.bgm_idx = self.bgm_idx + 1;
                self.selection = self.bgm_idx;
            }
        } else if key.forward() {
            self.rem = self.mins * 60;
            self.screen = Screen::Timer;
            self.work = true;
            self.paused = false;
            let track = if self.bgm_idx == 0 { None } else { Some(self.bgm_idx) };
            let level = if self.muted { 0 } else { self.volume };
            return Action::StartMusic { track, level };
        } else if key.back() {
            self.screen = Screen::Sessions;
        }
        Action::Nothing
    }

    fn import_key(&mut self, key: Key) -> (r: Action<String>)
        requires
            old(self).wf(),
            old(self).screen == Screen::BgmImport,
        ensures
            final(self).wf(),
            final(self)@ == old(self)@.import_key(key).0,
            r@ == old(self)@.import_key(key).1,
    {
        match key {
            Key::Enter => {
                let url = crate::text::string_of_chars(&self.input);
                self.input = Vec::new();
                assert(self@.input =~= Seq::<char>::empty());
                Action::Download(url)
            },
            Key::Char(c) => {
                self.input.push(c);
                Action::Nothing
            },
            Key::Backspace => {
                if self.input.len() > 0 {
                    self.input.pop();
                }
                Action::Nothing
            },
            Key::Esc => {
                self.screen = Screen::Bgm;
                Action::Nothing
            },
            _ => Action::Nothing,
        }
    }

    fn settings_key(&mut self, key: Key) -> (r: Action<String>)
        requires
            old(self).wf(),
            old(self).screen == Screen::Settings,
        ensures
            final(self).wf(),
            final(self)@ == old(self)@.settings_key(key).0,
            r@ == old(self)@.settings_key(key).1,
    {
        if key.up() {
            self.settings_cursor = 0;
        } else if key.down() {
            self.settings_cursor = 1;
        } else if key.sideways() {
            if self.settings_cursor == 0 {
                self.notifications = !self.notifications;
            } else {
                self.theme = self.theme.next();
            }
        } else if key == Key::Esc || key == Key::Char('q') {
            self.screen = Screen::Activity;
        }
        Action::Nothing
    }

    fn timer_key(&mut self, key: Key) -> (r: Action<String>)
        requires
            old(self).wf(),
            old(self).screen == Screen::Timer,
        ensures
            final(self).wf(),
            final(self)@ == old(self)@.timer_key(key).0,
            r@ == old(self)@.timer_key(key).1,
    {
        if key == Key::Char(' ') {
            self.toggle_pause()
        } else if key == Key::Char('m') || key == Key::Char('M') {
            self.toggle_mute()
        } else if key == Key::Char('+') || key == Key::Char('=') {
            self.adjust_volume(5)
        } else if key == Key::Char('-') || key == Key::Char('_') {
            self.adjust_volume(-5)
        } else if key == Key::Char('q') || key.back() {
            self.screen = Screen::Activity;
            Action::StopMusic
        } else {
            Action::Nothing
        }
    }

    /// Pauses or resumes the timer; the music follows.
    pub fn toggle_pause(&mut self) -> (r: Action<String>)
        requires
            old(self).wf(),
        ensures
            final(self).wf(),
            final(self)@ == old(self)@.toggled_pause().0,
            r@ == old(self)@.toggled_pause().1,
    {
        self.paused = !self.paused;
        if self.paused {
            Action::PauseMusic
        } else {
            Action::ResumeMusic
        }
    }

    /// Mutes or unmutes the music.
    pub fn toggle_mute(&mut self) -> (r: Action<String>)
        requires
            old(self).wf(),
        ensures
            final(self).wf(),
            final(self)@ == old(self)@.toggled_mute().0,
            r@ == old(self)@.toggled_mute().1,
    {
        self.muted = !self.muted;
        Action::SetMusicLevel(if self.muted { 0 } else { self.volume })
    }

    /// Changes the volume by `delta` percent, kept within 0 and 100.
    pub fn adjust_volume(&mut self, delta: i32) -> (r: Action<String>)
        requires
            old(self).wf(),
        ensures
            final(self).wf(),
            final(self)@ == old(self)@.adjusted_volume(delta as int).0,
            r@ == old(self)@.adjusted_volume(delta as int).1,
    {
        let v: i64 = self.volume as i64 + delta as i64;
        self.volume = if v < 0 { 0 } else if v > 100 { 100 } else { v as u32 };
        if self.muted {
            Action::Nothing
        } else {
            Action::SetMusicLevel(self.volume)
        }
    }

    /// One second of the timer (see [`PomodoroView::ticked`]).
    pub fn on_tick(&mut self) -> (t: Tick)
        requires
            old(self).wf(),
        ensures
            final(self).wf(),
            final(self)@ == old(self)@.ticked().0,
            t == old(self)@.ticked().1,
    {
        if self.screen != Screen::Timer || self.paused || self.rem == 0 {
            return Tick { notice: None, music: Music::Keep };
        }
        self.rem = self.rem - 1;
        if self.rem > 0 {
            return Tick { notice: None, music: Music::Keep };
        }
        let notice;
        let music;
        if self.work {
            if self.current >= self.total {
                notice = Notice { title: "Done! 🎉", body: "All sessions finished!" };
                self.screen = Screen::Activity;
                music = Music::Stop;
            } else {
                self.work = false;
                self.rem = if self.mins >= 40 { 600 } else { 300 };
                notice = Notice { title: "Break! ☕", body: "Time to rest." };
                music = Music::Pause;
            }
        } else {
            self.work = true;
            self.current = self.current + 1;
            self.rem = self.mins * 60;
            notice = Notice { title: "Work! 🔥", body: "Focus time." };
            music = Music::Pause;
        }
        self.paused = true;
        Tick { notice: if self.notifications { Some(notice) } else { None }, music }
    }
}

} // verus!
