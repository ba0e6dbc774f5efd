use vstd::prelude::*;
use crate::pomodoro::{Action, PomodoroView, break_seconds, ACTIVITY_COUNT};
use crate::music::{track_names};
use crate::screen::{Key, Screen};
use crate::theme::{Theme, following};

verus! {

/// Five steps through the theme cycle come back to the theme one started from.
pub proof fn theme_cycle_has_five_steps(t: Theme)
    ensures
        following(following(following(following(following(t))))) == t,
{
}

/// Pausing twice leaves the state as it was; the first toggle of a running
/// timer pauses the music and the second resumes it.
pub proof fn pause_twice_restores(v: PomodoroView)
    ensures
        v.toggled_pause().0.toggled_pause().0 == v,
        !v.paused ==> v.toggled_pause().1 == Action::<Seq<char>>::PauseMusic
            && v.toggled_pause().0.toggled_pause().1 == Action::<Seq<char>>::ResumeMusic,
{
    assert(v.toggled_pause().0.toggled_pause().0 =~= v);
}

/// Muting twice leaves the state as it was, and the music plays again at the volume.
pub proof fn mute_twice_restores(v: PomodoroView)
    ensures
        v.toggled_mute().0.toggled_mute().0 == v,
        !v.muted ==> v.toggled_mute().1 == Action::<Seq<char>>::SetMusicLevel(0)
            && v.toggled_mute().0.toggled_mute().1 == Action::<Seq<char>>::SetMusicLevel(v.volume),
{
    assert(v.toggled_mute().0.toggled_mute().0 =~= v);
}

/// Whatever the change, the volume stays between 0 and 100 percent.
pub proof fn volume_stays_in_range(v: PomodoroView, delta: int)
    ensures
        0 <= v.adjusted_volume(delta).0.volume <= 100,
{
}

/// Away from the limits, one step up and one step down (or down and up)
/// give back the volume one started from.
pub proof fn volume_steps_cancel(v: PomodoroView)
    requires
        v.volume <= 100,
    ensures
        v.volume <= 95 ==> v.adjusted_volume(5).0.adjusted_volume(-5).0 == v,
        v.volume >= 5 ==> v.adjusted_volume(-5).0.adjusted_volume(5).0 == v,
{
    assert(v.volume <= 95 ==> v.adjusted_volume(5).0.adjusted_volume(-5).0 =~= v);
    assert(v.volume >= 5 ==> v.adjusted_volume(-5).0.adjusted_volume(5).0 =~= v);
}

/// Every key the program accepts keeps the state's invariant.
pub proof fn keys_keep_invariant(v: PomodoroView, key: Key, downloading: bool, done: bool)
    requires
        v.wf(),
        v.key_fits(key, downloading),
    ensures
        v.on_key(key, downloading, done).0.wf(),
{
}

/// Every second keeps the state's invariant.
pub proof fn ticks_keep_invariant(v: PomodoroView)
    requires
        v.wf(),
    ensures
        v.ticked().0.wf(),
{
}

/// The state after `k` seconds.
pub open spec fn run_ticks(v: PomodoroView, k: nat) -> PomodoroView
    decreases k,
{
    if k == 0 {
        v
    } else {
        run_ticks(v.ticked().0, (k - 1) as nat)
    }
}

/// A running timer counts down one second per tick, and nothing else changes
/// while time is left in the phase.
pub proof fn countdown(v: PomodoroView, k: nat)
    requires
        v.screen == Screen::Timer,
        !v.paused,
        k < v.rem,
    ensures
        run_ticks(v, k) == (PomodoroView { rem: (v.rem - k) as u32, ..v }),
    decreases k,
{
    if k > 0 {
        let next = v.ticked().0;
        assert(next == (PomodoroView { rem: (v.rem - 1) as u32, ..v }));
        countdown(next, (k - 1) as nat);
        assert(run_ticks(next, (k - 1) as nat) =~= (PomodoroView { rem: (v.rem - k) as u32, ..v }));
    } else {
        assert((PomodoroView { rem: v.rem, ..v }) =~= v);
    }
}

/// A running phase ends exactly when its seconds are used up: after `rem`
/// ticks the state is the one the phase's last second leads to, and the timer
/// is paused.
pub proof fn phase_ends_on_time(v: PomodoroView)
    requires
        v.screen == Screen::Timer,
        !v.paused,
        v.rem > 0,
    ensures
        run_ticks(v, v.rem as nat) == (PomodoroView { rem: 1, ..v }).ticked().0,
        run_ticks(v, v.rem as nat).paused,
    decreases v.rem,
{
    if v.rem == 1 {
        reveal_with_fuel(run_ticks, 2);
        assert((PomodoroView { rem: 1, ..v }) =~= v);
    } else {
        let next = v.ticked().0;
        phase_ends_on_time(next);
        assert(run_ticks(v, v.rem as nat) == run_ticks(next, next.rem as nat));
        assert((PomodoroView { rem: 1, ..next }) =~= (PomodoroView { rem: 1, ..v }));
    }
}

/// Starting from the music screen, the timer runs a full focus session of
/// `mins` minutes, and a focus session that is not the last is followed by a
/// break of ten minutes (for sessions of 40 minutes or more) or five.
pub proof fn sessions_and_breaks(v: PomodoroView)
    requires
        v.wf(),
        v.screen == Screen::Bgm,
        v.key_fits(Key::Enter, false),
    ensures
        ({
            let s = v.on_key(Key::Enter, false, false).0;
            &&& s.screen == Screen::Timer && s.work && !s.paused
            &&& s.rem == v.mins * 60
            &&& s.current < s.total ==> (PomodoroView { rem: 1, ..s }).ticked().0.rem == break_seconds(v.mins)
            &&& s.current < s.total ==> !(PomodoroView { rem: 1, ..s }).ticked().0.work
            &&& s.current >= s.total ==> (PomodoroView { rem: 1, ..s }).ticked().0.screen == Screen::Activity
        }),
{
}

/// Away from the timer screen, or while it is paused, time does not pass.
pub proof fn idle_ticks_change_nothing(v: PomodoroView)
    requires
        v.screen != Screen::Timer || v.paused,
    ensures
        v.ticked().0 == v,
        v.ticked().1.notice.is_none(),
{
}

/// On the import prompt, Backspace takes back the character just typed.
pub proof fn backspace_undoes_typing(v: PomodoroView, c: char)
    requires
        v.screen == Screen::BgmImport,
    ensures
        v.import_key(Key::Char(c)).0.import_key(Key::Backspace).0 == v,
{
    assert(v.input.push(c).drop_last() =~= v.input);
    assert(v.import_key(Key::Char(c)).0.import_key(Key::Backspace).0 =~= v);
}

/// The state after typing the characters of `text` on the import prompt.
pub open spec fn type_text(v: PomodoroView, text: Seq<char>) -> PomodoroView
    decreases text.len(),
{
    if text.len() == 0 {
        v
    } else {
        type_text(v, text.drop_last()).import_key(Key::Char(text.last())).0
    }
}

/// What is typed on the import prompt is what Enter hands to the download,
/// and the prompt is empty afterwards.
pub proof fn typed_address_is_downloaded(v: PomodoroView, text: Seq<char>)
    requires
        v.screen == Screen::BgmImport,
    ensures
        type_text(v, text).screen == Screen::BgmImport,
        type_text(v, text).import_key(Key::Enter).1 == Action::<Seq<char>>::Download(v.input + text),
        type_text(v, text).import_key(Key::Enter).0.input.len() == 0,
    decreases text.len(),
{
    if text.len() == 0 {
        assert(v.input + text =~= v.input);
    } else {
        typed_address_is_downloaded(v, text.drop_last());
        let before = type_text(v, text.drop_last());
        assert(before.screen == Screen::BgmImport);
        assert(before.import_key(Key::Enter).1 == Action::<Seq<char>>::Download(v.input + text.drop_last()));
        assert(before.input == v.input + text.drop_last()) by {
            assert(before.import_key(Key::Enter).1 == Action::<Seq<char>>::Download(before.input));
        }
        assert(type_text(v, text).input == before.input.push(text.last()));
        assert(v.input + text =~= (v.input + text.drop_last()).push(text.last()));
    }
}

/// On the first two set-up screens, going on and coming back returns to the
/// same state.
pub proof fn forward_then_back_returns(v: PomodoroView)
    requires
        v.screen == Screen::Activity || v.screen == Screen::Duration,
    ensures
        v.on_key(Key::Enter, false, false).0.on_key(Key::Esc, false, false).0 == v,
{
    assert(v.on_key(Key::Enter, false, false).0.on_key(Key::Esc, false, false).0 =~= v);
}

/// Changing the notification setting twice returns to where it was.
pub proof fn notification_setting_toggles(v: PomodoroView)
    requires
        v.screen == Screen::Settings,
        v.settings_cursor == 0,
    ensures
        v.settings_key(Key::Right).0.notifications == !v.notifications,
        v.settings_key(Key::Right).0.settings_key(Key::Right).0 == v,
{
    assert(v.settings_key(Key::Right).0.settings_key(Key::Right).0 =~= v);
}

/// The state after resuming a paused timer.
pub open spec fn resumed(v: PomodoroView) -> PomodoroView {
    v.toggled_pause().0
}

/// The pomodoro cycle: a running focus session that is not the last runs out
/// into a paused break of the break length; resumed, the break runs out into
/// the next focus session, paused, with the full session length; resumed, it
/// runs again. The last focus session runs out into the activity screen.
pub proof fn focus_break_cycle(v: PomodoroView)
    requires
        v.wf(),
        v.screen == Screen::Timer,
        !v.paused,
        v.work,
        v.rem > 0,
    ensures
        v.current >= v.total ==> run_ticks(v, v.rem as nat).screen == Screen::Activity,
        v.current < v.total ==> ({
            let b = run_ticks(v, v.rem as nat);
            let w = run_ticks(resumed(b), b.rem as nat);
            &&& b.screen == Screen::Timer && b.paused && !b.work
            &&& b.rem == break_seconds(v.mins)
            &&& w.screen == Screen::Timer && w.paused && w.work
            &&& w.current == v.current + 1
            &&& w.rem == v.mins * 60
            &&& !resumed(w).paused
        }),
{
    phase_ends_on_time(v);
    if v.current < v.total {
        let b = run_ticks(v, v.rem as nat);
        assert(b.rem == break_seconds(v.mins));
        phase_ends_on_time(resumed(b));
    }
}

/// When the chosen music entry is in the list, every key keeps it there.
pub proof fn music_choice_stays_in_list(v: PomodoroView, key: Key, downloading: bool, done: bool)
    requires
        v.wf(),
        v.bgm_idx < v.bgm_list.len(),
    ensures
        v.on_key(key, downloading, done).0.bgm_idx < v.on_key(key, downloading, done).0.bgm_list.len(),
{
}

/// One step of a user who keeps the timer going: resume it if it is paused on
/// the timer screen, then let a second pass.
pub open spec fn keep_going(v: PomodoroView) -> PomodoroView {
    (if v.screen == Screen::Timer && v.paused { resumed(v) } else { v }).ticked().0
}

/// The state after `k` such steps.
pub open spec fn run_plan(v: PomodoroView, k: nat) -> PomodoroView
    decreases k,
{
    if k == 0 {
        v
    } else {
        run_plan(keep_going(v), (k - 1) as nat)
    }
}

/// `a` steps and then `b` more are `a + b` steps.
proof fn run_plan_adds(v: PomodoroView, a: nat, b: nat)
    ensures
        run_plan(v, a + b) == run_plan(run_plan(v, a), b),
    decreases a,
{
    if a > 0 {
        run_plan_adds(keep_going(v), (a - 1) as nat, b);
        assert((a + b - 1) as nat == (a - 1) as nat + b);
    }
}

/// A phase with time left, paused or not, stays on the timer screen until its
/// seconds are used up, and then ends as its last second does.
proof fn phase_runs_out(v: PomodoroView)
    requires
        v.screen == Screen::Timer,
        v.rem > 0,
    ensures
        forall|k: nat| k < v.rem ==> (#[trigger] run_plan(v, k)).screen == Screen::Timer,
        run_plan(v, v.rem as nat) == (PomodoroView { rem: 1, paused: false, ..v }).ticked().0,
    decreases v.rem,
{
    let next = keep_going(v);
    if v.rem == 1 {
        reveal_with_fuel(run_plan, 2);
        assert(next == (PomodoroView { rem: 1, paused: false, ..v }).ticked().0) by {
            assert((if v.paused { resumed(v) } else { v }) =~= (PomodoroView { rem: 1, paused: false, ..v }));
        }
        assert forall|k: nat| k < v.rem implies (#[trigger] run_plan(v, k)).screen == Screen::Timer by {
            assert(k == 0);
        }
    } else {
        assert(next =~= (PomodoroView { rem: (v.rem - 1) as u32, paused: false, ..v }));
        phase_runs_out(next);
        assert((PomodoroView { rem: 1, paused: false, ..next }) =~= (PomodoroView { rem: 1, paused: false, ..v }));
        assert forall|k: nat| k < v.rem implies (#[trigger] run_plan(v, k)).screen == Screen::Timer by {
            if k > 0 {
                assert(run_plan(v, k) == run_plan(next, (k - 1) as nat));
                assert(run_plan(next, (k - 1) as nat).screen == Screen::Timer);
            }
        }
    }
}

/// The number of seconds of a plan with `left` sessions after the current
/// one, each of `focus` seconds with breaks of `rest` seconds between them.
pub open spec fn plan_seconds(left: nat, focus: nat, rest: nat) -> nat {
    (left + 1) * focus + left * rest
}

/// From the start of a focus session with `total - current` sessions after
/// it, a user who keeps the timer going stays on the timer screen until all
/// sessions and the breaks between them have passed, and then the timer is
/// back on the activity screen with the last session's count and no time left.
proof fn plan_from_session(v: PomodoroView)
    requires
        v.wf(),
        v.screen == Screen::Timer,
        v.work,
        v.rem == v.mins * 60,
        1 <= v.current <= v.total,
    ensures
        ({
            let t = plan_seconds((v.total - v.current) as nat, (v.mins * 60) as nat, break_seconds(v.mins) as nat);
            &&& forall|k: nat| k < t ==> (#[trigger] run_plan(v, k)).screen == Screen::Timer
            &&& run_plan(v, t).screen == Screen::Activity
            &&& run_plan(v, t).current == v.total
            &&& run_plan(v, t).rem == 0
        }),
    decreases v.total - v.current,
{
    let focus: nat = (v.mins * 60) as nat;
    let rest: nat = break_seconds(v.mins) as nat;
    let left: nat = (v.total - v.current) as nat;
    let t = plan_seconds(left, focus, rest);
    phase_runs_out(v);
    let w1 = run_plan(v, focus);
    if v.current == v.total {
        assert(t == focus) by (nonlinear_arith)
            requires left == 0, t == (left + 1) * focus + left * rest;
    } else {
        assert(w1 == (PomodoroView { rem: break_seconds(v.mins), work: false, paused: true, ..v }));
        phase_runs_out(w1);
        let w2 = run_plan(w1, rest);
        assert(w2 == (PomodoroView {
            rem: (v.mins * 60) as u32,
            work: true,
            current: (v.current + 1) as u32,
            paused: true,
            ..v
        }));
        assert(w2.wf());
        plan_from_session(w2);
        let t2 = plan_seconds((left - 1) as nat, focus, rest);
        assert(t == focus + rest + t2) by (nonlinear_arith)
            requires
                left >= 1,
                t == (left + 1) * focus + left * rest,
                t2 == ((left - 1) as nat + 1) * focus + (left - 1) as nat * rest;
        run_plan_adds(v, focus, rest);
        run_plan_adds(v, focus + rest, t2);
        assert(run_plan(v, t) == run_plan(w2, t2));
        assert forall|k: nat| k < t implies (#[trigger] run_plan(v, k)).screen == Screen::Timer by {
            if focus <= k < focus + rest {
                run_plan_adds(v, focus, (k - focus) as nat);
                assert(run_plan(v, k) == run_plan(w1, (k - focus) as nat));
            } else if k >= focus + rest {
                run_plan_adds(v, focus + rest, (k - focus - rest) as nat);
                run_plan_adds(v, focus, rest);
                assert(run_plan(v, k) == run_plan(w2, (k - focus - rest) as nat));
            }
        }
    }
}

/// A whole plan: starting a running first focus session of `m` minutes in a
/// plan of `n` sessions, a user who resumes the timer whenever it stops runs
/// `n` focus sessions and the `n - 1` breaks between them (ten minutes each
/// for sessions of 40 minutes or more, five otherwise): the timer stays on its
/// screen for exactly `n * m * 60 + (n - 1) * break` seconds and is then back
/// on the activity screen, with `n` sessions counted and no time left.
pub proof fn whole_plan(v: PomodoroView)
    requires
        v.wf(),
        v.screen == Screen::Timer,
        v.work,
        !v.paused,
        v.current == 1,
        v.rem == v.mins * 60,
    ensures
        ({
            let t = (v.total * v.mins * 60 + (v.total - 1) * break_seconds(v.mins)) as nat;
            &&& forall|k: nat| k < t ==> (#[trigger] run_plan(v, k)).screen == Screen::Timer
            &&& run_plan(v, t).screen == Screen::Activity
            &&& run_plan(v, t).current == v.total
            &&& run_plan(v, t).rem == 0
        }),
{
    plan_from_session(v);
    let focus: nat = (v.mins * 60) as nat;
    let rest: nat = break_seconds(v.mins) as nat;
    let left: nat = (v.total - 1) as nat;
    assert(plan_seconds(left, focus, rest) == (v.total * v.mins * 60 + (v.total - 1) * break_seconds(v.mins)) as nat)
        by (nonlinear_arith)
        requires
            left + 1 == v.total,
            focus == v.mins * 60,
            rest == break_seconds(v.mins),
            plan_seconds(left, focus, rest) == (left + 1) * focus + left * rest;
}

/// The last second of a focus session that is not the last ends in a break of
/// ten minutes (600 seconds) after sessions of 40 minutes or more and five
/// minutes (300 seconds) after shorter ones; the timer stops, notifying if
/// notifications are on, and the music pauses. The timer screen gives a break
/// the same length.
pub proof fn break_length(v: PomodoroView)
    requires
        v.wf(),
        v.screen == Screen::Timer,
        !v.paused,
        v.work,
        v.rem == 1,
        v.current < v.total,
    ensures
        v.ticked().0.rem == (if v.mins >= 40 { 600u32 } else { 300u32 }),
        !v.ticked().0.work,
        v.ticked().0.paused,
        v.ticked().0.screen == Screen::Timer,
        v.ticked().0.current == v.current,
        v.ticked().1.music == crate::pomodoro::Music::Pause,
        v.ticked().1.notice.is_some() == v.notifications,
        v.ticked().0.phase_seconds() == (if v.mins >= 40 { 600int } else { 300int }),
{
}

/// While a break runs, the timer measures it as ten minutes after sessions of
/// 40 minutes or more and five minutes after shorter ones.
pub proof fn break_phase_length(v: PomodoroView)
    requires
        !v.work,
    ensures
        v.phase_seconds() == (if v.mins >= 40 { 600int } else { 300int }),
{
}

/// Whether `n` ends with the four characters `.mp3`.
pub open spec fn named_mp3(n: Seq<char>) -> bool {
    n.len() >= 4 && n.subrange(n.len() - 4, n.len() as int) == seq!['.', 'm', 'p', '3']
}

/// The music list made from a folder's file names is "None" followed by every
/// name that ends with `.mp3`, in the folder's order, and nothing else.
pub proof fn music_list_keeps_every_mp3(files: Seq<Seq<char>>)
    ensures
        track_names(files) == seq![seq!['N', 'o', 'n', 'e']] + files.filter(|n: Seq<char>| named_mp3(n)),
        forall|i: int| 0 <= i < files.len() && named_mp3(files[i]) ==> track_names(files).contains(#[trigger] files[i]),
        forall|j: int| 1 <= j < track_names(files).len() ==> named_mp3(#[trigger] track_names(files)[j])
            && files.contains(track_names(files)[j]),
        track_names(files).len() == 1 + files.filter(|n: Seq<char>| named_mp3(n)).len(),
{
    reveal_strlit("None");
    let p2 = |n: Seq<char>| named_mp3(n);
    assert((|n: Seq<char>| crate::text::ends_with_mp3(n)) =~= p2) by {
        assert(crate::text::mp3_suffix() =~= seq!['.', 'm', 'p', '3']);
    }
    let kept = files.filter(p2);
    assert(crate::pomodoro::no_music_name() =~= seq!['N', 'o', 'n', 'e']);
    assert(track_names(files) == seq![seq!['N', 'o', 'n', 'e']] + kept);
    assert forall|i: int| 0 <= i < files.len() && named_mp3(files[i]) implies track_names(files).contains(
        #[trigger] files[i],
    ) by {
        files.lemma_filter_contains(p2, i);
        let k = choose|k: int| 0 <= k < kept.len() && kept[k] == files[i];
        assert(track_names(files)[k + 1] == files[i]);
    }
    assert forall|j: int| 1 <= j < track_names(files).len() implies named_mp3(#[trigger] track_names(files)[j])
        && files.contains(track_names(files)[j]) by {
        assert(track_names(files)[j] == kept[j - 1]);
        files.lemma_filter_pred(p2, j - 1);
        files.lemma_filter_contains_rev(p2, kept[j - 1]);
    }
}

/// On the focus-length screen an up key adds one minute and a down key takes
/// one away, never going under one minute; neither leaves the screen.
pub proof fn focus_length_steps(v: PomodoroView, key: Key, done: bool)
    requires
        v.screen == Screen::Duration,
    ensures
        key.is_up() && v.mins < u32::MAX ==> v.on_key(key, false, done).0.mins == v.mins + 1,
        key.is_down() ==> v.on_key(key, false, done).0.mins == (if v.mins > 1 { v.mins - 1 } else { 1 }),
        (key.is_up() || key.is_down()) ==> v.on_key(key, false, done).0.screen == Screen::Duration,
{
}

/// On the session-count screen an up key adds one session and a down key
/// takes one away, never going under one.
pub proof fn session_count_steps(v: PomodoroView, key: Key, done: bool)
    requires
        v.screen == Screen::Sessions,
    ensures
        key.is_up() && v.total < u32::MAX ==> v.on_key(key, false, done).0.total == v.total + 1,
        key.is_down() ==> v.on_key(key, false, done).0.total == (if v.total > 1 { v.total - 1 } else { 1 }),
{
}

/// On the timer screen `q`, `h`, Left and Esc all stop the music and go back
/// to the activity screen.
pub proof fn timer_back_keys_stop(v: PomodoroView, key: Key, done: bool)
    requires
        v.screen == Screen::Timer,
        key == Key::Char('q') || key == Key::Char('h') || key == Key::Left || key == Key::Esc,
    ensures
        v.on_key(key, false, done).0.screen == Screen::Activity,
        v.on_key(key, false, done).1 == Action::<Seq<char>>::StopMusic,
{
}

/// On the music screen an up key moves the choice up one entry, stopping at
/// the top, and a down key moves it down one, stopping at the last entry; the
/// highlighted row follows. (The list is a vector, so it has at most
/// `usize::MAX` entries.)
pub proof fn music_choice_steps(v: PomodoroView, key: Key, done: bool)
    requires
        v.screen == Screen::Bgm,
        v.bgm_list.len() <= usize::MAX,
    ensures
        key.is_up() ==> v.on_key(key, false, done).0.bgm_idx == (if v.bgm_idx > 0 { v.bgm_idx - 1 } else { 0 }),
        key.is_down() ==> v.on_key(key, false, done).0.bgm_idx == (if v.bgm_idx + 1 < v.bgm_list.len() {
            v.bgm_idx + 1
        } else {
            v.bgm_idx as int
        }),
        (key.is_up() || key.is_down()) ==> v.on_key(key, false, done).0.selection == (if key.is_down()
            && v.bgm_idx + 1 >= v.bgm_list.len() { v.selection } else { v.on_key(key, false, done).0.bgm_idx }),
{
}

/// On the activity screen an up key moves the choice up one activity,
/// stopping at the first, and a down key moves it down one, stopping at the
/// last.
pub proof fn activity_choice_steps(v: PomodoroView, key: Key, done: bool)
    requires
        v.screen == Screen::Activity,
    ensures
        key.is_up() ==> v.on_key(key, false, done).0.idx == (if v.idx > 0 { v.idx - 1 } else { 0 }),
        key.is_down() ==> v.on_key(key, false, done).0.idx == (if v.idx + 1 < ACTIVITY_COUNT {
            v.idx + 1
        } else {
            v.idx as int
        }),
{
}

} // verus!
