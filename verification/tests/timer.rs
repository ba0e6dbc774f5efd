use pomodoro_tui::pomodoro::{Action, Music, Notice, Pomodoro, ACTIVITY_COUNT};
use pomodoro_tui::screen::{Key, Screen};
use pomodoro_tui::theme::Theme;

fn press(p: &mut Pomodoro, key: Key) -> Action<String> {
    assert!(p.key_fits(key, false));
    p.handle_key(key, false, false)
}

/// Walks from the activity screen to a running timer.
fn start_timer(p: &mut Pomodoro) -> Action<String> {
    press(p, Key::Enter);
    press(p, Key::Enter);
    press(p, Key::Enter);
    press(p, Key::Enter)
}

#[test]
fn starts_on_the_activity_screen() {
    let p = Pomodoro::new();
    assert_eq!(p.screen, Screen::Activity);
    assert_eq!(p.mins, 25);
    assert_eq!(p.total, 4);
    assert_eq!(p.current, 1);
    assert_eq!(p.rem, 1500);
    assert!(p.work && p.paused);
    assert_eq!(p.bgm_list, vec!["None".to_string()]);
    assert_eq!(p.volume, 50);
    assert!(!p.muted);
    assert!(p.notifications);
    assert_eq!(p.theme, Theme::Cyan);
}

#[test]
fn activity_selection_stays_in_the_list() {
    let mut p = Pomodoro::new();
    press(&mut p, Key::Up);
    assert_eq!(p.idx, 0);
    for _ in 0..10 {
        press(&mut p, Key::Char('j'));
    }
    assert_eq!(p.idx, ACTIVITY_COUNT - 1);
    assert_eq!(p.selection, ACTIVITY_COUNT - 1);
    press(&mut p, Key::Char('k'));
    assert_eq!(p.idx, ACTIVITY_COUNT - 2);
}

#[test]
fn set_up_screens_follow_each_other() {
    let mut p = Pomodoro::new();
    press(&mut p, Key::Right);
    assert_eq!(p.screen, Screen::Duration);
    press(&mut p, Key::Char('l'));
    assert_eq!(p.screen, Screen::Sessions);
    press(&mut p, Key::Enter);
    assert_eq!(p.screen, Screen::Bgm);
    press(&mut p, Key::Esc);
    assert_eq!(p.screen, Screen::Sessions);
    press(&mut p, Key::Left);
    assert_eq!(p.screen, Screen::Duration);
    press(&mut p, Key::Char('h'));
    assert_eq!(p.screen, Screen::Activity);
    assert_eq!(press(&mut p, Key::Char('q')), Action::Quit);
}

#[test]
fn focus_length_never_drops_under_one_minute() {
    let mut p = Pomodoro::new();
    press(&mut p, Key::Enter);
    press(&mut p, Key::Up);
    assert_eq!(p.mins, 26);
    for _ in 0..30 {
        press(&mut p, Key::Down);
    }
    assert_eq!(p.mins, 1);
}

#[test]
fn session_count_never_drops_under_one() {
    let mut p = Pomodoro::new();
    press(&mut p, Key::Enter);
    press(&mut p, Key::Enter);
    press(&mut p, Key::Char('k'));
    assert_eq!(p.total, 5);
    for _ in 0..10 {
        press(&mut p, Key::Char('j'));
    }
    assert_eq!(p.total, 1);
}

#[test]
fn raising_the_focus_length_past_the_limit_is_refused() {
    let mut p = Pomodoro::new();
    press(&mut p, Key::Enter);
    p.mins = u32::MAX;
    assert!(!p.key_fits(Key::Up, false));
    assert!(p.key_fits(Key::Down, false));
    assert!(p.key_fits(Key::Up, true));
}

#[test]
fn starting_a_session_too_long_to_count_is_refused() {
    let mut p = Pomodoro::new();
    press(&mut p, Key::Enter);
    press(&mut p, Key::Enter);
    press(&mut p, Key::Enter);
    p.mins = u32::MAX / 60 + 1;
    assert!(!p.key_fits(Key::Enter, false));
    p.mins = u32::MAX / 60;
    assert!(p.key_fits(Key::Enter, false));
}

#[test]
fn starting_the_timer_plays_the_chosen_music() {
    let mut p = Pomodoro::new();
    let names = vec!["a.mp3".to_string(), "notes.txt".to_string(), "b.mp3".to_string()];
    p.refresh_bgm(&names);
    press(&mut p, Key::Enter);
    press(&mut p, Key::Enter);
    press(&mut p, Key::Enter);
    assert_eq!(p.selection, 0);
    press(&mut p, Key::Down);
    press(&mut p, Key::Down);
    press(&mut p, Key::Down);
    assert_eq!(p.bgm_idx, 2);
    assert_eq!(p.selection, 2);
    let a = press(&mut p, Key::Enter);
    assert_eq!(a, Action::StartMusic { track: Some(2), level: 50 });
    assert_eq!(p.screen, Screen::Timer);
    assert_eq!(p.rem, 25 * 60);
    assert!(p.work && !p.paused);
}

#[test]
fn starting_without_music_plays_nothing() {
    let mut p = Pomodoro::new();
    assert_eq!(start_timer(&mut p), Action::StartMusic { track: None, level: 50 });
}

#[test]
fn timer_counts_down_only_while_running() {
    let mut p = Pomodoro::new();
    let quiet = p.on_tick();
    assert_eq!(quiet.notice, None);
    assert_eq!(p.rem, 1500);
    start_timer(&mut p);
    p.on_tick();
    p.on_tick();
    assert_eq!(p.rem, 1498);
    assert_eq!(press(&mut p, Key::Char(' ')), Action::PauseMusic);
    p.on_tick();
    assert_eq!(p.rem, 1498);
    assert_eq!(press(&mut p, Key::Char(' ')), Action::ResumeMusic);
    p.on_tick();
    assert_eq!(p.rem, 1497);
}

#[test]
fn a_focus_session_ends_in_a_five_minute_break() {
    let mut p = Pomodoro::new();
    start_timer(&mut p);
    for _ in 0..1499 {
        let t = p.on_tick();
        assert_eq!(t.notice, None);
    }
    assert_eq!(p.rem, 1);
    let t = p.on_tick();
    assert_eq!(t.notice, Some(Notice { title: "Break! ☕", body: "Time to rest." }));
    assert_eq!(t.music, Music::Pause);
    assert!(!p.work);
    assert!(p.paused);
    assert_eq!(p.rem, 300);
}

#[test]
fn long_sessions_earn_a_ten_minute_break() {
    let mut p = Pomodoro::new();
    p.mins = 40;
    start_timer(&mut p);
    p.rem = 1;
    p.on_tick();
    assert_eq!(p.rem, 600);
}

#[test]
fn a_break_ends_in_the_next_session() {
    let mut p = Pomodoro::new();
    start_timer(&mut p);
    p.rem = 1;
    p.on_tick();
    press(&mut p, Key::Char(' '));
    p.rem = 1;
    let t = p.on_tick();
    assert_eq!(t.notice, Some(Notice { title: "Work! 🔥", body: "Focus time." }));
    assert!(p.work && p.paused);
    assert_eq!(p.current, 2);
    assert_eq!(p.rem, 1500);
}

#[test]
fn the_last_session_returns_to_the_menu() {
    let mut p = Pomodoro::new();
    p.total = 1;
    start_timer(&mut p);
    p.rem = 1;
    let t = p.on_tick();
    assert_eq!(t.notice, Some(Notice { title: "Done! 🎉", body: "All sessions finished!" }));
    assert_eq!(t.music, Music::Stop);
    assert_eq!(p.screen, Screen::Activity);
    assert_eq!(p.rem, 0);
}

#[test]
fn notifications_can_be_switched_off() {
    let mut p = Pomodoro::new();
    press(&mut p, Key::Char('s'));
    assert_eq!(p.screen, Screen::Settings);
    press(&mut p, Key::Right);
    assert!(!p.notifications);
    press(&mut p, Key::Char('q'));
    start_timer(&mut p);
    p.rem = 1;
    let t = p.on_tick();
    assert_eq!(t.notice, None);
    assert_eq!(t.music, Music::Pause);
}

#[test]
fn themes_cycle_through_five_colours() {
    let mut p = Pomodoro::new();
    press(&mut p, Key::Char('s'));
    press(&mut p, Key::Down);
    assert_eq!(p.settings_cursor, 1);
    let mut seen = vec![p.theme];
    for _ in 0..5 {
        press(&mut p, Key::Char('l'));
        seen.push(p.theme);
    }
    assert_eq!(
        seen,
        vec![Theme::Cyan, Theme::Magenta, Theme::Green, Theme::Yellow, Theme::Red, Theme::Cyan]
    );
    press(&mut p, Key::Up);
    assert_eq!(p.settings_cursor, 0);
    press(&mut p, Key::Esc);
    assert_eq!(p.screen, Screen::Activity);
}

#[test]
fn volume_moves_in_steps_and_stays_in_range() {
    let mut p = Pomodoro::new();
    start_timer(&mut p);
    assert_eq!(press(&mut p, Key::Char('+')), Action::SetMusicLevel(55));
    assert_eq!(press(&mut p, Key::Char('-')), Action::SetMusicLevel(50));
    for _ in 0..20 {
        press(&mut p, Key::Char('='));
    }
    assert_eq!(p.volume, 100);
    for _ in 0..30 {
        press(&mut p, Key::Char('_'));
    }
    assert_eq!(p.volume, 0);
    assert_eq!(p.adjust_volume(i32::MAX), Action::SetMusicLevel(100));
    assert_eq!(p.adjust_volume(i32::MIN), Action::SetMusicLevel(0));
}

#[test]
fn muting_silences_the_music_and_unmuting_restores_it() {
    let mut p = Pomodoro::new();
    start_timer(&mut p);
    assert_eq!(press(&mut p, Key::Char('m')), Action::SetMusicLevel(0));
    assert!(p.muted);
    assert_eq!(press(&mut p, Key::Char('+')), Action::Nothing);
    assert_eq!(p.volume, 55);
    assert_eq!(press(&mut p, Key::Char('M')), Action::SetMusicLevel(55));
    assert!(!p.muted);
}

#[test]
fn leaving_the_timer_stops_the_music() {
    let mut p = Pomodoro::new();
    start_timer(&mut p);
    assert_eq!(press(&mut p, Key::Char('q')), Action::StopMusic);
    assert_eq!(p.screen, Screen::Activity);
}

#[test]
fn import_prompt_collects_the_address() {
    let mut p = Pomodoro::new();
    press(&mut p, Key::Enter);
    press(&mut p, Key::Enter);
    press(&mut p, Key::Enter);
    p.input = vec!['x'];
    press(&mut p, Key::Char('i'));
    assert_eq!(p.screen, Screen::BgmImport);
    assert!(p.input.is_empty());
    for c in "https://y.be/ab".chars() {
        press(&mut p, Key::Char(c));
    }
    press(&mut p, Key::Char('c'));
    press(&mut p, Key::Backspace);
    let a = press(&mut p, Key::Enter);
    assert_eq!(a, Action::Download("https://y.be/ab".to_string()));
    assert!(p.input.is_empty());
    assert_eq!(p.screen, Screen::BgmImport);
    press(&mut p, Key::Backspace);
    assert!(p.input.is_empty());
    press(&mut p, Key::Esc);
    assert_eq!(p.screen, Screen::Bgm);
}

#[test]
fn keys_wait_while_a_download_runs() {
    let mut p = Pomodoro::new();
    assert_eq!(p.handle_key(Key::Char('q'), true, false), Action::Held);
    assert_eq!(p.handle_key(Key::Enter, true, false), Action::Held);
    assert_eq!(p.handle_key(Key::Char('x'), true, true), Action::Held);
    assert_eq!(p.screen, Screen::Activity);
    assert_eq!(p.handle_key(Key::Enter, true, true), Action::CollectDownload);
    assert_eq!(p.screen, Screen::Bgm);
}

#[test]
fn music_list_keeps_only_mp3_files() {
    let mut p = Pomodoro::new();
    let names = vec![
        "rain.mp3".to_string(),
        "cover.jpg".to_string(),
        ".mp3".to_string(),
        "song.MP3".to_string(),
        "mp3".to_string(),
        "track.mp3".to_string(),
    ];
    p.refresh_bgm(&names);
    assert_eq!(
        p.bgm_list,
        vec!["None".to_string(), "rain.mp3".to_string(), ".mp3".to_string(), "track.mp3".to_string()]
    );
}
