use pomodoro_tui::pomodoro::{Action, Music, Pomodoro};
use pomodoro_tui::screen::{Key, Screen};

fn press(p: &mut Pomodoro, key: Key) -> Action<String> {
    assert!(p.key_fits(key, false));
    p.handle_key(key, false, false)
}

fn snapshot(p: &Pomodoro) -> String {
    format!(
        "{:?} {} {} {} {} {} {} {} {:?} {:?} {} {} {:?} {} {} {} {}",
        p.screen, p.idx, p.mins, p.total, p.current, p.rem, p.work, p.paused, p.input, p.bgm_list,
        p.bgm_idx, p.notifications, p.theme, p.settings_cursor, p.volume, p.muted, p.selection
    )
}

fn running(mins: u32, total: u32) -> Pomodoro {
    let mut p = Pomodoro::new();
    p.mins = mins;
    p.total = total;
    for _ in 0..4 {
        press(&mut p, Key::Enter);
    }
    p
}

#[test]
fn whole_plan_of_two_sessions() {
    let mut p = running(1, 2);
    let mut notices = Vec::new();
    let mut seconds = 0;
    while p.screen == Screen::Timer {
        if p.paused {
            press(&mut p, Key::Char(' '));
        }
        let t = p.on_tick();
        seconds += 1;
        if let Some(n) = t.notice {
            notices.push((n.title, t.music, p.rem, p.current, p.work));
        }
    }
    assert_eq!(seconds, 60 + 300 + 60);
    assert_eq!(
        notices,
        vec![
            ("Break! ☕", Music::Pause, 300, 1, false),
            ("Work! 🔥", Music::Pause, 60, 2, true),
            ("Done! 🎉", Music::Stop, 0, 2, true),
        ]
    );
    assert_eq!(p.screen, Screen::Activity);
}

#[test]
fn pausing_twice_restores_the_state() {
    let mut p = running(25, 4);
    p.on_tick();
    let before = snapshot(&p);
    assert_eq!(p.toggle_pause(), Action::PauseMusic);
    assert_eq!(p.toggle_pause(), Action::ResumeMusic);
    assert_eq!(snapshot(&p), before);
}

#[test]
fn muting_twice_restores_the_state() {
    let mut p = running(25, 4);
    let before = snapshot(&p);
    p.toggle_mute();
    p.toggle_mute();
    assert_eq!(snapshot(&p), before);
}

#[test]
fn volume_step_up_then_down_restores() {
    let mut p = running(25, 4);
    let before = snapshot(&p);
    p.adjust_volume(5);
    p.adjust_volume(-5);
    assert_eq!(snapshot(&p), before);
    p.volume = 100;
    p.adjust_volume(5);
    p.adjust_volume(-5);
    assert_eq!(p.volume, 95);
}

#[test]
fn time_stands_still_off_the_timer() {
    let mut p = Pomodoro::new();
    press(&mut p, Key::Enter);
    let before = snapshot(&p);
    let t = p.on_tick();
    assert_eq!(t.notice, None);
    assert_eq!(t.music, Music::Keep);
    assert_eq!(snapshot(&p), before);
}

#[test]
fn backspace_takes_back_a_character() {
    let mut p = Pomodoro::new();
    for _ in 0..3 {
        press(&mut p, Key::Enter);
    }
    press(&mut p, Key::Char('i'));
    press(&mut p, Key::Char('a'));
    let before = snapshot(&p);
    press(&mut p, Key::Char('z'));
    press(&mut p, Key::Backspace);
    assert_eq!(snapshot(&p), before);
}

#[test]
fn forward_and_back_return_to_the_same_state() {
    let mut p = Pomodoro::new();
    let before = snapshot(&p);
    press(&mut p, Key::Enter);
    press(&mut p, Key::Esc);
    assert_eq!(snapshot(&p), before);
    press(&mut p, Key::Enter);
    let on_duration = snapshot(&p);
    press(&mut p, Key::Enter);
    press(&mut p, Key::Esc);
    assert_eq!(snapshot(&p), on_duration);
}

#[test]
fn notification_setting_flips_back() {
    let mut p = Pomodoro::new();
    press(&mut p, Key::Char('s'));
    let before = snapshot(&p);
    press(&mut p, Key::Right);
    assert!(!p.notifications);
    press(&mut p, Key::Left);
    assert_eq!(snapshot(&p), before);
}

#[test]
fn music_choice_stays_in_the_list() {
    let mut p = Pomodoro::new();
    p.refresh_bgm(&vec!["a.mp3".to_string()]);
    for _ in 0..3 {
        press(&mut p, Key::Enter);
    }
    for _ in 0..5 {
        press(&mut p, Key::Down);
    }
    assert_eq!(p.bgm_idx, 1);
    for _ in 0..5 {
        press(&mut p, Key::Up);
    }
    assert_eq!(p.bgm_idx, 0);
}

#[test]
fn selection_is_kept_when_the_music_list_shrinks() {
    let mut p = Pomodoro::new();
    p.refresh_bgm(&vec!["a.mp3".to_string(), "b.mp3".to_string()]);
    for _ in 0..3 {
        press(&mut p, Key::Enter);
    }
    press(&mut p, Key::Down);
    press(&mut p, Key::Down);
    p.refresh_bgm(&vec![]);
    assert_eq!(p.bgm_idx, 2);
    assert!(!p.key_fits(Key::Enter, false));
    p.bgm_idx = 0;
    assert!(p.key_fits(Key::Enter, false));
}

#[test]
fn whole_plan_of_three_long_sessions() {
    let mut p = running(40, 3);
    let mut seconds: u64 = 0;
    while p.screen == Screen::Timer {
        if p.paused {
            p.toggle_pause();
        }
        p.on_tick();
        seconds += 1;
    }
    assert_eq!(seconds, 3 * 40 * 60 + 2 * 600);
    assert_eq!(p.current, 3);
    assert_eq!(p.rem, 0);
}
