use pomodoro_tui::layout::{centered_rect, centering, frame_areas, Area, Size};
use pomodoro_tui::music::{
    download_args, download_file_pattern, downloader, downloading_message, idle_message,
    outcome_message, track_list, DownloadOutcome,
};
use pomodoro_tui::panel::{download_panel, duration_panel, help_text, import_panel, sessions_panel, Tone};
use pomodoro_tui::pomodoro::{activity_label, activity_labels, Pomodoro};
use pomodoro_tui::presence::session_string;
use pomodoro_tui::screen::{Key, Screen};
use pomodoro_tui::text::{decimal_string, has_mp3_suffix, string_of_chars};
use pomodoro_tui::theme::Theme;

fn running() -> Pomodoro {
    let mut p = Pomodoro::new();
    for _ in 0..4 {
        p.handle_key(Key::Enter, false, false);
    }
    p
}

#[test]
fn decimal_numerals() {
    assert_eq!(decimal_string(0), "0");
    assert_eq!(decimal_string(7), "7");
    assert_eq!(decimal_string(10), "10");
    assert_eq!(decimal_string(1500), "1500");
    assert_eq!(decimal_string(u32::MAX), "4294967295");
}

#[test]
fn mp3_suffix_check() {
    assert!(has_mp3_suffix("song.mp3"));
    assert!(has_mp3_suffix(".mp3"));
    assert!(has_mp3_suffix("ünïcødé.mp3"));
    assert!(!has_mp3_suffix("mp3"));
    assert!(!has_mp3_suffix("song.MP3"));
    assert!(!has_mp3_suffix("song.mp3.txt"));
    assert!(!has_mp3_suffix(""));
}

#[test]
fn characters_to_string() {
    assert_eq!(string_of_chars(&vec!['a', 'ß', '🔥']), "aß🔥");
    assert_eq!(string_of_chars(&vec![]), "");
}

#[test]
fn activity_names() {
    assert_eq!(activity_label(0), "Studying 📚");
    assert_eq!(activity_label(3), "Reading 📖");
    assert_eq!(activity_labels(), vec!["Studying 📚", "Coding 💻", "Deep Work 🧠", "Reading 📖"]);
}

#[test]
fn theme_names() {
    assert_eq!(Theme::Cyan.name(), "Cyan");
    assert_eq!(Theme::Magenta.name(), "Magenta");
    assert_eq!(Theme::Red.next(), Theme::Cyan);
    assert_eq!(Theme::Yellow.next().name(), "Red");
}

#[test]
fn help_lines() {
    assert_eq!(help_text(Screen::Activity), " [Arrows/HJKL] Move | [S] Settings | [Q] Quit ");
    assert_eq!(help_text(Screen::Timer), " [Space] Pause | [+/-] Vol | [M] Mute | [H/Left] Stop & Menu ");
    assert_eq!(help_text(Screen::Settings), " [J/K] Select | [H/L] Change | [Esc/Q] Back ");
    assert_eq!(help_text(Screen::Bgm), " [Arrows/HJKL] Navigate | [Esc] Back ");
}

#[test]
fn set_up_panels() {
    assert_eq!(duration_panel(25), "\n\nFocus Time: 25 min\n\n[J/K] Adjust | [L/Right] Next");
    assert_eq!(sessions_panel(4), "\n\nSessions: 4\n\n[J/K] Adjust | [L/Right] Next");
    assert_eq!(
        import_panel(&vec!['u', 'r', 'l']),
        "\nPaste YouTube URL:\nurl\n\n[Enter] Download | [Esc] Cancel"
    );
    assert_eq!(download_panel("Ready"), "\n\nReady");
}

#[test]
fn settings_lines() {
    let mut p = Pomodoro::new();
    assert_eq!(p.notifications_label(), "> Notifications: ");
    assert_eq!(p.theme_label(), "  Theme: ");
    assert_eq!(p.notifications_value(), "ON");
    p.settings_cursor = 1;
    p.notifications = false;
    assert_eq!(p.notifications_label(), "  Notifications: ");
    assert_eq!(p.theme_label(), "> Theme: ");
    assert_eq!(p.notifications_value(), "OFF");
    assert_eq!(p.theme_value(), "Cyan");
}

#[test]
fn timer_panel() {
    let mut p = running();
    assert_eq!(p.timer_title(), " Session 1 of 4 ");
    assert_eq!(p.timer_label(), "25:00 | Vol: 50%");
    assert_eq!(p.tone(), Tone::Focus);
    assert_eq!(p.progress(), (1500, 0));
    p.on_tick();
    assert_eq!(p.timer_label(), "24:59 | Vol: 50%");
    assert_eq!(p.progress(), (1500, 1));
    p.rem = 65;
    p.handle_key(Key::Char('m'), false, false);
    assert_eq!(p.timer_label(), "1:05 | Vol: Muted");
    p.handle_key(Key::Char(' '), false, false);
    assert_eq!(p.tone(), Tone::Paused);
    p.rem = 1;
    p.handle_key(Key::Char(' '), false, false);
    p.on_tick();
    assert_eq!(p.tone(), Tone::Paused);
    p.handle_key(Key::Char(' '), false, false);
    assert_eq!(p.tone(), Tone::Rest);
    assert_eq!(p.progress(), (300, 0));
}

#[test]
fn presence_while_configuring() {
    let p = Pomodoro::new();
    let pr = p.presence();
    assert_eq!(pr.state, "Configuring...");
    assert_eq!(pr.details, "Main Menu");
    assert!(!pr.counts_down);
}

#[test]
fn presence_on_the_timer() {
    let mut p = running();
    let pr = p.presence();
    assert_eq!(pr.state, "🔥 Focusing: Studying 📚");
    assert_eq!(pr.details, "Session 1 of 4");
    assert!(pr.counts_down);
    assert_eq!(p.countdown_end(1_000), 2_500);
    p.handle_key(Key::Char(' '), false, false);
    let pr = p.presence();
    assert_eq!(pr.state, "⏸️ Paused: Studying 📚");
    assert!(!pr.counts_down);
    p.handle_key(Key::Char(' '), false, false);
    p.rem = 1;
    p.on_tick();
    p.handle_key(Key::Char(' '), false, false);
    assert_eq!(p.presence().state, "☕ Taking a Break");
    assert_eq!(session_string(3, 12), "Session 3 of 12");
}

#[test]
fn countdown_end_wraps_into_the_signed_range() {
    let p = running();
    assert_eq!(p.countdown_end(u64::MAX - 1500), -1);
}

#[test]
fn download_texts() {
    assert_eq!(idle_message(), "Ready");
    assert_eq!(downloading_message(), "📥 Downloading to system storage...");
    assert_eq!(outcome_message(DownloadOutcome::Succeeded), "✅ Success! Press ENTER");
    assert_eq!(outcome_message(DownloadOutcome::Failed), "❌ Failed");
    assert_eq!(outcome_message(DownloadOutcome::ToolMissing), "❌ yt-dlp missing");
    assert_eq!(downloader(), "yt-dlp");
    assert_eq!(download_file_pattern(), "%(title)s.%(ext)s");
    assert_eq!(
        download_args("/d/bgm/%(title)s.%(ext)s", "https://u"),
        vec!["-x", "--audio-format", "mp3", "--quiet", "--no-warnings", "-o", "/d/bgm/%(title)s.%(ext)s", "https://u"]
    );
}

#[test]
fn track_list_order() {
    let files = vec!["b.mp3".to_string(), "a.mp3".to_string(), "x.wav".to_string()];
    assert_eq!(track_list(&files), vec!["None", "b.mp3", "a.mp3"]);
    assert_eq!(track_list(&vec![]), vec!["None"]);
}

#[test]
fn screen_layout() {
    let (head, body, foot) = frame_areas(Area { x: 0, y: 0, width: 80, height: 24 });
    assert_eq!(head, Area { x: 0, y: 0, width: 80, height: 3 });
    assert_eq!(body, Area { x: 0, y: 3, width: 80, height: 18 });
    assert_eq!(foot, Area { x: 0, y: 21, width: 80, height: 3 });
}

#[test]
fn centring() {
    assert_eq!(centering(70), vec![Size::Percentage(15), Size::Percentage(70), Size::Percentage(15)]);
    assert_eq!(centering(60), vec![Size::Percentage(20), Size::Percentage(60), Size::Percentage(20)]);
    let r = centered_rect(50, 50, Area { x: 0, y: 0, width: 100, height: 40 });
    assert_eq!(r, Area { x: 25, y: 10, width: 50, height: 20 });
}

#[test]
fn screen_layout_for_many_sizes() {
    for height in 0..60u16 {
        for y in [0u16, 5] {
            let screen = Area { x: 2, y, width: 40, height };
            let (head, body, foot) = frame_areas(screen);
            assert_eq!(head.y, screen.y);
            assert_eq!(body.y, head.y + head.height);
            assert_eq!(foot.y, body.y + body.height);
            for part in [head, body, foot] {
                assert_eq!((part.x, part.width), (2, 40));
                assert!(part.y + part.height <= screen.y + screen.height);
            }
            if height >= 16 {
                assert_eq!((head.height, foot.height, body.height), (3, 3, height - 6));
            }
        }
    }
}

#[test]
fn centred_rectangles_for_many_sizes() {
    let close = |cells: u16, percent: u16, whole: u16| {
        let d = cells as i64 * 100 - percent as i64 * whole as i64;
        -100 < d && d < 100
    };
    for width in (0..120u16).step_by(7) {
        for height in (0..90u16).step_by(5) {
            for (px, py) in [(70u16, 60u16), (50, 50), (33, 67), (100, 0), (1, 99)] {
                let area = Area { x: 3, y: 4, width, height };
                let r = centered_rect(px, py, area);
                assert!(r.x >= area.x && r.x + r.width <= area.x + area.width);
                assert!(r.y >= area.y && r.y + r.height <= area.y + area.height);
                assert!(close(r.x - area.x, (100 - px) / 2, width), "{:?} {} {}", r, px, py);
                assert!(close(r.width, px, width), "{:?} {} {}", r, px, py);
                assert!(close(r.y - area.y, (100 - py) / 2, height), "{:?} {} {}", r, px, py);
                assert!(close(r.height, py, height), "{:?} {} {}", r, px, py);
            }
        }
    }
    assert_eq!(
        centered_rect(70, 60, Area { x: 0, y: 0, width: 100, height: 100 }),
        Area { x: 15, y: 20, width: 70, height: 60 }
    );
}
