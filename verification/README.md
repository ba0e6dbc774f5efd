# pomodoro_tui

A terminal pomodoro timer. The library in `src/` holds the verified core:

- `pomodoro`: the state of the menus and the timer, its invariant, and the
  transition on each key press and each second, stated over `PomodoroView`;
- `laws`: properties proved over those transitions (countdown, the
  focus/break cycle, the length of a whole plan, toggles that undo themselves, the volume range, ...);
- `music`: the music list built from a folder's file names, and the
  downloader's arguments and status lines;
- `presence`, `panel`: the texts shown in the chat status and on screen;
- `layout`: the screen's cut into a three-row header at the top, the body and
  a three-row footer at the bottom, and the centred panel, through `ratatui`;
- `screen`, `theme`, `text`: keys, screens, themes and decimal numerals.

`app/main.rs` runs the terminal, the audio output, the download worker,
desktop notifications and the chat status, and hands keys and seconds to the
library.
