//! A verified core for a terminal pomodoro timer: the menu and timer state
//! machine, the texts it shows, the background-music list and the screen layout.

pub mod laws;
pub mod layout;
pub mod music;
pub mod panel;
pub mod pomodoro;
pub mod presence;
pub mod screen;
pub mod text;
pub mod theme;
