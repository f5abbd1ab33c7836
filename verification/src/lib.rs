//! Timer core of a menu-bar pomodoro clock: the work-session state machine,
//! the settings model, the menu-bar title text and the audio-mode rules.


pub mod audio;
pub mod error;
pub mod persistence;
pub mod session;
pub mod settings;
pub mod text;
pub mod timer_laws;
pub mod tray;
pub mod timer_machine;
pub mod timer_state;

