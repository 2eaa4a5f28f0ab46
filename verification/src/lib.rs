//! Playback logic of the ReAmped player: playlist navigation, shuffle and
//! repeat, the crossfade phases, key bindings, what the tray and the
//! media-player interface show and send, the choice of output device and
//! sample container, and the small text and format rules around them.

pub mod text;
pub mod track;
pub mod command;
pub mod error;
pub mod crossfade;
pub mod event;
pub mod engine;
pub mod engine_laws;
pub mod sort;
pub mod keybindings;
pub mod audio_format;
pub mod media;
pub mod library;
pub mod wallpaper;
pub mod palette;
pub mod tray;
pub mod playlist_view;
pub mod devices;
pub mod paths;
pub mod settings;
