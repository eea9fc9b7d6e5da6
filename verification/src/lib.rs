//! Verified core of MADO, a borderless camera preview and video playlist player.
//!
//! The library holds the decisions the application makes: the playlist and its
//! loop modes, the camera frame header of the capture service, the choice of
//! audio device, the paths of the settings file, the state machine of the
//! window (camera or video mode, flips, pause, end of clip) and what a pointer
//! gesture on the window does.

pub mod playlist;
pub mod camera;
pub mod audio;
pub mod settings;
pub mod video;
pub mod app_state;
pub mod hue_wheel;
pub mod gesture;
