//! The native client's decisions: window-title text, version string,
//! connection profiles, the launcher's form state, frame presentation and
//! pacing, window input, exit codes and the resize-reconnect guard.

pub mod title;
pub mod version;
pub mod profile;
pub mod gui;
pub mod presentation;
pub mod session;
pub mod framebuffer;
pub mod pacing;
pub mod window_input;
