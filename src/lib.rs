//! A clipboard core for a tray utility: a PNG image codec, base64 image
//! payloads, the retry policy of a handle-based native clipboard, the reading
//! of the output of the `wl-paste` / `wl-copy` utilities, backend selection
//! from the environment, and the small window and command rules around them.

pub mod commands;
pub mod image;
pub mod manager;
pub mod native;
pub mod payload;
pub mod text;
pub mod wayland;
pub mod window_state;
