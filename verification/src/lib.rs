//! The decisions of the Uplink desktop client, apart from the toolkit that draws it.
//!
//! Each module takes plain values (what a window reported, what a reply held, which
//! stage a download is in) and says exactly what the client shows or does next. The
//! program around the library performs those steps.

pub mod auth;
pub mod calls;
pub mod extensions;
pub mod ids;
pub mod launch;
pub mod platform;
pub mod routes;
pub mod session;
pub mod style;
pub mod tasks;
pub mod text;
pub mod toasts;
pub mod updates;
pub mod window;
