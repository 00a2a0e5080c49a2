//! Demote a top-level window to render behind the desktop icons and later
//! restore it: the classic live-wallpaper trick.
//!
//! The library is the window-location and re-parenting protocol itself,
//! verified against a mathematical model of the desktop window hierarchy
//! ([`model::DesktopView`]). The operating system is an explicit external
//! dependency reached through the narrow capability interface
//! [`system::WindowSystem`]; [`fake::FakeDesktop`] is a verified in-memory
//! implementation of that interface for exercising the protocol.

pub mod fake;
pub mod laws;
pub mod model;
pub mod ops;
pub mod system;
