//! A dual-player countdown timer ("chess clock").
//!
//! The crate holds the verified core of the application: the clock state
//! machine ([`clock::Clock`]), the catalog of selectable time controls
//! ([`tabs::TimeCtrl`]), the event vocabulary that the application loop
//! speaks ([`event::Event`]), and the controller that routes each event to
//! a clock mutation or a screen transition ([`app::App`]).
//!
//! Terminal input, timers and rendering live outside the crate; they hand
//! the controller plain events and read the resulting state back.

pub mod app;
pub mod clock;
pub mod event;
pub mod tabs;
