//! The controller of a notification-area icon: its menu tree, the identifiers
//! it issues, and the decisions of its event dispatch, free of any I/O.
//!
//! The controller never talks to the operating system itself. Each operation
//! that needs the platform is split in two: a function that says what to ask
//! of the platform, and a function that records what the platform answered.

pub mod error;
pub mod application;
pub mod event;
pub mod laws;
pub mod menu;
pub mod request;

pub use application::{AppView, Application, Dispatch};
pub use error::SystrayError;
pub use event::SystrayEvent;
pub use menu::{MenuData, MenuView};
pub use request::{BackendRequest, RequestView};
