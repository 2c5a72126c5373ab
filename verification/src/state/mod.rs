//! The state of the user interface that is independent of how it is drawn:
//! the connection, what is selected, and the notifications on screen.
pub mod connection;
pub mod selection;
pub mod toast;

pub use toast::{Toast, ToastKind, ToastStack};
