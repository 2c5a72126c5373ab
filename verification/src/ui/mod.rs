//! Rules of the user interface that do not depend on how it is drawn.
pub mod actions;
pub mod chat;
pub mod connection;
pub mod feed;
pub mod forms;
pub mod json;
pub mod logs;
pub mod markdown;
pub mod messages;
pub mod pagination;
pub mod search;
pub mod shortcuts;
pub mod upload;
pub mod views;
