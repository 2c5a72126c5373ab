//! The verified core of the Taicho inspector for Honcho workspaces: domain
//! records, input validation, upload rules, selection and toast state, the
//! decisions of the command actor, and what each panel of the interface
//! decides.
pub mod text;
pub mod numeric;
pub mod domain;
pub mod error;
pub mod persistence;
pub mod state;
pub mod actor;
pub mod ui;
