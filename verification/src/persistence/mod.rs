//! What the application keeps between runs: connection profiles, settings,
//! window state and API keys.
pub mod paths;
pub mod profile_store;
pub mod secret_store;
pub mod settings_store;

pub use profile_store::{ConnectionProfile, ProfileStore};
