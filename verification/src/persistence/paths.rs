//! Where the application keeps its files.
use std::path::PathBuf;
use vstd::prelude::*;

verus! {

#[verifier::external_type_specification]
#[verifier::external_body]
pub struct ExPathBuf(PathBuf);

/// The directory and the files of the application's configuration.
pub struct AppPaths {
    pub config_dir: PathBuf,
    pub profiles_file: PathBuf,
    pub settings_file: PathBuf,
    pub window_state_file: PathBuf,
}

} // verus!
