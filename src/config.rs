//! Configuration of the browser that the bridge drives.

use vstd::prelude::*;

verus! {

/// The whole configuration file.
#[derive(Debug)]
pub struct Config {
    pub browser: BrowserConfig,
}

/// How to find or launch the browser.
#[derive(Debug)]
pub struct BrowserConfig {
    /// Path of the browser's executable.
    pub executable: String,
    /// The remote debugging port.
    pub port: u16,
    /// Reopen the tabs of the last session.
    pub restore_session: bool,
    /// Use a profile directory of the bridge's own instead of the user's.
    pub dedicated_profile: bool,
    /// Directories of unpacked extensions to load.
    pub extensions: Vec<String>,
}

} // verus!
