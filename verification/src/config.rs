//! What the screensaver is configured with: the display text, a style name,
//! and the actions a key press can trigger. Reading the configuration file
//! is the caller's business; the fallback the defaults provide is stated
//! here.

use vstd::prelude::*;

verus! {

/// The screensaver's configuration.
pub struct Config {
    pub text: String,
    pub style: String,
    pub actions: Vec<ActionConfig>,
}

/// One key-triggered action: the key that fires it, a line of help text, and
/// the external command the caller runs for it.
pub struct ActionConfig {
    pub key: String,
    pub description: String,
    pub command: String,
}

/// The configuration used when no file is found or the file cannot be
/// parsed.
pub fn default_config() -> (r: Config)
    ensures
        r.text@ == "Welcome to Terminal Screensaver"@,
        r.style@ == "default"@,
        r.actions@.len() == 0,
{
    Config {
        text: "Welcome to Terminal Screensaver".to_owned(),
        style: "default".to_owned(),
        actions: Vec::new(),
    }
}

} // verus!
