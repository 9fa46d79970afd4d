//! The output-mode switch: whether results are reported as JSON or as plain
//! text.  The mode is an explicit configuration value handed to whoever
//! prints; it is not ambient global state.

use vstd::prelude::*;

verus! {

/// Output configuration for one analysis run.
#[derive(Debug, Clone, Copy)]
pub struct LogConfig {
    /// True when results are reported as JSON; plain-text chatter is then
    /// suppressed.
    pub json_mode: bool,
}

impl Default for LogConfig {
    /// A fresh configuration starts in plain-text mode.
    fn default() -> (r: LogConfig)
        ensures
            r.json_mode == false,
    {
        LogConfig { json_mode: false }
    }
}

/// Sets the JSON mode flag.
pub fn set_json_mode(config: &mut LogConfig, enabled: bool)
    ensures
        final(config).json_mode == enabled,
{
    config.json_mode = enabled;
}

/// Checks whether JSON mode is enabled.
pub fn is_json_mode(config: &LogConfig) -> (r: bool)
    ensures
        r == config.json_mode,
{
    config.json_mode
}

} // verus!
