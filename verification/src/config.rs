//! The logging block of the process configuration.

use vstd::prelude::*;

verus! {

/// How the process logger is configured: a level name and a color mode
/// ("always", "never", or anything else for automatic).
#[derive(Debug)]
pub struct LogConfig {
    pub level: String,
    pub color_mode: String,
}

} // verus!
