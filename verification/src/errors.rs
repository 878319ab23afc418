//! Errors that the plugin reports to the host.
use vstd::prelude::*;

verus! {

/// Error returned to the host when a request cannot be honoured.
#[derive(Debug, Clone, Copy, PartialEq, Eq, Structural)]
pub enum PluginError {
    /// The request does not fit the plugin's state (e.g. an unsupported port layout).
    InvalidState,
    /// The request names a parameter that the plugin does not have.
    InvalidParameter,
}

} // verus!
