use vstd::prelude::*;

verus! {

/// A failure reported by a plugin implementation itself, either while the
/// plugin was being built or while it was answering a resource request.
/// The registry never interprets the message; it only carries it back to
/// the caller.
#[derive(Debug, Clone)]
pub struct PluginFailure {
    pub message: String,
}

/// The failures that registry construction and dispatch can report.
///
/// Construction errors (`ConfigurationError`, `SetupError`, `BuildError`)
/// abort the whole construction: no partially populated registry is ever
/// produced.  Dispatch errors (`NotFoundError`, `ResolutionError`) are
/// per-call and leave the registry untouched for other callers.
#[derive(Debug, Clone)]
pub enum PluginError {
    /// An enabled plugin name matches no known builder.
    ConfigurationError { plugin_name: String },
    /// The working directory could not be prepared.
    SetupError { message: String },
    /// A builder failed to construct its plugin.
    BuildError { plugin_name: String, failure: PluginFailure },
    /// Dispatch found no live plugin with the requested name.
    NotFoundError { plugin_name: String },
    /// The matched plugin's own resource lookup failed.
    ResolutionError { failure: PluginFailure },
}

} // verus!
