use vstd::prelude::*;

verus! {

/// The state of the audio engine as the interface shows it.
#[derive(Debug, Clone, PartialEq, Eq)]
pub enum EngineStatus {
    /// Not routing audio.
    Stopped,
    /// Routing audio.
    Running,
    /// Failed, with a description.
    Error(String),
}

} // verus!
