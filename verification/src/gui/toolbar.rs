use vstd::prelude::*;

verus! {

/// What the toolbar asks for.
#[derive(Debug, Clone, PartialEq, Eq, Structural)]
pub enum ToolbarAction {
    /// Nothing.
    NoAction,
    /// Start the engine.
    Start,
    /// Stop the engine.
    Stop,
    /// Import a configuration file.
    ImportConfig,
    /// Export a configuration file.
    ExportConfig,
}

/// What the toolbar's status ring shows.
#[derive(Debug, Clone, Copy, PartialEq, Eq, Structural)]
pub enum StatusIndicator {
    /// An error occurred (red).
    Error,
    /// The engine runs (green).
    Running,
    /// The engine is stopped (grey).
    Stopped,
}

/// The toolbar's state.
pub struct ToolbarState {
    /// Whether the engine runs.
    pub engine_running: bool,
    /// Whether the engine reported an error.
    pub engine_error: bool,
    /// The current configuration file.
    pub config_path: Option<String>,
    /// Whether the log window is open.
    pub show_log_window: bool,
    /// Whether the status window is open.
    pub show_status_window: bool,
}

impl ToolbarState {
    /// The initial toolbar: engine stopped, no error, no file, windows closed.
    pub fn new() -> (t: Self)
        ensures
            !t.engine_running,
            !t.engine_error,
            t.config_path is None,
            !t.show_log_window,
            !t.show_status_window,
    {
        ToolbarState {
            engine_running: false,
            engine_error: false,
            config_path: None,
            show_log_window: false,
            show_status_window: false,
        }
    }

    /// The status ring's state: an error wins over running, running over stopped.
    pub fn indicator(&self) -> (s: StatusIndicator)
        ensures
            s == (if self.engine_error {
                StatusIndicator::Error
            } else if self.engine_running {
                StatusIndicator::Running
            } else {
                StatusIndicator::Stopped
            }),
    {
        if self.engine_error {
            StatusIndicator::Error
        } else if self.engine_running {
            StatusIndicator::Running
        } else {
            StatusIndicator::Stopped
        }
    }
}

} // verus!
