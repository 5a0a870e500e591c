use vstd::prelude::*;

use crate::text::owned;
use vstd::string::StringExecFns;

verus! {

/// The error kinds of the router. Each carries a human-readable detail.
#[derive(Debug)]
pub enum AudioRouterError {
    /// A device that was asked for was not found.
    DeviceNotFound(String),
    /// An audio stream (capture or playback) failed.
    StreamError(String),
    /// A configuration value or parameter is invalid.
    ConfigError(String),
    /// An unrecoverable error; the process should end.
    Fatal(String),
    /// A message channel failed.
    ChannelError(String),
    /// The requested feature is not available on this platform.
    NotSupported(String),
}

/// The text an error is shown with: a prefix naming its kind, then its
/// detail.
pub open spec fn error_text(e: AudioRouterError) -> Seq<char> {
    match e {
        AudioRouterError::DeviceNotFound(m) => "设备未找到: "@ + m@,
        AudioRouterError::StreamError(m) => "音频流错误: "@ + m@,
        AudioRouterError::ConfigError(m) => "配置错误: "@ + m@,
        AudioRouterError::Fatal(m) => "致命错误: "@ + m@,
        AudioRouterError::ChannelError(m) => "消息通道错误: "@ + m@,
        AudioRouterError::NotSupported(m) => "不支持的操作: "@ + m@,
    }
}

impl AudioRouterError {
    /// The text the error is shown with (see `error_text`).
    pub fn message(&self) -> (s: String)
        ensures
            s@ == error_text(*self),
    {
        match self {
            AudioRouterError::DeviceNotFound(m) => owned("设备未找到: ").concat(m.as_str()),
            AudioRouterError::StreamError(m) => owned("音频流错误: ").concat(m.as_str()),
            AudioRouterError::ConfigError(m) => owned("配置错误: ").concat(m.as_str()),
            AudioRouterError::Fatal(m) => owned("致命错误: ").concat(m.as_str()),
            AudioRouterError::ChannelError(m) => owned("消息通道错误: ").concat(m.as_str()),
            AudioRouterError::NotSupported(m) => owned("不支持的操作: ").concat(m.as_str()),
        }
    }
}

/// How serious an error is.
#[derive(Debug, Clone, Copy, PartialEq, Eq, Structural)]
pub enum ErrorSeverity {
    /// The router keeps running (for example an output slot is switched off).
    Recoverable,
    /// The router runs in a degraded mode (for example outputs are muted).
    Degraded,
    /// The process must end.
    Fatal,
}

/// The phases of recovering from a lost input device.
///
/// Intervals are kept in whole milliseconds.
#[derive(Debug, Clone, PartialEq, Eq, Structural)]
pub enum RecoveryState {
    /// Running normally.
    Normal,
    /// Reconnecting to the original device with exponential backoff.
    ReconnectBackoff {
        /// Number of reconnect attempts made so far.
        attempt: u32,
        /// Wait before the next attempt, in milliseconds.
        next_interval_ms: u64,
    },
    /// Falling back to the system default input device.
    FallbackToDefault {
        /// Number of fallback attempts made so far.
        attempt: u32,
    },
}

} // verus!
