pub mod clock;
pub mod error;
pub mod flag;
pub mod recovery;
pub mod text;
pub mod sorted;
pub mod device;
pub mod channel_map;
pub mod pipeline;
pub mod source;
pub mod resample;
pub mod config;
pub mod message;
pub mod cli;
pub mod hotplug;
pub mod engine;
pub mod gui;
