//! Routing core of a live-stream watcher.
//!
//! A watcher follows a curated list of channels. When one of them goes
//! online or offline, a companion launcher is told to open or close a local
//! viewer at a video quality that depends on the channel and on the active
//! profile.
//!
//! This crate holds the decisions of that pipeline, each with a contract:
//!
//! * [`config`] settles what the pipeline starts from when files are missing
//!   or broken;
//! * [`watcher::file_watcher`] turns the startup snapshot of channels into the
//!   ordered messages of the configuration feed;
//! * [`watcher::event_handler`] keeps the registry built from the feed and
//!   resolves notifications into launch instructions;
//! * [`supervisor`] drives the epochs: credential, run, start over.
//!
//! Channels, tasks, timers and files are the caller's business: every function
//! here takes plain values and returns plain values.

pub mod config;
pub mod supervisor;
pub mod watcher;

pub use config::{read_config, read_streams};
pub use supervisor::run;
