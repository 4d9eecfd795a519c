//! Orchestration core of a video downloader: filename sanitising, format
//! selection, caption extraction, progress reporting, the worker's state
//! machine and the interactive state's message handling.

pub mod bus;
pub mod caption;
pub mod format;
pub mod message;
pub mod progress;
pub mod sanitize;
pub mod session;
pub mod text;
pub mod ui;
