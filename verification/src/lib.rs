//! Conversion orchestration for a terminal video converter: the format and
//! settings model, progress events, backend selection with fallback, and the
//! step functions that drive each backend.

pub mod converter;
pub mod text;
pub mod paths;
pub mod native_converter;
pub mod ffmpeg;
pub mod file_browser;
pub mod app;
pub mod ui;
