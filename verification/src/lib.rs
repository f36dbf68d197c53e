//! A software-rendered status bar engine: colours and configuration, the
//! per-frame rasterizer, buffer bookkeeping, the pointer state machine and
//! the text modules shown on the bar.

pub mod application;
pub mod buffers;
pub mod color;
pub mod command;
pub mod config;
pub mod drawing;
pub mod input;
pub mod modules;
pub mod text;
pub mod volume;
