//! Parameter handling, code templating and buffer layout for WebAssembly audio plugins.
pub mod text;
pub mod plugin;
pub mod sin;
pub mod reverb;
pub mod techno;
pub mod mul;
pub mod tone;
pub mod blocks;
pub mod host;
