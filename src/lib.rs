//! Trim and convert media files with an external transcoding engine.
//!
//! The library decides everything that does not need the engine itself:
//! the default output path, the duration read from the engine's diagnostic
//! text, the arguments of each invocation, and what the engine's exit means.
pub mod path;
pub mod probe;
pub mod session;
