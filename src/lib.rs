//! An incremental execution engine: compiled modules are registered in
//! insertion order, symbols are looked up most recent first, and every
//! compilation runs under a supervisor that turns crashes into outcomes.
pub mod engine;
pub mod loader;
pub mod options;
pub mod pipeline;
pub mod source;
pub mod supervisor;
