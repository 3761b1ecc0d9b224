//! A single-shot notification flag for cooperatively scheduled tasks, and a
//! registry that fans one signal out to every waiting task.
pub mod flag;
pub mod protocol;
pub mod registry;

pub use flag::Flag;
pub use protocol::{FlagState, Phase};
pub use registry::{signal, Flags};
