//! Bootstrap logic for a desktop host that embeds a Python interpreter:
//! choosing the interpreter environment, composing the module search path,
//! and driving the launch to a process exit code.

pub mod paths;
pub mod search_path;
pub mod environment;
pub mod launch;
