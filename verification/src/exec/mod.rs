//! The execution context: the lifecycle of the one embedding of the runtime
//! and the calls that each operation asks of it.

pub mod command;
pub mod context;

pub use command::{Command, CommandView, FunctionImplementation, Registered, Registration};
pub use context::{Awaited, Context, ContextView, OnInitCallback, State};
