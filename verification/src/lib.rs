//! Planning and checking logic of a process sandbox that re-executes the
//! current program in a child process, marks the child through an
//! environment variable, and bounds it in time and memory.

pub mod attempts;
pub mod sandbox;
pub mod text;
pub mod invocation;
