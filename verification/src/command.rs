//! What goes into an invocation of the toolchain besides the command line.

pub mod environment;
