//! Turns a function that configures an `App` into a plugin type: the
//! checks on the function's signature and generics, and the plan of the
//! declarations to emit.
pub mod shape;
pub mod signature;
pub mod generics;
pub mod plugin;
