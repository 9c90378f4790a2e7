//! A native-function bridge and runtime patch engine for a scripted
//! in-process console.
//!
//! The library discovers a table of named native functions exposed by a
//! host process, adapts each entry to a script-callable shape, plans
//! runtime patches that redirect a function to return a fixed value, and
//! runs the console's command/transcript state machine around an embedded
//! scripting engine.  Everything that touches raw host memory — walking
//! the table, performing a planned call, writing a redirect — is left to
//! the embedder, which hands plain values in and carries decisions out.

pub mod elex;
pub mod handlers;
pub mod host;
pub mod names;
pub mod patch;
pub mod script;
pub mod table;
