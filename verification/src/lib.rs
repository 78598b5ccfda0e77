//! Adapter from a generic logging facade to a DLT-style diagnostic daemon.
//!
//! The library holds the adapter's whole translation logic: mapping the
//! facade's five severity ranks onto the daemon's five ranks, formatting a
//! record as `[<basename>:<line>] <message>`, and substituting a fixed
//! sentinel line for any message that holds an embedded terminator character,
//! which the daemon's text representation cannot carry.

pub mod level;
pub mod logger;
pub mod text;
