//! Decoder for the length-framed binary record files of a game's powers data,
//! and the engine that links the decoded collections into one graph and
//! marks every entity reachable from the top level categories.

pub mod bin_parse;
pub mod display;
pub mod load;
pub mod structs;
