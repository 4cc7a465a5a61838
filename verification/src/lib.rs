//! A software MIDI patchbay: message classification, processing nodes, the
//! routing graph that pumps messages between them, and the command
//! interpreter that rewires the graph at run time.

pub mod commands;
pub mod consts;
pub mod manager;
pub mod message;
pub mod processors;
pub mod shell;
pub mod text;
pub mod utils;
