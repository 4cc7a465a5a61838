//! The keyword tables of the command interpreter. Each table comes with the
//! index of every keyword in it.

use crate::utils::words;
use vstd::prelude::*;

verus! {

/// The commands of the interpreter.
pub const COMMANDS: [&'static str; 12] = [
    "exit",
    "list",
    "ls",
    "rename",
    "connect",
    "disconnect",
    "cfg",
    "init",
    "new",
    "remove",
    "inputs",
    "outputs",
];

pub const IDX_EXIT: usize = 0;

pub const IDX_LIST: usize = 1;

pub const IDX_LS: usize = 2;

pub const IDX_RENAME: usize = 3;

pub const IDX_CONNECT: usize = 4;

pub const IDX_DISCONNECT: usize = 5;

pub const IDX_CFG: usize = 6;

pub const IDX_INIT: usize = 7;

pub const IDX_NEW: usize = 8;

pub const IDX_REMOVE: usize = 9;

pub const IDX_INPUTS: usize = 10;

pub const IDX_OUTPUTS: usize = 11;

/// The kinds of node that the `new` command creates.
pub const PROCESSORS: [&'static str; 4] = ["input", "output", "channelfilter", "channelmerge"];

pub const IDX_INPUT: usize = 0;

pub const IDX_OUTPUT: usize = 1;

pub const IDX_CHANNELFILTER: usize = 2;

pub const IDX_CHANNELMERGE: usize = 3;

/// The sub-commands that configure a node working on one channel.
pub const CHANNELFILTER_CMDS: [&'static str; 1] = ["channel"];

pub const IDX_CHANNEL: usize = 0;

/// The commands that the line intake keeps to itself, written after a dot.
pub const METACOMMANDS: [&'static str; 2] = ["load", "run"];

pub const IDX_LOAD: usize = 0;

pub const IDX_RUN: usize = 1;

/// The commands of the interpreter as character sequences.
pub open spec fn command_words() -> Seq<Seq<char>> {
    words(COMMANDS@)
}

/// The kinds of node as character sequences.
pub open spec fn processor_words() -> Seq<Seq<char>> {
    words(PROCESSORS@)
}

/// The configuration sub-commands as character sequences.
pub open spec fn channelfilter_cmd_words() -> Seq<Seq<char>> {
    words(CHANNELFILTER_CMDS@)
}

/// The intake's own commands as character sequences.
pub open spec fn metacommand_words() -> Seq<Seq<char>> {
    words(METACOMMANDS@)
}

} // verus!
