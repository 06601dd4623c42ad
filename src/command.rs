//! Commands: an identifier paired with a payload.
use vstd::prelude::*;

verus! {

/// The number of command identifiers, and so the number of routes a registry holds.
pub const NUM_COMMAND_IDS: usize = 4;

/// The closed set of command kinds; the sole key of a registry lookup.
#[derive(Clone, Copy, Debug, PartialEq, Eq, Hash, Structural)]
pub enum CommandId {
    SimpleDataRequest,
    ComplexDataRequest,
    UnimplementedRequest,
    MoreSimpleRequest,
}

impl CommandId {
    /// The position of this identifier's route in a registry.
    pub open spec fn spec_index(self) -> nat {
        match self {
            CommandId::SimpleDataRequest => 0,
            CommandId::ComplexDataRequest => 1,
            CommandId::UnimplementedRequest => 2,
            CommandId::MoreSimpleRequest => 3,
        }
    }

    pub fn index(&self) -> (r: usize)
        ensures
            r == self.spec_index(),
            r < NUM_COMMAND_IDS,
    {
        match self {
            CommandId::SimpleDataRequest => 0,
            CommandId::ComplexDataRequest => 1,
            CommandId::UnimplementedRequest => 2,
            CommandId::MoreSimpleRequest => 3,
        }
    }
}

/// The payload of a command, one variant per command family. A payload may
/// disagree with the identifier it travels under; receivers tolerate that.
#[derive(Debug, PartialEq, Eq)]
pub enum CommandArgs {
    SimpleDataRequestArgs { serial_number: u32, object_type: u8 },
    ComplexDataRequestArgs { payload: Vec<u8> },
    UnimplementedRequestArgs,
    MoreSimpleRequestArgs,
}

/// A command as it travels through the queue: immutable once built.
#[derive(Debug, PartialEq, Eq)]
pub struct Command {
    pub cmd: CommandId,
    pub args: CommandArgs,
}

impl Command {
    pub fn new(cmd: CommandId, args: CommandArgs) -> (r: Command)
        ensures
            r.cmd == cmd,
            r.args == args,
    {
        Command { cmd, args }
    }
}

} // verus!
