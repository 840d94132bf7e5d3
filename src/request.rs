use vstd::prelude::*;

verus! {

/// An executable to run and the arguments to hand it, each one a single
/// literal argument, in order.
#[derive(Debug, Clone, PartialEq, Eq)]
pub struct CommandRequest {
    /// The executable's name or path.
    pub command: String,
    /// The arguments, passed on as given: no shell splits or expands them.
    pub arguments: Vec<String>,
}

impl CommandRequest {
    pub fn new(command: String, arguments: Vec<String>) -> (r: CommandRequest)
        ensures
            r.command@ == command@,
            r.arguments@ == arguments@,
    {
        CommandRequest { command, arguments }
    }
}

} // verus!
