//! The command a host runs to start the language server.

use crate::error::ResolveError;
use crate::error::ResolveErrorView;
use vstd::prelude::*;

verus! {

/// A program to run, with its arguments and the environment variables to set
/// for it.
#[derive(Debug, Clone, PartialEq, Eq)]
pub struct Command {
    pub command: String,
    pub args: Vec<String>,
    pub env: Vec<(String, String)>,
}

/// Mathematical counterpart of [`Command`].
pub struct CommandView {
    pub command: Seq<char>,
    pub args: Seq<Seq<char>>,
    pub env: Seq<(Seq<char>, Seq<char>)>,
}

impl View for Command {
    type V = CommandView;

    open spec fn view(&self) -> CommandView {
        CommandView {
            command: self.command@,
            args: self.args@.map_values(|arg: String| arg@),
            env: self.env@.map_values(|pair: (String, String)| (pair.0@, pair.1@)),
        }
    }
}

/// The command that starts the binary at `path`: the binary itself, with no
/// arguments and no environment of its own.
pub open spec fn spec_bare_command(path: Seq<char>) -> CommandView {
    CommandView { command: path, args: Seq::empty(), env: Seq::empty() }
}

/// Turns the end of a resolution into what the host is handed: the command
/// that starts the resolved binary, bare, or the message of the failure.
pub fn language_server_command(resolved: Result<String, ResolveError>) -> (command: Result<
    Command,
    String,
>)
    ensures
        match resolved {
            Ok(path) => command matches Ok(program) && program@ == spec_bare_command(path@),
            Err(error) => command matches Err(message) && message@ == error@.message(),
        },
{
    match resolved {
        Ok(path) => {
            let program = Command { command: path, args: Vec::new(), env: Vec::new() };
            assert(program@.args =~= Seq::empty());
            assert(program@.env =~= Seq::empty());
            Ok(program)
        },
        Err(error) => Err(error.message()),
    }
}

} // verus!
