use vstd::prelude::*;

verus! {

/// How the host starts the language server process.
#[derive(Clone, Debug)]
pub struct ServerCommand {
    /// Path of the executable.
    pub command: String,
    /// Arguments handed to it.
    pub args: Vec<String>,
    /// Environment variables set for it, beyond the host's own.
    pub env: Vec<(String, String)>,
}

/// The server speaks its protocol over standard input and output when
/// started with this single argument.
pub open spec fn stdio_arg() -> Seq<char> {
    "stdio"@
}

/// Command that starts the server at `binary_path` over standard input and
/// output, with no extra environment.
pub fn language_server_command(binary_path: String) -> (r: ServerCommand)
    ensures
        r.command == binary_path,
        r.args@.len() == 1,
        r.args@[0]@ == stdio_arg(),
        r.env@.len() == 0,
{
    let mut args: Vec<String> = Vec::new();
    args.push(String::from_str("stdio"));
    ServerCommand { command: binary_path, args, env: Vec::new() }
}

} // verus!
