//! The command line.

use crate::bind;
use crate::bind::{pick_bind, Ip};
use crate::server::DEFAULT_PORT;
use crate::text;
use crate::text::{chars_of, same_text, unsigned};
use vstd::prelude::*;

verus! {

/// What a list of arguments holds.
pub open spec fn args_view(args: Seq<String>) -> Seq<Seq<char>> {
    Seq::new(args.len(), |i: int| args[i]@)
}

// ---------------------------------------------------------------- the command

/// The commands.
#[derive(PartialEq, Eq, Debug)]
pub enum Command {
    Serve,
    Sync,
    GetClip,
    SetClip,
    Pause,
    Resume,
    Selftest,
    Version,
    Help,
    Unknown(String),
}

/// True if this is how the command is written.
pub open spec fn is_named(command: Command, name: Seq<char>) -> bool {
    match command {
        Command::Serve => name == "serve"@,
        Command::Sync => name == "sync"@,
        Command::GetClip => name == "get"@,
        Command::SetClip => name == "set"@,
        Command::Pause => name == "pause"@,
        Command::Resume => name == "resume"@,
        Command::Selftest => name == "selftest"@,
        Command::Version => name == "-V"@ || name == "--version"@ || name == "version"@,
        Command::Help => name == "-h"@ || name == "--help"@ || name == "help"@ || name == ""@,
        Command::Unknown(other) => other@ == name && !is_known(name),
    }
}

/// True if this is how one of the commands is written.
pub open spec fn is_known(name: Seq<char>) -> bool {
    ||| name == "serve"@
    ||| name == "sync"@
    ||| name == "get"@
    ||| name == "set"@
    ||| name == "pause"@
    ||| name == "resume"@
    ||| name == "selftest"@
    ||| name == "-V"@
    ||| name == "--version"@
    ||| name == "version"@
    ||| name == "-h"@
    ||| name == "--help"@
    ||| name == "help"@
    ||| name == ""@
}

/// The command that the arguments name. No arguments ask for help.
pub fn command_of(args: &[String]) -> (command: Command)
    ensures
        is_named(
            command,
            if args@.len() > 0 {
                args@[0]@
            } else {
                ""@
            },
        ),
{
    if args.len() == 0 {
        return Command::Help;
    }
    let name = args[0].as_str();
    if same_text(name, "serve") {
        Command::Serve
    } else if same_text(name, "sync") {
        Command::Sync
    } else if same_text(name, "get") {
        Command::GetClip
    } else if same_text(name, "set") {
        Command::SetClip
    } else if same_text(name, "pause") {
        Command::Pause
    } else if same_text(name, "resume") {
        Command::Resume
    } else if same_text(name, "selftest") {
        Command::Selftest
    } else if same_text(name, "-V") || same_text(name, "--version") || same_text(name, "version") {
        Command::Version
    } else if same_text(name, "-h") || same_text(name, "--help") || same_text(name, "help")
        || same_text(name, "") {
        Command::Help
    } else {
        Command::Unknown(name.to_string())
    }
}

/// What `help` shows.
pub const USAGE: &'static str = "tailclip - a shared clipboard for a tailnet

USAGE
  tailclip serve [--bind IP] [--port N] [--allow-public-bind]
  tailclip sync  HOST[:PORT]
  tailclip get   HOST[:PORT]
  tailclip set   HOST[:PORT] [TEXT]
  tailclip pause
  tailclip resume
  tailclip selftest

With no --bind, serve looks for an address inside 100.64.0.0/10 and binds it.
That is the Tailscale range. The default port is 8757.

tailclip has no authentication. Run it on a tailnet only.
";

/// The exit code of a command, by whether it failed. A command that is not known is
/// told apart from one that failed.
pub fn exit_code(command: &Command, failed: bool) -> (code: i32)
    ensures
        code == if command is Unknown {
            2i32
        } else if failed {
            1
        } else {
            0
        },
{
    match command {
        Command::Unknown(_) => 2,
        _ => if failed {
            1
        } else {
            0
        },
    }
}

// -------------------------------------------------------------- the arguments

/// The host that a command is given: its first argument.
pub fn host_of(rest: &[String]) -> (host: Result<String, String>)
    ensures
        rest@.len() > 0 ==> (host matches Ok(h) && h@ == rest@[0]@),
        rest@.len() == 0 ==> (host matches Err(e) && e@
            == "this command needs a HOST[:PORT] argument"@),
{
    if rest.len() == 0 {
        return Err("this command needs a HOST[:PORT] argument".to_string());
    }
    Ok(rest[0].clone())
}

/// The argument behind the first `name`.
pub open spec fn value_behind(args: Seq<Seq<char>>, name: Seq<char>) -> Option<Seq<char>>
    decreases args.len(),
{
    if args.len() == 0 {
        None
    } else if args[0] == name {
        if args.len() > 1 {
            Some(args[1])
        } else {
            None
        }
    } else {
        value_behind(args.skip(1), name)
    }
}

/// The value that a flag is given: the argument behind it.
pub fn flag_value(args: &[String], name: &str) -> (value: Option<String>)
    ensures
        match value {
            Some(v) => value_behind(args_view(args@), name@) == Some(v@),
            None => value_behind(args_view(args@), name@) is None,
        },
{
    let ghost all = args_view(args@);
    let mut i: usize = 0;
    assert(all.skip(0) =~= all);
    while i < args.len()
        invariant
            i <= args.len(),
            all == args_view(args@),
            value_behind(all, name@) == value_behind(all.skip(i as int), name@),
        decreases args.len() - i,
    {
        assert(all.skip(i as int)[0] == args@[i as int]@);
        assert(all.skip(i as int).skip(1) =~= all.skip(i + 1));
        if same_text(args[i].as_str(), name) {
            if args.len() - i > 1 {
                return Some(args[i + 1].clone());
            }
            return None;
        }
        i += 1;
    }
    None
}

fn has_flag(args: &[String], name: &str) -> (has: bool)
    ensures
        has == args_view(args@).contains(name@),
{
    let mut i: usize = 0;
    while i < args.len()
        invariant
            i <= args.len(),
            forall|j: int| 0 <= j < i ==> args_view(args@)[j] != name@,
        decreases args.len() - i,
    {
        if same_text(args[i].as_str(), name) {
            assert(args_view(args@)[i as int] == name@);
            return true;
        }
        i += 1;
    }
    false
}

/// What `serve` is told.
pub struct ServeOptions {
    pub allow_public: bool,
    pub bind: Option<String>,
    pub port: u16,
}

/// What is said of a `--port` that is none.
pub open spec fn not_a_port(value: Seq<char>) -> Seq<char> {
    "--port "@ + value + ": not a port number"@
}

/// The port that `serve` is told, or the default.
pub open spec fn port_in(args: Seq<Seq<char>>) -> Result<nat, Seq<char>> {
    match value_behind(args, "--port"@) {
        None => Ok(DEFAULT_PORT as nat),
        Some(p) => match text::unsigned_of(p, u16::MAX as nat) {
            Some(n) => Ok(n),
            None => Err(not_a_port(p)),
        },
    }
}

/// Reads what `serve` is told.
pub fn serve_cmd(args: &[String]) -> (options: Result<ServeOptions, String>)
    ensures
        match options {
            Ok(o) => {
                &&& o.allow_public == args_view(args@).contains("--allow-public-bind"@)
                &&& match o.bind {
                    Some(b) => value_behind(args_view(args@), "--bind"@) == Some(b@),
                    None => value_behind(args_view(args@), "--bind"@) is None,
                }
                &&& port_in(args_view(args@)) == Ok::<nat, Seq<char>>(o.port as nat)
            },
            Err(e) => port_in(args_view(args@)) == Err::<nat, Seq<char>>(e@),
        },
{
    let allow_public = has_flag(args, "--allow-public-bind");
    let bind = flag_value(args, "--bind");
    let port: u16 = match flag_value(args, "--port") {
        Some(p) => match unsigned(chars_of(p.as_str()).as_slice(), u16::MAX as u64) {
            Some(n) => n as u16,
            None => {
                let mut message = "--port ".to_string();
                message.append(p.as_str());
                message.append(": not a port number");
                return Err(message);
            },
        },
        None => DEFAULT_PORT,
    };
    Ok(ServeOptions { allow_public, bind, port })
}

/// The address and the port that `serve` listens on, or why it does not. The port is
/// read before the address is chosen.
pub open spec fn listening(
    args: Seq<Seq<char>>,
    address: Option<Ip>,
    addresses: Seq<Ip>,
) -> Result<(Ip, nat), Seq<char>> {
    match port_in(args) {
        Err(e) => Err(e),
        Ok(port) => match bind::bind_choice(
            value_behind(args, "--bind"@),
            address,
            args.contains("--allow-public-bind"@),
            addresses,
        ) {
            Ok(ip) => Ok((ip, port)),
            Err(e) => Err(e),
        },
    }
}

/// The address and the port that `serve` listens on.
///
/// `address` is the address that the value of `--bind` reads as, if it reads as one.
/// `addresses` are those of the interfaces of this host.
pub fn listen_on(args: &[String], address: Option<Ip>, addresses: &Vec<Ip>) -> (place: Result<
    (Ip, u16),
    String,
>)
    ensures
        match place {
            Ok(p) => listening(args_view(args@), address, addresses@) == Ok::<
                (Ip, nat),
                Seq<char>,
            >((p.0, p.1 as nat)),
            Err(e) => listening(args_view(args@), address, addresses@) == Err::<
                (Ip, nat),
                Seq<char>,
            >(e@),
        },
{
    let options = match serve_cmd(args) {
        Ok(options) => options,
        Err(e) => return Err(e),
    };
    let bind = match &options.bind {
        Some(b) => Some(b.as_str()),
        None => None,
    };
    match pick_bind(bind, address, options.allow_public, addresses) {
        Ok(ip) => Ok((ip, options.port)),
        Err(e) => Err(e),
    }
}

// ------------------------------------------------------------------ the pause

/// The file that a pause leaves, below the home directory.
pub const PAUSE_FILE: &'static str = ".cache/tailclip/paused";

/// The path of the file that a pause leaves. Without a home directory it lies
/// below the current one.
pub open spec fn pause_path(home: Option<Seq<char>>) -> Seq<char> {
    let home = match home {
        Some(h) => h,
        None => "."@,
    };
    if home.len() == 0 || home.last() == '/' {
        home + PAUSE_FILE@
    } else {
        home + "/"@ + PAUSE_FILE@
    }
}

/// The path of the file that a pause leaves, by the home directory.
pub fn pause_file(home: Option<String>) -> (path: String)
    ensures
        path@ == pause_path(
            match home {
                Some(h) => Some(h@),
                None => None,
            },
        ),
{
    let mut path = match home {
        Some(h) => h,
        None => ".".to_string(),
    };
    let chars = chars_of(path.as_str());
    if chars.len() > 0 && chars[chars.len() - 1] != '/' {
        path.append("/");
    }
    path.append(PAUSE_FILE);
    path
}

/// How the removal of that file went.
pub enum Removal {
    Removed,
    Missing,
    Failed(String),
}

/// How `resume` ended. To resume what is not paused is no error.
pub fn resume(removal: Removal) -> (result: Result<(), String>)
    ensures
        match removal {
            Removal::Failed(e) => result matches Err(f) && f@ == e@,
            _ => result is Ok,
        },
{
    match removal {
        Removal::Failed(e) => Err(e),
        Removal::Removed => Ok(()),
        Removal::Missing => Ok(()),
    }
}

} // verus!
