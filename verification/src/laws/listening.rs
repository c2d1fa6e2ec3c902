//! What holds of the addresses that the server listens on.

use crate::bind;
use crate::cli;
use crate::text;
use vstd::prelude::*;

verus! {

/// Loopback, RFC1918 and the Tailscale range, and no other IPv4 address, are private.
pub proof fn law_private_ipv4(a: bind::Ipv4)
    ensures
        a.is_cgnat() == (a.octets@[0] == 100 && 64 <= a.octets@[1] <= 127),
        bind::Ip::V4(a).is_tailscale() == (a.octets@[0] == 100 && 64 <= a.octets@[1] <= 127),
        bind::Ip::V4(a).is_private() == {
            ||| a.octets@[0] == 127
            ||| a.octets@[0] == 10
            ||| a.octets@[0] == 172 && 16 <= a.octets@[1] <= 31
            ||| a.octets@[0] == 192 && a.octets@[1] == 168
            ||| a.octets@[0] == 100 && 64 <= a.octets@[1] <= 127
        },
{
    vstd::arithmetic::power2::lemma2_to64();
}

/// Loopback and `fc00::/7`, and no other IPv6 address, are private. None is one of
/// Tailscale's.
pub proof fn law_private_ipv6(a: bind::Ipv6)
    ensures
        bind::Ip::V6(a).is_private() == {
            ||| a.segments@ == seq![0u16, 0, 0, 0, 0, 0, 0, 1]
            ||| a.segments@[0] / 0x200 == 0x7e
        },
        !bind::Ip::V6(a).is_tailscale(),
{
    if a.is_loopback() {
        assert(a.segments@ =~= seq![0u16, 0, 0, 0, 0, 0, 0, 1]);
    }
}

/// An address that is asked for is the one that is listened on, whatever the interfaces
/// of the host are, if it is private or public ones are allowed.
pub proof fn law_asked_address_is_taken(
    asked: Seq<char>,
    ip: bind::Ip,
    allow_public: bool,
    addresses: Seq<bind::Ip>,
)
    requires
        allow_public || ip.is_private(),
    ensures
        bind::bind_choice(Some(asked), Some(ip), allow_public, addresses) == Ok::<
            bind::Ip,
            Seq<char>,
        >(ip),
{
}

/// A public address is refused unless it is allowed, and so is what is no address. The
/// refusal names what was asked for, and the first of the two how to override it.
pub proof fn law_refused_address_is_named(
    asked: Seq<char>,
    ip: bind::Ip,
    allow_public: bool,
    addresses: Seq<bind::Ip>,
)
    requires
        !ip.is_private(),
    ensures
        bind::bind_choice(Some(asked), Some(ip), false, addresses) == Err::<bind::Ip, Seq<char>>(
            "refusing to bind the public address "@ + asked
                + ".\ntailclip has no authentication. The tailnet is the authentication.\nTo override this, add --allow-public-bind."@,
        ),
        bind::bind_choice(Some(asked), None, allow_public, addresses) == Err::<
            bind::Ip,
            Seq<char>,
        >("--bind "@ + asked + ": not an IP address"@),
{
}

/// Where no address is asked for, the first one of Tailscale's is taken, whatever else
/// there is before or behind it and whether or not public ones are allowed.
pub proof fn law_first_tailscale_address_is_taken(
    address: Option<bind::Ip>,
    allow_public: bool,
    addresses: Seq<bind::Ip>,
    i: int,
)
    requires
        0 <= i < addresses.len(),
        addresses[i].is_tailscale(),
        forall|j: int| 0 <= j < i ==> !(#[trigger] addresses[j]).is_tailscale(),
    ensures
        bind::first_tailscale(addresses) == Some(addresses[i]),
        bind::bind_choice(None, address, allow_public, addresses) == Ok::<bind::Ip, Seq<char>>(
            addresses[i],
        ),
    decreases addresses.len(),
{
    if i > 0 {
        let rest = addresses.skip(1);
        assert forall|j: int| 0 <= j < i - 1 implies !(#[trigger] rest[j]).is_tailscale() by {
            assert(rest[j] == addresses[j + 1]);
        }
        law_first_tailscale_address_is_taken(address, allow_public, rest, i - 1);
        assert(!addresses[0].is_tailscale());
    }
}

/// Where no address is asked for and the host has none of Tailscale's, there is none to
/// listen on, be public ones allowed or not.
pub proof fn law_no_tailscale_no_address(
    address: Option<bind::Ip>,
    allow_public: bool,
    addresses: Seq<bind::Ip>,
)
    requires
        forall|j: int| 0 <= j < addresses.len() ==> !(#[trigger] addresses[j]).is_tailscale(),
    ensures
        bind::bind_choice(None, address, allow_public, addresses) == Err::<bind::Ip, Seq<char>>(
            "no address inside 100.64.0.0/10 on this host.\ntailclip binds the Tailscale address. Start Tailscale, then try again.\nTo use a different address, add --bind <ip>."@,
        ),
    decreases addresses.len(),
{
    if addresses.len() > 0 {
        let rest = addresses.skip(1);
        assert forall|j: int| 0 <= j < rest.len() implies !(#[trigger] rest[j]).is_tailscale() by {
            assert(rest[j] == addresses[j + 1]);
        }
        law_no_tailscale_no_address(address, allow_public, rest);
        assert(!addresses[0].is_tailscale());
    }
}

// ------------------------------------------------------------- the command line

/// The value of a flag is the argument behind the first occurrence of it, whatever that
/// argument is and whatever else there is.
pub proof fn law_flag_takes_the_argument_behind_it(
    args: Seq<Seq<char>>,
    name: Seq<char>,
    i: int,
)
    requires
        0 <= i < args.len(),
        args[i] == name,
        forall|j: int| 0 <= j < i ==> #[trigger] args[j] != name,
    ensures
        i + 1 < args.len() ==> cli::value_behind(args, name) == Some(args[i + 1]),
        i + 1 == args.len() ==> cli::value_behind(args, name) is None,
    decreases args.len(),
{
    if i > 0 {
        let rest = args.skip(1);
        assert forall|j: int| 0 <= j < i - 1 implies #[trigger] rest[j] != name by {
            assert(rest[j] == args[j + 1]);
        }
        law_flag_takes_the_argument_behind_it(rest, name, i - 1);
        assert(args[0] != name);
    }
}

/// A flag that is not there has no value.
pub proof fn law_missing_flag_has_no_value(args: Seq<Seq<char>>, name: Seq<char>)
    requires
        forall|j: int| 0 <= j < args.len() ==> #[trigger] args[j] != name,
    ensures
        cli::value_behind(args, name) is None,
    decreases args.len(),
{
    if args.len() > 0 {
        let rest = args.skip(1);
        assert forall|j: int| 0 <= j < rest.len() implies #[trigger] rest[j] != name by {
            assert(rest[j] == args[j + 1]);
        }
        law_missing_flag_has_no_value(rest, name);
        assert(args[0] != name);
    }
}

/// The port is the number that `--port` is given, and 8757 without it. What is no number
/// of a port is named, whatever address is asked for.
pub proof fn law_port_is_the_one_given(
    args: Seq<Seq<char>>,
    address: Option<bind::Ip>,
    addresses: Seq<bind::Ip>,
)
    ensures
        cli::value_behind(args, "--port"@) is None ==> cli::port_in(args) == Ok::<nat, Seq<char>>(
            8757,
        ),
        cli::value_behind(args, "--port"@) matches Some(p) ==> match text::unsigned_of(p, 65535) {
            Some(n) => cli::port_in(args) == Ok::<nat, Seq<char>>(n),
            None => cli::listening(args, address, addresses) == Err::<(bind::Ip, nat), Seq<char>>(
                "--port "@ + p + ": not a port number"@,
            ),
        },
{
}

/// Where the port can be read, `serve` listens on it, at the address that the bind rules
/// choose of what `--bind` is given. Public addresses are allowed if and only if one of
/// the arguments says so.
pub proof fn law_serve_listens_where_it_is_told(
    args: Seq<Seq<char>>,
    address: Option<bind::Ip>,
    addresses: Seq<bind::Ip>,
    port: nat,
)
    requires
        cli::port_in(args) == Ok::<nat, Seq<char>>(port),
    ensures
        ({
            let allow = exists|i: int|
                0 <= i < args.len() && #[trigger] args[i] == "--allow-public-bind"@;
            match bind::bind_choice(cli::value_behind(args, "--bind"@), address, allow, addresses) {
                Ok(ip) => cli::listening(args, address, addresses) == Ok::<
                    (bind::Ip, nat),
                    Seq<char>,
                >((ip, port)),
                Err(e) => cli::listening(args, address, addresses) == Err::<
                    (bind::Ip, nat),
                    Seq<char>,
                >(e),
            }
        }),
{
    assert(args.contains("--allow-public-bind"@) == exists|i: int|
        0 <= i < args.len() && #[trigger] args[i] == "--allow-public-bind"@);
}

/// `serve --bind` with a private address, or with any address that is allowed, listens on
/// that address, on any host.
pub proof fn law_serve_binds_the_address_given(
    args: Seq<Seq<char>>,
    i: int,
    ip: bind::Ip,
    addresses: Seq<bind::Ip>,
    port: nat,
)
    requires
        0 <= i < args.len() - 1,
        args[i] == "--bind"@,
        forall|j: int| 0 <= j < i ==> #[trigger] args[j] != "--bind"@,
        ip.is_private() || args.contains("--allow-public-bind"@),
        cli::port_in(args) == Ok::<nat, Seq<char>>(port),
    ensures
        cli::listening(args, Some(ip), addresses) == Ok::<(bind::Ip, nat), Seq<char>>((ip, port)),
{
    law_flag_takes_the_argument_behind_it(args, "--bind"@, i);
    law_asked_address_is_taken(
        args[i + 1],
        ip,
        args.contains("--allow-public-bind"@),
        addresses,
    );
}

/// Each command has its own names. A name is unknown if and only if it is none of them,
/// and an unknown command is told by its name.
pub proof fn law_command_goes_by_its_name(command: cli::Command, name: Seq<char>)
    requires
        cli::is_named(command, name),
    ensures
        command is Serve <==> name == "serve"@,
        command is Sync <==> name == "sync"@,
        command is GetClip <==> name == "get"@,
        command is SetClip <==> name == "set"@,
        command is Pause <==> name == "pause"@,
        command is Resume <==> name == "resume"@,
        command is Selftest <==> name == "selftest"@,
        command is Version <==> (name == "-V"@ || name == "--version"@ || name == "version"@),
        command is Help <==> (name == "-h"@ || name == "--help"@ || name == "help"@ || name.len()
            == 0),
        command matches cli::Command::Unknown(other) ==> other@ == name,
{
    reveal_strlit("serve");
    reveal_strlit("sync");
    reveal_strlit("get");
    reveal_strlit("set");
    reveal_strlit("pause");
    reveal_strlit("resume");
    reveal_strlit("selftest");
    reveal_strlit("-V");
    reveal_strlit("--version");
    reveal_strlit("version");
    reveal_strlit("-h");
    reveal_strlit("--help");
    reveal_strlit("help");
    reveal_strlit("");
    assert(name.len() == 0 ==> name =~= ""@);
    assert("serve"@[0] == 's' && "serve"@[1] == 'e' && "serve"@[2] == 'r');
    assert("sync"@[0] == 's' && "sync"@[1] == 'y');
    assert("set"@[0] == 's' && "set"@[2] == 't');
    assert("get"@[0] == 'g');
    assert("pause"@[0] == 'p');
    assert("resume"@[0] == 'r');
    assert("help"@[0] == 'h');
    assert("version"@[0] == 'v');
    assert("-V"@[1] == 'V');
    assert("-h"@[1] == 'h');
    assert("--version"@[0] == '-' && "--version"@[1] == '-' && "--version"@[2] == 'v');
    assert("--help"@[2] == 'h');
    assert("selftest"@.len() == 8);
}

/// The pause file lies below the home directory, or below the current one where there is
/// none: the path begins with the directory and ends with the file, with one `/` between
/// the two where the directory does not end with one.
pub proof fn law_pause_file_lies_below_home(home: Seq<char>)
    ensures
        home.len() > 0 && home.last() != '/' ==> cli::pause_path(Some(home)) == home
            + "/.cache/tailclip/paused"@,
        home.len() > 0 && home.last() == '/' ==> cli::pause_path(Some(home)) == home
            + ".cache/tailclip/paused"@,
        home.len() == 0 ==> cli::pause_path(Some(home)) == ".cache/tailclip/paused"@,
        cli::pause_path(None) == "./.cache/tailclip/paused"@,
{
    reveal_strlit(".cache/tailclip/paused");
    reveal_strlit("/.cache/tailclip/paused");
    reveal_strlit("./.cache/tailclip/paused");
    reveal_strlit("/");
    reveal_strlit(".");
    assert("/"@ + ".cache/tailclip/paused"@ =~= "/.cache/tailclip/paused"@);
    assert(home + "/"@ + ".cache/tailclip/paused"@ =~= home + "/.cache/tailclip/paused"@);
    assert("."@ + "/"@ + ".cache/tailclip/paused"@ =~= "./.cache/tailclip/paused"@);
    assert(home.len() == 0 ==> home + ".cache/tailclip/paused"@ =~= ".cache/tailclip/paused"@);
}

} // verus!
