//! The command line.

use tailclip::bind::{Ip, Ipv4};
use tailclip::cli::{
    command_of, exit_code, flag_value, host_of, listen_on, pause_file, resume, serve_cmd, Command,
    Removal, PAUSE_FILE, USAGE,
};

fn args(list: &[&str]) -> Vec<String> {
    list.iter().map(|a| a.to_string()).collect()
}

#[test]
fn commands_are_told_apart() {
    for (name, command) in [
        ("serve", Command::Serve),
        ("sync", Command::Sync),
        ("get", Command::GetClip),
        ("set", Command::SetClip),
        ("pause", Command::Pause),
        ("resume", Command::Resume),
        ("selftest", Command::Selftest),
        ("-V", Command::Version),
        ("--version", Command::Version),
        ("version", Command::Version),
        ("-h", Command::Help),
        ("--help", Command::Help),
        ("help", Command::Help),
        ("", Command::Help),
        ("frobnicate", Command::Unknown("frobnicate".to_string())),
        ("Serve", Command::Unknown("Serve".to_string())),
    ] {
        assert_eq!(command_of(&args(&[name, "x"])), command);
    }
    assert_eq!(command_of(&[]), Command::Help);
}

#[test]
fn help_and_unknown_commands_use_the_right_exit_codes() {
    let c = command_of(&args(&["--help"]));
    assert_eq!(c, Command::Help);
    assert_eq!(exit_code(&c, false), 0);
    assert!(USAGE.contains("tailclip serve"));

    let c = command_of(&args(&["frobnicate"]));
    assert_eq!(c, Command::Unknown("frobnicate".to_string()));
    assert_eq!(exit_code(&c, false), 2, "an unknown command exits 2");

    let c = command_of(&args(&["--version"]));
    assert_eq!(c, Command::Version);
    assert_eq!(exit_code(&c, false), 0);

    assert_eq!(exit_code(&Command::Serve, true), 1);
}

#[test]
fn serve_reads_the_port_before_it_chooses_the_address() {
    let public = Ip::V4(Ipv4 { octets: [8, 8, 8, 8] });
    let tailnet = Ip::V4(Ipv4 { octets: [100, 64, 0, 1] });
    let none = Vec::new();
    assert_eq!(
        listen_on(&args(&["--bind", "8.8.8.8", "--port", "x"]), Some(public), &none),
        Err("--port x: not a port number".to_string())
    );
    assert!(listen_on(&args(&["--bind", "8.8.8.8"]), Some(public), &none).is_err());
    assert_eq!(
        listen_on(&args(&["--bind", "8.8.8.8", "--allow-public-bind"]), Some(public), &none),
        Ok((public, 8757))
    );
    assert_eq!(
        listen_on(&args(&["--port", "9"]), None, &vec![public, tailnet]),
        Ok((tailnet, 9))
    );
    assert!(listen_on(&[], None, &none).is_err());
}

#[test]
fn the_host_is_the_first_argument() {
    assert_eq!(host_of(&args(&["a", "b"])), Ok("a".to_string()));
    assert_eq!(
        host_of(&[]),
        Err("this command needs a HOST[:PORT] argument".to_string())
    );
}

#[test]
fn a_flag_takes_the_argument_behind_it() {
    let a = args(&["--port", "1", "--bind", "--port", "--last"]);
    assert_eq!(flag_value(&a, "--port"), Some("1".to_string()));
    assert_eq!(flag_value(&a, "--bind"), Some("--port".to_string()));
    assert_eq!(flag_value(&a, "--last"), None);
    assert_eq!(flag_value(&a, "--none"), None);
    assert_eq!(flag_value(&args(&["--x", "1", "--x", "2"]), "--x"), Some("1".to_string()));
}

#[test]
fn serve_reads_its_options() {
    let o = serve_cmd(&[]).ok().expect("no arguments will do");
    assert!(!o.allow_public);
    assert_eq!(o.bind, None);
    assert_eq!(o.port, 8757);
    let o = serve_cmd(&args(&["--bind", "::1", "--allow-public-bind", "--port", "0"]))
        .ok()
        .expect("a port number");
    assert!(o.allow_public);
    assert_eq!(o.bind, Some("::1".to_string()));
    assert_eq!(o.port, 0);
    for p in ["x", "65536", "", "-1"] {
        assert_eq!(
            serve_cmd(&args(&["--port", p])).err(),
            Some(format!("--port {p}: not a port number"))
        );
    }
    assert_eq!(serve_cmd(&args(&["--port", "65535"])).ok().map(|o| o.port), Some(65535));
}

#[test]
fn the_pause_file_lies_below_the_home_directory() {
    assert_eq!(PAUSE_FILE, ".cache/tailclip/paused");
    for (home, path) in [
        (Some("/home/me"), "/home/me/.cache/tailclip/paused"),
        (Some("/"), "/.cache/tailclip/paused"),
        (Some(""), ".cache/tailclip/paused"),
        (None, "./.cache/tailclip/paused"),
    ] {
        assert_eq!(pause_file(home.map(|h| h.to_string())), path);
        let joined = std::path::PathBuf::from(home.unwrap_or(".")).join(PAUSE_FILE);
        assert_eq!(joined.to_str(), Some(path));
    }
}

#[test]
fn a_second_resume_is_no_error() {
    assert_eq!(resume(Removal::Removed), Ok(()));
    assert_eq!(resume(Removal::Missing), Ok(()));
    assert_eq!(resume(Removal::Failed("denied".to_string())), Err("denied".to_string()));
}
