use ropk::xtask::{parse_args, uf2_commands, uf2_paths, XtaskCommand};

fn args(a: &[&str]) -> Vec<String> {
    a.iter().map(|s| s.to_string()).collect()
}

fn uf2(c: XtaskCommand) -> (bool, Option<String>) {
    match c {
        XtaskCommand::Uf2 { release, output } => (release, output),
        _ => panic!("not a uf2 command"),
    }
}

#[test]
fn no_args_builds_release() {
    assert_eq!(uf2(parse_args(&args(&[]))), (true, None));
}

#[test]
fn uf2_defaults_to_release() {
    assert_eq!(uf2(parse_args(&args(&["uf2"]))), (true, None));
    assert_eq!(uf2(parse_args(&args(&[""]))), (true, None));
}

#[test]
fn debug_flag() {
    assert_eq!(uf2(parse_args(&args(&["uf2", "--debug"]))), (false, None));
}

#[test]
fn output_flags() {
    assert_eq!(
        uf2(parse_args(&args(&["uf2", "-o", "fw.uf2"]))),
        (true, Some("fw.uf2".to_string()))
    );
    assert_eq!(
        uf2(parse_args(&args(&["", "--output", "a.uf2", "--debug"]))),
        (false, Some("a.uf2".to_string()))
    );
    assert_eq!(uf2(parse_args(&args(&["uf2", "-o"]))), (true, None));
    assert_eq!(
        uf2(parse_args(&args(&["uf2", "-o", "a", "-o"]))),
        (true, None)
    );
}

#[test]
fn unknown_arg() {
    match parse_args(&args(&["uf2", "--debug", "--fast"])) {
        XtaskCommand::UnknownArg(a) => assert_eq!(a, "--fast"),
        _ => panic!("expected an unknown argument"),
    }
}

#[test]
fn unknown_subcommand() {
    match parse_args(&args(&["flash", "--debug"])) {
        XtaskCommand::UnknownSubcommand(s) => assert_eq!(s, "flash"),
        _ => panic!("expected an unknown subcommand"),
    }
}

fn strs(v: &[String]) -> Vec<&str> {
    v.iter().map(|s| s.as_str()).collect()
}

#[test]
fn uf2_commands_release() {
    let c = uf2_commands(&"/repo".to_string(), true, None);
    assert_eq!(c.len(), 3);
    assert_eq!(c[0].0, "cargo");
    assert_eq!(strs(&c[0].1), vec!["build", "--release"]);
    assert_eq!(c[0].2.as_deref(), Some("/repo/crates/ropk-fw"));
    assert_eq!(c[1].0, "cargo");
    assert_eq!(
        strs(&c[1].1),
        vec![
            "objcopy",
            "--release",
            "--",
            "-O",
            "binary",
            "/repo/crates/ropk-fw/target/thumbv7em-none-eabihf/release/ropk-fw.bin"
        ]
    );
    assert_eq!(c[1].2.as_deref(), Some("/repo/crates/ropk-fw"));
    assert_eq!(c[2].0, "uv");
    assert_eq!(
        strs(&c[2].1),
        vec![
            "run",
            "--project",
            "/repo/scripts",
            "/repo/scripts/microsoft_uf2_scripts/uf2conv.py",
            "-f",
            "NRF52840",
            "-b",
            "0x26000",
            "-c",
            "-o",
            "/repo/crates/ropk-fw/ropk-fw.uf2",
            "/repo/crates/ropk-fw/target/thumbv7em-none-eabihf/release/ropk-fw.bin"
        ]
    );
    assert_eq!(c[2].2, None);
}

#[test]
fn uf2_commands_debug_with_output() {
    let c = uf2_commands(&"/r".to_string(), false, Some("out.uf2".to_string()));
    assert_eq!(strs(&c[0].1), vec!["build"]);
    assert_eq!(
        strs(&c[1].1),
        vec!["objcopy", "--", "-O", "binary", "/r/crates/ropk-fw/target/thumbv7em-none-eabihf/debug/ropk-fw.bin"]
    );
    assert_eq!(c[2].1[10], "out.uf2");
    assert_eq!(c[2].1[11], "/r/crates/ropk-fw/target/thumbv7em-none-eabihf/debug/ropk-fw.bin");
}

#[test]
fn uf2_paths_match_commands() {
    let root = "/repo".to_string();
    let (bin, out) = uf2_paths(&root, false, None);
    assert_eq!(bin, "/repo/crates/ropk-fw/target/thumbv7em-none-eabihf/debug/ropk-fw.bin");
    assert_eq!(out, "/repo/crates/ropk-fw/ropk-fw.uf2");
    let c = uf2_commands(&root, false, None);
    assert_eq!(c[1].1.last().unwrap(), &bin);
    assert_eq!(c[2].1[10], out);
    let (_, out) = uf2_paths(&root, true, Some("x.uf2".to_string()));
    assert_eq!(out, "x.uf2");
}
