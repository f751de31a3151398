//! Command line of the build helper (`xtask`): which firmware image to build
//! and where to put it.
use vstd::prelude::*;

verus! {

/// What the build helper was asked to do.
pub enum XtaskCommand {
    /// Build the firmware and convert it to a UF2 image; `release` picks the
    /// release profile, `output` the image's path if one was given.
    Uf2 { release: bool, output: Option<String> },
    /// An argument of the `uf2` subcommand that it does not know.
    UnknownArg(String),
    /// A subcommand that the helper does not know.
    UnknownSubcommand(String),
}

/// `XtaskCommand` with its strings taken as character sequences.
pub ghost enum XtaskCommandView {
    Uf2 { release: bool, output: Option<Seq<char>> },
    UnknownArg(Seq<char>),
    UnknownSubcommand(Seq<char>),
}

/// The characters of an optional string.
pub open spec fn option_string_view(o: Option<String>) -> Option<Seq<char>> {
    match o {
        Some(s) => Some(s@),
        None => None,
    }
}

impl View for XtaskCommand {
    type V = XtaskCommandView;

    open spec fn view(&self) -> XtaskCommandView {
        match self {
            XtaskCommand::Uf2 { release, output } => XtaskCommandView::Uf2 {
                release: *release,
                output: option_string_view(*output),
            },
            XtaskCommand::UnknownArg(s) => XtaskCommandView::UnknownArg(s@),
            XtaskCommand::UnknownSubcommand(s) => XtaskCommandView::UnknownSubcommand(s@),
        }
    }
}

/// The characters of each argument.
pub open spec fn args_view(args: Seq<String>) -> Seq<Seq<char>> {
    args.map_values(|s: String| s@)
}

/// Reads the `uf2` flags from `args[i]` on, with `release` and `output` as
/// read so far: `--debug` selects the debug profile, `-o` / `--output` takes
/// the next argument (if any) as the output path, anything else is an
/// unknown argument.
pub open spec fn spec_parse_flags(
    args: Seq<Seq<char>>,
    i: int,
    release: bool,
    output: Option<Seq<char>>,
) -> XtaskCommandView
    decreases args.len() - i,
{
    if i < 0 || i >= args.len() {
        XtaskCommandView::Uf2 { release, output }
    } else if args[i] == "--debug"@ {
        spec_parse_flags(args, i + 1, false, output)
    } else if args[i] == "-o"@ || args[i] == "--output"@ {
        if i + 1 < args.len() {
            spec_parse_flags(args, i + 2, release, Some(args[i + 1]))
        } else {
            XtaskCommandView::Uf2 { release, output: None }
        }
    } else {
        XtaskCommandView::UnknownArg(args[i])
    }
}

/// The command that the arguments `args` (without the program name) ask
/// for: the first argument is the subcommand, `uf2` or empty (the default)
/// builds a UF2 image in release mode unless the flags say otherwise.
pub open spec fn spec_parse_args(args: Seq<Seq<char>>) -> XtaskCommandView {
    if args.len() == 0 {
        XtaskCommandView::Uf2 { release: true, output: None }
    } else if args[0] == "uf2"@ || args[0] == ""@ {
        spec_parse_flags(args, 1, true, None)
    } else {
        XtaskCommandView::UnknownSubcommand(args[0])
    }
}

/// Parses the build helper's arguments (without the program name).
pub fn parse_args(args: &Vec<String>) -> (r: XtaskCommand)
    ensures
        r@ == spec_parse_args(args_view(args@)),
{
    let ghost v = args_view(args@);
    let uf2 = "uf2".to_owned();
    let empty = "".to_owned();
    if args.len() > 0 && !(args[0] == uf2 || args[0] == empty) {
        return XtaskCommand::UnknownSubcommand(args[0].clone());
    }
    let debug = "--debug".to_owned();
    let short_output = "-o".to_owned();
    let long_output = "--output".to_owned();
    let mut release = true;
    let mut output: Option<String> = None;
    let mut i: usize = if args.len() > 0 {
        1
    } else {
        0
    };
    while i < args.len()
        invariant
            v == args_view(args@),
            v.len() == args@.len(),
            i <= args@.len(),
            debug@ == "--debug"@,
            short_output@ == "-o"@,
            long_output@ == "--output"@,
            spec_parse_flags(v, i as int, release, option_string_view(output)) == spec_parse_args(v),
        decreases args.len() - i,
    {
        assert(v[i as int] == args@[i as int]@);
        if args[i] == debug {
            release = false;
            i = i + 1;
        } else if args[i] == short_output || args[i] == long_output {
            if i + 1 < args.len() {
                assert(v[i + 1] == args@[i + 1]@);
                output = Some(args[i + 1].clone());
                i = i + 2;
            } else {
                output = None;
                i = args.len();
            }
        } else {
            return XtaskCommand::UnknownArg(args[i].clone());
        }
    }
    XtaskCommand::Uf2 { release, output }
}

/// A program to start: its name, its arguments and, if given, the directory
/// to start it in.
pub type Command = (String, Vec<String>, Option<String>);

/// `Command` with its strings taken as character sequences.
pub open spec fn command_view(c: Command) -> (Seq<char>, Seq<Seq<char>>, Option<Seq<char>>) {
    (c.0@, args_view(c.1@), option_string_view(c.2))
}

/// The path of `name` inside directory `dir`, with `/` as the separator.
pub open spec fn path_join(dir: Seq<char>, name: Seq<char>) -> Seq<char> {
    dir + "/"@ + name
}

/// The firmware crate's directory inside the repository at `root`.
pub open spec fn fw_dir(root: Seq<char>) -> Seq<char> {
    path_join(path_join(root, "crates"@), "ropk-fw"@)
}

/// The scripts directory inside the repository at `root`.
pub open spec fn scripts_dir(root: Seq<char>) -> Seq<char> {
    path_join(root, "scripts"@)
}

/// The UF2 conversion script inside the repository at `root`.
pub open spec fn uf2conv_path(root: Seq<char>) -> Seq<char> {
    path_join(path_join(scripts_dir(root), "microsoft_uf2_scripts"@), "uf2conv.py"@)
}

/// The raw firmware binary built with the release or the debug profile.
pub open spec fn bin_path(root: Seq<char>, release: bool) -> Seq<char> {
    path_join(
        path_join(
            path_join(path_join(fw_dir(root), "target"@), "thumbv7em-none-eabihf"@),
            if release {
                "release"@
            } else {
                "debug"@
            },
        ),
        "ropk-fw.bin"@,
    )
}

/// The UF2 image: `output` if given, else `ropk-fw.uf2` in the firmware
/// crate's directory.
pub open spec fn uf2_path(root: Seq<char>, output: Option<Seq<char>>) -> Seq<char> {
    match output {
        Some(o) => o,
        None => path_join(fw_dir(root), "ropk-fw.uf2"@),
    }
}

/// `--release` for a release build, nothing for a debug build.
pub open spec fn profile_flags(release: bool) -> Seq<Seq<char>> {
    if release {
        seq!["--release"@]
    } else {
        Seq::empty()
    }
}

/// The programs that build a UF2 image, in the order they run: build the
/// firmware, extract its raw binary, convert the binary to UF2 for the
/// nRF52840 at application base 0x26000.
pub open spec fn spec_uf2_commands(root: Seq<char>, release: bool, output: Option<Seq<char>>) -> Seq<
    (Seq<char>, Seq<Seq<char>>, Option<Seq<char>>),
> {
    seq![
        ("cargo"@, seq!["build"@] + profile_flags(release), Some(fw_dir(root))),
        (
            "cargo"@,
            seq!["objcopy"@] + profile_flags(release) + seq![
                "--"@,
                "-O"@,
                "binary"@,
                bin_path(root, release),
            ],
            Some(fw_dir(root)),
        ),
        (
            "uv"@,
            seq![
                "run"@,
                "--project"@,
                scripts_dir(root),
                uf2conv_path(root),
                "-f"@,
                "NRF52840"@,
                "-b"@,
                "0x26000"@,
                "-c"@,
                "-o"@,
                uf2_path(root, output),
                bin_path(root, release),
            ],
            None,
        ),
    ]
}

/// The path of `name` inside directory `dir`.
fn join(dir: &String, name: &str) -> (r: String)
    ensures
        r@ == path_join(dir@, name@),
{
    dir.clone().concat("/").concat(name)
}

/// `--release` for a release build, nothing for a debug build.
fn push_profile_flags(args: &mut Vec<String>, release: bool)
    ensures
        args_view(final(args)@) == args_view(old(args)@) + profile_flags(release),
{
    let ghost before = args_view(args@);
    if release {
        args.push("--release".to_owned());
    }
    assert(args_view(args@) =~= before + profile_flags(release));
}

/// Appends `s` to the arguments.
fn push_arg(args: &mut Vec<String>, s: String)
    ensures
        args_view(final(args)@) == args_view(old(args)@).push(s@),
{
    let ghost before = args_view(args@);
    args.push(s);
    assert(args_view(args@) =~= before.push(s@));
}

/// The programs that build a UF2 image of the firmware in the repository at
/// `root`, in the order they are to run, with the release profile when
/// `release` and the image written to `output` if given.
pub fn uf2_commands(root: &String, release: bool, output: Option<String>) -> (r: Vec<Command>)
    ensures
        r@.map_values(|c: Command| command_view(c)) == spec_uf2_commands(
            root@,
            release,
            option_string_view(output),
        ),
{
    let fw = join(&join(root, "crates"), "ropk-fw");
    let scripts = join(root, "scripts");
    let uf2conv = join(&join(&scripts, "microsoft_uf2_scripts"), "uf2conv.py");
    let profile = if release {
        "release"
    } else {
        "debug"
    };
    let bin = join(&join(&join(&join(&fw, "target"), "thumbv7em-none-eabihf"), profile), "ropk-fw.bin");
    let out = match output {
        Some(o) => o,
        None => join(&fw, "ropk-fw.uf2"),
    };
    assert(out@ == uf2_path(root@, option_string_view(output)));

    let mut build: Vec<String> = Vec::new();
    push_arg(&mut build, "build".to_owned());
    push_profile_flags(&mut build, release);

    let mut objcopy: Vec<String> = Vec::new();
    push_arg(&mut objcopy, "objcopy".to_owned());
    push_profile_flags(&mut objcopy, release);
    push_arg(&mut objcopy, "--".to_owned());
    push_arg(&mut objcopy, "-O".to_owned());
    push_arg(&mut objcopy, "binary".to_owned());
    push_arg(&mut objcopy, bin.clone());

    let mut convert: Vec<String> = Vec::new();
    push_arg(&mut convert, "run".to_owned());
    push_arg(&mut convert, "--project".to_owned());
    push_arg(&mut convert, scripts);
    push_arg(&mut convert, uf2conv);
    push_arg(&mut convert, "-f".to_owned());
    push_arg(&mut convert, "NRF52840".to_owned());
    push_arg(&mut convert, "-b".to_owned());
    push_arg(&mut convert, "0x26000".to_owned());
    push_arg(&mut convert, "-c".to_owned());
    push_arg(&mut convert, "-o".to_owned());
    push_arg(&mut convert, out);
    push_arg(&mut convert, bin);

    let mut r: Vec<Command> = Vec::new();
    r.push(("cargo".to_owned(), build, Some(fw.clone())));
    r.push(("cargo".to_owned(), objcopy, Some(fw)));
    r.push(("uv".to_owned(), convert, None));
    let ghost spec = spec_uf2_commands(root@, release, option_string_view(output));
    assert(command_view(r@[0]) == spec[0]);
    assert(command_view(r@[1]) == spec[1]);
    assert(command_view(r@[2]) == spec[2]);
    assert(r@.map_values(|c: Command| command_view(c)) =~= spec);
    r
}

/// The raw binary and the UF2 image that the commands of `uf2_commands`
/// write, for the same repository, profile and output.
pub fn uf2_paths(root: &String, release: bool, output: Option<String>) -> (r: (String, String))
    ensures
        r.0@ == bin_path(root@, release),
        r.1@ == uf2_path(root@, option_string_view(output)),
{
    let fw = join(&join(root, "crates"), "ropk-fw");
    let profile = if release {
        "release"
    } else {
        "debug"
    };
    let bin = join(&join(&join(&join(&fw, "target"), "thumbv7em-none-eabihf"), profile), "ropk-fw.bin");
    let out = match output {
        Some(o) => o,
        None => join(&fw, "ropk-fw.uf2"),
    };
    (bin, out)
}

/// Once the debug profile is chosen, no later flag brings the release
/// profile back: reading flags from a state with `release` false never ends
/// in a release build.
pub proof fn lemma_debug_is_kept(args: Seq<Seq<char>>, i: int, output: Option<Seq<char>>)
    ensures
        spec_parse_flags(args, i, false, output) matches XtaskCommandView::Uf2 { release, .. }
            ==> !release,
    decreases args.len() - i,
{
    if 0 <= i < args.len() {
        if args[i] == "--debug"@ {
            lemma_debug_is_kept(args, i + 1, output);
        } else if args[i] == "-o"@ || args[i] == "--output"@ {
            if i + 1 < args.len() {
                lemma_debug_is_kept(args, i + 2, Some(args[i + 1]));
            }
        }
    }
}

/// The release profile is only left through `--debug`: reading flags from a
/// state with `release` true ends in a debug build only if some argument from
/// `i` on is `--debug`.
pub proof fn lemma_debug_needs_flag(args: Seq<Seq<char>>, i: int, output: Option<Seq<char>>)
    ensures
        (spec_parse_flags(args, i, true, output) matches XtaskCommandView::Uf2 { release, .. }
            && !release) ==> exists|j: int| i <= j < args.len() && args[j] == "--debug"@,
    decreases args.len() - i,
{
    if 0 <= i < args.len() {
        if args[i] == "--debug"@ {
            assert(args[i] == "--debug"@);
        } else if args[i] == "-o"@ || args[i] == "--output"@ {
            if i + 1 < args.len() {
                lemma_debug_needs_flag(args, i + 2, Some(args[i + 1]));
                if spec_parse_flags(args, i + 2, true, Some(args[i + 1])) matches XtaskCommandView::Uf2 { release, .. } && !release {
                    let j = choose|j: int| i + 2 <= j < args.len() && args[j] == "--debug"@;
                    assert(i <= j < args.len() && args[j] == "--debug"@);
                }
            }
        }
    }
}

/// A `uf2` command line whose first flag is `--debug` builds with the debug
/// profile, whatever follows (an output path included).
pub proof fn lemma_debug_flag_selects_debug(rest: Seq<Seq<char>>)
    ensures
        spec_parse_args(seq!["uf2"@, "--debug"@] + rest) matches XtaskCommandView::Uf2 {
            release,
            ..
        } ==> !release,
{
    let args = seq!["uf2"@, "--debug"@] + rest;
    assert(args[0] == "uf2"@);
    assert(args[1] == "--debug"@);
    lemma_debug_is_kept(args, 2, None);
}

/// Both cargo steps (build and objcopy) run in the firmware crate's
/// directory, for either profile; the build passes `--release` exactly for a
/// release build; and the binary that objcopy writes is the one that the
/// UF2 conversion reads.
pub proof fn lemma_uf2_commands_agree(root: Seq<char>, release: bool, output: Option<Seq<char>>)
    ensures
        ({
            let c = spec_uf2_commands(root, release, output);
            let fw = path_join(path_join(root, "crates"@), "ropk-fw"@);
            &&& c.len() == 3
            &&& c[0].0 == "cargo"@ && c[1].0 == "cargo"@ && c[2].0 == "uv"@
            &&& c[0].2 == Some(fw)
            &&& c[1].2 == Some(fw)
            &&& c[0].1 == (if release {
                seq!["build"@, "--release"@]
            } else {
                seq!["build"@]
            })
            &&& c[1].1.last() == c[2].1.last()
            &&& c[2].1[10] == (match output {
                Some(o) => o,
                None => path_join(fw, "ropk-fw.uf2"@),
            })
        }),
        spec_uf2_commands(root, true, output)[0].2 == spec_uf2_commands(root, false, output)[0].2,
{
    let c = spec_uf2_commands(root, release, output);
    assert(c[0].1 =~= (if release {
        seq!["build"@, "--release"@]
    } else {
        seq!["build"@]
    }));
}

} // verus!
