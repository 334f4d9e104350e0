//! Command-line arguments as plain values, and a verified parser for
//! them. The parser consumes the argument tokens after the program name
//! and either fills a `Cli` or reports the first offending token.

use vstd::prelude::*;

verus! {

/// The parsed command line.
pub struct Cli {
    /// Filepath
    pub file_path: Option<String>,
    /// Follow (tail) the contents of the file
    pub follow: bool,
    /// Print the output to stdout
    pub to_stdout: bool,
    /// Path to a custom configuration file
    pub config_path: Option<String>,
    /// Listens to stdout of the provided command and traps interrupt
    /// events from reaching the command
    pub listen_command: Option<String>,
    /// Generate a new configuration file
    pub create_default_config: bool,
    /// Print the default configuration
    pub show_default_config: bool,
    /// Print completions to stdout
    pub generate_shell_completions: Option<String>,
}

/// The model of a parsed command line, over mathematical strings.
pub struct CliModel {
    pub file_path: Option<Seq<char>>,
    pub follow: bool,
    pub to_stdout: bool,
    pub config_path: Option<Seq<char>>,
    pub listen_command: Option<Seq<char>>,
    pub create_default_config: bool,
    pub show_default_config: bool,
    pub generate_shell_completions: Option<Seq<char>>,
}

impl View for Cli {
    type V = CliModel;

    open spec fn view(&self) -> CliModel {
        CliModel {
            file_path: self.file_path.deep_view(),
            follow: self.follow,
            to_stdout: self.to_stdout,
            config_path: self.config_path.deep_view(),
            listen_command: self.listen_command.deep_view(),
            create_default_config: self.create_default_config,
            show_default_config: self.show_default_config,
            generate_shell_completions: self.generate_shell_completions.deep_view(),
        }
    }
}

/// Why a command line was rejected.
#[derive(Clone, Copy, Debug, PartialEq, Eq, Structural)]
pub enum CliError {
    /// A token started with `-` but is no known flag.
    UnknownFlag,
    /// A flag that takes a value stood last, with no value after it.
    MissingValue,
    /// A second positional argument after the file path.
    UnexpectedArgument,
    /// `--print` together with `--follow`, or `--show-default-config`
    /// together with `--create-default-config`.
    ConflictingFlags,
}

pub open spec fn empty_cli() -> CliModel {
    CliModel {
        file_path: None,
        follow: false,
        to_stdout: false,
        config_path: None,
        listen_command: None,
        create_default_config: false,
        show_default_config: false,
        generate_shell_completions: None,
    }
}

/// A token that looks like a flag: non-empty and starting with `-`.
pub open spec fn flag_like(t: Seq<char>) -> bool {
    t.len() > 0 && t[0] == '-'
}

/// The flag conflicts the parser rejects once all tokens are consumed.
pub open spec fn has_conflict(c: CliModel) -> bool {
    (c.follow && c.to_stdout) || (c.create_default_config && c.show_default_config)
}

/// What parsing the remaining tokens on top of the arguments gathered so
/// far yields. Flags may repeat; a flag that takes a value takes the very
/// next token, whatever it looks like; the single positional token is the
/// file path.
pub open spec fn parse_from(acc: CliModel, toks: Seq<Seq<char>>) -> Result<CliModel, CliError>
    decreases toks.len(),
{
    if toks.len() == 0 {
        if has_conflict(acc) {
            Err(CliError::ConflictingFlags)
        } else {
            Ok(acc)
        }
    } else {
        let t = toks[0];
        let rest = toks.drop_first();
        if t == "-f"@ || t == "--follow"@ {
            parse_from(CliModel { follow: true, ..acc }, rest)
        } else if t == "-p"@ || t == "--print"@ {
            parse_from(CliModel { to_stdout: true, ..acc }, rest)
        } else if t == "--create-default-config"@ {
            parse_from(CliModel { create_default_config: true, ..acc }, rest)
        } else if t == "--show-default-config"@ {
            parse_from(CliModel { show_default_config: true, ..acc }, rest)
        } else if t == "-c"@ || t == "--config-path"@ {
            if toks.len() == 1 {
                Err(CliError::MissingValue)
            } else {
                parse_from(CliModel { config_path: Some(toks[1]), ..acc }, rest.drop_first())
            }
        } else if t == "-l"@ || t == "--listen-command"@ {
            if toks.len() == 1 {
                Err(CliError::MissingValue)
            } else {
                parse_from(CliModel { listen_command: Some(toks[1]), ..acc }, rest.drop_first())
            }
        } else if t == "--z-generate-shell-completions"@ {
            if toks.len() == 1 {
                Err(CliError::MissingValue)
            } else {
                parse_from(
                    CliModel { generate_shell_completions: Some(toks[1]), ..acc },
                    rest.drop_first(),
                )
            }
        } else if flag_like(t) {
            Err(CliError::UnknownFlag)
        } else if acc.file_path is Some {
            Err(CliError::UnexpectedArgument)
        } else {
            parse_from(CliModel { file_path: Some(t), ..acc }, rest)
        }
    }
}

/// What a full parse of the tokens after the program name yields.
pub open spec fn parse_spec(toks: Seq<Seq<char>>) -> Result<CliModel, CliError> {
    parse_from(empty_cli(), toks)
}

/// The shells completions can be generated for.
#[derive(Clone, Copy, Debug, PartialEq, Eq, Structural)]
pub enum ShellKind {
    Bash,
    Zsh,
    Fish,
}

/// Which shell a completion request names; any other token asks for
/// nothing and the run prints nothing.
pub open spec fn shell_kind_spec(t: Seq<char>) -> Option<ShellKind> {
    if t == "bash"@ {
        Some(ShellKind::Bash)
    } else if t == "zsh"@ {
        Some(ShellKind::Zsh)
    } else if t == "fish"@ {
        Some(ShellKind::Fish)
    } else {
        None
    }
}

pub fn shell_kind(tok: &String) -> (r: Option<ShellKind>)
    ensures
        r == shell_kind_spec(tok@),
{
    if token_is(tok, "bash") {
        Some(ShellKind::Bash)
    } else if token_is(tok, "zsh") {
        Some(ShellKind::Zsh)
    } else if token_is(tok, "fish") {
        Some(ShellKind::Fish)
    } else {
        None
    }
}

fn token_is(tok: &String, flag: &str) -> (r: bool)
    ensures
        r == (tok@ == flag@),
{
    let f = String::from_str(flag);
    tok.eq(&f)
}

fn token_flag_like(tok: &String) -> (r: bool)
    ensures
        r == flag_like(tok@),
{
    let s = tok.as_str();
    if s.unicode_len() == 0 {
        false
    } else {
        s.get_char(0) == '-'
    }
}

/// Parses the argument tokens that follow the program name. The result is
/// exactly what `parse_spec` says of the tokens' views.
pub fn get_args(args: &Vec<String>) -> (r: Result<Cli, CliError>)
    ensures
        (match r {
            Ok(c) => Ok(c@),
            Err(e) => Err::<CliModel, CliError>(e),
        }) == parse_spec(args.deep_view()),
{
    let ghost toks: Seq<Seq<char>> = args.deep_view();
    let mut acc = Cli {
        file_path: None,
        follow: false,
        to_stdout: false,
        config_path: None,
        listen_command: None,
        create_default_config: false,
        show_default_config: false,
        generate_shell_completions: None,
    };
    assert(acc@ == empty_cli());
    assert(toks.skip(0) =~= toks);
    let mut i: usize = 0;
    while i < args.len()
        invariant
            toks == args.deep_view(),
            i <= args.len(),
            toks.len() == args.len(),
            forall|j: int| 0 <= j < toks.len() ==> toks[j] == args[j]@,
            parse_from(acc@, toks.skip(i as int)) == parse_spec(toks),
        decreases args.len() - i,
    {
        let tok = &args[i];
        let ghost rem = toks.skip(i as int);
        proof {
            assert(rem.len() > 0);
            assert(rem[0] == tok@);
            assert(rem.drop_first() =~= toks.skip(i + 1));
        }
        if token_is(tok, "-f") || token_is(tok, "--follow") {
            acc.follow = true;
            i = i + 1;
        } else if token_is(tok, "-p") || token_is(tok, "--print") {
            acc.to_stdout = true;
            i = i + 1;
        } else if token_is(tok, "--create-default-config") {
            acc.create_default_config = true;
            i = i + 1;
        } else if token_is(tok, "--show-default-config") {
            acc.show_default_config = true;
            i = i + 1;
        } else if token_is(tok, "-c") || token_is(tok, "--config-path") {
            if i + 1 == args.len() {
                return Err(CliError::MissingValue);
            }
            proof {
                assert(rem[1] == toks[i + 1]);
                assert(rem.drop_first().drop_first() =~= toks.skip(i + 2));
            }
            acc.config_path = Some(args[i + 1].clone());
            i = i + 2;
        } else if token_is(tok, "-l") || token_is(tok, "--listen-command") {
            if i + 1 == args.len() {
                return Err(CliError::MissingValue);
            }
            proof {
                assert(rem[1] == toks[i + 1]);
                assert(rem.drop_first().drop_first() =~= toks.skip(i + 2));
            }
            acc.listen_command = Some(args[i + 1].clone());
            i = i + 2;
        } else if token_is(tok, "--z-generate-shell-completions") {
            if i + 1 == args.len() {
                return Err(CliError::MissingValue);
            }
            proof {
                assert(rem[1] == toks[i + 1]);
                assert(rem.drop_first().drop_first() =~= toks.skip(i + 2));
            }
            acc.generate_shell_completions = Some(args[i + 1].clone());
            i = i + 2;
        } else if token_flag_like(tok) {
            return Err(CliError::UnknownFlag);
        } else if acc.file_path.is_some() {
            return Err(CliError::UnexpectedArgument);
        } else {
            acc.file_path = Some(tok.clone());
            i = i + 1;
        }
    }
    proof {
        assert(toks.skip(args.len() as int) =~= Seq::<Seq<char>>::empty());
    }
    if acc.follow && acc.to_stdout {
        return Err(CliError::ConflictingFlags);
    }
    if acc.create_default_config && acc.show_default_config {
        return Err(CliError::ConflictingFlags);
    }
    Ok(acc)
}

} // verus!
