//! The command line: the program takes one argument, the build command.

use vstd::prelude::*;

verus! {

/// What clap reports when it refuses a command line (or is asked for help):
/// the text to print, the exit code, and whether the text goes to stderr.
#[derive(Debug)]
pub struct ClapFailure {
    pub message: String,
    pub exit_code: i32,
    pub use_stderr: bool,
}

/// The arguments of the program.
#[derive(Debug)]
pub struct Args {
    /// The build command.
    pub build_command: String,
}

/// Why the command line was refused.
#[derive(Debug)]
pub enum CliError {
    /// clap refused the command line (this includes a request for help).
    Clap(ClapFailure),
    /// clap accepted the command line without a build command.
    MissingBuildCommand,
}

/// What clap's parser, configured with one required positional argument
/// `BUILD_COMMAND` that takes a non-empty string, makes of the command line
/// `args` (the program's name first): the value it matched, if any, or the
/// text it renders for a refusal (or for a request for help) and whether that
/// text goes to stderr.
pub uninterp spec fn clap_outcome(args: Seq<Seq<char>>) -> Result<Option<Seq<char>>, (Seq<char>, bool)>;

/// The command line as sequences of characters.
pub open spec fn argv(args: Seq<String>) -> Seq<Seq<char>> {
    args.map_values(|s: String| s@)
}

/// The exit code that clap gives a refusal: 2 for one that goes to stderr (a
/// usage error), 0 for one that goes to stdout (help).
pub open spec fn clap_exit_code(use_stderr: bool) -> i32 {
    if use_stderr {
        2
    } else {
        0
    }
}

/// Whether clap refused a command line with a usage error, on stderr.
pub open spec fn is_usage_error(r: Result<Option<String>, ClapFailure>) -> bool {
    r matches Err(f) && f.use_stderr
}

/// `clap::Command::try_get_matches_from`, with the program's one argument
/// declared, then `ArgMatches::remove_one` for that argument: the outcome is
/// named by [`clap_outcome`]. A refusal is handed back as the text that clap
/// renders for it, whether it goes to stderr, and `Error::exit_code`, which
/// is 2 for stderr and 0 otherwise. A command line without the required
/// argument (nothing after the program's name) is refused as a usage error,
/// on stderr.
#[verifier::external_body]
fn match_build_command(args: &Vec<String>) -> (r: Result<Option<String>, ClapFailure>)
    ensures
        match r {
            Ok(Some(s)) => clap_outcome(argv(args@)) matches Ok(Some(t)) && t == s@,
            Ok(None) => clap_outcome(argv(args@)) matches Ok(None),
            Err(f) => clap_outcome(argv(args@)) matches Err((message, use_stderr)) && message
                == f.message@ && use_stderr == f.use_stderr && f.exit_code == clap_exit_code(
                use_stderr,
            ),
        },
        args@.len() <= 1 ==> is_usage_error(r),
{
    let arg = clap::Arg::new("build_command").value_name("BUILD_COMMAND").help("The build command")
        .required(true).value_parser(clap::builder::NonEmptyStringValueParser::new());
    let command = clap::Command::new("conveyorbelt").arg(arg);
    match command.try_get_matches_from(args.iter()) {
        Ok(mut matches) => Ok(matches.remove_one::<String>("build_command")),
        Err(e) => Err(ClapFailure {
            message: e.render().to_string(),
            exit_code: e.exit_code(),
            use_stderr: e.use_stderr(),
        }),
    }
}

/// Parses the command line `args` (the program's name first) into the
/// program's arguments. A refusal carries clap's text, stream and exit code
/// unchanged; a command line with nothing after the program's name is a
/// usage error, on stderr with exit code 2.
pub fn parse(args: &Vec<String>) -> (r: Result<Args, CliError>)
    ensures
        match clap_outcome(argv(args@)) {
            Err((message, use_stderr)) => r matches Err(CliError::Clap(f)) && f.message@ == message
                && f.use_stderr == use_stderr && f.exit_code == clap_exit_code(use_stderr),
            Ok(None) => r matches Err(CliError::MissingBuildCommand),
            Ok(Some(command)) => r matches Ok(parsed) && parsed.build_command@ == command,
        },
        args@.len() <= 1 ==> (r matches Err(CliError::Clap(f)) && f.use_stderr && f.exit_code == 2),
{
    match match_build_command(args) {
        Ok(Some(build_command)) => Ok(Args { build_command }),
        Ok(None) => Err(CliError::MissingBuildCommand),
        Err(failure) => Err(CliError::Clap(failure)),
    }
}

} // verus!
