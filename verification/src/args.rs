//! The command line: an optional configuration file, then an optional
//! command with its arguments.
//!
//! ```text
//! arguments := program option* ["--" | command]
//! option    := ("-c" | "--config") PATH
//!            | "--config=" TEXT | "-c=" TEXT | "-c" TEXT
//!            | "-h" | "--help" | "-V" | "--version"
//! command   := "vote" names | "unvote" names | "check" names
//!            | "unvote-all" none | "list" none | "autovote" none
//!            | "create-config" path | "check-config" path
//!            | "help" ...
//! names     := NAME+ ["--" ANY*] | NAME* "--" ANY+
//! path      := PATH ["--"] | "--" ANY
//! none      := ["--"]
//! ```
//!
//! A `NAME` or `PATH` is an argument that is no flag: it does not begin
//! with `-`, or is `-` alone. After `--` any argument is taken as it is.
//! `-h` and `--help` among the arguments of a command ask for the help
//! text, as does the command `help`.

use crate::text::{after_prefix, chars_of, concat, same_text, without_prefix};
use vstd::prelude::*;

verus! {

/// Where the configuration file lies below the home directory.
pub const CONFIG_FILE_IN_HOME: &'static str = "/.config/aur-thumbsup.toml";

/// The configuration file that is used where the command line names none.
pub fn default_config_file(home: &str) -> (r: String)
    ensures
        r@ == home@ + CONFIG_FILE_IN_HOME@,
{
    concat(home, CONFIG_FILE_IN_HOME)
}

/// What the command line asks for.
#[derive(PartialEq, Eq, Debug)]
pub struct Arguments {
    /// The configuration file.
    pub config: String,
    pub cmd: Option<Commands>,
}

/// The commands.
#[derive(PartialEq, Eq, Debug)]
pub enum Commands {
    /// Vote for packages.
    Vote { packages: Vec<String> },
    /// Unvote packages.
    Unvote { packages: Vec<String> },
    /// Unvote all voted packages.
    UnvoteAll {  },
    /// Check for voted packages.
    Check { packages: Vec<String> },
    /// List all voted packages.
    List {  },
    /// Vote and unvote according to the installed packages.
    Autovote {  },
    /// Create a configuration file.
    CreateConfig { path: String },
    /// Check a configuration file.
    CheckConfig { path: String },
}

/// A command, as the texts that it holds.
pub enum CommandsView {
    Vote { packages: Seq<Seq<char>> },
    Unvote { packages: Seq<Seq<char>> },
    UnvoteAll,
    Check { packages: Seq<Seq<char>> },
    List,
    Autovote,
    CreateConfig { path: Seq<char> },
    CheckConfig { path: Seq<char> },
}

impl View for Commands {
    type V = CommandsView;

    open spec fn view(&self) -> CommandsView {
        match self {
            Commands::Vote { packages } => CommandsView::Vote { packages: packages.deep_view() },
            Commands::Unvote { packages } => CommandsView::Unvote {
                packages: packages.deep_view(),
            },
            Commands::UnvoteAll {  } => CommandsView::UnvoteAll,
            Commands::Check { packages } => CommandsView::Check { packages: packages.deep_view() },
            Commands::List {  } => CommandsView::List,
            Commands::Autovote {  } => CommandsView::Autovote,
            Commands::CreateConfig { path } => CommandsView::CreateConfig { path: path@ },
            Commands::CheckConfig { path } => CommandsView::CheckConfig { path: path@ },
        }
    }
}

/// What the command line asks for, as the texts that it holds.
pub struct ArgumentsView {
    pub config: Seq<char>,
    pub cmd: Option<CommandsView>,
}

impl View for Arguments {
    type V = ArgumentsView;

    open spec fn view(&self) -> ArgumentsView {
        ArgumentsView {
            config: self.config@,
            cmd: match self.cmd {
                Some(cmd) => Some(cmd@),
                None => None,
            },
        }
    }
}

/// Why a command line was refused, or what it asks for in place of a
/// command.
#[derive(PartialEq, Eq, Debug, Clone, Copy)]
pub enum ArgError {
    /// The help text is asked for.
    Help,
    /// The version is asked for.
    Version,
    /// The configuration file is named twice.
    RepeatedOption,
    /// The option for the configuration file is not followed by a path.
    MissingValue,
    /// A flag that is not known, or one that stands where a name is due.
    UnknownFlag,
    /// A command that is not known.
    UnknownCommand,
    /// The command lacks the packages or the path that it needs.
    MissingArgument,
    /// The command is followed by more than it takes.
    UnexpectedArgument,
}

/// What to tell the user of a command line that was refused; nothing for
/// one that asks for the help text or the version.
pub open spec fn arg_error_text(e: ArgError) -> Seq<char> {
    match e {
        ArgError::Help => ""@,
        ArgError::Version => ""@,
        ArgError::RepeatedOption => "the configuration file is given more than once"@,
        ArgError::MissingValue => "the option for the configuration file needs a path"@,
        ArgError::UnknownFlag => "found a flag that is not known"@,
        ArgError::UnknownCommand => "found a subcommand that is not known"@,
        ArgError::MissingArgument => "the subcommand lacks an argument that it needs"@,
        ArgError::UnexpectedArgument => "found an argument that was not expected"@,
    }
}

impl ArgError {
    /// What to tell the user of a command line that was refused.
    pub fn message(&self) -> (r: String)
        ensures
            r@ == arg_error_text(*self),
    {
        match self {
            ArgError::Help => "".to_owned(),
            ArgError::Version => "".to_owned(),
            ArgError::RepeatedOption => {
                "the configuration file is given more than once".to_owned()
            },
            ArgError::MissingValue => {
                "the option for the configuration file needs a path".to_owned()
            },
            ArgError::UnknownFlag => "found a flag that is not known".to_owned(),
            ArgError::UnknownCommand => "found a subcommand that is not known".to_owned(),
            ArgError::MissingArgument => {
                "the subcommand lacks an argument that it needs".to_owned()
            },
            ArgError::UnexpectedArgument => "found an argument that was not expected".to_owned(),
        }
    }
}

/// The help text.
pub const USAGE: &'static str = "USAGE:
    aur-thumbsup [OPTIONS] [SUBCOMMAND]

OPTIONS:
    -c, --config <CONFIG>    Configuration file
    -h, --help               Print help information
    -V, --version            Print version information

SUBCOMMANDS:
    autovote         Vote/Unvote for installed packages
    check            Check for voted packages
    check-config     Check configuration file
    create-config    Create configuration file
    help             Print this message
    list             List all voted packages
    unvote           Unvote packages
    unvote-all       Unvote for all installed packages
    vote             Vote for packages";

/// Whether an argument is a flag: it begins with `-` and is longer.
pub open spec fn is_flag(arg: Seq<char>) -> bool {
    arg.len() >= 2 && arg[0] == '-'
}

/// Whether an argument is a flag.
pub fn flag(arg: &str) -> (r: bool)
    ensures
        r == is_flag(arg@),
{
    let v = chars_of(arg);
    v.len() >= 2 && v[0] == '-'
}

/// What `r` gives, with `front` before it.
pub open spec fn after(front: Seq<Seq<char>>, r: Result<Seq<Seq<char>>, ArgError>) -> Result<
    Seq<Seq<char>>,
    ArgError,
> {
    match r {
        Ok(more) => Ok(front + more),
        Err(e) => Err(e),
    }
}

/// The operands among the arguments of a command: the arguments up to the
/// first `--`, none of which may be a flag, and all that follow it. A
/// flag for help among the first asks for the help text.
pub open spec fn operands(rest: Seq<Seq<char>>) -> Result<Seq<Seq<char>>, ArgError>
    decreases rest.len(),
{
    if rest.len() == 0 {
        Ok(Seq::empty())
    } else if rest[0] == "--"@ {
        Ok(rest.drop_first())
    } else if rest[0] == "-h"@ || rest[0] == "--help"@ {
        Err(ArgError::Help)
    } else if is_flag(rest[0]) {
        Err(ArgError::UnknownFlag)
    } else {
        after(seq![rest[0]], operands(rest.drop_first()))
    }
}

/// The packages of a command that takes one or more.
pub open spec fn package_arguments(rest: Seq<Seq<char>>) -> Result<Seq<Seq<char>>, ArgError> {
    match operands(rest) {
        Err(e) => Err(e),
        Ok(packages) => if packages.len() == 0 {
            Err(ArgError::MissingArgument)
        } else {
            Ok(packages)
        },
    }
}

/// The path of a command that takes exactly one.
pub open spec fn path_argument(rest: Seq<Seq<char>>) -> Result<Seq<char>, ArgError> {
    match operands(rest) {
        Err(e) => Err(e),
        Ok(paths) => if paths.len() == 0 {
            Err(ArgError::MissingArgument)
        } else if paths.len() > 1 {
            Err(ArgError::UnexpectedArgument)
        } else {
            Ok(paths[0])
        },
    }
}

/// A command that takes nothing.
pub open spec fn no_argument(rest: Seq<Seq<char>>, cmd: CommandsView) -> Result<
    CommandsView,
    ArgError,
> {
    match operands(rest) {
        Err(e) => Err(e),
        Ok(more) => if more.len() == 0 {
            Ok(cmd)
        } else {
            Err(ArgError::UnexpectedArgument)
        },
    }
}

/// The command named `name`, followed by `rest`.
pub open spec fn command(name: Seq<char>, rest: Seq<Seq<char>>) -> Result<CommandsView, ArgError> {
    if name == "vote"@ {
        match package_arguments(rest) {
            Ok(packages) => Ok(CommandsView::Vote { packages }),
            Err(e) => Err(e),
        }
    } else if name == "unvote"@ {
        match package_arguments(rest) {
            Ok(packages) => Ok(CommandsView::Unvote { packages }),
            Err(e) => Err(e),
        }
    } else if name == "check"@ {
        match package_arguments(rest) {
            Ok(packages) => Ok(CommandsView::Check { packages }),
            Err(e) => Err(e),
        }
    } else if name == "unvote-all"@ {
        no_argument(rest, CommandsView::UnvoteAll)
    } else if name == "list"@ {
        no_argument(rest, CommandsView::List)
    } else if name == "autovote"@ {
        no_argument(rest, CommandsView::Autovote)
    } else if name == "create-config"@ {
        match path_argument(rest) {
            Ok(path) => Ok(CommandsView::CreateConfig { path }),
            Err(e) => Err(e),
        }
    } else if name == "check-config"@ {
        match path_argument(rest) {
            Ok(path) => Ok(CommandsView::CheckConfig { path }),
            Err(e) => Err(e),
        }
    } else if name == "help"@ {
        Err(ArgError::Help)
    } else {
        Err(ArgError::UnknownCommand)
    }
}

/// The configuration file that an argument of the form `--config=TEXT`
/// names.
pub open spec fn long_value(arg: Seq<char>) -> Option<Seq<char>> {
    without_prefix(arg, "--config="@)
}

/// The configuration file that an argument of the form `-cTEXT` or
/// `-c=TEXT` names.
pub open spec fn short_value(arg: Seq<char>) -> Option<Seq<char>> {
    match without_prefix(arg, "-c"@) {
        None => None,
        Some(rest) => match without_prefix(rest, "="@) {
            Some(path) => Some(path),
            None => Some(rest),
        },
    }
}

/// The arguments from index `i` on, where `config` is the configuration
/// file named so far and `fallback` the one to use where none is named.
pub open spec fn arguments_from(
    args: Seq<Seq<char>>,
    i: int,
    config: Option<Seq<char>>,
    fallback: Seq<char>,
) -> Result<ArgumentsView, ArgError>
    decreases args.len() - i,
{
    let chosen = match config {
        Some(path) => path,
        None => fallback,
    };
    if i < 0 || i >= args.len() {
        Ok(ArgumentsView { config: chosen, cmd: None })
    } else if args[i] == "-h"@ || args[i] == "--help"@ {
        Err(ArgError::Help)
    } else if args[i] == "-V"@ || args[i] == "--version"@ {
        Err(ArgError::Version)
    } else if args[i] == "-c"@ || args[i] == "--config"@ {
        if config is Some {
            Err(ArgError::RepeatedOption)
        } else if i + 1 >= args.len() || is_flag(args[i + 1]) {
            Err(ArgError::MissingValue)
        } else {
            arguments_from(args, i + 2, Some(args[i + 1]), fallback)
        }
    } else if long_value(args[i]) is Some {
        if config is Some {
            Err(ArgError::RepeatedOption)
        } else {
            arguments_from(args, i + 1, long_value(args[i]), fallback)
        }
    } else if short_value(args[i]) is Some {
        if config is Some {
            Err(ArgError::RepeatedOption)
        } else {
            arguments_from(args, i + 1, short_value(args[i]), fallback)
        }
    } else if args[i] == "--"@ {
        if i + 1 >= args.len() {
            Ok(ArgumentsView { config: chosen, cmd: None })
        } else {
            Err(ArgError::UnexpectedArgument)
        }
    } else if is_flag(args[i]) {
        Err(ArgError::UnknownFlag)
    } else {
        match command(args[i], args.skip(i + 1)) {
            Ok(cmd) => Ok(ArgumentsView { config: chosen, cmd: Some(cmd) }),
            Err(e) => Err(e),
        }
    }
}

/// What a command line asks for. The first argument is the name of the
/// program and is passed over.
pub open spec fn parsed_arguments(args: Seq<Seq<char>>, fallback: Seq<char>) -> Result<
    ArgumentsView,
    ArgError,
> {
    arguments_from(args, 1, None, fallback)
}

/// The arguments from index `from` on.
fn rest_of(args: &Vec<String>, from: usize) -> (r: Vec<String>)
    requires
        from <= args.len(),
    ensures
        r.deep_view() == args.deep_view().skip(from as int),
{
    let mut r: Vec<String> = Vec::new();
    let mut i: usize = from;
    while i < args.len()
        invariant
            from <= i <= args.len(),
            r.len() == i - from,
            forall|j: int| 0 <= j < r.len() ==> r@[j]@ == args@[j + from]@,
        decreases args.len() - i,
    {
        r.push(args[i].clone());
        i += 1;
    }
    assert(r.deep_view() =~= args.deep_view().skip(from as int));
    r
}

/// The operands among the arguments of a command.
pub fn operands_of(rest: &Vec<String>) -> (r: Result<Vec<String>, ArgError>)
    ensures
        match r {
            Ok(found) => operands(rest.deep_view()) == Ok::<Seq<Seq<char>>, ArgError>(
                found.deep_view(),
            ),
            Err(e) => operands(rest.deep_view()) == Err::<Seq<Seq<char>>, ArgError>(e),
        },
{
    let ghost all = rest.deep_view();
    let mut found: Vec<String> = Vec::new();
    let mut i: usize = 0;
    proof {
        assert(all.skip(0) =~= all);
        assert(found.deep_view() =~= Seq::<Seq<char>>::empty());
        match operands(all) {
            Ok(more) => {
                assert(Seq::<Seq<char>>::empty() + more =~= more);
            },
            Err(_) => {},
        }
    }
    while i < rest.len()
        invariant
            i <= rest.len(),
            all == rest.deep_view(),
            after(found.deep_view(), operands(all.skip(i as int))) == operands(all),
        decreases rest.len() - i,
    {
        let arg = rest[i].as_str();
        proof {
            assert(all.skip(i as int)[0] == arg@);
            assert(all.skip(i as int).drop_first() =~= all.skip(i + 1));
        }
        if same_text(arg, "--") {
            let tail = rest_of(rest, i + 1);
            let ghost front = found.deep_view();
            let mut j: usize = 0;
            while j < tail.len()
                invariant
                    j <= tail.len(),
                    found.deep_view() == front + tail.deep_view().take(j as int),
                decreases tail.len() - j,
            {
                let ghost before = found.deep_view();
                found.push(tail[j].clone());
                proof {
                    assert(found.deep_view() =~= before.push(tail@[j as int]@));
                    assert(tail.deep_view().take(j + 1) =~= tail.deep_view().take(j as int).push(
                        tail@[j as int]@,
                    ));
                    assert(before.push(tail@[j as int]@) =~= front + tail.deep_view().take(j + 1));
                }
                j += 1;
            }
            assert(tail.deep_view().take(tail.len() as int) =~= tail.deep_view());
            return Ok(found);
        }
        if same_text(arg, "-h") || same_text(arg, "--help") {
            return Err(ArgError::Help);
        }
        if flag(arg) {
            return Err(ArgError::UnknownFlag);
        }
        let ghost before = found.deep_view();
        found.push(rest[i].clone());
        proof {
            assert(found.deep_view() =~= before.push(arg@));
            match operands(all.skip(i + 1)) {
                Ok(more) => {
                    assert(before + (seq![arg@] + more) =~= before.push(arg@) + more);
                },
                Err(_) => {},
            }
        }
        i += 1;
    }
    proof {
        assert(found.deep_view() + Seq::<Seq<char>>::empty() =~= found.deep_view());
    }
    Ok(found)
}

fn packages_of(rest: Vec<String>) -> (r: Result<Vec<String>, ArgError>)
    ensures
        match r {
            Ok(packages) => package_arguments(rest.deep_view()) == Ok::<
                Seq<Seq<char>>,
                ArgError,
            >(packages.deep_view()),
            Err(e) => package_arguments(rest.deep_view()) == Err::<Seq<Seq<char>>, ArgError>(e),
        },
{
    match operands_of(&rest) {
        Err(e) => Err(e),
        Ok(packages) => {
            if packages.len() == 0 {
                Err(ArgError::MissingArgument)
            } else {
                Ok(packages)
            }
        },
    }
}

fn path_of(rest: Vec<String>) -> (r: Result<String, ArgError>)
    ensures
        match r {
            Ok(path) => path_argument(rest.deep_view()) == Ok::<Seq<char>, ArgError>(path@),
            Err(e) => path_argument(rest.deep_view()) == Err::<Seq<char>, ArgError>(e),
        },
{
    match operands_of(&rest) {
        Err(e) => Err(e),
        Ok(paths) => {
            if paths.len() == 0 {
                Err(ArgError::MissingArgument)
            } else if paths.len() > 1 {
                Err(ArgError::UnexpectedArgument)
            } else {
                assert(paths.deep_view()[0] == paths@[0]@);
                Ok(paths[0].clone())
            }
        },
    }
}

fn nothing_of(rest: Vec<String>, cmd: Commands) -> (r: Result<Commands, ArgError>)
    ensures
        match r {
            Ok(c) => no_argument(rest.deep_view(), cmd@) == Ok::<CommandsView, ArgError>(c@),
            Err(e) => no_argument(rest.deep_view(), cmd@) == Err::<CommandsView, ArgError>(e),
        },
{
    match operands_of(&rest) {
        Err(e) => Err(e),
        Ok(more) => {
            if more.len() == 0 {
                Ok(cmd)
            } else {
                Err(ArgError::UnexpectedArgument)
            }
        },
    }
}

/// The command named `name`, followed by the arguments `rest`.
pub fn parse_command(name: &str, rest: Vec<String>) -> (r: Result<Commands, ArgError>)
    ensures
        match r {
            Ok(cmd) => command(name@, rest.deep_view()) == Ok::<CommandsView, ArgError>(cmd@),
            Err(e) => command(name@, rest.deep_view()) == Err::<CommandsView, ArgError>(e),
        },
{
    if same_text(name, "vote") {
        match packages_of(rest) {
            Ok(packages) => Ok(Commands::Vote { packages }),
            Err(e) => Err(e),
        }
    } else if same_text(name, "unvote") {
        match packages_of(rest) {
            Ok(packages) => Ok(Commands::Unvote { packages }),
            Err(e) => Err(e),
        }
    } else if same_text(name, "check") {
        match packages_of(rest) {
            Ok(packages) => Ok(Commands::Check { packages }),
            Err(e) => Err(e),
        }
    } else if same_text(name, "unvote-all") {
        nothing_of(rest, Commands::UnvoteAll {  })
    } else if same_text(name, "list") {
        nothing_of(rest, Commands::List {  })
    } else if same_text(name, "autovote") {
        nothing_of(rest, Commands::Autovote {  })
    } else if same_text(name, "create-config") {
        match path_of(rest) {
            Ok(path) => Ok(Commands::CreateConfig { path }),
            Err(e) => Err(e),
        }
    } else if same_text(name, "check-config") {
        match path_of(rest) {
            Ok(path) => Ok(Commands::CheckConfig { path }),
            Err(e) => Err(e),
        }
    } else if same_text(name, "help") {
        Err(ArgError::Help)
    } else {
        Err(ArgError::UnknownCommand)
    }
}

impl Arguments {
    /// Reads a command line. `default_config` is the configuration file to
    /// use where the command line names none.
    pub fn parse_from(args: &Vec<String>, default_config: &str) -> (r: Result<
        Arguments,
        ArgError,
    >)
        ensures
            match r {
                Ok(arguments) => parsed_arguments(args.deep_view(), default_config@) == Ok::<
                    ArgumentsView,
                    ArgError,
                >(arguments@),
                Err(e) => parsed_arguments(args.deep_view(), default_config@) == Err::<
                    ArgumentsView,
                    ArgError,
                >(e),
            },
    {
        let ghost all = args.deep_view();
        let ghost fallback = default_config@;
        let mut config: Option<String> = None;
        let mut i: usize = 1;
        while i < args.len()
            invariant
                1 <= i,
                all == args.deep_view(),
                fallback == default_config@,
                arguments_from(
                    all,
                    i as int,
                    match config {
                        Some(path) => Some(path@),
                        None => None,
                    },
                    fallback,
                ) == parsed_arguments(all, fallback),
            decreases args.len() - i,
        {
            let arg = args[i].as_str();
            assert(all[i as int] == arg@);
            if same_text(arg, "-h") || same_text(arg, "--help") {
                return Err(ArgError::Help);
            }
            if same_text(arg, "-V") || same_text(arg, "--version") {
                return Err(ArgError::Version);
            }
            if same_text(arg, "-c") || same_text(arg, "--config") {
                if config.is_some() {
                    return Err(ArgError::RepeatedOption);
                }
                if i + 1 >= args.len() {
                    return Err(ArgError::MissingValue);
                }
                assert(all[i + 1] == args@[i + 1]@);
                if flag(args[i + 1].as_str()) {
                    return Err(ArgError::MissingValue);
                }
                config = Some(args[i + 1].clone());
                i += 2;
                continue ;
            }
            match after_prefix(arg, "--config=") {
                Some(path) => {
                    if config.is_some() {
                        return Err(ArgError::RepeatedOption);
                    }
                    config = Some(path);
                    i += 1;
                    continue ;
                },
                None => {},
            }
            match after_prefix(arg, "-c") {
                Some(rest) => {
                    if config.is_some() {
                        return Err(ArgError::RepeatedOption);
                    }
                    config = match after_prefix(rest.as_str(), "=") {
                        Some(path) => Some(path),
                        None => Some(rest),
                    };
                    i += 1;
                    continue ;
                },
                None => {},
            }
            if same_text(arg, "--") {
                let chosen = match config {
                    Some(path) => path,
                    None => default_config.to_owned(),
                };
                if i + 1 >= args.len() {
                    return Ok(Arguments { config: chosen, cmd: None });
                }
                return Err(ArgError::UnexpectedArgument);
            }
            if flag(arg) {
                return Err(ArgError::UnknownFlag);
            }
            let chosen = match config {
                Some(path) => path,
                None => default_config.to_owned(),
            };
            return match parse_command(arg, rest_of(args, i + 1)) {
                Ok(cmd) => Ok(Arguments { config: chosen, cmd: Some(cmd) }),
                Err(e) => Err(e),
            };
        }
        let chosen = match config {
            Some(path) => path,
            None => default_config.to_owned(),
        };
        Ok(Arguments { config: chosen, cmd: None })
    }
}

} // verus!
