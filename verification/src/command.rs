//! Parsing of the argument list into a typed command.
//!
//! Argument 0 is the program name, argument 1 the verb (`info` or
//! `clean`), argument 2 the target, and argument 3 the device identifier
//! when one simulator is to be cleaned.

use vstd::prelude::*;
use vstd::string::StringExecFns;

verus! {

#[derive(Debug, PartialEq, Eq, Clone, Copy)]
pub enum InfoSubCommand {
    All,
    Caches,
    DerivedData,
    Simulators,
}

#[derive(Debug, PartialEq, Eq)]
pub enum CleanSubCommand {
    All,
    Caches,
    DerivedData,
    Simulators(String),
}

#[derive(Debug, PartialEq, Eq)]
pub enum Command {
    Info(InfoSubCommand),
    Clean(CleanSubCommand),
}

/// Why an argument list denotes no command: a required argument is
/// absent, or a verb or target matches no known literal.
#[derive(Debug, PartialEq, Eq, Clone, Copy)]
pub enum UsageError {
    MissingArgument,
    UnknownCommand,
}

/// Mathematical image of a `CleanSubCommand`: the identifier is a
/// sequence of characters.
pub enum CleanSubCommandView {
    All,
    Caches,
    DerivedData,
    Simulators(Seq<char>),
}

/// Mathematical image of a `Command`.
pub enum CommandView {
    Info(InfoSubCommand),
    Clean(CleanSubCommandView),
}

impl View for CleanSubCommand {
    type V = CleanSubCommandView;

    open spec fn view(&self) -> CleanSubCommandView {
        match self {
            CleanSubCommand::All => CleanSubCommandView::All,
            CleanSubCommand::Caches => CleanSubCommandView::Caches,
            CleanSubCommand::DerivedData => CleanSubCommandView::DerivedData,
            CleanSubCommand::Simulators(udid) => CleanSubCommandView::Simulators(udid@),
        }
    }
}

impl View for Command {
    type V = CommandView;

    open spec fn view(&self) -> CommandView {
        match self {
            Command::Info(sub) => CommandView::Info(*sub),
            Command::Clean(sub) => CommandView::Clean(sub@),
        }
    }
}

/// The command denoted by an argument list, or the usage error it earns:
/// exactly the verbs `info` and `clean`, exactly the targets `all`,
/// `caches`, `derived-data` and `simulators`, and for `clean simulators`
/// a third argument carrying the device identifier.
pub open spec fn spec_parse(args: Seq<String>) -> Result<CommandView, UsageError> {
    if args.len() < 2 {
        Err(UsageError::MissingArgument)
    } else if args[1]@ == "info"@ {
        if args.len() < 3 {
            Err(UsageError::MissingArgument)
        } else if args[2]@ == "all"@ {
            Ok(CommandView::Info(InfoSubCommand::All))
        } else if args[2]@ == "caches"@ {
            Ok(CommandView::Info(InfoSubCommand::Caches))
        } else if args[2]@ == "derived-data"@ {
            Ok(CommandView::Info(InfoSubCommand::DerivedData))
        } else if args[2]@ == "simulators"@ {
            Ok(CommandView::Info(InfoSubCommand::Simulators))
        } else {
            Err(UsageError::UnknownCommand)
        }
    } else if args[1]@ == "clean"@ {
        if args.len() < 3 {
            Err(UsageError::MissingArgument)
        } else if args[2]@ == "all"@ {
            Ok(CommandView::Clean(CleanSubCommandView::All))
        } else if args[2]@ == "caches"@ {
            Ok(CommandView::Clean(CleanSubCommandView::Caches))
        } else if args[2]@ == "derived-data"@ {
            Ok(CommandView::Clean(CleanSubCommandView::DerivedData))
        } else if args[2]@ == "simulators"@ {
            if args.len() < 4 {
                Err(UsageError::MissingArgument)
            } else {
                Ok(CommandView::Clean(CleanSubCommandView::Simulators(args[3]@)))
            }
        } else {
            Err(UsageError::UnknownCommand)
        }
    } else {
        Err(UsageError::UnknownCommand)
    }
}

impl Command {
    /// Total form of the parser: every argument list gets either its
    /// command or the usage error that `spec_parse` assigns to it.
    pub fn parse(args: &Vec<String>) -> (r: Result<Command, UsageError>)
        ensures
            r is Ok <==> spec_parse(args@) is Ok,
            r is Ok ==> r->Ok_0@ == spec_parse(args@)->Ok_0,
            r is Err ==> r->Err_0 == spec_parse(args@)->Err_0,
    {
        if args.len() < 2 {
            return Err(UsageError::MissingArgument);
        }
        let lit_all = String::from_str("all");
        let lit_caches = String::from_str("caches");
        let lit_derived = String::from_str("derived-data");
        let lit_simulators = String::from_str("simulators");
        let verb = &args[1];
        if verb.eq(&String::from_str("info")) {
            if args.len() < 3 {
                return Err(UsageError::MissingArgument);
            }
            let target = &args[2];
            if target.eq(&lit_all) {
                Ok(Command::Info(InfoSubCommand::All))
            } else if target.eq(&lit_caches) {
                Ok(Command::Info(InfoSubCommand::Caches))
            } else if target.eq(&lit_derived) {
                Ok(Command::Info(InfoSubCommand::DerivedData))
            } else if target.eq(&lit_simulators) {
                Ok(Command::Info(InfoSubCommand::Simulators))
            } else {
                Err(UsageError::UnknownCommand)
            }
        } else if verb.eq(&String::from_str("clean")) {
            if args.len() < 3 {
                return Err(UsageError::MissingArgument);
            }
            let target = &args[2];
            if target.eq(&lit_all) {
                Ok(Command::Clean(CleanSubCommand::All))
            } else if target.eq(&lit_caches) {
                Ok(Command::Clean(CleanSubCommand::Caches))
            } else if target.eq(&lit_derived) {
                Ok(Command::Clean(CleanSubCommand::DerivedData))
            } else if target.eq(&lit_simulators) {
                if args.len() < 4 {
                    return Err(UsageError::MissingArgument);
                }
                let udid = args[3].clone();
                Ok(Command::Clean(CleanSubCommand::Simulators(udid)))
            } else {
                Err(UsageError::UnknownCommand)
            }
        } else {
            Err(UsageError::UnknownCommand)
        }
    }

    /// Partial form of the parser, usable only on argument lists that do
    /// denote a command; `parse` accepts every list.
    pub fn new(args: &Vec<String>) -> (r: Self)
        requires
            spec_parse(args@) is Ok,
        ensures
            r@ == spec_parse(args@)->Ok_0,
    {
        match Command::parse(args) {
            Ok(cmd) => cmd,
            Err(_) => vstd::pervasive::unreached(),
        }
    }
}

} // verus!
