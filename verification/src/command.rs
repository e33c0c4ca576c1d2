//! The command line of the networking evaluation harness.

use vstd::prelude::*;

use crate::config::{DEFAULT_BULK_BYTES, DEFAULT_SAMPLES, EvalConfig, limits_config};
use crate::error::EvalError;
use crate::text::{parse_usize, str_eq, usize_of_text};

verus! {

/// Which local evaluation to run, with its limits.
#[derive(Debug, Clone, Copy, PartialEq, Eq)]
pub enum Command {
    LocalQuinn(EvalConfig),
    LocalIrohDirect(EvalConfig),
    LocalIrohRelay(EvalConfig),
    LocalAll(EvalConfig),
}

#[derive(Debug, Clone, Copy, PartialEq, Eq, Structural)]
pub enum CommandKind {
    LocalQuinn,
    LocalIrohDirect,
    LocalIrohRelay,
    LocalAll,
}

pub open spec fn command_kind(c: Command) -> CommandKind {
    match c {
        Command::LocalQuinn(_) => CommandKind::LocalQuinn,
        Command::LocalIrohDirect(_) => CommandKind::LocalIrohDirect,
        Command::LocalIrohRelay(_) => CommandKind::LocalIrohRelay,
        Command::LocalAll(_) => CommandKind::LocalAll,
    }
}

pub open spec fn command_config(c: Command) -> EvalConfig {
    match c {
        Command::LocalQuinn(config) => config,
        Command::LocalIrohDirect(config) => config,
        Command::LocalIrohRelay(config) => config,
        Command::LocalAll(config) => config,
    }
}

/// The command that a name selects.
pub open spec fn kind_of_name(name: Seq<char>) -> Option<CommandKind> {
    if name == "local-quinn"@ {
        Some(CommandKind::LocalQuinn)
    } else if name == "local-iroh-direct"@ {
        Some(CommandKind::LocalIrohDirect)
    } else if name == "local-iroh-relay"@ {
        Some(CommandKind::LocalIrohRelay)
    } else if name == "local-all"@ {
        Some(CommandKind::LocalAll)
    } else {
        None
    }
}

/// The sample count and payload size that the options give, starting from the given ones.
/// Each option takes the next argument as an unsigned decimal value; a missing value or an
/// unknown option is an invalid argument, and a value that is not a `usize` an invalid value.
pub open spec fn option_values(args: Seq<Seq<char>>, samples: usize, payload: usize) -> Result<
    (usize, usize),
    EvalError,
>
    decreases args.len(),
{
    if args.len() == 0 {
        Ok((samples, payload))
    } else if args[0] == "--samples"@ || args[0] == "--payload-bytes"@ {
        if args.len() < 2 {
            Err(EvalError::InvalidArgument)
        } else {
            match usize_of_text(args[1]) {
                None => Err(EvalError::InvalidValue),
                Some(v) => if args[0] == "--samples"@ {
                    option_values(args.skip(2), v, payload)
                } else {
                    option_values(args.skip(2), samples, v)
                },
            }
        }
    } else {
        Err(EvalError::InvalidArgument)
    }
}

/// The configuration that the options after the command name give.
pub open spec fn local_config(options: Seq<Seq<char>>) -> Result<(usize, usize, u64), EvalError> {
    match option_values(options, DEFAULT_SAMPLES, DEFAULT_BULK_BYTES) {
        Ok((samples, payload)) => limits_config(samples, payload),
        Err(e) => Err(e),
    }
}

/// What a command line parses to: its first argument names the command, the rest are the
/// options; the options are read first.
pub open spec fn parsed_command(args: Seq<Seq<char>>) -> Result<
    (CommandKind, (usize, usize, u64)),
    EvalError,
> {
    if args.len() == 0 {
        Err(EvalError::InvalidCommand)
    } else {
        match local_config(args.drop_first()) {
            Err(e) => Err(e),
            Ok(config) => match kind_of_name(args[0]) {
                Some(kind) => Ok((kind, config)),
                None => Err(EvalError::InvalidCommand),
            },
        }
    }
}

pub open spec fn texts(args: Seq<&str>) -> Seq<Seq<char>> {
    args.map_values(|a: &str| a@)
}

fn parse_local_config(args: &[&str]) -> (r: Result<EvalConfig, EvalError>)
    requires
        args@.len() >= 1,
    ensures
        match r {
            Ok(c) => local_config(texts(args@).drop_first()) == Ok::<_, EvalError>(c@),
            Err(e) => local_config(texts(args@).drop_first()) == Err::<(usize, usize, u64), _>(e),
        },
{
    let ghost all = texts(args@);
    let mut samples: usize = DEFAULT_SAMPLES;
    let mut payload: usize = DEFAULT_BULK_BYTES;
    let n = args.len();
    let mut i: usize = 1;
    assert(all.skip(1) =~= all.drop_first());
    while i < n
        invariant
            n == args@.len(),
            1 <= i <= n,
            all == texts(args@),
            option_values(all.skip(i as int), samples, payload) == option_values(
                all.drop_first(),
                DEFAULT_SAMPLES,
                DEFAULT_BULK_BYTES,
            ),
        decreases n - i,
    {
        let argument = args[i];
        let ghost rest = all.skip(i as int);
        assert(rest[0] == argument@);
        let is_samples = str_eq(argument, "--samples");
        let is_payload = str_eq(argument, "--payload-bytes");
        if !is_samples && !is_payload {
            return Err(EvalError::InvalidArgument);
        }
        if i + 1 >= n {
            return Err(EvalError::InvalidArgument);
        }
        assert(rest[1] == args[i + 1]@);
        let value = match parse_usize(args[i + 1]) {
            Some(value) => value,
            None => return Err(EvalError::InvalidValue),
        };
        if is_samples {
            samples = value;
        } else {
            payload = value;
        }
        assert(rest.skip(2) =~= all.skip(i + 2));
        i = i + 2;
    }
    assert(all.skip(i as int).len() == 0);
    EvalConfig::with_limits(samples, payload)
}

impl Command {
    /// Parses a command line (without the program name).
    pub fn parse(args: &[&str]) -> (r: Result<Self, EvalError>)
        ensures
            match r {
                Ok(c) => parsed_command(texts(args@)) == Ok::<_, EvalError>(
                    (command_kind(c), command_config(c)@),
                ),
                Err(e) => parsed_command(texts(args@)) == Err::<
                    (CommandKind, (usize, usize, u64)),
                    _,
                >(e),
            },
    {
        if args.len() == 0 {
            return Err(EvalError::InvalidCommand);
        }
        let config = parse_local_config(args)?;
        let command = args[0];
        assert(texts(args@)[0] == command@);
        if str_eq(command, "local-quinn") {
            Ok(Command::LocalQuinn(config))
        } else if str_eq(command, "local-iroh-direct") {
            Ok(Command::LocalIrohDirect(config))
        } else if str_eq(command, "local-iroh-relay") {
            Ok(Command::LocalIrohRelay(config))
        } else if str_eq(command, "local-all") {
            Ok(Command::LocalAll(config))
        } else {
            Err(EvalError::InvalidCommand)
        }
    }

    /// The limits the command runs with.
    pub fn eval_config(&self) -> (r: Option<EvalConfig>)
        ensures
            r == Some(command_config(*self)),
    {
        match self {
            Command::LocalQuinn(config) => Some(*config),
            Command::LocalIrohDirect(config) => Some(*config),
            Command::LocalIrohRelay(config) => Some(*config),
            Command::LocalAll(config) => Some(*config),
        }
    }
}

} // verus!
