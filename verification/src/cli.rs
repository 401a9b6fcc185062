//! Command-line argument handling: the decision which argument does
//! what; printing and exiting stay with the embedding application.

use vstd::prelude::*;

verus! {

/// The arguments a normal run proceeds with.
#[derive(Debug, Clone, PartialEq, Eq)]
pub struct ParsedArgs {
    /// An explicit configuration file, when one was given.
    pub config: Option<String>,
}

/// Why argument parsing did not yield a normal run.
#[derive(Debug, Clone, PartialEq, Eq)]
pub enum CliRequest {
    /// Print version information and exit successfully.
    ShowVersion,
    /// Print usage information and exit successfully.
    ShowHelp,
    /// An unknown option: print it and fail.
    InvalidOption(String),
    /// A second configuration file: only one is supported.
    ExtraConfig,
}

/// Abstract value of [`CliRequest`].
pub enum CliRequestData {
    ShowVersion,
    ShowHelp,
    InvalidOption(Seq<char>),
    ExtraConfig,
}

impl View for CliRequest {
    type V = CliRequestData;

    open spec fn view(&self) -> CliRequestData {
        match self {
            CliRequest::ShowVersion => CliRequestData::ShowVersion,
            CliRequest::ShowHelp => CliRequestData::ShowHelp,
            CliRequest::InvalidOption(s) => CliRequestData::InvalidOption(s@),
            CliRequest::ExtraConfig => CliRequestData::ExtraConfig,
        }
    }
}

/// Argument handling from position `from`, the program name at
/// position 0 already skipped: version and help flags win, any
/// other word starting with `-` is an unknown option, and the first
/// bare word is the configuration file -- a second one is an error.
pub open spec fn parse_args_spec(args: Seq<Seq<char>>, from: int, config: Option<Seq<char>>) -> Result<
    Option<Seq<char>>,
    CliRequestData,
>
    decreases args.len() - from,
{
    if from < 0 || from >= args.len() {
        Result::Ok(config)
    } else {
        let a = args[from];
        if a == "-V"@ || a == "-v"@ || a == "--version"@ {
            Result::Err(CliRequestData::ShowVersion)
        } else if a == "-h"@ || a == "--help"@ {
            Result::Err(CliRequestData::ShowHelp)
        } else if a.len() > 0 && a[0] == '-' {
            Result::Err(CliRequestData::InvalidOption(a))
        } else if config is None {
            parse_args_spec(args, from + 1, Option::Some(a))
        } else {
            Result::Err(CliRequestData::ExtraConfig)
        }
    }
}

/// Parses the program's arguments (the first being the program
/// name), as [`parse_args_spec`] describes.
#[verifier::loop_isolation(false)]
pub fn parse_args(args: &Vec<String>) -> (r: Result<ParsedArgs, CliRequest>)
    ensures
        match r {
            Ok(p) => parse_args_spec(args.deep_view(), 1, Option::None) == Result::Ok::<
                Option<Seq<char>>,
                CliRequestData,
            >(match p.config {
                Some(c) => Option::Some(c@),
                None => Option::None,
            }),
            Err(e) => parse_args_spec(args.deep_view(), 1, Option::None) == Result::Err::<
                Option<Seq<char>>,
                CliRequestData,
            >(e@),
        },
{
    let mut config: Option<String> = None;
    let mut i: usize = 1;
    while i < args.len()
        invariant
            1 <= i <= args@.len() || (i == 1 && args@.len() == 0),
            parse_args_spec(args.deep_view(), 1, Option::None) == parse_args_spec(
                args.deep_view(),
                i as int,
                match config {
                    Some(c) => Option::Some(c@),
                    None => Option::None,
                },
            ),
        decreases args@.len() - i,
    {
        proof {
            assert(args.deep_view()[i as int] == args@[i as int]@);
        }
        let arg = &args[i];
        if crate::strutil::str_eq(arg.as_str(), "-V") || crate::strutil::str_eq(arg.as_str(), "-v")
            || crate::strutil::str_eq(arg.as_str(), "--version") {
            return Err(CliRequest::ShowVersion);
        }
        if crate::strutil::str_eq(arg.as_str(), "-h") || crate::strutil::str_eq(
            arg.as_str(),
            "--help",
        ) {
            return Err(CliRequest::ShowHelp);
        }
        if arg.as_str().unicode_len() > 0 && arg.as_str().get_char(0) == '-' {
            return Err(CliRequest::InvalidOption(arg.clone()));
        }
        if config.is_none() {
            config = Some(arg.clone());
        } else {
            return Err(CliRequest::ExtraConfig);
        }
        i += 1;
    }
    Ok(ParsedArgs { config })
}

} // verus!
