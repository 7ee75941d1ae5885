//! What one run of the command is asked to do, decided from its tokens alone.
use vstd::prelude::*;
use crate::args::{
    flag_given, has_flag, missing_filename, parse_args, residual, file_arg, words, UsageError,
};
use crate::config::SrapConfig;
use crate::line::{build_line, find_line_start, line_of, line_start, quote_alias, quoted};
use crate::text::starts_with_dash;

verus! {

/// The tokens ask for the usage text: there are none, or one is `-h` / `--help`.
pub open spec fn wants_help(a: Seq<Seq<char>>) -> bool {
    a.len() == 0 || has_flag(a, "-h"@, "--help"@)
}

/// The run shows the usage text and does nothing else: it was asked for,
/// or no line to append is left once the flags are read.
pub open spec fn shows_help(a: Seq<Seq<char>>) -> bool {
    wants_help(a) || (!missing_filename(a) && line_start(residual(a)) is None)
}

/// The run stops with a usage error.
pub open spec fn fails_usage(a: Seq<Seq<char>>) -> bool {
    !wants_help(a) && missing_filename(a)
}

/// The line to append for the tokens, once quoted; empty when there is none.
pub open spec fn appended_line(a: Seq<Seq<char>>) -> Seq<char> {
    let rest = residual(a);
    match line_start(rest) {
        Some(s) => quoted(line_of(rest.subrange(s, rest.len() as int))),
        None => Seq::empty(),
    }
}

/// The settings hold exactly the flags given among the tokens.
pub open spec fn configured(c: SrapConfig, a: Seq<Seq<char>>) -> bool {
    &&& c.all == has_flag(a, "-a"@, "--all"@)
    &&& c.dryrun == has_flag(a, "-d"@, "--dry-run"@)
    &&& c.verbose == has_flag(a, "-v"@, "--verbose"@)
    &&& c.nocolor == has_flag(a, "-n"@, "--no-color"@)
    &&& c.file@ == file_arg(a)
}

/// What a run does.
pub enum Invocation {
    /// Show the usage text and stop.
    Help,
    /// Append `line` (which begins with a newline) to the files that `config` selects.
    Append { config: SrapConfig, line: String },
}

/// Decides the run from the tokens that follow the program name.
pub fn plan(args: Vec<String>) -> (r: Result<Invocation, UsageError>)
    ensures
        r matches Ok(Invocation::Help) <==> shows_help(words(args@)),
        r is Err <==> fails_usage(words(args@)),
        r is Err ==> r == Err::<Invocation, UsageError>(UsageError::MissingFilename),
        r matches Ok(Invocation::Append { config, line }) ==> {
            &&& configured(config, words(args@))
            &&& line@ == appended_line(words(args@))
        },
{
    let ghost a = words(args@);
    let mut args = args;
    if args.len() == 0 || flag_given(&args, "-h", "--help") {
        return Ok(Invocation::Help);
    }
    let config = match parse_args(&mut args) {
        Ok(c) => c,
        Err(e) => {
            return Err(e);
        },
    };
    match find_line_start(&args) {
        Some(s) => {
            let line = quote_alias(build_line(&args, s));
            Ok(Invocation::Append { config, line })
        },
        None => Ok(Invocation::Help),
    }
}

/// When every token begins with a dash, the run only shows the usage text,
/// and so writes to no file. The one exception is a `-f` / `--file` with
/// no file name after it, which is a usage error.
pub proof fn only_flags_show_help(a: Seq<Seq<char>>)
    requires
        forall|i: int| 0 <= i < a.len() ==> starts_with_dash(#[trigger] a[i]),
        !missing_filename(a),
    ensures
        shows_help(a),
{
    let rest = residual(a);
    assert forall|j: int| 0 <= j < rest.len() implies starts_with_dash(#[trigger] rest[j]) by {
        let k = crate::args::first_file_flag(a);
        if k is Some && k->0 + 1 < a.len() {
            let k = k->0;
            if j < k {
                assert(rest[j] == a[j]);
            } else {
                assert(rest[j] == a[j + 2]);
            }
        }
    }
    assert forall|k: int| !crate::line::is_line_start(rest, k) by {
        if 0 <= k < rest.len() {
            assert(starts_with_dash(rest[k]));
        }
    }
}

} // verus!
