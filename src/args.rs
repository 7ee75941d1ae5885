//! Reading the command-line tokens: flags, the target file and the line.
use vstd::prelude::*;
use vstd::string::*;
use crate::config::SrapConfig;
use crate::text::str_eq;

verus! {

/// The characters of each token.
pub open spec fn words(a: Seq<String>) -> Seq<Seq<char>> {
    a.map_values(|s: String| s@)
}

/// `t` is the short or the long spelling of a flag.
pub open spec fn is_either(t: Seq<char>, short: Seq<char>, long: Seq<char>) -> bool {
    t == short || t == long
}

/// Some token of `a` spells the flag.
pub open spec fn has_flag(a: Seq<Seq<char>>, short: Seq<char>, long: Seq<char>) -> bool {
    exists|i: int| 0 <= i < a.len() && #[trigger] is_either(a[i], short, long)
}

/// `t` asks for a target file: `-f` or `--file`.
pub open spec fn is_file_flag(t: Seq<char>) -> bool {
    is_either(t, "-f"@, "--file"@)
}

/// `k` is the first token of `a` that asks for a target file.
pub open spec fn is_first_file_flag(a: Seq<Seq<char>>, k: int) -> bool {
    &&& 0 <= k < a.len()
    &&& is_file_flag(a[k])
    &&& forall|j: int| 0 <= j < k ==> !is_file_flag(#[trigger] a[j])
}

/// Position of the first `-f` / `--file` token.
pub open spec fn first_file_flag(a: Seq<Seq<char>>) -> Option<int> {
    if exists|k: int| is_first_file_flag(a, k) {
        Some(choose|k: int| is_first_file_flag(a, k))
    } else {
        None
    }
}

/// The first `-f` / `--file` is the last token: no file name follows it.
pub open spec fn missing_filename(a: Seq<Seq<char>>) -> bool {
    first_file_flag(a) == Some(a.len() - 1)
}

/// The file named after the first `-f` / `--file`, or empty.
pub open spec fn file_arg(a: Seq<Seq<char>>) -> Seq<char> {
    match first_file_flag(a) {
        Some(k) => if k + 1 < a.len() { a[k + 1] } else { Seq::empty() },
        None => Seq::empty(),
    }
}

/// The tokens left once the first `-f` / `--file` and its file name are taken out.
pub open spec fn residual(a: Seq<Seq<char>>) -> Seq<Seq<char>> {
    match first_file_flag(a) {
        Some(k) => if k + 1 < a.len() {
            a.subrange(0, k) + a.subrange(k + 2, a.len() as int)
        } else {
            a
        },
        None => a,
    }
}

/// Usage errors.
#[derive(Debug, Clone, Copy, PartialEq, Eq, Structural)]
pub enum UsageError {
    /// `-f` / `--file` was given with no file name after it.
    MissingFilename,
}

impl UsageError {
    /// The message shown for the error.
    pub fn message(&self) -> (r: &'static str)
        ensures
            r@ == "You must provide a filename!"@,
    {
        "You must provide a filename!"
    }
}

/// Whether some token spells the flag `short` or `long`.
pub fn flag_given(args: &Vec<String>, short: &str, long: &str) -> (r: bool)
    ensures
        r == has_flag(words(args@), short@, long@),
{
    let ghost a = words(args@);
    let mut i: usize = 0;
    while i < args.len()
        invariant
            a == words(args@),
            i <= args.len(),
            forall|j: int| 0 <= j < i ==> !#[trigger] is_either(a[j], short@, long@),
        decreases args.len() - i,
    {
        let t = args[i].as_str();
        if str_eq(t, short) || str_eq(t, long) {
            assert(is_either(a[i as int], short@, long@));
            return true;
        }
        i = i + 1;
    }
    false
}

/// Position of the first `-f` / `--file` token.
pub fn find_file_flag(args: &Vec<String>) -> (r: Option<usize>)
    ensures
        r matches Some(k) ==> k < args@.len() && first_file_flag(words(args@)) == Some(k as int),
        r is None ==> first_file_flag(words(args@)) is None,
{
    let ghost a = words(args@);
    let mut i: usize = 0;
    while i < args.len()
        invariant
            a == words(args@),
            i <= args.len(),
            forall|j: int| 0 <= j < i ==> !is_file_flag(#[trigger] a[j]),
        decreases args.len() - i,
    {
        let t = args[i].as_str();
        if str_eq(t, "-f") || str_eq(t, "--file") {
            assert(is_first_file_flag(a, i as int));
            let ghost k = choose|k: int| is_first_file_flag(a, k);
            assert(k == i) by {
                if k < i {
                    assert(!is_file_flag(a[k]));
                } else if k > i {
                    assert(!is_file_flag(a[i as int]));
                }
            }
            return Some(i);
        }
        i = i + 1;
    }
    assert forall|k: int| !is_first_file_flag(a, k) by {
        if 0 <= k < a.len() {
            assert(!is_file_flag(a[k]));
        }
    }
    None
}

/// The settings that the tokens select. The first `-f` / `--file` and the
/// file name after it are taken out of `args`; every flag is looked for among
/// all the tokens as given.
pub fn parse_args(args: &mut Vec<String>) -> (r: Result<SrapConfig, UsageError>)
    ensures
        r is Err <==> missing_filename(words(old(args)@)),
        r is Err ==> r == Err::<SrapConfig, UsageError>(UsageError::MissingFilename)
            && final(args)@ == old(args)@,
        r matches Ok(c) ==> {
            let a = words(old(args)@);
            &&& words(final(args)@) == residual(a)
            &&& c.all == has_flag(a, "-a"@, "--all"@)
            &&& c.dryrun == has_flag(a, "-d"@, "--dry-run"@)
            &&& c.verbose == has_flag(a, "-v"@, "--verbose"@)
            &&& c.nocolor == has_flag(a, "-n"@, "--no-color"@)
            &&& c.file@ == file_arg(a)
        },
{
    let ghost a = words(args@);
    let mut config = SrapConfig::new_default();
    config.all = flag_given(args, "-a", "--all");
    config.dryrun = flag_given(args, "-d", "--dry-run");
    config.verbose = flag_given(args, "-v", "--verbose");
    config.nocolor = flag_given(args, "-n", "--no-color");
    match find_file_flag(args) {
        Some(k) => {
            if k >= args.len() - 1 {
                return Err(UsageError::MissingFilename);
            }
            let name = args.remove(k + 1);
            args.remove(k);
            assert(words(args@) =~= residual(a));
            config.file = name;
        },
        None => {
            assert(!missing_filename(a));
        },
    }
    Ok(config)
}

} // verus!
