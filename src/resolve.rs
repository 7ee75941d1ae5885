//! Choosing the file or files to append to.
use vstd::prelude::*;
use vstd::string::*;
use crate::args::words;
use crate::config::SrapConfig;
use crate::text::{contains_seq, contains_str};

verus! {

/// The startup file of the shell whose program path is `shell`, matched by
/// the first name in the table that occurs in it. Paths that begin with `~`
/// are under the home directory.
pub open spec fn shell_rc(shell: Seq<char>) -> Option<Seq<char>> {
    if contains_seq(shell, "zsh"@) {
        Some("~/.zshrc"@)
    } else if contains_seq(shell, "bash"@) {
        Some("~/.bashrc"@)
    } else if contains_seq(shell, "nsh"@) {
        Some("~/.nshrc"@)
    } else if contains_seq(shell, "ksh"@) {
        Some("~/.kshrc"@)
    } else if contains_seq(shell, "fish"@) {
        Some("~/.config/fish/config.fish"@)
    } else if contains_seq(shell, "ion"@) {
        Some(".config/ion/initrc"@)
    } else if contains_seq(shell, "tcsh"@) {
        Some("~/.cshrc"@)
    } else {
        None
    }
}

/// `path` with a leading `~` replaced by `home`.
pub open spec fn expanded(path: Seq<char>, home: Seq<char>) -> Seq<char> {
    if path.len() > 0 && path[0] == '~' {
        home + path.subrange(1, path.len() as int)
    } else {
        path
    }
}

/// The startup files of the POSIX shells, in the order they are visited.
pub open spec fn posix_rcs() -> Seq<Seq<char>> {
    seq!["~/.bashrc"@, "~/.zshrc"@, "~/.nshrc"@, "~/.kshrc"@]
}

/// Why no target file could be chosen.
#[derive(Debug, Clone, Copy, PartialEq, Eq, Structural)]
pub enum ResolveError {
    /// No login shell is known and no file was named.
    ShellUnset,
    /// The login shell is none of those in the table.
    UnsupportedShell,
}

/// The files to append to. With `all`, the POSIX shells' files, then the
/// named file if any, each with a leading `~` expanded. Otherwise the named
/// file as it is, or else the login shell's file.
pub open spec fn targets_of(
    all: bool,
    file: Seq<char>,
    shell: Option<Seq<char>>,
    home: Seq<char>,
) -> Result<Seq<Seq<char>>, ResolveError> {
    if all {
        let paths = if file.len() > 0 {
            posix_rcs().push(file)
        } else {
            posix_rcs()
        };
        Ok(paths.map_values(|p: Seq<char>| expanded(p, home)))
    } else if file.len() > 0 {
        Ok(seq![file])
    } else {
        match shell {
            None => Err(ResolveError::ShellUnset),
            Some(s) => match shell_rc(s) {
                None => Err(ResolveError::UnsupportedShell),
                Some(p) => Ok(seq![expanded(p, home)]),
            },
        }
    }
}

/// Outside the every-shell mode, with no file named and no login shell
/// known, no target is chosen: the run ends with an error before any file
/// is read or written.
pub proof fn unset_shell_fails(file: Seq<char>, home: Seq<char>)
    requires
        file.len() == 0,
    ensures
        targets_of(false, file, None, home) == Err::<Seq<Seq<char>>, ResolveError>(
            ResolveError::ShellUnset,
        ),
{
}

/// The characters of an optional string.
pub open spec fn opt_chars(s: Option<&str>) -> Option<Seq<char>> {
    match s {
        Some(t) => Some(t@),
        None => None,
    }
}

/// The startup file of the shell whose program path is `shell`.
pub fn shell_config_path(shell: &str) -> (r: Option<String>)
    ensures
        r matches Some(p) ==> shell_rc(shell@) == Some(p@),
        r is None ==> shell_rc(shell@) is None,
{
    if contains_str(shell, "zsh") {
        Some(String::from_str("~/.zshrc"))
    } else if contains_str(shell, "bash") {
        Some(String::from_str("~/.bashrc"))
    } else if contains_str(shell, "nsh") {
        Some(String::from_str("~/.nshrc"))
    } else if contains_str(shell, "ksh") {
        Some(String::from_str("~/.kshrc"))
    } else if contains_str(shell, "fish") {
        Some(String::from_str("~/.config/fish/config.fish"))
    } else if contains_str(shell, "ion") {
        Some(String::from_str(".config/ion/initrc"))
    } else if contains_str(shell, "tcsh") {
        Some(String::from_str("~/.cshrc"))
    } else {
        None
    }
}

/// `path` with a leading `~` replaced by `home`.
pub fn expand_home(path: &str, home: &str) -> (r: String)
    ensures
        r@ == expanded(path@, home@),
{
    let n = path.unicode_len();
    if n > 0 && path.get_char(0) == '~' {
        String::from_str(home).concat(path.substring_char(1, n))
    } else {
        String::from_str(path)
    }
}

/// The files to append to, as `targets_of` states, for the settings, the
/// login shell's program path (if known) and the home directory.
pub fn config_targets(config: &SrapConfig, shell: Option<&str>, home: &str) -> (r: Result<
    Vec<String>,
    ResolveError,
>)
    ensures
        match r {
            Ok(v) => targets_of(config.all, config.file@, opt_chars(shell), home@) == Ok::<
                Seq<Seq<char>>,
                ResolveError,
            >(words(v@)),
            Err(e) => targets_of(config.all, config.file@, opt_chars(shell), home@) == Err::<
                Seq<Seq<char>>,
                ResolveError,
            >(e),
        },
{
    let has_file = config.file.as_str().unicode_len() > 0;
    if config.all {
        let mut v: Vec<String> = Vec::new();
        v.push(expand_home("~/.bashrc", home));
        v.push(expand_home("~/.zshrc", home));
        v.push(expand_home("~/.nshrc", home));
        v.push(expand_home("~/.kshrc", home));
        if has_file {
            v.push(expand_home(config.file.as_str(), home));
        }
        proof {
            let paths = if config.file@.len() > 0 {
                posix_rcs().push(config.file@)
            } else {
                posix_rcs()
            };
            assert(words(v@) =~= paths.map_values(|p: Seq<char>| expanded(p, home@)));
        }
        return Ok(v);
    }
    if has_file {
        let mut v: Vec<String> = Vec::new();
        v.push(config.file.clone());
        assert(words(v@) =~= seq![config.file@]);
        return Ok(v);
    }
    match shell {
        None => Err(ResolveError::ShellUnset),
        Some(s) => match shell_config_path(s) {
            None => Err(ResolveError::UnsupportedShell),
            Some(p) => {
                let mut v: Vec<String> = Vec::new();
                v.push(expand_home(p.as_str(), home));
                assert(words(v@) =~= seq![expanded(p@, home@)]);
                Ok(v)
            },
        },
    }
}

} // verus!
