//! The status lines shown to the user, plain or with ANSI colours.
use vstd::prelude::*;
use vstd::string::*;

verus! {

/// The line as shown in a status line: without its leading newline, or
/// empty when it has none.
pub open spec fn shown(line: Seq<char>) -> Seq<char> {
    if line.len() > 0 && line[0] == '\n' {
        line.subrange(1, line.len() as int)
    } else {
        Seq::empty()
    }
}

/// The notice that nothing will be written.
pub fn dry_run_notice(nocolor: bool) -> (r: &'static str)
    ensures
        r@ == if nocolor {
            "Doing a dry run..."@
        } else {
            "\x1b[31;1mDoing a dry run...\x1b[0m"@
        },
{
    if nocolor {
        "Doing a dry run..."
    } else {
        "\x1b[31;1mDoing a dry run...\x1b[0m"
    }
}

/// The notice that a target file is not there and is skipped.
pub fn not_found_notice(path: &str, nocolor: bool) -> (r: String)
    ensures
        r@ == if nocolor {
            path@ + " not found"@
        } else {
            "\x1b[36m"@ + path@ + "\x1b[0m \x1b[31;1mnot found\x1b[0m"@
        },
{
    if nocolor {
        String::from_str(path).concat(" not found")
    } else {
        String::from_str("\x1b[36m").concat(path).concat("\x1b[0m \x1b[31;1mnot found\x1b[0m")
    }
}

/// The line without its leading newline; empty when it has none.
pub fn shown_line(line: &str) -> (r: &str)
    ensures
        r@ == shown(line@),
{
    let n = line.unicode_len();
    if n > 0 && line.get_char(0) == '\n' {
        line.substring_char(1, n)
    } else {
        proof {
            reveal_strlit("");
        }
        ""
    }
}

/// The notice that `line` is appended to `path`.
pub fn appending_notice(line: &str, path: &str, nocolor: bool) -> (r: String)
    ensures
        r@ == if nocolor {
            "Appending \""@ + shown(line@) + "\" to "@ + path@
        } else {
            "\x1b[35;1mAppending\x1b[0m \""@ + shown(line@) + "\" \x1b[35;1mto\x1b[0m \x1b[36m"@
                + path@ + "\x1b[0m"@
        },
{
    let s = shown_line(line);
    if nocolor {
        String::from_str("Appending \"").concat(s).concat("\" to ").concat(path)
    } else {
        String::from_str("\x1b[35;1mAppending\x1b[0m \"").concat(s).concat(
            "\" \x1b[35;1mto\x1b[0m \x1b[36m",
        ).concat(path).concat("\x1b[0m")
    }
}

/// The closing notice of a run that went through.
pub fn done_notice(nocolor: bool) -> (r: &'static str)
    ensures
        r@ == if nocolor {
            "Now source the config file and you're all ready to go! :3"@
        } else {
            "\x1b[32mNow source the config file and you're all ready to go! :3\x1b[0m"@
        },
{
    if nocolor {
        "Now source the config file and you're all ready to go! :3"
    } else {
        "\x1b[32mNow source the config file and you're all ready to go! :3\x1b[0m"
    }
}

} // verus!
