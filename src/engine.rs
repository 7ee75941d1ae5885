//! Deciding, for one target file, what to do with it.
use vstd::prelude::*;
use vstd::string::*;

verus! {

/// What the caller found when it looked for a target file and read it.
pub enum FileState {
    /// No regular file is at the path.
    Missing,
    /// The file is there but could not be read.
    Unreadable,
    /// The file's full text.
    Contents(String),
}

/// What to do with one target file.
pub enum FileStep {
    /// Report that the file was not found and go on with the next one.
    SkipNotFound,
    /// Stop the whole run with an error.
    Abort,
    /// Report the append; write `content` over the file when `write` is set.
    Append { content: String, write: bool },
}

/// The file's text with the line added at its end.
pub fn new_contents(existing: &str, line: &str) -> (r: String)
    ensures
        r@ == existing@ + line@,
{
    String::from_str(existing).concat(line)
}

/// The step for one target file. When every shell's file is tried, a
/// missing one is skipped; otherwise it ends the run, as does a file that
/// cannot be read. A dry run computes the new text but writes nothing.
pub fn file_step(all: bool, dryrun: bool, state: FileState, line: &str) -> (r: FileStep)
    ensures
        match state {
            FileState::Missing => if all {
                r is SkipNotFound
            } else {
                r is Abort
            },
            FileState::Unreadable => r is Abort,
            FileState::Contents(c) => r matches FileStep::Append { content, write } && content@
                == c@ + line@ && write == !dryrun,
        },
{
    match state {
        FileState::Missing => if all {
            FileStep::SkipNotFound
        } else {
            FileStep::Abort
        },
        FileState::Unreadable => FileStep::Abort,
        FileState::Contents(c) => FileStep::Append {
            content: new_contents(c.as_str(), line),
            write: !dryrun,
        },
    }
}

} // verus!
