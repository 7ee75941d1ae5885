//! Assembling the line to append from the tokens that remain after the flags.
use vstd::prelude::*;
use vstd::string::*;
use crate::args::words;
use crate::text::{contains_seq, contains_str, dash_first, find_char, starts_with_dash};

verus! {

/// `k` is the first token of `a` that does not begin with a dash.
pub open spec fn is_line_start(a: Seq<Seq<char>>, k: int) -> bool {
    &&& 0 <= k < a.len()
    &&& !starts_with_dash(a[k])
    &&& forall|j: int| 0 <= j < k ==> starts_with_dash(#[trigger] a[j])
}

/// Where the line begins: the first token that does not begin with a dash.
pub open spec fn line_start(a: Seq<Seq<char>>) -> Option<int> {
    if exists|k: int| is_line_start(a, k) {
        Some(choose|k: int| is_line_start(a, k))
    } else {
        None
    }
}

/// The tokens joined with single spaces.
pub open spec fn joined(ts: Seq<Seq<char>>) -> Seq<char>
    decreases ts.len(),
{
    if ts.len() == 0 {
        Seq::empty()
    } else if ts.len() == 1 {
        ts[0]
    } else {
        joined(ts.drop_last()) + seq![' '] + ts.last()
    }
}

/// The text appended to a file for these tokens, before quoting: a newline,
/// then the tokens joined with single spaces.
pub open spec fn line_of(ts: Seq<Seq<char>>) -> Seq<char> {
    seq!['\n'] + joined(ts)
}

/// `k` is the first position of `c` in `s`.
pub open spec fn is_first_char(s: Seq<char>, c: char, k: int) -> bool {
    &&& 0 <= k < s.len()
    &&& s[k] == c
    &&& forall|j: int| 0 <= j < k ==> #[trigger] s[j] != c
}

/// The first position of `c` in `s`.
pub open spec fn first_char(s: Seq<char>, c: char) -> Option<int> {
    if exists|k: int| is_first_char(s, c, k) {
        Some(choose|k: int| is_first_char(s, c, k))
    } else {
        None
    }
}

/// The line wants quoting: it mentions `alias` and holds no double quote.
pub open spec fn wants_quotes(line: Seq<char>) -> bool {
    contains_seq(line, "alias"@) && !line.contains('"')
}

/// The line with an `alias name=value` quoted: a double quote right after
/// the first `=` and one at the end. A line that does not want quoting, or
/// that holds no `=`, stays as it is.
pub open spec fn quoted(line: Seq<char>) -> Seq<char> {
    if wants_quotes(line) {
        match first_char(line, '=') {
            Some(k) => line.subrange(0, k + 1) + seq!['"'] + line.subrange(k + 1, line.len() as int)
                + seq!['"'],
            None => line,
        }
    } else {
        line
    }
}

/// Position of the first token that does not begin with a dash.
pub fn find_line_start(args: &Vec<String>) -> (r: Option<usize>)
    ensures
        r matches Some(k) ==> k < args@.len() && line_start(words(args@)) == Some(k as int),
        r is None ==> line_start(words(args@)) is None,
{
    let ghost a = words(args@);
    let mut i: usize = 0;
    while i < args.len()
        invariant
            a == words(args@),
            i <= args.len(),
            forall|j: int| 0 <= j < i ==> starts_with_dash(#[trigger] a[j]),
        decreases args.len() - i,
    {
        if !dash_first(args[i].as_str()) {
            assert(is_line_start(a, i as int));
            let ghost k = choose|k: int| is_line_start(a, k);
            assert(k == i) by {
                if k < i {
                    assert(starts_with_dash(a[k]));
                } else if k > i {
                    assert(!starts_with_dash(a[i as int]));
                }
            }
            return Some(i);
        }
        i = i + 1;
    }
    assert forall|k: int| !is_line_start(a, k) by {
        if 0 <= k < a.len() {
            assert(starts_with_dash(a[k]));
        }
    }
    None
}

/// A newline, then the tokens from `start` on, joined with single spaces.
pub fn build_line(args: &Vec<String>, start: usize) -> (r: String)
    requires
        start <= args@.len(),
    ensures
        r@ == line_of(words(args@).subrange(start as int, args@.len() as int)),
{
    let ghost a = words(args@);
    let mut s = String::new();
    s.append("\n");
    proof {
        reveal_strlit("\n");
        assert(a.subrange(start as int, start as int) =~= Seq::<Seq<char>>::empty());
        assert(s@ =~= line_of(a.subrange(start as int, start as int)));
    }
    let mut i: usize = start;
    while i < args.len()
        invariant
            a == words(args@),
            start <= i <= args.len(),
            s@ == line_of(a.subrange(start as int, i as int)),
        decreases args.len() - i,
    {
        let ghost before = a.subrange(start as int, i as int);
        let ghost after = a.subrange(start as int, i + 1);
        assert(after.drop_last() =~= before);
        if i > start {
            s.append(" ");
            proof {
                reveal_strlit(" ");
            }
        }
        s.append(args[i].as_str());
        assert(s@ =~= line_of(after));
        i = i + 1;
    }
    s
}

/// Position of the first `=` in `s`.
fn find_equals(s: &str) -> (r: Option<usize>)
    ensures
        r matches Some(k) ==> k < s@.len() && first_char(s@, '=') == Some(k as int),
        r is None ==> first_char(s@, '=') is None,
{
    match find_char(s, '=') {
        Some(k) => {
            assert(is_first_char(s@, '=', k as int));
            let ghost j = choose|j: int| is_first_char(s@, '=', j);
            assert(j == k) by {
                if j < k {
                    assert(s@[j] != '=');
                } else if j > k {
                    assert(s@[k as int] != '=');
                }
            }
            Some(k)
        },
        None => {
            assert forall|j: int| !is_first_char(s@, '=', j) by {
                if 0 <= j < s@.len() {
                    assert(s@[j] != '=');
                }
            }
            None
        },
    }
}

/// Quotes an `alias name=value` line: see `quoted`.
pub fn quote_alias(line: String) -> (r: String)
    ensures
        r@ == quoted(line@),
{
    let wants = contains_str(line.as_str(), "alias") && find_char(line.as_str(), '"').is_none();
    if !wants {
        return line;
    }
    match find_equals(line.as_str()) {
        Some(k) => {
            let n = line.as_str().unicode_len();
            let mut r = String::new();
            r.append(line.as_str().substring_char(0, k + 1));
            r.append("\"");
            r.append(line.as_str().substring_char(k + 1, n));
            r.append("\"");
            proof {
                reveal_strlit("\"");
                assert(r@ =~= quoted(line@));
            }
            r
        },
        None => line,
    }
}

} // verus!
