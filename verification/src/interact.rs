//! The two session modes and the interpretation of the user's input.
//!
//! The mode selector recognizes exactly two values. In interactive mode, the
//! line read after a single-file unit is trimmed and case-normalized; a lone
//! "q" quits the remaining units of the current container, anything else
//! continues.

use vstd::prelude::*;
use vstd::string::StrSliceExecFns;

verus! {

/// How the session steps through its units: all at once, or pausing after
/// each single-file unit for the user's decision.
#[derive(Clone, Copy, PartialEq, Eq, Structural, Debug)]
pub enum Mode {
    Batch,
    Interactive,
}

/// The mode named by the given selector: "watch" is interactive, "all" is
/// batch, and nothing else is recognized.
pub open spec fn spec_parse_mode(arg: Seq<char>) -> Option<Mode> {
    if arg == "watch"@ {
        Some(Mode::Interactive)
    } else if arg == "all"@ {
        Some(Mode::Batch)
    } else {
        None
    }
}

/// Parse the positional mode selector. An unrecognized selector is a usage
/// error, reported to the caller as `None`.
pub fn parse_mode(arg: &str) -> (r: Option<Mode>)
    ensures
        r == spec_parse_mode(arg@),
{
    let owned: String = arg.to_owned();
    if owned == "watch".to_owned() {
        Some(Mode::Interactive)
    } else if owned == "all".to_owned() {
        Some(Mode::Batch)
    } else {
        None
    }
}

/// The characters stripped from the user's line: the Unicode white-space
/// characters, exactly the set a trimmed line sheds.
pub open spec fn spec_is_ws(c: char) -> bool {
    ||| c == '\t'
    ||| c == '\n'
    ||| c == '\u{000B}'
    ||| c == '\u{000C}'
    ||| c == '\r'
    ||| c == ' '
    ||| c == '\u{0085}'
    ||| c == '\u{00A0}'
    ||| c == '\u{1680}'
    ||| c == '\u{2000}'
    ||| c == '\u{2001}'
    ||| c == '\u{2002}'
    ||| c == '\u{2003}'
    ||| c == '\u{2004}'
    ||| c == '\u{2005}'
    ||| c == '\u{2006}'
    ||| c == '\u{2007}'
    ||| c == '\u{2008}'
    ||| c == '\u{2009}'
    ||| c == '\u{200A}'
    ||| c == '\u{2028}'
    ||| c == '\u{2029}'
    ||| c == '\u{202F}'
    ||| c == '\u{205F}'
    ||| c == '\u{3000}'
}

/// The position of the first non-whitespace character at or after `i`, or
/// the length when there is none.
pub open spec fn first_non_ws(s: Seq<char>, i: int) -> int
    decreases s.len() - i when 0 <= i <= s.len()
{
    if i >= s.len() {
        s.len() as int
    } else if spec_is_ws(s[i]) {
        first_non_ws(s, i + 1)
    } else {
        i
    }
}

/// The position just past the last non-whitespace character strictly before
/// `j`, or zero when there is none.
pub open spec fn last_non_ws_end(s: Seq<char>, j: int) -> int
    decreases j when 0 <= j <= s.len()
{
    if j <= 0 {
        0
    } else if spec_is_ws(s[j - 1]) {
        last_non_ws_end(s, j - 1)
    } else {
        j
    }
}

/// The line with leading and trailing whitespace stripped.
pub open spec fn spec_trim(s: Seq<char>) -> Seq<char> {
    let i = first_non_ws(s, 0);
    let j = last_non_ws_end(s, s.len() as int);
    if i < j {
        s.subrange(i, j)
    } else {
        Seq::empty()
    }
}

/// Whether the line, trimmed and case-normalized, is the quit command "q".
pub open spec fn spec_is_quit(line: Seq<char>) -> bool {
    spec_trim(line) == seq!['q'] || spec_trim(line) == seq!['Q']
}

proof fn lemma_first_non_ws_bounds(s: Seq<char>, i: int)
    requires
        0 <= i <= s.len(),
    ensures
        i <= first_non_ws(s, i) <= s.len(),
    decreases s.len() - i,
{
    if i < s.len() && spec_is_ws(s[i]) {
        lemma_first_non_ws_bounds(s, i + 1);
    }
}

proof fn lemma_last_non_ws_end_bounds(s: Seq<char>, j: int)
    requires
        0 <= j <= s.len(),
    ensures
        0 <= last_non_ws_end(s, j) <= j,
    decreases j,
{
    if j > 0 && spec_is_ws(s[j - 1]) {
        lemma_last_non_ws_end_bounds(s, j - 1);
    }
}

/// Whether a character is stripped as whitespace.
pub fn is_ws(c: char) -> (r: bool)
    ensures
        r == spec_is_ws(c),
{
    c == '\t' || c == '\n' || c == '\u{000B}' || c == '\u{000C}' || c == '\r' || c == ' '
        || c == '\u{0085}' || c == '\u{00A0}' || c == '\u{1680}' || c == '\u{2000}'
        || c == '\u{2001}' || c == '\u{2002}' || c == '\u{2003}' || c == '\u{2004}'
        || c == '\u{2005}' || c == '\u{2006}' || c == '\u{2007}' || c == '\u{2008}'
        || c == '\u{2009}' || c == '\u{200A}' || c == '\u{2028}' || c == '\u{2029}'
        || c == '\u{202F}' || c == '\u{205F}' || c == '\u{3000}'
}

/// Interpret the user's line read after a single-file unit: true exactly
/// when it is the quit command.
pub fn is_quit(line: &str) -> (r: bool)
    ensures
        r == spec_is_quit(line@),
{
    let ghost s = line@;
    let n: usize = line.unicode_len();
    let mut i: usize = 0;
    while i < n && is_ws(line.get_char(i))
        invariant
            s == line@,
            n == s.len(),
            0 <= i <= n,
            first_non_ws(s, 0) == first_non_ws(s, i as int),
        decreases n - i,
    {
        assert(first_non_ws(s, i as int) == first_non_ws(s, i + 1));
        i = i + 1;
    }
    assert(first_non_ws(s, 0) == i);
    if i == n {
        proof {
            lemma_last_non_ws_end_bounds(s, s.len() as int);
        }
        assert(spec_trim(s) == Seq::<char>::empty());
        assert(spec_trim(s).len() != 1);
        return false;
    }
    let mut j: usize = n;
    while j > i && is_ws(line.get_char(j - 1))
        invariant
            s == line@,
            n == s.len(),
            0 <= i < n,
            !spec_is_ws(s[i as int]),
            i + 1 <= j <= n,
            last_non_ws_end(s, n as int) == last_non_ws_end(s, j as int),
        decreases j,
    {
        assert(last_non_ws_end(s, j as int) == last_non_ws_end(s, j - 1));
        assert(j - 1 > i) by {
            if j - 1 == i {
                assert(spec_is_ws(s[i as int]));
            }
        }
        j = j - 1;
    }
    assert(!spec_is_ws(s[j - 1]));
    assert(last_non_ws_end(s, n as int) == j);
    assert(spec_trim(s) == s.subrange(i as int, j as int));
    if j - i != 1 {
        assert(spec_trim(s).len() != 1);
        assert(seq!['q'].len() == 1 && seq!['Q'].len() == 1);
        return false;
    }
    let c: char = line.get_char(i);
    let r = c == 'q' || c == 'Q';
    proof {
        if c == 'q' {
            assert(spec_trim(s) =~= seq!['q']);
        } else if c == 'Q' {
            assert(spec_trim(s) =~= seq!['Q']);
        } else {
            assert(spec_trim(s)[0] == c);
            assert(spec_trim(s) != seq!['q']) by {
                if spec_trim(s) == seq!['q'] {
                    assert(spec_trim(s)[0] == 'q');
                }
            }
            assert(spec_trim(s) != seq!['Q']) by {
                if spec_trim(s) == seq!['Q'] {
                    assert(spec_trim(s)[0] == 'Q');
                }
            }
        }
    }
    r
}

} // verus!
