//! File-name globs (`*` for any run, `?` for one character) turned into regular
//! expressions, and the regular-expression search that tests them.

use vstd::prelude::*;

verus! {

/// Whether the regex crate accepts `p` as a pattern.
pub uninterp spec fn regex_compiles(p: Seq<char>) -> bool;

/// Whether the compiled pattern `p` finds a match anywhere in `t`.
pub uninterp spec fn regex_finds(p: Seq<char>, t: Seq<char>) -> bool;

/// Relies on `regex::Regex::new` (whether the pattern compiles) and
/// `regex::Regex::is_match` (whether it matches somewhere in the text); both depend
/// on their arguments alone.
#[verifier::external_body]
pub(crate) fn regex_search(pattern: &str, text: &str) -> (r: Option<bool>)
    ensures
        r is Some <==> regex_compiles(pattern@),
        r is Some ==> r->0 == regex_finds(pattern@, text@),
{
    match regex::Regex::new(pattern) {
        Ok(re) => Some(re.is_match(text)),
        Err(_) => None,
    }
}

/// `**` runs shortened to `*`, left to right.
pub open spec fn collapse_stars(s: Seq<char>) -> Seq<char>
    decreases s.len(),
{
    if s.len() == 0 {
        s
    } else if s.len() >= 2 && s[0] == '*' && s[1] == '*' {
        seq!['*'] + collapse_stars(s.skip(2))
    } else {
        seq![s[0]] + collapse_stars(s.skip(1))
    }
}

pub open spec fn is_regex_special(c: char) -> bool {
    c == '|' || c == '\\' || c == '{' || c == '}' || c == '(' || c == ')' || c == '[' || c
        == ']' || c == '^' || c == '$' || c == '+' || c == '*' || c == '?' || c == '.'
}

/// The regular expression for one glob character.
pub open spec fn glob_char(c: char) -> Seq<char> {
    if c == '?' {
        seq!['.']
    } else if c == '*' {
        seq!['.', '*']
    } else if is_regex_special(c) {
        seq!['\\', c]
    } else if c == '-' {
        seq!['\\', 'x', '2', 'd']
    } else {
        seq![c]
    }
}

pub open spec fn glob_chars(s: Seq<char>) -> Seq<char>
    decreases s.len(),
{
    if s.len() == 0 {
        s
    } else {
        glob_char(s[0]) + glob_chars(s.skip(1))
    }
}

pub open spec fn simple_glob_spec(s: Seq<char>) -> Seq<char> {
    glob_chars(collapse_stars(s))
}

/// The regular expression for the glob `s`.
pub fn simple_glob(s: &Vec<char>) -> (r: Vec<char>)
    ensures
        r@ == simple_glob_spec(s@),
{
    let mut c: Vec<char> = Vec::new();
    let mut i: usize = 0;
    proof {
        assert(s@.skip(0) =~= s@);
        assert(c@ + collapse_stars(s@) =~= collapse_stars(s@));
    }
    while i < s.len()
        invariant
            i <= s@.len(),
            collapse_stars(s@) == c@ + collapse_stars(s@.skip(i as int)),
        decreases s@.len() - i,
    {
        let ghost rest = s@.skip(i as int);
        if i + 1 < s.len() && s[i] == '*' && s[i + 1] == '*' {
            assert(rest.skip(2) =~= s@.skip(i + 2));
            c.push('*');
            i += 2;
        } else {
            assert(rest.skip(1) =~= s@.skip(i + 1));
            c.push(s[i]);
            i += 1;
        }
        assert(collapse_stars(s@) =~= c@ + collapse_stars(s@.skip(i as int)));
    }
    assert(collapse_stars(s@) =~= c@);
    let mut r: Vec<char> = Vec::new();
    let mut i: usize = 0;
    proof {
        assert(c@.skip(0) =~= c@);
        assert(r@ + glob_chars(c@) =~= glob_chars(c@));
    }
    while i < c.len()
        invariant
            i <= c@.len(),
            glob_chars(c@) == r@ + glob_chars(c@.skip(i as int)),
        decreases c@.len() - i,
    {
        let ch = c[i];
        let ghost before = r@;
        assert(c@.skip(i as int).skip(1) =~= c@.skip(i + 1));
        if ch == '?' {
            r.push('.');
        } else if ch == '*' {
            r.push('.');
            r.push('*');
        } else if ch == '|' || ch == '\\' || ch == '{' || ch == '}' || ch == '(' || ch == ')'
            || ch == '[' || ch == ']' || ch == '^' || ch == '$' || ch == '+' || ch == '.' {
            r.push('\\');
            r.push(ch);
        } else if ch == '-' {
            r.push('\\');
            r.push('x');
            r.push('2');
            r.push('d');
        } else {
            r.push(ch);
        }
        assert(r@ =~= before + glob_char(ch));
        i += 1;
        assert(glob_chars(c@) =~= r@ + glob_chars(c@.skip(i as int)));
    }
    assert(glob_chars(c@) =~= r@);
    r
}

} // verus!
