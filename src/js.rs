//! String helpers with the indexing of a scripting language's strings: character
//! codes, slices with negative indices counting from the end, and searches from a
//! position.

use vstd::prelude::*;
use vstd::string::*;
use crate::text::{chars_of, string_of_range};

verus! {

/// A slice bound: negative counts from the end, and the result is clamped to
/// `0..=len`.
pub open spec fn slice_bound(b: int, len: int) -> int {
    let x = if b < 0 {
        len + b
    } else {
        b
    };
    if x < 0 {
        0
    } else if x > len {
        len
    } else {
        x
    }
}

pub open spec fn js_slice_spec(s: Seq<char>, start: int, end: int) -> Seq<char> {
    let a = slice_bound(start, s.len() as int);
    let b = slice_bound(end, s.len() as int);
    if a < b {
        s.subrange(a, b)
    } else {
        Seq::empty()
    }
}

/// The index of the first `pat` at or after `from`, or -1.
pub open spec fn index_of_from(s: Seq<char>, pat: char, from: int) -> int
    decreases s.len() - from,
{
    if from < 0 || from >= s.len() {
        -1
    } else if s[from] == pat {
        from
    } else {
        index_of_from(s, pat, from + 1)
    }
}

/// The code of the character at `i`, or -1 past the end.
pub fn char_code_at(s: &str, i: usize) -> (r: i32)
    ensures
        i < s@.len() ==> r == s@[i as int] as i32,
        i >= s@.len() ==> r == -1,
{
    if i < s.unicode_len() {
        s.get_char(i) as u32 as i32
    } else {
        -1
    }
}

/// The characters from `start` up to `end`, each negative bound counting from the
/// end.
pub fn js_slice(s: &str, start: isize, end: isize) -> (r: String)
    ensures
        r@ == js_slice_spec(s@, start as int, end as int),
{
    let n = s.unicode_len();
    let chars = chars_of(s);
    let a = clamp_bound(start, n);
    let b = clamp_bound(end, n);
    if a < b {
        string_of_range(&chars, a, b)
    } else {
        String::new()
    }
}

fn clamp_bound(b: isize, n: usize) -> (r: usize)
    ensures
        r as int == slice_bound(b as int, n as int),
{
    let x: i128 = if b < 0 {
        n as i128 + b as i128
    } else {
        b as i128
    };
    if x < 0 {
        0
    } else if x > n as i128 {
        n
    } else {
        x as usize
    }
}

pub open spec fn start_of(position: Option<usize>) -> int {
    match position {
        Some(p) => p as int,
        None => 0,
    }
}

/// The index of the first `pat` at or after `position` (the start when absent).
pub fn index_of(s: &str, pat: char, position: Option<usize>) -> (r: Option<usize>)
    ensures
        r is Some <==> index_of_from(s@, pat, start_of(position)) >= 0,
        r is Some ==> r->0 as int == index_of_from(s@, pat, start_of(position)),
{
    let chars = chars_of(s);
    let from = match position {
        Some(p) => p,
        None => 0,
    };
    assert(from as int == start_of(position));
    let mut i = from;
    while i < chars.len()
        invariant
            from <= i,
            from as int == start_of(position),
            chars@ == s@,
            index_of_from(s@, pat, from as int) == index_of_from(s@, pat, i as int),
        decreases chars@.len() - i,
    {
        if chars[i] == pat {
            assert(index_of_from(s@, pat, i as int) == i);
            return Some(i);
        }
        i += 1;
    }
    assert(index_of_from(s@, pat, i as int) == -1);
    None
}

/// String indexing in the manner of a scripting language.
pub trait JS {
    /// The code of the character at `i`, or -1 past the end.
    fn char_code_at(&self, i: usize) -> i32;

    /// The characters from `start` up to `end`; negative bounds count from the end.
    fn slice(&self, start: isize, end: isize) -> String;

    /// The index of the first `pat` at or after `position`.
    fn index_of(&self, pat: char, position: Option<usize>) -> Option<usize>;
}

impl JS for String {
    fn char_code_at(&self, i: usize) -> i32 {
        char_code_at(self.as_str(), i)
    }

    fn slice(&self, start: isize, end: isize) -> String {
        js_slice(self.as_str(), start, end)
    }

    fn index_of(&self, pat: char, position: Option<usize>) -> Option<usize> {
        index_of(self.as_str(), pat, position)
    }
}

impl<'a> JS for &'a str {
    fn char_code_at(&self, i: usize) -> i32 {
        char_code_at(*self, i)
    }

    fn slice(&self, start: isize, end: isize) -> String {
        js_slice(*self, start, end)
    }

    fn index_of(&self, pat: char, position: Option<usize>) -> Option<usize> {
        index_of(*self, pat, position)
    }
}

} // verus!
