//! Percent-decoding of URL text.

use vstd::prelude::*;
use crate::text::{chars_of, push_char};

verus! {

pub open spec fn is_hex(c: char) -> bool {
    ('0' <= c && c <= '9') || ('a' <= c && c <= 'f') || ('A' <= c && c <= 'F')
}

pub open spec fn hex_val(c: char) -> int {
    if '0' <= c && c <= '9' {
        c as int - '0' as int
    } else if 'a' <= c && c <= 'f' {
        c as int - 'a' as int + 10
    } else {
        c as int - 'A' as int + 10
    }
}

/// Whether a `%` at index 0 starts an escape: two hex digits follow it.
pub open spec fn escape_at(s: Seq<char>) -> bool {
    s.len() >= 3 && s[0] == '%' && is_hex(s[1]) && is_hex(s[2])
}

/// `s` with every `%` followed by two hex digits replaced by the character of that
/// code; every other character, `%` included, is copied as it is.
pub open spec fn decode_spec(s: Seq<char>) -> Seq<char>
    decreases s.len(),
{
    if s.len() == 0 {
        s
    } else if escape_at(s) {
        seq![((16 * hex_val(s[1]) + hex_val(s[2])) as u8) as char] + decode_spec(s.skip(3))
    } else {
        seq![s[0]] + decode_spec(s.skip(1))
    }
}

fn hex_digit(c: char) -> (r: Option<u8>)
    ensures
        r is Some <==> is_hex(c),
        r is Some ==> r->0 as int == hex_val(c) && r->0 < 16,
{
    if '0' <= c && c <= '9' {
        Some((c as u32 - '0' as u32) as u8)
    } else if 'a' <= c && c <= 'f' {
        Some((c as u32 - 'a' as u32 + 10) as u8)
    } else if 'A' <= c && c <= 'F' {
        Some((c as u32 - 'A' as u32 + 10) as u8)
    } else {
        None
    }
}

/// Decodes percent-escapes in `input`, as `decode_spec` says.
pub fn decode_uri_component(input: &str) -> (r: String)
    ensures
        r@ == decode_spec(input@),
{
    let v = chars_of(input);
    let ghost s = input@;
    let mut out = String::new();
    let mut i: usize = 0;
    proof {
        assert(s.skip(0) =~= s);
        assert(out@ + decode_spec(s) =~= decode_spec(s));
    }
    while i < v.len()
        invariant
            v@ == s,
            i <= v@.len(),
            decode_spec(s) == out@ + decode_spec(s.skip(i as int)),
        decreases v@.len() - i,
    {
        let ghost rest = s.skip(i as int);
        let mut decoded: Option<u8> = None;
        if v[i] == '%' && v.len() - i >= 3 {
            match (hex_digit(v[i + 1]), hex_digit(v[i + 2])) {
                (Some(a), Some(b)) => {
                    decoded = Some(a * 16 + b);
                },
                _ => {},
            }
        }
        match decoded {
            Some(b) => {
                assert(escape_at(rest));
                assert(rest.skip(3) =~= s.skip(i + 3));
                push_char(&mut out, b as char);
                i += 3;
            },
            None => {
                assert(!escape_at(rest));
                assert(rest.skip(1) =~= s.skip(i + 1));
                push_char(&mut out, v[i]);
                i += 1;
            },
        }
        assert(decode_spec(s) =~= out@ + decode_spec(s.skip(i as int)));
    }
    assert(s.skip(i as int).len() == 0);
    assert(out@ =~= decode_spec(s));
    out
}

} // verus!
