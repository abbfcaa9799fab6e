//! Helpers over URLs: scheme tests, parents, trailing slashes, relative paths between
//! URLs, and the drive-letter case of Windows `file:` URLs.

use vstd::prelude::*;
use vstd::string::*;
use crate::glob::{regex_compiles, regex_finds, regex_search};
use crate::posix::common_len_from;
use crate::segments::{drop_empty, join_segments, join_with, split_all, split_nonempty, split_segments, views, PathStyle};
use crate::text::{
    chars_of, ends_with_char, last_index, last_index_of, lemma_last_index_bounds, push_char,
    starts_with_char, starts_with_chars, str_eq, string_of, string_of_range,
    trim_trailing, trimmed_len,
};
use crate::uri::{decode_spec, decode_uri_component};
use crate::url::{
    url_fragment, url_join, url_parse, url_path, url_query, url_scheme, url_with_path, Url,
    UrlError,
};

verus! {

pub open spec fn scheme_pattern() -> Seq<char> {
    "^[a-zA-Z][a-zA-Z0-9+\\-.]*:"@
}

/// Whether `s` starts with a scheme and its colon.
pub open spec fn url_like(s: Seq<char>) -> bool {
    regex_compiles(scheme_pattern()) && regex_finds(scheme_pattern(), s)
}

/// Whether `s` starts with a scheme and its colon.
pub fn is_url_like_str(s: &str) -> (r: bool)
    ensures
        r == url_like(s@),
{
    match regex_search("^[a-zA-Z][a-zA-Z0-9+\\-.]*:", s) {
        Some(b) => b,
        None => false,
    }
}

/// A string, or a URL: what the URL helpers accept.
#[derive(Debug, Clone)]
pub enum StUrl<'a> {
    Str(&'a str),
    String(String),
    Url(Url),
}

impl<'a> StUrl<'a> {
    pub open spec fn text(&self) -> Seq<char> {
        match self {
            StUrl::Str(s) => s@,
            StUrl::String(s) => s@,
            StUrl::Url(u) => u.href(),
        }
    }

    /// The text of the value; for a URL, its serialization.
    pub fn as_str(&self) -> (r: &str)
        ensures
            r@ == self.text(),
    {
        match self {
            StUrl::Str(s) => *s,
            StUrl::String(s) => s.as_str(),
            StUrl::Url(u) => u.as_str(),
        }
    }

    /// The value as a URL: a text is parsed, a URL is copied.
    pub fn as_url(&self) -> (r: Result<Url, UrlError>)
        ensures
            match self {
                StUrl::Url(u) => r is Ok && r->Ok_0.href() == u.href(),
                _ => (r is Ok <==> url_parse(self.text()) is Some) && (r is Ok ==> r->Ok_0.href()
                    == url_parse(self.text())->0),
            },
    {
        match self {
            StUrl::Str(s) => Url::parse(*s),
            StUrl::String(s) => Url::parse(s.as_str()),
            StUrl::Url(u) => Ok(u.duplicate()),
        }
    }
}

/// Telling whether a value is, or looks like, a URL.
pub trait IsUrlLike {
    /// A URL is; a text is when it starts with a scheme and its colon.
    spec fn url_like_spec(&self) -> bool;

    fn is_url_like(&self) -> (r: bool)
        ensures
            r == self.url_like_spec(),
    ;

    fn is_not_url_like(&self) -> (r: bool)
        ensures
            r == !self.url_like_spec(),
    ;
}

impl IsUrlLike for String {
    open spec fn url_like_spec(&self) -> bool {
        url_like(self@)
    }

    fn is_url_like(&self) -> (r: bool) {
        is_url_like_str(self.as_str())
    }

    fn is_not_url_like(&self) -> (r: bool) {
        !is_url_like_str(self.as_str())
    }
}

impl<'a> IsUrlLike for &'a str {
    open spec fn url_like_spec(&self) -> bool {
        url_like((*self)@)
    }

    fn is_url_like(&self) -> (r: bool) {
        is_url_like_str(*self)
    }

    fn is_not_url_like(&self) -> (r: bool) {
        !is_url_like_str(*self)
    }
}

impl IsUrlLike for Url {
    open spec fn url_like_spec(&self) -> bool {
        true
    }

    fn is_url_like(&self) -> (r: bool) {
        true
    }

    fn is_not_url_like(&self) -> (r: bool) {
        false
    }
}

impl<'a> IsUrlLike for StUrl<'a> {
    open spec fn url_like_spec(&self) -> bool {
        url_like(self.text())
    }

    fn is_url_like(&self) -> (r: bool) {
        is_url_like_str(self.as_str())
    }

    fn is_not_url_like(&self) -> (r: bool) {
        !is_url_like_str(self.as_str())
    }
}

/// Whether the value is, or looks like, a URL.
pub fn is_url_like<T: IsUrlLike>(filename: T) -> (r: bool)
    ensures
        r == filename.url_like_spec(),
{
    filename.is_url_like()
}

/// Whether the value neither is nor looks like a URL.
pub fn is_not_url_like<T: IsUrlLike>(filename: T) -> (r: bool)
    ensures
        r == !filename.url_like_spec(),
{
    filename.is_not_url_like()
}

pub open spec fn has_protocol_spec(url: Seq<char>, scheme: Seq<char>) -> bool {
    url_parse(url) is Some && url_scheme(url_parse(url)->0) == trim_trailing(scheme, ':')
}

/// Whether `url` parses and has the scheme `scheme` (given with or without its `:`).
pub fn has_protocol(url: &str, scheme: &str) -> (r: bool)
    ensures
        r == has_protocol_spec(url@, scheme@),
{
    let s = chars_of(scheme);
    let n = trimmed_len(&s, ':');
    let want = string_of_range(&s, 0, n);
    assert(s@.subrange(0, n as int) =~= s@.take(n as int));
    match Url::parse(url) {
        Ok(u) => str_eq(u.scheme().as_str(), want.as_str()),
        Err(_) => false,
    }
}

/// Whether `url` is a `data:` URL.
pub fn is_data_url(url: &str) -> (r: bool)
    ensures
        r == has_protocol_spec(url@, "data:"@),
{
    has_protocol(url, "data:")
}

/// Whether `url` is a `file:` URL.
pub fn is_file_url(url: &StUrl) -> (r: bool)
    ensures
        r == has_protocol_spec(url.text(), "file:"@),
{
    has_protocol(url.as_str(), "file:")
}

/// Every `%3` followed by `upper` replaced by `:`, left to right.
pub open spec fn replace_encoded_colon(p: Seq<char>, upper: char) -> Seq<char>
    decreases p.len(),
{
    if p.len() == 0 {
        p
    } else if p.len() >= 3 && p[0] == '%' && p[1] == '3' && p[2] == upper {
        seq![':'] + replace_encoded_colon(p.skip(3), upper)
    } else {
        seq![p[0]] + replace_encoded_colon(p.skip(1), upper)
    }
}

pub open spec fn ascii_upper(c: char) -> char {
    (((c as u8) - 32) as u8) as char
}

/// A path `/x:...` with a lower-case drive letter `x` upper-cased.
pub open spec fn upper_drive(d: Seq<char>) -> Seq<char> {
    if d.len() >= 3 && d[0] == '/' && 'a' <= d[1] && d[1] <= 'z' && d[2] == ':' {
        d.update(1, ascii_upper(d[1]))
    } else {
        d
    }
}

pub open spec fn windows_url_path(p: Seq<char>) -> Seq<char> {
    upper_drive(replace_encoded_colon(replace_encoded_colon(p, 'A'), 'a'))
}

/// The serialization once a `file:` URL's encoded drive colon is decoded and its
/// drive letter upper-cased.
pub open spec fn windows_url_href(h: Seq<char>) -> Seq<char> {
    if url_scheme(h) == "file"@ && windows_url_path(url_path(h)) != url_path(h) {
        url_with_path(h, windows_url_path(url_path(h)))
    } else {
        h
    }
}

pub open spec fn normalize_windows_url_spec(input: Seq<char>) -> Option<Seq<char>> {
    match url_parse(input) {
        Some(h) => Some(windows_url_href(h)),
        None => None,
    }
}

fn replace_colon_code(p: &Vec<char>, upper: char) -> (r: Vec<char>)
    ensures
        r@ == replace_encoded_colon(p@, upper),
{
    let mut out: Vec<char> = Vec::new();
    let mut i: usize = 0;
    proof {
        assert(p@.skip(0) =~= p@);
        assert(out@ + replace_encoded_colon(p@, upper) =~= replace_encoded_colon(p@, upper));
    }
    while i < p.len()
        invariant
            i <= p@.len(),
            replace_encoded_colon(p@, upper) == out@ + replace_encoded_colon(p@.skip(i as int), upper),
        decreases p@.len() - i,
    {
        let ghost rest = p@.skip(i as int);
        if p.len() - i >= 3 && p[i] == '%' && p[i + 1] == '3' && p[i + 2] == upper {
            assert(rest.skip(3) =~= p@.skip(i + 3));
            out.push(':');
            i += 3;
        } else {
            assert(rest.skip(1) =~= p@.skip(i + 1));
            out.push(p[i]);
            i += 1;
        }
        assert(replace_encoded_colon(p@, upper) =~= out@ + replace_encoded_colon(p@.skip(i as int), upper));
    }
    assert(replace_encoded_colon(p@, upper) =~= out@);
    out
}

/// Parses `input` and, for a `file:` URL, decodes an encoded drive colon and
/// upper-cases the drive letter.
pub fn normalize_windows_url(input: &str) -> (r: Result<Url, UrlError>)
    ensures
        r is Ok <==> normalize_windows_url_spec(input@) is Some,
        r is Ok ==> r->Ok_0.href() == normalize_windows_url_spec(input@)->0,
{
    let url = Url::parse(input)?;
    if !str_eq(url.scheme().as_str(), "file") {
        return Ok(url);
    }
    let path = chars_of(url.path().as_str());
    let a = replace_colon_code(&path, 'A');
    let mut d = replace_colon_code(&a, 'a');
    if d.len() >= 3 && d[0] == '/' && 'a' <= d[1] && d[1] <= 'z' && d[2] == ':' {
        let up = ((d[1] as u8) - 32) as char;
        d.set(1, up);
    }
    if chars_equal_vec(&d, &path) {
        return Ok(url);
    }
    Ok(url.with_path(string_of(&d).as_str()))
}

fn chars_equal_vec(a: &Vec<char>, b: &Vec<char>) -> (r: bool)
    ensures
        r == (a@ == b@),
{
    crate::text::chars_equal(a, b)
}

pub open spec fn to_url_spec(url: Seq<char>, relative_to: Option<Seq<char>>) -> Option<Seq<char>> {
    let joined = match relative_to {
        Some(b) => match url_parse(b) {
            Some(hb) => url_join(hb, url),
            None => None,
        },
        None => url_parse(url),
    };
    match joined {
        Some(h) => normalize_windows_url_spec(h),
        None => None,
    }
}

/// `url` parsed, or resolved against `relative_to`, then put through
/// `normalize_windows_url`.
pub fn to_url(url: &str, relative_to: Option<&str>) -> (r: Result<Url, UrlError>)
    ensures
        r is Ok <==> to_url_spec(
            url@,
            match relative_to {
                Some(b) => Some(b@),
                None => None,
            },
        ) is Some,
        r is Ok ==> r->Ok_0.href() == to_url_spec(
            url@,
            match relative_to {
                Some(b) => Some(b@),
                None => None,
            },
        )->0,
{
    let joined = match relative_to {
        Some(base) => {
            let b = Url::parse(base)?;
            b.join(url)?
        },
        None => Url::parse(url)?,
    };
    normalize_windows_url(joined.as_str())
}

/// `../` written `n` times.
pub open spec fn up_text(n: int) -> Seq<char>
    decreases n,
{
    if n <= 0 {
        Seq::empty()
    } else {
        up_text(n - 1) + seq!['.', '.', '/']
    }
}

pub open spec fn starts_with_seq(s: Seq<char>, p: Seq<char>) -> bool {
    p.len() <= s.len() && s.take(p.len() as int) == p
}

pub open spec fn path_is_rooted(p: Seq<char>) -> bool {
    p.len() > 0 && p[0] == '/'
}

pub open spec fn path_is_dir(p: Seq<char>) -> bool {
    p.len() > 0 && p.last() == '/'
}

/// The relative path from the URL serialized as `hf` to the one serialized as `ht`,
/// by their paths alone: the shorter of the decoded `../` form and the decoded
/// absolute path.
pub open spec fn url_relative_spec(hf: Seq<char>, ht: Seq<char>) -> Seq<char> {
    let pf0 = url_path(hf);
    let pt = url_path(ht);
    if pf0 == pt {
        Seq::empty()
    } else {
        let pf = if !path_is_dir(pf0) {
            match url_join(hf, "./"@) {
                Some(b) => url_path(b),
                None => pf0,
            }
        } else {
            pf0
        };
        if starts_with_seq(pt, pf) {
            decode_spec(pt.skip(pf.len() as int))
        } else {
            let fp = drop_empty(split_segments(pf, PathStyle::Posix));
            let tp = drop_empty(split_segments(pt, PathStyle::Posix));
            let i = common_len_from(fp, tp, 0);
            if i == 0 {
                decode_spec(pt)
            } else {
                let rel = up_text(fp.len() - i + 1) + join_segments(tp.skip(i - 1), '/');
                let dr = decode_spec(rel);
                let da = decode_spec(pt);
                if dr.len() < da.len() {
                    dr
                } else {
                    da
                }
            }
        }
    }
}

/// The relative path from `url_from` to `url_to`, by their paths alone.
pub fn url_to_url_relative(url_from: &Url, url_to: &Url) -> (r: String)
    ensures
        r@ == url_relative_spec(url_from.href(), url_to.href()),
{
    let pf0 = url_from.path();
    let pt = url_to.path();
    if str_eq(pf0.as_str(), pt.as_str()) {
        return String::new();
    }
    let pf = if !ends_with_char(pf0.as_str(), '/') {
        match url_from.join("./") {
            Ok(b) => b.path(),
            Err(_) => pf0,
        }
    } else {
        pf0
    };
    let ptv = chars_of(pt.as_str());
    let pfv = chars_of(pf.as_str());
    if starts_with_chars(&ptv, &pfv) {
        let rest = string_of_range(&ptv, pfv.len(), ptv.len());
        assert(ptv@.subrange(pfv@.len() as int, ptv@.len() as int) =~= pt@.skip(pf@.len() as int));
        return decode_uri_component(rest.as_str());
    }
    let fp = split_nonempty(pf.as_str(), PathStyle::Posix);
    let tp = split_nonempty(pt.as_str(), PathStyle::Posix);
    let i = crate::posix::common_prefix_len(&fp, &tp);
    if i == 0 {
        return decode_uri_component(pt.as_str());
    }
    let mut rel = String::new();
    let n = fp.len() - i + 1;
    let mut k: usize = 0;
    proof {
        assert(rel@ =~= up_text(0));
    }
    while k < n
        invariant
            k <= n,
            rel@ == up_text(k as int),
        decreases n - k,
    {
        push_char(&mut rel, '.');
        push_char(&mut rel, '.');
        push_char(&mut rel, '/');
        k += 1;
        assert(rel@ =~= up_text(k as int));
    }
    let mut rest: Vec<Vec<char>> = Vec::new();
    let mut j: usize = i - 1;
    while j < tp.len()
        invariant
            i - 1 <= j <= tp@.len(),
            i >= 1,
            views(rest@) == views(tp@).subrange(i - 1, j as int),
        decreases tp@.len() - j,
    {
        let ghost prev = rest@;
        rest.push(crate::text::copy_chars(&tp[j]));
        assert(views(rest@) =~= views(prev).push(views(tp@)[j as int]));
        j += 1;
        assert(views(rest@) =~= views(tp@).subrange(i - 1, j as int));
    }
    assert(views(tp@).subrange(i - 1, j as int) =~= views(tp@).skip(i - 1));
    let joined = join_with(&rest, '/');
    rel.append(joined.as_str());
    let dr = decode_uri_component(rel.as_str());
    let da = decode_uri_component(pt.as_str());
    if dr.unicode_len() < da.unicode_len() {
        dr
    } else {
        da
    }
}

/// The relative path between two URLs given as text.
pub fn url_relative(from: &str, to: &str) -> (r: Result<String, UrlError>)
    ensures
        r is Ok <==> (to_url_spec(from@, None) is Some && to_url_spec(to@, None) is Some),
        r is Ok ==> r->Ok_0@ == url_relative_spec(
            to_url_spec(from@, None)->0,
            to_url_spec(to@, None)->0,
        ),
{
    let f = to_url(from, None)?;
    let t = to_url(to, None)?;
    Ok(url_to_url_relative(&f, &t))
}

/// The last segment of a URL path, keeping a trailing `/`.
pub open spec fn basename_spec(p: Seq<char>) -> Seq<char> {
    if p == seq!['/'] || p.len() == 1 {
        Seq::empty()
    } else {
        let adj: int = if path_is_dir(p) {
            2
        } else {
            0
        };
        let idx = last_index_of(p.take(p.len() - adj), '/');
        if idx >= 0 {
            p.skip(idx + 1)
        } else {
            p
        }
    }
}

/// The last segment of a URL path, keeping a trailing `/`.
pub fn basename_of_url_pathname(path: &str) -> (r: String)
    ensures
        r@ == basename_spec(path@),
{
    let v = chars_of(path);
    let n = v.len();
    if n == 1 {
        proof {
            if path@ == seq!['/'] {
                assert(seq!['/'].len() == 1);
            }
        }
        return String::new();
    }
    proof {
        if path@ == seq!['/'] {
            assert(seq!['/'].len() == 1);
        }
    }
    let adj: usize = if n > 0 && v[n - 1] == '/' {
        2
    } else {
        0
    };
    match last_index(&v, n - adj, '/') {
        Some(i) => {
            proof {
                lemma_last_index_bounds(v@.take(n - adj), '/');
            }
            let r = string_of_range(&v, i + 1, n);
            assert(v@.subrange(i + 1, n as int) =~= path@.skip(i + 1));
            r
        },
        None => string_of(&v),
    }
}

/// The serialization once `/` is added to the end of a rooted path without one.
pub open spec fn trailing_slash_href(h: Seq<char>) -> Seq<char> {
    let p = url_path(h);
    if path_is_dir(p) || !path_is_rooted(p) {
        h
    } else {
        url_with_path(h, p.push('/'))
    }
}

/// Adds `/` to the end of the URL's path when the path starts with `/` and does not
/// end with one.
pub fn add_trailing_slash(url: Url) -> (r: Url)
    ensures
        r.href() == trailing_slash_href(url.href()),
{
    let path = url.path();
    if ends_with_char(path.as_str(), '/') || !starts_with_char(path.as_str(), '/') {
        return url;
    }
    let mut p = String::from_str(path.as_str());
    push_char(&mut p, '/');
    url.with_path(p.as_str())
}

/// The URL without the last segment of its path; a directory URL (path ending in `/`)
/// or one whose path does not start with `/` stays as it is.
pub fn url_remove_filename(url: &Url) -> (r: Result<Url, UrlError>)
    ensures
        ({
            let p = url_path(url.href());
            if path_is_dir(p) || !path_is_rooted(p) {
                r is Ok && r->Ok_0.href() == url.href()
            } else {
                (r is Ok <==> url_join(url.href(), "./"@) is Some) && (r is Ok ==> r->Ok_0.href()
                    == url_join(url.href(), "./"@)->0)
            }
        }),
{
    let path = url.path();
    if ends_with_char(path.as_str(), '/') || !starts_with_char(path.as_str(), '/') {
        return Ok(url.duplicate());
    }
    url.join("./")
}

/// The last segment of the URL's path, or empty when the path does not start with `/`.
pub fn url_filename(url: &Url) -> (r: String)
    ensures
        ({
            let p = url_path(url.href());
            r@ == if !path_is_rooted(p) {
                Seq::empty()
            } else {
                p.skip(last_index_of(p, '/') + 1)
            }
        }),
{
    let path = url.path();
    if !starts_with_char(path.as_str(), '/') {
        return String::new();
    }
    let v = chars_of(path.as_str());
    proof {
        assert(v@.take(v@.len() as int) =~= v@);
        lemma_last_index_bounds(v@, '/');
    }
    match last_index(&v, v.len(), '/') {
        Some(i) => {
            let r = string_of_range(&v, i + 1, v.len());
            assert(v@.subrange(i + 1, v@.len() as int) =~= v@.skip(i + 1));
            r
        },
        None => string_of(&v),
    }
}

/// The parent of the URL serialized as `h`.
pub open spec fn parent_href(h: Seq<char>) -> Option<Seq<char>> {
    if url_scheme(h) == "data"@ {
        Some(h)
    } else {
        let p = url_path(h);
        if !path_is_rooted(p) {
            let parts = split_segments(p, PathStyle::Posix);
            let drop: int = if path_is_dir(p) {
                2
            } else {
                1
            };
            let keep = if parts.len() >= drop {
                parts.len() - drop
            } else {
                0
            };
            let joined = join_segments(parts.take(keep), '/');
            let parent = if joined.len() > 0 {
                joined.push('/')
            } else {
                joined
            };
            let with_query = match url_query(h) {
                Some(q) => url_scheme(h).push(':') + parent + seq!['?'] + q,
                None => url_scheme(h).push(':') + parent,
            };
            let text = match url_fragment(h) {
                Some(f) => with_query + seq!['#'] + f,
                None => with_query,
            };
            url_parse(text)
        } else if path_is_dir(p) {
            url_join(h, ".."@)
        } else {
            url_join(h, "."@)
        }
    }
}

pub open spec fn url_parent_spec(url: Seq<char>) -> Option<Seq<char>> {
    match to_url_spec(url, None) {
        Some(h) => parent_href(h),
        None => None,
    }
}

/// The URL one level up: the last segment of the path is dropped (two when the path
/// ends in `/`); a `data:` URL has no parent and stays as it is.
pub fn url_parent(url: &str) -> (r: Result<Url, UrlError>)
    ensures
        r is Ok <==> url_parent_spec(url@) is Some,
        r is Ok ==> r->Ok_0.href() == url_parent_spec(url@)->0,
{
    let u = to_url(url, None)?;
    if str_eq(u.scheme().as_str(), "data") {
        return Ok(u);
    }
    let path = u.path();
    let trailing = ends_with_char(path.as_str(), '/');
    if !starts_with_char(path.as_str(), '/') {
        let parts = split_all(path.as_str(), PathStyle::Posix);
        let drop: usize = if trailing {
            2
        } else {
            1
        };
        let keep = if parts.len() >= drop {
            parts.len() - drop
        } else {
            0
        };
        let mut kept: Vec<Vec<char>> = Vec::new();
        let mut j: usize = 0;
        while j < keep
            invariant
                j <= keep <= parts@.len(),
                views(kept@) == views(parts@).take(j as int),
            decreases keep - j,
        {
            let ghost prev = kept@;
            kept.push(crate::text::copy_chars(&parts[j]));
            assert(views(kept@) =~= views(prev).push(views(parts@)[j as int]));
            j += 1;
            assert(views(kept@) =~= views(parts@).take(j as int));
        }
        let ghost h = u.href();
        let ghost joined = join_segments(split_segments(url_path(h), PathStyle::Posix).take(keep as int), '/');
        assert(views(kept@) == split_segments(url_path(h), PathStyle::Posix).take(keep as int));
        let mut parent = join_with(&kept, '/');
        if parent.unicode_len() > 0 {
            push_char(&mut parent, '/');
        }
        let ghost sp = if joined.len() > 0 { joined.push('/') } else { joined };
        assert(parent@ == sp);
        let mut text = u.scheme();
        push_char(&mut text, ':');
        text.append(parent.as_str());
        let ghost base = url_scheme(h).push(':') + sp;
        assert(text@ =~= base);
        match u.query() {
            Some(q) => {
                push_char(&mut text, '?');
                text.append(q.as_str());
                assert(text@ =~= base + seq!['?'] + q@);
            },
            None => {},
        }
        let ghost wq = text@;
        match u.fragment() {
            Some(f) => {
                push_char(&mut text, '#');
                text.append(f.as_str());
                assert(text@ =~= wq + seq!['#'] + f@);
            },
            None => {},
        }
        return Url::parse(text.as_str());
    }
    if trailing {
        u.join("..")
    } else {
        u.join(".")
    }
}

/// The parent of a URL given as text, as `url_parent` gives it.
pub fn url_dirname(url: &str) -> (r: Result<Url, UrlError>)
    ensures
        r is Ok <==> url_parent_spec(url@) is Some,
        r is Ok ==> r->Ok_0.href() == url_parent_spec(url@)->0,
{
    url_parent(url)
}


/// The last segment of the path of `url` (parsed as `to_url` does), keeping a
/// trailing `/`.
pub fn url_basename(url: &str) -> (r: Result<String, UrlError>)
    ensures
        r is Ok <==> to_url_spec(url@, None) is Some,
        r is Ok ==> r->Ok_0@ == basename_spec(url_path(to_url_spec(url@, None)->0)),
{
    let u = to_url(url, None)?;
    Ok(basename_of_url_pathname(u.path().as_str()))
}
} // verus!
