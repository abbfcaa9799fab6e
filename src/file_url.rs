//! Conversions between file-system paths and `file:` URLs.

use vstd::prelude::*;
use vstd::string::*;
use crate::parsed::WorkingDirs;
use crate::posix::{posix_is_absolute, posix_resolve, strs, Posix};
use crate::segments::PathStyle;
use crate::text::{chars_of, push_char, str_eq, string_of, string_of_range};
use crate::uri::{decode_spec, decode_uri_component};
use crate::url::{url_host, url_parse, url_path, url_scheme, url_with_host, url_with_path, Url};
use crate::url_ops::{has_protocol_spec, is_file_url, StUrl};
use crate::windows::{is_drive_letter, skip_non_sep, win_is_absolute, wsep, Windows};

verus! {

/// The escape of a whitespace character, or the character itself.
pub open spec fn whitespace_char(c: char) -> Seq<char> {
    if c == '\t' {
        "%09"@
    } else if c == '\n' {
        "%0A"@
    } else if c == '\x0B' {
        "%0B"@
    } else if c == '\x0C' {
        "%0C"@
    } else if c == '\r' {
        "%0D"@
    } else if c == ' ' {
        "%20"@
    } else {
        seq![c]
    }
}

/// Each character replaced by what `f` gives for it.
pub open spec fn map_chars(s: Seq<char>, f: spec_fn(char) -> Seq<char>) -> Seq<char>
    decreases s.len(),
{
    if s.len() == 0 {
        s
    } else {
        map_chars(s.drop_last(), f) + f(s.last())
    }
}

pub proof fn lemma_map_chars_step(s: Seq<char>, i: int, f: spec_fn(char) -> Seq<char>)
    requires
        0 <= i < s.len(),
    ensures
        map_chars(s.take(i + 1), f) == map_chars(s.take(i), f) + f(s[i]),
{
    assert(s.take(i + 1).drop_last() =~= s.take(i));
}

/// Appends the characters of `lit` (a short literal) to `out`.
fn push_lit(out: &mut String, lit: &str)
    ensures
        final(out)@ == old(out)@ + lit@,
{
    out.append(lit);
}

fn whitespace_code(c: char) -> (r: Option<&'static str>)
    ensures
        r is Some ==> r->0@ == whitespace_char(c),
        r is None ==> whitespace_char(c) == seq![c],
{
    if c == '\t' {
        Some("%09")
    } else if c == '\n' {
        Some("%0A")
    } else if c == '\x0B' {
        Some("%0B")
    } else if c == '\x0C' {
        Some("%0C")
    } else if c == '\r' {
        Some("%0D")
    } else if c == ' ' {
        Some("%20")
    } else {
        None
    }
}

/// Each whitespace character written as its percent-escape.
pub fn encode_whitespace(input: &str) -> (r: String)
    ensures
        r@ == map_chars(input@, |c: char| whitespace_char(c)),
{
    let v = chars_of(input);
    let ghost f = |c: char| whitespace_char(c);
    let mut out = String::new();
    let mut i: usize = 0;
    assert(v@.take(0) =~= Seq::<char>::empty());
    while i < v.len()
        invariant
            i <= v@.len(),
            v@ == input@,
            f == (|c: char| whitespace_char(c)),
            out@ == map_chars(v@.take(i as int), f),
        decreases v@.len() - i,
    {
        proof {
            lemma_map_chars_step(v@, i as int, f);
        }
        let c = v[i];
        match whitespace_code(c) {
            Some(code) => push_lit(&mut out, code),
            None => push_char(&mut out, c),
        }
        i += 1;
    }
    assert(v@.take(i as int) =~= v@);
    out
}

/// How a POSIX path's characters are written in a `file:` URL path.
pub open spec fn posix_url_char(c: char) -> Seq<char> {
    if c == '%' {
        "%25"@
    } else if c == '\\' {
        "%5C"@
    } else {
        whitespace_char(c)
    }
}

/// How a Windows path's characters are written in a `file:` URL path.
pub open spec fn windows_url_char(c: char) -> Seq<char> {
    if c == '%' {
        "%25"@
    } else if c == '\\' {
        seq!['/']
    } else {
        whitespace_char(c)
    }
}

fn encode_for_url(v: &Vec<char>, start: usize, windows: bool) -> (r: String)
    requires
        start <= v@.len(),
    ensures
        r@ == map_chars(
            v@.skip(start as int),
            if windows {
                |c: char| windows_url_char(c)
            } else {
                |c: char| posix_url_char(c)
            },
        ),
{
    let ghost s = v@.skip(start as int);
    let ghost f = if windows {
        |c: char| windows_url_char(c)
    } else {
        |c: char| posix_url_char(c)
    };
    let mut out = String::new();
    let mut i: usize = start;
    assert(s.take(0) =~= Seq::<char>::empty());
    while i < v.len()
        invariant
            start <= i <= v@.len(),
            s == v@.skip(start as int),
            f == (if windows {
                |c: char| windows_url_char(c)
            } else {
                |c: char| posix_url_char(c)
            }),
            out@ == map_chars(s.take(i - start), f),
        decreases v@.len() - i,
    {
        proof {
            lemma_map_chars_step(s, i - start, f);
        }
        let c = v[i];
        if c == '%' {
            push_lit(&mut out, "%25");
        } else if c == '\\' {
            if windows {
                push_char(&mut out, '/');
                assert(out@ =~= map_chars(s.take(i - start), f) + seq!['/']);
            } else {
                push_lit(&mut out, "%5C");
            }
        } else {
            match whitespace_code(c) {
                Some(code) => push_lit(&mut out, code),
                None => push_char(&mut out, c),
            }
        }
        i += 1;
    }
    assert(s.take(i - start) =~= s);
    out
}

/// The empty-path `file:` URL, `file:///`.
pub open spec fn file_root_href() -> Option<Seq<char>> {
    url_parse("file:///"@)
}

pub open spec fn posix_to_file_url_spec(p: Seq<char>) -> Option<Seq<char>> {
    if !posix_is_absolute(p) {
        None
    } else {
        match file_root_href() {
            Some(h) => Some(url_with_path(h, map_chars(p, |c: char| posix_url_char(c)))),
            None => None,
        }
    }
}

/// The `file:` URL of an absolute POSIX path, with `%`, `\` and whitespace escaped.
pub fn to_file_url(path: &str) -> (r: Result<Url, String>)
    ensures
        r is Ok <==> posix_to_file_url_spec(path@) is Some,
        r is Ok ==> r->Ok_0.href() == posix_to_file_url_spec(path@)->0,
{
    if !Posix.is_absolute(path) {
        let mut m = String::from_str("Path must be absolute: received ");
        m.append(path);
        return Err(m);
    }
    let v = chars_of(path);
    let encoded = encode_for_url(&v, 0, false);
    assert(v@.skip(0) =~= v@);
    match Url::parse("file:///") {
        Ok(root) => Ok(root.with_path(encoded.as_str())),
        Err(e) => Err(e.message),
    }
}

/// Where the host of a UNC path `//host/...` ends, if the path has one.
pub open spec fn unc_host_end(p: Seq<char>) -> Option<int> {
    if p.len() >= 2 && wsep(p[0]) && wsep(p[1]) && skip_non_sep(p, 2) > 2 {
        Some(skip_non_sep(p, 2))
    } else {
        None
    }
}

/// Where the path part of a Windows path starts once a UNC host is taken off.
pub open spec fn windows_path_start(p: Seq<char>) -> int {
    match unc_host_end(p) {
        Some(e) => if e < p.len() && wsep(p[e]) {
            e + 1
        } else {
            e
        },
        None => 0,
    }
}

pub open spec fn windows_to_file_url_spec(p: Seq<char>) -> Option<Seq<char>> {
    if !win_is_absolute(p) {
        None
    } else {
        match file_root_href() {
            Some(root) => {
                let with_path = url_with_path(
                    root,
                    map_chars(p.skip(windows_path_start(p)), |c: char| windows_url_char(c)),
                );
                match unc_host_end(p) {
                    Some(e) => {
                        let host = p.subrange(2, e);
                        if host == "localhost"@ {
                            Some(with_path)
                        } else {
                            match url_with_host(with_path, host) {
                                Some(h) => if url_host(h) is Some {
                                    Some(h)
                                } else {
                                    None
                                },
                                None => None,
                            }
                        }
                    },
                    None => Some(with_path),
                }
            },
            None => None,
        }
    }
}

/// The `file:` URL of an absolute Windows path: separators become `/`, `%` and
/// whitespace are escaped, and the server of a UNC path becomes the URL's host
/// (none for `localhost`).
pub fn windows_to_file_url(path: &str) -> (r: Result<Url, String>)
    ensures
        r is Ok <==> windows_to_file_url_spec(path@) is Some,
        r is Ok ==> r->Ok_0.href() == windows_to_file_url_spec(path@)->0,
{
    if !Windows.is_absolute(path) {
        let mut m = String::from_str("Path must be absolute: received ");
        m.append(path);
        return Err(m);
    }
    let v = chars_of(path);
    let n = v.len();
    let mut host_end: Option<usize> = None;
    if n >= 2 && (v[0] == '/' || v[0] == '\\') && (v[1] == '/' || v[1] == '\\') {
        let mut j: usize = 2;
        while j < n && v[j] != '/' && v[j] != '\\'
            invariant
                2 <= j <= n,
                n == v@.len(),
                skip_non_sep(v@, j as int) == skip_non_sep(v@, 2),
            decreases n - j,
        {
            j += 1;
        }
        if j > 2 {
            host_end = Some(j);
        }
    }
    let start: usize = match host_end {
        Some(e) => if e < n && (v[e] == '/' || v[e] == '\\') {
            e + 1
        } else {
            e
        },
        None => 0,
    };
    let encoded = encode_for_url(&v, start, true);
    let root = match Url::parse("file:///") {
        Ok(root) => root,
        Err(e) => {
            return Err(e.message);
        },
    };
    let url = root.with_path(encoded.as_str());
    match host_end {
        Some(e) => {
            let host = string_of_range(&v, 2, e);
            if str_eq(host.as_str(), "localhost") {
                return Ok(url);
            }
            match url.with_host(host.as_str()) {
                Ok(h) => {
                    match h.host_str() {
                        Some(_) => Ok(h),
                        None => {
                            let mut m = String::from_str("Invalid hostname: ");
                            m.append(host.as_str());
                            Err(m)
                        },
                    }
                },
                Err(e) => Err(e.message),
            }
        },
        None => Ok(url),
    }
}

pub open spec fn drive_upper_spec(s: Seq<char>) -> Seq<char> {
    if s.len() >= 3 && is_drive_letter(s[0]) && s[1] == ':' && wsep(s[2]) && 'a' <= s[0] && s[0]
        <= 'z' {
        s.update(0, crate::url_ops::ascii_upper(s[0]))
    } else {
        s
    }
}

/// A path `x:\...` or `x:/...` with its drive letter upper-cased.
pub fn path_windows_drive_letter_to_upper(abs_file_path: &str) -> (r: String)
    ensures
        r@ == drive_upper_spec(abs_file_path@),
{
    let mut v = chars_of(abs_file_path);
    if v.len() >= 3 && 'a' <= v[0] && v[0] <= 'z' && v[1] == ':' && (v[2] == '/' || v[2] == '\\') {
        let up = ((v[0] as u8) - 32) as char;
        v.set(0, up);
    }
    string_of(&v)
}

pub open spec fn file_url_to_path_spec(u: Seq<char>, windows: bool) -> Option<Seq<char>> {
    match url_parse(u) {
        Some(h) => if url_scheme(h) != "file"@ {
            None
        } else {
            let d = decode_spec(url_path(h));
            match url_host(h) {
                Some(host) => if windows && host.len() > 0 {
                    Some(host + seq![':'] + d)
                } else {
                    Some(d)
                },
                None => Some(d),
            }
        },
        None => None,
    }
}

/// The file-system path of a `file:` URL: its path, percent-decoded; on Windows a
/// host is put in front as a drive (`host:`).
pub fn file_url_to_path(file_url: &str, windows: bool) -> (r: Result<String, String>)
    ensures
        r is Ok <==> file_url_to_path_spec(file_url@, windows) is Some,
        r is Ok ==> r->Ok_0@ == file_url_to_path_spec(file_url@, windows)->0,
{
    let url = match Url::parse(file_url) {
        Ok(u) => u,
        Err(e) => {
            let mut m = String::from_str("Invalid URL: ");
            m.append(e.message.as_str());
            return Err(m);
        },
    };
    if !str_eq(url.scheme().as_str(), "file") {
        return Err(String::from_str("URL must use the 'file' scheme"));
    }
    let decoded = decode_uri_component(url.path().as_str());
    if windows {
        match url.host_str() {
            Some(host) => {
                if host.unicode_len() > 0 {
                    let mut p = String::from_str(host.as_str());
                    push_char(&mut p, ':');
                    p.append(decoded.as_str());
                    return Ok(p);
                }
            },
            None => {},
        }
    }
    Ok(decoded)
}

/// For a `file:` URL its path (drive letter upper-cased), else the text of the URL.
pub fn to_file_path_or_href(url: &StUrl, windows: bool) -> (r: String)
    ensures
        r@ == if has_protocol_spec(url.text(), "file:"@) {
            drive_upper_spec(file_url_to_path_spec(url.text(), windows)->0)
        } else {
            url.text()
        },
{
    if is_file_url(url) {
        proof {
            reveal_strlit("file:");
            reveal_strlit("file");
            assert("file:"@.drop_last() =~= "file"@);
            assert("file:"@.last() == ':');
            assert("file"@.last() == 'e');
            assert(crate::text::trim_trailing("file"@, ':') == "file"@);
            assert(crate::text::trim_trailing("file:"@, ':') == "file"@);
        }
        match file_url_to_path(url.as_str(), windows) {
            Ok(p) => path_windows_drive_letter_to_upper(p.as_str()),
            Err(_) => String::new(),
        }
    } else {
        String::from_str(url.as_str())
    }
}


pub open spec fn extended_unc_prefix() -> Seq<char> {
    seq!['\\', '\\', '?', '\\', 'U', 'N', 'C', '\\']
}

/// The `file:` URL of a UNC path `\\server\resource` (or `\\?\UNC\server\resource`):
/// `None` when the server is missing or empty.
pub open spec fn unc_to_url_spec(p: Seq<char>) -> Option<Seq<char>> {
    let prefix: int = if crate::url_ops::starts_with_seq(p, extended_unc_prefix()) {
        8
    } else {
        2
    };
    let e = crate::js::index_of_from(p, '\\', prefix);
    if e < 0 || e == 2 {
        None
    } else {
        url_parse("file://"@ + p.subrange(prefix, e) + seq!['/'] + p.skip(e))
    }
}

/// The `file:` URL of `filepath`. A UNC path (on Windows) names the host; any other
/// path is resolved (with Windows rules when `windows` is given, else POSIX ones) and
/// handed to the `url` crate.
pub fn path_to_file_url(filepath: &str, windows: Option<bool>, host: PathStyle, dirs: &WorkingDirs) -> (r:
    Result<Url, String>)
    ensures
        ({
            let is_windows = match windows {
                Some(w) => w,
                None => host == PathStyle::Windows,
            };
            let p = filepath@;
            is_windows && p.len() >= 2 && p[0] == '\\' && p[1] == '\\' ==> (r is Ok
                <==> unc_to_url_spec(p) is Some) && (r is Ok ==> r->Ok_0.href() == unc_to_url_spec(
                p,
            )->0)
        }),
{
    let is_windows = match windows {
        Some(w) => w,
        None => matches!(host, PathStyle::Windows),
    };
    let v = chars_of(filepath);
    if is_windows && v.len() >= 2 && v[0] == '\\' && v[1] == '\\' {
        let mut ext: Vec<char> = Vec::new();
        ext.push('\\');
        ext.push('\\');
        ext.push('?');
        ext.push('\\');
        ext.push('U');
        ext.push('N');
        ext.push('C');
        ext.push('\\');
        assert(ext@ =~= extended_unc_prefix());
        let prefix: usize = if crate::text::starts_with_chars(&v, &ext) {
            8
        } else {
            2
        };
        let end = match crate::js::index_of(filepath, '\\', Some(prefix)) {
            Some(e) => e,
            None => {
                let mut m = String::from_str("Invalid path: missing UNC resource path in ");
                m.append(filepath);
                return Err(m);
            },
        };
        if end == 2 {
            let mut m = String::from_str("Invalid path: empty UNC server name in ");
            m.append(filepath);
            return Err(m);
        }
        proof {
            assert(crate::js::start_of(Some(prefix)) == prefix);
            lemma_index_of_from_bounds(filepath@, '\\', prefix as int);
        }
        let mut text = String::from_str("file://");
        let host_part = string_of_range(&v, prefix, end);
        text.append(host_part.as_str());
        push_char(&mut text, '/');
        let rest = string_of_range(&v, end, v.len());
        text.append(rest.as_str());
        assert(v@.subrange(end as int, v@.len() as int) =~= filepath@.skip(end as int));
        assert(text@ =~= "file://"@ + filepath@.subrange(prefix as int, end as int) + seq!['/']
            + filepath@.skip(end as int));
        return match Url::parse(text.as_str()) {
            Ok(u) => Ok(u),
            Err(e) => Err(e.message),
        };
    }
    let resolved = file_path_for_url(filepath, windows, host, dirs);
    match Url::from_file_path(resolved.as_str()) {
        Ok(u) => Ok(u),
        Err(()) => {
            let mut m = String::from_str("Failed to construct a file URL from the path ");
            m.append(resolved.as_str());
            Err(m)
        },
    }
}

/// The path that `path_to_file_url` hands to the `url` crate for a path that is not
/// UNC: `filepath` resolved (with Windows rules when `windows` is given), with `/`
/// added when `filepath` ends with a separator and the resolved path does not end
/// with the host's separator.
pub open spec fn file_path_for_url_spec(
    filepath: Seq<char>,
    windows: Option<bool>,
    host: PathStyle,
    cwd: Seq<char>,
    per_drive: Seq<(Seq<char>, Seq<char>)>,
) -> Seq<char> {
    let is_windows = match windows {
        Some(w) => w,
        None => host == PathStyle::Windows,
    };
    let resolved = match windows {
        Some(_) => crate::windows::win_resolve(seq![filepath], cwd, per_drive),
        None => posix_resolve(seq![filepath], cwd),
    };
    let main_sep = if host == PathStyle::Windows {
        '\\'
    } else {
        '/'
    };
    if filepath.len() > 0 && (filepath.last() == '/' || (is_windows && filepath.last() == '\\'))
        && !(resolved.len() > 0 && resolved.last() == main_sep) {
        resolved.push('/')
    } else {
        resolved
    }
}

/// The path handed to the `url` crate, as `file_path_for_url_spec` says.
pub fn file_path_for_url(filepath: &str, windows: Option<bool>, host: PathStyle, dirs: &WorkingDirs) -> (r:
    String)
    ensures
        r@ == file_path_for_url_spec(
            filepath@,
            windows,
            host,
            dirs.cwd@,
            crate::windows::pair_views(dirs.per_drive@),
        ),
{
    let is_windows = match windows {
        Some(w) => w,
        None => matches!(host, PathStyle::Windows),
    };
    let mut paths: Vec<&str> = Vec::new();
    paths.push(filepath);
    assert(strs(paths@) =~= seq![filepath@]);
    let mut resolved = match windows {
        Some(_) => Windows.resolve(paths.as_slice(), dirs),
        None => Posix.resolve(paths.as_slice(), dirs),
    };
    let v = chars_of(filepath);
    let n = v.len();
    if n > 0 {
        let last = v[n - 1];
        let main_sep = if matches!(host, PathStyle::Windows) {
            '\\'
        } else {
            '/'
        };
        if (last == '/' || (is_windows && last == '\\')) && !crate::text::ends_with_char(
            resolved.as_str(),
            main_sep,
        ) {
            push_char(&mut resolved, '/');
        }
    }
    resolved
}

proof fn lemma_index_of_from_bounds(s: Seq<char>, c: char, from: int)
    ensures
        crate::js::index_of_from(s, c, from) >= 0 ==> from <= crate::js::index_of_from(s, c, from)
            < s.len(),
    decreases s.len() - from,
{
    if 0 <= from < s.len() && s[from] != c {
        lemma_index_of_from_bounds(s, c, from + 1);
    }
}

impl Posix {
    /// The `file:` URL of an absolute POSIX path.
    pub fn to_file_url(path: &str) -> (r: Result<Url, String>)
        ensures
            r is Ok <==> posix_to_file_url_spec(path@) is Some,
            r is Ok ==> r->Ok_0.href() == posix_to_file_url_spec(path@)->0,
    {
        to_file_url(path)
    }
}

impl Windows {
    /// The `file:` URL of an absolute Windows path.
    pub fn to_file_url(&self, path: &str) -> (r: Result<Url, String>)
        ensures
            r is Ok <==> windows_to_file_url_spec(path@) is Some,
            r is Ok ==> r->Ok_0.href() == windows_to_file_url_spec(path@)->0,
    {
        windows_to_file_url(path)
    }

    /// The `file:` URL of `filepath`, as `path_to_file_url` makes it on Windows.
    pub fn path_to_file_url(&self, filepath: &str, windows: Option<bool>, dirs: &WorkingDirs) -> (r:
        Result<Url, String>)
        ensures
            ({
                let is_windows = match windows {
                    Some(w) => w,
                    None => true,
                };
                let p = filepath@;
                is_windows && p.len() >= 2 && p[0] == '\\' && p[1] == '\\' ==> (r is Ok
                    <==> unc_to_url_spec(p) is Some) && (r is Ok ==> r->Ok_0.href()
                    == unc_to_url_spec(p)->0)
            }),
    {
        path_to_file_url(filepath, windows, PathStyle::Windows, dirs)
    }
}

impl crate::node_path::NodePath {
    /// The `file:` URL of an absolute path in the host's syntax.
    pub fn to_file_url(&self, path: &str) -> (r: Result<Url, String>)
        ensures
            ({
                let s = if self.on_windows() {
                    windows_to_file_url_spec(path@)
                } else {
                    posix_to_file_url_spec(path@)
                };
                (r is Ok <==> s is Some) && (r is Ok ==> r->Ok_0.href() == s->0)
            }),
    {
        match self.host {
            PathStyle::Windows => windows_to_file_url(path),
            PathStyle::Posix => to_file_url(path),
        }
    }

    /// The `file:` URL of `filepath`, as `path_to_file_url` makes it on this host.
    pub fn path_to_file_url(&self, filepath: &str, windows: Option<bool>, dirs: &WorkingDirs) -> (r:
        Result<Url, String>)
        ensures
            ({
                let is_windows = match windows {
                    Some(w) => w,
                    None => self.on_windows(),
                };
                let p = filepath@;
                is_windows && p.len() >= 2 && p[0] == '\\' && p[1] == '\\' ==> (r is Ok
                    <==> unc_to_url_spec(p) is Some) && (r is Ok ==> r->Ok_0.href()
                    == unc_to_url_spec(p)->0)
            }),
    {
        path_to_file_url(filepath, windows, self.host, dirs)
    }
}
} // verus!
