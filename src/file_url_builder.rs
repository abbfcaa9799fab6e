//! Building `file:` URLs from paths relative to a fixed working directory URL.

use vstd::prelude::*;
use vstd::string::*;
use crate::file_url::{
    drive_upper_spec, file_url_to_path_spec, posix_to_file_url_spec, windows_to_file_url_spec,
    map_chars, lemma_map_chars_step, to_file_path_or_href, };
use crate::node_path::NodePath;
use crate::parsed::WorkingDirs;
use crate::posix::{posix_is_absolute, posix_normalize, posix_parse, posix_relative, posix_resolve, strs};
use crate::segments::PathStyle;
use crate::text::{chars_of, ends_with_char, push_char, str_eq, string_of};
use crate::url::{url_join, url_parse, url_path, url_scheme, Url, UrlError};
use crate::url_ops::{
    add_trailing_slash, ascii_upper, has_protocol_spec, trailing_slash_href, is_url_like_str, normalize_windows_url,
    normalize_windows_url_spec, url_like, url_parent, url_parent_spec, IsUrlLike, StUrl,
};
use crate::windows::{pair_views, win_is_absolute, win_normalize, win_parse, win_relative, win_resolve};

verus! {

/// How a path character is written by `encode_path_chars`.
pub open spec fn encode_path_char(c: char, encode_backslash: bool) -> Seq<char> {
    if c == '%' {
        "%25"@
    } else if c == '\\' && encode_backslash {
        "%5C"@
    } else if c == '\n' {
        "%0A"@
    } else if c == '\r' {
        "%0D"@
    } else if c == '\t' {
        "%09"@
    } else {
        seq![c]
    }
}

/// How a path character is written in a URL path.
pub open spec fn url_path_char(c: char, encode_backslash: bool) -> Seq<char> {
    if c == '?' {
        "%3F"@
    } else if c == '#' {
        "%23"@
    } else if c == '\\' && !encode_backslash {
        seq!['/']
    } else {
        encode_path_char(c, encode_backslash)
    }
}

pub open spec fn is_ascii_alpha(c: char) -> bool {
    ('a' <= c && c <= 'z') || ('A' <= c && c <= 'Z')
}

pub open spec fn to_ascii_upper(c: char) -> char {
    if 'a' <= c && c <= 'z' {
        ascii_upper(c)
    } else {
        c
    }
}

/// A path written as a URL path; with Windows rules a leading drive `x:` becomes
/// `/X:`.
pub open spec fn path_for_url(p: Seq<char>, windows: bool, encode_backslash: bool) -> Seq<char> {
    let m = map_chars(p, |c: char| url_path_char(c, encode_backslash));
    if windows && m.len() >= 2 && m[1] == ':' && is_ascii_alpha(m[0]) {
        seq!['/', to_ascii_upper(m[0])] + m.skip(1)
    } else {
        m
    }
}

/// The href a `StUrl` stands for: a URL's own, or what its text parses to.
pub open spec fn st_href(s: StUrl) -> Option<Seq<char>> {
    match s {
        StUrl::Url(u) => Some(u.href()),
        _ => url_parse(s.text()),
    }
}

/// The `file:` URL of the root of `filepath`'s resolved path, for a host with
/// Windows syntax or not, with Windows URL rules or not.
pub open spec fn root_url_of(
    filepath: Seq<char>,
    host_windows: bool,
    windows: bool,
    cwd: Seq<char>,
    per_drive: Seq<(Seq<char>, Seq<char>)>,
) -> Option<Seq<char>> {
    let resolved = if host_windows {
        win_resolve(seq![filepath], cwd, per_drive)
    } else {
        posix_resolve(seq![filepath], cwd)
    };
    let root = if host_windows {
        win_parse(win_normalize(resolved)).root
    } else {
        posix_parse(posix_normalize(resolved)).root
    };
    let fs_root = if host_windows {
        windows_to_file_url_spec(seq!['/'])
    } else {
        posix_to_file_url_spec(seq!['/'])
    };
    match fs_root {
        Some(h) => match url_parse(h) {
            Some(b) => url_join(b, path_for_url(root, windows, !windows && !host_windows)),
            None => None,
        },
        None => None,
    }
}

/// The working directory URL that a new builder starts from.
pub open spec fn default_cwd_url(
    host_windows: bool,
    windows: bool,
    cwd: Seq<char>,
    per_drive: Seq<(Seq<char>, Seq<char>)>,
) -> Option<Seq<char>> {
    let resolved = if host_windows {
        win_resolve(Seq::empty(), cwd, per_drive)
    } else {
        posix_resolve(Seq::empty(), cwd)
    };
    match root_url_of("."@, host_windows, windows, cwd, per_drive) {
        Some(root) => url_join(
            root,
            path_for_url(resolved.push('/'), windows, !windows && !host_windows),
        ),
        None => None,
    }
}

/// Backslashes written as `/`.
pub open spec fn slashed(s: Seq<char>) -> Seq<char> {
    s.map_values(|c: char| if c == '\\' { '/' } else { c })
}

/// Converts paths to `file:` URLs against a working directory URL.
#[derive(Debug)]
pub struct FileUrlBuilder {
    windows: bool,
    path: NodePath,
    cwd: Url,
    dirs: WorkingDirs,
}

impl FileUrlBuilder {
    pub closed spec fn windows_mode(&self) -> bool {
        self.windows
    }

    pub closed spec fn host_windows(&self) -> bool {
        self.path.on_windows()
    }

    pub closed spec fn cwd_href(&self) -> Seq<char> {
        self.cwd.href()
    }

    pub closed spec fn dirs_cwd(&self) -> Seq<char> {
        self.dirs.cwd@
    }

    pub closed spec fn dirs_per_drive(&self) -> Seq<(Seq<char>, Seq<char>)> {
        pair_views(self.dirs.per_drive@)
    }

    /// Where the host's resolution takes the paths `paths`.
    pub open spec fn resolve_spec(&self, paths: Seq<Seq<char>>) -> Seq<char> {
        if self.host_windows() {
            win_resolve(paths, self.dirs_cwd(), self.dirs_per_drive())
        } else {
            posix_resolve(paths, self.dirs_cwd())
        }
    }

    /// The URL (before `normalize_windows_url`) that `to_file_url` makes of a path
    /// `text`, given the text and URL of what it is relative to.
    pub open spec fn path_url_spec(
        &self,
        text: Seq<char>,
        rel_text: Seq<char>,
        rel_href: Option<Seq<char>>,
    ) -> Option<Seq<char>> {
        let filename = if self.host_windows() {
            slashed(text)
        } else {
            text
        };
        let w = self.windows_mode();
        let enc = self.encodes_backslash();
        if url_like(rel_text) {
            match rel_href {
                Some(b) => url_join(b, path_for_url(filename, w, enc)),
                None => None,
            }
        } else {
            let resolved = self.resolve_spec(seq![rel_text, filename]);
            let pathname = if filename.len() > 0 && filename.last() == '/' {
                path_for_url(resolved, w, enc).push('/')
            } else {
                path_for_url(resolved, w, enc)
            };
            url_join(self.cwd_href(), path_for_url(pathname, w, enc))
        }
    }

    pub open spec fn file_url_spec(&self, f: StUrl, relative_to: Option<StUrl>) -> Option<
        Seq<char>,
    > {
        match f {
            StUrl::Url(u) => Some(u.href()),
            _ => if url_like(f.text()) {
                url_parse(f.text())
            } else {
                match relative_to {
                    Some(r) => self.path_url_spec(f.text(), r.text(), st_href(r)),
                    None => self.path_url_spec(f.text(), self.cwd_href(), Some(self.cwd_href())),
                }
            },
        }
    }

    /// What `to_file_url` gives, before it is checked for success.
    pub open spec fn to_file_url_spec(&self, f: StUrl, relative_to: Option<StUrl>) -> Option<
        Seq<char>,
    > {
        match self.file_url_spec(f, relative_to) {
            Some(h) => normalize_windows_url_spec(h),
            None => None,
        }
    }

    /// The `file:` URL of the root of `filepath` (before it is checked for success).
    pub open spec fn root_url_spec(&self, filepath: Seq<char>) -> Option<Seq<char>> {
        root_url_of(
            filepath,
            self.host_windows(),
            self.windows_mode(),
            self.dirs_cwd(),
            self.dirs_per_drive(),
        )
    }

    /// The host's relative path from `from` to `to`.
    pub open spec fn relative_path_spec(&self, from: Seq<char>, to: Seq<char>) -> Seq<char> {
        if self.host_windows() {
            win_relative(from, to, self.dirs_cwd(), self.dirs_per_drive())
        } else {
            posix_relative(from, to, self.dirs_cwd())
        }
    }

    /// What `relative` gives for the URLs serialized as `hf` and `ht`.
    pub open spec fn relative_spec(&self, hf: Seq<char>, ht: Seq<char>) -> Seq<char> {
        if url_scheme(hf) == url_scheme(ht) && url_scheme(hf) == "file"@ {
            if hf == ht {
                Seq::empty()
            } else {
                let from = if hf.len() > 0 && hf.last() == '/' {
                    hf
                } else {
                    match url_join(hf, "./"@) {
                        Some(h) => h,
                        None => hf,
                    }
                };
                let fp = url_path(from);
                let tp = url_path(ht);
                if crate::url_ops::starts_with_seq(tp, fp) {
                    crate::uri::decode_spec(tp.skip(fp.len() as int))
                } else {
                    let rel = self.relative_path_spec(
                        filepath_or_href_spec(from, self.windows_mode()),
                        filepath_or_href_spec(ht, self.windows_mode()),
                    );
                    let p = path_for_url(rel, self.windows_mode(), self.encodes_backslash());
                    let to_is_dir = ht.len() > 0 && ht.last() == '/';
                    if to_is_dir && !(p.len() > 0 && p.last() == '/') {
                        crate::uri::decode_spec(p.push('/'))
                    } else {
                        crate::uri::decode_spec(p)
                    }
                }
            }
        } else {
            crate::uri::decode_spec(crate::url_ops::url_relative_spec(hf, ht))
        }
    }

    pub open spec fn encodes_backslash(&self) -> bool {
        !self.windows_mode() && !self.host_windows()
    }

    /// The working directory URL.
    pub fn cwd(&self) -> (r: &Url)
        ensures
            r.href() == self.cwd_href(),
    {
        &self.cwd
    }

    /// A builder; `windows` defaults to the host's syntax, and `cwd` to the URL of the
    /// current directory (with a trailing `/`).
    pub fn new(windows: Option<bool>, cwd: Option<Url>, host: PathStyle, dirs: WorkingDirs) -> (r:
        Result<FileUrlBuilder, UrlError>)
        ensures
            r is Ok ==> r->Ok_0.windows_mode() == match windows {
                Some(w) => w,
                None => host == PathStyle::Windows,
            },
            r is Ok ==> r->Ok_0.host_windows() == (host == PathStyle::Windows),
            r is Ok ==> r->Ok_0.dirs_cwd() == dirs.cwd@,
            r is Ok ==> r->Ok_0.dirs_per_drive() == pair_views(dirs.per_drive@),
            r is Ok && cwd is Some ==> r->Ok_0.cwd_href() == cwd->0.href(),
            cwd is Some ==> r is Ok,
            ({
                let want = default_cwd_url(
                    host == PathStyle::Windows,
                    match windows {
                        Some(w) => w,
                        None => host == PathStyle::Windows,
                    },
                    dirs.cwd@,
                    pair_views(dirs.per_drive@),
                );
                cwd is None ==> (r is Ok <==> want is Some) && (r is Ok ==> r->Ok_0.cwd_href()
                    == want->0)
            }),
    {
        let windows = match windows {
            Some(w) => w,
            None => matches!(host, PathStyle::Windows),
        };
        let path = NodePath::new(host);
        let cwd = match cwd {
            Some(c) => c,
            None => {
                let none: Vec<&str> = Vec::new();
                assert(strs(none@) =~= Seq::<Seq<char>>::empty());
                let mut resolved = path.resolve(none.as_slice(), &dirs);
                push_char(&mut resolved, '/');
                let root = root_url(".", &path, windows, &dirs)?;
                assert(path.on_windows() == (host == PathStyle::Windows));
                let normalized = normalize_for_url(resolved.as_str(), windows, !windows && !matches!(host, PathStyle::Windows));
                root.join(normalized.as_str())?
            },
        };
        Ok(FileUrlBuilder { windows, path, cwd, dirs })
    }

    /// `%`, newline, carriage return and tab escaped, and backslashes too unless
    /// Windows rules apply.
    pub fn encode_path_chars(&self, filepath: &str) -> (r: String)
        ensures
            r@ == map_chars(filepath@, |c: char| encode_path_char(c, self.encodes_backslash())),
    {
        encode_chars(filepath, !self.windows && !matches!(self.path.host, PathStyle::Windows))
    }

    /// `filepath` written as a URL path, as `path_for_url` says.
    pub fn normalize_filepath_for_url(&self, filepath: &str) -> (r: String)
        ensures
            r@ == path_for_url(filepath@, self.windows_mode(), self.encodes_backslash()),
    {
        normalize_for_url(filepath, self.windows, !self.windows && !matches!(self.path.host, PathStyle::Windows))
    }

    /// `pathname`, written as a URL path, resolved against `relative_to` (or the
    /// working directory).
    pub fn path_to_file_url(&self, pathname: &str, relative_to: Option<&StUrl>) -> (r: Result<
        Url,
        UrlError,
    >)
        ensures
            ({
                let base = match relative_to {
                    Some(s) => st_href(*s),
                    None => Some(self.cwd_href()),
                };
                let p = path_for_url(pathname@, self.windows_mode(), self.encodes_backslash());
                let want = match base {
                    Some(b) => url_join(b, p),
                    None => None,
                };
                (r is Ok <==> want is Some) && (r is Ok ==> r->Ok_0.href() == want->0)
            }),
    {
        let normalized = self.normalize_filepath_for_url(pathname);
        let base = match relative_to {
            Some(u) => u.as_url()?,
            None => self.cwd.duplicate(),
        };
        base.join(normalized.as_str())
    }

    /// Whether `filepath` looks like a URL or is an absolute path of the host.
    pub fn is_absolute(&self, filepath: &str) -> (r: bool)
        ensures
            r == (url_like(filepath@) || if self.host_windows() {
                win_is_absolute(filepath@)
            } else {
                posix_is_absolute(filepath@)
            }),
    {
        is_url_like_str(filepath) || self.path.is_absolute(filepath)
    }

    /// Whether the value is, or looks like, a URL.
    pub fn is_url_like<T: IsUrlLike>(url: T) -> (r: bool)
        ensures
            r == url.url_like_spec(),
    {
        url.is_url_like()
    }

    /// A URL as it is (put through `normalize_windows_url`), or a path as a `file:` URL:
    /// joined onto `relative_to` when that is a URL, else resolved against it as a path.
    pub fn to_file_url(&self, filename_or_url: &StUrl, relative_to: Option<&StUrl>) -> (r: Result<
        Url,
        UrlError,
    >)
        ensures
            ({
                let want = match self.file_url_spec(
                    *filename_or_url,
                    match relative_to {
                        Some(x) => Some(*x),
                        None => None,
                    },
                ) {
                    Some(h) => normalize_windows_url_spec(h),
                    None => None,
                };
                (r is Ok <==> want is Some) && (r is Ok ==> r->Ok_0.href() == want->0)
            }),
    {
        let url = self.file_url_of(filename_or_url, relative_to)?;
        normalize_windows_url(url.as_str())
    }

    fn file_url_of(&self, filename_or_url: &StUrl, relative_to: Option<&StUrl>) -> (r: Result<
        Url,
        UrlError,
    >)
        ensures
            ({
                let want = self.file_url_spec(
                    *filename_or_url,
                    match relative_to {
                        Some(x) => Some(*x),
                        None => None,
                    },
                );
                (r is Ok <==> want is Some) && (r is Ok ==> r->Ok_0.href() == want->0)
            }),
    {
        match filename_or_url {
            StUrl::Url(u) => {
                return Ok(u.duplicate());
            },
            _ => {},
        }
        if is_url_like_str(filename_or_url.as_str()) {
            return filename_or_url.as_url();
        }
        let cwd_text = StUrl::Url(self.cwd.duplicate());
        let rel: &StUrl = match relative_to {
            Some(r) => r,
            None => &cwd_text,
        };
        let text = filename_or_url.as_str();
        let filename = if matches!(self.path.host, PathStyle::Windows) {
            let mut v = chars_of(text);
            let ghost sl = slashed(text@);
            let mut i: usize = 0;
            while i < v.len()
                invariant
                    i <= v@.len(),
                    v@.len() == text@.len(),
                    sl.len() == text@.len(),
                    forall|j: int|
                        0 <= j < sl.len() ==> sl[j] == (if text@[j] == '\\' {
                            '/'
                        } else {
                            text@[j]
                        }),
                    forall|j: int| 0 <= j < i ==> v@[j] == sl[j],
                    forall|j: int| i <= j < v@.len() ==> v@[j] == text@[j],
                decreases v@.len() - i,
            {
                if v[i] == '\\' {
                    v.set(i, '/');
                }
                i += 1;
            }
            assert(v@ =~= sl);
            string_of(&v)
        } else {
            String::from_str(text)
        };
        let encode_backslash = !self.windows && !matches!(self.path.host, PathStyle::Windows);
        if is_url_like_str(rel.as_str()) {
            let pathname = normalize_for_url(filename.as_str(), self.windows, encode_backslash);
            let base = rel.as_url()?;
            return base.join(pathname.as_str());
        }
        let append_slash = ends_with_char(filename.as_str(), '/');
        let mut paths: Vec<&str> = Vec::new();
        paths.push(rel.as_str());
        paths.push(filename.as_str());
        assert(strs(paths@) =~= seq![rel.text(), filename@]);
        let resolved = self.path.resolve(paths.as_slice(), &self.dirs);
        assert(resolved@ == self.resolve_spec(seq![rel.text(), filename@]));
        let mut pathname = normalize_for_url(resolved.as_str(), self.windows, encode_backslash);
        if append_slash {
            push_char(&mut pathname, '/');
        }
        let normalized = normalize_for_url(pathname.as_str(), self.windows, encode_backslash);
        self.cwd.join(normalized.as_str())
    }

    /// `to_file_url` with a trailing `/` added to the path.
    pub fn to_fil_dir_url(&self, dir_or_url: &StUrl, relative_to: Option<&StUrl>) -> (r: Result<
        Url,
        UrlError,
    >)
        ensures
            ({
                let want = self.to_file_url_spec(
                    *dir_or_url,
                    match relative_to {
                        Some(x) => Some(*x),
                        None => None,
                    },
                );
                (r is Ok <==> want is Some) && (r is Ok ==> r->Ok_0.href() == trailing_slash_href(
                    want->0,
                ))
            }),
    {
        let url = self.to_file_url(dir_or_url, relative_to)?;
        Ok(add_trailing_slash(url))
    }

    /// The file-system path of a `file:` URL (made with `to_file_url`), else the URL's
    /// text.
    pub fn url_to_filepath_or_href(&self, url: &StUrl) -> (r: Result<String, UrlError>)
        ensures
            ({
                let want = self.to_file_url_spec(*url, None);
                (r is Ok <==> want is Some) && (r is Ok ==> r->Ok_0@ == filepath_or_href_spec(
                    want->0,
                    self.windows_mode(),
                ))
            }),
    {
        let u = self.to_file_url(url, None)?;
        Ok(filepath_or_href(&u, self.windows))
    }

    /// The relative path from `url_from` to `url_to`: for two `file:` URLs a path
    /// (with a trailing `/` when `url_to` is a directory), else the relative URL path.
    pub fn relative(&self, url_from: &Url, url_to: &Url) -> (r: String)
        ensures
            r@ == self.relative_spec(url_from.href(), url_to.href()),
    {
        let sf = url_from.scheme();
        let st = url_to.scheme();
        if str_eq(sf.as_str(), st.as_str()) && str_eq(sf.as_str(), "file") {
            if str_eq(url_from.as_str(), url_to.as_str()) {
                return String::new();
            }
            let from = if ends_with_char(url_from.as_str(), '/') {
                url_from.duplicate()
            } else {
                match url_from.join("./") {
                    Ok(u) => u,
                    Err(_) => url_from.duplicate(),
                }
            };
            let from_path = chars_of(from.path().as_str());
            let to_path = chars_of(url_to.path().as_str());
            if crate::text::starts_with_chars(&to_path, &from_path) {
                let rest = crate::text::string_of_range(&to_path, from_path.len(), to_path.len());
                return crate::uri::decode_uri_component(rest.as_str());
            }
            let p_from = filepath_or_href(&from, self.windows);
            let p_to = filepath_or_href(url_to, self.windows);
            let to_is_dir = ends_with_char(url_to.as_str(), '/');
            let rel = self.path.relative(p_from.as_str(), p_to.as_str(), &self.dirs);
            let mut pathname = self.normalize_filepath_for_url(rel.as_str());
            if to_is_dir && !ends_with_char(pathname.as_str(), '/') {
                push_char(&mut pathname, '/');
            }
            return crate::uri::decode_uri_component(pathname.as_str());
        }
        let rel = crate::url_ops::url_to_url_relative(url_from, url_to);
        crate::uri::decode_uri_component(rel.as_str())
    }

    /// The parent of the `file:` URL that `to_file_url` makes of `url`.
    pub fn url_dirname(&self, url: &StUrl) -> (r: Result<Url, UrlError>)
        ensures
            ({
                let want = match self.to_file_url_spec(*url, None) {
                    Some(h) => url_parent_spec(h),
                    None => None,
                };
                (r is Ok <==> want is Some) && (r is Ok ==> r->Ok_0.href() == want->0)
            }),
    {
        let u = self.to_file_url(url, None)?;
        url_parent(u.as_str())
    }

    /// The `file:` URL of the root of `filepath` (the current directory when absent).
    pub fn root_file_url(&self, filepath: Option<&str>) -> (r: Result<Url, UrlError>)
        ensures
            ({
                let want = self.root_url_spec(
                    match filepath {
                        Some(f) => f@,
                        None => "."@,
                    },
                );
                (r is Ok <==> want is Some) && (r is Ok ==> r->Ok_0.href() == want->0)
            }),
    {
        let f = match filepath {
            Some(f) => f,
            None => ".",
        };
        root_url(f, &self.path, self.windows, &self.dirs)
    }
}

/// The file-system path of a `file:` URL, else its text.
pub open spec fn filepath_or_href_spec(h: Seq<char>, windows: bool) -> Seq<char> {
    if url_scheme(h) != "file"@ {
        h
    } else if has_protocol_spec(h, "file:"@) {
        drive_upper_spec(drive_upper_spec(file_url_to_path_spec(h, windows)->0))
    } else {
        drive_upper_spec(h)
    }
}

fn filepath_or_href(url: &Url, windows: bool) -> (r: String)
    ensures
        r@ == filepath_or_href_spec(url.href(), windows),
{
    if !str_eq(url.scheme().as_str(), "file") {
        return String::from_str(url.as_str());
    }
    let s = StUrl::Url(url.duplicate());
    let p = to_file_path_or_href(&s, windows);
    crate::file_url::path_windows_drive_letter_to_upper(p.as_str())
}

/// The `file:` URL of the root of `filepath`'s resolved path.
fn root_url(filepath: &str, path: &NodePath, windows: bool, dirs: &WorkingDirs) -> (r: Result<Url, UrlError>)
    ensures
        ({
            let want = root_url_of(
                filepath@,
                path.on_windows(),
                windows,
                dirs.cwd@,
                pair_views(dirs.per_drive@),
            );
            (r is Ok <==> want is Some) && (r is Ok ==> r->Ok_0.href() == want->0)
        }),
{
    let mut paths: Vec<&str> = Vec::new();
    paths.push(filepath);
    assert(strs(paths@) =~= seq![filepath@]);
    let resolved = path.resolve(paths.as_slice(), dirs);
    let normalized = path.normalize(resolved.as_str());
    let parsed = path.parse(normalized.as_str());
    let encode_backslash = !windows && !matches!(path.host, PathStyle::Windows);
    let root_for_url = normalize_for_url(parsed.root.as_str(), windows, encode_backslash);
    proof {
        reveal_strlit("/");
        assert("/"@ =~= seq!['/']);
    }
    let fs_root = match path.to_file_url("/") {
        Ok(u) => u,
        Err(message) => {
            return Err(UrlError { message });
        },
    };
    let base = Url::parse(fs_root.as_str())?;
    base.join(root_for_url.as_str())
}

fn encode_chars(filepath: &str, encode_backslash: bool) -> (r: String)
    ensures
        r@ == map_chars(filepath@, |c: char| encode_path_char(c, encode_backslash)),
{
    let v = chars_of(filepath);
    let ghost f = |c: char| encode_path_char(c, encode_backslash);
    let mut out = String::new();
    let mut i: usize = 0;
    assert(v@.take(0) =~= Seq::<char>::empty());
    while i < v.len()
        invariant
            i <= v@.len(),
            v@ == filepath@,
            f == (|c: char| encode_path_char(c, encode_backslash)),
            out@ == map_chars(v@.take(i as int), f),
        decreases v@.len() - i,
    {
        proof {
            lemma_map_chars_step(v@, i as int, f);
        }
        let c = v[i];
        if c == '%' {
            out.append("%25");
        } else if c == '\\' && encode_backslash {
            out.append("%5C");
        } else if c == '\n' {
            out.append("%0A");
        } else if c == '\r' {
            out.append("%0D");
        } else if c == '\t' {
            out.append("%09");
        } else {
            push_char(&mut out, c);
        }
        i += 1;
    }
    assert(v@.take(i as int) =~= v@);
    out
}

fn normalize_for_url(filepath: &str, windows: bool, encode_backslash: bool) -> (r: String)
    ensures
        r@ == path_for_url(filepath@, windows, encode_backslash),
{
    let v = chars_of(filepath);
    let ghost f = |c: char| url_path_char(c, encode_backslash);
    let mut out: Vec<char> = Vec::new();
    let mut i: usize = 0;
    assert(v@.take(0) =~= Seq::<char>::empty());
    while i < v.len()
        invariant
            i <= v@.len(),
            v@ == filepath@,
            f == (|c: char| url_path_char(c, encode_backslash)),
            out@ == map_chars(v@.take(i as int), f),
        decreases v@.len() - i,
    {
        proof {
            lemma_map_chars_step(v@, i as int, f);
            reveal_strlit("%3F");
            reveal_strlit("%23");
            reveal_strlit("%25");
            reveal_strlit("%5C");
            reveal_strlit("%0A");
            reveal_strlit("%0D");
            reveal_strlit("%09");
        }
        let c = v[i];
        let ghost before = out@;
        if c == '?' {
            out.push('%');
            out.push('3');
            out.push('F');
        } else if c == '#' {
            out.push('%');
            out.push('2');
            out.push('3');
        } else if c == '\\' && !encode_backslash {
            out.push('/');
        } else if c == '%' {
            out.push('%');
            out.push('2');
            out.push('5');
        } else if c == '\\' {
            out.push('%');
            out.push('5');
            out.push('C');
        } else if c == '\n' {
            out.push('%');
            out.push('0');
            out.push('A');
        } else if c == '\r' {
            out.push('%');
            out.push('0');
            out.push('D');
        } else if c == '\t' {
            out.push('%');
            out.push('0');
            out.push('9');
        } else {
            out.push(c);
        }
        assert(out@ =~= before + url_path_char(c, encode_backslash));
        i += 1;
    }
    assert(v@.take(i as int) =~= v@);
    let ghost m = out@;
    if windows && out.len() >= 2 && out[1] == ':' && (('a' <= out[0] && out[0] <= 'z') || ('A'
        <= out[0] && out[0] <= 'Z')) {
        let first = out[0];
        let up = if 'a' <= first && first <= 'z' {
            ((first as u8) - 32) as char
        } else {
            first
        };
        let mut r: Vec<char> = Vec::new();
        r.push('/');
        r.push(up);
        let mut k: usize = 1;
        while k < out.len()
            invariant
                1 <= k <= out@.len(),
                out@ == m,
                r@ == seq!['/', to_ascii_upper(m[0])] + m.subrange(1, k as int),
            decreases out@.len() - k,
        {
            r.push(out[k]);
            k += 1;
            assert(r@ =~= seq!['/', to_ascii_upper(m[0])] + m.subrange(1, k as int));
        }
        assert(m.subrange(1, k as int) =~= m.skip(1));
        return string_of(&r);
    }
    string_of(&out)
}

} // verus!
