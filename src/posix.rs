//! Paths in POSIX syntax: `/` is the only separator and the only root.

use vstd::prelude::*;
use vstd::string::*;
use crate::parsed::{ParsedPath, PathParts, WorkingDirs};
use crate::segments::{
    dotdot, dot, fold_path, join_segments, join_with, normalize_string, normalized_segments,
    views, PathStyle,
};
use crate::text::{
    chars_equal, chars_of, copy_chars, last_index, last_index_of, push_char, string_of,
    string_of_range, trim_trailing, trimmed_len, lemma_last_index_bounds,
};

verus! {

pub open spec fn strs(s: Seq<&str>) -> Seq<Seq<char>> {
    s.map_values(|x: &str| x@)
}

pub open spec fn posix_is_absolute(p: Seq<char>) -> bool {
    p.len() > 0 && p[0] == '/'
}

pub open spec fn posix_normalize(p: Seq<char>) -> Seq<char> {
    if p.len() == 0 {
        seq!['.']
    } else {
        let abs = p[0] == '/';
        let trailing = p.last() == '/';
        let body = join_segments(normalized_segments(p, PathStyle::Posix, !abs), '/');
        if body.len() == 0 {
            if abs {
                seq!['/']
            } else if trailing {
                seq!['.', '/']
            } else {
                seq!['.']
            }
        } else {
            let with_trailing = if trailing {
                body.push('/')
            } else {
                body
            };
            if abs {
                seq!['/'] + with_trailing
            } else {
                with_trailing
            }
        }
    }
}

/// The paths read from the right, up to and including the rightmost absolute one,
/// each followed by `/`; and whether an absolute one was met.
pub open spec fn posix_tail(paths: Seq<Seq<char>>) -> (Seq<char>, bool)
    decreases paths.len(),
{
    if paths.len() == 0 {
        (Seq::empty(), false)
    } else {
        let p = paths.last();
        if p.len() == 0 {
            posix_tail(paths.drop_last())
        } else if p[0] == '/' {
            (p.push('/'), true)
        } else {
            let t = posix_tail(paths.drop_last());
            (t.0 + p.push('/'), t.1)
        }
    }
}

/// The whole path that resolution normalizes, with the working directory in front
/// when no input is absolute; and whether it is absolute.
pub open spec fn posix_combined(paths: Seq<Seq<char>>, cwd: Seq<char>) -> (Seq<char>, bool) {
    let t = posix_tail(paths);
    if t.1 {
        t
    } else {
        (cwd.push('/') + t.0, posix_is_absolute(cwd))
    }
}

pub open spec fn posix_resolved_segments(paths: Seq<Seq<char>>, cwd: Seq<char>) -> Seq<Seq<char>> {
    let c = posix_combined(paths, cwd);
    normalized_segments(c.0, PathStyle::Posix, !c.1)
}

pub open spec fn posix_resolve(paths: Seq<Seq<char>>, cwd: Seq<char>) -> Seq<char> {
    let body = join_segments(posix_resolved_segments(paths, cwd), '/');
    if posix_combined(paths, cwd).1 {
        seq!['/'] + body
    } else if body.len() > 0 {
        body
    } else {
        seq!['.']
    }
}

/// The length of the longest common prefix of `a` and `b` that starts at `i`, plus `i`.
pub open spec fn common_len_from(a: Seq<Seq<char>>, b: Seq<Seq<char>>, i: int) -> int
    decreases a.len() - i,
{
    if 0 <= i < a.len() && i < b.len() && a[i] == b[i] {
        common_len_from(a, b, i + 1)
    } else {
        i
    }
}

pub open spec fn ups(n: int) -> Seq<Seq<char>> {
    Seq::new(n as nat, |_i: int| dotdot())
}

/// The segments that lead from `from` to `to`: one `..` per segment of `from` past
/// their common prefix, then the rest of `to`.
pub open spec fn relative_segments(from: Seq<Seq<char>>, to: Seq<Seq<char>>) -> Seq<Seq<char>> {
    let k = common_len_from(from, to, 0);
    ups(from.len() - k) + to.skip(k)
}

pub open spec fn posix_relative(from: Seq<char>, to: Seq<char>, cwd: Seq<char>) -> Seq<char> {
    join_segments(
        relative_segments(
            posix_resolved_segments(seq![from], cwd),
            posix_resolved_segments(seq![to], cwd),
        ),
        '/',
    )
}

pub open spec fn empty_parts() -> PathParts {
    PathParts {
        root: Seq::empty(),
        dir: Seq::empty(),
        base: Seq::empty(),
        name: Seq::empty(),
        ext: Seq::empty(),
    }
}

/// `name` and `ext` of a base: split at its last dot, unless the base is `.` or `..`
/// or its only dot leads it.
pub open spec fn split_ext(base: Seq<char>) -> (Seq<char>, Seq<char>) {
    let d = last_index_of(base, '.');
    if base == dot() || base == dotdot() || d <= 0 {
        (base, Seq::empty())
    } else {
        (base.take(d), base.skip(d))
    }
}

pub open spec fn posix_parse(p: Seq<char>) -> PathParts {
    if p.len() == 0 {
        empty_parts()
    } else {
        let abs = p[0] == '/';
        let t = trim_trailing(p, '/');
        let idx = last_index_of(t, '/');
        let dir = if idx >= 0 && (idx > 0 || abs) {
            t.take(idx)
        } else {
            Seq::empty()
        };
        let base = if idx >= 0 {
            t.skip(idx + 1)
        } else {
            t
        };
        PathParts {
            root: if abs {
                seq!['/']
            } else {
                Seq::empty()
            },
            dir: if dir.len() == 0 && abs {
                seq!['/']
            } else {
                dir
            },
            base: base,
            name: split_ext(base).0,
            ext: split_ext(base).1,
        }
    }
}

/// `name` and `ext` of `base`, as `split_ext` says.
pub fn split_name_ext(base: &String) -> (r: (String, String))
    ensures
        r.0@ == split_ext(base@).0,
        r.1@ == split_ext(base@).1,
{
    let chars = chars_of(base.as_str());
    let n = chars.len();
    let dot_at = last_index(&chars, n, '.');
    proof {
        assert(chars@.take(n as int) =~= chars@);
        lemma_last_index_bounds(chars@, '.');
    }
    let is_dot = n == 1 && chars[0] == '.';
    let is_dotdot = n == 2 && chars[0] == '.' && chars[1] == '.';
    proof {
        if is_dot {
            assert(base@ =~= dot());
        }
        if is_dotdot {
            assert(base@ =~= dotdot());
        }
        if base@ == dot() {
            assert(base@[0] == '.');
        }
        if base@ == dotdot() {
            assert(base@[0] == '.' && base@[1] == '.');
        }
    }
    match dot_at {
        Some(d) => {
            if is_dot || is_dotdot || d == 0 {
                (string_of(&chars), String::new())
            } else {
                let name = string_of_range(&chars, 0, d);
                let ext = string_of_range(&chars, d, n);
                assert(chars@.subrange(0, d as int) =~= chars@.take(d as int));
                assert(chars@.subrange(d as int, n as int) =~= chars@.skip(d as int));
                (name, ext)
            }
        },
        None => (string_of(&chars), String::new()),
    }
}

/// POSIX path operations.
#[derive(Debug, Clone, Copy)]
pub struct Posix;

impl Posix {
    /// The separator, `/`.
    pub fn sep(&self) -> (r: &'static str)
        ensures
            r@ == seq!['/'],
    {
        proof {
            reveal_strlit("/");
        }
        "/"
    }

    /// Whether `path` starts at the root.
    pub fn is_absolute(&self, path: &str) -> (r: bool)
        ensures
            r == posix_is_absolute(path@),
    {
        path.unicode_len() > 0 && path.get_char(0) == '/'
    }

    /// `path` with `.` and `..` segments and repeated separators collapsed; a
    /// trailing separator is kept, and an empty result is `.`.
    pub fn normalize(&self, path: &str) -> (r: String)
        ensures
            r@ == posix_normalize(path@),
    {
        let n = path.unicode_len();
        if n == 0 {
            proof {
                reveal_strlit(".");
            }
            return String::from_str(".");
        }
        let abs = path.get_char(0) == '/';
        let trailing = path.get_char(n - 1) == '/';
        let body = normalize_string(path, !abs, '/', PathStyle::Posix);
        let mut r = String::new();
        if body.unicode_len() == 0 {
            if abs {
                push_char(&mut r, '/');
                assert(r@ =~= seq!['/']);
            } else if trailing {
                push_char(&mut r, '.');
                push_char(&mut r, '/');
                assert(r@ =~= seq!['.', '/']);
            } else {
                push_char(&mut r, '.');
                assert(r@ =~= seq!['.']);
            }
            return r;
        }
        if abs {
            push_char(&mut r, '/');
        }
        r.append(body.as_str());
        if trailing {
            push_char(&mut r, '/');
        }
        proof {
            if abs {
                if trailing {
                    assert(r@ =~= seq!['/'] + body@.push('/'));
                } else {
                    assert(r@ =~= seq!['/'] + body@);
                }
            } else {
                assert(r@ =~= body@ || r@ =~= body@.push('/'));
                if trailing {
                    assert(r@ =~= body@.push('/'));
                } else {
                    assert(r@ =~= body@);
                }
            }
        }
        r
    }

    /// The folded segments of the resolved path, and whether it is absolute.
    fn resolved_stack(&self, paths: &[&str], dirs: &WorkingDirs) -> (r: (Vec<Vec<char>>, bool))
        ensures
            views(r.0@) == posix_resolved_segments(strs(paths@), dirs.cwd@),
            r.1 == posix_combined(strs(paths@), dirs.cwd@).1,
    {
        let ghost ps = strs(paths@);
        let mut acc = String::new();
        let mut abs = false;
        let mut i: usize = 0;
        while i < paths.len()
            invariant
                i <= paths@.len(),
                ps == strs(paths@),
                (acc@, abs) == posix_tail(ps.take(i as int)),
            decreases paths@.len() - i,
        {
            let p: &str = paths[i];
            proof {
                assert(ps.take(i + 1).drop_last() =~= ps.take(i as int));
                assert(ps.take(i + 1).last() == p@);
            }
            let n = p.unicode_len();
            if n > 0 {
                if p.get_char(0) == '/' {
                    acc = String::from_str(p);
                    push_char(&mut acc, '/');
                    abs = true;
                } else {
                    let ghost before = acc@;
                    acc.append(p);
                    push_char(&mut acc, '/');
                    assert(acc@ =~= before + p@.push('/'));
                }
            }
            i += 1;
        }
        proof {
            assert(ps.take(i as int) =~= ps);
        }
        let combined = if abs {
            acc
        } else {
            let mut c = String::from_str(dirs.cwd.as_str());
            push_char(&mut c, '/');
            c.append(acc.as_str());
            let cwd = dirs.cwd.as_str();
            abs = cwd.unicode_len() > 0 && cwd.get_char(0) == '/';
            c
        };
        let stack = fold_path(combined.as_str(), PathStyle::Posix, !abs);
        (stack, abs)
    }

    /// The absolute path that `paths` lead to, read from the right until an absolute
    /// one is met, with the current directory in front when none is; then normalized
    /// without a trailing separator.
    pub fn resolve(&self, paths: &[&str], dirs: &WorkingDirs) -> (r: String)
        ensures
            r@ == posix_resolve(strs(paths@), dirs.cwd@),
    {
        let (stack, abs) = self.resolved_stack(paths, dirs);
        let body = join_with(&stack, '/');
        if abs {
            let mut r = String::new();
            push_char(&mut r, '/');
            r.append(body.as_str());
            assert(r@ =~= seq!['/'] + body@);
            r
        } else if body.unicode_len() > 0 {
            body
        } else {
            proof {
                reveal_strlit(".");
            }
            String::from_str(".")
        }
    }

    /// The path from `from` to `to`: `..` for each segment of resolved `from` past
    /// the common prefix, then the rest of resolved `to`; empty when both resolve
    /// to the same path.
    pub fn relative(&self, from: &str, to: &str, dirs: &WorkingDirs) -> (r: String)
        ensures
            r@ == posix_relative(from@, to@, dirs.cwd@),
    {
        let mut fv: Vec<&str> = Vec::new();
        fv.push(from);
        let mut tv: Vec<&str> = Vec::new();
        tv.push(to);
        proof {
            assert(strs(fv@) =~= seq![from@]);
            assert(strs(tv@) =~= seq![to@]);
        }
        let (fs, _) = self.resolved_stack(fv.as_slice(), dirs);
        let (ts, _) = self.resolved_stack(tv.as_slice(), dirs);
        let out = relative_stack(&fs, &ts);
        join_with(&out, '/')
    }

    /// The root, directory, base, name and extension of `path`.
    pub fn parse(&self, path: &str) -> (r: ParsedPath)
        ensures
            r.parts() == posix_parse(path@),
    {
        let chars = chars_of(path);
        let n = chars.len();
        if n == 0 {
            return ParsedPath {
                dir: String::new(),
                root: String::new(),
                base: String::new(),
                name: String::new(),
                ext: String::new(),
            };
        }
        let abs = chars[0] == '/';
        let t = trimmed_len(&chars, '/');
        let idx = last_index(&chars, t, '/');
        let ghost tv = chars@.take(t as int);
        proof {
            lemma_last_index_bounds(tv, '/');
        }
        let mut dir = String::new();
        let base;
        match idx {
            Some(i) => {
                if i > 0 || abs {
                    dir = string_of_range(&chars, 0, i);
                    assert(chars@.subrange(0, i as int) =~= tv.take(i as int));
                }
                base = string_of_range(&chars, i + 1, t);
                assert(chars@.subrange(i + 1, t as int) =~= tv.skip(i + 1));
            },
            None => {
                base = string_of_range(&chars, 0, t);
                assert(chars@.subrange(0, t as int) =~= tv);
            },
        }
        let mut root = String::new();
        if abs {
            push_char(&mut root, '/');
            assert(root@ =~= seq!['/']);
        }
        if dir.unicode_len() == 0 && abs {
            dir = String::new();
            push_char(&mut dir, '/');
            assert(dir@ =~= seq!['/']);
        }
        let (name, ext) = split_name_ext(&base);
        ParsedPath { dir, root, base, name, ext }
    }
}

/// The length of the longest common prefix of `a` and `b`.
pub fn common_prefix_len(a: &Vec<Vec<char>>, b: &Vec<Vec<char>>) -> (r: usize)
    ensures
        r == common_len_from(views(a@), views(b@), 0),
        r <= a@.len(),
        r <= b@.len(),
{
    let ghost f = views(a@);
    let ghost t = views(b@);
    let mut k: usize = 0;
    let mut same = true;
    while same && k < a.len() && k < b.len()
        invariant
            k <= a@.len(),
            k <= b@.len(),
            f == views(a@),
            t == views(b@),
            common_len_from(f, t, k as int) == common_len_from(f, t, 0),
            !same ==> k < a@.len() && k < b@.len() && f[k as int] != t[k as int],
        decreases a@.len() - k + (if same { 1int } else { 0int }),
    {
        if chars_equal(&a[k], &b[k]) {
            assert(f[k as int] == t[k as int]);
            k += 1;
        } else {
            same = false;
        }
    }
    assert(common_len_from(f, t, k as int) == k);
    k
}

/// `n - k` segments `..`, then the segments of `to` from index `k` on.
pub fn ups_then_rest(n: usize, k: usize, to: &Vec<Vec<char>>) -> (r: Vec<Vec<char>>)
    requires
        k <= n,
        k <= to@.len(),
    ensures
        views(r@) == ups(n - k) + views(to@).skip(k as int),
{
    let ghost t = views(to@);
    let mut out: Vec<Vec<char>> = Vec::new();
    let mut j: usize = k;
    while j < n
        invariant
            k <= j <= n,
            views(out@) == ups(j - k),
        decreases n - j,
    {
        let mut up: Vec<char> = Vec::new();
        up.push('.');
        up.push('.');
        assert(up@ =~= dotdot());
        let ghost prev = out@;
        out.push(up);
        j += 1;
        assert(views(out@) =~= views(prev).push(dotdot()));
        assert(views(out@) =~= ups(j - k));
    }
    let mut j: usize = k;
    while j < to.len()
        invariant
            k <= j <= to@.len(),
            t == views(to@),
            views(out@) == ups(n - k) + t.subrange(k as int, j as int),
        decreases to@.len() - j,
    {
        let ghost prev = out@;
        out.push(copy_chars(&to[j]));
        assert(views(out@) =~= views(prev).push(t[j as int]));
        j += 1;
        assert(views(out@) =~= ups(n - k) + t.subrange(k as int, j as int));
    }
    assert(t.subrange(k as int, j as int) =~= t.skip(k as int));
    out
}

/// The segments from `from` to `to`, as `relative_segments` says.
pub fn relative_stack(from: &Vec<Vec<char>>, to: &Vec<Vec<char>>) -> (r: Vec<Vec<char>>)
    ensures
        views(r@) == relative_segments(views(from@), views(to@)),
{
    let k = common_prefix_len(from, to);
    ups_then_rest(from.len(), k, to)
}

} // verus!

verus! {

/// The form of a process directory, as POSIX resolution reads it on a Windows host:
/// backslashes become `/`, and anything before the first `/` (a drive) is dropped.
pub open spec fn posix_cwd_spec(raw: Seq<char>) -> Seq<char> {
    let s = raw.map_values(|c: char| if c == '\\' { '/' } else { c });
    let i = crate::js::index_of_from(s, '/', 0);
    if i >= 0 {
        s.skip(i)
    } else {
        s
    }
}

/// The POSIX form of a Windows process directory, as `posix_cwd_spec` says.
pub fn posix_cwd_of(raw: &str) -> (r: String)
    ensures
        r@ == posix_cwd_spec(raw@),
{
    let mut v = chars_of(raw);
    let ghost s = raw@.map_values(|c: char| if c == '\\' { '/' } else { c });
    let mut i: usize = 0;
    while i < v.len()
        invariant
            i <= v@.len(),
            v@.len() == raw@.len(),
            s.len() == raw@.len(),
            forall|j: int|
                0 <= j < s.len() ==> s[j] == (if raw@[j] == '\\' {
                    '/'
                } else {
                    raw@[j]
                }),
            forall|j: int| 0 <= j < i ==> v@[j] == s[j],
            forall|j: int| i <= j < v@.len() ==> v@[j] == raw@[j],
        decreases v@.len() - i,
    {
        if v[i] == '\\' {
            v.set(i, '/');
        }
        i += 1;
    }
    assert(v@ =~= s);
    let mut k: usize = 0;
    while k < v.len() && v[k] != '/'
        invariant
            k <= v@.len(),
            v@ == s,
            crate::js::index_of_from(s, '/', k as int) == crate::js::index_of_from(s, '/', 0),
        decreases v@.len() - k,
    {
        k += 1;
    }
    if k < v.len() {
        let r = string_of_range(&v, k, v.len());
        assert(v@.subrange(k as int, v@.len() as int) =~= s.skip(k as int));
        r
    } else {
        string_of(&v)
    }
}

} // verus!
