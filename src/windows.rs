//! Paths in Windows syntax: `\` and `/` both separate, and a path may start with a
//! drive (`C:`) or a UNC server and share (`\\server\share`).

use vstd::prelude::*;
use vstd::string::*;
use crate::parsed::{ParsedPath, PathParts, WorkingDirs};
use crate::posix::{empty_parts, split_ext, split_name_ext, strs, ups};
use crate::segments::{
    drop_empty, is_sep, join_segments, join_with, normalize_string,
    normalized_segments, split_nonempty, split_segments, views, PathStyle,
};
use crate::text::{
    chars_equal, chars_of, copy_chars, lower_of, push_char, string_of,
    string_of_range, to_lower,
};

verus! {

pub open spec fn wsep(c: char) -> bool {
    is_sep(PathStyle::Windows, c)
}

pub open spec fn is_drive_letter(c: char) -> bool {
    ('a' <= c && c <= 'z') || ('A' <= c && c <= 'Z')
}

/// Whether `c` can name a drive.
pub fn is_windows_device_root(c: char) -> (r: bool)
    ensures
        r == is_drive_letter(c),
{
    ('a' <= c && c <= 'z') || ('A' <= c && c <= 'Z')
}

/// The first index at or after `j` that holds a separator (or the length).
pub open spec fn skip_non_sep(p: Seq<char>, j: int) -> int
    decreases p.len() - j,
{
    if 0 <= j < p.len() && !wsep(p[j]) {
        skip_non_sep(p, j + 1)
    } else {
        j
    }
}

/// The first index at or after `j` that holds no separator (or the length).
pub open spec fn skip_seps(p: Seq<char>, j: int) -> int
    decreases p.len() - j,
{
    if 0 <= j < p.len() && wsep(p[j]) {
        skip_seps(p, j + 1)
    } else {
        j
    }
}

proof fn lemma_skip_bounds(p: Seq<char>, j: int)
    requires
        0 <= j <= p.len(),
    ensures
        j <= skip_non_sep(p, j) <= p.len(),
        j <= skip_seps(p, j) <= p.len(),
        skip_seps(p, j) < p.len() ==> !wsep(p[skip_seps(p, j)]),
        skip_non_sep(p, j) < p.len() ==> wsep(p[skip_non_sep(p, j)]),
    decreases p.len() - j,
{
    if j < p.len() {
        lemma_skip_bounds(p, j + 1);
    }
}

fn scan_non_sep(v: &Vec<char>, j: usize) -> (r: usize)
    requires
        j <= v@.len(),
    ensures
        r == skip_non_sep(v@, j as int),
        j <= r <= v@.len(),
{
    proof {
        lemma_skip_bounds(v@, j as int);
    }
    let mut k = j;
    while k < v.len() && !wsep_char(v[k])
        invariant
            j <= k <= v@.len(),
            skip_non_sep(v@, k as int) == skip_non_sep(v@, j as int),
        decreases v@.len() - k,
    {
        k += 1;
    }
    k
}

fn scan_seps(v: &Vec<char>, j: usize) -> (r: usize)
    requires
        j <= v@.len(),
    ensures
        r == skip_seps(v@, j as int),
        j <= r <= v@.len(),
{
    proof {
        lemma_skip_bounds(v@, j as int);
    }
    let mut k = j;
    while k < v.len() && wsep_char(v[k])
        invariant
            j <= k <= v@.len(),
            skip_seps(v@, k as int) == skip_seps(v@, j as int),
        decreases v@.len() - k,
    {
        k += 1;
    }
    k
}

fn wsep_char(c: char) -> (r: bool)
    ensures
        r == wsep(c),
{
    c == '/' || c == '\\'
}

/// Where the server, the separators after it, and the share of a UNC prefix end:
/// `(j1, j2, j3)` for `\\server\share`, with `p[2..j1]` the server and `p[j2..j3]`
/// the share.
pub open spec fn unc_marks(p: Seq<char>) -> (int, int, int) {
    let j1 = skip_non_sep(p, 2);
    let j2 = skip_seps(p, j1);
    let j3 = skip_non_sep(p, j2);
    (j1, j2, j3)
}

/// Whether `p` starts with two separators, a server name, separators and a share.
pub open spec fn has_unc_root(p: Seq<char>) -> bool {
    let m = unc_marks(p);
    p.len() >= 2 && wsep(p[0]) && wsep(p[1]) && m.0 < p.len() && m.0 != 2 && m.1 < p.len()
}

pub open spec fn backslash2() -> Seq<char> {
    seq!['\\', '\\']
}

/// The server part of a UNC root is `.` or `?` (a device namespace).
pub open spec fn is_namespace(first: Seq<char>) -> bool {
    first == seq!['.'] || first == seq!['?']
}

/// The device, the end of the root, and absoluteness of one input to `resolve`.
pub open spec fn win_root_info(p: Seq<char>) -> (Seq<char>, int, bool) {
    if p.len() == 1 {
        if wsep(p[0]) {
            (Seq::empty(), 1, true)
        } else {
            (Seq::empty(), 0, false)
        }
    } else if p.len() >= 2 && wsep(p[0]) {
        if wsep(p[1]) {
            if has_unc_root(p) {
                let m = unc_marks(p);
                let first = p.subrange(2, m.0);
                if !is_namespace(first) {
                    (backslash2() + first + seq!['\\'] + p.subrange(m.1, m.2), m.2, true)
                } else {
                    (backslash2() + first, 4, true)
                }
            } else {
                (Seq::empty(), 0, true)
            }
        } else {
            (Seq::empty(), 1, true)
        }
    } else if p.len() >= 2 && is_drive_letter(p[0]) && p[1] == ':' {
        (p.take(2), 2, p.len() > 2 && wsep(p[2]))
    } else {
        (Seq::empty(), 0, false)
    }
}

/// Resolution state: the device met so far, the tail gathered so far, whether the
/// tail is absolute.
pub struct ResolveState {
    pub device: Seq<char>,
    pub tail: Seq<char>,
    pub absolute: bool,
}

/// One input folded into the state; the flag says that resolution is complete.
pub open spec fn win_step(st: ResolveState, p: Seq<char>) -> (ResolveState, bool) {
    let info = win_root_info(p);
    let device = info.0;
    if device.len() > 0 && st.device.len() > 0 && lower_of(device) != lower_of(st.device) {
        (st, false)
    } else {
        let dev = if device.len() > 0 && st.device.len() == 0 {
            device
        } else {
            st.device
        };
        if st.absolute {
            (ResolveState { device: dev, tail: st.tail, absolute: true }, dev.len() > 0)
        } else {
            let tail = p.skip(info.1).push('\\') + st.tail;
            (ResolveState { device: dev, tail: tail, absolute: info.2 }, info.2 && dev.len() > 0)
        }
    }
}

/// The inputs `paths[..i]` folded from the right into `st`, until resolution is
/// complete; empty inputs are passed over.
pub open spec fn win_scan(paths: Seq<Seq<char>>, i: int, st: ResolveState) -> (ResolveState, bool)
    decreases i,
{
    if i <= 0 || i > paths.len() {
        (st, false)
    } else if paths[i - 1].len() == 0 {
        win_scan(paths, i - 1, st)
    } else {
        let s = win_step(st, paths[i - 1]);
        if s.1 {
            s
        } else {
            win_scan(paths, i - 1, s.0)
        }
    }
}

pub open spec fn initial_state() -> ResolveState {
    ResolveState { device: Seq::empty(), tail: Seq::empty(), absolute: false }
}

/// The directory of `device` among the per-drive directories, if one is listed.
pub open spec fn drive_dir(per_drive: Seq<(Seq<char>, Seq<char>)>, device: Seq<char>) -> Option<
    Seq<char>,
>
    decreases per_drive.len(),
{
    if per_drive.len() == 0 {
        None
    } else if per_drive[0].0 == device {
        Some(per_drive[0].1)
    } else {
        drive_dir(per_drive.skip(1), device)
    }
}

pub open spec fn pair_views(v: Seq<(String, String)>) -> Seq<(Seq<char>, Seq<char>)> {
    v.map_values(|x: (String, String)| (x.0@, x.1@))
}

/// The directory that resolution falls back on once the inputs are used up.
pub open spec fn fallback_dir(
    device: Seq<char>,
    cwd: Seq<char>,
    per_drive: Seq<(Seq<char>, Seq<char>)>,
) -> Seq<char> {
    if device.len() == 0 {
        cwd
    } else {
        let q = match drive_dir(per_drive, device) {
            Some(d) => d,
            None => cwd,
        };
        if q.len() == 0 || (q.len() > 2 && lower_of(q.take(2)) != lower_of(device) && q[2]
            == '\\') {
            device.push('\\')
        } else {
            q
        }
    }
}

/// The resolution state once the inputs and, where needed, the fallback directory
/// are folded in.
pub open spec fn win_final_state(
    paths: Seq<Seq<char>>,
    cwd: Seq<char>,
    per_drive: Seq<(Seq<char>, Seq<char>)>,
) -> ResolveState {
    let s = win_scan(paths, paths.len() as int, initial_state());
    if s.1 {
        s.0
    } else {
        let q = fallback_dir(s.0.device, cwd, per_drive);
        if q.len() == 0 {
            s.0
        } else {
            win_step(s.0, q).0
        }
    }
}

pub open spec fn win_resolve(
    paths: Seq<Seq<char>>,
    cwd: Seq<char>,
    per_drive: Seq<(Seq<char>, Seq<char>)>,
) -> Seq<char> {
    let s = win_final_state(paths, cwd, per_drive);
    let tail = join_segments(
        normalized_segments(s.tail, PathStyle::Windows, !s.absolute),
        '\\',
    );
    if s.absolute {
        s.device.push('\\') + tail
    } else if (s.device + tail).len() > 0 {
        s.device + tail
    } else {
        seq!['.']
    }
}

pub open spec fn win_is_absolute(p: Seq<char>) -> bool {
    p.len() > 0 && (wsep(p[0]) || (is_drive_letter(p[0]) && p.len() > 2 && p[1] == ':' && wsep(
        p[2],
    )))
}

/// The device, the end of the root, absoluteness, and (for a bare UNC root) the
/// whole result of `normalize`.
pub open spec fn win_normalize_root(p: Seq<char>) -> (Seq<char>, int, bool, Option<Seq<char>>) {
    if wsep(p[0]) {
        if wsep(p[1]) && has_unc_root(p) {
            let m = unc_marks(p);
            let first = p.subrange(2, m.0);
            if is_namespace(first) {
                (backslash2() + first, 4, true, None)
            } else if m.2 == p.len() {
                (Seq::empty(), 0, true, Some(backslash2() + first + seq!['\\'] + p.skip(m.1)))
            } else {
                (backslash2() + first + seq!['\\'] + p.subrange(m.1, m.2), m.2, true, None)
            }
        } else if wsep(p[1]) {
            (Seq::empty(), 0, true, None)
        } else {
            (Seq::empty(), 1, true, None)
        }
    } else if is_drive_letter(p[0]) && p[1] == ':' {
        if p.len() > 2 && wsep(p[2]) {
            (p.take(2), 3, true, None)
        } else {
            (p.take(2), 2, false, None)
        }
    } else {
        (Seq::empty(), 0, false, None)
    }
}

pub open spec fn win_normalize(p: Seq<char>) -> Seq<char> {
    if p.len() == 0 {
        seq!['.']
    } else if p.len() == 1 {
        if p[0] == '/' {
            seq!['\\']
        } else {
            p
        }
    } else {
        let r = win_normalize_root(p);
        if r.3 is Some {
            r.3->0
        } else {
            let device = r.0;
            let abs = r.2;
            let tail0 = if r.1 < p.len() {
                join_segments(normalized_segments(p.skip(r.1), PathStyle::Windows, !abs), '\\')
            } else {
                Seq::empty()
            };
            let tail1 = if tail0.len() == 0 && !abs {
                seq!['.']
            } else {
                tail0
            };
            let tail = if tail1.len() > 0 && wsep(p.last()) {
                tail1.push('\\')
            } else {
                tail1
            };
            if abs {
                device.push('\\') + tail
            } else {
                device + tail
            }
        }
    }
}

pub open spec fn lower_views(s: Seq<Seq<char>>) -> Seq<Seq<char>> {
    s.map_values(|x: Seq<char>| lower_of(x))
}

/// The segments from `from` to `to`, compared without case: `None` when they share
/// no first segment (different roots), else one `..` per segment of `from` past the
/// common prefix, then the rest of `to`.
pub open spec fn win_relative_segments(from: Seq<Seq<char>>, to: Seq<Seq<char>>) -> Option<
    Seq<Seq<char>>,
> {
    let k = crate::posix::common_len_from(lower_views(from), lower_views(to), 0);
    if k == 0 && from.len() > 0 && to.len() > 0 {
        None
    } else {
        Some(ups(from.len() - k) + to.skip(k))
    }
}

pub open spec fn win_relative(
    from: Seq<char>,
    to: Seq<char>,
    cwd: Seq<char>,
    per_drive: Seq<(Seq<char>, Seq<char>)>,
) -> Seq<char> {
    let f = win_resolve(seq![from], cwd, per_drive);
    let t = win_resolve(seq![to], cwd, per_drive);
    match win_relative_segments(
        drop_empty(split_segments(f, PathStyle::Windows)),
        drop_empty(split_segments(t, PathStyle::Windows)),
    ) {
        Some(segs) => join_segments(segs, '\\'),
        None => t,
    }
}


/// The device, end of root and absoluteness of `v`, as `win_root_info` says.
fn root_info(v: &Vec<char>) -> (r: (Vec<char>, usize, bool))
    ensures
        r.0@ == win_root_info(v@).0,
        r.1 as int == win_root_info(v@).1,
        r.2 == win_root_info(v@).2,
        r.1 <= v@.len(),
{
    let n = v.len();
    if n == 1 {
        if wsep_char(v[0]) {
            return (Vec::new(), 1, true);
        } else {
            return (Vec::new(), 0, false);
        }
    }
    if n >= 2 && wsep_char(v[0]) {
        if wsep_char(v[1]) {
            let j1 = scan_non_sep(v, 2);
            if j1 < n && j1 != 2 {
                let j2 = scan_seps(v, j1);
                if j2 < n {
                    let j3 = scan_non_sep(v, j2);
                    let ns = is_namespace_at(v, 2, j1);
                    let mut dev: Vec<char> = Vec::new();
                    dev.push('\\');
                    dev.push('\\');
                    let ghost d0 = dev@;
                    push_range(&mut dev, v, 2, j1);
                    if !ns {
                        dev.push('\\');
                        let ghost d1 = dev@;
                        push_range(&mut dev, v, j2, j3);
                        assert(dev@ =~= backslash2() + v@.subrange(2, j1 as int) + seq!['\\']
                            + v@.subrange(j2 as int, j3 as int));
                        return (dev, j3, true);
                    } else {
                        assert(dev@ =~= backslash2() + v@.subrange(2, j1 as int));
                        proof {
                            assert(v@.subrange(2, j1 as int).len() == 1);
                        }
                        return (dev, 4, true);
                    }
                }
            }
            return (Vec::new(), 0, true);
        } else {
            return (Vec::new(), 1, true);
        }
    }
    if n >= 2 && is_windows_device_root(v[0]) && v[1] == ':' {
        let mut dev: Vec<char> = Vec::new();
        dev.push(v[0]);
        dev.push(v[1]);
        assert(dev@ =~= v@.take(2));
        return (dev, 2, n > 2 && wsep_char(v[2]));
    }
    (Vec::new(), 0, false)
}

/// Whether `v[start..end]` is `.` or `?`.
fn is_namespace_at(v: &Vec<char>, start: usize, end: usize) -> (r: bool)
    requires
        start <= end <= v@.len(),
    ensures
        r == is_namespace(v@.subrange(start as int, end as int)),
{
    let ghost s = v@.subrange(start as int, end as int);
    if end - start == 1 && (v[start] == '.' || v[start] == '?') {
        if v[start] == '.' {
            assert(s =~= seq!['.']);
        } else {
            assert(s =~= seq!['?']);
        }
        true
    } else {
        proof {
            if s == seq!['.'] {
                assert(seq!['.'].len() == 1 && seq!['.'][0] == '.');
                assert(s[0] == v@[start as int]);
            }
            if s == seq!['?'] {
                assert(seq!['?'].len() == 1 && seq!['?'][0] == '?');
                assert(s[0] == v@[start as int]);
            }
        }
        false
    }
}

/// Appends `v[start..end]` to `out`.
fn push_range(out: &mut Vec<char>, v: &Vec<char>, start: usize, end: usize)
    requires
        start <= end <= v@.len(),
    ensures
        final(out)@ == old(out)@ + v@.subrange(start as int, end as int),
{
    let mut i = start;
    while i < end
        invariant
            start <= i <= end <= v@.len(),
            out@ == old(out)@ + v@.subrange(start as int, i as int),
        decreases end - i,
    {
        out.push(v[i]);
        i += 1;
        assert(out@ =~= old(out)@ + v@.subrange(start as int, i as int));
    }
}

/// Resolution state in executable form.
struct ResolveVecs {
    device: Vec<char>,
    tail: Vec<char>,
    absolute: bool,
}

impl ResolveVecs {
    spec fn view_state(&self) -> ResolveState {
        ResolveState { device: self.device@, tail: self.tail@, absolute: self.absolute }
    }
}

/// Whether two devices name the same one, compared without case.
fn same_device(a: &Vec<char>, b: &Vec<char>) -> (r: bool)
    ensures
        r == (lower_of(a@) == lower_of(b@)),
{
    let la = to_lower(string_of(a).as_str());
    let lb = to_lower(string_of(b).as_str());
    la == lb
}

/// Folds the non-empty input `p` into `st`, as `win_step` says.
fn step(st: &mut ResolveVecs, p: &Vec<char>) -> (done: bool)
    ensures
        (final(st).view_state(), done) == win_step(old(st).view_state(), p@),
{
    let (device, root_end, is_abs) = root_info(p);
    if device.len() > 0 && st.device.len() > 0 && !same_device(&device, &st.device) {
        return false;
    }
    if device.len() > 0 && st.device.len() == 0 {
        st.device = device;
    }
    if st.absolute {
        return st.device.len() > 0;
    }
    let mut tail: Vec<char> = Vec::new();
    push_range(&mut tail, p, root_end, p.len());
    tail.push('\\');
    let ghost t0 = tail@;
    let mut i: usize = 0;
    while i < st.tail.len()
        invariant
            i <= st.tail@.len(),
            tail@ == t0 + st.tail@.take(i as int),
        decreases st.tail@.len() - i,
    {
        tail.push(st.tail[i]);
        i += 1;
        assert(tail@ =~= t0 + st.tail@.take(i as int));
    }
    assert(st.tail@.take(i as int) =~= st.tail@);
    assert(p@.subrange(root_end as int, p@.len() as int) =~= p@.skip(root_end as int));
    st.tail = tail;
    st.absolute = is_abs;
    is_abs && st.device.len() > 0
}

/// The directory listed for `device`, if any.
fn find_drive_dir(per_drive: &Vec<(String, String)>, device: &Vec<char>) -> (r: Option<Vec<char>>)
    ensures
        r is Some <==> drive_dir(pair_views(per_drive@), device@) is Some,
        r is Some ==> r->0@ == drive_dir(pair_views(per_drive@), device@)->0,
{
    let ghost pv = pair_views(per_drive@);
    let mut i: usize = 0;
    assert(pv.skip(0) =~= pv);
    while i < per_drive.len()
        invariant
            i <= per_drive@.len(),
            pv == pair_views(per_drive@),
            drive_dir(pv.skip(i as int), device@) == drive_dir(pv, device@),
        decreases per_drive@.len() - i,
    {
        let key = chars_of(per_drive[i].0.as_str());
        assert(pv.skip(i as int)[0] == pv[i as int]);
        assert(pv.skip(i as int).skip(1) =~= pv.skip(i + 1));
        if chars_equal(&key, device) {
            return Some(chars_of(per_drive[i].1.as_str()));
        }
        i += 1;
    }
    None
}

/// The directory that resolution falls back on, as `fallback_dir` says.
fn fallback(device: &Vec<char>, dirs: &WorkingDirs) -> (r: Vec<char>)
    ensures
        r@ == fallback_dir(device@, dirs.cwd@, pair_views(dirs.per_drive@)),
{
    if device.len() == 0 {
        return chars_of(dirs.cwd.as_str());
    }
    let q = match find_drive_dir(&dirs.per_drive, device) {
        Some(d) => d,
        None => chars_of(dirs.cwd.as_str()),
    };
    let mut replace = q.len() == 0;
    if q.len() > 2 && q[2] == '\\' {
        let mut head: Vec<char> = Vec::new();
        push_range(&mut head, &q, 0, 2);
        assert(head@ =~= q@.take(2));
        replace = !same_device(&head, device);
    }
    if replace {
        let mut d = copy_chars(device);
        d.push('\\');
        d
    } else {
        q
    }
}

/// Trailing separators dropped: the length that remains.
pub open spec fn trimmed_sep_len(p: Seq<char>) -> int
    decreases p.len(),
{
    if p.len() > 0 && wsep(p.last()) {
        trimmed_sep_len(p.drop_last())
    } else {
        p.len() as int
    }
}

/// The index of the last separator in `p`, or -1.
pub open spec fn last_sep(p: Seq<char>) -> int
    decreases p.len(),
{
    if p.len() == 0 {
        -1
    } else if wsep(p.last()) {
        p.len() - 1
    } else {
        last_sep(p.drop_last())
    }
}

proof fn lemma_last_sep_bounds(p: Seq<char>)
    ensures
        -1 <= last_sep(p) < p.len(),
    decreases p.len(),
{
    if p.len() > 0 {
        lemma_last_sep_bounds(p.drop_last());
    }
}

proof fn lemma_trimmed_bounds(p: Seq<char>)
    ensures
        0 <= trimmed_sep_len(p) <= p.len(),
    decreases p.len(),
{
    if p.len() > 0 {
        lemma_trimmed_bounds(p.drop_last());
    }
}

/// Where the root ends, for `parse`.
pub open spec fn win_parse_root_end(p: Seq<char>) -> int {
    if p.len() > 1 && wsep(p[0]) {
        if wsep(p[1]) && has_unc_root(p) {
            let m = unc_marks(p);
            if m.2 == p.len() {
                m.2
            } else if m.2 != m.1 {
                m.2 + 1
            } else {
                1
            }
        } else {
            1
        }
    } else if p.len() > 1 && is_drive_letter(p[0]) && p[1] == ':' {
        if p.len() > 2 && wsep(p[2]) {
            3
        } else {
            2
        }
    } else {
        0
    }
}

pub open spec fn win_parse(p: Seq<char>) -> PathParts {
    if p.len() == 0 {
        empty_parts()
    } else if p.len() == 1 && wsep(p[0]) {
        PathParts { root: p, dir: p, base: Seq::empty(), name: Seq::empty(), ext: Seq::empty() }
    } else if p.len() == 2 && is_drive_letter(p[0]) && p[1] == ':' {
        PathParts {
            root: p,
            dir: p,
            base: Seq::empty(),
            name: Seq::empty(),
            ext: Seq::empty(),
        }
    } else if p.len() == 3 && is_drive_letter(p[0]) && p[1] == ':' && wsep(p[2]) {
        PathParts { root: p, dir: p, base: Seq::empty(), name: Seq::empty(), ext: Seq::empty() }
    } else {
        let re = win_parse_root_end(p);
        let root = p.take(re);
        let e = trimmed_sep_len(p);
        if e <= re {
            PathParts {
                root: root,
                dir: root,
                base: Seq::empty(),
                name: Seq::empty(),
                ext: Seq::empty(),
            }
        } else {
            let ls = last_sep(p.take(e));
            let start = if ls >= re {
                ls + 1
            } else {
                re
            };
            let base = p.subrange(start, e);
            PathParts {
                root: root,
                dir: if start > 0 && start != re {
                    p.take(start - 1)
                } else {
                    root
                },
                base: base,
                name: split_ext(base).0,
                ext: split_ext(base).1,
            }
        }
    }
}

/// Windows path operations.
#[derive(Debug, Clone, Copy)]
pub struct Windows;

impl Windows {
    /// The separator, `\`.
    pub fn sep(&self) -> (r: &'static str)
        ensures
            r@ == seq!['\\'],
    {
        proof {
            reveal_strlit("\\");
        }
        "\\"
    }

    /// Whether `path` starts with a separator, or with a drive and a separator.
    pub fn is_absolute(&self, path: &str) -> (r: bool)
        ensures
            r == win_is_absolute(path@),
    {
        let n = path.unicode_len();
        if n == 0 {
            return false;
        }
        let c = path.get_char(0);
        if wsep_char(c) {
            return true;
        }
        is_windows_device_root(c) && n > 2 && path.get_char(1) == ':' && wsep_char(
            path.get_char(2),
        )
    }

    /// The state once the inputs and, where needed, the fallback directory are folded in.
    fn final_state(&self, paths: &[&str], dirs: &WorkingDirs) -> (r: ResolveVecs)
        ensures
            r.view_state() == win_final_state(
                strs(paths@),
                dirs.cwd@,
                pair_views(dirs.per_drive@),
            ),
    {
        let ghost ps = strs(paths@);
        let mut st = ResolveVecs { device: Vec::new(), tail: Vec::new(), absolute: false };
        proof {
            assert(st.view_state() == initial_state()) by {
                assert(st.device@ =~= Seq::<char>::empty());
                assert(st.tail@ =~= Seq::<char>::empty());
            }
        }
        let mut i: usize = paths.len();
        let mut done = false;
        while i > 0 && !done
            invariant
                i <= paths@.len(),
                ps == strs(paths@),
                !done ==> win_scan(ps, ps.len() as int, initial_state()) == win_scan(
                    ps,
                    i as int,
                    st.view_state(),
                ),
                done ==> win_scan(ps, ps.len() as int, initial_state()) == (st.view_state(), true),
            decreases i,
        {
            let p = chars_of(paths[i - 1]);
            assert(ps[i - 1] == p@);
            if p.len() > 0 {
                done = step(&mut st, &p);
            }
            i -= 1;
        }
        if done {
            return st;
        }
        let q = fallback(&st.device, dirs);
        if q.len() > 0 {
            step(&mut st, &q);
        }
        st
    }

    /// The absolute path that `paths` lead to: read from the right until an absolute
    /// path on a known device is met, passing over inputs on another device, with the
    /// drive's or the process's current directory in front when needed; then
    /// normalized.
    pub fn resolve(&self, paths: &[&str], dirs: &WorkingDirs) -> (r: String)
        ensures
            r@ == win_resolve(strs(paths@), dirs.cwd@, pair_views(dirs.per_drive@)),
    {
        let st = self.final_state(paths, dirs);
        let tail_s = string_of(&st.tail);
        let tail = normalize_string(tail_s.as_str(), !st.absolute, '\\', PathStyle::Windows);
        let mut r = string_of(&st.device);
        if st.absolute {
            push_char(&mut r, '\\');
            r.append(tail.as_str());
            r
        } else {
            r.append(tail.as_str());
            if r.unicode_len() > 0 {
                r
            } else {
                proof {
                    reveal_strlit(".");
                }
                String::from_str(".")
            }
        }
    }

    /// `path` with `.` and `..` segments and repeated separators collapsed, every
    /// separator written `\`, and its drive or UNC root kept.
    pub fn normalize(&self, path: &str) -> (r: String)
        ensures
            r@ == win_normalize(path@),
    {
        let v = chars_of(path);
        let n = v.len();
        if n == 0 {
            proof {
                reveal_strlit(".");
            }
            return String::from_str(".");
        }
        if n == 1 {
            if v[0] == '/' {
                let mut r = String::new();
                push_char(&mut r, '\\');
                assert(r@ =~= seq!['\\']);
                return r;
            }
            return string_of(&v);
        }
        let mut device: Vec<char> = Vec::new();
        let mut root_end: usize = 0;
        let mut abs = false;
        if wsep_char(v[0]) {
            abs = true;
            let mut unc = false;
            if wsep_char(v[1]) {
                let j1 = scan_non_sep(&v, 2);
                if j1 < n && j1 != 2 {
                    let j2 = scan_seps(&v, j1);
                    if j2 < n {
                        unc = true;
                        let j3 = scan_non_sep(&v, j2);
                        device.push('\\');
                        device.push('\\');
                        push_range(&mut device, &v, 2, j1);
                        if is_namespace_at(&v, 2, j1) {
                            root_end = 4;
                            assert(device@ =~= backslash2() + v@.subrange(2, j1 as int));
                        } else if j3 == n {
                            device.push('\\');
                            push_range(&mut device, &v, j2, n);
                            assert(v@.subrange(j2 as int, n as int) =~= v@.skip(j2 as int));
                            assert(device@ =~= backslash2() + v@.subrange(2, j1 as int) + seq![
                                '\\',
                            ] + v@.skip(j2 as int));
                            return string_of(&device);
                        } else {
                            device.push('\\');
                            push_range(&mut device, &v, j2, j3);
                            root_end = j3;
                            assert(device@ =~= backslash2() + v@.subrange(2, j1 as int) + seq![
                                '\\',
                            ] + v@.subrange(j2 as int, j3 as int));
                        }
                    }
                }
            } else {
                root_end = 1;
            }
            if !unc {
                assert(device@ =~= Seq::<char>::empty());
            }
        } else if is_windows_device_root(v[0]) && v[1] == ':' {
            device.push(v[0]);
            device.push(v[1]);
            assert(device@ =~= v@.take(2));
            root_end = 2;
            if n > 2 && wsep_char(v[2]) {
                abs = true;
                root_end = 3;
            }
        } else {
            assert(device@ =~= Seq::<char>::empty());
        }
        let mut tail = if root_end < n {
            let rest = string_of_range(&v, root_end, n);
            assert(v@.subrange(root_end as int, n as int) =~= v@.skip(root_end as int));
            normalize_string(rest.as_str(), !abs, '\\', PathStyle::Windows)
        } else {
            String::new()
        };
        if tail.unicode_len() == 0 && !abs {
            proof {
                reveal_strlit(".");
            }
            tail = String::from_str(".");
        }
        if tail.unicode_len() > 0 && wsep_char(v[n - 1]) {
            push_char(&mut tail, '\\');
        }
        let mut r = string_of(&device);
        if abs {
            push_char(&mut r, '\\');
        }
        r.append(tail.as_str());
        r
    }

    /// The path from `from` to `to`, compared without case: `..` for each segment of
    /// resolved `from` past the common prefix, then the rest of resolved `to`; the
    /// resolved `to` itself when the two share no first segment.
    pub fn relative(&self, from: &str, to: &str, dirs: &WorkingDirs) -> (r: String)
        ensures
            r@ == win_relative(from@, to@, dirs.cwd@, pair_views(dirs.per_drive@)),
    {
        let mut fv: Vec<&str> = Vec::new();
        fv.push(from);
        let mut tv: Vec<&str> = Vec::new();
        tv.push(to);
        proof {
            assert(strs(fv@) =~= seq![from@]);
            assert(strs(tv@) =~= seq![to@]);
        }
        let f = self.resolve(fv.as_slice(), dirs);
        let t = self.resolve(tv.as_slice(), dirs);
        let fs = split_nonempty(f.as_str(), PathStyle::Windows);
        let ts = split_nonempty(t.as_str(), PathStyle::Windows);
        let lf = lower_all(&fs);
        let lt = lower_all(&ts);
        let k = crate::posix::common_prefix_len(&lf, &lt);
        if k == 0 && fs.len() > 0 && ts.len() > 0 {
            return t;
        }
        let out = crate::posix::ups_then_rest(fs.len(), k, &ts);
        join_with(&out, '\\')
    }

    /// The root, directory, base, name and extension of `path`.
    pub fn parse(&self, path: &str) -> (r: ParsedPath)
        ensures
            r.parts() == win_parse(path@),
    {
        let v = chars_of(path);
        let n = v.len();
        if n == 0 {
            return ParsedPath {
                dir: String::new(),
                root: String::new(),
                base: String::new(),
                name: String::new(),
                ext: String::new(),
            };
        }
        if n == 1 && wsep_char(v[0]) {
            return ParsedPath {
                dir: string_of(&v),
                root: string_of(&v),
                base: String::new(),
                name: String::new(),
                ext: String::new(),
            };
        }
        if n == 2 && is_windows_device_root(v[0]) && v[1] == ':' {
            return ParsedPath {
                dir: string_of(&v),
                root: string_of(&v),
                base: String::new(),
                name: String::new(),
                ext: String::new(),
            };
        }
        if n == 3 && is_windows_device_root(v[0]) && v[1] == ':' && wsep_char(v[2]) {
            return ParsedPath {
                dir: string_of(&v),
                root: string_of(&v),
                base: String::new(),
                name: String::new(),
                ext: String::new(),
            };
        }
        let re = parse_root_end(&v);
        let root = string_of_range(&v, 0, re);
        assert(v@.subrange(0, re as int) =~= v@.take(re as int));
        let e = trimmed_seps(&v);
        if e <= re {
            return ParsedPath {
                dir: string_of_range(&v, 0, re),
                root,
                base: String::new(),
                name: String::new(),
                ext: String::new(),
            };
        }
        let ls = last_sep_in(&v, e);
        let start = match ls {
            Some(i) => if i >= re {
                i + 1
            } else {
                re
            },
            None => re,
        };
        let base = string_of_range(&v, start, e);
        let dir = if start > 0 && start != re {
            let d = string_of_range(&v, 0, start - 1);
            assert(v@.subrange(0, start - 1) =~= v@.take(start - 1));
            d
        } else {
            string_of_range(&v, 0, re)
        };
        let (name, ext) = split_name_ext(&base);
        ParsedPath { dir, root, base, name, ext }
    }
}

/// Each segment lower-cased.
fn lower_all(segs: &Vec<Vec<char>>) -> (r: Vec<Vec<char>>)
    ensures
        views(r@) == lower_views(views(segs@)),
{
    let mut out: Vec<Vec<char>> = Vec::new();
    let mut i: usize = 0;
    while i < segs.len()
        invariant
            i <= segs@.len(),
            views(out@) == lower_views(views(segs@)).take(i as int),
        decreases segs@.len() - i,
    {
        let l = to_lower(string_of(&segs[i]).as_str());
        let ghost prev = out@;
        let lc = chars_of(l.as_str());
        out.push(lc);
        assert(views(out@) =~= views(prev).push(lower_of(segs@[i as int]@)));
        i += 1;
        assert(views(out@) =~= lower_views(views(segs@)).take(i as int));
    }
    assert(lower_views(views(segs@)).take(i as int) =~= lower_views(views(segs@)));
    out
}

/// Where the root ends, as `win_parse_root_end` says.
fn parse_root_end(v: &Vec<char>) -> (r: usize)
    ensures
        r as int == win_parse_root_end(v@),
        r <= v@.len(),
{
    let n = v.len();
    if n > 1 && wsep_char(v[0]) {
        if wsep_char(v[1]) {
            let j1 = scan_non_sep(v, 2);
            if j1 < n && j1 != 2 {
                let j2 = scan_seps(v, j1);
                if j2 < n {
                    let j3 = scan_non_sep(v, j2);
                    if j3 == n {
                        return j3;
                    } else if j3 != j2 {
                        return j3 + 1;
                    }
                }
            }
        }
        1
    } else if n > 1 && is_windows_device_root(v[0]) && v[1] == ':' {
        if n > 2 && wsep_char(v[2]) {
            3
        } else {
            2
        }
    } else {
        0
    }
}

/// The length of `v` without its trailing separators.
fn trimmed_seps(v: &Vec<char>) -> (r: usize)
    ensures
        r as int == trimmed_sep_len(v@),
        r <= v@.len(),
{
    let mut n: usize = v.len();
    assert(v@.take(n as int) =~= v@);
    while n > 0 && wsep_char(v[n - 1])
        invariant
            n <= v@.len(),
            trimmed_sep_len(v@.take(n as int)) == trimmed_sep_len(v@),
        decreases n,
    {
        assert(v@.take(n as int).drop_last() =~= v@.take(n - 1));
        n -= 1;
    }
    n
}

/// The index of the last separator among the first `len` characters.
fn last_sep_in(v: &Vec<char>, len: usize) -> (r: Option<usize>)
    requires
        len <= v@.len(),
    ensures
        r is Some <==> last_sep(v@.take(len as int)) >= 0,
        r is Some ==> r->0 as int == last_sep(v@.take(len as int)) && r->0 < len,
{
    let mut n: usize = len;
    while n > 0
        invariant
            n <= len <= v@.len(),
            last_sep(v@.take(n as int)) == last_sep(v@.take(len as int)),
        decreases n,
    {
        assert(v@.take(n as int).drop_last() =~= v@.take(n - 1));
        if wsep_char(v[n - 1]) {
            return Some(n - 1);
        }
        n -= 1;
    }
    None
}
} // verus!
