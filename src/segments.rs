//! The segment model of a path: the pieces between separators, how `.` and `..`
//! fold them, and how they are joined back.

use vstd::prelude::*;
use crate::text::{chars_of, push_char, push_chars};

verus! {

/// Which separators a path syntax knows.
#[derive(Clone, Copy, Debug, PartialEq, Eq, Structural)]
pub enum PathStyle {
    /// Only `/` separates.
    Posix,
    /// Both `/` and `\` separate.
    Windows,
}

pub open spec fn is_sep(style: PathStyle, c: char) -> bool {
    c == '/' || (style == PathStyle::Windows && c == '\\')
}

/// Whether `c` separates path segments in the given syntax.
pub fn is_separator(c: char, style: PathStyle) -> (r: bool)
    ensures
        r == is_sep(style, c),
{
    c == '/' || (matches!(style, PathStyle::Windows) && c == '\\')
}

pub open spec fn dot() -> Seq<char> {
    seq!['.']
}

pub open spec fn dotdot() -> Seq<char> {
    seq!['.', '.']
}

/// The pieces of `p` between separators, in order; there is always at least one, and
/// pieces may be empty.
pub open spec fn split_segments(p: Seq<char>, style: PathStyle) -> Seq<Seq<char>>
    decreases p.len(),
{
    if p.len() == 0 {
        seq![Seq::<char>::empty()]
    } else {
        let rest = split_segments(p.drop_last(), style);
        if is_sep(style, p.last()) {
            rest.push(Seq::<char>::empty())
        } else {
            rest.update(rest.len() - 1, rest.last().push(p.last()))
        }
    }
}

/// Folds one segment into a stack of kept segments: empty and `.` segments vanish,
/// `..` removes the previous real segment, or is kept when nothing can be removed and
/// going above the start is allowed.
pub open spec fn fold_step(stack: Seq<Seq<char>>, seg: Seq<char>, allow_above_root: bool) -> Seq<
    Seq<char>,
> {
    if seg.len() == 0 || seg == dot() {
        stack
    } else if seg == dotdot() {
        if stack.len() > 0 && stack.last() != dotdot() {
            stack.drop_last()
        } else if allow_above_root {
            stack.push(dotdot())
        } else {
            stack
        }
    } else {
        stack.push(seg)
    }
}

pub open spec fn fold_segments(segs: Seq<Seq<char>>, allow_above_root: bool) -> Seq<Seq<char>>
    decreases segs.len(),
{
    if segs.len() == 0 {
        Seq::empty()
    } else {
        fold_step(fold_segments(segs.drop_last(), allow_above_root), segs.last(), allow_above_root)
    }
}

/// The segments joined with `sep` between neighbours.
pub open spec fn join_segments(segs: Seq<Seq<char>>, sep: char) -> Seq<char>
    decreases segs.len(),
{
    if segs.len() == 0 {
        Seq::empty()
    } else if segs.len() == 1 {
        segs[0]
    } else {
        join_segments(segs.drop_last(), sep).push(sep) + segs.last()
    }
}

/// The segments that remain of `p` once `.`, `..` and empty pieces are folded away.
pub open spec fn normalized_segments(p: Seq<char>, style: PathStyle, allow_above_root: bool) -> Seq<
    Seq<char>,
> {
    fold_segments(split_segments(p, style), allow_above_root)
}

pub open spec fn views(v: Seq<Vec<char>>) -> Seq<Seq<char>> {
    v.map_values(|x: Vec<char>| x@)
}

pub proof fn lemma_split_nonempty(p: Seq<char>, style: PathStyle)
    ensures
        split_segments(p, style).len() >= 1,
    decreases p.len(),
{
    if p.len() > 0 {
        lemma_split_nonempty(p.drop_last(), style);
    }
}

/// Adding one character to a path either closes the last piece or extends it.
proof fn lemma_split_step(p: Seq<char>, i: int, style: PathStyle)
    requires
        0 <= i < p.len(),
    ensures
        split_segments(p.take(i + 1), style).drop_last() == (if is_sep(style, p[i]) {
            split_segments(p.take(i), style)
        } else {
            split_segments(p.take(i), style).drop_last()
        }),
        split_segments(p.take(i + 1), style).last() == (if is_sep(style, p[i]) {
            Seq::<char>::empty()
        } else {
            split_segments(p.take(i), style).last().push(p[i])
        }),
{
    assert(p.take(i + 1).drop_last() =~= p.take(i));
    lemma_split_nonempty(p.take(i), style);
    let rest = split_segments(p.take(i), style);
    if !is_sep(style, p[i]) {
        assert(rest.update(rest.len() - 1, rest.last().push(p[i])).drop_last() =~= rest.drop_last());
    } else {
        assert(rest.push(Seq::<char>::empty()).drop_last() =~= rest);
    }
}

fn is_dot_seg(seg: &Vec<char>) -> (r: bool)
    ensures
        r == (seg@ == dot()),
{
    if seg.len() == 1 && seg[0] == '.' {
        assert(seg@ =~= dot());
        true
    } else {
        false
    }
}

fn is_dotdot_seg(seg: &Vec<char>) -> (r: bool)
    ensures
        r == (seg@ == dotdot()),
{
    if seg.len() == 2 && seg[0] == '.' && seg[1] == '.' {
        assert(seg@ =~= dotdot());
        true
    } else {
        false
    }
}

/// Folds `seg` into `stack` as `fold_step` says.
pub fn push_segment(stack: &mut Vec<Vec<char>>, seg: Vec<char>, allow_above_root: bool)
    ensures
        views(final(stack)@) == fold_step(views(old(stack)@), seg@, allow_above_root),
{
    let ghost before = views(stack@);
    if seg.len() == 0 || is_dot_seg(&seg) {
    } else if is_dotdot_seg(&seg) {
        let n = stack.len();
        if n > 0 && !is_dotdot_seg(&stack[n - 1]) {
            stack.pop();
            assert(views(stack@) =~= before.drop_last());
        } else if allow_above_root {
            let mut up: Vec<char> = Vec::new();
            up.push('.');
            up.push('.');
            assert(up@ =~= dotdot());
            stack.push(up);
            assert(views(stack@) =~= before.push(dotdot()));
        }
    } else {
        stack.push(seg);
        assert(views(stack@) =~= before.push(seg@));
    }
}

/// The segments of `path` after folding, as a stack.
pub fn fold_path(path: &str, style: PathStyle, allow_above_root: bool) -> (r: Vec<Vec<char>>)
    ensures
        views(r@) == normalized_segments(path@, style, allow_above_root),
{
    let chars = chars_of(path);
    let mut stack: Vec<Vec<char>> = Vec::new();
    let mut cur: Vec<char> = Vec::new();
    let mut i: usize = 0;
    proof {
        assert(path@.take(0) =~= Seq::<char>::empty());
    }
    while i < chars.len()
        invariant
            chars@ == path@,
            i <= chars@.len(),
            views(stack@) == fold_segments(
                split_segments(path@.take(i as int), style).drop_last(),
                allow_above_root,
            ),
            cur@ == split_segments(path@.take(i as int), style).last(),
        decreases chars@.len() - i,
    {
        let c = chars[i];
        proof {
            lemma_split_step(path@, i as int, style);
            lemma_split_nonempty(path@.take(i as int), style);
        }
        if is_separator(c, style) {
            let seg = cur;
            cur = Vec::new();
            push_segment(&mut stack, seg, allow_above_root);
            assert(cur@ =~= Seq::<char>::empty());
        } else {
            cur.push(c);
        }
        i += 1;
    }
    proof {
        assert(path@.take(i as int) =~= path@);
        lemma_split_nonempty(path@, style);
    }
    push_segment(&mut stack, cur, allow_above_root);
    stack
}

/// The segments joined with `sep`.
pub fn join_with(segs: &Vec<Vec<char>>, sep: char) -> (r: String)
    ensures
        r@ == join_segments(views(segs@), sep),
{
    let mut r = String::new();
    let mut k: usize = 0;
    while k < segs.len()
        invariant
            k <= segs@.len(),
            r@ == join_segments(views(segs@).take(k as int), sep),
        decreases segs@.len() - k,
    {
        proof {
            assert(views(segs@).take(k + 1).drop_last() =~= views(segs@).take(k as int));
        }
        if k > 0 {
            push_char(&mut r, sep);
        }
        push_chars(&mut r, &segs[k]);
        k += 1;
        proof {
            if k == 1 {
                assert(r@ =~= views(segs@).take(1)[0]);
            }
        }
    }
    assert(views(segs@).take(k as int) =~= views(segs@));
    r
}

/// Collapses `.` and `..` segments and runs of separators in `path`, joining what
/// remains with `separator`. With `allow_above_root`, a `..` that has no segment
/// before it to remove is kept.
pub fn normalize_string(path: &str, allow_above_root: bool, separator: char, style: PathStyle) -> (r:
    String)
    ensures
        r@ == join_segments(normalized_segments(path@, style, allow_above_root), separator),
{
    let stack = fold_path(path, style, allow_above_root);
    join_with(&stack, separator)
}

} // verus!

verus! {

/// The non-empty segments, in order.
pub open spec fn drop_empty(segs: Seq<Seq<char>>) -> Seq<Seq<char>>
    decreases segs.len(),
{
    if segs.len() == 0 {
        Seq::empty()
    } else if segs.last().len() == 0 {
        drop_empty(segs.drop_last())
    } else {
        drop_empty(segs.drop_last()).push(segs.last())
    }
}

/// The non-empty pieces of `path` between separators.
pub fn split_nonempty(path: &str, style: PathStyle) -> (r: Vec<Vec<char>>)
    ensures
        views(r@) == drop_empty(split_segments(path@, style)),
{
    let chars = chars_of(path);
    let mut stack: Vec<Vec<char>> = Vec::new();
    let mut cur: Vec<char> = Vec::new();
    let mut i: usize = 0;
    proof {
        assert(path@.take(0) =~= Seq::<char>::empty());
    }
    while i < chars.len()
        invariant
            chars@ == path@,
            i <= chars@.len(),
            views(stack@) == drop_empty(split_segments(path@.take(i as int), style).drop_last()),
            cur@ == split_segments(path@.take(i as int), style).last(),
        decreases chars@.len() - i,
    {
        let c = chars[i];
        proof {
            lemma_split_step(path@, i as int, style);
            lemma_split_nonempty(path@.take(i as int), style);
        }
        if is_separator(c, style) {
            let seg = cur;
            cur = Vec::new();
            if seg.len() > 0 {
                let ghost prev = stack@;
                let ghost sv = seg@;
                stack.push(seg);
                assert(views(stack@) =~= views(prev).push(sv));
            }
            assert(cur@ =~= Seq::<char>::empty());
        } else {
            cur.push(c);
        }
        i += 1;
    }
    proof {
        assert(path@.take(i as int) =~= path@);
        lemma_split_nonempty(path@, style);
    }
    if cur.len() > 0 {
        let ghost prev = stack@;
        let ghost sv = cur@;
        stack.push(cur);
        assert(views(stack@) =~= views(prev).push(sv));
    }
    stack
}

} // verus!

verus! {

/// All pieces of `path` between separators, empty ones included.
pub fn split_all(path: &str, style: PathStyle) -> (r: Vec<Vec<char>>)
    ensures
        views(r@) == split_segments(path@, style),
{
    let chars = chars_of(path);
    let mut stack: Vec<Vec<char>> = Vec::new();
    let mut cur: Vec<char> = Vec::new();
    let mut i: usize = 0;
    proof {
        assert(path@.take(0) =~= Seq::<char>::empty());
    }
    while i < chars.len()
        invariant
            chars@ == path@,
            i <= chars@.len(),
            views(stack@) == split_segments(path@.take(i as int), style).drop_last(),
            cur@ == split_segments(path@.take(i as int), style).last(),
        decreases chars@.len() - i,
    {
        let c = chars[i];
        proof {
            lemma_split_step(path@, i as int, style);
            lemma_split_nonempty(path@.take(i as int), style);
        }
        if is_separator(c, style) {
            let seg = cur;
            cur = Vec::new();
            let ghost prev = stack@;
            let ghost sv = seg@;
            stack.push(seg);
            assert(views(stack@) =~= views(prev).push(sv));
            assert(cur@ =~= Seq::<char>::empty());
        } else {
            cur.push(c);
        }
        i += 1;
    }
    proof {
        assert(path@.take(i as int) =~= path@);
        lemma_split_nonempty(path@, style);
    }
    let ghost prev = stack@;
    let ghost sv = cur@;
    stack.push(cur);
    assert(views(stack@) =~= views(prev).push(sv));
    assert(split_segments(path@, style) =~= split_segments(path@, style).drop_last().push(sv));
    stack
}

} // verus!
