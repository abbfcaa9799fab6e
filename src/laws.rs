//! Properties that tie the path operations together, proved over their models.

use vstd::prelude::*;
use crate::posix::{
    common_len_from, posix_combined, posix_is_absolute, posix_normalize, posix_parse,
    posix_relative, posix_resolve, posix_resolved_segments, relative_segments, };
use crate::segments::{
    dot, dotdot, fold_segments, fold_step, is_sep, join_segments, normalized_segments,
    split_segments, PathStyle,
};
use crate::text::{last_index_of, trim_trailing};
use crate::windows::{
    is_drive_letter, last_sep, lower_views, win_normalize, win_normalize_root, trimmed_sep_len, win_final_state, win_parse,
    win_parse_root_end, win_relative, win_relative_segments, win_resolve, wsep,
};

verus! {

/// A segment that folding keeps: non-empty, without separators, not `.`.
pub open spec fn kept_segment(s: Seq<char>, style: PathStyle) -> bool {
    s.len() > 0 && s != dot() && forall|j: int| 0 <= j < s.len() ==> !is_sep(style, #[trigger] s[j])
}

/// The shape of a folded stack: kept segments, with `..` only in a leading run and
/// only when going above the start is allowed.
pub open spec fn canonical(segs: Seq<Seq<char>>, style: PathStyle, allow: bool) -> bool {
    &&& forall|i: int| 0 <= i < segs.len() ==> kept_segment(#[trigger] segs[i], style)
    &&& forall|i: int|
        0 <= i < segs.len() && #[trigger] segs[i] == dotdot() ==> allow && forall|j: int|
            0 <= j < i ==> segs[j] == dotdot()
}

pub open spec fn no_sep_pieces(segs: Seq<Seq<char>>, style: PathStyle) -> bool {
    forall|i: int, j: int|
        0 <= i < segs.len() && 0 <= j < segs[i].len() ==> !is_sep(style, #[trigger] segs[i][j])
}

proof fn lemma_split_no_sep(p: Seq<char>, style: PathStyle)
    ensures
        no_sep_pieces(split_segments(p, style), style),
    decreases p.len(),
{
    if p.len() > 0 {
        lemma_split_no_sep(p.drop_last(), style);
        crate::segments::lemma_split_nonempty(p.drop_last(), style);
        let rest = split_segments(p.drop_last(), style);
        if !is_sep(style, p.last()) {
            let r = rest.update(rest.len() - 1, rest.last().push(p.last()));
            assert forall|i: int, j: int| 0 <= i < r.len() && 0 <= j < r[i].len() implies !is_sep(
                style,
                #[trigger] r[i][j],
            ) by {
                if i == rest.len() - 1 {
                    if j < rest.last().len() {
                        assert(r[i][j] == rest[i][j]);
                    }
                } else {
                    assert(r[i] == rest[i]);
                }
            }
        } else {
            let r = rest.push(Seq::<char>::empty());
            assert forall|i: int, j: int| 0 <= i < r.len() && 0 <= j < r[i].len() implies !is_sep(
                style,
                #[trigger] r[i][j],
            ) by {
                assert(r[i] == rest[i]);
            }
        }
    }
}

proof fn lemma_dotdot_kept(style: PathStyle)
    ensures
        kept_segment(dotdot(), style),
{
    assert(dotdot() != dot()) by {
        assert(dotdot().len() != dot().len());
    }
}

/// Folding pieces without separators gives a canonical stack.
proof fn lemma_fold_canonical(segs: Seq<Seq<char>>, style: PathStyle, allow: bool)
    requires
        no_sep_pieces(segs, style),
    ensures
        canonical(fold_segments(segs, allow), style, allow),
    decreases segs.len(),
{
    if segs.len() > 0 {
        let init = segs.drop_last();
        assert(no_sep_pieces(init, style)) by {
            assert forall|i: int, j: int| 0 <= i < init.len() && 0 <= j < init[i].len() implies !is_sep(
                style,
                #[trigger] init[i][j],
            ) by {
                assert(init[i] == segs[i]);
            }
        }
        lemma_fold_canonical(init, style, allow);
        lemma_dotdot_kept(style);
        let st = fold_segments(init, allow);
        let seg = segs.last();
        assert(forall|j: int| 0 <= j < seg.len() ==> !is_sep(style, #[trigger] seg[j])) by {
            assert forall|j: int| 0 <= j < seg.len() implies !is_sep(style, #[trigger] seg[j]) by {
                assert(seg[j] == segs[segs.len() - 1][j]);
            }
        }
        let r = fold_step(st, seg, allow);
        if seg.len() == 0 || seg == dot() {
        } else if seg == dotdot() {
            if st.len() > 0 && st.last() != dotdot() {
                assert forall|i: int| 0 <= i < r.len() && #[trigger] r[i] == dotdot() implies allow
                    && forall|j: int| 0 <= j < i ==> r[j] == dotdot() by {
                    assert(r[i] == st[i]);
                    assert forall|j: int| 0 <= j < i implies r[j] == dotdot() by {
                        assert(r[j] == st[j]);
                    }
                }
                assert forall|i: int| 0 <= i < r.len() implies kept_segment(#[trigger] r[i], style) by {
                    assert(r[i] == st[i]);
                }
            } else if allow {
                assert forall|i: int| 0 <= i < r.len() && #[trigger] r[i] == dotdot() implies allow
                    && forall|j: int| 0 <= j < i ==> r[j] == dotdot() by {
                    if i < st.len() {
                        assert(r[i] == st[i]);
                        assert forall|j: int| 0 <= j < i implies r[j] == dotdot() by {
                            assert(r[j] == st[j]);
                        }
                    } else {
                        assert forall|j: int| 0 <= j < i implies r[j] == dotdot() by {
                            assert(r[j] == st[j]);
                            if st.len() > 0 {
                                assert(st.last() == dotdot());
                                assert(st[st.len() - 1] == dotdot());
                            }
                        }
                    }
                }
                assert forall|i: int| 0 <= i < r.len() implies kept_segment(#[trigger] r[i], style) by {
                    if i < st.len() {
                        assert(r[i] == st[i]);
                    }
                }
            }
        } else {
            assert forall|i: int| 0 <= i < r.len() && #[trigger] r[i] == dotdot() implies allow
                && forall|j: int| 0 <= j < i ==> r[j] == dotdot() by {
                if i < st.len() {
                    assert(r[i] == st[i]);
                    assert forall|j: int| 0 <= j < i implies r[j] == dotdot() by {
                        assert(r[j] == st[j]);
                    }
                } else {
                    assert(r[i] == seg);
                }
            }
            assert forall|i: int| 0 <= i < r.len() implies kept_segment(#[trigger] r[i], style) by {
                if i < st.len() {
                    assert(r[i] == st[i]);
                }
            }
        }
    }
}

/// A folded stack's segments are non-empty and hold no separator.
pub proof fn lemma_normalized_canonical(p: Seq<char>, style: PathStyle, allow: bool)
    ensures
        canonical(normalized_segments(p, style, allow), style, allow),
{
    lemma_split_no_sep(p, style);
    lemma_fold_canonical(split_segments(p, style), style, allow);
}

/// A joined stack of non-empty segments starts with the first segment's first
/// character and ends with the last segment's last one.
proof fn lemma_join_ends(segs: Seq<Seq<char>>, sep: char)
    requires
        segs.len() > 0,
        forall|i: int| 0 <= i < segs.len() ==> (#[trigger] segs[i]).len() > 0,
    ensures
        join_segments(segs, sep).len() > 0,
        join_segments(segs, sep)[0] == segs[0][0],
        join_segments(segs, sep).last() == segs.last().last(),
    decreases segs.len(),
{
    if segs.len() > 1 {
        let init = segs.drop_last();
        assert(init[0] == segs[0]);
        assert forall|i: int| 0 <= i < init.len() implies (#[trigger] init[i]).len() > 0 by {
            assert(init[i] == segs[i]);
        }
        lemma_join_ends(init, sep);
    }
}

/// Relative paths between POSIX paths never start at the root.
pub proof fn lemma_posix_relative_not_absolute(a: Seq<char>, b: Seq<char>, cwd: Seq<char>)
    ensures
        !posix_is_absolute(posix_relative(a, b, cwd)),
{
    let f = posix_resolved_segments(seq![a], cwd);
    let t = posix_resolved_segments(seq![b], cwd);
    let ca = posix_combined(seq![a], cwd);
    let cb = posix_combined(seq![b], cwd);
    lemma_normalized_canonical(ca.0, PathStyle::Posix, !ca.1);
    lemma_normalized_canonical(cb.0, PathStyle::Posix, !cb.1);
    let k = common_len_from(f, t, 0);
    lemma_common_len_bounds(f, t, 0);
    let r = relative_segments(f, t);
    lemma_dotdot_kept(PathStyle::Posix);
    assert forall|i: int| 0 <= i < r.len() implies kept_segment(#[trigger] r[i], PathStyle::Posix) by {
        if i < f.len() - k {
            assert(r[i] == dotdot());
        } else {
            assert(r[i] == t[k + i - (f.len() - k)]);
        }
    }
    if r.len() > 0 {
        lemma_join_ends(r, '/');
        assert(kept_segment(r[0], PathStyle::Posix));
        assert(!is_sep(PathStyle::Posix, r[0][0]));
    }
}

proof fn lemma_common_len_bounds(a: Seq<Seq<char>>, b: Seq<Seq<char>>, i: int)
    requires
        0 <= i <= a.len(),
        i <= b.len(),
    ensures
        i <= common_len_from(a, b, i) <= a.len(),
        common_len_from(a, b, i) <= b.len(),
    decreases a.len() - i,
{
    if i < a.len() && i < b.len() && a[i] == b[i] {
        lemma_common_len_bounds(a, b, i + 1);
    }
}

proof fn lemma_common_len_self(a: Seq<Seq<char>>, i: int)
    requires
        0 <= i <= a.len(),
    ensures
        common_len_from(a, a, i) == a.len(),
    decreases a.len() - i,
{
    if i < a.len() {
        lemma_common_len_self(a, i + 1);
    }
}

/// The POSIX path from a path to itself is empty.
pub proof fn lemma_posix_relative_self(a: Seq<char>, cwd: Seq<char>)
    ensures
        posix_relative(a, a, cwd).len() == 0,
{
    let f = posix_resolved_segments(seq![a], cwd);
    lemma_common_len_self(f, 0);
    assert(relative_segments(f, f) =~= Seq::<Seq<char>>::empty());
}

/// The Windows path from a path to itself is empty.
pub proof fn lemma_windows_relative_self(
    a: Seq<char>,
    cwd: Seq<char>,
    per_drive: Seq<(Seq<char>, Seq<char>)>,
)
    ensures
        win_relative(a, a, cwd, per_drive).len() == 0,
{
    let t = crate::windows::win_resolve(seq![a], cwd, per_drive);
    let segs = crate::segments::drop_empty(split_segments(t, PathStyle::Windows));
    lemma_common_len_self(lower_views(segs), 0);
    assert(lower_views(segs).len() == segs.len());
    let w = win_relative_segments(segs, segs);
    assert(w is Some);
    assert(w->0 =~= Seq::<Seq<char>>::empty());
}


pub open spec fn sep_free(y: Seq<char>, style: PathStyle) -> bool {
    forall|j: int| 0 <= j < y.len() ==> !is_sep(style, #[trigger] y[j])
}

/// Appending characters without separators extends the last piece.
proof fn lemma_split_append(q: Seq<char>, y: Seq<char>, style: PathStyle)
    requires
        sep_free(y, style),
    ensures
        split_segments(q + y, style) == split_segments(q, style).update(
            split_segments(q, style).len() - 1,
            split_segments(q, style).last() + y,
        ),
    decreases y.len(),
{
    crate::segments::lemma_split_nonempty(q, style);
    let sq = split_segments(q, style);
    if y.len() == 0 {
        assert(q + y =~= q);
        assert(sq.last() + y =~= sq.last());
        assert(sq.update(sq.len() - 1, sq.last()) =~= sq);
    } else {
        let y0 = y.drop_last();
        assert(sep_free(y0, style)) by {
            assert forall|j: int| 0 <= j < y0.len() implies !is_sep(style, #[trigger] y0[j]) by {
                assert(y0[j] == y[j]);
            }
        }
        lemma_split_append(q, y0, style);
        assert((q + y).drop_last() =~= q + y0);
        assert((q + y).last() == y.last());
        assert(!is_sep(style, y[y.len() - 1]));
        crate::segments::lemma_split_nonempty(q + y0, style);
        let r0 = split_segments(q + y0, style);
        assert(r0.update(r0.len() - 1, r0.last().push(y.last())) =~= sq.update(
            sq.len() - 1,
            sq.last() + y,
        )) by {
            assert(r0.last() == sq.last() + y0);
            assert((sq.last() + y0).push(y.last()) =~= sq.last() + y);
        }
    }
}

/// Splitting a join of separator-free segments gives them back.
proof fn lemma_split_join(segs: Seq<Seq<char>>, style: PathStyle, sep: char)
    requires
        segs.len() > 0,
        is_sep(style, sep),
        forall|i: int| 0 <= i < segs.len() ==> sep_free(#[trigger] segs[i], style),
    ensures
        split_segments(join_segments(segs, sep), style) == segs,
    decreases segs.len(),
{
    if segs.len() == 1 {
        lemma_split_append(Seq::<char>::empty(), segs[0], style);
        assert(Seq::<char>::empty() + segs[0] =~= segs[0]);
        assert(split_segments(Seq::<char>::empty(), style).update(0, Seq::<char>::empty() + segs[0])
            =~= segs);
    } else {
        let init = segs.drop_last();
        assert forall|i: int| 0 <= i < init.len() implies sep_free(#[trigger] init[i], style) by {
            assert(init[i] == segs[i]);
        }
        lemma_split_join(init, style, sep);
        let j = join_segments(init, sep);
        assert(sep_free(segs.last(), style)) by {
            assert(segs.last() == segs[segs.len() - 1]);
        }
        lemma_split_append(j.push(sep), segs.last(), style);
        assert(j.push(sep).drop_last() =~= j);
        let sp = split_segments(j.push(sep), style);
        assert(sp == init.push(Seq::<char>::empty()));
        assert(sp.update(sp.len() - 1, sp.last() + segs.last()) =~= segs) by {
            assert(Seq::<char>::empty() + segs.last() =~= segs.last());
        }
    }
}

/// A canonical stack folds to itself.
proof fn lemma_fold_canonical_fixed(segs: Seq<Seq<char>>, style: PathStyle, allow: bool)
    requires
        canonical(segs, style, allow),
    ensures
        fold_segments(segs, allow) == segs,
    decreases segs.len(),
{
    if segs.len() > 0 {
        let init = segs.drop_last();
        assert(canonical(init, style, allow)) by {
            assert forall|i: int| 0 <= i < init.len() implies kept_segment(#[trigger] init[i], style) by {
                assert(init[i] == segs[i]);
            }
            assert forall|i: int| 0 <= i < init.len() && #[trigger] init[i] == dotdot() implies allow
                && forall|j: int| 0 <= j < i ==> init[j] == dotdot() by {
                assert(init[i] == segs[i]);
                assert forall|j: int| 0 <= j < i implies init[j] == dotdot() by {
                    assert(init[j] == segs[j]);
                }
            }
        }
        lemma_fold_canonical_fixed(init, style, allow);
        let last = segs.last();
        assert(kept_segment(segs[segs.len() - 1], style));
        if last == dotdot() {
            assert(segs[segs.len() - 1] == dotdot());
            if init.len() > 0 {
                assert(init.last() == segs[init.len() - 1]);
            }
        }
        assert(init.push(last) =~= segs);
    }
}

/// An empty first piece folds away.
proof fn lemma_fold_leading_empty(segs: Seq<Seq<char>>, allow: bool)
    ensures
        fold_segments(seq![Seq::<char>::empty()] + segs, allow) == fold_segments(segs, allow),
    decreases segs.len(),
{
    reveal_with_fuel(fold_segments, 2);
    if segs.len() == 0 {
        assert(seq![Seq::<char>::empty()] + segs =~= seq![Seq::<char>::empty()]);
        assert(seq![Seq::<char>::empty()].drop_last() =~= Seq::<Seq<char>>::empty());
    } else {
        lemma_fold_leading_empty(segs.drop_last(), allow);
        assert((seq![Seq::<char>::empty()] + segs).drop_last() =~= seq![Seq::<char>::empty()]
            + segs.drop_last());
        assert((seq![Seq::<char>::empty()] + segs).last() == segs.last());
    }
}

/// A path that starts with a separator splits into an empty piece, then the rest.
proof fn lemma_split_leading_sep(q: Seq<char>, style: PathStyle, c: char)
    requires
        is_sep(style, c),
    ensures
        split_segments(seq![c] + q, style) == seq![Seq::<char>::empty()] + split_segments(q, style),
    decreases q.len(),
{
    reveal_with_fuel(split_segments, 2);
    if q.len() == 0 {
        assert(seq![c] + q =~= seq![c]);
        assert(seq![c].drop_last() =~= Seq::<char>::empty());
        assert(split_segments(seq![c], style) =~= seq![Seq::<char>::empty(), Seq::<char>::empty()]);
        assert(seq![Seq::<char>::empty()] + split_segments(q, style) =~= seq![
            Seq::<char>::empty(),
            Seq::<char>::empty(),
        ]);
    } else {
        lemma_split_leading_sep(q.drop_last(), style, c);
        assert((seq![c] + q).drop_last() =~= seq![c] + q.drop_last());
        assert((seq![c] + q).last() == q.last());
        crate::segments::lemma_split_nonempty(q.drop_last(), style);
        let r = split_segments(q.drop_last(), style);
        let e = seq![Seq::<char>::empty()];
        if is_sep(style, q.last()) {
            assert((e + r).push(Seq::<char>::empty()) =~= e + r.push(Seq::<char>::empty()));
        } else {
            assert((e + r).update((e + r).len() - 1, (e + r).last().push(q.last())) =~= e
                + r.update(r.len() - 1, r.last().push(q.last())));
        }
    }
}

/// Folding ignores a final empty piece.
proof fn lemma_fold_trailing_empty(segs: Seq<Seq<char>>, allow: bool)
    ensures
        fold_segments(segs.push(Seq::<char>::empty()), allow) == fold_segments(segs, allow),
{
    assert(segs.push(Seq::<char>::empty()).drop_last() =~= segs);
}

/// Normalizing a POSIX path twice gives what normalizing it once does.
pub proof fn lemma_posix_normalize_idempotent(p: Seq<char>)
    ensures
        posix_normalize(posix_normalize(p)) == posix_normalize(p),
{
    let n = posix_normalize(p);
    if p.len() == 0 {
        assert(n == seq!['.']);
        lemma_normalize_dot();
    } else {
        let abs = p[0] == '/';
        let trailing = p.last() == '/';
        let segs = normalized_segments(p, PathStyle::Posix, !abs);
        let body = join_segments(segs, '/');
        lemma_normalized_canonical(p, PathStyle::Posix, !abs);
        if body.len() == 0 {
            if abs {
                lemma_normalize_root();
            } else if trailing {
                lemma_normalize_dot_slash();
            } else {
                lemma_normalize_dot();
            }
        } else {
            assert(segs.len() > 0);
            assert forall|i: int| 0 <= i < segs.len() implies sep_free(#[trigger] segs[i], PathStyle::Posix) by {
                assert(kept_segment(segs[i], PathStyle::Posix));
            }
            assert forall|i: int| 0 <= i < segs.len() implies (#[trigger] segs[i]).len() > 0 by {
                assert(kept_segment(segs[i], PathStyle::Posix));
            }
            lemma_join_ends(segs, '/');
            lemma_split_join(segs, PathStyle::Posix, '/');
            lemma_fold_canonical_fixed(segs, PathStyle::Posix, !abs);
            assert(kept_segment(segs[0], PathStyle::Posix));
            assert(kept_segment(segs[segs.len() - 1], PathStyle::Posix));
            assert(segs.last() == segs[segs.len() - 1]);
            assert(segs.last().last() == segs.last()[segs.last().len() - 1]);
            let wt = if trailing {
                body.push('/')
            } else {
                body
            };
            if trailing {
                lemma_fold_trailing_empty(split_segments(body, PathStyle::Posix), !abs);
                assert(body.push('/').drop_last() =~= body);
            }
            assert(fold_segments(split_segments(wt, PathStyle::Posix), !abs) == segs);
            if abs {
                lemma_split_leading_sep(wt, PathStyle::Posix, '/');
                lemma_fold_leading_empty(split_segments(wt, PathStyle::Posix), !abs);
                assert(n == seq!['/'] + wt);
                assert(n[0] == '/');
                assert(n.last() == wt.last());
            } else {
                assert(n == wt);
                assert(n[0] == body[0]);
            }
            assert(normalized_segments(n, PathStyle::Posix, !abs) == segs);
        }
    }
}

proof fn lemma_normalize_dot()
    ensures
        posix_normalize(seq!['.']) == seq!['.'],
{
    reveal_with_fuel(split_segments, 3);
    reveal_with_fuel(fold_segments, 3);
    let p = seq!['.'];
    assert(p.drop_last() =~= Seq::<char>::empty());
    assert(split_segments(p, PathStyle::Posix) =~= seq![seq!['.']]);
    assert(seq![seq!['.']].drop_last() =~= Seq::<Seq<char>>::empty());
    assert(seq!['.'] =~= dot());
    assert(normalized_segments(p, PathStyle::Posix, true) =~= Seq::<Seq<char>>::empty());
}

proof fn lemma_normalize_dot_slash()
    ensures
        posix_normalize(seq!['.', '/']) == seq!['.', '/'],
{
    reveal_with_fuel(split_segments, 3);
    reveal_with_fuel(fold_segments, 3);
    let p = seq!['.', '/'];
    assert(p.drop_last() =~= seq!['.']);
    assert(seq!['.'].drop_last() =~= Seq::<char>::empty());
    assert(split_segments(seq!['.'], PathStyle::Posix) =~= seq![seq!['.']]);
    assert(split_segments(p, PathStyle::Posix) =~= seq![seq!['.'], Seq::<char>::empty()]);
    assert(seq![seq!['.'], Seq::<char>::empty()].drop_last() =~= seq![seq!['.']]);
    assert(seq![seq!['.']].drop_last() =~= Seq::<Seq<char>>::empty());
    assert(seq!['.'] =~= dot());
    assert(normalized_segments(p, PathStyle::Posix, true) =~= Seq::<Seq<char>>::empty());
}

proof fn lemma_normalize_root()
    ensures
        posix_normalize(seq!['/']) == seq!['/'],
{
    reveal_with_fuel(split_segments, 3);
    reveal_with_fuel(fold_segments, 3);
    let p = seq!['/'];
    assert(p.drop_last() =~= Seq::<char>::empty());
    assert(split_segments(p, PathStyle::Posix) =~= seq![Seq::<char>::empty(), Seq::<char>::empty()]);
    assert(seq![Seq::<char>::empty(), Seq::<char>::empty()].drop_last() =~= seq![Seq::<char>::empty()]);
    assert(seq![Seq::<char>::empty()].drop_last() =~= Seq::<Seq<char>>::empty());
    assert(normalized_segments(p, PathStyle::Posix, false) =~= Seq::<Seq<char>>::empty());
}

proof fn lemma_last_slash_after(x: Seq<char>, y: Seq<char>)
    requires
        !y.contains('/'),
    ensures
        last_index_of(x.push('/') + y, '/') == x.len(),
    decreases y.len(),
{
    if y.len() == 0 {
        assert(x.push('/') + y =~= x.push('/'));
    } else {
        let y0 = y.drop_last();
        assert(!y0.contains('/')) by {
            if y0.contains('/') {
                let j = choose|j: int| 0 <= j < y0.len() && y0[j] == '/';
                assert(y[j] == '/');
            }
        }
        lemma_last_slash_after(x, y0);
        assert((x.push('/') + y).drop_last() =~= x.push('/') + y0);
        assert((x.push('/') + y).last() == y[y.len() - 1]);
        assert(y[y.len() - 1] != '/');
    }
}

/// A directory and a base joined back into a path: the directory alone when the base
/// is empty, and `sep` between them unless the directory already ends with one.
pub open spec fn rejoin(dir: Seq<char>, base: Seq<char>, sep: char) -> Seq<char> {
    if base.len() == 0 {
        dir
    } else if dir.len() > 0 && dir.last() == sep {
        dir + base
    } else {
        dir + seq![sep] + base
    }
}

/// For POSIX paths that resolve to an absolute path, the parsed directory and base
/// join back into the resolved path.
pub proof fn lemma_posix_parse_resolve_rejoin(paths: Seq<Seq<char>>, cwd: Seq<char>)
    requires
        posix_combined(paths, cwd).1,
    ensures
        ({
            let r = posix_resolve(paths, cwd);
            let parts = posix_parse(r);
            rejoin(parts.dir, parts.base, '/') == r
        }),
{
    let c = posix_combined(paths, cwd);
    let segs = posix_resolved_segments(paths, cwd);
    lemma_normalized_canonical(c.0, PathStyle::Posix, !c.1);
    let r = posix_resolve(paths, cwd);
    let parts = posix_parse(r);
    if segs.len() == 0 {
        assert(r =~= seq!['/']);
        assert(r.drop_last() =~= Seq::<char>::empty());
        assert(trim_trailing(Seq::<char>::empty(), '/') == Seq::<char>::empty());
        assert(trim_trailing(r, '/') == Seq::<char>::empty());
        assert(last_index_of(Seq::<char>::empty(), '/') == -1);
    } else if segs.len() == 1 {
        let s0 = segs[0];
        assert(kept_segment(s0, PathStyle::Posix));
        assert(r =~= seq!['/'] + s0);
        assert(r.last() == s0[s0.len() - 1]);
        assert(!is_sep(PathStyle::Posix, s0[s0.len() - 1]));
        assert(trim_trailing(r, '/') == r);
        assert(!s0.contains('/')) by {
            if s0.contains('/') {
                let j = choose|j: int| 0 <= j < s0.len() && s0[j] == '/';
                assert(!is_sep(PathStyle::Posix, s0[j]));
            }
        }
        lemma_last_slash_after(Seq::<char>::empty(), s0);
        assert(Seq::<char>::empty().push('/') + s0 =~= r);
        assert(parts.base =~= s0);
        assert(parts.dir =~= seq!['/']);
        assert(seq!['/'] + s0 =~= r);
    } else {
        let init = segs.drop_last();
        let last = segs.last();
        assert(kept_segment(segs[segs.len() - 1], PathStyle::Posix));
        assert(last == segs[segs.len() - 1]);
        let a = seq!['/'] + join_segments(init, '/');
        assert(r =~= a.push('/') + last);
        assert(!last.contains('/')) by {
            if last.contains('/') {
                let j = choose|j: int| 0 <= j < last.len() && last[j] == '/';
                assert(!is_sep(PathStyle::Posix, last[j]));
            }
        }
        assert(r.last() == last[last.len() - 1]);
        assert(!is_sep(PathStyle::Posix, last[last.len() - 1]));
        assert(trim_trailing(r, '/') == r);
        lemma_last_slash_after(a, last);
        let idx = a.len() as int;
        assert forall|i: int| 0 <= i < init.len() implies (#[trigger] init[i]).len() > 0 by {
            assert(init[i] == segs[i]);
            assert(kept_segment(segs[i], PathStyle::Posix));
        }
        lemma_join_ends(init, '/');
        let il = init.last();
        assert(il == segs[init.len() - 1]);
        assert(kept_segment(segs[init.len() - 1], PathStyle::Posix));
        assert(!is_sep(PathStyle::Posix, il[il.len() - 1]));
        assert(parts.dir == r.take(idx));
        assert(r.take(idx) =~= a);
        assert(a.last() == join_segments(init, '/').last());
        assert(parts.base == r.skip(idx + 1));
        assert(r.skip(idx + 1) =~= last);
        assert(r[idx] == '/');
        assert(r.take(idx) + seq!['/'] + r.skip(idx + 1) =~= r);
    }
}

proof fn lemma_last_wsep_after(x: Seq<char>, y: Seq<char>)
    requires
        sep_free(y, PathStyle::Windows),
    ensures
        last_sep(x.push('\\') + y) == x.len(),
    decreases y.len(),
{
    if y.len() == 0 {
        assert(x.push('\\') + y =~= x.push('\\'));
    } else {
        let y0 = y.drop_last();
        assert(sep_free(y0, PathStyle::Windows)) by {
            assert forall|j: int| 0 <= j < y0.len() implies !is_sep(PathStyle::Windows, #[trigger] y0[j]) by {
                assert(y0[j] == y[j]);
            }
        }
        lemma_last_wsep_after(x, y0);
        assert((x.push('\\') + y).drop_last() =~= x.push('\\') + y0);
        assert((x.push('\\') + y).last() == y[y.len() - 1]);
        assert(!wsep(y[y.len() - 1]));
    }
}

/// For Windows paths that resolve to an absolute path under a drive (`C:\\`) or under
/// the bare root (`\\`), the parsed directory and base join back into the resolved
/// path.
pub proof fn lemma_windows_parse_resolve_rejoin(
    paths: Seq<Seq<char>>,
    cwd: Seq<char>,
    per_drive: Seq<(Seq<char>, Seq<char>)>,
)
    requires
        win_final_state(paths, cwd, per_drive).absolute,
        ({
            let d = win_final_state(paths, cwd, per_drive).device;
            d.len() == 0 || (d.len() == 2 && is_drive_letter(d[0]) && d[1] == ':')
        }),
    ensures
        ({
            let r = win_resolve(paths, cwd, per_drive);
            let parts = win_parse(r);
            rejoin(parts.dir, parts.base, '\\') == r
        }),
{
    let st = win_final_state(paths, cwd, per_drive);
    let segs = normalized_segments(st.tail, PathStyle::Windows, false);
    lemma_normalized_canonical(st.tail, PathStyle::Windows, false);
    let r = win_resolve(paths, cwd, per_drive);
    let parts = win_parse(r);
    let dl = st.device.len() as int;
    if segs.len() == 0 {
        assert(r =~= st.device.push('\\'));
        if dl == 2 {
            assert(r.len() == 3 && r[0] == st.device[0] && r[1] == ':');
        }
        assert(parts.dir == r && parts.base.len() == 0);
        return;
    }
    let last = segs.last();
    assert(kept_segment(segs[segs.len() - 1], PathStyle::Windows));
    assert(last == segs[segs.len() - 1]);
    assert(sep_free(last, PathStyle::Windows));
    assert(r.last() == last[last.len() - 1]);
    assert(!wsep(last[last.len() - 1]));
    assert(trimmed_sep_len(r) == r.len());
    assert(r =~= r.take(r.len() as int));
    assert(kept_segment(segs[0], PathStyle::Windows));
    let init = segs.drop_last();
    let a = st.device.push('\\') + join_segments(init, '\\');
    if segs.len() == 1 {
        assert(r =~= st.device.push('\\') + last);
        assert(r[dl] == '\\');
        assert(!wsep(last[0]));
        assert(r[dl + 1] == last[0]);
        lemma_last_wsep_after(st.device, last);
        if dl == 0 {
            assert(win_parse_root_end(r) == 1);
        } else {
            assert(r[0] == st.device[0]);
            assert(r[1] == ':');
            assert(win_parse_root_end(r) == 3);
        }
        assert(parts.base =~= last);
        assert(parts.dir =~= st.device.push('\\'));
        assert(st.device.push('\\') + last =~= r);
        return;
    }
    assert(r =~= a.push('\\') + last);
    lemma_last_wsep_after(a, last);
    assert forall|i: int| 0 <= i < init.len() implies (#[trigger] init[i]).len() > 0 by {
        assert(init[i] == segs[i]);
        assert(kept_segment(segs[i], PathStyle::Windows));
    }
    lemma_join_ends(init, '\\');
    assert(init[0] == segs[0]);
    let il = init.last();
    assert(il == segs[init.len() - 1]);
    assert(kept_segment(segs[init.len() - 1], PathStyle::Windows));
    assert(!wsep(il[il.len() - 1]));
    assert(r[dl] == '\\');
    assert(r[dl + 1] == segs[0][0]);
    assert(!wsep(segs[0][0]));
    if dl == 0 {
        assert(win_parse_root_end(r) == 1);
    } else {
        assert(r[0] == st.device[0]);
        assert(r[1] == ':');
        assert(win_parse_root_end(r) == 3);
    }
    let idx = a.len() as int;
    assert(idx > dl + 1);
    assert(parts.base == r.subrange(idx + 1, r.len() as int));
    assert(r.subrange(idx + 1, r.len() as int) =~= last);
    assert(parts.dir == r.take(idx));
    assert(r.take(idx) =~= a);
    assert(a.last() == join_segments(init, '\\').last());
    assert(r[idx] == '\\');
    assert(r.take(idx) + seq!['\\'] + r.subrange(idx + 1, r.len() as int) =~= r);
}

/// Normalizing, twice or once, a Windows path rooted at a single separator (no drive
/// and no UNC server) gives the same result.
pub proof fn lemma_windows_normalize_idempotent_rooted(p: Seq<char>)
    requires
        p.len() >= 2,
        wsep(p[0]),
        !wsep(p[1]),
    ensures
        win_normalize(win_normalize(p)) == win_normalize(p),
{
    let n = win_normalize(p);
    assert(win_normalize_root(p) == (Seq::<char>::empty(), 1int, true, Option::<Seq<char>>::None));
    let segs = normalized_segments(p.skip(1), PathStyle::Windows, false);
    let body = join_segments(segs, '\\');
    lemma_normalized_canonical(p.skip(1), PathStyle::Windows, false);
    if body.len() == 0 {
        assert(n =~= seq!['\\']);
    } else {
        assert(segs.len() > 0);
        assert forall|i: int| 0 <= i < segs.len() implies sep_free(#[trigger] segs[i], PathStyle::Windows) by {
            assert(kept_segment(segs[i], PathStyle::Windows));
        }
        assert forall|i: int| 0 <= i < segs.len() implies (#[trigger] segs[i]).len() > 0 by {
            assert(kept_segment(segs[i], PathStyle::Windows));
        }
        lemma_join_ends(segs, '\\');
        lemma_split_join(segs, PathStyle::Windows, '\\');
        lemma_fold_canonical_fixed(segs, PathStyle::Windows, false);
        assert(kept_segment(segs[0], PathStyle::Windows));
        assert(kept_segment(segs[segs.len() - 1], PathStyle::Windows));
        assert(!wsep(segs[0][0]));
        let tail = if wsep(p.last()) {
            body.push('\\')
        } else {
            body
        };
        assert(n =~= seq!['\\'] + tail);
        assert(n[1] == body[0]);
        assert(n.skip(1) =~= tail);
        assert(win_normalize_root(n) == (Seq::<char>::empty(), 1int, true, Option::<Seq<char>>::None));
        if wsep(p.last()) {
            lemma_fold_trailing_empty(split_segments(body, PathStyle::Windows), false);
            assert(body.push('\\').drop_last() =~= body);
            assert(normalized_segments(tail, PathStyle::Windows, false) == segs);
            assert(n.last() == '\\');
        } else {
            assert(normalized_segments(tail, PathStyle::Windows, false) == segs);
            assert(n.last() == body.last());
            assert(segs.last() == segs[segs.len() - 1]);
            assert(!wsep(segs.last()[segs.last().len() - 1]));
        }
    }
}

} // verus!
