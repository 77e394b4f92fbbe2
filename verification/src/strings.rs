//! String helpers for editing configuration files: marker blocks, key and
//! marker lines, and display helpers.

use vstd::prelude::*;
use vstd::string::*;
use crate::text::{contains, contains_exec, is_ws, trim_start,
    char_to_uppercase, chars_of, concat, concat3, find, find_exec, join, occurs_at, join_lines, lemma_find, lines,
    push_all, slice_of, split_lines, starts_with, starts_with_exec, string_of, trim, trim_end,
    trim_end_exec, trim_exec, uppercase_char, views,
};

verus! {

/// The opening marker line of the block owned by `marker`.
pub open spec fn begin_marker(marker: Seq<char>) -> Seq<char> {
    "# [iris:begin:"@ + marker + "]"@
}

/// The closing marker line of the block owned by `marker`.
pub open spec fn end_marker(marker: Seq<char>) -> Seq<char> {
    "# [iris:end:"@ + marker + "]"@
}

/// A block as `replace_block` writes it: markers around the trimmed content.
pub open spec fn wrapped_block(marker: Seq<char>, inner: Seq<char>) -> Seq<char> {
    begin_marker(marker) + "\n"@ + trim(inner) + "\n"@ + end_marker(marker)
}

/// The result of `replace_block`.
pub open spec fn spec_replace_block(content: Seq<char>, marker: Seq<char>, inner: Seq<char>) -> Seq<
    char,
> {
    let b = begin_marker(marker);
    let e = end_marker(marker);
    let w = wrapped_block(marker, inner);
    match (find(content, b), find(content, e)) {
        (Some(si), Some(ei)) => content.take(si) + w + content.skip(ei + e.len()),
        _ => {
            let base = trim_end(content);
            if base.len() == 0 {
                w + "\n"@
            } else {
                base + "\n\n"@ + w + "\n"@
            }
        },
    }
}

/// `"# [iris:begin:<marker>]"`.
pub fn begin_marker_of(marker: &str) -> (r: String)
    ensures
        r@ == begin_marker(marker@),
{
    concat3("# [iris:begin:", marker, "]")
}

/// `"# [iris:end:<marker>]"`.
pub fn end_marker_of(marker: &str) -> (r: String)
    ensures
        r@ == end_marker(marker@),
{
    concat3("# [iris:end:", marker, "]")
}

/// Replaces the block between the begin and end markers of `marker` (markers
/// included) by the markers around `new_block` trimmed. Where either marker is
/// missing, the block is appended after the content's trailing whitespace is
/// removed, separated by an empty line, and followed by a line feed.
pub fn replace_block(content: &str, marker: &str, new_block: &str) -> (r: String)
    ensures
        r@ == spec_replace_block(content@, marker@, new_block@),
{
    let c = chars_of(content);
    let b = chars_of(begin_marker_of(marker).as_str());
    let e = chars_of(end_marker_of(marker).as_str());
    let inner = trim_exec(&chars_of(new_block));
    let mut w: Vec<char> = Vec::new();
    push_all(&mut w, &b);
    w.push('\n');
    push_all(&mut w, &inner);
    w.push('\n');
    push_all(&mut w, &e);
    proof {
        reveal_strlit("\n");
    }
    assert(w@ =~= wrapped_block(marker@, new_block@));
    let fs = find_exec(&c, &b);
    let fe = find_exec(&c, &e);
    let mut out: Vec<char> = Vec::new();
    if let Some(si) = fs {
        if let Some(ei) = fe {
            proof {
                lemma_find(c@, b@);
                lemma_find(c@, e@);
                assert(occurs_at(c@, e@, ei as int));
            }
            let clen = c.len();
            let head = slice_of(&c, 0, si);
            let tail = slice_of(&c, ei + e.len(), c.len());
            push_all(&mut out, &head);
            push_all(&mut out, &w);
            push_all(&mut out, &tail);
            assert(out@ =~= spec_replace_block(content@, marker@, new_block@));
            return string_of(&out);
        }
    }
    let base = trim_end_exec(&c);
    push_all(&mut out, &base);
    if base.len() > 0 {
        out.push('\n');
        out.push('\n');
    }
    push_all(&mut out, &w);
    out.push('\n');
    proof {
        reveal_strlit("\n");
        reveal_strlit("\n\n");
    }
    assert(out@ =~= spec_replace_block(content@, marker@, new_block@));
    string_of(&out)
}

/// The lines of `ls` whose trimmed text does not start with `prefix`.
pub open spec fn lines_without(ls: Seq<Seq<char>>, prefix: Seq<char>) -> Seq<Seq<char>>
    decreases ls.len(),
{
    if ls.len() == 0 {
        seq![]
    } else {
        let rest = lines_without(ls.drop_first(), prefix);
        if starts_with(trim(ls[0]), prefix) {
            rest
        } else {
            seq![ls[0]] + rest
        }
    }
}

/// The text left when every line whose trimmed text starts with `prefix` is
/// dropped; the kept lines are joined by line feeds.
pub open spec fn spec_drop_lines(content: Seq<char>, prefix: Seq<char>) -> Seq<char> {
    join(lines_without(lines(content), prefix), "\n"@)
}

fn keep_lines_without(ls: &Vec<Vec<char>>, prefix: &[char]) -> (r: Vec<Vec<char>>)
    ensures
        views(r@) == lines_without(views(ls@), prefix@),
{
    let mut kept: Vec<Vec<char>> = Vec::new();
    let mut i: usize = 0;
    let ghost all = views(ls@);
    assert(all.skip(0) =~= all);
    while i < ls.len()
        invariant
            i <= ls@.len(),
            all == views(ls@),
            lines_without(all, prefix@) == views(kept@) + lines_without(all.skip(i as int), prefix@),
        decreases ls@.len() - i,
    {
        let t = trim_exec(&ls[i]);
        let hit = starts_with_exec(&t, prefix);
        assert(all.skip(i as int).drop_first() =~= all.skip(i + 1));
        assert(all.skip(i as int)[0] == ls@[i as int]@);
        if !hit {
            let ghost before = views(kept@);
            kept.push(ls[i].clone());
            assert(views(kept@) =~= before.push(ls@[i as int]@));
        }
        i = i + 1;
    }
    assert(all.skip(i as int) =~= Seq::<Seq<char>>::empty());
    assert(views(kept@) + Seq::<Seq<char>>::empty() =~= views(kept@));
    kept
}

/// Drops every line whose trimmed text starts with `prefix` and joins the
/// rest by line feeds.
fn drop_lines(content: &str, prefix: &[char]) -> (r: String)
    ensures
        r@ == spec_drop_lines(content@, prefix@),
{
    let c = chars_of(content);
    let ls = split_lines(&c);
    let kept = keep_lines_without(&ls, prefix);
    let sep: Vec<char> = vec!['\n'];
    assert(sep@ =~= "\n"@) by {
        reveal_strlit("\n");
    }
    let out = join_lines(&kept, &sep);
    string_of(&out)
}

/// Removes the lines that assign `key` (trimmed, they start with `"<key> ="`).
pub fn remove_key(content: &str, key: &str) -> (r: String)
    ensures
        r@ == spec_drop_lines(content@, key@ + " ="@),
{
    let p = chars_of(concat(key, " =").as_str());
    drop_lines(content, &p)
}

/// Removes the lines that, trimmed, start with `marker`.
pub fn remove_marker(content: &str, marker: &str) -> (r: String)
    ensures
        r@ == spec_drop_lines(content@, marker@),
{
    let p = chars_of(marker);
    drop_lines(content, &p)
}

/// The result of `capitalize`.
pub open spec fn spec_capitalize(s: Seq<char>) -> Seq<char> {
    if s.len() == 0 {
        seq![]
    } else {
        uppercase_char(s[0]) + s.drop_first()
    }
}

/// Upper-cases the first char of `s`, leaving the rest as it is.
pub fn capitalize(s: &str) -> (r: String)
    ensures
        r@ == spec_capitalize(s@),
{
    let c = chars_of(s);
    if c.len() == 0 {
        return String::new();
    }
    let head = char_to_uppercase(c[0]);
    let rest = slice_of(&c, 1, c.len());
    let rest_s = string_of(&rest);
    assert(rest@ =~= s@.drop_first());
    concat(head.as_str(), rest_s.as_str())
}

/// Where `p` occurs, `s` contains it.
pub proof fn lemma_occurs_contains(s: Seq<char>, p: Seq<char>, i: int)
    requires
        occurs_at(s, p, i),
    ensures
        contains(s, p),
{
    lemma_find(s, p);
}

/// `p` occurs in `x + p + y` right after `x`.
pub proof fn lemma_occurs_in_middle(x: Seq<char>, p: Seq<char>, y: Seq<char>)
    ensures
        occurs_at(x + p + y, p, x.len() as int),
{
    assert((x + p + y).subrange(x.len() as int, (x.len() + p.len()) as int) =~= p);
}

/// A block written by `replace_block` is found again: the content holds both
/// of the block's markers afterwards, whatever it held before.
pub proof fn lemma_replace_block_has_markers(content: Seq<char>, marker: Seq<char>, inner: Seq<char>)
    ensures
        contains(spec_replace_block(content, marker, inner), begin_marker(marker)),
        contains(spec_replace_block(content, marker, inner), end_marker(marker)),
{
    let b = begin_marker(marker);
    let e = end_marker(marker);
    let w = wrapped_block(marker, inner);
    let r = spec_replace_block(content, marker, inner);
    let mid = "\n"@ + trim(inner) + "\n"@;
    assert(w =~= b + mid + e);
    let (x, y) = match (find(content, b), find(content, e)) {
        (Some(si), Some(ei)) => {
            lemma_find(content, b);
            lemma_find(content, e);
            (content.take(si), content.skip(ei + e.len()))
        },
        _ => {
            let base = trim_end(content);
            if base.len() == 0 {
                (Seq::<char>::empty(), "\n"@)
            } else {
                (base + "\n\n"@, "\n"@)
            }
        },
    };
    assert(r =~= x + w + y);
    assert(x + w + y =~= x + b + (mid + e + y));
    lemma_occurs_in_middle(x, b, mid + e + y);
    lemma_occurs_contains(r, b, x.len() as int);
    assert(x + w + y =~= (x + b + mid) + e + y);
    lemma_occurs_in_middle(x + b + mid, e, y);
    lemma_occurs_contains(r, e, (x + b + mid).len() as int);
}

/// `c` does not occur in `s`.
pub open spec fn lacks_char(s: Seq<char>, c: char) -> bool {
    forall|k: int| 0 <= k < s.len() ==> s[k] != c
}

/// A marker line starts with `'#'` and holds no other, ends with `']'`, and
/// holds no line feed or no other `']'`.
spec fn marker_shaped(p: Seq<char>) -> bool {
    &&& p.len() > 8
    &&& p[0] == '#'
    &&& forall|k: int| 1 <= k < p.len() ==> p[k] != '#'
    &&& ends_cleanly(p)
}

/// `p` ends with `']'`, and holds no line feed or no other `']'`.
#[verifier::opaque]
spec fn ends_cleanly(p: Seq<char>) -> bool {
    &&& p[p.len() - 1] == ']'
    &&& (lacks_char(p, '\n') || forall|k: int| 0 <= k < p.len() - 1 ==> p[k] != ']')
}

/// The marker may go into the marker lines without breaking their shape:
/// it has no `'#'`, and no line feed or no `']'`.
pub open spec fn marker_fits(marker: Seq<char>) -> bool {
    lacks_char(marker, '#') && (lacks_char(marker, '\n') || lacks_char(marker, ']'))
}

proof fn lemma_markers_shaped(marker: Seq<char>)
    requires
        marker_fits(marker),
    ensures
        marker_shaped(begin_marker(marker)),
        marker_shaped(end_marker(marker)),
        begin_marker(marker)[8] == 'b',
        end_marker(marker)[8] == 'e',
{
    reveal_strlit("# [iris:begin:");
    reveal_strlit("# [iris:end:");
    reveal_strlit("]");
    reveal(ends_cleanly);
    let b = begin_marker(marker);
    let e = end_marker(marker);
    assert forall|k: int| 1 <= k < b.len() implies b[k] != '#' by {
        if k >= 14 && k < 14 + marker.len() {
            assert(b[k] == marker[k - 14]);
        }
    }
    assert forall|k: int| 1 <= k < e.len() implies e[k] != '#' by {
        if k >= 12 && k < 12 + marker.len() {
            assert(e[k] == marker[k - 12]);
        }
    }
    if lacks_char(marker, '\n') {
        assert forall|k: int| 0 <= k < b.len() implies b[k] != '\n' by {
            if k >= 14 && k < 14 + marker.len() {
                assert(b[k] == marker[k - 14]);
            }
        }
        assert forall|k: int| 0 <= k < e.len() implies e[k] != '\n' by {
            if k >= 12 && k < 12 + marker.len() {
                assert(e[k] == marker[k - 12]);
            }
        }
    } else {
        assert forall|k: int| 0 <= k < b.len() - 1 implies b[k] != ']' by {
            if k >= 14 && k < 14 + marker.len() {
                assert(b[k] == marker[k - 14]);
            }
        }
        assert forall|k: int| 0 <= k < e.len() - 1 implies e[k] != ']' by {
            if k >= 12 && k < 12 + marker.len() {
                assert(e[k] == marker[k - 12]);
            }
        }
    }
}

/// Where `p` occurs at `j`, each char of `s` it covers is the matching char
/// of `p`.
proof fn lemma_occurs_char(s: Seq<char>, p: Seq<char>, j: int, k: int)
    requires
        occurs_at(s, p, j),
        j <= k < j + p.len(),
    ensures
        s[k] == p[k - j],
{
    assert(s.subrange(j, j + p.len())[k - j] == s[k]);
}

/// An occurrence inside a prefix of `s` is an occurrence in `s`.
proof fn lemma_occurs_prefix(x: Seq<char>, s: Seq<char>, p: Seq<char>, j: int)
    requires
        occurs_at(x, p, j),
        x == s.take(x.len() as int),
        x.len() <= s.len(),
    ensures
        occurs_at(s, p, j),
{
    assert(s.subrange(j, j + p.len()) =~= x.subrange(j, j + p.len()));
}

/// An occurrence in `x + z` that ends inside `x` is an occurrence in `x`.
proof fn lemma_occurs_left(x: Seq<char>, z: Seq<char>, p: Seq<char>, j: int)
    requires
        occurs_at(x + z, p, j),
        j + p.len() <= x.len(),
    ensures
        occurs_at(x, p, j),
{
    assert((x + z).subrange(j, j + p.len()) =~= x.subrange(j, j + p.len()));
}

/// An occurrence in `x + z` that starts inside `z` is an occurrence in `z`.
proof fn lemma_occurs_right(x: Seq<char>, z: Seq<char>, p: Seq<char>, j: int)
    requires
        occurs_at(x + z, p, j),
        x.len() <= j,
    ensures
        occurs_at(z, p, j - x.len()),
{
    assert((x + z).subrange(j, j + p.len()) =~= z.subrange(j - x.len(), j - x.len() + p.len()));
}

/// The first occurrence is at `i` when `p` occurs there and nowhere before.
proof fn lemma_find_at(s: Seq<char>, p: Seq<char>, i: int)
    requires
        occurs_at(s, p, i),
        forall|j: int| 0 <= j < i ==> !occurs_at(s, p, j),
    ensures
        find(s, p) == Some(i),
{
    lemma_find(s, p);
}

/// `trim_end(s)` is a prefix of `s`.
proof fn lemma_trim_end_prefix(s: Seq<char>)
    ensures
        trim_end(s).len() <= s.len(),
        trim_end(s) == s.take(trim_end(s).len() as int),
    decreases s.len(),
{
    if s.len() > 0 && is_ws(s.last()) {
        lemma_trim_end_prefix(s.drop_last());
        assert(s.drop_last().take(trim_end(s).len() as int) =~= s.take(trim_end(s).len() as int));
    } else {
        assert(s.take(s.len() as int) =~= s);
    }
}

/// No occurrence of `p` in `x` at all.
spec fn absent(x: Seq<char>, p: Seq<char>) -> bool {
    forall|j: int| !occurs_at(x, p, j)
}

/// An occurrence of a marker-shaped `p` in `x + z`, where `z` starts with
/// `'#'`, cannot start inside `x` unless it lies wholly in `x`.
proof fn lemma_no_straddle(x: Seq<char>, z: Seq<char>, p: Seq<char>, j: int)
    requires
        marker_shaped(p),
        z.len() > 0,
        z[0] == '#',
        absent(x, p),
        j < x.len(),
    ensures
        !occurs_at(x + z, p, j),
{
    if occurs_at(x + z, p, j) {
        if j + p.len() <= x.len() {
            lemma_occurs_left(x, z, p, j);
        } else {
            lemma_occurs_char(x + z, p, j, x.len() as int);
            assert((x + z)[x.len() as int] == z[0]);
        }
    }
}

/// A marker-shaped `p` that occurs right after the line feed at `p3` cannot
/// also occur across that line feed.
proof fn lemma_no_marker_across(r: Seq<char>, p: Seq<char>, j: int, p3: int)
    requires
        marker_shaped(p),
        occurs_at(r, p, p3 + 1),
        0 <= p3 < r.len(),
        r[p3] == '\n',
        j < p3 < j + p.len(),
    ensures
        !occurs_at(r, p, j),
{
    reveal(ends_cleanly);
    if occurs_at(r, p, j) {
        let last = j + p.len() - 1;
        lemma_occurs_char(r, p, j, p3);
        lemma_occurs_char(r, p, j, last);
        if last > p3 {
            lemma_occurs_char(r, p, p3 + 1, last);
        }
    }
}

/// A marker line ends with `']'`.
proof fn lemma_marker_last(p: Seq<char>)
    requires
        marker_shaped(p),
    ensures
        p[p.len() - 1] == ']',
{
    reveal(ends_cleanly);
}

/// After a block is written behind `x`, which holds neither marker, both
/// markers are first found where the block put them.
#[verifier::rlimit(40)]
proof fn lemma_block_found(x: Seq<char>, y: Seq<char>, marker: Seq<char>, inner: Seq<char>)
    requires
        marker_fits(marker),
        !contains(trim(inner), end_marker(marker)),
        absent(x, begin_marker(marker)),
        absent(x, end_marker(marker)),
    ensures
        find(x + wrapped_block(marker, inner) + y, begin_marker(marker)) == Some(x.len() as int),
        find(x + wrapped_block(marker, inner) + y, end_marker(marker)) == Some(
            (x.len() + wrapped_block(marker, inner).len() - end_marker(marker).len()) as int,
        ),
{
    reveal_strlit("\n");
    lemma_markers_shaped(marker);
    let b = begin_marker(marker);
    let e = end_marker(marker);
    let t = trim(inner);
    let nl = "\n"@;
    let w = wrapped_block(marker, inner);
    let r = x + w + y;
    let wy = w + y;
    assert(r =~= x + wy);
    assert(wy[0] == '#') by {
        assert(w[0] == b[0]);
    }
    // The begin marker.
    assert(r =~= x + b + (nl + t + nl + e + y));
    lemma_occurs_in_middle(x, b, nl + t + nl + e + y);
    assert forall|j: int| 0 <= j < x.len() implies !occurs_at(r, b, j) by {
        lemma_no_straddle(x, wy, b, j);
    }
    lemma_find_at(r, b, x.len() as int);
    // The end marker.
    let p1: int = (x.len() + b.len()) as int;
    let p3: int = p1 + 1 + t.len();
    let head = x + b + nl + t + nl;
    assert(r =~= head + e + y);
    assert(head.len() == p3 + 1);
    assert(w.len() == b.len() + 1 + t.len() + 1 + e.len());
    lemma_occurs_in_middle(head, e, y);
    assert(r[p1] == '\n') by {
        assert(r[p1] == head[p1]);
    }
    assert(r[p3] == '\n') by {
        assert(r[p3] == head[p3]);
    }
    assert forall|j: int| 0 <= j < p3 + 1 implies !occurs_at(r, e, j) by {
        if j < x.len() {
            lemma_no_straddle(x, wy, e, j);
        } else if occurs_at(r, e, j) {
            lemma_occurs_char(r, e, j, j);
            if j == x.len() {
                lemma_occurs_char(r, e, j, j + 8);
                assert(r[j + 8] == b[8]);
            } else if j < p1 {
                assert(r[j] == b[j - x.len()]);
            } else if j == p1 || j == p3 {
            } else if j + e.len() <= p3 {
                let pre = x + b + nl;
                let post = nl + e + y;
                assert(r =~= pre + (t + post));
                lemma_occurs_right(pre, t + post, e, j);
                lemma_occurs_left(t, post, e, j - pre.len());
                lemma_occurs_contains(t, e, j - pre.len());
            } else {
                lemma_no_marker_across(r, e, j, p3);
            }
        }
    }
    lemma_find_at(r, e, p3 + 1);
}

/// Writing the same block a second time changes nothing: the second call
/// finds the block the first one wrote and puts the same block back. This
/// holds when the marker has no `'#'`, and no line feed or no `']'`, the trimmed block
/// does not itself hold the end marker, and the content holds either both
/// markers, the first begin marker no later than the first end marker, or
/// neither of them.
pub proof fn lemma_replace_block_idempotent(content: Seq<char>, marker: Seq<char>, inner: Seq<char>)
    requires
        marker_fits(marker),
        !contains(trim(inner), end_marker(marker)),
        ({
            let fb = find(content, begin_marker(marker));
            let fe = find(content, end_marker(marker));
            ||| fb is Some && fe is Some && fb->0 <= fe->0
            ||| fb is None && fe is None
        }),
    ensures
        spec_replace_block(spec_replace_block(content, marker, inner), marker, inner)
            == spec_replace_block(content, marker, inner),
{
    reveal_strlit("\n\n");
    lemma_markers_shaped(marker);
    let b = begin_marker(marker);
    let e = end_marker(marker);
    let w = wrapped_block(marker, inner);
    lemma_find(content, b);
    lemma_find(content, e);
    let (x, y) = match (find(content, b), find(content, e)) {
        (Some(si), Some(ei)) => {
            let x = content.take(si);
            assert forall|j: int| !occurs_at(x, b, j) && !occurs_at(x, e, j) by {
                if occurs_at(x, b, j) {
                    lemma_occurs_prefix(x, content, b, j);
                }
                if occurs_at(x, e, j) {
                    lemma_occurs_prefix(x, content, e, j);
                }
            }
            (x, content.skip(ei + e.len()))
        },
        _ => {
            let base = trim_end(content);
            lemma_trim_end_prefix(content);
            assert forall|j: int| !occurs_at(base, b, j) && !occurs_at(base, e, j) by {
                if occurs_at(base, b, j) {
                    lemma_occurs_prefix(base, content, b, j);
                }
                if occurs_at(base, e, j) {
                    lemma_occurs_prefix(base, content, e, j);
                }
            }
            if base.len() == 0 {
                (Seq::<char>::empty(), "\n"@)
            } else {
                let sep = "\n\n"@;
                let x = base + sep;
                lemma_marker_last(b);
                lemma_marker_last(e);
                assert forall|j: int| !occurs_at(x, b, j) && !occurs_at(x, e, j) by {
                    if occurs_at(x, b, j) {
                        if j + b.len() <= base.len() {
                            lemma_occurs_left(base, sep, b, j);
                        } else {
                            lemma_occurs_char(x, b, j, j + b.len() - 1);
                        }
                    }
                    if occurs_at(x, e, j) {
                        if j + e.len() <= base.len() {
                            lemma_occurs_left(base, sep, e, j);
                        } else {
                            lemma_occurs_char(x, e, j, j + e.len() - 1);
                        }
                    }
                }
                (x, "\n"@)
            }
        },
    };
    let r = spec_replace_block(content, marker, inner);
    assert(r =~= x + w + y);
    lemma_block_found(x, y, marker, inner);
    assert(r.take(x.len() as int) =~= x);
    assert(r.skip((x.len() + w.len()) as int) =~= y);
}

/// The text with the block of `marker` cut out, from its begin marker up to
/// and including its end marker, where both are there in that order.
pub open spec fn spec_cut_block(c: Seq<char>, marker: Seq<char>) -> Seq<char> {
    let b = begin_marker(marker);
    let e = end_marker(marker);
    match (find(c, b), find(c, e)) {
        (Some(si), Some(ei)) => if si <= ei {
            c.take(si) + c.skip(ei + e.len())
        } else {
            c
        },
        _ => c,
    }
}

/// A line that goes with `marker`: trimmed, it starts with `marker`, or it
/// holds the block's begin or end marker.
pub open spec fn marker_line(l: Seq<char>, marker: Seq<char>) -> bool {
    starts_with(trim(l), marker) || contains(l, begin_marker(marker)) || contains(l, end_marker(marker))
}

/// The lines that do not go with `marker`.
pub open spec fn lines_off_marker(ls: Seq<Seq<char>>, marker: Seq<char>) -> Seq<Seq<char>>
    decreases ls.len(),
{
    if ls.len() == 0 {
        seq![]
    } else {
        let rest = lines_off_marker(ls.drop_first(), marker);
        if marker_line(ls[0], marker) {
            rest
        } else {
            seq![ls[0]] + rest
        }
    }
}

/// The text with the block of `marker` cut out and then every line that
/// goes with `marker` dropped, the rest joined by line feeds.
pub open spec fn spec_remove_marker_block(c: Seq<char>, marker: Seq<char>) -> Seq<char> {
    join(lines_off_marker(lines(spec_cut_block(c, marker)), marker), "\n"@)
}

fn keep_lines_off_marker(ls: &Vec<Vec<char>>, marker: &[char], b: &[char], e: &[char]) -> (r: Vec<Vec<char>>)
    requires
        b@ == begin_marker(marker@),
        e@ == end_marker(marker@),
    ensures
        views(r@) == lines_off_marker(views(ls@), marker@),
{
    let mut kept: Vec<Vec<char>> = Vec::new();
    let mut i: usize = 0;
    let ghost all = views(ls@);
    assert(all.skip(0) =~= all);
    while i < ls.len()
        invariant
            i <= ls@.len(),
            all == views(ls@),
            b@ == begin_marker(marker@),
            e@ == end_marker(marker@),
            lines_off_marker(all, marker@) == views(kept@) + lines_off_marker(all.skip(i as int), marker@),
        decreases ls@.len() - i,
    {
        let t = trim_exec(&ls[i]);
        let hit = starts_with_exec(&t, marker) || contains_exec(&ls[i], b) || contains_exec(&ls[i], e);
        assert(all.skip(i as int).drop_first() =~= all.skip(i + 1));
        assert(all.skip(i as int)[0] == ls@[i as int]@);
        if !hit {
            let ghost before = views(kept@);
            kept.push(ls[i].clone());
            assert(views(kept@) =~= before.push(ls@[i as int]@));
        }
        i = i + 1;
    }
    assert(all.skip(i as int) =~= Seq::<Seq<char>>::empty());
    assert(views(kept@) + Seq::<Seq<char>>::empty() =~= views(kept@));
    kept
}

/// Removes `marker`'s block and every line that goes with `marker`: the
/// block from its begin marker through its end marker is cut out (where both
/// are there in that order), then each line that, trimmed, starts with
/// `marker` or holds a begin or end marker of it is dropped, and the rest is
/// joined by line feeds.
pub fn remove_marker_block(content: &str, marker: &str) -> (r: String)
    ensures
        r@ == spec_remove_marker_block(content@, marker@),
{
    let c = chars_of(content);
    let b = chars_of(begin_marker_of(marker).as_str());
    let e = chars_of(end_marker_of(marker).as_str());
    let mut cut: Vec<char> = Vec::new();
    let fb = find_exec(&c, &b);
    let fe = find_exec(&c, &e);
    let mut done = false;
    if let Some(si) = fb {
        if let Some(ei) = fe {
            if si <= ei {
                proof {
                    lemma_find(c@, e@);
                    assert(occurs_at(c@, e@, ei as int));
                }
                let clen = c.len();
                let elen = e.len();
                assert(ei + elen <= clen);
                let head = slice_of(&c, 0, si);
                let tail = slice_of(&c, ei + elen, clen);
                push_all(&mut cut, &head);
                push_all(&mut cut, &tail);
                done = true;
            }
        }
    }
    if !done {
        push_all(&mut cut, &c);
    }
    assert(cut@ =~= spec_cut_block(content@, marker@));
    let ls = split_lines(&cut);
    let m = chars_of(marker);
    let kept = keep_lines_off_marker(&ls, &m, &b, &e);
    let sep: Vec<char> = vec!['\n'];
    assert(sep@ =~= "\n"@) by {
        reveal_strlit("\n");
    }
    let out = join_lines(&kept, &sep);
    string_of(&out)
}

/// `trim(s)` is a piece of `s`.
proof fn lemma_trim_is_piece(s: Seq<char>) -> (k: int)
    ensures
        0 <= k <= k + trim(s).len() <= s.len(),
        trim(s) == s.subrange(k, k + trim(s).len()),
{
    let k = lemma_trim_start_suffix(s);
    lemma_trim_end_prefix(trim_start(s));
    assert(trim(s) =~= s.subrange(k, k + trim(s).len()));
    k
}

/// `trim_start(s)` is `s` without some first chars.
proof fn lemma_trim_start_suffix(s: Seq<char>) -> (k: int)
    ensures
        0 <= k <= s.len(),
        trim_start(s) == s.skip(k),
    decreases s.len(),
{
    if s.len() > 0 && is_ws(s[0]) {
        let k = lemma_trim_start_suffix(s.drop_first());
        assert(s.drop_first().skip(k) =~= s.skip(k + 1));
        k + 1
    } else {
        assert(s.skip(0) =~= s);
        0
    }
}

/// A pattern without a line feed that no line holds is not in the lines
/// joined by line feeds.
proof fn lemma_join_lacks(ls: Seq<Seq<char>>, p: Seq<char>)
    requires
        p.len() > 0,
        lacks_char(p, '\n'),
        forall|i: int| 0 <= i < ls.len() ==> !contains(#[trigger] ls[i], p),
    ensures
        !contains(join(ls, "\n"@), p),
    decreases ls.len(),
{
    reveal_strlit("\n");
    if ls.len() == 0 {
        lemma_find(join(ls, "\n"@), p);
    } else if ls.len() == 1 {
    } else {
        let x = join(ls.drop_last(), "\n"@);
        let y = ls.last();
        lemma_join_lacks(ls.drop_last(), p);
        assert(!contains(y, p)) by {
            assert(y == ls[ls.len() - 1]);
        }
        let s = join(ls, "\n"@);
        assert(s =~= x + ("\n"@ + y));
        lemma_find(s, p);
        lemma_find(x, p);
        lemma_find(y, p);
        if contains(s, p) {
            let j = find(s, p)->0;
            if j + p.len() <= x.len() {
                lemma_occurs_left(x, "\n"@ + y, p, j);
            } else if j >= x.len() + 1 {
                lemma_occurs_right(x, "\n"@ + y, p, j);
                lemma_occurs_right("\n"@, y, p, j - x.len());
            } else {
                lemma_occurs_char(s, p, j, x.len() as int);
            }
        }
    }
}

/// After `remove_marker_block`, and after trimming what it gives, neither
/// marker line of the block is left, for a marker without a line feed.
pub proof fn lemma_remove_marker_block_clears(content: Seq<char>, marker: Seq<char>)
    requires
        lacks_char(marker, '\n'),
    ensures
        !contains(trim(spec_remove_marker_block(content, marker)), begin_marker(marker)),
        !contains(trim(spec_remove_marker_block(content, marker)), end_marker(marker)),
{
    reveal_strlit("# [iris:begin:");
    reveal_strlit("# [iris:end:");
    reveal_strlit("]");
    let b = begin_marker(marker);
    let e = end_marker(marker);
    assert(lacks_char(b, '\n')) by {
        assert forall|k: int| 0 <= k < b.len() implies b[k] != '\n' by {
            if k >= 14 && k < 14 + marker.len() {
                assert(b[k] == marker[k - 14]);
            }
        }
    }
    assert(lacks_char(e, '\n')) by {
        assert forall|k: int| 0 <= k < e.len() implies e[k] != '\n' by {
            if k >= 12 && k < 12 + marker.len() {
                assert(e[k] == marker[k - 12]);
            }
        }
    }
    let ls = lines_off_marker(lines(spec_cut_block(content, marker)), marker);
    lemma_lines_off_marker_lack(lines(spec_cut_block(content, marker)), marker);
    lemma_join_lacks(ls, b);
    lemma_join_lacks(ls, e);
    let j = join(ls, "\n"@);
    let k = lemma_trim_is_piece(j);
    lemma_find(trim(j), b);
    lemma_find(trim(j), e);
    lemma_find(j, b);
    lemma_find(j, e);
    if contains(trim(j), b) {
        let i = find(trim(j), b)->0;
        assert(j.subrange(k + i, k + i + b.len()) =~= trim(j).subrange(i, i + b.len()));
        assert(occurs_at(j, b, k + i));
    }
    if contains(trim(j), e) {
        let i = find(trim(j), e)->0;
        assert(j.subrange(k + i, k + i + e.len()) =~= trim(j).subrange(i, i + e.len()));
        assert(occurs_at(j, e, k + i));
    }
}

proof fn lemma_lines_off_marker_lack(ls: Seq<Seq<char>>, marker: Seq<char>)
    ensures
        forall|i: int| 0 <= i < lines_off_marker(ls, marker).len() ==> !contains(
            #[trigger] lines_off_marker(ls, marker)[i],
            begin_marker(marker),
        ) && !contains(lines_off_marker(ls, marker)[i], end_marker(marker)),
    decreases ls.len(),
{
    if ls.len() > 0 {
        lemma_lines_off_marker_lack(ls.drop_first(), marker);
        let rest = lines_off_marker(ls.drop_first(), marker);
        if !marker_line(ls[0], marker) {
            assert forall|i: int| 0 <= i < lines_off_marker(ls, marker).len() implies !contains(
                #[trigger] lines_off_marker(ls, marker)[i],
                begin_marker(marker),
            ) && !contains(lines_off_marker(ls, marker)[i], end_marker(marker)) by {
                if i > 0 {
                    assert(lines_off_marker(ls, marker)[i] == rest[i - 1]);
                }
            }
        }
    }
}

/// No line kept by `lines_without` starts, trimmed, with the prefix.
pub proof fn lemma_lines_without_drops(ls: Seq<Seq<char>>, prefix: Seq<char>)
    ensures
        forall|k: int| 0 <= k < lines_without(ls, prefix).len() ==> !starts_with(
            trim(#[trigger] lines_without(ls, prefix)[k]),
            prefix,
        ),
    decreases ls.len(),
{
    if ls.len() > 0 {
        lemma_lines_without_drops(ls.drop_first(), prefix);
        let rest = lines_without(ls.drop_first(), prefix);
        if !starts_with(trim(ls[0]), prefix) {
            assert forall|k: int| 0 <= k < lines_without(ls, prefix).len() implies !starts_with(
                trim(#[trigger] lines_without(ls, prefix)[k]),
                prefix,
            ) by {
                if k > 0 {
                    assert(lines_without(ls, prefix)[k] == rest[k - 1]);
                }
            }
        }
    }
}

} // verus!
