//! A model of the `str` operations the library relies on, stated over
//! `Seq<char>`, together with verified implementations over `Vec<char>`.

use vstd::prelude::*;

verus! {

/// Unicode `White_Space`, the set `char::is_whitespace` tests.
pub open spec fn is_ws(c: char) -> bool {
    ||| c == ' '
    ||| ('\t' <= c && c <= '\r')
    ||| c == '\u{85}'
    ||| c == '\u{a0}'
    ||| c == '\u{1680}'
    ||| ('\u{2000}' <= c && c <= '\u{200a}')
    ||| c == '\u{2028}'
    ||| c == '\u{2029}'
    ||| c == '\u{202f}'
    ||| c == '\u{205f}'
    ||| c == '\u{3000}'
}

pub fn char_is_ws(c: char) -> (r: bool)
    ensures
        r == is_ws(c),
{
    c == ' ' || ('\t' <= c && c <= '\r') || c == '\u{85}' || c == '\u{a0}' || c == '\u{1680}'
        || ('\u{2000}' <= c && c <= '\u{200a}') || c == '\u{2028}' || c == '\u{2029}'
        || c == '\u{202f}' || c == '\u{205f}' || c == '\u{3000}'
}

/// `str::trim_start`: drops leading whitespace.
pub open spec fn trim_start(s: Seq<char>) -> Seq<char>
    decreases s.len(),
{
    if s.len() > 0 && is_ws(s[0]) {
        trim_start(s.drop_first())
    } else {
        s
    }
}

/// `str::trim_end`: drops trailing whitespace.
pub open spec fn trim_end(s: Seq<char>) -> Seq<char>
    decreases s.len(),
{
    if s.len() > 0 && is_ws(s.last()) {
        trim_end(s.drop_last())
    } else {
        s
    }
}

/// `str::trim`: drops whitespace at both ends.
pub open spec fn trim(s: Seq<char>) -> Seq<char> {
    trim_end(trim_start(s))
}

/// `str::starts_with` with a string pattern.
pub open spec fn starts_with(s: Seq<char>, p: Seq<char>) -> bool {
    p.len() <= s.len() && s.take(p.len() as int) == p
}

/// `str::ends_with` with a string pattern.
pub open spec fn ends_with(s: Seq<char>, p: Seq<char>) -> bool {
    p.len() <= s.len() && s.skip(s.len() - p.len()) == p
}

/// `str::find` with a string pattern, as a char index: the first position at
/// which `p` occurs in `s`.
pub open spec fn find(s: Seq<char>, p: Seq<char>) -> Option<int>
    decreases s.len(),
{
    if s.len() < p.len() {
        None
    } else if s.len() == 0 || s.take(p.len() as int) == p {
        Some(0)
    } else {
        match find(s.drop_first(), p) {
            Some(i) => Some(i + 1),
            None => None,
        }
    }
}

/// `str::contains` with a string pattern.
pub open spec fn contains(s: Seq<char>, p: Seq<char>) -> bool {
    find(s, p) is Some
}

/// `p` occurs in `s` at char position `i`.
pub open spec fn occurs_at(s: Seq<char>, p: Seq<char>, i: int) -> bool {
    0 <= i && i + p.len() <= s.len() && s.subrange(i, i + p.len()) == p
}

/// What `find` returns is the first occurrence, and there is none when it
/// returns `None`.
pub proof fn lemma_find(s: Seq<char>, p: Seq<char>)
    ensures
        find(s, p) matches Some(i) ==> occurs_at(s, p, i) && forall|j: int|
            0 <= j < i ==> !occurs_at(s, p, j),
        find(s, p) is None ==> forall|j: int| !occurs_at(s, p, j),
    decreases s.len(),
{
    if s.len() < p.len() {
    } else if s.len() == 0 || s.take(p.len() as int) == p {
        assert(s.subrange(0, p.len() as int) =~= s.take(p.len() as int));
        assert(s.len() == 0 ==> s.take(p.len() as int) =~= p);
    } else {
        lemma_find(s.drop_first(), p);
        assert(!occurs_at(s, p, 0)) by {
            assert(s.subrange(0, p.len() as int) =~= s.take(p.len() as int));
        }
        assert forall|j: int| 1 <= j && occurs_at(s, p, j) implies occurs_at(
            s.drop_first(),
            p,
            j - 1,
        ) by {
            assert(s.drop_first().subrange(j - 1, j - 1 + p.len()) =~= s.subrange(j, j + p.len()));
        }
        assert forall|j: int| 1 <= j && occurs_at(s.drop_first(), p, j - 1) implies occurs_at(
            s,
            p,
            j,
        ) by {
            assert forall|m: int| 0 <= m < p.len() implies #[trigger] s.drop_first().subrange(
                j - 1,
                j - 1 + p.len(),
            )[m] == s.subrange(j, j + p.len())[m] by {
                assert(s.drop_first()[j - 1 + m] == s[j + m]);
            }
            assert(s.drop_first().subrange(j - 1, j - 1 + p.len()) =~= s.subrange(j, j + p.len()));
        }
    }
}

/// Removes one trailing carriage return.
pub open spec fn strip_cr(x: Seq<char>) -> Seq<char> {
    if x.len() > 0 && x.last() == '\r' {
        x.drop_last()
    } else {
        x
    }
}

/// `str::lines`: the pieces between line feeds; a line that ended with a line
/// feed also loses one carriage return before it, and a final line feed does
/// not start an empty line.
pub open spec fn lines(s: Seq<char>) -> Seq<Seq<char>>
    decreases s.len(),
{
    if s.len() == 0 {
        seq![]
    } else {
        match find(s, seq!['\n']) {
            None => seq![s],
            Some(i) => {
                proof {
                    lemma_find(s, seq!['\n']);
                }
                seq![strip_cr(s.take(i))] + lines(s.skip(i + 1))
            },
        }
    }
}

/// `[T]::join` on strings: the pieces with `sep` between each two.
pub open spec fn join(ls: Seq<Seq<char>>, sep: Seq<char>) -> Seq<char>
    decreases ls.len(),
{
    if ls.len() == 0 {
        seq![]
    } else if ls.len() == 1 {
        ls[0]
    } else {
        join(ls.drop_last(), sep) + sep + ls.last()
    }
}

/// `str::replace` for a non-empty pattern: every occurrence, scanning left to
/// right and never overlapping, is replaced by `rep`.
pub open spec fn replace_nonempty(s: Seq<char>, p: Seq<char>, rep: Seq<char>) -> Seq<char>
    recommends
        p.len() > 0,
    decreases s.len(),
{
    if p.len() == 0 || s.len() < p.len() {
        s
    } else if s.take(p.len() as int) == p {
        rep + replace_nonempty(s.skip(p.len() as int), p, rep)
    } else {
        seq![s[0]] + replace_nonempty(s.drop_first(), p, rep)
    }
}

/// `str::replace` with an empty pattern: `rep` before every char and at the end.
pub open spec fn replace_empty(s: Seq<char>, rep: Seq<char>) -> Seq<char>
    decreases s.len(),
{
    if s.len() == 0 {
        rep
    } else {
        rep + seq![s[0]] + replace_empty(s.drop_first(), rep)
    }
}

/// `str::replace`.
pub open spec fn replace(s: Seq<char>, p: Seq<char>, rep: Seq<char>) -> Seq<char> {
    if p.len() == 0 {
        replace_empty(s, rep)
    } else {
        replace_nonempty(s, p, rep)
    }
}

// ---------------------------------------------------------------------------
// Conversions between `str` and `Vec<char>`.
// ---------------------------------------------------------------------------

/// The chars of `s`, in order.
pub fn chars_of(s: &str) -> (r: Vec<char>)
    ensures
        r@ == s@,
{
    let n = s.unicode_len();
    let mut v: Vec<char> = Vec::new();
    let mut i: usize = 0;
    while i < n
        invariant
            n == s@.len(),
            i <= n,
            v@ == s@.take(i as int),
        decreases n - i,
    {
        v.push(s.get_char(i));
        assert(s@.take(i + 1) =~= s@.take(i as int).push(s@[i as int]));
        i = i + 1;
    }
    assert(s@.take(n as int) =~= s@);
    v
}

/// `String::from_iter` over chars: the string made of `v`'s chars in order.
#[verifier::external_body]
pub(crate) fn string_of(v: &[char]) -> (r: String)
    ensures
        r@ == v@,
{
    v.iter().collect()
}

/// A name for what `str::to_lowercase` returns: the Unicode lowercase mapping
/// of the whole string.
pub uninterp spec fn lowercase(s: Seq<char>) -> Seq<char>;

/// Calls `str::to_lowercase`. Its result is given the name `lowercase`; the
/// Unicode tables it follows are not restated here.
#[verifier::external_body]
pub(crate) fn to_lowercase(s: &str) -> (r: String)
    ensures
        r@ == lowercase(s@),
{
    s.to_lowercase()
}

/// A name for what `char::to_uppercase` yields, collected into a string.
pub uninterp spec fn uppercase_char(c: char) -> Seq<char>;

/// Calls `char::to_uppercase` and collects the chars it yields. The result is
/// given the name `uppercase_char`; the Unicode tables are not restated here.
#[verifier::external_body]
pub(crate) fn char_to_uppercase(c: char) -> (r: String)
    ensures
        r@ == uppercase_char(c),
{
    c.to_uppercase().collect()
}

/// `a` followed by `b`.
pub fn concat(a: &str, b: &str) -> (r: String)
    ensures
        r@ == a@ + b@,
{
    let mut s = String::from_str(a);
    s.append(b);
    s
}

/// `a`, `b` and `c` in a row.
pub fn concat3(a: &str, b: &str, c: &str) -> (r: String)
    ensures
        r@ == a@ + b@ + c@,
{
    let mut s = String::from_str(a);
    s.append(b);
    s.append(c);
    s
}

// ---------------------------------------------------------------------------
// Verified scanning over `Vec<char>`.
// ---------------------------------------------------------------------------

/// Appends all of `src` to `dst`.
pub fn push_all(dst: &mut Vec<char>, src: &[char])
    ensures
        final(dst)@ == old(dst)@ + src@,
{
    let mut i: usize = 0;
    while i < src.len()
        invariant
            i <= src@.len(),
            dst@ == old(dst)@ + src@.take(i as int),
        decreases src@.len() - i,
    {
        dst.push(src[i]);
        assert(src@.take(i + 1) =~= src@.take(i as int).push(src@[i as int]));
        i = i + 1;
    }
    assert(src@.take(src@.len() as int) =~= src@);
}

/// A copy of `s[a..b]`.
pub fn slice_of(s: &[char], a: usize, b: usize) -> (r: Vec<char>)
    requires
        a <= b <= s@.len(),
    ensures
        r@ == s@.subrange(a as int, b as int),
{
    let mut v: Vec<char> = Vec::new();
    let mut i: usize = a;
    while i < b
        invariant
            a <= i <= b,
            b <= s@.len(),
            v@ == s@.subrange(a as int, i as int),
        decreases b - i,
    {
        v.push(s[i]);
        assert(s@.subrange(a as int, i + 1) =~= s@.subrange(a as int, i as int).push(s@[i as int]));
        i = i + 1;
    }
    v
}

/// Whether `p` occurs in `s` at char position `i`.
pub fn occurs_at_exec(s: &[char], p: &[char], i: usize) -> (r: bool)
    ensures
        r == (i + p@.len() <= s@.len() && s@.subrange(i as int, i + p@.len()) == p@),
{
    if p.len() > s.len() || i > s.len() - p.len() {
        return false;
    }
    let mut k: usize = 0;
    while k < p.len()
        invariant
            k <= p@.len(),
            s@.len() <= usize::MAX,
            i + p@.len() <= s@.len(),
            forall|m: int| 0 <= m < k ==> s@[i + m] == p@[m],
        decreases p@.len() - k,
    {
        if s[i + k] != p[k] {
            assert(s@.subrange(i as int, i + p@.len())[k as int] != p@[k as int]);
            return false;
        }
        k = k + 1;
    }
    assert(s@.subrange(i as int, i + p@.len()) =~= p@);
    true
}

/// `starts_with` over char vectors.
pub fn starts_with_exec(s: &[char], p: &[char]) -> (r: bool)
    ensures
        r == starts_with(s@, p@),
{
    let r = occurs_at_exec(s, p, 0);
    proof {
        if p@.len() <= s@.len() {
            assert(s@.subrange(0, p@.len() as int) =~= s@.take(p@.len() as int));
        }
    }
    r
}

proof fn lemma_find_step(s: Seq<char>, p: Seq<char>, i: int)
    requires
        0 <= i < s.len(),
        p.len() <= s.len() - i,
        s.skip(i).take(p.len() as int) != p,
    ensures
        find(s.skip(i), p) == match find(s.skip(i + 1), p) {
            Some(j) => Some(j + 1),
            None => None::<int>,
        },
{
    assert(s.skip(i).drop_first() =~= s.skip(i + 1));
}

/// `find` over char vectors, from char position `from`.
pub fn find_from(s: &[char], p: &[char], from: usize) -> (r: Option<usize>)
    requires
        from <= s@.len(),
    ensures
        r matches Some(j) ==> from <= j && find(s@.skip(from as int), p@) == Some(j - from),
        r is None ==> find(s@.skip(from as int), p@) is None,
{
    let mut i: usize = from;
    while i < s.len() && p.len() <= s.len() - i
        invariant
            from <= i <= s@.len(),
            find(s@.skip(from as int), p@) == match find(s@.skip(i as int), p@) {
                Some(j) => Some(j + (i - from)),
                None => None::<int>,
            },
        decreases s@.len() - i,
    {
        let hit = occurs_at_exec(s, p, i);
        if hit {
            assert(s@.skip(i as int).take(p@.len() as int) =~= s@.subrange(i as int, i + p@.len()));
            return Some(i);
        }
        assert(s@.skip(i as int).take(p@.len() as int) =~= s@.subrange(i as int, i + p@.len()));
        proof {
            lemma_find_step(s@, p@, i as int);
        }
        i = i + 1;
    }
    if p.len() <= s.len() - i {
        // here i == s.len() and p is empty
        assert(s@.skip(i as int).take(0) =~= p@);
        return Some(i);
    }
    None
}

/// `find` over char vectors.
pub fn find_exec(s: &[char], p: &[char]) -> (r: Option<usize>)
    ensures
        r matches Some(j) ==> find(s@, p@) == Some(j as int),
        r is None ==> find(s@, p@) is None,
{
    assert(s@.skip(0) =~= s@);
    find_from(s, p, 0)
}

/// `contains` over char vectors.
pub fn contains_exec(s: &[char], p: &[char]) -> (r: bool)
    ensures
        r == contains(s@, p@),
{
    find_exec(s, p).is_some()
}

/// `contains` over strings.
pub fn str_contains(s: &str, p: &str) -> (r: bool)
    ensures
        r == contains(s@, p@),
{
    let sv = chars_of(s);
    let pv = chars_of(p);
    contains_exec(&sv, &pv)
}

/// The bounds of `trim_start(s)` as a suffix of `s`.
fn trim_start_index(s: &[char]) -> (r: usize)
    ensures
        r <= s@.len(),
        trim_start(s@) == s@.skip(r as int),
{
    let mut i: usize = 0;
    assert(s@.skip(0) =~= s@);
    while i < s.len() && char_is_ws(s[i])
        invariant
            i <= s@.len(),
            trim_start(s@) == trim_start(s@.skip(i as int)),
        decreases s@.len() - i,
    {
        assert(s@.skip(i as int).drop_first() =~= s@.skip(i + 1));
        i = i + 1;
    }
    proof {
        r_fix(s@, i as int);
    }
    i
}

proof fn r_fix(s: Seq<char>, i: int)
    requires
        0 <= i <= s.len(),
        i == s.len() || !is_ws(s[i]),
    ensures
        trim_start(s.skip(i)) == s.skip(i),
{
}

/// The bounds of `trim_end(s)` as a prefix of `s`.
fn trim_end_index(s: &[char]) -> (r: usize)
    ensures
        r <= s@.len(),
        trim_end(s@) == s@.take(r as int),
{
    let mut i: usize = s.len();
    assert(s@.take(s@.len() as int) =~= s@);
    while i > 0 && char_is_ws(s[i - 1])
        invariant
            i <= s@.len(),
            trim_end(s@) == trim_end(s@.take(i as int)),
        decreases i,
    {
        assert(s@.take(i as int).drop_last() =~= s@.take(i - 1));
        i = i - 1;
    }
    i
}

/// `trim` over char vectors.
pub fn trim_exec(s: &[char]) -> (r: Vec<char>)
    ensures
        r@ == trim(s@),
{
    let a = trim_start_index(s);
    let t = slice_of(s, a, s.len());
    assert(t@ =~= s@.skip(a as int));
    let b = trim_end_index(&t);
    slice_of(&t, 0, b)
}

/// `trim_end` over char vectors.
pub fn trim_end_exec(s: &[char]) -> (r: Vec<char>)
    ensures
        r@ == trim_end(s@),
{
    let b = trim_end_index(s);
    let r = slice_of(s, 0, b);
    assert(r@ =~= s@.take(b as int));
    r
}

/// `str::trim` on a string.
pub fn str_trim(s: &str) -> (r: String)
    ensures
        r@ == trim(s@),
{
    let v = chars_of(s);
    let t = trim_exec(&v);
    string_of(&t)
}

/// The char sequences held by a vector of char vectors.
pub open spec fn views(v: Seq<Vec<char>>) -> Seq<Seq<char>> {
    v.map_values(|x: Vec<char>| x@)
}

/// `str::lines` over char vectors.
pub fn split_lines(s: &[char]) -> (r: Vec<Vec<char>>)
    ensures
        views(r@) == lines(s@),
{
    let mut out: Vec<Vec<char>> = Vec::new();
    let mut pos: usize = 0;
    let nl: Vec<char> = vec!['\n'];
    assert(s@.skip(0) =~= s@);
    while pos < s.len()
        invariant
            pos <= s@.len(),
            nl@ == seq!['\n'],
            lines(s@) == views(out@) + lines(s@.skip(pos as int)),
        decreases s@.len() - pos,
    {
        let found = find_from(s, &nl, pos);
        let ghost rest = s@.skip(pos as int);
        match found {
            None => {
                let line = slice_of(s, pos, s.len());
                assert(line@ =~= rest);
                assert(lines(rest) == seq![rest]);
                let ghost before = views(out@);
                out.push(line);
                assert(views(out@) =~= before.push(line@));
                pos = s.len();
                assert(lines(s@.skip(pos as int)) =~= Seq::<Seq<char>>::empty());
                assert(lines(s@) =~= views(out@) + lines(s@.skip(pos as int)));
            },
            Some(j) => {
                proof {
                    lemma_find(rest, seq!['\n']);
                }
                let mut end = j;
                if end > pos && s[end - 1] == '\r' {
                    end = end - 1;
                }
                let line = slice_of(s, pos, end);
                assert(line@ =~= strip_cr(rest.take(j - pos)));
                assert(rest.skip(j - pos + 1) =~= s@.skip(j + 1));
                assert(lines(rest) == seq![strip_cr(rest.take(j - pos))] + lines(rest.skip(j - pos + 1)));
                let ghost before = views(out@);
                out.push(line);
                assert(views(out@) =~= before.push(line@));
                pos = j + 1;
            },
        }
    }
    assert(lines(s@.skip(pos as int)) =~= Seq::<Seq<char>>::empty()) by {
        assert(s@.skip(pos as int).len() == 0);
    }
    assert(views(out@) + Seq::<Seq<char>>::empty() =~= views(out@));
    out
}

/// `[T]::join` over char vectors.
pub fn join_lines(ls: &[Vec<char>], sep: &[char]) -> (r: Vec<char>)
    ensures
        r@ == join(views(ls@), sep@),
{
    let mut out: Vec<char> = Vec::new();
    let mut i: usize = 0;
    while i < ls.len()
        invariant
            i <= ls@.len(),
            out@ == join(views(ls@).take(i as int), sep@),
        decreases ls@.len() - i,
    {
        let ghost prev = views(ls@).take(i as int);
        if i > 0 {
            push_all(&mut out, sep);
        }
        push_all(&mut out, &ls[i]);
        assert(views(ls@).take(i + 1).drop_last() =~= prev);
        assert(views(ls@).take(i + 1).last() == ls[i as int]@);
        if i == 0 {
            assert(out@ =~= join(views(ls@).take(i + 1), sep@));
        }
        i = i + 1;
    }
    assert(views(ls@).take(ls@.len() as int) =~= views(ls@));
    out
}

/// `str::replace` over char vectors.
pub fn replace_exec(s: &[char], p: &[char], rep: &[char]) -> (r: Vec<char>)
    ensures
        r@ == replace(s@, p@, rep@),
{
    let mut out: Vec<char> = Vec::new();
    let mut i: usize = 0;
    assert(s@.skip(0) =~= s@);
    if p.len() == 0 {
        while i < s.len()
            invariant
                i <= s@.len(),
                p@.len() == 0,
                replace(s@, p@, rep@) == out@ + replace_empty(s@.skip(i as int), rep@),
            decreases s@.len() - i,
        {
            push_all(&mut out, rep);
            out.push(s[i]);
            assert(s@.skip(i as int).drop_first() =~= s@.skip(i + 1));
            i = i + 1;
        }
        push_all(&mut out, rep);
        assert(s@.skip(i as int) =~= Seq::<char>::empty());
        return out;
    }
    while i < s.len() && p.len() <= s.len() - i
        invariant
            i <= s@.len(),
            p@.len() > 0,
            replace(s@, p@, rep@) == out@ + replace_nonempty(s@.skip(i as int), p@, rep@),
        decreases s@.len() - i,
    {
        let ghost rest = s@.skip(i as int);
        if occurs_at_exec(s, p, i) {
            assert(rest.take(p@.len() as int) =~= s@.subrange(i as int, i + p@.len()));
            assert(rest.skip(p@.len() as int) =~= s@.skip(i + p@.len()));
            push_all(&mut out, rep);
            i = i + p.len();
        } else {
            assert(rest.take(p@.len() as int) =~= s@.subrange(i as int, i + p@.len()));
            assert(rest.drop_first() =~= s@.skip(i + 1));
            out.push(s[i]);
            i = i + 1;
        }
    }
    let tail = slice_of(s, i, s.len());
    assert(tail@ =~= s@.skip(i as int));
    push_all(&mut out, &tail);
    out
}

} // verus!

verus! {

/// Whether two char vectors are equal.
pub fn chars_eq(a: &[char], b: &[char]) -> (r: bool)
    ensures
        r == (a@ == b@),
{
    if a.len() != b.len() {
        return false;
    }
    let mut i: usize = 0;
    while i < a.len()
        invariant
            i <= a@.len(),
            a@.len() == b@.len(),
            forall|k: int| 0 <= k < i ==> a@[k] == b@[k],
        decreases a@.len() - i,
    {
        if a[i] != b[i] {
            return false;
        }
        i = i + 1;
    }
    assert(a@ =~= b@);
    true
}

/// Whether two strings are equal.
pub fn str_eq(a: &str, b: &str) -> (r: bool)
    ensures
        r == (a@ == b@),
{
    chars_eq(&chars_of(a), &chars_of(b))
}

} // verus!
