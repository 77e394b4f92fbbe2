//! The order generators are listed in: by category, then by name.

use vstd::prelude::*;
use crate::kinds::GeneratorType;

verus! {

/// `a` comes strictly before `b` in lexicographic order of code points, which
/// is the byte order of their UTF-8 encodings.
pub open spec fn name_lt(a: Seq<char>, b: Seq<char>) -> bool
    decreases a.len(),
{
    if a.len() == 0 {
        b.len() > 0
    } else if b.len() == 0 {
        false
    } else if a[0] != b[0] {
        (a[0] as int) < (b[0] as int)
    } else {
        name_lt(a.drop_first(), b.drop_first())
    }
}

pub proof fn lemma_name_lt_irreflexive(a: Seq<char>)
    ensures
        !name_lt(a, a),
    decreases a.len(),
{
    if a.len() > 0 {
        lemma_name_lt_irreflexive(a.drop_first());
    }
}

pub proof fn lemma_name_lt_asymmetric(a: Seq<char>, b: Seq<char>)
    ensures
        name_lt(a, b) ==> !name_lt(b, a),
    decreases a.len(),
{
    if a.len() > 0 && b.len() > 0 && a[0] == b[0] {
        lemma_name_lt_asymmetric(a.drop_first(), b.drop_first());
    }
}

pub proof fn lemma_name_lt_transitive(a: Seq<char>, b: Seq<char>, c: Seq<char>)
    requires
        name_lt(a, b),
        name_lt(b, c),
    ensures
        name_lt(a, c),
    decreases a.len(),
{
    if a.len() > 0 && b.len() > 0 && c.len() > 0 && a[0] == b[0] && b[0] == c[0] {
        lemma_name_lt_transitive(a.drop_first(), b.drop_first(), c.drop_first());
    }
}

/// Two names neither of which comes before the other are equal.
pub proof fn lemma_name_lt_total(a: Seq<char>, b: Seq<char>)
    ensures
        name_lt(a, b) || name_lt(b, a) || a == b,
    decreases a.len(),
{
    if a.len() > 0 && b.len() > 0 {
        if a[0] == b[0] {
            lemma_name_lt_total(a.drop_first(), b.drop_first());
            if a.drop_first() == b.drop_first() {
                assert(a =~= seq![a[0]] + a.drop_first());
                assert(b =~= seq![b[0]] + b.drop_first());
            }
        } else {
            assert((a[0] as int) != (b[0] as int));
        }
    } else if a.len() == 0 && b.len() == 0 {
        assert(a =~= b);
    }
}

/// The listing key of a generator: its category, then its name.
pub open spec fn key_lt(ta: GeneratorType, na: Seq<char>, tb: GeneratorType, nb: Seq<char>) -> bool {
    ta.spec_rank() < tb.spec_rank() || (ta.spec_rank() == tb.spec_rank() && name_lt(na, nb))
}

pub proof fn lemma_key_lt_asymmetric(ta: GeneratorType, na: Seq<char>, tb: GeneratorType, nb: Seq<char>)
    ensures
        key_lt(ta, na, tb, nb) ==> !key_lt(tb, nb, ta, na),
{
    lemma_name_lt_asymmetric(na, nb);
}

/// "Not after" is transitive: keys form a total preorder.
pub proof fn lemma_key_le_transitive(
    ta: GeneratorType,
    na: Seq<char>,
    tb: GeneratorType,
    nb: Seq<char>,
    tc: GeneratorType,
    nc: Seq<char>,
)
    requires
        !key_lt(tb, nb, ta, na),
        !key_lt(tc, nc, tb, nb),
    ensures
        !key_lt(tc, nc, ta, na),
{
    if key_lt(tc, nc, ta, na) {
        lemma_name_lt_total(na, nb);
        if ta.spec_rank() == tc.spec_rank() && name_lt(nc, na) {
            if name_lt(na, nb) {
                lemma_name_lt_transitive(nc, na, nb);
            }
        }
    }
}

/// Whether `a` comes strictly before `b` by name, computed on the names.
pub fn name_less(a: &str, b: &str) -> (r: bool)
    ensures
        r == name_lt(a@, b@),
{
    let ac = crate::text::chars_of(a);
    let bc = crate::text::chars_of(b);
    let mut i: usize = 0;
    assert(a@.skip(0) =~= a@ && b@.skip(0) =~= b@);
    while i < ac.len() && i < bc.len() && ac[i] == bc[i]
        invariant
            i <= ac@.len(),
            i <= bc@.len(),
            ac@ == a@,
            bc@ == b@,
            name_lt(a@, b@) == name_lt(a@.skip(i as int), b@.skip(i as int)),
        decreases ac@.len() - i,
    {
        assert(a@.skip(i as int).drop_first() =~= a@.skip(i + 1));
        assert(b@.skip(i as int).drop_first() =~= b@.skip(i + 1));
        i = i + 1;
    }
    if i == ac.len() {
        i < bc.len()
    } else if i == bc.len() {
        false
    } else {
        assert(a@.skip(i as int)[0] == ac@[i as int]);
        assert(b@.skip(i as int)[0] == bc@[i as int]);
        ac[i] < bc[i]
    }
}

/// Whether the key (`ta`, `a`) comes strictly before (`tb`, `b`).
pub fn key_less(ta: GeneratorType, a: &str, tb: GeneratorType, b: &str) -> (r: bool)
    ensures
        r == key_lt(ta, a@, tb, b@),
{
    let ra = ta.rank();
    let rb = tb.rank();
    if ra < rb {
        true
    } else if ra == rb {
        name_less(a, b)
    } else {
        false
    }
}

} // verus!
