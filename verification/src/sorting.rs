//! Texts in dictionary order, and lists kept in that order.

use vstd::prelude::*;

verus! {

/// Whether `a` comes before `b` in the dictionary: at the first place
/// where they differ `a` has the smaller character, or `a` ends there and
/// `b` goes on. This is the order of `str`.
pub open spec fn lex_lt(a: Seq<char>, b: Seq<char>) -> bool
    decreases a.len(),
{
    if b.len() == 0 {
        false
    } else if a.len() == 0 {
        true
    } else if a[0] != b[0] {
        a[0] < b[0]
    } else {
        lex_lt(a.drop_first(), b.drop_first())
    }
}

pub proof fn lemma_lex_lt_irreflexive(a: Seq<char>)
    ensures
        !lex_lt(a, a),
    decreases a.len(),
{
    if a.len() > 0 {
        lemma_lex_lt_irreflexive(a.drop_first());
    }
}

pub proof fn lemma_lex_lt_transitive(a: Seq<char>, b: Seq<char>, c: Seq<char>)
    requires
        lex_lt(a, b),
        lex_lt(b, c),
    ensures
        lex_lt(a, c),
    decreases a.len(),
{
    if a.len() > 0 && a[0] == b[0] && b[0] == c[0] {
        lemma_lex_lt_transitive(a.drop_first(), b.drop_first(), c.drop_first());
    }
}

/// Of two texts one comes before the other, or they are the same.
pub proof fn lemma_lex_lt_total(a: Seq<char>, b: Seq<char>)
    ensures
        lex_lt(a, b) || lex_lt(b, a) || a == b,
    decreases a.len(),
{
    if a.len() > 0 && b.len() > 0 && a[0] == b[0] {
        lemma_lex_lt_total(a.drop_first(), b.drop_first());
        if a.drop_first() == b.drop_first() {
            assert(a =~= seq![a[0]] + a.drop_first());
            assert(b =~= seq![b[0]] + b.drop_first());
        }
    } else if a.len() == 0 && b.len() == 0 {
        assert(a =~= b);
    }
}

/// Compares two texts. Returns whether the first comes before the second,
/// and whether they are the same.
pub fn chars_lex(a: &Vec<char>, b: &Vec<char>) -> (r: (bool, bool))
    ensures
        r.0 == lex_lt(a@, b@),
        r.1 == (a@ == b@),
{
    let mut i: usize = 0;
    assert(a@.skip(0) =~= a@ && b@.skip(0) =~= b@);
    while i < a.len() && i < b.len()
        invariant
            i <= a.len(),
            i <= b.len(),
            a@.take(i as int) == b@.take(i as int),
            lex_lt(a@.skip(i as int), b@.skip(i as int)) == lex_lt(a@, b@),
        decreases a.len() - i,
    {
        assert(a@.skip(i as int).drop_first() =~= a@.skip(i as int + 1));
        assert(b@.skip(i as int).drop_first() =~= b@.skip(i as int + 1));
        assert(a@.skip(i as int)[0] == a@[i as int]);
        assert(b@.skip(i as int)[0] == b@[i as int]);
        if a[i] != b[i] {
            assert(a@ != b@);
            return (a[i] < b[i], false);
        }
        assert(a@.take(i as int + 1) =~= a@.take(i as int).push(a@[i as int]));
        assert(b@.take(i as int + 1) =~= b@.take(i as int).push(b@[i as int]));
        i = i + 1;
    }
    if i == a.len() && i == b.len() {
        assert(a@.take(i as int) =~= a@ && b@.take(i as int) =~= b@);
        proof {
            lemma_lex_lt_irreflexive(a@);
        }
        (false, true)
    } else {
        assert(a@.len() != b@.len());
        (i == a.len(), false)
    }
}

/// A text with the key by which it is ordered.
#[derive(Clone, Debug)]
pub struct Keyed {
    pub key: Vec<char>,
    pub text: Vec<char>,
}

impl View for Keyed {
    type V = (Seq<char>, Seq<char>);

    open spec fn view(&self) -> (Seq<char>, Seq<char>) {
        (self.key@, self.text@)
    }
}

/// Whether `x` comes before `y`: by the key, and by the text where the
/// keys are the same.
pub open spec fn keyed_lt(x: (Seq<char>, Seq<char>), y: (Seq<char>, Seq<char>)) -> bool {
    lex_lt(x.0, y.0) || (x.0 == y.0 && lex_lt(x.1, y.1))
}

pub open spec fn keyed_le(x: (Seq<char>, Seq<char>), y: (Seq<char>, Seq<char>)) -> bool {
    keyed_lt(x, y) || x == y
}

/// Whether `s` is in order; equal entries may stand side by side.
pub open spec fn sorted(s: Seq<(Seq<char>, Seq<char>)>) -> bool {
    forall|i: int, j: int| 0 <= i < j < s.len() ==> keyed_le(s[i], s[j])
}

/// Whether `s` is in order and holds no entry twice.
pub open spec fn strictly_sorted(s: Seq<(Seq<char>, Seq<char>)>) -> bool {
    forall|i: int, j: int| 0 <= i < j < s.len() ==> keyed_lt(s[i], s[j])
}

/// The views of a list of keyed texts.
pub open spec fn keyed_views(list: Seq<Keyed>) -> Seq<(Seq<char>, Seq<char>)> {
    Seq::new(list.len(), |i: int| list[i]@)
}

pub proof fn lemma_keyed_lt_transitive(
    x: (Seq<char>, Seq<char>),
    y: (Seq<char>, Seq<char>),
    z: (Seq<char>, Seq<char>),
)
    requires
        keyed_lt(x, y),
        keyed_le(y, z),
    ensures
        keyed_lt(x, z),
{
    if y != z {
        lemma_lex_lt_irreflexive(x.0);
        lemma_lex_lt_irreflexive(y.0);
        if lex_lt(x.0, y.0) && lex_lt(y.0, z.0) {
            lemma_lex_lt_transitive(x.0, y.0, z.0);
        }
        if x.0 == y.0 && y.0 == z.0 {
            lemma_lex_lt_transitive(x.1, y.1, z.1);
        }
    }
}

pub proof fn lemma_keyed_total(x: (Seq<char>, Seq<char>), y: (Seq<char>, Seq<char>))
    ensures
        keyed_lt(x, y) || keyed_lt(y, x) || x == y,
        !(keyed_lt(x, y) && keyed_lt(y, x)),
        !keyed_lt(x, x),
{
    lemma_lex_lt_total(x.0, y.0);
    lemma_lex_lt_total(x.1, y.1);
    lemma_lex_lt_irreflexive(x.0);
    lemma_lex_lt_irreflexive(x.1);
    lemma_lex_lt_irreflexive(y.0);
    if lex_lt(x.0, y.0) && lex_lt(y.0, x.0) {
        lemma_lex_lt_transitive(x.0, y.0, x.0);
    }
    if lex_lt(x.1, y.1) && lex_lt(y.1, x.1) {
        lemma_lex_lt_transitive(x.1, y.1, x.1);
    }
}

/// Compares two entries: whether the first comes before the second, and
/// whether they are the same.
pub fn keyed_lex(x: &Keyed, y: &Keyed) -> (r: (bool, bool))
    ensures
        r.0 == keyed_lt(x@, y@),
        r.1 == (x@ == y@),
{
    let (key_before, key_same) = chars_lex(&x.key, &y.key);
    if key_before {
        proof {
            lemma_lex_lt_irreflexive(x.key@);
        }
        return (true, false);
    }
    if !key_same {
        return (false, false);
    }
    proof {
        lemma_lex_lt_irreflexive(x.key@);
    }
    let (text_before, text_same) = chars_lex(&x.text, &y.text);
    (text_before, text_same)
}

/// Where `entry` goes in the ordered `list`: behind everything that comes
/// before it.
fn place_of(list: &Vec<Keyed>, entry: &Keyed) -> (r: (usize, bool))
    requires
        sorted(keyed_views(list@)),
    ensures
        r.0 <= list@.len(),
        forall|i: int| 0 <= i < r.0 ==> keyed_lt(keyed_views(list@)[i], entry@),
        forall|i: int| r.0 <= i < list@.len() ==> keyed_le(entry@, keyed_views(list@)[i]),
        r.1 == (r.0 < list@.len() && keyed_views(list@)[r.0 as int] == entry@),
{
    let mut at: usize = 0;
    while at < list.len()
        invariant
            at <= list.len(),
            sorted(keyed_views(list@)),
            forall|i: int| 0 <= i < at ==> keyed_lt(keyed_views(list@)[i], entry@),
        decreases list.len() - at,
    {
        let (before, same) = keyed_lex(&list[at], entry);
        assert(keyed_views(list@)[at as int] == list@[at as int]@);
        if !before {
            assert forall|i: int| at <= i < list@.len() implies keyed_le(
                entry@,
                keyed_views(list@)[i],
            ) by {
                let here = keyed_views(list@)[at as int];
                let there = keyed_views(list@)[i];
                lemma_keyed_total(here, entry@);
                if i > at {
                    assert(keyed_le(here, there));
                    if !same {
                        lemma_keyed_lt_transitive(entry@, here, there);
                    }
                }
            }
            return (at, same);
        }
        at = at + 1;
    }
    (at, false)
}

/// Puts `entry` into the ordered `list`, at its place.
pub fn insert_sorted(list: &mut Vec<Keyed>, entry: Keyed)
    requires
        sorted(keyed_views(old(list)@)),
    ensures
        sorted(keyed_views(final(list)@)),
        keyed_views(final(list)@).to_multiset() == keyed_views(old(list)@).to_multiset().insert(
            entry@,
        ),
        final(list)@.len() == old(list)@.len() + 1,
{
    let (at, _) = place_of(list, &entry);
    let ghost before = keyed_views(list@);
    list.insert(at, entry);
    proof {
        let after = keyed_views(list@);
        assert(after =~= before.insert(at as int, entry@));
        assert forall|i: int, j: int| 0 <= i < j < after.len() implies keyed_le(
            after[i],
            after[j],
        ) by {
            if j < at {
                assert(after[i] == before[i] && after[j] == before[j]);
            } else if j == at {
                assert(after[i] == before[i]);
            } else if i < at {
                assert(after[i] == before[i] && after[j] == before[j - 1]);
                lemma_keyed_lt_transitive(before[i], entry@, before[j - 1]);
            } else if i == at {
                assert(after[j] == before[j - 1]);
            } else {
                assert(after[i] == before[i - 1] && after[j] == before[j - 1]);
            }
        }
        assert(after.remove(at as int) =~= before);
        vstd::seq_lib::to_multiset_remove(after, at as int);
        after.to_multiset_ensures();
        assert(after.contains(entry@)) by {
            assert(after[at as int] == entry@);
        }
        assert(after.to_multiset() =~= before.to_multiset().insert(entry@));
    }
}

/// Puts `entry` into the ordered `list` unless it is there already.
pub fn insert_new_sorted(list: &mut Vec<Keyed>, entry: Keyed)
    requires
        strictly_sorted(keyed_views(old(list)@)),
    ensures
        strictly_sorted(keyed_views(final(list)@)),
        keyed_views(final(list)@).to_set() == keyed_views(old(list)@).to_set().insert(entry@),
{
    let ghost before = keyed_views(list@);
    assert(sorted(before));
    let (at, there) = place_of(list, &entry);
    if there {
        assert(before.to_set() =~= before.to_set().insert(entry@)) by {
            assert(before.contains(before[at as int]));
        }
        return ;
    }
    list.insert(at, entry);
    proof {
        let after = keyed_views(list@);
        assert(after =~= before.insert(at as int, entry@));
        assert forall|i: int, j: int| 0 <= i < j < after.len() implies keyed_lt(
            after[i],
            after[j],
        ) by {
            if j < at {
                assert(after[i] == before[i] && after[j] == before[j]);
            } else if j == at {
                assert(after[i] == before[i]);
            } else if i < at {
                assert(after[i] == before[i] && after[j] == before[j - 1]);
                lemma_keyed_lt_transitive(before[i], entry@, before[j - 1]);
            } else if i == at {
                assert(after[j] == before[j - 1]);
                assert(keyed_le(entry@, before[j - 1]));
                if j - 1 == at {
                    assert(before[at as int] != entry@);
                } else {
                    assert(keyed_lt(before[at as int], before[j - 1]));
                    lemma_keyed_total(entry@, before[j - 1]);
                    if entry@ == before[j - 1] {
                        assert(keyed_le(entry@, before[at as int]));
                        lemma_keyed_total(entry@, before[at as int]);
                    }
                }
            } else {
                assert(after[i] == before[i - 1] && after[j] == before[j - 1]);
            }
        }
        assert forall|x: (Seq<char>, Seq<char>)|
            after.to_set().contains(x) <==> before.to_set().insert(entry@).contains(x) by {
            if after.contains(x) {
                let k = choose|k: int| 0 <= k < after.len() && after[k] == x;
                if k < at {
                    assert(before[k] == x);
                } else if k > at {
                    assert(before[k - 1] == x);
                }
            }
            if before.contains(x) {
                let k = choose|k: int| 0 <= k < before.len() && before[k] == x;
                if k < at {
                    assert(after[k] == x);
                } else {
                    assert(after[k + 1] == x);
                }
            }
            if x == entry@ {
                assert(after[at as int] == x);
            }
        }
        assert(after.to_set() =~= before.to_set().insert(entry@));
    }
}

} // verus!
