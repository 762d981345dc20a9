//! The lexicographic key order of the wire encoding, and an ordered
//! string-to-string map used for the protocol's open metadata and
//! extension objects, whose values are domain-specific JSON carried as
//! text.  Decoding folds wire entries into the canonical ascending key
//! order, a repeated key keeping its last value; the encoder writes the
//! entries out as they stand.

use vstd::prelude::*;

use crate::json::str_eq;

verus! {

/// Strict lexicographic order on strings, by code point.
pub open spec fn lex_lt(a: Seq<char>, b: Seq<char>) -> bool
    decreases a.len(),
{
    if b.len() == 0 {
        false
    } else if a.len() == 0 {
        true
    } else if a[0] != b[0] {
        a[0] < b[0]
    } else {
        lex_lt(a.drop_first(), b.drop_first())
    }
}

/// The order is asymmetric; in particular no string is below itself.
pub proof fn lemma_lex_lt_asym(a: Seq<char>, b: Seq<char>)
    requires
        lex_lt(a, b),
    ensures
        a != b,
        !lex_lt(b, a),
    decreases a.len(),
{
    if a.len() != 0 && b.len() != 0 && a[0] == b[0] {
        lemma_lex_lt_asym(a.drop_first(), b.drop_first());
        if a == b {
            assert(a.drop_first() == b.drop_first());
        }
    } else {
        if a == b {
            assert(a.len() == b.len());
        }
    }
}

/// The order is transitive.
pub proof fn lemma_lex_lt_trans(a: Seq<char>, b: Seq<char>, c: Seq<char>)
    requires
        lex_lt(a, b),
        lex_lt(b, c),
    ensures
        lex_lt(a, c),
    decreases a.len(),
{
    if a.len() != 0 && b.len() != 0 && c.len() != 0 {
        if a[0] == b[0] && b[0] == c[0] {
            lemma_lex_lt_trans(a.drop_first(), b.drop_first(), c.drop_first());
        }
    }
}

/// Exact string comparison in the lexicographic order.
pub fn str_lt(a: &str, b: &str) -> (r: bool)
    ensures
        r == lex_lt(a@, b@),
    decreases a@.len(),
{
    let a_len = a.unicode_len();
    let b_len = b.unicode_len();
    let mut i: usize = 0;
    proof {
        assert(a@.skip(0) =~= a@);
        assert(b@.skip(0) =~= b@);
    }
    loop
        invariant
            i <= a_len,
            i <= b_len,
            a_len == a@.len(),
            b_len == b@.len(),
            forall|j: int| 0 <= j < i ==> a@[j] == b@[j],
            lex_lt(a@, b@) == lex_lt(a@.skip(i as int), b@.skip(i as int)),
        decreases a_len - i,
    {
        if i == b_len {
            proof {
                assert(b@.skip(i as int).len() == 0);
            }
            return false;
        }
        if i == a_len {
            proof {
                assert(a@.skip(i as int).len() == 0);
                assert(b@.skip(i as int).len() > 0);
            }
            return true;
        }
        let ca = a.get_char(i);
        let cb = b.get_char(i);
        proof {
            assert(a@.skip(i as int)[0] == a@[i as int]);
            assert(b@.skip(i as int)[0] == b@[i as int]);
        }
        if ca != cb {
            return ca < cb;
        }
        proof {
            assert(a@.skip(i as int).drop_first() =~= a@.skip(i + 1));
            assert(b@.skip(i as int).drop_first() =~= b@.skip(i + 1));
        }
        i += 1;
    }
}

/// The order is total: two distinct strings compare one way or the
/// other.
pub proof fn lemma_lex_lt_total(a: Seq<char>, b: Seq<char>)
    ensures
        a == b || lex_lt(a, b) || lex_lt(b, a),
    decreases a.len(),
{
    if a.len() != 0 && b.len() != 0 && a[0] == b[0] {
        lemma_lex_lt_total(a.drop_first(), b.drop_first());
        if a.drop_first() == b.drop_first() {
            assert(a.len() == b.len());
            assert forall|i: int| 0 <= i < a.len() implies a[i] == b[i] by {
                if i > 0 {
                    assert(a[i] == a.drop_first()[i - 1]);
                    assert(b[i] == b.drop_first()[i - 1]);
                }
            }
            assert(a =~= b);
        }
    } else if a.len() == 0 && b.len() == 0 {
        assert(a =~= b);
    }
}

/// Whether a key/value list has strictly ascending keys; such a list
/// has no duplicate keys and stands in the one canonical order.
pub open spec fn keys_ascending<V>(m: Seq<(Seq<char>, V)>) -> bool {
    forall|i: int| 0 <= i < m.len() - 1 ==> lex_lt(#[trigger] m[i].0, m[i + 1].0)
}

/// The ascending-keys condition on a string-to-string map.
pub open spec fn strmap_wf(m: Seq<(Seq<char>, Seq<char>)>) -> bool {
    keys_ascending(m)
}

/// In an ascending list, every earlier key is below every later key.
pub proof fn lemma_keys_ascending_pairwise<V>(m: Seq<(Seq<char>, V)>, i: int, j: int)
    requires
        keys_ascending(m),
        0 <= i < j < m.len(),
    ensures
        lex_lt(m[i].0, m[j].0),
    decreases j - i,
{
    if i + 1 < j {
        lemma_keys_ascending_pairwise(m, i, j - 1);
        lemma_lex_lt_trans(m[i].0, m[j - 1].0, m[j].0);
    }
}

/// Inserts one entry into an ascending key/value list, keeping the
/// ascending order; an entry with an equal key is replaced.
pub open spec fn map_insert<V>(m: Seq<(Seq<char>, V)>, k: Seq<char>, v: V) -> Seq<(Seq<char>, V)>
    decreases m.len(),
{
    if m.len() == 0 {
        seq![(k, v)]
    } else if lex_lt(k, m[0].0) {
        seq![(k, v)] + m
    } else if k == m[0].0 {
        seq![(k, v)] + m.drop_first()
    } else {
        seq![m[0]] + map_insert(m.drop_first(), k, v)
    }
}

/// Inserting a key above every present key appends the entry.
pub proof fn lemma_map_insert_append<V>(m: Seq<(Seq<char>, V)>, k: Seq<char>, v: V)
    requires
        forall|i: int| 0 <= i < m.len() ==> lex_lt(#[trigger] m[i].0, k),
    ensures
        map_insert(m, k, v) == m.push((k, v)),
    decreases m.len(),
{
    reveal_with_fuel(map_insert, 2);
    if m.len() == 0 {
        assert(seq![(k, v)] =~= m.push((k, v)));
    } else {
        lemma_lex_lt_asym(m[0].0, k);
        assert(forall|i: int|
            0 <= i < m.drop_first().len() ==> lex_lt(#[trigger] m.drop_first()[i].0, k));
        lemma_map_insert_append(m.drop_first(), k, v);
        assert(seq![m[0]] + m.drop_first().push((k, v)) =~= m.push((k, v)));
    }
}

/// Inserting keeps the keys ascending, so a map folded entry by entry
/// through [`map_insert`] is always in canonical form.
pub proof fn lemma_map_insert_ascending<V>(m: Seq<(Seq<char>, V)>, k: Seq<char>, v: V)
    requires
        keys_ascending(m),
    ensures
        keys_ascending(map_insert(m, k, v)),
    decreases m.len(),
{
    reveal_with_fuel(map_insert, 2);
    if m.len() == 0 {
    } else if lex_lt(k, m[0].0) {
        let r = seq![(k, v)] + m;
        assert(forall|i: int| 0 <= i < m.len() ==> #[trigger] r[i + 1] == m[i]);
        assert(keys_ascending(r)) by {
            assert(forall|i: int| 1 <= i < r.len() - 1 ==> lex_lt(#[trigger] r[i].0, r[i + 1].0));
        }
    } else if k == m[0].0 {
        let r = seq![(k, v)] + m.drop_first();
        assert(forall|i: int| 0 <= i < m.drop_first().len() ==> #[trigger] r[i + 1] == m[i + 1]);
        assert(keys_ascending(r)) by {
            assert(forall|i: int| 1 <= i < r.len() - 1 ==> lex_lt(#[trigger] r[i].0, r[i + 1].0));
        }
    } else {
        lemma_lex_lt_total(k, m[0].0);
        assert(keys_ascending(m.drop_first())) by {
            assert(forall|i: int|
                0 <= i < m.drop_first().len() ==> #[trigger] m.drop_first()[i] == m[i + 1]);
        }
        lemma_map_insert_ascending(m.drop_first(), k, v);
        let rest = map_insert(m.drop_first(), k, v);
        let r = seq![m[0]] + rest;
        assert(rest.len() > 0);
        assert(lex_lt(m[0].0, rest[0].0)) by {
            reveal_with_fuel(map_insert, 2);
            if m.drop_first().len() == 0 {
                assert(rest[0] == (k, v));
            } else if lex_lt(k, m.drop_first()[0].0) || k == m.drop_first()[0].0 {
                assert(rest[0] == (k, v));
            } else {
                assert(rest[0] == m.drop_first()[0]);
            }
        }
        assert(forall|i: int| 0 <= i < rest.len() ==> #[trigger] r[i + 1] == rest[i]);
        assert(keys_ascending(r)) by {
            assert(forall|i: int| 1 <= i < r.len() - 1 ==> lex_lt(#[trigger] r[i].0, r[i + 1].0));
        }
    }
}

/// Where an entry lands: with `p` the first position whose key is not
/// below `k`, inserting is replacing at `p` on an equal key and
/// splicing in before `p` otherwise.
pub proof fn lemma_map_insert_at<V>(m: Seq<(Seq<char>, V)>, k: Seq<char>, v: V, p: int)
    requires
        0 <= p <= m.len(),
        forall|i: int| 0 <= i < p ==> lex_lt(#[trigger] m[i].0, k),
        p < m.len() ==> !lex_lt(m[p].0, k),
    ensures
        map_insert(m, k, v) == if p < m.len() && m[p].0 == k {
            m.update(p, (k, v))
        } else {
            m.insert(p, (k, v))
        },
    decreases p,
{
    reveal_with_fuel(map_insert, 2);
    if p == 0 {
        if m.len() == 0 {
            assert(seq![(k, v)] =~= m.insert(0, (k, v)));
        } else if m[0].0 == k {
            assert(!lex_lt(k, m[0].0)) by {
                if lex_lt(k, m[0].0) {
                    lemma_lex_lt_asym(k, m[0].0);
                }
            }
            assert(seq![(k, v)] + m.drop_first() =~= m.update(0, (k, v)));
        } else {
            lemma_lex_lt_total(k, m[0].0);
            assert(seq![(k, v)] + m =~= m.insert(0, (k, v)));
        }
    } else {
        lemma_lex_lt_asym(m[0].0, k);
        assert(forall|i: int|
            0 <= i < p - 1 ==> lex_lt(#[trigger] m.drop_first()[i].0, k));
        assert(p - 1 < m.drop_first().len() ==> !lex_lt(m.drop_first()[p - 1].0, k));
        lemma_map_insert_at(m.drop_first(), k, v, p - 1);
        if p < m.len() && m[p].0 == k {
            assert(m.drop_first()[p - 1].0 == k);
            assert(seq![m[0]] + m.drop_first().update(p - 1, (k, v)) =~= m.update(p, (k, v)));
        } else {
            assert(seq![m[0]] + m.drop_first().insert(p - 1, (k, v)) =~= m.insert(p, (k, v)));
        }
    }
}

/// An ordered string-to-string map, encoded as a JSON object whose
/// values are strings.  Entries built through [`StrMap::insert`] stand in
/// ascending key order with no duplicates, as [`strmap_wf`] states.
#[derive(Debug, Clone, PartialEq, Eq)]
pub struct StrMap {
    pub entries: Vec<(String, String)>,
}

impl View for StrMap {
    type V = Seq<(Seq<char>, Seq<char>)>;

    open spec fn view(&self) -> Seq<(Seq<char>, Seq<char>)> {
        self.entries.deep_view()
    }
}

impl DeepView for StrMap {
    type V = Seq<(Seq<char>, Seq<char>)>;

    open spec fn deep_view(&self) -> Seq<(Seq<char>, Seq<char>)> {
        self.view()
    }
}

impl StrMap {
    /// An empty map.
    pub fn new() -> (r: StrMap)
        ensures
            r@ == Seq::<(Seq<char>, Seq<char>)>::empty(),
    {
        let r = StrMap { entries: Vec::new() };
        proof {
            assert(r@ =~= Seq::<(Seq<char>, Seq<char>)>::empty());
        }
        r
    }

    /// Appends one entry at the end, regardless of order.  The
    /// order-preserving extension splice of a security scheme is built
    /// this way; canonical maps are built with [`StrMap::insert`].
    pub fn push(&mut self, k: &str, v: &str)
        ensures
            final(self)@ == old(self)@.push((k@, v@)),
    {
        self.entries.push((k.to_owned(), v.to_owned()));
        proof {
            assert(self@ =~= old(self)@.push((k@, v@)));
        }
    }

    /// The number of entries.
    pub fn len(&self) -> (n: usize)
        ensures
            n == self@.len(),
    {
        self.entries.len()
    }

    /// Inserts one entry at its place in the ascending key order,
    /// replacing an entry with an equal key.  A map built through this
    /// method alone always satisfies [`strmap_wf`].
    pub fn insert(&mut self, k: &str, v: &str)
        ensures
            final(self)@ == map_insert(old(self)@, k@, v@),
    {
        let ghost m0 = self@;
        let mut out: Vec<(String, String)> = Vec::new();
        let mut i: usize = 0;
        proof {
            assert(m0.skip(0) =~= m0);
            assert(out.deep_view() =~= Seq::<(Seq<char>, Seq<char>)>::empty());
            assert(out.deep_view() + map_insert(m0.skip(0), k@, v@) =~= map_insert(m0, k@, v@));
        }
        while i < self.entries.len() && str_lt(self.entries[i].0.as_str(), k)
            invariant
                i <= self.entries.len(),
                m0 == self@,
                m0.len() == self.entries@.len(),
                out.deep_view().len() == i,
                out.deep_view() + map_insert(m0.skip(i as int), k@, v@) == map_insert(m0, k@, v@),
            decreases self.entries.len() - i,
        {
            proof {
                assert(m0.skip(i as int)[0] == m0[i as int]);
                lemma_lex_lt_asym(m0[i as int].0, k@);
                assert(m0.skip(i as int).drop_first() =~= m0.skip(i + 1));
            }
            let ghost before = out.deep_view();
            out.push((self.entries[i].0.clone(), self.entries[i].1.clone()));
            proof {
                assert(out.deep_view() =~= before.push(m0[i as int]));
                assert(out.deep_view() + map_insert(m0.skip(i + 1), k@, v@) =~= before + (seq![
                    m0[i as int],
                ] + map_insert(m0.skip(i + 1), k@, v@)));
            }
            i += 1;
        }
        let mut rest: usize = self.entries.len();
        if i == self.entries.len() {
            proof {
                assert(m0.skip(i as int).len() == 0);
            }
            let ghost before = out.deep_view();
            out.push((k.to_owned(), v.to_owned()));
            proof {
                assert(out.deep_view() =~= before + seq![(k@, v@)]);
            }
        } else if str_eq(self.entries[i].0.as_str(), k) {
            proof {
                assert(m0.skip(i as int)[0] == m0[i as int]);
                assert(!lex_lt(k@, m0[i as int].0)) by {
                    if lex_lt(k@, m0[i as int].0) {
                        lemma_lex_lt_asym(k@, m0[i as int].0);
                    }
                }
                assert(m0.skip(i as int).drop_first() =~= m0.skip(i + 1));
            }
            let ghost before = out.deep_view();
            out.push((k.to_owned(), v.to_owned()));
            rest = i + 1;
            proof {
                assert(out.deep_view() + m0.skip(i + 1) =~= before + (seq![(k@, v@)] + m0.skip(
                    i + 1,
                )));
            }
        } else {
            proof {
                assert(m0.skip(i as int)[0] == m0[i as int]);
                lemma_lex_lt_total(k@, m0[i as int].0);
            }
            let ghost before = out.deep_view();
            out.push((k.to_owned(), v.to_owned()));
            rest = i;
            proof {
                assert(out.deep_view() + m0.skip(i as int) =~= before + (seq![(k@, v@)] + m0.skip(
                    i as int,
                )));
            }
        }
        if i == self.entries.len() {
            proof {
                assert(out.deep_view() =~= map_insert(m0, k@, v@));
            }
            self.entries = out;
            return ;
        }
        let mut j: usize = rest;
        while j < self.entries.len()
            invariant
                j <= self.entries.len(),
                m0 == self@,
                m0.len() == self.entries@.len(),
                out.deep_view() + m0.skip(j as int) == map_insert(m0, k@, v@),
            decreases self.entries.len() - j,
        {
            proof {
                assert(m0.skip(j as int)[0] == m0[j as int]);
                assert(m0.skip(j as int).drop_first() =~= m0.skip(j + 1));
            }
            let ghost before = out.deep_view();
            out.push((self.entries[j].0.clone(), self.entries[j].1.clone()));
            proof {
                assert(out.deep_view() + m0.skip(j + 1) =~= before + (seq![m0[j as int]] + m0.skip(
                    j + 1,
                )));
            }
            j += 1;
        }
        proof {
            assert(m0.skip(m0.len() as int).len() == 0);
            assert(out.deep_view() =~= map_insert(m0, k@, v@));
        }
        self.entries = out;
    }
}

} // verus!
