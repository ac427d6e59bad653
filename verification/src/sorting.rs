//! What holds of the canonical order of parameters: the byte-wise order is
//! a total order, ordering by key permutes the list and leaves the keys
//! ascending, and with distinct keys the outcome does not depend on the
//! order in which the parameters were given.

use vstd::prelude::*;
use vstd::seq_lib::*;
use crate::encoding::lemma_encoding_injective;
use crate::params::{
    Pair, bytes_le, keys_ascend, inserted, inserted_all, sorted_by_key, encoded_pairs,
    encoded_pair, parameter_text,
};

verus! {

/// Whether no two parameters of a list have the same key.
pub open spec fn distinct_keys(ps: Seq<Pair>) -> bool {
    forall|i: int, j: int|
        #![trigger ps[i], ps[j]]
        0 <= i < ps.len() && 0 <= j < ps.len() && i != j ==> ps[i].0 != ps[j].0
}

/// Whether each key comes strictly before every later key.
pub open spec fn keys_strictly_ascend(ps: Seq<Pair>) -> bool {
    forall|i: int, j: int|
        #![trigger ps[i], ps[j]]
        0 <= i < j < ps.len() ==> bytes_le(ps[i].0, ps[j].0) && ps[i].0 != ps[j].0
}

/// Every byte string comes before itself or equals it.
pub proof fn lemma_bytes_le_reflexive(a: Seq<u8>)
    ensures
        bytes_le(a, a),
    decreases a.len(),
{
    if a.len() > 0 {
        lemma_bytes_le_reflexive(a.skip(1));
    }
}

/// Of two byte strings, one comes before the other or equals it.
pub proof fn lemma_bytes_le_total(a: Seq<u8>, b: Seq<u8>)
    ensures
        bytes_le(a, b) || bytes_le(b, a),
    decreases a.len(),
{
    if a.len() > 0 && b.len() > 0 && a[0] == b[0] {
        lemma_bytes_le_total(a.skip(1), b.skip(1));
    }
}

/// Two byte strings that come before each other are equal.
pub proof fn lemma_bytes_le_antisymmetric(a: Seq<u8>, b: Seq<u8>)
    requires
        bytes_le(a, b),
        bytes_le(b, a),
    ensures
        a == b,
    decreases a.len(),
{
    if a.len() == 0 || b.len() == 0 {
        assert(a =~= b);
    } else {
        lemma_bytes_le_antisymmetric(a.skip(1), b.skip(1));
        assert(a =~= seq![a[0]] + a.skip(1));
        assert(b =~= seq![b[0]] + b.skip(1));
    }
}

/// The byte-wise order is transitive.
pub proof fn lemma_bytes_le_transitive(a: Seq<u8>, b: Seq<u8>, c: Seq<u8>)
    requires
        bytes_le(a, b),
        bytes_le(b, c),
    ensures
        bytes_le(a, c),
    decreases a.len(),
{
    if a.len() > 0 && b.len() > 0 && c.len() > 0 && a[0] == b[0] && b[0] == c[0] {
        lemma_bytes_le_transitive(a.skip(1), b.skip(1), c.skip(1));
    }
}

/// Putting a parameter into a list places it at one position: after the
/// last parameter whose key does not come strictly after its key.
pub proof fn lemma_inserted_position(s: Seq<Pair>, p: Pair) -> (pos: int)
    ensures
        0 <= pos <= s.len(),
        inserted(s, p) == s.insert(pos, p),
        forall|j: int| pos <= j < s.len() ==> !bytes_le(#[trigger] s[j].0, p.0),
        pos > 0 ==> bytes_le(s[pos - 1].0, p.0),
    decreases s.len(),
{
    if s.len() == 0 {
        assert(s.insert(0, p) =~= seq![p]);
        0
    } else if bytes_le(s.last().0, p.0) {
        assert(s.insert(s.len() as int, p) =~= s.push(p));
        s.len() as int
    } else {
        let pos = lemma_inserted_position(s.drop_last(), p);
        assert(s.drop_last().insert(pos, p).push(s.last()) =~= s.insert(pos, p));
        assert forall|j: int| pos <= j < s.len() implies !bytes_le(#[trigger] s[j].0, p.0) by {
            if j < s.len() - 1 {
                assert(s.drop_last()[j] == s[j]);
            }
        }
        assert(pos > 0 ==> s.drop_last()[pos - 1] == s[pos - 1]);
        pos
    }
}

/// Putting a parameter into a list with ascending keys leaves the keys ascending.
pub proof fn lemma_inserted_keys_ascend(s: Seq<Pair>, p: Pair)
    requires
        keys_ascend(s),
    ensures
        keys_ascend(inserted(s, p)),
{
    let pos = lemma_inserted_position(s, p);
    let t = s.insert(pos, p);
    assert forall|i: int, j: int| 0 <= i < j < t.len() implies bytes_le(t[i].0, t[j].0) by {
        if j < pos {
            assert(t[i] == s[i] && t[j] == s[j]);
        } else if j == pos {
            assert(t[j] == p && t[i] == s[i]);
            if i < pos - 1 {
                lemma_bytes_le_transitive(s[i].0, s[pos - 1].0, p.0);
            }
        } else if i == pos {
            assert(t[i] == p && t[j] == s[j - 1]);
            lemma_bytes_le_total(s[j - 1].0, p.0);
        } else if i < pos {
            assert(t[i] == s[i] && t[j] == s[j - 1]);
        } else {
            assert(t[i] == s[i - 1] && t[j] == s[j - 1]);
        }
    }
}

/// Putting a parameter into a list adds it once and leaves the others as they are.
pub proof fn lemma_inserted_multiset(s: Seq<Pair>, p: Pair)
    ensures
        inserted(s, p).to_multiset() == s.to_multiset().insert(p),
        inserted(s, p).len() == s.len() + 1,
{
    let pos = lemma_inserted_position(s, p);
    to_multiset_insert(s, pos, p);
}

/// Putting parameters into a list with ascending keys leaves the keys
/// ascending and adds exactly those parameters.
pub proof fn lemma_inserted_all_sorts(s: Seq<Pair>, ps: Seq<Pair>)
    requires
        keys_ascend(s),
    ensures
        keys_ascend(inserted_all(s, ps)),
        inserted_all(s, ps).to_multiset() == s.to_multiset().add(ps.to_multiset()),
        inserted_all(s, ps).len() == s.len() + ps.len(),
    decreases ps.len(),
{
    broadcast use vstd::multiset::group_multiset_axioms;

    if ps.len() == 0 {
        to_multiset_len(ps);
        vstd::multiset::lemma_multiset_empty_len(ps.to_multiset());
        assert(s.to_multiset().add(ps.to_multiset()) =~= s.to_multiset());
    } else {
        let front = ps.drop_last();
        lemma_inserted_all_sorts(s, front);
        lemma_inserted_keys_ascend(inserted_all(s, front), ps.last());
        lemma_inserted_multiset(inserted_all(s, front), ps.last());
        assert(front.push(ps.last()) =~= ps);
        to_multiset_build(front, ps.last());
        assert(s.to_multiset().add(front.to_multiset()).insert(ps.last()) =~= s.to_multiset().add(
            ps.to_multiset(),
        ));
    }
}

/// Ordering by key gives the same parameters, each as often as before, with
/// keys that never decrease.
pub proof fn lemma_sorted_by_key(ps: Seq<Pair>)
    ensures
        keys_ascend(sorted_by_key(ps)),
        sorted_by_key(ps).to_multiset() == ps.to_multiset(),
        sorted_by_key(ps).len() == ps.len(),
{
    broadcast use vstd::multiset::group_multiset_axioms;

    let empty = Seq::<Pair>::empty();
    lemma_inserted_all_sorts(empty, ps);
    to_multiset_len(empty);
    vstd::multiset::lemma_multiset_empty_len(empty.to_multiset());
    assert(empty.to_multiset().add(ps.to_multiset()) =~= ps.to_multiset());
}

/// The parameters of a list that have a given key, in their order.
pub open spec fn with_key(ps: Seq<Pair>, key: Seq<u8>) -> Seq<Pair>
    decreases ps.len(),
{
    if ps.len() == 0 {
        Seq::empty()
    } else if ps.last().0 == key {
        with_key(ps.drop_last(), key).push(ps.last())
    } else {
        with_key(ps.drop_last(), key)
    }
}

/// The parameters with a key in two lists put together are those of the
/// first and then those of the second.
pub proof fn lemma_with_key_concat(a: Seq<Pair>, b: Seq<Pair>, key: Seq<u8>)
    ensures
        with_key(a + b, key) == with_key(a, key) + with_key(b, key),
    decreases b.len(),
{
    if b.len() == 0 {
        assert(a + b =~= a);
        assert(with_key(a, key) + with_key(b, key) =~= with_key(a, key));
    } else {
        lemma_with_key_concat(a, b.drop_last(), key);
        assert((a + b).drop_last() =~= a + b.drop_last());
        assert((a + b).last() == b.last());
        if b.last().0 == key {
            assert((with_key(a, key) + with_key(b.drop_last(), key)).push(b.last()) =~= with_key(
                a,
                key,
            ) + with_key(b.drop_last(), key).push(b.last()));
        }
    }
}

/// A list in which no parameter has a key has no parameters with that key.
pub proof fn lemma_with_key_none(ps: Seq<Pair>, key: Seq<u8>)
    requires
        forall|i: int| 0 <= i < ps.len() ==> (#[trigger] ps[i]).0 != key,
    ensures
        with_key(ps, key) == Seq::<Pair>::empty(),
    decreases ps.len(),
{
    if ps.len() > 0 {
        assert(ps[ps.len() - 1].0 != key);
        assert forall|i: int| 0 <= i < ps.drop_last().len() implies (
        #[trigger] ps.drop_last()[i]).0 != key by {
            assert(ps.drop_last()[i] == ps[i]);
        }
        lemma_with_key_none(ps.drop_last(), key);
    }
}

/// A parameter that is put into a list comes after the parameters that
/// have its key, and leaves those with another key as they are.
pub proof fn lemma_inserted_with_key(s: Seq<Pair>, p: Pair, key: Seq<u8>)
    ensures
        with_key(inserted(s, p), key) == (if p.0 == key {
            with_key(s, key).push(p)
        } else {
            with_key(s, key)
        }),
{
    let pos = lemma_inserted_position(s, p);
    let a = s.subrange(0, pos);
    let b = s.subrange(pos, s.len() as int);
    assert(s =~= a + b);
    assert(s.insert(pos, p) =~= a.push(p) + b);
    lemma_with_key_concat(a, b, key);
    lemma_with_key_concat(a.push(p), b, key);
    assert(a.push(p).drop_last() =~= a);
    assert(a.push(p).last() == p);
    if p.0 == key {
        lemma_bytes_le_reflexive(key);
        assert forall|i: int| 0 <= i < b.len() implies (#[trigger] b[i]).0 != key by {
            assert(b[i] == s[pos + i]);
            assert(!bytes_le(s[pos + i].0, p.0));
        }
        lemma_with_key_none(b, key);
        assert(with_key(a, key).push(p) + Seq::<Pair>::empty() =~= with_key(a, key).push(p));
        assert(with_key(a, key) + Seq::<Pair>::empty() =~= with_key(a, key));
    }
}

/// Putting parameters into a list leaves those with one key in the order
/// in which they were put in, after those that were there.
pub proof fn lemma_inserted_all_with_key(s: Seq<Pair>, ps: Seq<Pair>, key: Seq<u8>)
    ensures
        with_key(inserted_all(s, ps), key) == with_key(s, key) + with_key(ps, key),
    decreases ps.len(),
{
    if ps.len() == 0 {
        assert(with_key(s, key) + with_key(ps, key) =~= with_key(s, key));
    } else {
        let front = ps.drop_last();
        lemma_inserted_all_with_key(s, front, key);
        lemma_inserted_with_key(inserted_all(s, front), ps.last(), key);
        if ps.last().0 == key {
            assert((with_key(s, key) + with_key(front, key)).push(ps.last()) =~= with_key(s, key)
                + with_key(front, key).push(ps.last()));
        }
    }
}

/// Ordering by key is stable: the parameters with one key stand in the
/// order in which they were given.
pub proof fn lemma_sorted_stable(ps: Seq<Pair>, key: Seq<u8>)
    ensures
        with_key(sorted_by_key(ps), key) == with_key(ps, key),
{
    lemma_inserted_all_with_key(Seq::<Pair>::empty(), ps, key);
    assert(Seq::<Pair>::empty() + with_key(ps, key) =~= with_key(ps, key));
}

/// A list with the same parameters as one with distinct keys, each as
/// often, has distinct keys too.
pub proof fn lemma_distinct_keys_permuted(x: Seq<Pair>, y: Seq<Pair>)
    requires
        distinct_keys(x),
        x.to_multiset() == y.to_multiset(),
    ensures
        distinct_keys(y),
{
    assert(x.no_duplicates()) by {
        assert forall|i: int, j: int|
            0 <= i < x.len() && 0 <= j < x.len() && i != j implies x[i] != x[j] by {
            assert(x[i].0 != x[j].0);
        }
    }
    x.lemma_multiset_has_no_duplicates();
    y.lemma_multiset_has_no_duplicates_conv();
    assert forall|i: int, j: int| 0 <= i < y.len() && 0 <= j < y.len() && i != j implies y[i].0
        != y[j].0 by {
        assert(y[i] != y[j]);
        to_multiset_contains(y, y[i]);
        to_multiset_contains(y, y[j]);
        to_multiset_contains(x, y[i]);
        to_multiset_contains(x, y[j]);
        assert(y.contains(y[i]) && y.contains(y[j]));
        let a = choose|a: int| 0 <= a < x.len() && x[a] == y[i];
        let b = choose|b: int| 0 <= b < x.len() && x[b] == y[j];
        assert(a != b);
    }
}

/// Two lists whose keys strictly ascend and which hold the same parameters
/// are the same list.
pub proof fn lemma_strictly_ascending_unique(x: Seq<Pair>, y: Seq<Pair>)
    requires
        keys_strictly_ascend(x),
        keys_strictly_ascend(y),
        forall|p: Pair| x.contains(p) <==> y.contains(p),
    ensures
        x == y,
    decreases x.len(),
{
    if x.len() == 0 {
        if y.len() > 0 {
            assert(y.contains(y[0]));
            assert(x.contains(y[0]));
        }
        assert(x =~= y);
    } else if y.len() == 0 {
        assert(x.contains(x[0]));
        assert(y.contains(x[0]));
    } else {
        let xl = x.last();
        let yl = y.last();
        assert(x.contains(xl) && y.contains(yl));
        assert(y.contains(xl) && x.contains(yl));
        let i = choose|i: int| 0 <= i < y.len() && y[i] == xl;
        let j = choose|j: int| 0 <= j < x.len() && x[j] == yl;
        if i < y.len() - 1 {
            assert(y[i] == xl && y[y.len() - 1] == yl);
            assert(bytes_le(y[i].0, y[y.len() - 1].0) && y[i].0 != y[y.len() - 1].0);
            assert(j < x.len() - 1);
            assert(x[j] == yl && x[x.len() - 1] == xl);
            assert(bytes_le(x[j].0, x[x.len() - 1].0));
            lemma_bytes_le_antisymmetric(xl.0, yl.0);
            assert(false);
        }
        assert(xl == yl);
        let xf = x.drop_last();
        let yf = y.drop_last();
        assert forall|p: Pair| xf.contains(p) <==> yf.contains(p) by {
            if xf.contains(p) {
                let a = choose|a: int| 0 <= a < xf.len() && xf[a] == p;
                assert(x[a] == p);
                assert(x.contains(p));
                assert(x[x.len() - 1] == xl);
                assert(x[a].0 != x[x.len() - 1].0);
                let b = choose|b: int| 0 <= b < y.len() && y[b] == p;
                assert(b < y.len() - 1);
                assert(yf[b] == p);
            }
            if yf.contains(p) {
                let a = choose|a: int| 0 <= a < yf.len() && yf[a] == p;
                assert(y[a] == p);
                assert(y.contains(p));
                assert(y[y.len() - 1] == yl);
                assert(y[a].0 != y[y.len() - 1].0);
                let b = choose|b: int| 0 <= b < x.len() && x[b] == p;
                assert(b < x.len() - 1);
                assert(xf[b] == p);
            }
        }
        assert(keys_strictly_ascend(xf)) by {
            assert forall|a: int, b: int| 0 <= a < b < xf.len() implies bytes_le(
                xf[a].0,
                xf[b].0,
            ) && xf[a].0 != xf[b].0 by {
                assert(xf[a] == x[a] && xf[b] == x[b]);
            }
        }
        assert(keys_strictly_ascend(yf)) by {
            assert forall|a: int, b: int| 0 <= a < b < yf.len() implies bytes_le(
                yf[a].0,
                yf[b].0,
            ) && yf[a].0 != yf[b].0 by {
                assert(yf[a] == y[a] && yf[b] == y[b]);
            }
        }
        lemma_strictly_ascending_unique(xf, yf);
        assert(x =~= xf.push(xl));
        assert(y =~= yf.push(yl));
    }
}

/// With distinct keys, ordering by key does not depend on the order in
/// which the parameters were given.
pub proof fn lemma_sorted_order_independent(x: Seq<Pair>, y: Seq<Pair>)
    requires
        distinct_keys(x),
        x.to_multiset() == y.to_multiset(),
    ensures
        sorted_by_key(x) == sorted_by_key(y),
{
    let sx = sorted_by_key(x);
    let sy = sorted_by_key(y);
    lemma_sorted_by_key(x);
    lemma_sorted_by_key(y);
    lemma_distinct_keys_permuted(x, sx);
    lemma_distinct_keys_permuted(x, sy);
    assert(keys_strictly_ascend(sx));
    assert(keys_strictly_ascend(sy));
    assert forall|p: Pair| sx.contains(p) <==> sy.contains(p) by {
        to_multiset_contains(sx, p);
        to_multiset_contains(sy, p);
    }
    lemma_strictly_ascending_unique(sx, sy);
}

/// Percent-encoding the parameters of a list in another order gives the
/// encoded parameters in that other order.
proof fn lemma_encoded_pairs_multiset(x: Seq<Pair>, y: Seq<Pair>)
    requires
        distinct_keys(x),
        x.to_multiset() == y.to_multiset(),
    ensures
        distinct_keys(encoded_pairs(x)),
        distinct_keys(encoded_pairs(y)),
        forall|p: Pair| encoded_pairs(x).contains(p) <==> encoded_pairs(y).contains(p),
{
    let ex = encoded_pairs(x);
    let ey = encoded_pairs(y);
    lemma_distinct_keys_permuted(x, y);
    assert forall|i: int, j: int| 0 <= i < ex.len() && 0 <= j < ex.len() && i != j implies ex[i].0
        != ex[j].0 by {
        if ex[i].0 == ex[j].0 {
            lemma_encoding_injective(x[i].0, x[j].0);
        }
    }
    assert forall|i: int, j: int| 0 <= i < ey.len() && 0 <= j < ey.len() && i != j implies ey[i].0
        != ey[j].0 by {
        if ey[i].0 == ey[j].0 {
            lemma_encoding_injective(y[i].0, y[j].0);
        }
    }
    assert forall|p: Pair| ex.contains(p) <==> ey.contains(p) by {
        if ex.contains(p) {
            let i = choose|i: int| 0 <= i < ex.len() && ex[i] == p;
            to_multiset_contains(x, x[i]);
            to_multiset_contains(y, x[i]);
            assert(x.contains(x[i]));
            let j = choose|j: int| 0 <= j < y.len() && y[j] == x[i];
            assert(ey[j] == p);
        }
        if ey.contains(p) {
            let i = choose|i: int| 0 <= i < ey.len() && ey[i] == p;
            to_multiset_contains(x, y[i]);
            to_multiset_contains(y, y[i]);
            assert(y.contains(y[i]));
            let j = choose|j: int| 0 <= j < x.len() && x[j] == y[i];
            assert(ex[j] == p);
        }
    }
}

/// The canonical parameter text does not depend on the order in which the
/// request's parameters are given, as long as no key occurs twice among the
/// request's and the OAuth parameters.
pub proof fn lemma_parameter_text_order_independent(
    oauth: Seq<Pair>,
    first: Seq<Pair>,
    second: Seq<Pair>,
    separator: Seq<u8>,
    quoted: bool,
)
    requires
        first.to_multiset() == second.to_multiset(),
        distinct_keys(first + oauth),
    ensures
        parameter_text(oauth, first, separator, quoted) == parameter_text(
            oauth,
            second,
            separator,
            quoted,
        ),
{
    let x = first + oauth;
    let y = second + oauth;
    lemma_multiset_commutative(first, oauth);
    lemma_multiset_commutative(second, oauth);
    assert(x.to_multiset() == y.to_multiset());
    lemma_encoded_pairs_multiset(x, y);
    let ex = encoded_pairs(x);
    let ey = encoded_pairs(y);
    let sx = sorted_by_key(ex);
    let sy = sorted_by_key(ey);
    lemma_sorted_by_key(ex);
    lemma_sorted_by_key(ey);
    lemma_distinct_keys_permuted(ex, sx);
    lemma_distinct_keys_permuted(ey, sy);
    assert(keys_strictly_ascend(sx));
    assert(keys_strictly_ascend(sy));
    assert forall|p: Pair| sx.contains(p) <==> sy.contains(p) by {
        to_multiset_contains(sx, p);
        to_multiset_contains(sy, p);
        to_multiset_contains(ex, p);
        to_multiset_contains(ey, p);
    }
    lemma_strictly_ascending_unique(sx, sy);
}

} // verus!
