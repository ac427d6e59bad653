//! Request parameters in canonical form: percent-encoded, ordered by encoded
//! key, and joined into one text.
//!
//! A parameter is a pair of byte strings. The order is the byte-wise
//! lexicographic order of the encoded keys; parameters with the same key keep
//! the order in which they were given.

use vstd::prelude::*;
use vstd::utf8::*;
use crate::encoding::{percent_encode, percent_encoded};

verus! {

/// A key and its value, as byte strings.
pub type Pair = (Seq<u8>, Seq<u8>);

/// The UTF-8 bytes of each key and value of a parameter list.
pub open spec fn param_bytes(ps: Seq<(String, String)>) -> Seq<Pair> {
    Seq::new(ps.len(), |i: int| (encode_utf8(ps[i].0@), encode_utf8(ps[i].1@)))
}

/// The contents of a list of owned byte pairs.
pub open spec fn pair_views(ps: Seq<(Vec<u8>, Vec<u8>)>) -> Seq<Pair> {
    Seq::new(ps.len(), |i: int| (ps[i].0@, ps[i].1@))
}

/// A parameter with its key and its value percent-encoded.
pub open spec fn encoded_pair(p: Pair) -> Pair {
    (percent_encoded(p.0), percent_encoded(p.1))
}

/// A parameter list with every key and value percent-encoded.
pub open spec fn encoded_pairs(ps: Seq<Pair>) -> Seq<Pair> {
    Seq::new(ps.len(), |i: int| encoded_pair(ps[i]))
}

/// Byte-wise lexicographic order: `a` comes before `b` or equals it.
pub open spec fn bytes_le(a: Seq<u8>, b: Seq<u8>) -> bool
    decreases a.len(),
{
    if a.len() == 0 {
        true
    } else if b.len() == 0 {
        false
    } else if a[0] != b[0] {
        a[0] < b[0]
    } else {
        bytes_le(a.skip(1), b.skip(1))
    }
}

/// Whether the keys of a list never decrease.
pub open spec fn keys_ascend(ps: Seq<Pair>) -> bool {
    forall|i: int, j: int|
        #![trigger ps[i], ps[j]]
        0 <= i < j < ps.len() ==> bytes_le(ps[i].0, ps[j].0)
}

/// A list ordered by key with one more parameter put in: after every
/// parameter whose key comes before its key or equals it.
pub open spec fn inserted(sorted: Seq<Pair>, p: Pair) -> Seq<Pair>
    decreases sorted.len(),
{
    if sorted.len() == 0 {
        seq![p]
    } else if bytes_le(sorted.last().0, p.0) {
        sorted.push(p)
    } else {
        inserted(sorted.drop_last(), p).push(sorted.last())
    }
}

/// A list ordered by key with the parameters of `ps` put in one after the other.
pub open spec fn inserted_all(sorted: Seq<Pair>, ps: Seq<Pair>) -> Seq<Pair>
    decreases ps.len(),
{
    if ps.len() == 0 {
        sorted
    } else {
        inserted(inserted_all(sorted, ps.drop_last()), ps.last())
    }
}

/// The parameters of `ps` in ascending order of key; parameters with the
/// same key stay in the order they have in `ps`.
pub open spec fn sorted_by_key(ps: Seq<Pair>) -> Seq<Pair> {
    inserted_all(Seq::<Pair>::empty(), ps)
}

/// One parameter as text: `key=value`, or `key="value"` when quoted.
pub open spec fn rendered(p: Pair, quoted: bool) -> Seq<u8> {
    if quoted {
        p.0 + seq![0x3du8, 0x22u8] + p.1 + seq![0x22u8]
    } else {
        p.0 + seq![0x3du8] + p.1
    }
}

/// The parameters as text, in order, with the separator between them.
pub open spec fn joined(ps: Seq<Pair>, separator: Seq<u8>, quoted: bool) -> Seq<u8>
    decreases ps.len(),
{
    if ps.len() == 0 {
        Seq::<u8>::empty()
    } else if ps.len() == 1 {
        rendered(ps[0], quoted)
    } else {
        joined(ps.drop_last(), separator, quoted) + separator + rendered(ps.last(), quoted)
    }
}

/// The canonical text of two parameter lists taken together: every key and
/// value percent-encoded, ordered by encoded key, rendered and joined.
/// Where keys are equal, the request's parameters come first.
pub open spec fn parameter_text(
    oauth: Seq<Pair>,
    request: Seq<Pair>,
    separator: Seq<u8>,
    quoted: bool,
) -> Seq<u8> {
    joined(sorted_by_key(encoded_pairs(request + oauth)), separator, quoted)
}

/// Tells whether `a` comes before `b` or equals it, byte by byte.
pub fn key_le(a: &[u8], b: &[u8]) -> (r: bool)
    ensures
        r == bytes_le(a@, b@),
{
    let mut i: usize = 0;
    assert(a@.skip(0) =~= a@ && b@.skip(0) =~= b@);
    while i < a.len() && i < b.len()
        invariant
            i <= a.len(),
            i <= b.len(),
            bytes_le(a@, b@) == bytes_le(a@.skip(i as int), b@.skip(i as int)),
        decreases a.len() - i,
    {
        assert(a@.skip(i as int)[0] == a@[i as int]);
        assert(b@.skip(i as int)[0] == b@[i as int]);
        if a[i] != b[i] {
            return a[i] < b[i];
        }
        assert(a@.skip(i as int).skip(1) =~= a@.skip(i + 1));
        assert(b@.skip(i as int).skip(1) =~= b@.skip(i + 1));
        i = i + 1;
    }
    i == a.len()
}

/// Where a new parameter goes in an ordered list: the place after which
/// every key comes strictly after the new key, and before which the nearest
/// key does not.
pub proof fn lemma_inserted_at(s: Seq<Pair>, p: Pair, pos: int)
    requires
        0 <= pos <= s.len(),
        forall|j: int| pos <= j < s.len() ==> !bytes_le(#[trigger] s[j].0, p.0),
        pos > 0 ==> bytes_le(s[pos - 1].0, p.0),
    ensures
        inserted(s, p) == s.insert(pos, p),
    decreases s.len() - pos,
{
    if s.len() == 0 {
        assert(s.insert(pos, p) =~= seq![p]);
    } else if pos == s.len() {
        assert(s.insert(pos, p) =~= s.push(p));
    } else {
        assert(!bytes_le(s[s.len() - 1].0, p.0));
        lemma_inserted_at(s.drop_last(), p, pos);
        assert(s.drop_last().insert(pos, p).push(s.last()) =~= s.insert(pos, p));
    }
}

/// Putting in the parameters of `a` and then those of `b` is putting in
/// those of `a + b`.
pub proof fn lemma_inserted_all_concat(s: Seq<Pair>, a: Seq<Pair>, b: Seq<Pair>)
    ensures
        inserted_all(inserted_all(s, a), b) == inserted_all(s, a + b),
    decreases b.len(),
{
    if b.len() == 0 {
        assert(a + b =~= a);
    } else {
        lemma_inserted_all_concat(s, a, b.drop_last());
        assert((a + b).drop_last() =~= a + b.drop_last());
        assert((a + b).last() == b.last());
    }
}

/// Puts one parameter into a list ordered by key.
pub fn insert_sorted(sorted: &mut Vec<(Vec<u8>, Vec<u8>)>, key: Vec<u8>, value: Vec<u8>)
    ensures
        pair_views(final(sorted)@) == inserted(pair_views(old(sorted)@), (key@, value@)),
{
    let ghost before = pair_views(sorted@);
    let ghost p: Pair = (key@, value@);
    let mut pos: usize = sorted.len();
    let mut searching = true;
    while searching && pos > 0
        invariant
            pos <= sorted.len(),
            pair_views(sorted@) == before,
            before.len() == sorted.len(),
            forall|j: int| pos <= j < before.len() ==> !bytes_le(#[trigger] before[j].0, key@),
            !searching ==> pos > 0 && bytes_le(before[pos - 1].0, key@),
        decreases pos + (if searching { 1int } else { 0int }),
    {
        assert(before[pos - 1].0 == sorted@[pos - 1].0@);
        if key_le(sorted[pos - 1].0.as_slice(), key.as_slice()) {
            searching = false;
        } else {
            pos = pos - 1;
        }
    }
    proof {
        lemma_inserted_at(before, p, pos as int);
    }
    sorted.insert(pos, (key, value));
    assert(pair_views(sorted@) =~= before.insert(pos as int, p));
}

/// Percent-encodes every parameter of `params` and puts it into a list
/// ordered by key.
pub fn insert_encoded(sorted: &mut Vec<(Vec<u8>, Vec<u8>)>, params: &Vec<(String, String)>)
    ensures
        pair_views(final(sorted)@) == inserted_all(
            pair_views(old(sorted)@),
            encoded_pairs(param_bytes(params@)),
        ),
{
    let ghost start = pair_views(sorted@);
    let ghost all = encoded_pairs(param_bytes(params@));
    let mut i: usize = 0;
    assert(all.take(0) =~= Seq::<Pair>::empty());
    while i < params.len()
        invariant
            i <= params.len(),
            all == encoded_pairs(param_bytes(params@)),
            all.len() == params.len(),
            pair_views(sorted@) == inserted_all(start, all.take(i as int)),
        decreases params.len() - i,
    {
        let key = percent_encode(params[i].0.as_str().as_bytes());
        let value = percent_encode(params[i].1.as_str().as_bytes());
        assert(all.take(i + 1).drop_last() =~= all.take(i as int));
        assert(all.take(i + 1).last() == all[i as int]);
        assert(all[i as int] == (key@, value@));
        insert_sorted(sorted, key, value);
        i = i + 1;
    }
    assert(all.take(i as int) =~= all);
}

/// Appends one parameter as text.
fn push_rendered(out: &mut Vec<u8>, pair: &(Vec<u8>, Vec<u8>), quoted: bool)
    ensures
        final(out)@ == old(out)@ + rendered((pair.0@, pair.1@), quoted),
{
    out.extend_from_slice(pair.0.as_slice());
    out.push(0x3d);
    if quoted {
        out.push(0x22);
    }
    out.extend_from_slice(pair.1.as_slice());
    if quoted {
        out.push(0x22);
    }
    assert(out@ =~= old(out)@ + rendered((pair.0@, pair.1@), quoted));
}

/// Renders the parameters in order and joins them with the separator.
pub fn join_pairs(pairs: &Vec<(Vec<u8>, Vec<u8>)>, separator: &[u8], quoted: bool) -> (out: Vec<u8>)
    ensures
        out@ == joined(pair_views(pairs@), separator@, quoted),
{
    let ghost ps = pair_views(pairs@);
    let mut out: Vec<u8> = Vec::new();
    let mut i: usize = 0;
    assert(ps.take(0) =~= Seq::<Pair>::empty());
    while i < pairs.len()
        invariant
            i <= pairs.len(),
            ps == pair_views(pairs@),
            ps.len() == pairs.len(),
            out@ == joined(ps.take(i as int), separator@, quoted),
        decreases pairs.len() - i,
    {
        let ghost prefix = ps.take(i as int);
        let ghost next = ps.take(i + 1);
        assert(next.drop_last() =~= prefix);
        assert(next.last() == ps[i as int]);
        assert(ps[i as int] == (pairs@[i as int].0@, pairs@[i as int].1@));
        if i > 0 {
            out.extend_from_slice(separator);
        }
        push_rendered(&mut out, &pairs[i], quoted);
        proof {
            if i == 0 {
                assert(next[0] == ps[0]);
                assert(out@ =~= rendered(ps[0], quoted));
            } else {
                assert(out@ =~= joined(prefix, separator@, quoted) + separator@ + rendered(
                    ps[i as int],
                    quoted,
                ));
            }
        }
        i = i + 1;
    }
    assert(ps.take(i as int) =~= ps);
    out
}

/// The canonical text of the OAuth parameters and the request's parameters
/// taken together.
pub fn parameter_string(
    oauth_params: &Vec<(String, String)>,
    request_params: &Vec<(String, String)>,
    separator: &[u8],
    quoted: bool,
) -> (out: Vec<u8>)
    ensures
        out@ == parameter_text(
            param_bytes(oauth_params@),
            param_bytes(request_params@),
            separator@,
            quoted,
        ),
{
    let mut sorted: Vec<(Vec<u8>, Vec<u8>)> = Vec::new();
    assert(pair_views(sorted@) =~= Seq::<Pair>::empty());
    insert_encoded(&mut sorted, request_params);
    insert_encoded(&mut sorted, oauth_params);
    proof {
        let r = encoded_pairs(param_bytes(request_params@));
        let o = encoded_pairs(param_bytes(oauth_params@));
        lemma_inserted_all_concat(Seq::<Pair>::empty(), r, o);
        assert(r + o =~= encoded_pairs(param_bytes(request_params@) + param_bytes(oauth_params@)));
    }
    join_pairs(&sorted, separator, quoted)
}

} // verus!
