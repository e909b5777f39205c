//! The order of texts, and lists of texts in that order.
//!
//! Texts are ordered as strings are: byte by byte in their UTF-8 encoding,
//! the shorter first where one starts the other.

use vstd::prelude::*;
use vstd::relations::*;
use vstd::seq_lib::*;
use vstd::string::*;
use vstd::utf8::*;

use crate::text::texts;

verus! {

/// Whether `a` comes before `b`, byte by byte.
pub open spec fn bytes_before(a: Seq<u8>, b: Seq<u8>) -> bool
    decreases a.len(),
{
    if b.len() == 0 {
        false
    } else if a.len() == 0 {
        true
    } else if a[0] != b[0] {
        a[0] < b[0]
    } else {
        bytes_before(a.drop_first(), b.drop_first())
    }
}

/// Whether the text `a` comes before the text `b`.
pub open spec fn before(a: Seq<char>, b: Seq<char>) -> bool {
    bytes_before(encode_utf8(a), encode_utf8(b))
}

/// Whether no text of `list` comes before one that precedes it in the
/// list.
pub open spec fn ordered(list: Seq<Seq<char>>) -> bool {
    forall|i: int, j: int| 0 <= i < j < list.len() ==> !before(#[trigger] list[j], #[trigger] list[i])
}

/// The order of texts: `a` is at most `b` where `b` does not come before
/// `a`.
pub open spec fn text_leq() -> spec_fn(Seq<char>, Seq<char>) -> bool {
    |a: Seq<char>, b: Seq<char>| !before(b, a)
}

/// The texts of `list` in order, each as often as it stands in `list`.
pub open spec fn sorted_texts(list: Seq<Seq<char>>) -> Seq<Seq<char>> {
    list.sort_by(text_leq())
}

/// `list` without each text that repeats the one before it.
pub open spec fn deduped(list: Seq<Seq<char>>) -> Seq<Seq<char>>
    decreases list.len(),
{
    if list.len() <= 1 {
        list
    } else if list.last() == list[list.len() - 2] {
        deduped(list.drop_last())
    } else {
        deduped(list.drop_last()).push(list.last())
    }
}

/// No text comes before itself.
pub proof fn lemma_before_irreflexive(a: Seq<u8>)
    ensures
        !bytes_before(a, a),
    decreases a.len(),
{
    if a.len() > 0 {
        lemma_before_irreflexive(a.drop_first());
    }
}

/// What comes before a text comes before all that the text comes before.
pub proof fn lemma_before_transitive(a: Seq<u8>, b: Seq<u8>, c: Seq<u8>)
    requires
        bytes_before(a, b),
        bytes_before(b, c),
    ensures
        bytes_before(a, c),
    decreases a.len(),
{
    if a.len() > 0 && a[0] == b[0] && b[0] == c[0] {
        lemma_before_transitive(a.drop_first(), b.drop_first(), c.drop_first());
    }
}

/// Of two texts that differ, one comes before the other.
pub proof fn lemma_before_total(a: Seq<u8>, b: Seq<u8>)
    ensures
        bytes_before(a, b) || bytes_before(b, a) || a == b,
    decreases a.len(),
{
    if a.len() > 0 && b.len() > 0 && a[0] == b[0] {
        lemma_before_total(a.drop_first(), b.drop_first());
        if a.drop_first() == b.drop_first() {
            assert(a =~= seq![a[0]] + a.drop_first());
            assert(b =~= seq![b[0]] + b.drop_first());
        }
    } else if a.len() == 0 && b.len() == 0 {
        assert(a =~= b);
    }
}

/// Of two texts exactly one holds: the first comes before the second, the
/// second before the first, or they are the same text.
pub proof fn lemma_texts_in_order(a: Seq<char>, b: Seq<char>)
    ensures
        before(a, b) || before(b, a) || a == b,
        !(before(a, b) && before(b, a)),
        !before(a, a),
{
    lemma_before_total(encode_utf8(a), encode_utf8(b));
    lemma_before_irreflexive(encode_utf8(a));
    if before(a, b) && before(b, a) {
        lemma_before_transitive(encode_utf8(a), encode_utf8(b), encode_utf8(a));
    }
    if encode_utf8(a) == encode_utf8(b) {
        encode_utf8_decode_utf8(a);
        encode_utf8_decode_utf8(b);
    }
}

/// Whether `a` comes before `b`.
pub fn comes_before(a: &str, b: &str) -> (first: bool)
    ensures
        first == before(a@, b@),
{
    let x = a.as_bytes();
    let y = b.as_bytes();
    let mut i: usize = 0;
    proof {
        assert(x@.skip(0) =~= x@);
        assert(y@.skip(0) =~= y@);
    }
    while i < x.len() && i < y.len()
        invariant
            i <= x@.len(),
            i <= y@.len(),
            x@ == encode_utf8(a@),
            y@ == encode_utf8(b@),
            bytes_before(x@, y@) == bytes_before(x@.skip(i as int), y@.skip(i as int)),
        decreases x@.len() - i,
    {
        proof {
            assert(x@.skip(i as int)[0] == x@[i as int]);
            assert(y@.skip(i as int)[0] == y@[i as int]);
        }
        if x[i] != y[i] {
            return x[i] < y[i];
        }
        proof {
            assert(x@.skip(i as int).drop_first() =~= x@.skip(i + 1));
            assert(y@.skip(i as int).drop_first() =~= y@.skip(i + 1));
        }
        i += 1;
    }
    i < y.len()
}

/// What comes before a text comes before all that do not come before
/// that text.
pub proof fn lemma_before_then_not_after(a: Seq<char>, b: Seq<char>, c: Seq<char>)
    requires
        before(a, b),
        !before(c, b),
    ensures
        before(a, c),
{
    lemma_texts_in_order(b, c);
    if before(b, c) {
        lemma_before_transitive(encode_utf8(a), encode_utf8(b), encode_utf8(c));
    }
}

/// Puts `text` into `sorted` where the order has it.
fn insert_sorted(sorted: &mut Vec<String>, text: String)
    requires
        ordered(texts(old(sorted)@)),
    ensures
        ordered(texts(final(sorted)@)),
        texts(final(sorted)@).to_multiset() == texts(old(sorted)@).to_multiset().insert(text@),
{
    let ghost before_insert = texts(sorted@);
    let mut at: usize = 0;
    while at < sorted.len() && !comes_before(text.as_str(), sorted[at].as_str())
        invariant
            at <= sorted@.len(),
            sorted@ == old(sorted)@,
            forall|i: int| 0 <= i < at ==> !before(text@, #[trigger] texts(sorted@)[i]),
        decreases sorted@.len() - at,
    {
        at += 1;
    }
    sorted.insert(at, text);
    proof {
        let after = texts(sorted@);
        assert(after =~= before_insert.insert(at as int, text@));
        to_multiset_insert(before_insert, at as int, text@);
        assert forall|i: int, j: int| 0 <= i < j < after.len() implies !before(
            #[trigger] after[j],
            #[trigger] after[i],
        ) by {
            if j == at {
                assert(after[i] == before_insert[i]);
            } else if i == at {
                let first = before_insert[at as int];
                assert(after[j] == before_insert[j - 1]);
                if j - 1 > at {
                    lemma_before_then_not_after(text@, first, before_insert[j - 1]);
                }
                lemma_texts_in_order(text@, before_insert[j - 1]);
            } else {
                let from = if i < at {
                    i
                } else {
                    i - 1
                };
                let to = if j < at {
                    j
                } else {
                    j - 1
                };
                assert(after[i] == before_insert[from]);
                assert(after[j] == before_insert[to]);
            }
        }
    }
}

/// The texts of `list` in order, each as often as it stands in `list`.
pub fn sorted(list: Vec<String>) -> (sorted: Vec<String>)
    ensures
        texts(sorted@) == sorted_texts(texts(list@)),
{
    let mut sorted: Vec<String> = Vec::new();
    let mut list = list;
    let ghost all = texts(list@);
    proof {
        assert(texts(sorted@) =~= Seq::<Seq<char>>::empty());
        assert(all + texts(sorted@) =~= all);
    }
    while list.len() > 0
        invariant
            ordered(texts(sorted@)),
            (texts(list@) + texts(sorted@)).to_multiset() == all.to_multiset(),
        decreases list@.len(),
    {
        let ghost rest = texts(list@);
        let ghost had = texts(sorted@);
        let text = match list.pop() {
            Some(text) => text,
            None => String::new(),
        };
        insert_sorted(&mut sorted, text);
        proof {
            assert(texts(list@) =~= rest.drop_last());
            assert(rest.last() == text@);
            assert(rest =~= rest.drop_last().push(text@));
            lemma_multiset_commutative(rest, had);
            lemma_multiset_commutative(rest.drop_last(), texts(sorted@));
            to_multiset_build(rest.drop_last(), text@);
            assert((texts(list@) + texts(sorted@)).to_multiset() =~= all.to_multiset());
        }
    }
    proof {
        assert(texts(list@) + texts(sorted@) =~= texts(sorted@));
        lemma_ordered_is_sorted(all, texts(sorted@));
    }
    sorted
}

/// Texts are in a total order.
pub proof fn lemma_text_order_is_total()
    ensures
        total_ordering(text_leq()),
{
    let leq = text_leq();
    assert forall|x: Seq<char>| #[trigger] leq(x, x) by {
        lemma_texts_in_order(x, x);
    }
    assert forall|x: Seq<char>, y: Seq<char>| #[trigger] leq(x, y) && #[trigger] leq(y, x) implies x
        == y by {
        lemma_texts_in_order(x, y);
    }
    assert forall|x: Seq<char>, y: Seq<char>, z: Seq<char>| #[trigger] leq(x, y) && #[trigger] leq(
        y,
        z,
    ) implies leq(x, z) by {
        if before(z, x) {
            lemma_before_then_not_after(z, x, y);
        }
    }
    assert forall|x: Seq<char>, y: Seq<char>| #[trigger] leq(x, y) || #[trigger] leq(y, x) by {
        lemma_texts_in_order(x, y);
    }
}

/// A list in order that holds what `list` holds is `list` sorted.
pub proof fn lemma_ordered_is_sorted(list: Seq<Seq<char>>, in_order: Seq<Seq<char>>)
    requires
        ordered(in_order),
        in_order.to_multiset() == list.to_multiset(),
    ensures
        in_order == sorted_texts(list),
{
    lemma_text_order_is_total();
    list.lemma_sort_by_ensures(text_leq());
    assert(sorted_by(in_order, text_leq()));
    lemma_sorted_unique(in_order, sorted_texts(list), text_leq());
}

/// A sorted list without its repetitions is strictly ascending, and it
/// holds each text of the list, and no other.
pub proof fn lemma_deduped_ascends(list: Seq<Seq<char>>)
    requires
        ordered(list),
    ensures
        forall|i: int, j: int|
            0 <= i < j < deduped(list).len() ==> before(
                #[trigger] deduped(list)[i],
                #[trigger] deduped(list)[j],
            ),
        forall|text: Seq<char>| deduped(list).contains(text) <==> list.contains(text),
        deduped(list).len() <= list.len(),
        list.len() > 0 ==> deduped(list).len() > 0 && deduped(list).last() == list.last(),
    decreases list.len(),
{
    if list.len() > 1 {
        let shorter = list.drop_last();
        lemma_deduped_ascends(shorter);
        let kept = deduped(shorter);
        let out = deduped(list);
        assert(shorter.last() == list[list.len() - 2]);
        assert forall|text: Seq<char>| out.contains(text) <==> list.contains(text) by {
            if list.contains(text) {
                let i = choose|i: int| 0 <= i < list.len() && list[i] == text;
                if i < list.len() - 1 {
                    assert(shorter[i] == text);
                    assert(shorter.contains(text));
                    assert(kept.contains(text));
                    let k = choose|k: int| 0 <= k < kept.len() && kept[k] == text;
                    assert(out[k] == text);
                } else if list.last() == list[list.len() - 2] {
                    assert(kept.last() == text);
                } else {
                    assert(out.last() == text);
                }
            }
            if out.contains(text) {
                let k = choose|k: int| 0 <= k < out.len() && out[k] == text;
                if k < kept.len() {
                    assert(kept[k] == text);
                    assert(shorter.contains(text));
                    let i = choose|i: int| 0 <= i < shorter.len() && shorter[i] == text;
                    assert(list[i] == text);
                } else {
                    assert(list[list.len() - 1] == text);
                }
            }
        }
        if list.last() != list[list.len() - 2] {
            assert forall|i: int, j: int| 0 <= i < j < out.len() implies before(
                #[trigger] out[i],
                #[trigger] out[j],
            ) by {
                if j == out.len() - 1 {
                    assert(out[i] == kept[i]);
                    lemma_texts_in_order(list[list.len() - 2], list.last());
                    if i < kept.len() - 1 {
                        lemma_before_transitive(
                            encode_utf8(kept[i]),
                            encode_utf8(kept.last()),
                            encode_utf8(list.last()),
                        );
                    }
                } else {
                    assert(out[i] == kept[i]);
                    assert(out[j] == kept[j]);
                }
            }
        }
    } else if list.len() == 1 {
        assert(list[0] == list.last());
    }
}

/// `list` without each text that repeats the one before it.
pub fn dedup(list: Vec<String>) -> (out: Vec<String>)
    ensures
        texts(out@) == deduped(texts(list@)),
{
    let mut out: Vec<String> = Vec::new();
    let mut list = list;
    let ghost all = texts(list@);
    let mut i: usize = 0;
    proof {
        assert(texts(out@) =~= deduped(all.take(0)));
    }
    while i < list.len()
        invariant
            i <= list.len(),
            all == texts(list@),
            texts(out@) == deduped(all.take(i as int)),
            i > 0 ==> out@.len() > 0 && out@.last()@ == all[i - 1],
        decreases list.len() - i,
    {
        let ghost had = texts(out@);
        let repeats = i > 0 && !comes_before(out[out.len() - 1].as_str(), list[i].as_str())
            && !comes_before(list[i].as_str(), out[out.len() - 1].as_str());
        proof {
            let upto = all.take(i + 1);
            assert(upto.drop_last() =~= all.take(i as int));
            assert(upto.last() == all[i as int]);
            if i > 0 {
                assert(upto[upto.len() - 2] == all[i - 1]);
                lemma_texts_in_order(all[i - 1], all[i as int]);
            }
        }
        if !repeats {
            let text = list[i].clone();
            out.push(text);
            assert(texts(out@) =~= had.push(all[i as int]));
        }
        i += 1;
    }
    proof {
        assert(all.take(list.len() as int) =~= all);
    }
    out
}

} // verus!
