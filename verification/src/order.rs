//! Stable ordering of items by two text keys, with the proof that the result
//! is a permutation sorted strictly by (first key, second key, position).
use vstd::prelude::*;

use crate::text::{
    chars_eq, chars_less, lemma_lex_irreflexive, lemma_lex_total, lemma_lex_transitive, lex_lt,
};

verus! {

/// Item `a` comes before item `b`: by first key, then by second key, then by
/// position (so that items with equal keys keep their order).
pub open spec fn precedes(first: Seq<Seq<char>>, second: Seq<Seq<char>>, a: int, b: int) -> bool {
    let na = first[a];
    let nb = first[b];
    lex_lt(na, nb) || (na == nb && (lex_lt(second[a], second[b]) || (second[a] == second[b] && a < b)))
}

/// `order` lists items strictly in the order `precedes`.
pub open spec fn listed_in_order(first: Seq<Seq<char>>, second: Seq<Seq<char>>, order: Seq<usize>) -> bool {
    forall|x: int, y: int|
        0 <= x < y < order.len() ==> precedes(first, second, #[trigger] order[x] as int, #[trigger] order[y] as int)
}

/// The positions `0..n`.
pub open spec fn positions(n: nat) -> Seq<usize> {
    Seq::new(n, |k: int| k as usize)
}

/// `order` holds exactly the items of `chosen`.
pub open spec fn same_items(order: Seq<usize>, chosen: Seq<usize>) -> bool {
    &&& order.len() == chosen.len()
    &&& forall|k: int| 0 <= k < chosen.len() ==> order.contains(#[trigger] chosen[k])
    &&& forall|k: int| 0 <= k < order.len() ==> chosen.contains(#[trigger] order[k])
}

/// No item comes before itself.
pub proof fn lemma_precedes_irreflexive(first: Seq<Seq<char>>, second: Seq<Seq<char>>, a: int)
    ensures
        !precedes(first, second, a, a),
{
    lemma_lex_irreflexive(first[a]);
    lemma_lex_irreflexive(second[a]);
}

/// Of two different items, one comes before the other.
pub proof fn lemma_precedes_total(first: Seq<Seq<char>>, second: Seq<Seq<char>>, a: int, b: int)
    requires
        a != b,
    ensures
        precedes(first, second, a, b) || precedes(first, second, b, a),
{
    let na = first[a];
    let nb = first[b];
    if na != nb {
        lemma_lex_total(na, nb);
    } else if second[a] != second[b] {
        lemma_lex_total(second[a], second[b]);
    }
}

/// Coming before is transitive.
pub proof fn lemma_precedes_transitive(first: Seq<Seq<char>>, second: Seq<Seq<char>>, a: int, b: int, c: int)
    requires
        precedes(first, second, a, b),
        precedes(first, second, b, c),
    ensures
        precedes(first, second, a, c),
{
    let na = first[a];
    let nb = first[b];
    let nc = first[c];
    if lex_lt(na, nb) && lex_lt(nb, nc) {
        lemma_lex_transitive(na, nb, nc);
    }
    if na == nb && nb == nc && lex_lt(second[a], second[b]) && lex_lt(second[b], second[c]) {
        lemma_lex_transitive(second[a], second[b], second[c]);
    }
}

/// The texts of a vector of character vectors.
pub open spec fn char_texts(v: Seq<Vec<char>>) -> Seq<Seq<char>> {
    v.map_values(|s: Vec<char>| s@)
}

fn key_precedes(keys: &Vec<Vec<char>>, second: &Vec<Vec<char>>, a: usize, b: usize) -> (r: bool)
    requires
        a < keys.len(),
        b < keys.len(),
        keys.len() == second.len(),
    ensures
        r == precedes(char_texts(keys@), char_texts(second@), a as int, b as int),
{
    if chars_less(&keys[a], &keys[b]) {
        true
    } else if !chars_eq(&keys[a], &keys[b]) {
        false
    } else if chars_less(&second[a], &second[b]) {
        true
    } else {
        chars_eq(&second[a], &second[b]) && a < b
    }
}

/// Orders the items `chosen` (positions into `keys` and `tiebreak`, given in
/// increasing order) by `keys`, then `tiebreak`; items that tie on both keep
/// their order (the order of a stable sort).
pub fn keyed_order(keys: &Vec<Vec<char>>, idv: &Vec<Vec<char>>, chosen: &Vec<usize>) -> (order: Vec<usize>)
    requires
        keys.len() == idv.len(),
        forall|k: int| 0 <= k < chosen.len() ==> #[trigger] chosen[k] < keys.len(),
        forall|x: int, y: int| 0 <= x < y < chosen.len() ==> #[trigger] chosen[x] < #[trigger] chosen[y],
    ensures
        same_items(order@, chosen@),
        listed_in_order(char_texts(keys@), char_texts(idv@), order@),
{
    let ghost nt = char_texts(keys@);
    let ghost it = char_texts(idv@);
    let mut order: Vec<usize> = Vec::new();
    let mut i: usize = 0;
    while i < chosen.len()
        invariant
            i <= chosen.len(),
            keys.len() == idv.len(),
            nt == char_texts(keys@),
            it == char_texts(idv@),
            forall|k: int| 0 <= k < chosen.len() ==> #[trigger] chosen[k] < keys.len(),
            forall|x: int, y: int| 0 <= x < y < chosen.len() ==> #[trigger] chosen[x] < #[trigger] chosen[y],
            same_items(order@, chosen@.take(i as int)),
            listed_in_order(nt, it, order@),
        decreases chosen.len() - i,
    {
        let c = chosen[i];
        // every station already placed comes from an earlier position
        assert forall|k: int| 0 <= k < order.len() implies #[trigger] order@[k] < c by {
            assert(chosen@.take(i as int).contains(order@[k]));
            let w = choose|w: int| 0 <= w < i && chosen@.take(i as int)[w] == order@[k];
            assert(chosen@[w] == order@[k]);
        }
        let mut p: usize = 0;
        while p < order.len() && !key_precedes(&keys, &idv, c, order[p])
            invariant
                p <= order.len(),
                c < keys.len() == idv.len(),
                nt == char_texts(keys@),
                it == char_texts(idv@),
                forall|k: int| 0 <= k < order.len() ==> #[trigger] order@[k] < keys.len(),
                forall|k: int| 0 <= k < p ==> !precedes(nt, it, c as int, #[trigger] order@[k] as int),
            decreases order.len() - p,
        {
            p += 1;
        }
        let ghost before = order@;
        proof {
            assert forall|k: int| 0 <= k < p implies precedes(nt, it, #[trigger] before[k] as int, c as int) by {
                assert(before[k] != c);
                lemma_precedes_total(nt, it, c as int, before[k] as int);
            }
            assert forall|k: int| p <= k < before.len() implies precedes(nt, it, c as int, #[trigger] before[k] as int) by {
                if k > p {
                    lemma_precedes_transitive(nt, it, c as int, before[p as int] as int, before[k] as int);
                }
            }
        }
        order.insert(p, c);
        proof {
            assert(order@ == before.insert(p as int, c));
            assert forall|x: int, y: int| 0 <= x < y < order@.len() implies precedes(
                nt,
                it,
                #[trigger] order@[x] as int,
                #[trigger] order@[y] as int,
            ) by {
                if y < p {
                    assert(order@[x] == before[x] && order@[y] == before[y]);
                } else if y == p {
                    assert(order@[x] == before[x]);
                } else if x < p {
                    assert(order@[x] == before[x] && order@[y] == before[y - 1]);
                    lemma_precedes_transitive(nt, it, before[x] as int, c as int, before[y - 1] as int);
                } else if x == p {
                    assert(order@[y] == before[y - 1]);
                } else {
                    assert(order@[x] == before[x - 1] && order@[y] == before[y - 1]);
                }
            }
            let ghost taken = chosen@.take(i + 1);
            assert(taken == chosen@.take(i as int).push(c));
            assert forall|k: int| 0 <= k < taken.len() implies order@.contains(#[trigger] taken[k]) by {
                if k < i {
                    assert(chosen@.take(i as int)[k] == taken[k]);
                    assert(before.contains(taken[k]));
                    let w = choose|w: int| 0 <= w < before.len() && before[w] == taken[k];
                    if w < p {
                        assert(order@[w] == taken[k]);
                    } else {
                        assert(order@[w + 1] == taken[k]);
                    }
                } else {
                    assert(order@[p as int] == c);
                }
            }
            assert forall|k: int| 0 <= k < order@.len() implies taken.contains(#[trigger] order@[k]) by {
                if k == p {
                    assert(taken[i as int] == c);
                } else {
                    let e = if k < p { before[k] } else { before[k - 1] };
                    assert(order@[k] == e);
                    assert(chosen@.take(i as int).contains(e));
                    let w = choose|w: int| 0 <= w < i && chosen@.take(i as int)[w] == e;
                    assert(taken[w] == e);
                }
            }
        }
        i += 1;
    }
    assert(chosen@.take(chosen.len() as int) =~= chosen@);
    order
}

} // verus!
