//! Facts about sequences that the rest of the library leans on.

use vstd::prelude::*;
use vstd::seq_lib::lemma_flatten_concat;

verus! {

/// The index that `index_of_first` gives is the one before which `x` does not
/// occur, and there is none when `x` does not occur.
pub proof fn lemma_index_of_first<A>(s: Seq<A>, x: A, k: Option<int>)
    requires
        match k {
            Some(i) => 0 <= i < s.len() && s[i] == x && forall|j: int| 0 <= j < i ==> s[j] != x,
            None => forall|j: int| 0 <= j < s.len() ==> s[j] != x,
        },
    ensures
        s.index_of_first(x) == k,
{
    s.index_of_first_ensures(x);
    match k {
        Some(i) => {
            assert(s.contains(x));
        },
        None => {
            if s.contains(x) {
                let w = choose|j: int| 0 <= j < s.len() && s[j] == x;
                assert(s[w] == x);
            }
        },
    }
}

/// The index that `index_of_last` gives is the one after which `x` does not
/// occur again, and there is none when `x` does not occur.
pub proof fn lemma_index_of_last<A>(s: Seq<A>, x: A, k: Option<int>)
    requires
        match k {
            Some(i) => 0 <= i < s.len() && s[i] == x && forall|j: int|
                i < j < s.len() ==> s[j] != x,
            None => forall|j: int| 0 <= j < s.len() ==> s[j] != x,
        },
    ensures
        s.index_of_last(x) == k,
{
    s.index_of_last_ensures(x);
    match k {
        Some(i) => {
            assert(s.contains(x));
        },
        None => {
            if s.contains(x) {
                let w = choose|j: int| 0 <= j < s.len() && s[j] == x;
                assert(s[w] == x);
            }
        },
    }
}

/// Flattening with one more piece at the end appends that piece.
pub proof fn lemma_flatten_push<A>(pieces: Seq<Seq<A>>, last: Seq<A>)
    ensures
        pieces.push(last).flatten() == pieces.flatten() + last,
{
    seq![last].lemma_flatten_one_element();
    lemma_flatten_concat(pieces, seq![last]);
    assert(pieces + seq![last] =~= pieces.push(last));
}

} // verus!
