//! Problem names: which are valid, and the title that a valid one stands for.

use vstd::prelude::*;
use crate::sequences::lemma_flatten_push;
use crate::text::{chars_of, is_lowercase_char, to_uppercase, uppercase_of};

verus! {

/// A character that may occur in a problem name: a lowercase letter, an ASCII
/// digit or a hyphen.
pub open spec fn name_char(c: char) -> bool {
    is_lowercase_char(c) || ('0' <= c && c <= '9') || c == '-'
}

/// A problem name is valid when every character of it is a name character.
/// The empty name is valid.
pub open spec fn valid_problem_name(name: Seq<char>) -> bool {
    forall|i: int| 0 <= i < name.len() ==> name_char(#[trigger] name[i])
}

/// What the character at `i` contributes to the title: a hyphen becomes a
/// space, the first character of a word becomes its uppercase form, and any
/// other character stays.
pub open spec fn title_piece(name: Seq<char>, i: int) -> Seq<char> {
    if name[i] == '-' {
        seq![' ']
    } else if i == 0 || name[i - 1] == '-' {
        uppercase_of(name[i])
    } else {
        seq![name[i]]
    }
}

/// The pieces of all characters of `name`, in order.
pub open spec fn title_pieces(name: Seq<char>) -> Seq<Seq<char>> {
    Seq::new(name.len(), |i: int| title_piece(name, i))
}

/// The title that a problem name stands for: its words capitalised and
/// separated by single spaces in place of the hyphens.
pub open spec fn title_of(name: Seq<char>) -> Seq<char> {
    title_pieces(name).flatten()
}

/// Whether `name` can name a problem.
pub fn is_valid_problem_name(name: &str) -> (valid: bool)
    ensures
        valid == valid_problem_name(name@),
{
    let chars = chars_of(name);
    let mut i: usize = 0;
    while i < chars.len()
        invariant
            i <= chars.len(),
            chars@ == name@,
            forall|j: int| 0 <= j < i ==> name_char(#[trigger] chars@[j]),
        decreases chars.len() - i,
    {
        let c = chars[i];
        if !(c.is_lowercase() || ('0' <= c && c <= '9') || c == '-') {
            assert(!name_char(name@[i as int]));
            return false;
        }
        i += 1;
    }
    true
}

/// Turns a valid problem name into a title: `two-sum` becomes `Two Sum`.
pub fn reformat_valid_name(name: &str) -> (title: String)
    requires
        valid_problem_name(name@),
    ensures
        title@ == title_of(name@),
{
    let chars = chars_of(name);
    let mut title = String::new();
    let mut word_start = true;
    let mut i: usize = 0;
    assert(title_pieces(name@).take(0) =~= Seq::<Seq<char>>::empty());
    while i < chars.len()
        invariant
            i <= chars.len(),
            chars@ == name@,
            word_start == (i == 0 || chars@[i - 1] == '-'),
            title@ == title_pieces(name@).take(i as int).flatten(),
        decreases chars.len() - i,
    {
        let c = chars[i];
        let ghost before = title@;
        if c == '-' {
            title.push(' ');
            assert(title@ =~= before + seq![' ']);
        } else if word_start {
            let upper = to_uppercase(c);
            let mut k: usize = 0;
            while k < upper.len()
                invariant
                    k <= upper.len(),
                    title@ == before + upper@.take(k as int),
                decreases upper.len() - k,
            {
                title.push(upper[k]);
                assert(upper@.take(k + 1) =~= upper@.take(k as int).push(upper@[k as int]));
                k += 1;
            }
            assert(upper@.take(upper.len() as int) =~= upper@);
        } else {
            title.push(c);
            assert(title@ =~= before + seq![c]);
        }
        proof {
            let pieces = title_pieces(name@);
            assert(pieces.take(i + 1) =~= pieces.take(i as int).push(title_piece(name@, i as int)));
            lemma_flatten_push(pieces.take(i as int), title_piece(name@, i as int));
        }
        word_start = c == '-';
        i += 1;
    }
    assert(title_pieces(name@).take(chars.len() as int) =~= title_pieces(name@));
    title
}

/// The title for `name`, or `None` when `name` is not a valid problem name.
pub fn reformat_name(name: &str) -> (title: Option<String>)
    ensures
        match title {
            Some(t) => valid_problem_name(name@) && t@ == title_of(name@),
            None => !valid_problem_name(name@),
        },
{
    if is_valid_problem_name(name) {
        Some(reformat_valid_name(name))
    } else {
        None
    }
}

} // verus!
