//! Text as sequences of characters: what the library needs of strings and
//! characters, and what it takes on trust from the standard library.

use vstd::prelude::*;

verus! {

/// Whether `c` is a lowercase character: the answer of `char::is_lowercase`,
/// which goes by the Unicode property `Lowercase`.
pub uninterp spec fn is_lowercase_char(c: char) -> bool;

/// The uppercase form of `c`: the characters that `char::to_uppercase`
/// yields, in order. There may be more than one.
pub uninterp spec fn uppercase_of(c: char) -> Seq<char>;

/// Whether `c` is whitespace: the answer of `char::is_whitespace`, which goes
/// by the Unicode property `White_Space`.
pub uninterp spec fn is_whitespace_char(c: char) -> bool;

/// Assumed of `char::is_whitespace`, not proved: its answer depends on the
/// character alone. Which characters are whitespace is left to it.
pub assume_specification[ char::is_whitespace ](c: char) -> (r: bool)
    ensures
        r == is_whitespace_char(c),
;

/// Assumed of `char::is_lowercase`, not proved: its answer depends on the
/// character alone. Which characters are lowercase is left to it.
pub assume_specification[ char::is_lowercase ](c: char) -> (r: bool)
    ensures
        r == is_lowercase_char(c),
;

/// Assumed of `String::push`, not proved: afterwards the string holds what it
/// held before, followed by `c`.
pub assume_specification[ String::push ](s: &mut String, c: char)
    ensures
        final(s)@ == old(s)@.push(c),
;

/// Calls `char::to_uppercase` and collects what it yields. Assumed, not
/// proved: the characters depend on `c` alone. What they are is left to it.
#[verifier::external_body]
pub(crate) fn to_uppercase(c: char) -> (r: Vec<char>)
    ensures
        r@ == uppercase_of(c),
{
    c.to_uppercase().collect()
}

/// The characters of `s`, in order.
pub fn chars_of(s: &str) -> (v: Vec<char>)
    ensures
        v@ == s@,
{
    let mut v: Vec<char> = Vec::new();
    for c in it: s.chars()
        invariant
            v@ == it.seq().take(it.index() as int),
            it.seq() == s@,
    {
        v.push(c);
    }
    v
}

/// The string made of `chars[from..to]`.
pub(crate) fn string_of(chars: &Vec<char>, from: usize, to: usize) -> (s: String)
    requires
        from <= to <= chars.len(),
    ensures
        s@ == chars@.subrange(from as int, to as int),
{
    let mut s = String::new();
    let mut i: usize = from;
    while i < to
        invariant
            from <= i <= to <= chars.len(),
            s@ == chars@.subrange(from as int, i as int),
        decreases to - i,
    {
        s.push(chars[i]);
        i += 1;
    }
    s
}

/// Whether two strings hold the same characters.
pub fn same_text(a: &str, b: &str) -> (r: bool)
    ensures
        r == (a@ == b@),
{
    let x = chars_of(a);
    let y = chars_of(b);
    if x.len() != y.len() {
        return false;
    }
    let mut i: usize = 0;
    while i < x.len()
        invariant
            i <= x.len(),
            x.len() == y.len(),
            x@ == a@,
            y@ == b@,
            forall|j: int| 0 <= j < i ==> x@[j] == y@[j],
        decreases x.len() - i,
    {
        if x[i] != y[i] {
            return false;
        }
        i += 1;
    }
    assert(x@ =~= y@);
    true
}

/// `s` without the whitespace it begins with.
pub open spec fn trimmed_start(s: Seq<char>) -> Seq<char>
    decreases s.len(),
{
    if s.len() > 0 && is_whitespace_char(s.first()) {
        trimmed_start(s.drop_first())
    } else {
        s
    }
}

/// `s` without the whitespace it ends with.
pub open spec fn trimmed_end(s: Seq<char>) -> Seq<char>
    decreases s.len(),
{
    if s.len() > 0 && is_whitespace_char(s.last()) {
        trimmed_end(s.drop_last())
    } else {
        s
    }
}

/// `s` without the whitespace around it.
pub open spec fn trimmed(s: Seq<char>) -> Seq<char> {
    trimmed_end(trimmed_start(s))
}

/// The pieces of `s` between its separators, in order: one more than there
/// are separators, so at least one, and any of them may be empty.
pub open spec fn split(s: Seq<char>, separator: char) -> Seq<Seq<char>>
    decreases s.len(),
{
    match s.index_of_last(separator) {
        Some(i) => {
            proof {
                s.index_of_last_ensures(separator);
            }
            split(s.take(i), separator).push(s.skip(i + 1))
        },
        None => seq![s],
    }
}

proof fn lemma_trimmed_start(s: Seq<char>, a: int)
    requires
        0 <= a <= s.len(),
        forall|j: int| 0 <= j < a ==> is_whitespace_char(s[j]),
        a < s.len() ==> !is_whitespace_char(s[a]),
    ensures
        trimmed_start(s) == s.skip(a),
    decreases a,
{
    if a == 0 {
        assert(s.skip(0) =~= s);
    } else {
        let rest = s.drop_first();
        assert forall|j: int| 0 <= j < a - 1 implies is_whitespace_char(rest[j]) by {
            assert(rest[j] == s[j + 1]);
        }
        lemma_trimmed_start(rest, a - 1);
        assert(rest.skip(a - 1) =~= s.skip(a));
    }
}

proof fn lemma_trimmed_end(s: Seq<char>, b: int)
    requires
        0 <= b <= s.len(),
        forall|j: int| b <= j < s.len() ==> is_whitespace_char(s[j]),
        0 < b ==> !is_whitespace_char(s[b - 1]),
    ensures
        trimmed_end(s) == s.take(b),
    decreases s.len() - b,
{
    if b == s.len() {
        assert(s.take(b) =~= s);
    } else {
        let rest = s.drop_last();
        lemma_trimmed_end(rest, b);
        assert(rest.take(b) =~= s.take(b));
    }
}

/// The characters `chars[from..to]` without the whitespace around them.
pub(crate) fn trim_range(chars: &Vec<char>, from: usize, to: usize) -> (s: String)
    requires
        from <= to <= chars.len(),
    ensures
        s@ == trimmed(chars@.subrange(from as int, to as int)),
{
    let ghost whole = chars@.subrange(from as int, to as int);
    let mut a: usize = from;
    while a < to && chars[a].is_whitespace()
        invariant
            from <= a <= to <= chars.len(),
            forall|j: int| from <= j < a ==> is_whitespace_char(chars@[j]),
        decreases to - a,
    {
        a += 1;
    }
    let mut b: usize = to;
    while a < b && chars[b - 1].is_whitespace()
        invariant
            a <= b <= to <= chars.len(),
            forall|j: int| b <= j < to ==> is_whitespace_char(chars@[j]),
        decreases b,
    {
        b -= 1;
    }
    proof {
        lemma_trimmed_start(whole, a - from);
        let middle = whole.skip(a - from);
        assert(middle =~= chars@.subrange(a as int, to as int));
        lemma_trimmed_end(middle, b - a);
        assert(middle.take(b - a) =~= chars@.subrange(a as int, b as int));
    }
    string_of(chars, a, b)
}

/// `s` without the whitespace around it.
pub fn trim(s: &str) -> (t: String)
    ensures
        t@ == trimmed(s@),
{
    let chars = chars_of(s);
    assert(chars@.subrange(0, chars.len() as int) =~= s@);
    trim_range(&chars, 0, chars.len())
}

} // verus!
