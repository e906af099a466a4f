//! Small text tools that the other modules share: decimal rendering of
//! integers, and membership of a name in a list of names.

use vstd::prelude::*;
use vstd::string::*;

verus! {

/// The text of each string of `v`, in order.
pub open spec fn texts(v: Seq<String>) -> Seq<Seq<char>> {
    v.map_values(|s: String| s@)
}

/// `String::push` of the standard library appends one character to the end
/// of the string and leaves the rest as it was.
pub assume_specification[ String::push ](s: &mut String, c: char)
    ensures
        final(s)@ == old(s)@.push(c),
;

/// The character of one decimal digit.
pub open spec fn digit_char(d: int) -> char {
    if d == 0 {
        '0'
    } else if d == 1 {
        '1'
    } else if d == 2 {
        '2'
    } else if d == 3 {
        '3'
    } else if d == 4 {
        '4'
    } else if d == 5 {
        '5'
    } else if d == 6 {
        '6'
    } else if d == 7 {
        '7'
    } else if d == 8 {
        '8'
    } else {
        '9'
    }
}

/// The decimal digits of a natural number, most significant first, without
/// leading zeros (zero itself is the single digit `0`).
pub open spec fn decimal_digits(n: nat) -> Seq<char>
    decreases n,
{
    if n < 10 {
        seq![digit_char(n as int)]
    } else {
        decimal_digits(n / 10).push(digit_char((n % 10) as int))
    }
}

/// The decimal text of an integer: its digits, after a minus sign where it
/// is negative.
pub open spec fn decimal(i: int) -> Seq<char> {
    if i < 0 {
        seq!['-'] + decimal_digits((-i) as nat)
    } else {
        decimal_digits(i as nat)
    }
}

fn digit(d: u64) -> (c: char)
    requires
        d < 10,
    ensures
        c == digit_char(d as int),
{
    if d == 0 {
        '0'
    } else if d == 1 {
        '1'
    } else if d == 2 {
        '2'
    } else if d == 3 {
        '3'
    } else if d == 4 {
        '4'
    } else if d == 5 {
        '5'
    } else if d == 6 {
        '6'
    } else if d == 7 {
        '7'
    } else if d == 8 {
        '8'
    } else {
        '9'
    }
}

/// Appends the decimal digits of `n` to `out`.
pub fn push_digits(out: &mut String, n: u64)
    ensures
        final(out)@ == old(out)@ + decimal_digits(n as nat),
    decreases n,
{
    if n >= 10 {
        push_digits(out, n / 10);
    }
    out.push(digit(n % 10));
}

/// Appends the decimal text of `i` to `out`.
pub fn push_decimal(out: &mut String, i: i32)
    ensures
        final(out)@ == old(out)@ + decimal(i as int),
{
    if i < 0 {
        out.push('-');
        let magnitude: u64 = (-(i as i64)) as u64;
        push_digits(out, magnitude);
    } else {
        push_digits(out, i as u64);
    }
}

/// `i` is the first position at which `flags` holds `true`.
pub open spec fn is_first_true(flags: Seq<bool>, i: int) -> bool {
    &&& 0 <= i < flags.len()
    &&& flags[i]
    &&& forall|k: int| 0 <= k < i ==> !flags[k]
}

/// The first position at which `flags` holds `true`, if there is one.
pub open spec fn first_true(flags: Seq<bool>) -> Option<int> {
    if exists|i: int| 0 <= i < flags.len() && flags[i] {
        Some(choose|i: int| is_first_true(flags, i))
    } else {
        None
    }
}

/// The first position is unique.
pub proof fn lemma_first_true_some(flags: Seq<bool>, i: int)
    requires
        is_first_true(flags, i),
    ensures
        first_true(flags) == Some(i),
{
    let c = choose|c: int| is_first_true(flags, c);
    // Of two first positions neither comes before the other.
    assert(!(c < i) && !(i < c));
}

/// Where no flag is `true`, there is no first position.
pub proof fn lemma_first_true_none(flags: Seq<bool>)
    requires
        forall|k: int| 0 <= k < flags.len() ==> !flags[k],
    ensures
        first_true(flags) is None,
{
}

/// Where there is a first position, it is one.
pub proof fn lemma_first_true_is_first(flags: Seq<bool>)
    requires
        first_true(flags) is Some,
    ensures
        is_first_true(flags, first_true(flags).unwrap()),
{
    let w = choose|i: int| 0 <= i < flags.len() && flags[i];
    lemma_least_true(flags, w);
}

proof fn lemma_least_true(flags: Seq<bool>, w: int)
    requires
        0 <= w < flags.len(),
        flags[w],
    ensures
        exists|i: int| is_first_true(flags, i),
    decreases w,
{
    if exists|k: int| 0 <= k < w && flags[k] {
        let k = choose|k: int| 0 <= k < w && flags[k];
        lemma_least_true(flags, k);
    } else {
        assert(is_first_true(flags, w));
    }
}

/// Whether `name` is one of `names`.
pub open spec fn listed(names: Seq<String>, name: Seq<char>) -> bool {
    exists|i: int| 0 <= i < names.len() && (#[trigger] names[i])@ == name
}

/// Tells whether `name` is one of `names`.
pub fn contains_name(names: &Vec<String>, name: &String) -> (found: bool)
    ensures
        found == listed(names@, name@),
{
    let mut i: usize = 0;
    while i < names.len()
        invariant
            i <= names.len(),
            forall|j: int| 0 <= j < i ==> (#[trigger] names[j])@ != name@,
        decreases names.len() - i,
    {
        if names[i] == *name {
            return true;
        }
        i += 1;
    }
    false
}

} // verus!
