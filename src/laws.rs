use vstd::prelude::*;

use crate::decimal::{
    all_digits, decimal_text, digit_char, digit_value, digits_of, digits_value, is_digit,
    parse_decimal,
};
use crate::escape::{escape_char, escape_text, is_markup};
use crate::render::bool_text;

verus! {

/// Escaping a text replaces each of its characters, in order, by that
/// character's `escape_char`: each markup character becomes its entity and
/// every other character stays as it is.
pub proof fn lemma_escape_per_char(s: Seq<char>)
    ensures
        escape_text(s) == s.map_values(|c: char| escape_char(c)).flatten(),
{
    lemma_escape_flatten_alt(s);
    s.map_values(|c: char| escape_char(c)).lemma_flatten_and_flatten_alt_are_equivalent();
}

proof fn lemma_escape_flatten_alt(s: Seq<char>)
    ensures
        escape_text(s) == s.map_values(|c: char| escape_char(c)).flatten_alt(),
    decreases s.len(),
{
    let m = s.map_values(|c: char| escape_char(c));
    if s.len() > 0 {
        lemma_escape_flatten_alt(s.drop_last());
        assert(m.drop_last() =~= s.drop_last().map_values(|c: char| escape_char(c)));
    } else {
        assert(m =~= Seq::<Seq<char>>::empty());
    }
}

/// Escaping a single character yields its `escape_char`.
pub proof fn lemma_escape_single(c: char)
    ensures
        escape_text(seq![c]) == escape_char(c),
{
    assert(seq![c].drop_last() =~= Seq::<char>::empty());
    assert(escape_text(Seq::<char>::empty()) + escape_char(c) =~= escape_char(c));
}

/// A text without markup characters is its own escaped form.
pub proof fn lemma_escape_plain(s: Seq<char>)
    requires
        forall|i: int| 0 <= i < s.len() ==> !is_markup(#[trigger] s[i]),
    ensures
        escape_text(s) == s,
    decreases s.len(),
{
    if s.len() > 0 {
        lemma_escape_plain(s.drop_last());
        assert(!is_markup(s[s.len() - 1]));
        assert(escape_text(s) =~= s);
    }
}

/// Escaping is a no-op on the text of a boolean.
pub proof fn lemma_bool_escape_is_raw(v: bool)
    ensures
        escape_text(bool_text(v)) == bool_text(v),
{
    let s = bool_text(v);
    assert(forall|i: int| 0 <= i < s.len() ==> !is_markup(#[trigger] s[i]));
    lemma_escape_plain(s);
}

/// The digits of `n` form a non-empty run of digits whose value is `n`.
pub proof fn lemma_digits_of(n: nat)
    ensures
        all_digits(digits_of(n)),
        digits_value(digits_of(n)) == n,
    decreases n,
{
    let d = digits_of(n);
    if n < 10 {
        assert(digit_value(digit_char(n)) == n);
        assert(d.drop_last() =~= Seq::<char>::empty());
        assert(digits_value(d.drop_last()) == 0);
        assert(d.last() == digit_char(n));
    } else {
        lemma_digits_of(n / 10);
        let r = n % 10;
        assert(digit_value(digit_char(r)) == r);
        assert(d.drop_last() =~= digits_of(n / 10));
        assert(d.last() == digit_char(r));
        assert((n / 10) * 10 + r == n);
        assert(digits_value(d) == digits_value(digits_of(n / 10)) * 10 + digit_value(
            digit_char(r),
        ));
        assert forall|i: int| 0 <= i < d.len() implies is_digit(#[trigger] d[i]) by {
            if i < d.len() - 1 {
                assert(d[i] == digits_of(n / 10)[i]);
            }
        }
    }
}

/// Reading back the decimal text of any integer gives that integer.
pub proof fn lemma_decimal_round_trip(n: int)
    ensures
        parse_decimal(decimal_text(n)) == Some(n),
{
    if n < 0 {
        let m = (-n) as nat;
        lemma_digits_of(m);
        assert((seq!['-'] + digits_of(m)).drop_first() =~= digits_of(m));
    } else {
        lemma_digits_of(n as nat);
        assert(is_digit(digits_of(n as nat)[0]));
    }
}

/// Escaping is a no-op on the decimal text of an integer.
pub proof fn lemma_decimal_escape_is_raw(n: int)
    ensures
        escape_text(decimal_text(n)) == decimal_text(n),
{
    let s = decimal_text(n);
    if n < 0 {
        lemma_digits_of((-n) as nat);
    } else {
        lemma_digits_of(n as nat);
    }
    assert forall|i: int| 0 <= i < s.len() implies !is_markup(#[trigger] s[i]) by {
        if n < 0 && i > 0 {
            assert(s[i] == digits_of((-n) as nat)[i - 1]);
        }
    }
    lemma_escape_plain(s);
}

} // verus!
