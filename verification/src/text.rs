//! Building text: conversion into `String`, decimal numbers, joining.

use vstd::prelude::*;

verus! {

/// `<String as From<&str>>::from` copies the text of the slice.
pub assume_specification<'a>[ <String as From<&'a str>>::from ](text: &str) -> (res: String)
    ensures
        res@ == text@,
;

/// `<X as From<X>>::from`, std's reflexive conversion, hands its argument back.
pub assume_specification<X>[ <X as std::convert::From<X>>::from ](value: X) -> (res: X)
    ensures
        res == value,
;

/// `text` is a string that `value` converts into.
///
/// A `String` converts into itself, and a `&str` into a string of the same text.
pub open spec fn converts_to<T: Into<String>>(value: T, text: String) -> bool {
    call_ensures(T::into, (value,), text)
}

/// The decimal digit of a number below ten.
pub open spec fn digit(value: nat) -> char
    recommends
        value < 10,
{
    seq!['0', '1', '2', '3', '4', '5', '6', '7', '8', '9'][value as int]
}

/// The decimal text of a number, without leading zeros.
pub open spec fn decimal(value: nat) -> Seq<char>
    decreases value,
{
    if value < 10 {
        seq![digit(value)]
    } else {
        decimal(value / 10).push(digit(value % 10))
    }
}

/// The parts one after the other, with `separator` between neighbours.
pub open spec fn joined(parts: Seq<Seq<char>>, separator: Seq<char>) -> Seq<char>
    decreases parts.len(),
{
    if parts.len() == 0 {
        Seq::empty()
    } else if parts.len() == 1 {
        parts[0]
    } else {
        parts[0] + separator + joined(parts.skip(1), separator)
    }
}

/// Joining two non-empty lists of parts joins their joined texts.
pub proof fn lemma_joined_concat(
    front: Seq<Seq<char>>,
    back: Seq<Seq<char>>,
    separator: Seq<char>,
)
    requires
        front.len() > 0,
        back.len() > 0,
    ensures
        joined(front + back, separator) == joined(front, separator) + separator + joined(
            back,
            separator,
        ),
    decreases front.len(),
{
    if front.len() == 1 {
        assert((front + back).skip(1) =~= back);
    } else {
        lemma_joined_concat(front.skip(1), back, separator);
        assert((front + back).skip(1) =~= front.skip(1) + back);
        assert(joined(front + back, separator) =~= joined(front, separator) + separator + joined(
            back,
            separator,
        ));
    }
}

/// The text of the decimal digit `value`.
fn digit_text(value: u32) -> (res: &'static str)
    requires
        value < 10,
    ensures
        res@ == seq![digit(value as nat)],
{
    proof {
        reveal_strlit("0");
        reveal_strlit("1");
        reveal_strlit("2");
        reveal_strlit("3");
        reveal_strlit("4");
        reveal_strlit("5");
        reveal_strlit("6");
        reveal_strlit("7");
        reveal_strlit("8");
        reveal_strlit("9");
    }
    match value {
        0 => "0",
        1 => "1",
        2 => "2",
        3 => "3",
        4 => "4",
        5 => "5",
        6 => "6",
        7 => "7",
        8 => "8",
        _ => "9",
    }
}

/// Appends the decimal text of `value` to `buffer`.
pub fn push_decimal(buffer: &mut String, value: u32)
    ensures
        final(buffer)@ == old(buffer)@ + decimal(value as nat),
    decreases value,
{
    if value >= 10 {
        push_decimal(buffer, value / 10);
    }
    buffer.append(digit_text(value % 10));
}

} // verus!
