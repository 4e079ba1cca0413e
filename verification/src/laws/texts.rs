//! Numbers in text, and joined text.

#![allow(unused_imports)]

use vstd::prelude::*;

use crate::text::push_decimal;

verus! {

/// The number that a sequence of digits denotes, read from the left.
pub open spec fn number_denoted(digits: Seq<char>) -> int
    decreases digits.len(),
{
    if digits.len() == 0 {
        0
    } else {
        10 * number_denoted(digits.drop_last()) + (digits.last() as int - '0' as int)
    }
}

/// The text is made of digits, denotes `value`, and has no leading zero.
pub open spec fn is_numeral(text: Seq<char>, value: int) -> bool {
    &&& text.len() > 0
    &&& forall|i: int| 0 <= i < text.len() ==> '0' <= #[trigger] text[i] <= '9'
    &&& number_denoted(text) == value
    &&& text.len() > 1 ==> text[0] != '0'
}

/// The decimal text of a number reads back as that number.
pub proof fn law_decimal_reads_back(value: nat)
    ensures
        is_numeral(crate::text::decimal(value), value as int),
        value > 0 ==> crate::text::decimal(value)[0] != '0',
    decreases value,
{
    let text = crate::text::decimal(value);
    reveal_with_fuel(number_denoted, 2);
    if value < 10 {
        assert(text.drop_last().len() == 0);
    } else {
        law_decimal_reads_back(value / 10);
        assert(text.drop_last() =~= crate::text::decimal(value / 10));
        assert(text.last() == crate::text::digit(value % 10));
        assert forall|i: int| 0 <= i < text.len() implies '0' <= #[trigger] text[i] <= '9' by {
            if i < text.len() - 1 {
                assert(text[i] == crate::text::decimal(value / 10)[i]);
            }
        }
    }
}

/// `push_decimal` leaves what is in the buffer and puts the numeral of the
/// number behind it.
pub proof fn law_push_decimal(buffer: &mut String, value: u32)
    requires
        call_ensures(push_decimal, (buffer, value), ()),
    ensures
        final(buffer)@.len() > old(buffer)@.len(),
        final(buffer)@.take(old(buffer)@.len() as int) == old(buffer)@,
        is_numeral(final(buffer)@.skip(old(buffer)@.len() as int), value as int),
{
    law_decimal_reads_back(value as nat);
    assert(final(buffer)@.take(old(buffer)@.len() as int) =~= old(buffer)@);
    assert(final(buffer)@.skip(old(buffer)@.len() as int) =~= crate::text::decimal(value as nat));
}

/// Nothing joined is nothing, one part joined is that part, and one more part
/// comes behind one more separator.
pub proof fn law_joined(parts: Seq<Seq<char>>, part: Seq<char>, separator: Seq<char>)
    ensures
        crate::text::joined(Seq::<Seq<char>>::empty(), separator) == Seq::<char>::empty(),
        crate::text::joined(seq![part], separator) == part,
        parts.len() > 0 ==> crate::text::joined(parts.push(part), separator)
            == crate::text::joined(parts, separator) + separator + part,
{
    if parts.len() > 0 {
        crate::text::lemma_joined_concat(parts, seq![part], separator);
        assert(parts.push(part) =~= parts + seq![part]);
    }
}

} // verus!
