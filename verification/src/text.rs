//! Building text: the few string operations the rest of the crate writes its
//! messages and renderings with, and the facts about UTF-8 they rest on.

use vstd::prelude::*;
use vstd::utf8::{encode_scalar, encode_utf8, valid_utf8};

verus! {

/// `String::push` appends one character and changes nothing else.
pub assume_specification[ String::push ](text: &mut String, ch: char)
    ensures
        final(text)@ == old(text)@.push(ch),
;

/// `String::clear` removes every character. Its documentation adds that the
/// capacity is kept, which no contract here speaks of.
pub assume_specification[ String::clear ](text: &mut String)
    ensures
        final(text)@ == Seq::<char>::empty(),
;

/// Reads `bytes` as UTF-8 with `std::str::from_utf8`: an answer exactly when
/// the bytes are valid UTF-8, and then the very same bytes.
#[verifier::external_body]
pub(crate) fn utf8_text<'a>(bytes: &'a [u8]) -> (text: Option<&'a str>)
    ensures
        text is Some <==> valid_utf8(bytes@),
        text matches Some(text) ==> encode_utf8(text@) == bytes@,
{
    std::str::from_utf8(bytes).ok()
}

/// Encoding distributes over concatenation.
pub proof fn encode_utf8_concat(left: Seq<char>, right: Seq<char>)
    ensures
        encode_utf8(left + right) == encode_utf8(left) + encode_utf8(right),
    decreases left.len(),
{
    if left.len() == 0 {
        assert(left + right =~= right);
        assert(encode_utf8(left) + encode_utf8(right) =~= encode_utf8(right));
    } else {
        encode_utf8_concat(left.drop_first(), right);
        assert((left + right).drop_first() =~= left.drop_first() + right);
        let first = encode_scalar(left[0] as u32);
        assert(encode_utf8(left) == first + encode_utf8(left.drop_first()));
        assert(first + (encode_utf8(left.drop_first()) + encode_utf8(right)) =~= (first
            + encode_utf8(left.drop_first())) + encode_utf8(right));
    }
}

/// One ASCII character is encoded as itself.
pub proof fn encode_utf8_ascii_char(ch: char)
    requires
        (ch as u32) < 0x80,
    ensures
        encode_utf8(seq![ch]) == seq![ch as u8],
{
    vstd::utf8::is_ascii_chars_encode_utf8(seq![ch]);
    assert(encode_utf8(seq![ch]) =~= seq![ch as u8]);
}

/// How many bytes `text` takes.
pub fn byte_len(text: &str) -> (len: usize)
    ensures
        len == encode_utf8(text@).len(),
{
    text.as_bytes().len()
}

/// The decimal digit with value `value`.
pub open spec fn digit_char(value: nat) -> char {
    (('0' as u32) + value) as char
}

/// `value` in decimal, without leading zeros.
pub open spec fn decimal(value: nat) -> Seq<char>
    decreases value,
{
    if value < 10 {
        seq![digit_char(value)]
    } else {
        decimal(value / 10).push(digit_char(value % 10))
    }
}

/// Appends `value` in decimal.
pub fn push_decimal(out: &mut String, value: u64)
    ensures
        final(out)@ == old(out)@ + decimal(value as nat),
    decreases value,
{
    if value >= 10 {
        push_decimal(out, value / 10);
    }
    let digit: u8 = 0x30 + (value % 10) as u8;
    out.push(digit as char);
    assert(final(out)@ =~= old(out)@ + decimal(value as nat));
}

/// The number that digits say.
pub open spec fn number_said(digits: Seq<char>) -> nat
    decreases digits.len(),
{
    if digits.len() == 0 {
        0
    } else {
        number_said(digits.drop_last()) * 10 + (digits.last() as u32 - '0' as u32) as nat
    }
}

/// A number is written so that its digits say it, with no zero in front but where
/// the number is zero.
pub proof fn a_number_says_itself(value: nat)
    ensures
        number_said(decimal(value)) == value,
        forall|i: int| 0 <= i < decimal(value).len() ==> '0' <= #[trigger] decimal(value)[i] <= '9',
        decimal(value).len() > 0,
        value > 0 ==> decimal(value)[0] != '0',
    decreases value,
{
    if value < 10 {
        assert(decimal(value).drop_last() =~= Seq::empty());
        assert(number_said(Seq::<char>::empty()) == 0);
    } else {
        a_number_says_itself(value / 10);
        assert(decimal(value).drop_last() =~= decimal(value / 10));
    }
}

/// A number is appended to what was written before it, and its digits say it.
pub proof fn a_number_is_appended(out: &mut String, value: u64)
    requires
        call_ensures(push_decimal, (out, value), ()),
    ensures
        final(out)@.len() > old(out)@.len(),
        final(out)@.take(old(out)@.len() as int) == old(out)@,
        number_said(final(out)@.skip(old(out)@.len() as int)) == value,
{
    a_number_says_itself(value as nat);
    assert(final(out)@.take(old(out)@.len() as int) =~= old(out)@);
    assert(final(out)@.skip(old(out)@.len() as int) =~= decimal(value as nat));
}

} // verus!
