//! Decimal digit strings: what number they write, how they round and how they
//! are grouped.

use vstd::prelude::*;

verus! {

/// Whether `byte` is an ASCII digit.
pub open spec fn is_digit(byte: u8) -> bool {
    0x30 <= byte <= 0x39
}

/// Whether every byte is an ASCII digit.
pub open spec fn all_digits(bytes: Seq<u8>) -> bool {
    forall|i: int| 0 <= i < bytes.len() ==> is_digit(#[trigger] bytes[i])
}

/// The number that a string of ASCII digits writes.
pub open spec fn digits_value(digits: Seq<u8>) -> nat
    decreases digits.len(),
{
    if digits.len() == 0 {
        0
    } else {
        digits_value(digits.drop_last()) * 10 + (digits.last() - 0x30) as nat
    }
}

/// Ten to the power `places`.
pub open spec fn pow10(places: nat) -> nat
    decreases places,
{
    if places == 0 {
        1
    } else {
        pow10((places - 1) as nat) * 10
    }
}

/// `value` written with exactly `width` ASCII digits, leading zeros included.
pub open spec fn padded(value: nat, width: nat) -> Seq<u8>
    decreases width,
{
    if width == 0 {
        Seq::empty()
    } else {
        padded(value / 10, (width - 1) as nat).push((0x30 + value % 10) as u8)
    }
}

/// `value` with its last `places` digits rounded away, half upwards: for a
/// magnitude, half away from zero.
pub open spec fn rounded(value: nat, places: nat) -> nat {
    if places == 0 {
        value
    } else {
        (value + 5 * pow10((places - 1) as nat)) / pow10(places)
    }
}

/// `digits` without the zeros at its end.
pub open spec fn without_trailing_zeros(digits: Seq<u8>) -> Seq<u8>
    decreases digits.len(),
{
    if digits.len() > 0 && digits.last() == 0x30 {
        without_trailing_zeros(digits.drop_last())
    } else {
        digits
    }
}

/// A power of ten is positive.
pub proof fn pow10_positive(places: nat)
    ensures
        pow10(places) > 0,
    decreases places,
{
    if places > 0 {
        pow10_positive((places - 1) as nat);
    }
}

/// Appending digits shifts the number in front of them.
pub proof fn digits_value_concat(left: Seq<u8>, right: Seq<u8>)
    ensures
        digits_value(left + right) == digits_value(left) * pow10(right.len()) + digits_value(right),
    decreases right.len(),
{
    if right.len() == 0 {
        assert(left + right =~= left);
        assert(digits_value(left) * 1 == digits_value(left));
        assert(pow10(right.len()) == 1 && digits_value(right) == 0);
    } else {
        digits_value_concat(left, right.drop_last());
        assert((left + right).drop_last() =~= left + right.drop_last());
        assert((left + right).last() == right.last());
        let high = digits_value(left);
        let scale = pow10((right.len() - 1) as nat);
        let low = digits_value(right.drop_last());
        assert(pow10(right.len()) == scale * 10);
        assert((high * scale + low) * 10 == high * (scale * 10) + low * 10) by (nonlinear_arith);
    }
}

/// A digit string is smaller than the power of ten it has room for.
pub proof fn digits_value_bound(digits: Seq<u8>)
    requires
        all_digits(digits),
    ensures
        digits_value(digits) < pow10(digits.len()),
    decreases digits.len(),
{
    if digits.len() > 0 {
        assert(is_digit(digits[digits.len() - 1]));
        assert forall|i: int| 0 <= i < digits.drop_last().len() implies is_digit(
            #[trigger] digits.drop_last()[i],
        ) by {
            assert(is_digit(digits[i]));
        }
        digits_value_bound(digits.drop_last());
    }
}

/// A digit string is the one string of its length that writes its number.
pub proof fn digits_are_padded_value(digits: Seq<u8>)
    requires
        all_digits(digits),
    ensures
        digits == padded(digits_value(digits), digits.len()),
    decreases digits.len(),
{
    if digits.len() == 0 {
        assert(digits =~= Seq::empty());
    } else {
        let front = digits.drop_last();
        assert(is_digit(digits[digits.len() - 1]));
        assert forall|i: int| 0 <= i < front.len() implies is_digit(#[trigger] front[i]) by {
            assert(is_digit(digits[i]));
        }
        digits_are_padded_value(front);
        let value = digits_value(digits);
        assert(value / 10 == digits_value(front));
        assert(value % 10 == (digits.last() - 0x30) as nat);
        assert(digits =~= front.push(digits.last()));
    }
}

/// Zeros behind a digit string multiply its number.
proof fn digits_value_zeros(count: nat)
    ensures
        digits_value(Seq::new(count, |i: int| 0x30u8)) == 0,
    decreases count,
{
    if count > 0 {
        let zeros = Seq::new(count, |i: int| 0x30u8);
        digits_value_zeros((count - 1) as nat);
        assert(zeros.drop_last() =~= Seq::new((count - 1) as nat, |i: int| 0x30u8));
    }
}

/// Rounding only looks at the first digit that is rounded away.
proof fn rounded_by_first_dropped(kept: Seq<u8>, dropped: Seq<u8>)
    requires
        all_digits(kept),
        all_digits(dropped),
        dropped.len() > 0,
    ensures
        rounded(digits_value(kept + dropped), dropped.len()) == digits_value(kept) + (if dropped[0]
            >= 0x35 {
            1nat
        } else {
            0nat
        }),
{
    let places = dropped.len();
    let scale = pow10(places);
    let tenth = pow10((places - 1) as nat);
    let rest = dropped.drop_first();
    pow10_positive((places - 1) as nat);
    assert(is_digit(dropped[0]));
    assert forall|i: int| 0 <= i < rest.len() implies is_digit(#[trigger] rest[i]) by {
        assert(is_digit(dropped[i + 1]));
    }
    digits_value_concat(kept, dropped);
    assert(dropped =~= seq![dropped[0]] + rest);
    digits_value_concat(seq![dropped[0]], rest);
    digits_value_bound(rest);
    let first = (dropped[0] - 0x30) as nat;
    assert(digits_value(seq![dropped[0]]) == first) by {
        assert(seq![dropped[0]].drop_last() =~= Seq::<u8>::empty());
        assert(digits_value(Seq::<u8>::empty()) == 0);
    }
    let tail = digits_value(dropped);
    assert(tail == first * tenth + digits_value(rest));
    assert(scale == tenth * 10);
    let base = digits_value(kept);
    if dropped[0] >= 0x35 {
        assert(scale <= tail + 5 * tenth < 2 * scale) by (nonlinear_arith)
            requires
                5 <= first <= 9,
                tail == first * tenth + digits_value(rest),
                digits_value(rest) < tenth,
                scale == tenth * 10,
        ;
        assert((base * scale + tail + 5 * tenth) / scale == base + 1) by (nonlinear_arith)
            requires
                scale > 0,
                scale <= tail + 5 * tenth < 2 * scale,
        ;
    } else {
        assert(0 <= tail + 5 * tenth < scale) by (nonlinear_arith)
            requires
                0 <= first <= 4,
                tail == first * tenth + digits_value(rest),
                digits_value(rest) < tenth,
                scale == tenth * 10,
        ;
        assert((base * scale + tail + 5 * tenth) / scale == base) by (nonlinear_arith)
            requires
                scale > 0,
                0 <= tail + 5 * tenth < scale,
        ;
    }
}

/// The digits left by rounding `integer.fraction` at `limit` fraction digits,
/// before zeros at the end are dropped: as many as were there, or one more
/// where every one of them was a nine.
pub open spec fn rounded_digits(integer: Seq<u8>, fraction: Seq<u8>, limit: nat) -> Seq<u8> {
    let kept = if limit < fraction.len() {
        limit
    } else {
        fraction.len()
    };
    let value = rounded(digits_value(integer + fraction), (fraction.len() - kept) as nat);
    let width = integer.len() + kept;
    padded(
        value,
        if value < pow10(width) {
            width
        } else {
            width + 1
        },
    )
}

/// `digits` split in front of its last `count` ones.
pub open spec fn split_from_end(digits: Seq<u8>, count: nat) -> (Seq<u8>, Seq<u8>) {
    (digits.take(digits.len() - count), digits.skip(digits.len() - count))
}

/// Adds one to the number that `digits` writes, growing it by a leading one
/// where every digit is a nine.
fn increment(digits: &mut Vec<u8>)
    requires
        all_digits(old(digits)@),
    ensures
        all_digits(final(digits)@),
        digits_value(final(digits)@) == digits_value(old(digits)@) + 1,
        final(digits)@.len() == old(digits)@.len() + (if digits_value(old(digits)@) + 1 == pow10(
            old(digits)@.len(),
        ) {
            1int
        } else {
            0int
        }),
{
    let ghost before = digits@;
    let ghost len = digits@.len();
    let mut index: usize = digits.len();
    proof {
        assert(before.take(len as int) =~= before);
        assert(Seq::new(0, |i: int| 0x30u8) =~= Seq::empty());
        assert(before.take(len as int) + Seq::new(0, |i: int| 0x30u8) =~= before);
        assert((digits_value(before) + 1) * 1 == digits_value(before) + 1);
    }
    while index > 0
        invariant
            index <= len,
            before == old(digits)@,
            before.len() == len,
            all_digits(before),
            digits@ == before.take(index as int) + Seq::new((len - index) as nat, |i: int| 0x30u8),
            digits_value(before) + 1 == (digits_value(before.take(index as int)) + 1) * pow10(
                (len - index) as nat,
            ),
        ensures
            index == 0,
        decreases index,
    {
        let ghost at = index as int;
        let ghost zeros = Seq::new((len - at) as nat, |i: int| 0x30u8);
        index -= 1;
        let ghost front = before.take(index as int);
        assert(is_digit(before[index as int]));
        assert(before.take(at).drop_last() =~= front);
        assert(digits_value(before.take(at)) == digits_value(front) * 10 + (before[index as int]
            - 0x30) as nat);
        let digit: u8 = digits[index];
        if digit == 0x39 {
            digits.set(index, 0x30);
            proof {
                let scale = pow10((len - at) as nat);
                let more = Seq::new((len - index) as nat, |i: int| 0x30u8);
                assert(digits@ =~= front + more);
                assert(pow10((len - index) as nat) == scale * 10);
                let high = digits_value(front);
                assert((high * 10 + 9 + 1) * scale == (high + 1) * (scale * 10)) by (nonlinear_arith);
            }
        } else {
            digits.set(index, digit + 1);
            proof {
                let raised = front.push((digit + 1) as u8);
                assert(digits@ =~= raised + zeros);
                digits_value_concat(raised, zeros);
                digits_value_zeros((len - at) as nat);
                assert(raised.drop_last() =~= front);
                assert forall|i: int| 0 <= i < digits@.len() implies is_digit(#[trigger] digits@[i]) by {
                    if i < index {
                        assert(is_digit(before[i]));
                    }
                }
                digits_value_bound(digits@);
            }
            return;
        }
    }
    digits.insert(0, 0x31);
    proof {
        let zeros = Seq::new(len, |i: int| 0x30u8);
        assert(before.take(0) =~= Seq::<u8>::empty());
        assert(digits_value(before.take(0)) == 0);
        assert(digits@ =~= seq![0x31u8] + zeros);
        digits_value_concat(seq![0x31u8], zeros);
        digits_value_zeros(len);
        assert(seq![0x31u8].drop_last() =~= Seq::<u8>::empty());
        assert(digits_value(Seq::<u8>::empty()) == 0);
        assert(digits_value(seq![0x31u8]) == 1);
        assert(1 * pow10(len) == pow10(len));
    }
}

/// Rounds `integer.fraction` half away from zero at `limit` fraction digits,
/// leaving the ASCII digits in `digits` and reporting how many of them stand
/// in front of the decimal separator and how many are shown behind it.
pub fn round_into(digits: &mut Vec<u8>, integer: &[u8], fraction: &[u8], limit: usize) -> (split: (
    usize,
    usize,
))
    requires
        all_digits(integer@),
        all_digits(fraction@),
    ensures
        final(digits)@ == rounded_digits(integer@, fraction@, limit as nat),
        split.0 == final(digits)@.len() - (if limit < fraction@.len() {
            limit as int
        } else {
            fraction@.len() as int
        }),
        split.0 + split.1 <= final(digits)@.len(),
        final(digits)@.subrange(split.0 as int, split.0 + split.1) == without_trailing_zeros(
            final(digits)@.skip(split.0 as int),
        ),
{
    let kept: usize = if limit < fraction.len() {
        limit
    } else {
        fraction.len()
    };
    digits.clear();
    digits.extend_from_slice(integer);
    let mut taken: usize = 0;
    assert(digits@ =~= integer@ + fraction@.take(0));
    while taken < kept
        invariant
            taken <= kept <= fraction@.len(),
            digits@ == integer@ + fraction@.take(taken as int),
        decreases kept - taken,
    {
        digits.push(fraction[taken]);
        taken += 1;
        assert(digits@ =~= integer@ + fraction@.take(taken as int));
    }
    let ghost shown = integer@ + fraction@.take(kept as int);
    let ghost dropped = fraction@.skip(kept as int);
    proof {
        assert forall|i: int| 0 <= i < shown.len() implies is_digit(#[trigger] shown[i]) by {
            if i < integer@.len() {
                assert(is_digit(integer@[i]));
            } else {
                assert(is_digit(fraction@[i - integer@.len()]));
            }
        }
        assert forall|i: int| 0 <= i < dropped.len() implies is_digit(#[trigger] dropped[i]) by {
            assert(is_digit(fraction@[i + kept]));
        }
        assert(integer@ + fraction@ =~= shown + dropped);
        if dropped.len() > 0 {
            rounded_by_first_dropped(shown, dropped);
        } else {
            assert(shown + dropped =~= shown);
        }
        digits_value_bound(shown);
    }
    if limit < fraction.len() && fraction[limit] >= 0x35 {
        increment(digits);
    }
    proof {
        digits_are_padded_value(digits@);
        digits_value_bound(digits@);
    }
    let total: usize = digits.len();
    let integer_len: usize = total - kept;
    let ghost behind = digits@.skip(integer_len as int);
    let mut fraction_len: usize = kept;
    assert(behind.take(fraction_len as int) =~= behind);
    while fraction_len > 0 && digits[integer_len + fraction_len - 1] == 0x30
        invariant
            integer_len + kept == total,
            total == digits@.len(),
            fraction_len <= kept,
            behind == digits@.skip(integer_len as int),
            without_trailing_zeros(behind.take(fraction_len as int)) == without_trailing_zeros(
                behind,
            ),
        decreases fraction_len,
    {
        assert(behind.take(fraction_len as int).drop_last() =~= behind.take(fraction_len - 1));
        fraction_len -= 1;
    }
    assert(behind.take(fraction_len as int) =~= digits@.subrange(
        integer_len as int,
        integer_len + fraction_len,
    ));
    (integer_len, fraction_len)
}

/// Rounding is to the nearest, a tie going upwards: what is shown, put back
/// over its power of ten, is within half a unit of the value.
pub proof fn rounding_is_to_the_nearest(value: nat, places: nat)
    ensures
        2 * value < (2 * rounded(value, places) + 1) * pow10(places),
        (2 * rounded(value, places) - 1) * pow10(places) <= 2 * value,
{
    pow10_positive(places);
    let scale = pow10(places);
    if places > 0 {
        let half = 5 * pow10((places - 1) as nat);
        let quotient = (value + half) / scale;
        assert(2 * half == scale);
        vstd::arithmetic::div_mod::lemma_fundamental_div_mod((value + half) as int, scale as int);
        assert(2 * value < (2 * quotient + 1) * scale && (2 * quotient - 1) * scale <= 2 * value)
            by (nonlinear_arith)
            requires
                value + half == scale * quotient + (value + half) % scale,
                0 <= (value + half) % scale < scale,
                2 * half == scale,
        ;
    } else {
        assert(scale == 1);
        assert((2 * value + 1) * scale == 2 * value + 1 && (2 * value - 1) * scale == 2 * value - 1)
            by (nonlinear_arith)
            requires
                scale == 1,
        ;
    }
}

/// ASCII digits as the characters they are.
pub open spec fn digit_text(digits: Seq<u8>) -> Seq<char> {
    digits.map_values(|digit: u8| digit as char)
}

/// `digits` with `separator` between groups of `size`, counted from the right.
/// A `size` of zero separates nothing.
pub open spec fn grouped(digits: Seq<u8>, separator: char, size: nat) -> Seq<char>
    decreases digits.len(),
{
    if size == 0 || digits.len() <= size {
        digit_text(digits)
    } else {
        let (front, group) = split_from_end(digits, size);
        grouped(front, separator, size).push(separator) + digit_text(group)
    }
}

/// What stands in the output once the first `count` digits have been written.
spec fn grouped_prefix(digits: Seq<u8>, separator: char, size: nat, count: nat) -> Seq<char>
    decreases count,
{
    if count == 0 {
        Seq::empty()
    } else {
        let index = (count - 1) as nat;
        let before = grouped_prefix(digits, separator, size, index);
        let separated = if index > 0 && size > 0 && (digits.len() - index) % size as int == 0 {
            before.push(separator)
        } else {
            before
        };
        separated.push(digits[index as int] as char)
    }
}

/// Dropping the last group changes nothing in front of it.
proof fn grouped_prefix_front(digits: Seq<u8>, separator: char, size: nat, count: nat)
    requires
        0 < size <= digits.len(),
        count <= digits.len() - size,
    ensures
        grouped_prefix(digits, separator, size, count) == grouped_prefix(
            split_from_end(digits, size).0,
            separator,
            size,
            count,
        ),
    decreases count,
{
    if count > 0 {
        let index = (count - 1) as nat;
        grouped_prefix_front(digits, separator, size, index);
        let rest = digits.len() - index;
        vstd::arithmetic::div_mod::lemma_mod_sub_multiples_vanish(rest, size as int);
        assert(rest % size as int == (rest - size) % size as int);
    }
}

/// Inside the last group no separator is written.
proof fn grouped_prefix_last(digits: Seq<u8>, separator: char, size: nat, count: nat)
    requires
        size > 0,
        digits.len() > size ==> digits.len() - size < count <= digits.len(),
        digits.len() <= size ==> count <= digits.len(),
    ensures
        digits.len() <= size ==> grouped_prefix(digits, separator, size, count) == digit_text(
            digits.take(count as int),
        ),
        digits.len() > size ==> grouped_prefix(digits, separator, size, count) == grouped_prefix(
            digits,
            separator,
            size,
            (digits.len() - size) as nat,
        ).push(separator) + digit_text(digits.subrange(digits.len() - size, count as int)),
    decreases count,
{
    let start = if digits.len() > size {
        digits.len() - size
    } else {
        0
    };
    let taken = digits.subrange(start, count as int);
    if digits.len() <= size {
        assert(digits.take(count as int) =~= taken);
    }
    if count > start {
        let index = (count - 1) as nat;
        let rest = digits.len() - index;
        assert(digit_text(taken) =~= digit_text(digits.subrange(start, index as int)).push(
            digits[index as int] as char,
        ));
        if index == start {
            assert(digits.subrange(start, index as int) =~= Seq::<u8>::empty());
            if digits.len() > size {
                assert(rest % size as int == 0) by {
                    vstd::arithmetic::div_mod::lemma_mod_self_0(size as int);
                }
                let before = grouped_prefix(digits, separator, size, index).push(separator);
                assert(before + digit_text(taken) =~= before.push(digits[index as int] as char));
            } else {
                assert(grouped_prefix(digits, separator, size, index) =~= Seq::empty());
                assert(digit_text(taken) =~= Seq::<char>::empty().push(digits[index as int] as char));
            }
        } else {
            grouped_prefix_last(digits, separator, size, index);
            vstd::arithmetic::div_mod::lemma_small_mod(rest as nat, size);
            assert(rest % size as int != 0);
            if digits.len() > size {
                let before = grouped_prefix(digits, separator, size, start as nat).push(separator);
                let shorter = digit_text(digits.subrange(start, index as int));
                assert(before + shorter.push(digits[index as int] as char) =~= (before
                    + shorter).push(digits[index as int] as char));
            } else {
                assert(digits.take(index as int) =~= digits.subrange(start, index as int));
            }
        }
    } else {
        assert(taken =~= Seq::<u8>::empty());
        assert(digit_text(taken) =~= Seq::<char>::empty());
    }
}

/// Writing digit by digit from the left gives the groups counted from the
/// right.
proof fn grouped_prefix_is_grouped(digits: Seq<u8>, separator: char, size: nat)
    requires
        size > 0,
    ensures
        grouped_prefix(digits, separator, size, digits.len()) == grouped(digits, separator, size),
    decreases digits.len(),
{
    grouped_prefix_last(digits, separator, size, digits.len());
    assert(digits.take(digits.len() as int) =~= digits);
    if digits.len() > size {
        let front = split_from_end(digits, size).0;
        grouped_prefix_front(digits, separator, size, front.len());
        grouped_prefix_is_grouped(front, separator, size);
        assert(digits.subrange(digits.len() - size, digits.len() as int) =~= split_from_end(
            digits,
            size,
        ).1);
    }
}

/// Without groups the digits are written as they stand.
proof fn ungrouped_prefix(digits: Seq<u8>, separator: char, count: nat)
    requires
        count <= digits.len(),
    ensures
        grouped_prefix(digits, separator, 0, count) == digit_text(digits.take(count as int)),
    decreases count,
{
    if count > 0 {
        ungrouped_prefix(digits, separator, (count - 1) as nat);
        assert(digit_text(digits.take(count as int)) =~= digit_text(digits.take(count - 1)).push(
            digits[count - 1] as char,
        ));
    } else {
        assert(digit_text(digits.take(0)) =~= Seq::<char>::empty());
    }
}

/// Appends the digits of `digits` from `start` up to `end` as they stand.
pub fn push_digits(out: &mut String, digits: &Vec<u8>, start: usize, end: usize)
    requires
        start <= end <= digits@.len(),
    ensures
        final(out)@ == old(out)@ + digit_text(digits@.subrange(start as int, end as int)),
{
    let mut index: usize = start;
    assert(out@ =~= old(out)@ + digit_text(digits@.subrange(start as int, start as int)));
    while index < end
        invariant
            start <= index <= end <= digits@.len(),
            out@ == old(out)@ + digit_text(digits@.subrange(start as int, index as int)),
        decreases end - index,
    {
        out.push(digits[index] as char);
        index += 1;
        assert(out@ =~= old(out)@ + digit_text(digits@.subrange(start as int, index as int)));
    }
}

/// Appends the first `len` digits of `digits`, with `separator` between groups
/// of `size` counted from the right.
pub fn push_grouped(out: &mut String, digits: &Vec<u8>, len: usize, separator: char, size: usize)
    requires
        len <= digits@.len(),
    ensures
        final(out)@ == old(out)@ + grouped(digits@.take(len as int), separator, size as nat),
{
    let ghost whole = digits@.take(len as int);
    let mut index: usize = 0;
    assert(out@ =~= old(out)@ + grouped_prefix(whole, separator, size as nat, 0));
    while index < len
        invariant
            index <= len <= digits@.len(),
            whole == digits@.take(len as int),
            out@ == old(out)@ + grouped_prefix(whole, separator, size as nat, index as nat),
        decreases len - index,
    {
        let remaining: usize = len - index;
        if index > 0 && size > 0 && remaining % size == 0 {
            out.push(separator);
        }
        out.push(digits[index] as char);
        index += 1;
        assert(out@ =~= old(out)@ + grouped_prefix(whole, separator, size as nat, index as nat));
    }
    proof {
        if size > 0 {
            grouped_prefix_is_grouped(whole, separator, size as nat);
        } else {
            ungrouped_prefix(whole, separator, len as nat);
            assert(whole.take(len as int) =~= whole);
        }
    }
}

/// Groups are counted from the right: behind every `size` digits, and nowhere
/// else, stands a separator, and the digits are those there were, in their order.
pub proof fn groups_are_counted_from_the_right(
    digits: Seq<u8>,
    separator: char,
    size: nat,
    place: nat,
)
    requires
        size > 0,
        place < grouped(digits, separator, size).len(),
    ensures
        ({
            let text = grouped(digits, separator, size);
            let shown = text[text.len() - 1 - place];
            let group = place / (size + 1);
            let within = place % (size + 1);
            let digit = group * size + within;
            &&& within == size ==> shown == separator
            &&& within < size ==> digit < digits.len() && shown == digits[digits.len() - 1 - digit]
                as char
        }),
    decreases digits.len(),
{
    let text = grouped(digits, separator, size);
    let step = size + 1;
    if digits.len() <= size {
        vstd::arithmetic::div_mod::lemma_fundamental_div_mod_converse(
            place as int,
            step as int,
            0,
            place as int,
        );
        let none = place / step;
        assert(none * size == 0) by (nonlinear_arith)
            requires
                none == 0,
        ;
    } else {
        let (front, group) = split_from_end(digits, size);
        let rest = grouped(front, separator, size);
        assert(text.len() == rest.len() + step);
        if place < size {
            vstd::arithmetic::div_mod::lemma_fundamental_div_mod_converse(
                place as int,
                step as int,
                0,
                place as int,
            );
            let none = place / step;
            assert(none * size == 0) by (nonlinear_arith)
                requires
                    none == 0,
            ;
        } else if place == size {
            vstd::arithmetic::div_mod::lemma_fundamental_div_mod_converse(
                place as int,
                step as int,
                0,
                place as int,
            );
        } else {
            let before = (place - step) as nat;
            groups_are_counted_from_the_right(front, separator, size, before);
            vstd::arithmetic::div_mod::lemma_fundamental_div_mod(before as int, step as int);
            let q = before / step;
            let r = before % step;
            assert(place == (q + 1) * step + r) by (nonlinear_arith)
                requires
                    place == before + step,
                    before == step * q + r,
            ;
            vstd::arithmetic::div_mod::lemma_fundamental_div_mod_converse(
                place as int,
                step as int,
                (q + 1) as int,
                r as int,
            );
            assert((q + 1) * size == q * size + size) by (nonlinear_arith);
            assert(text[text.len() - 1 - place] == rest[rest.len() - 1 - before]);
        }
    }
}

/// Grouping adds separators and nothing else: taking them out again leaves the
/// digits, and the first character is the first digit.
pub proof fn grouping_only_adds_separators(digits: Seq<u8>, separator: char, size: nat)
    requires
        all_digits(digits),
        !('0' <= separator <= '9'),
    ensures
        grouped(digits, separator, size).filter(|ch: char| ch != separator) == digit_text(digits),
    decreases digits.len(),
{
    let kept = |ch: char| ch != separator;
    if size == 0 || digits.len() <= size {
        digits_are_kept(digits, separator);
    } else {
        let (front, group) = split_from_end(digits, size);
        let rest = grouped(front, separator, size);
        assert forall|i: int| 0 <= i < front.len() implies is_digit(#[trigger] front[i]) by {
            assert(is_digit(digits[i]));
        }
        assert forall|i: int| 0 <= i < group.len() implies is_digit(#[trigger] group[i]) by {
            assert(is_digit(digits[i + front.len()]));
        }
        grouping_only_adds_separators(front, separator, size);
        digits_are_kept(group, separator);
        Seq::filter_distributes_over_add(rest.push(separator), digit_text(group), kept);
        assert(rest.push(separator).filter(kept) =~= rest.filter(kept)) by {
            reveal(Seq::filter);
            assert(rest.push(separator).drop_last() =~= rest);
        }
        assert(digit_text(front) + digit_text(group) =~= digit_text(digits));
    }
}

/// No digit is a separator.
proof fn digits_are_kept(digits: Seq<u8>, separator: char)
    requires
        all_digits(digits),
        !('0' <= separator <= '9'),
    ensures
        digit_text(digits).filter(|ch: char| ch != separator) == digit_text(digits),
    decreases digits.len(),
{
    reveal(Seq::filter);
    let text = digit_text(digits);
    if digits.len() > 0 {
        let front = digits.drop_last();
        assert forall|i: int| 0 <= i < front.len() implies is_digit(#[trigger] front[i]) by {
            assert(is_digit(digits[i]));
        }
        digits_are_kept(front, separator);
        assert(text.drop_last() =~= digit_text(front));
        assert(is_digit(digits[digits.len() - 1]));
        assert(text =~= digit_text(front).push(text.last()));
    } else {
        assert(text =~= Seq::<char>::empty());
        assert(text.filter(|ch: char| ch != separator) =~= text);
    }
}

/// Grouping starts with the first digit.
pub proof fn grouping_starts_with_a_digit(digits: Seq<u8>, separator: char, size: nat)
    requires
        digits.len() > 0,
    ensures
        grouped(digits, separator, size).len() >= digits.len(),
        grouped(digits, separator, size)[0] == digits[0] as char,
    decreases digits.len(),
{
    if size > 0 && digits.len() > size {
        let (front, group) = split_from_end(digits, size);
        grouping_starts_with_a_digit(front, separator, size);
    }
}

/// A number written with enough digits is the number that is read from them.
pub proof fn a_number_is_read_as_written(value: nat, width: nat)
    requires
        value < pow10(width),
    ensures
        digits_value(padded(value, width)) == value,
        padded(value, width).len() == width,
        all_digits(padded(value, width)),
    decreases width,
{
    if width > 0 {
        let scale = pow10((width - 1) as nat);
        assert(value / 10 < scale) by (nonlinear_arith)
            requires
                value < scale * 10,
        ;
        a_number_is_read_as_written(value / 10, (width - 1) as nat);
        let front = padded(value / 10, (width - 1) as nat);
        let all = padded(value, width);
        assert(all.drop_last() =~= front);
        assert forall|i: int| 0 <= i < all.len() implies is_digit(#[trigger] all[i]) by {
            if i < front.len() {
                assert(is_digit(front[i]));
            }
        }
    }
}

/// Dropping the zeros at the end drops nothing else: what is left, with as many
/// zeros put back, writes the same number, and ends with no zero.
pub proof fn only_zeros_are_dropped(digits: Seq<u8>)
    ensures
        ({
            let kept = without_trailing_zeros(digits);
            &&& kept.len() <= digits.len()
            &&& kept == digits.take(kept.len() as int)
            &&& kept.len() > 0 ==> kept.last() != 0x30
            &&& digits_value(digits) == digits_value(kept) * pow10(
                (digits.len() - kept.len()) as nat,
            )
        }),
    decreases digits.len(),
{
    let kept = without_trailing_zeros(digits);
    if digits.len() > 0 && digits.last() == 0x30 {
        let front = digits.drop_last();
        only_zeros_are_dropped(front);
        assert(front.take(kept.len() as int) =~= digits.take(kept.len() as int));
        let scale = pow10((front.len() - kept.len()) as nat);
        assert(pow10((digits.len() - kept.len()) as nat) == scale * 10);
        assert((digits_value(kept) * scale) * 10 == digits_value(kept) * (scale * 10))
            by (nonlinear_arith);
    } else {
        assert(digits.take(kept.len() as int) =~= digits);
        assert(digits_value(digits) * 1 == digits_value(digits));
    }
}

/// Rounding at a number of fraction digits leaves digits that write the nearest
/// number with that many, a tie going away from zero, in front of the separator
/// and behind it as the split says.
pub proof fn rounding_leaves_the_nearest_digits(
    digits: &mut Vec<u8>,
    integer: &[u8],
    fraction: &[u8],
    limit: usize,
    split: (usize, usize),
)
    requires
        all_digits(integer@),
        all_digits(fraction@),
        limit < fraction@.len(),
        call_ensures(round_into, (digits, integer, fraction, limit), split),
    ensures
        ({
            let exact = digits_value(integer@ + fraction@);
            let scale = pow10((fraction@.len() - limit) as nat);
            let shown = digits_value(final(digits)@);
            &&& all_digits(final(digits)@)
            &&& 2 * exact < (2 * shown + 1) * scale
            &&& (2 * shown - 1) * scale <= 2 * exact
            &&& split.0 + limit == final(digits)@.len()
            &&& split.1 <= limit
            &&& split.1 > 0 ==> final(digits)@[split.0 + split.1 - 1] != 0x30
            &&& forall|i: int|
                split.0 + split.1 <= i < final(digits)@.len() ==> final(digits)@[i] == 0x30
        }),
{
    rounded_digits_are_the_nearest(integer@, fraction@, limit as nat);
    let after = final(digits)@;
    let behind = after.skip(split.0 as int);
    only_zeros_are_dropped(behind);
    zeros_were_dropped(behind);
    assert(without_trailing_zeros(behind).len() == split.1);
    assert forall|i: int|
        split.0 + split.1 <= i < after.len() implies after[i] == 0x30 by {
        assert(behind[i - split.0] == after[i]);
    }
    if split.1 > 0 {
        assert(without_trailing_zeros(behind).last() == after[split.0 + split.1 - 1]);
    }
}

/// What was dropped was zeros.
proof fn zeros_were_dropped(digits: Seq<u8>)
    ensures
        forall|i: int|
            without_trailing_zeros(digits).len() <= i < digits.len() ==> digits[i] == 0x30,
    decreases digits.len(),
{
    if digits.len() > 0 && digits.last() == 0x30 {
        let front = digits.drop_last();
        zeros_were_dropped(front);
        assert forall|i: int|
            without_trailing_zeros(digits).len() <= i < digits.len() implies digits[i] == 0x30 by {
            if i < front.len() {
                assert(front[i] == digits[i]);
            }
        }
    }
}

/// The digits that rounding leaves write the nearest number.
pub proof fn rounded_digits_are_the_nearest(integer: Seq<u8>, fraction: Seq<u8>, limit: nat)
    requires
        all_digits(integer),
        all_digits(fraction),
        limit < fraction.len(),
    ensures
        ({
            let exact = digits_value(integer + fraction);
            let scale = pow10((fraction.len() - limit) as nat);
            let kept = rounded_digits(integer, fraction, limit);
            &&& all_digits(kept)
            &&& integer.len() + limit <= kept.len() <= integer.len() + limit + 1
            &&& 2 * exact < (2 * digits_value(kept) + 1) * scale
            &&& (2 * digits_value(kept) - 1) * scale <= 2 * exact
        }),
{
    let exact = digits_value(integer + fraction);
    let places = (fraction.len() - limit) as nat;
    let value = rounded(exact, places);
    let width = integer.len() + limit;
    rounding_is_to_the_nearest(exact, places);
    let shown = integer + fraction.take(limit as int);
    let dropped = fraction.skip(limit as int);
    assert forall|i: int| 0 <= i < shown.len() implies is_digit(#[trigger] shown[i]) by {
        if i < integer.len() {
            assert(is_digit(integer[i]));
        } else {
            assert(is_digit(fraction[i - integer.len()]));
        }
    }
    assert forall|i: int| 0 <= i < dropped.len() implies is_digit(#[trigger] dropped[i]) by {
        assert(is_digit(fraction[i + limit]));
    }
    assert(integer + fraction =~= shown + dropped);
    rounded_by_first_dropped(shown, dropped);
    digits_value_bound(shown);
    assert(value <= pow10(width));
    assert(pow10(width + 1) == pow10(width) * 10);
    pow10_positive(width);
    a_number_is_read_as_written(
        value,
        if value < pow10(width) {
            width
        } else {
            width + 1
        },
    );
}

} // verus!
