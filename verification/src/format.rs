//! The bulk formatter and its arena: a window of a column rendered as text, with
//! every choice that is a user setting taken from the caller.

use vstd::prelude::*;

use crate::batch::{no_such_column, set_last_column_error, ColumnKind, ReldexBatch, ValueModel,
    ValueRef};
use crate::counters::{next_count, Kind, LiveCounters};
use crate::decimal::{all_digits, digit_text, digits_value, digits_value_concat, grouped,
    grouping_only_adds_separators, grouping_starts_with_a_digit, is_digit, only_zeros_are_dropped,
    pow10, push_digits, push_grouped, round_into, rounded_digits, rounded_digits_are_the_nearest,
    split_from_end, without_trailing_zeros};
use crate::slots::{delimits, encoded, end_to_end, TextSlots};
use crate::status::{Boundary, ReldexStatus};
use crate::strings::{InParam, ReldexStr};

verus! {

/// How a timestamp is rendered.
#[derive(Debug, Clone, Copy, PartialEq, Eq, Structural)]
pub enum ReldexTimestampStyle {
    /// A style this header does not know; treated as `Iso8601`.
    Unknown,
    /// `2026-01-02T13:45:30.123456789+07:00`, with the fractional part and the
    /// zone present only when the value has them.
    Iso8601,
    /// The same, with a space instead of the `T`.
    Iso8601Space,
    /// `2026-01-02`: the date only.
    DateOnly,
}

/// How raw bytes are rendered.
#[derive(Debug, Clone, Copy, PartialEq, Eq, Structural)]
pub enum ReldexBytesStyle {
    /// A style this header does not know; treated as `HexUpper`.
    Unknown,
    /// `0A1B2C`.
    HexUpper,
    /// `0a1b2c`.
    HexLower,
}

/// The user's formatting settings, passed in per call. Zero means the
/// documented default in every field.
#[derive(Debug, Clone, Copy)]
pub struct ReldexFormatOptions<'a> {
    /// The decimal separator, as a Unicode scalar. `0` means `.`.
    pub decimal_separator: u32,
    /// The digit-group separator, as a Unicode scalar. `0` means no grouping.
    pub grouping_separator: u32,
    /// How many digits per group. `0` means 3 when grouping is on.
    pub grouping_size: u32,
    /// A [`ReldexTimestampStyle`].
    pub timestamp_style: i32,
    /// A [`ReldexBytesStyle`].
    pub bytes_style: i32,
    /// How many fraction digits to show. Negative and `0` mean "as stored".
    pub max_fraction_digits: i32,
    /// How many bytes of a raw value to render before eliding the rest. `0`
    /// means 32.
    pub max_bytes_rendered: u32,
    /// What to write for NULL.
    pub null_text: ReldexStr<'a>,
    /// What to write for a cell whose large object was taken out of the batch.
    /// Empty means `[LOB]`.
    pub taken_text: ReldexStr<'a>,
}

/// The settings with every default already applied.
#[derive(Debug, Clone, Copy)]
pub struct Resolved<'a> {
    pub decimal: char,
    pub grouping: Option<char>,
    pub grouping_size: usize,
    pub timestamp_style: i32,
    pub bytes_upper: bool,
    pub max_fraction_digits: Option<usize>,
    pub max_bytes: usize,
    pub null_text: &'a str,
    pub taken_text: &'a str,
}

/// The settings as contracts speak of them.
#[verifier::ext_equal]
pub struct Settings {
    pub decimal: char,
    pub grouping: Option<char>,
    pub grouping_size: nat,
    pub timestamp_style: int,
    pub bytes_upper: bool,
    pub max_fraction_digits: Option<nat>,
    pub max_bytes: nat,
    pub null_text: Seq<char>,
    pub taken_text: Seq<char>,
}

impl View for Resolved<'_> {
    type V = Settings;

    open spec fn view(&self) -> Settings {
        Settings {
            decimal: self.decimal,
            grouping: self.grouping,
            grouping_size: self.grouping_size as nat,
            timestamp_style: self.timestamp_style as int,
            bytes_upper: self.bytes_upper,
            max_fraction_digits: match self.max_fraction_digits {
                Some(limit) => Some(limit as nat),
                None => None,
            },
            max_bytes: self.max_bytes as nat,
            null_text: self.null_text@,
            taken_text: self.taken_text@,
        }
    }
}

/// The character a separator setting names: none for zero and for what is no
/// Unicode scalar.
pub open spec fn separator(scalar: u32) -> Option<char> {
    if scalar != 0 && vstd::utf8::is_scalar(scalar) {
        Some(scalar as char)
    } else {
        None
    }
}

/// The value of a setting that has a default for zero.
pub open spec fn or_default(value: u32, default: nat) -> nat {
    if value == 0 {
        default
    } else {
        value as nat
    }
}

impl ReldexFormatOptions<'_> {
    /// Whether both texts can be read.
    pub open spec fn readable(self) -> bool {
        self.null_text.readable() && self.taken_text.readable()
    }

    /// The settings with the documented defaults applied. A text that is not
    /// UTF-8 counts as absent.
    pub open spec fn resolved(self) -> Settings {
        Settings {
            decimal: match separator(self.decimal_separator) {
                Some(ch) => ch,
                None => '.',
            },
            grouping: separator(self.grouping_separator),
            grouping_size: or_default(self.grouping_size, 3),
            timestamp_style: self.timestamp_style as int,
            bytes_upper: self.bytes_style != ReldexBytesStyle::HexLower as i32,
            max_fraction_digits: if self.max_fraction_digits > 0 {
                Some(self.max_fraction_digits as nat)
            } else {
                None
            },
            max_bytes: or_default(self.max_bytes_rendered, 32),
            null_text: match self.null_text.text() {
                Some(text) => text,
                None => Seq::empty(),
            },
            taken_text: match self.taken_text.text() {
                Some(text) => if text.len() == 0 {
                    "[LOB]"@
                } else {
                    text
                },
                None => "[LOB]"@,
            },
        }
    }
}

/// `char::from_u32` gives the character of a Unicode scalar, and nothing for
/// any other number.
#[verifier::external_body]
fn scalar_char(scalar: u32) -> (ch: Option<char>)
    ensures
        ch is Some <==> vstd::utf8::is_scalar(scalar),
        ch matches Some(ch) ==> ch as u32 == scalar,
{
    char::from_u32(scalar)
}

/// The character a separator setting names.
fn separator_char(scalar: u32) -> (ch: Option<char>)
    ensures
        ch == separator(scalar),
{
    if scalar == 0 {
        return None;
    }
    let ch = scalar_char(scalar);
    proof {
        if let Some(ch) = ch {
            vstd::utf8::char_u32_cast(ch, scalar);
        }
    }
    ch
}

impl<'a> ReldexFormatOptions<'a> {
    /// Applies the documented defaults.
    pub fn resolve(&self) -> (settings: Resolved<'a>)
        requires
            self.readable(),
        ensures
            settings@ == self.resolved(),
    {
        Resolved {
            decimal: match separator_char(self.decimal_separator) {
                Some(ch) => ch,
                None => '.',
            },
            grouping: separator_char(self.grouping_separator),
            grouping_size: if self.grouping_size == 0 {
                3
            } else {
                self.grouping_size as usize
            },
            timestamp_style: self.timestamp_style,
            bytes_upper: self.bytes_style != ReldexBytesStyle::HexLower as i32,
            max_fraction_digits: if self.max_fraction_digits > 0 {
                Some(self.max_fraction_digits as usize)
            } else {
                None
            },
            max_bytes: if self.max_bytes_rendered == 0 {
                32
            } else {
                self.max_bytes_rendered as usize
            },
            null_text: match self.null_text.as_str() {
                Some(text) => text,
                None => {
                    proof {
                        reveal_strlit("");
                    }
                    assert(""@ =~= Seq::<char>::empty());
                    ""
                },
            },
            taken_text: match self.taken_text.as_str() {
                Some(text) => if text.is_empty() {
                    "[LOB]"
                } else {
                    text
                },
                None => "[LOB]",
            },
        }
    }
}

impl Default for ReldexFormatOptions<'_> {
    /// `.` as the decimal separator, no grouping, ISO-8601 timestamps, uppercase
    /// hex, values as stored.
    fn default() -> (options: Self)
        ensures
            options.readable(),
            options.decimal_separator == 0,
            options.grouping_separator == 0,
            options.grouping_size == 0,
            options.timestamp_style == ReldexTimestampStyle::Iso8601 as i32,
            options.bytes_style == ReldexBytesStyle::HexUpper as i32,
            options.max_fraction_digits == -1,
            options.max_bytes_rendered == 0,
            options.null_text.carries(Seq::empty()),
            options.taken_text.carries(Seq::empty()),
    {
        ReldexFormatOptions {
            decimal_separator: 0,
            grouping_separator: 0,
            grouping_size: 0,
            timestamp_style: ReldexTimestampStyle::Iso8601 as i32,
            bytes_style: ReldexBytesStyle::HexUpper as i32,
            max_fraction_digits: -1,
            max_bytes_rendered: 0,
            null_text: ReldexStr::empty(),
            taken_text: ReldexStr::empty(),
        }
    }
}

/// Where `ch` first stands in `text`, or its length where it does not.
pub open spec fn find(text: Seq<char>, ch: char) -> int
    decreases text.len(),
{
    if text.len() == 0 || text[0] == ch {
        0
    } else {
        1 + find(text.drop_first(), ch)
    }
}

/// The first place is the one that no earlier place equals.
proof fn find_is(text: Seq<char>, ch: char, index: int)
    requires
        0 <= index <= text.len(),
        forall|i: int| 0 <= i < index ==> text[i] != ch,
        index < text.len() ==> text[index] == ch,
    ensures
        find(text, ch) == index,
    decreases text.len(),
{
    if text.len() > 0 && index > 0 {
        assert(text[0] != ch);
        find_is(text.drop_first(), ch, index - 1);
    }
}

/// `find` stays within the text and stops at the character.
proof fn find_bounds(text: Seq<char>, ch: char)
    ensures
        0 <= find(text, ch) <= text.len(),
        find(text, ch) < text.len() ==> text[find(text, ch)] == ch,
    decreases text.len(),
{
    if text.len() > 0 && text[0] != ch {
        find_bounds(text.drop_first(), ch);
    }
}

/// What stands in front of the first `ch`.
pub open spec fn before(text: Seq<char>, ch: char) -> Seq<char> {
    text.take(find(text, ch))
}

/// What stands behind the first `ch`; nothing where there is none.
pub open spec fn after(text: Seq<char>, ch: char) -> Seq<char> {
    if find(text, ch) < text.len() {
        text.skip(find(text, ch) + 1)
    } else {
        Seq::empty()
    }
}

/// Characters as the bytes they are in ASCII.
pub open spec fn ascii_bytes(text: Seq<char>) -> Seq<u8> {
    text.map_values(|ch: char| ch as u8)
}

/// Whether every character is a decimal digit.
pub open spec fn digits_only(text: Seq<char>) -> bool {
    forall|i: int| 0 <= i < text.len() ==> '0' <= #[trigger] text[i] <= '9'
}

/// Whether a number carries a minus sign.
pub open spec fn negative(canonical: Seq<char>) -> bool {
    canonical.len() > 0 && canonical[0] == '-'
}

/// A number without its minus sign.
pub open spec fn unsigned(canonical: Seq<char>) -> Seq<char> {
    if negative(canonical) {
        canonical.drop_first()
    } else {
        canonical
    }
}

/// The digits in front of the decimal point.
pub open spec fn integer_digits(canonical: Seq<char>) -> Seq<u8> {
    ascii_bytes(before(unsigned(canonical), '.'))
}

/// The digits behind the decimal point.
pub open spec fn fraction_digits(canonical: Seq<char>) -> Seq<u8> {
    ascii_bytes(after(unsigned(canonical), '.'))
}

/// Whether a rendering is a plain decimal: an optional minus sign, digits, and
/// optionally a point and more digits.
pub open spec fn plain_decimal(canonical: Seq<char>) -> bool {
    digits_only(before(unsigned(canonical), '.')) && digits_only(after(unsigned(canonical), '.'))
}

/// The digits a plain decimal is shown with: those stored, or what rounding at
/// the limit leaves of them.
pub open spec fn kept_digits(canonical: Seq<char>, limit: Option<nat>) -> Seq<u8> {
    let integer = integer_digits(canonical);
    let fraction = fraction_digits(canonical);
    match limit {
        Some(limit) if fraction.len() > limit => rounded_digits(integer, fraction, limit),
        _ => integer + fraction,
    }
}

/// The digits shown in front of the decimal separator and behind it. Rounding
/// drops zeros at the end.
pub open spec fn shown_digits(canonical: Seq<char>, limit: Option<nat>) -> (Seq<u8>, Seq<u8>) {
    let fraction = fraction_digits(canonical);
    match limit {
        Some(limit) if fraction.len() > limit => {
            let (whole, part) = split_from_end(kept_digits(canonical, Some(limit)), limit);
            (whole, without_trailing_zeros(part))
        },
        _ => (integer_digits(canonical), fraction),
    }
}

/// Digits as text: the sign, the whole part in groups, and the fraction behind
/// its separator. Where there is no whole part, a zero stands for it.
pub open spec fn decimal_text(
    negative: bool,
    whole: Seq<u8>,
    part: Seq<u8>,
    settings: Settings,
) -> Seq<char> {
    let sign = if negative {
        seq!['-']
    } else {
        Seq::empty()
    };
    let zero = if whole.len() == 0 {
        seq!['0']
    } else {
        Seq::empty()
    };
    let integer = match settings.grouping {
        None => digit_text(whole),
        Some(separator) => grouped(whole, separator, settings.grouping_size),
    };
    let fraction = if part.len() > 0 {
        seq![settings.decimal] + digit_text(part)
    } else {
        Seq::empty()
    };
    sign + zero + integer + fraction
}

/// A number as text. What is no plain decimal is passed through.
pub open spec fn number_text(canonical: Seq<char>, settings: Settings) -> Seq<char> {
    if plain_decimal(canonical) {
        let (whole, part) = shown_digits(canonical, settings.max_fraction_digits);
        decimal_text(negative(canonical), whole, part, settings)
    } else {
        canonical
    }
}

/// A plain decimal is ASCII.
proof fn plain_decimal_is_ascii(canonical: Seq<char>)
    requires
        plain_decimal(canonical),
    ensures
        vstd::utf8::is_ascii_chars(canonical),
{
    let rest = unsigned(canonical);
    find_bounds(rest, '.');
    let point = find(rest, '.');
    assert forall|i: int| 0 <= i < rest.len() implies '\0' <= #[trigger] rest[i] <= '\u{7f}' by {
        if i < point {
            assert(rest[i] == before(rest, '.')[i]);
        } else if i > point {
            assert(rest[i] == after(rest, '.')[i - point - 1]);
        }
    }
    assert forall|i: int| 0 <= i < canonical.len() implies '\0' <= #[trigger] canonical[i]
        <= '\u{7f}' by {
        if negative(canonical) {
            if i > 0 {
                assert(canonical[i] == rest[i - 1]);
            }
        } else {
            assert(canonical[i] == rest[i]);
        }
    }
}

/// Whether every byte of `bytes` is an ASCII digit.
fn only_digits(bytes: &[u8]) -> (only: bool)
    ensures
        only == all_digits(bytes@),
{
    let mut index: usize = 0;
    while index < bytes.len()
        invariant
            index <= bytes@.len(),
            forall|i: int| 0 <= i < index ==> is_digit(#[trigger] bytes@[i]),
        decreases bytes@.len() - index,
    {
        if bytes[index] < 0x30 || bytes[index] > 0x39 {
            assert(!is_digit(bytes@[index as int]));
            return false;
        }
        index += 1;
    }
    true
}

/// Digits as characters are digits as bytes.
proof fn digits_only_as_bytes(text: Seq<char>)
    requires
        vstd::utf8::is_ascii_chars(text),
    ensures
        digits_only(text) <==> all_digits(ascii_bytes(text)),
{
    let bytes = ascii_bytes(text);
    assert forall|i: int| 0 <= i < text.len() implies ('0' <= #[trigger] text[i] <= '9'
        <==> is_digit(bytes[i])) by {}
    if all_digits(bytes) {
        assert forall|i: int| 0 <= i < text.len() implies '0' <= #[trigger] text[i] <= '9' by {
            assert(is_digit(bytes[i]));
        }
    }
    if digits_only(text) {
        assert forall|i: int| 0 <= i < bytes.len() implies is_digit(#[trigger] bytes[i]) by {
            assert('0' <= text[i] <= '9');
        }
    }
}

/// Takes a plain decimal apart: whether it is negative, and its digits in front
/// of and behind the point.
fn plain_parts<'a>(canonical: &'a str) -> (parts: Option<(bool, &'a [u8], &'a [u8])>)
    ensures
        parts is Some <==> plain_decimal(canonical@),
        parts matches Some((signed, integer, fraction)) ==> {
            &&& signed == negative(canonical@)
            &&& integer@ == integer_digits(canonical@)
            &&& fraction@ == fraction_digits(canonical@)
            &&& all_digits(integer@)
            &&& all_digits(fraction@)
        },
{
    if !canonical.is_ascii() {
        proof {
            if plain_decimal(canonical@) {
                plain_decimal_is_ascii(canonical@);
            }
        }
        return None;
    }
    let bytes = canonical.as_bytes();
    proof {
        vstd::string::is_ascii_spec_bytes(canonical);
        assert(bytes@ =~= ascii_bytes(canonical@));
    }
    let signed = bytes.len() > 0 && bytes[0] == 0x2d;
    let start: usize = if signed {
        1
    } else {
        0
    };
    let ghost rest = unsigned(canonical@);
    assert(rest =~= canonical@.skip(start as int));
    let mut point: usize = start;
    while point < bytes.len() && bytes[point] != 0x2e
        invariant
            start <= point <= bytes@.len(),
            bytes@ == ascii_bytes(canonical@),
            vstd::utf8::is_ascii_chars(canonical@),
            forall|i: int| start <= i < point ==> #[trigger] canonical@[i] != '.',
        decreases bytes@.len() - point,
    {
        assert(canonical@[point as int] as u8 != 0x2e);
        point += 1;
    }
    proof {
        assert(point < bytes@.len() ==> canonical@[point as int] as u8 == 0x2e);
        assert(point < bytes@.len() ==> canonical@[point as int] == '.');
        assert forall|i: int| 0 <= i < point - start implies rest[i] != '.' by {
            assert(rest[i] == canonical@[i + start]);
        }
        find_is(rest, '.', point - start);
    }
    let integer = vstd::slice::slice_subrange(bytes, start, point);
    let fraction = if point < bytes.len() {
        vstd::slice::slice_subrange(bytes, point + 1, bytes.len())
    } else {
        vstd::slice::slice_subrange(bytes, point, point)
    };
    proof {
        assert(integer@ =~= integer_digits(canonical@));
        assert(fraction@ =~= fraction_digits(canonical@));
        digits_only_as_bytes(before(rest, '.'));
        digits_only_as_bytes(after(rest, '.'));
    }
    if only_digits(integer) && only_digits(fraction) {
        Some((signed, integer, fraction))
    } else {
        None
    }
}

/// Appends the first `whole` digits as the whole part, and the next `part` ones
/// as the fraction.
fn push_decimal_text(
    out: &mut String,
    signed: bool,
    digits: &Vec<u8>,
    whole: usize,
    part: usize,
    options: &Resolved<'_>,
)
    requires
        whole + part <= digits@.len(),
    ensures
        final(out)@ == old(out)@ + decimal_text(
            signed,
            digits@.take(whole as int),
            digits@.subrange(whole as int, whole + part),
            options@,
        ),
{
    if signed {
        out.push('-');
    }
    if whole == 0 {
        out.push('0');
    }
    match options.grouping {
        None => {
            push_digits(out, digits, 0, whole);
            assert(digits@.subrange(0, whole as int) =~= digits@.take(whole as int));
        },
        Some(separator) => push_grouped(out, digits, whole, separator, options.grouping_size),
    }
    if part > 0 {
        out.push(options.decimal);
        let total: usize = digits.len();
        assert(whole + part <= total);
        push_digits(out, digits, whole, whole + part);
    }
    assert(out@ =~= old(out)@ + decimal_text(
        signed,
        digits@.take(whole as int),
        digits@.subrange(whole as int, whole + part),
        options@,
    ));
}

/// Renders a canonical number into `out`. `digits` is scratch space, and keeps
/// the digits that were shown.
pub fn format_number_into(
    out: &mut String,
    canonical: &str,
    options: &Resolved<'_>,
    digits: &mut Vec<u8>,
)
    ensures
        final(out)@ == old(out)@ + number_text(canonical@, options@),
        final(digits)@ == if plain_decimal(canonical@) {
            kept_digits(canonical@, options@.max_fraction_digits)
        } else {
            old(digits)@
        },
{
    let (signed, integer, fraction) = match plain_parts(canonical) {
        None => {
            out.append(canonical);
            return;
        },
        Some(parts) => parts,
    };
    let ghost shown = shown_digits(canonical@, options@.max_fraction_digits);
    let split: (usize, usize) = match options.max_fraction_digits {
        Some(limit) if fraction.len() > limit => round_into(digits, integer, fraction, limit),
        _ => {
            digits.clear();
            digits.extend_from_slice(integer);
            digits.extend_from_slice(fraction);
            assert(digits@ =~= integer@ + fraction@);
            (integer.len(), fraction.len())
        },
    };
    assert(digits@.take(split.0 as int) =~= shown.0);
    assert(digits@.subrange(split.0 as int, split.0 + split.1) =~= shown.1);
    push_decimal_text(out, signed, digits, split.0, split.1, options);
}

/// The hexadecimal digit with value `value`.
pub open spec fn hex_digit(value: int, upper: bool) -> char {
    if value < 10 {
        (('0' as u32) + value) as char
    } else if upper {
        (('A' as u32) + value - 10) as char
    } else {
        (('a' as u32) + value - 10) as char
    }
}

/// Bytes in hexadecimal, two digits each.
pub open spec fn hex_text(bytes: Seq<u8>, upper: bool) -> Seq<char>
    decreases bytes.len(),
{
    if bytes.len() == 0 {
        Seq::empty()
    } else {
        hex_text(bytes.drop_last(), upper).push(hex_digit(bytes.last() as int / 16, upper)).push(
            hex_digit(bytes.last() as int % 16, upper),
        )
    }
}

/// Raw bytes as text: the first of them, and an ellipsis for the others.
pub open spec fn bytes_text(bytes: Seq<u8>, settings: Settings) -> Seq<char> {
    if bytes.len() <= settings.max_bytes {
        hex_text(bytes, settings.bytes_upper)
    } else {
        hex_text(bytes.take(settings.max_bytes as int), settings.bytes_upper).push('…')
    }
}

/// Appends the hexadecimal digit with value `value`.
fn push_hex_digit(out: &mut String, value: u8, upper: bool)
    requires
        value < 16,
    ensures
        final(out)@ == old(out)@.push(hex_digit(value as int, upper)),
{
    let digit: u8 = if value < 10 {
        0x30 + value
    } else if upper {
        0x41 + (value - 10)
    } else {
        0x61 + (value - 10)
    };
    out.push(digit as char);
}

/// Renders raw bytes into `out`.
pub fn format_bytes_into(out: &mut String, bytes: &[u8], options: &Resolved<'_>)
    ensures
        final(out)@ == old(out)@ + bytes_text(bytes@, options@),
{
    let shown: usize = if bytes.len() < options.max_bytes {
        bytes.len()
    } else {
        options.max_bytes
    };
    let mut index: usize = 0;
    assert(out@ =~= old(out)@ + hex_text(bytes@.take(0), options.bytes_upper));
    while index < shown
        invariant
            index <= shown <= bytes@.len(),
            out@ == old(out)@ + hex_text(bytes@.take(index as int), options.bytes_upper),
        decreases shown - index,
    {
        push_hex_digit(out, bytes[index] / 16, options.bytes_upper);
        push_hex_digit(out, bytes[index] % 16, options.bytes_upper);
        index += 1;
        proof {
            let taken = bytes@.take(index as int);
            assert(taken.drop_last() =~= bytes@.take(index - 1));
            assert(out@ =~= old(out)@ + hex_text(taken, options.bytes_upper));
        }
    }
    assert(shown == bytes@.len() ==> bytes@.take(shown as int) =~= bytes@);
    if shown < bytes.len() {
        out.push('…');
    }
    assert(out@ =~= old(out)@ + bytes_text(bytes@, options@));
}

/// A canonical timestamp in the caller's style.
pub open spec fn timestamp_text(canonical: Seq<char>, style: int) -> Seq<char> {
    if style == ReldexTimestampStyle::DateOnly as int {
        before(canonical, 'T')
    } else if style == ReldexTimestampStyle::Iso8601Space as int && find(canonical, 'T')
        < canonical.len() {
        before(canonical, 'T').push(' ') + after(canonical, 'T')
    } else {
        canonical
    }
}

/// What stands in the output once `index` characters have been walked: a date
/// ends at its `T`, and a spaced timestamp has a space in its place.
spec fn walked(canonical: Seq<char>, index: int, spaced: bool) -> Seq<char> {
    let point = find(canonical, 'T');
    if index <= point {
        canonical.take(index)
    } else if spaced {
        canonical.take(point).push(' ') + canonical.subrange(point + 1, index)
    } else {
        canonical.take(point)
    }
}

/// Reshapes a canonical timestamp into `out`.
pub fn format_timestamp_into(out: &mut String, canonical: &str, options: &Resolved<'_>)
    ensures
        final(out)@ == old(out)@ + timestamp_text(canonical@, options@.timestamp_style),
{
    let date_only = options.timestamp_style == ReldexTimestampStyle::DateOnly as i32;
    let spaced = options.timestamp_style == ReldexTimestampStyle::Iso8601Space as i32;
    if !date_only && !spaced {
        out.append(canonical);
        return;
    }
    let mut chars = canonical.chars();
    let mut seen = false;
    let ghost mut index: int = 0;
    proof {
        find_bounds(canonical@, 'T');
        assert(canonical@.skip(0) =~= canonical@);
        assert(out@ =~= old(out)@ + walked(canonical@, 0, spaced));
    }
    loop
        invariant
            0 <= index <= canonical@.len(),
            0 <= find(canonical@, 'T') <= canonical@.len(),
            find(canonical@, 'T') < canonical@.len() ==> canonical@[find(canonical@, 'T')] == 'T',
            seen == (index > find(canonical@, 'T')),
            vstd::std_specs::iter::IteratorSpec::remaining(&chars) == canonical@.skip(index),
            out@ == old(out)@ + walked(canonical@, index, spaced),
        ensures
            out@ == old(out)@ + walked(canonical@, canonical@.len() as int, spaced),
        decreases canonical@.len() - index,
    {
        match chars.next() {
            None => {
                assert(canonical@.skip(index).len() == 0);
                break;
            },
            Some(ch) => {
                assert(ch == canonical@[index]);
                assert(canonical@.skip(index).drop_first() =~= canonical@.skip(index + 1));
                proof {
                    if !seen && ch == 'T' {
                        find_within(canonical@, 'T', index);
                    }
                }
                if seen {
                    if spaced {
                        out.push(ch);
                    }
                } else if ch == 'T' {
                    seen = true;
                    if spaced {
                        out.push(' ');
                    }
                } else {
                    out.push(ch);
                }
                proof {
                    index = index + 1;
                    assert(out@ =~= old(out)@ + walked(canonical@, index, spaced));
                }
            },
        }
    }
    assert(walked(canonical@, canonical@.len() as int, spaced) =~= timestamp_text(
        canonical@,
        options@.timestamp_style,
    ));
}

/// The first place of a character is not behind any place of it.
proof fn find_within(text: Seq<char>, ch: char, index: int)
    requires
        0 <= index < text.len(),
        text[index] == ch,
    ensures
        find(text, ch) <= index,
    decreases text.len(),
{
    if text[0] != ch {
        find_within(text.drop_first(), ch, index - 1);
    }
}

/// A cell as text.
pub open spec fn cell_text(value: ValueModel, kind: Option<ColumnKind>, settings: Settings) -> Seq<
    char,
> {
    match value {
        ValueModel::Null => settings.null_text,
        ValueModel::Taken => settings.taken_text,
        ValueModel::Boolean(value) => if value {
            "true"@
        } else {
            "false"@
        },
        ValueModel::Number(canonical) => number_text(canonical, settings),
        ValueModel::Float(canonical) => number_text(canonical, settings),
        ValueModel::Double(canonical) => number_text(canonical, settings),
        ValueModel::Text(text) => text,
        ValueModel::Json(text) => text,
        ValueModel::Unsupported(text) => text,
        ValueModel::Bytes(bytes) => bytes_text(bytes, settings),
        ValueModel::Timestamp(canonical) => timestamp_text(canonical, settings.timestamp_style),
        ValueModel::Unrecognized => if kind == Some(ColumnKind::Lob) {
            settings.taken_text
        } else {
            Seq::empty()
        },
    }
}

/// The scratch space after a cell was rendered: a number leaves its digits.
pub open spec fn scratch_after(value: ValueModel, settings: Settings, scratch: Seq<u8>) -> Seq<u8> {
    match value {
        ValueModel::Number(canonical) | ValueModel::Float(canonical) | ValueModel::Double(
            canonical,
        ) => if plain_decimal(canonical) {
            kept_digits(canonical, settings.max_fraction_digits)
        } else {
            scratch
        },
        _ => scratch,
    }
}

/// Renders one cell into `out`. `digits` is scratch space.
pub fn format_value_into(
    out: &mut String,
    digits: &mut Vec<u8>,
    value: &ValueRef<'_>,
    kind: Option<ColumnKind>,
    options: &Resolved<'_>,
)
    ensures
        final(out)@ == old(out)@ + cell_text(value@, kind, options@),
        final(digits)@ == scratch_after(value@, options@, old(digits)@),
{
    match value {
        ValueRef::Null => out.append(options.null_text),
        ValueRef::Taken => out.append(options.taken_text),
        ValueRef::Boolean(value) => out.append(
            if *value {
                "true"
            } else {
                "false"
            },
        ),
        ValueRef::Number(canonical) | ValueRef::Float(canonical) | ValueRef::Double(canonical) => {
            format_number_into(out, canonical, options, digits);
        },
        ValueRef::Text(text) | ValueRef::Json(text) | ValueRef::Unsupported(text) => {
            out.append(text);
        },
        ValueRef::Bytes(bytes) => format_bytes_into(out, bytes, options),
        ValueRef::Timestamp(canonical) => format_timestamp_into(out, canonical, options),
        ValueRef::Unrecognized => {
            if let Some(ColumnKind::Lob) = kind {
                out.append(options.taken_text);
            }
        },
    }
    assert(out@ =~= old(out)@ + cell_text(value@, kind, options@));
}

/// Rendered cells: one buffer plus offsets, the shape a text column has.
pub struct ReldexTextArena {
    slots: TextSlots,
    digits: Vec<u8>,
}

impl View for ReldexTextArena {
    type V = Seq<Seq<char>>;

    closed spec fn view(&self) -> Seq<Seq<char>> {
        self.slots@
    }
}

impl ReldexTextArena {
    /// An empty arena, counted.
    pub fn new(live: &mut LiveCounters) -> (arena: Self)
        ensures
            arena@ == Seq::<Seq<char>>::empty(),
            *final(live) == old(live).plus(Kind::Arena),
    {
        live.created(Kind::Arena);
        ReldexTextArena { slots: TextSlots::new(), digits: Vec::new() }
    }

    /// Puts `text` behind the others.
    pub fn push(&mut self, text: &str)
        ensures
            final(self)@ == old(self)@.push(text@),
    {
        let mut slots = TextSlots::new();
        core::mem::swap(&mut self.slots, &mut slots);
        self.slots = slots.push(text);
    }

    /// Forgets every text, and keeps the buffers they were in.
    fn clear(&mut self)
        ensures
            final(self)@ == Seq::<Seq<char>>::empty(),
    {
        let mut slots = TextSlots::new();
        core::mem::swap(&mut self.slots, &mut slots);
        self.slots = slots.cleared();
    }

    /// How many texts there are.
    fn count(&self) -> (count: usize)
        ensures
            count == self@.len(),
    {
        self.slots.len()
    }

    /// Shows the texts, `valid` bytes of the view being valid.
    fn show(&self, valid: u32) -> (view: ReldexArenaView<'_>)
        ensures
            view.shows(self@),
            view.struct_size == valid,
    {
        let buffer = self.slots.buffer();
        let nul: &'static [u8] = &[0u8];
        proof {
            let texts = end_to_end(encoded(self@));
            assert(buffer@.len() == 0 ==> nul@.take(0) =~= texts);
            assert(buffer@.take(buffer@.len() as int) =~= texts);
            assert(nul@ =~= seq![0u8]);
        }
        ReldexArenaView {
            struct_size: valid,
            data: if buffer.len() == 0 {
                nul
            } else {
                buffer
            },
            data_len: buffer.len(),
            offsets: self.slots.offsets(),
            count: self.count(),
        }
    }
}

/// What an arena looks like in memory, borrowed from it.
#[derive(Debug, Clone, Copy)]
pub struct ReldexArenaView<'a> {
    /// How many bytes of the view are valid.
    pub struct_size: u32,
    /// The readable memory at the texts, end to end. A NUL byte where there is
    /// no text.
    pub data: &'a [u8],
    /// How many bytes the texts take.
    pub data_len: usize,
    /// `count + 1` byte offsets into `data`, so that text `i` stands between
    /// `offsets[i]` and `offsets[i + 1]`.
    pub offsets: &'a [usize],
    /// How many texts there are.
    pub count: usize,
}

impl ReldexArenaView<'_> {
    /// Whether the view shows `texts`.
    pub open spec fn shows(self, texts: Seq<Seq<char>>) -> bool {
        &&& self.data_len <= self.data@.len()
        &&& self.data@.take(self.data_len as int) == end_to_end(encoded(texts))
        &&& self.data_len == 0 ==> self.data@ == seq![0u8]
        &&& delimits(self.offsets@, encoded(texts))
        &&& self.count == texts.len()
    }
}

/// A text of an arena is read between two of its offsets.
pub proof fn arena_text_between_offsets(view: ReldexArenaView<'_>, texts: Seq<Seq<char>>, index: int)
    requires
        view.shows(texts),
        0 <= index < texts.len(),
    ensures
        0 <= view.offsets@[index] <= view.offsets@[index + 1] <= view.data_len,
        view.data@.subrange(view.offsets@[index] as int, view.offsets@[index + 1] as int)
            == vstd::utf8::encode_utf8(texts[index]),
{
    crate::slots::slot_between_offsets(view.offsets@, encoded(texts), index);
    let all = view.data@.take(view.data_len as int);
    assert(view.data@.subrange(view.offsets@[index] as int, view.offsets@[index + 1] as int)
        =~= all.subrange(view.offsets@[index] as int, view.offsets@[index + 1] as int));
}

/// Makes an empty arena.
pub fn reldex_text_arena_create(boundary: &mut Boundary) -> (arena: Option<ReldexTextArena>)
    ensures
        old(boundary)@.in_waker ==> arena is None && final(boundary)@ == old(boundary)@.refused(),
        !old(boundary)@.in_waker ==> {
            &&& arena matches Some(arena) && arena@ == Seq::<Seq<char>>::empty()
            &&& final(boundary)@ == old(boundary)@.plus(Kind::Arena)
        },
{
    if boundary.refuse_reentrant() {
        return None;
    }
    Some(ReldexTextArena::new(&mut boundary.live))
}

/// Releases an arena. Nothing to release is no failure; a refused call leaves
/// the arena with the caller.
pub fn reldex_text_arena_release(boundary: &mut Boundary, arena: Option<ReldexTextArena>) -> (
    kept: Option<ReldexTextArena>)
    ensures
        old(boundary)@.in_waker ==> kept == arena && final(boundary)@ == old(boundary)@.refused(),
        !old(boundary)@.in_waker ==> kept is None && final(boundary)@ == if arena is Some {
            old(boundary)@.minus(Kind::Arena)
        } else {
            old(boundary)@
        },
{
    if boundary.refuse_reentrant() {
        return arena;
    }
    if arena.is_some() {
        boundary.live.destroyed(Kind::Arena);
    }
    None
}

/// Forgets every text of an arena, which keeps its buffers for the next ones.
pub fn reldex_text_arena_clear(boundary: &mut Boundary, arena: Option<&mut ReldexTextArena>)
    ensures
        old(boundary)@.in_waker ==> {
            &&& final(boundary)@ == old(boundary)@.refused()
            &&& arena matches Some(arena) ==> *final(arena) == *arena
        },
        !old(boundary)@.in_waker ==> {
            &&& final(boundary)@ == old(boundary)@
            &&& arena matches Some(arena) ==> final(arena)@ == Seq::<Seq<char>>::empty()
        },
{
    if boundary.refuse_reentrant() {
        return;
    }
    if let Some(arena) = arena {
        arena.clear();
    }
}

/// How many texts an arena holds.
pub fn reldex_text_arena_count(boundary: &mut Boundary, arena: Option<&ReldexTextArena>) -> (
    count: usize)
    ensures
        old(boundary)@.in_waker ==> count == 0 && final(boundary)@ == old(boundary)@.refused(),
        !old(boundary)@.in_waker ==> {
            &&& count == match arena {
                Some(arena) => arena@.len(),
                None => 0,
            }
            &&& final(boundary)@ == old(boundary)@
        },
{
    if boundary.refuse_reentrant() {
        return 0;
    }
    match arena {
        Some(arena) => arena.count(),
        None => 0,
    }
}

/// Shows an arena. `out` is how many bytes the caller's struct takes, or
/// nothing where it was refused.
pub fn reldex_text_arena_view<'a>(
    boundary: &mut Boundary,
    arena: Option<&'a ReldexTextArena>,
    out: Option<u32>,
) -> (view: Result<ReldexArenaView<'a>, ReldexStatus>)
    ensures
        old(boundary)@.in_waker ==> {
            &&& view == Err::<ReldexArenaView<'a>, _>(ReldexStatus::Reentrant)
            &&& final(boundary)@ == old(boundary)@.refused()
        },
        !old(boundary)@.in_waker ==> match (arena, out) {
            (None, _) => {
                &&& view == Err::<ReldexArenaView<'a>, _>(ReldexStatus::InvalidArgument)
                &&& final(boundary)@ == old(boundary)@.argument_error(
                    "reldex_text_arena_view: `arena` is null or unaligned"@,
                )
            },
            (Some(_), None) => {
                &&& view == Err::<ReldexArenaView<'a>, _>(ReldexStatus::InvalidArgument)
                &&& final(boundary)@ == old(boundary)@.argument_error(
                    "reldex_text_arena_view: `out` is null, unaligned, or too small"@,
                )
            },
            (Some(arena), Some(valid)) => {
                &&& view matches Ok(view) && view.shows(arena@) && view.struct_size == valid
                &&& final(boundary)@ == old(boundary)@
            },
        },
{
    if boundary.refuse_reentrant() {
        return Err(ReldexStatus::Reentrant);
    }
    match (arena, out) {
        (None, _) => Err(
            boundary.set_last_argument_error(
                "reldex_text_arena_view: `arena` is null or unaligned",
            ),
        ),
        (Some(_), None) => Err(
            boundary.set_last_argument_error(
                "reldex_text_arena_view: `out` is null, unaligned, or too small",
            ),
        ),
        (Some(arena), Some(valid)) => Ok(arena.show(valid)),
    }
}

/// Where a window of `count` rows from `start` ends in a batch of `rows` rows.
pub open spec fn window_end(start: usize, count: usize, rows: usize) -> int {
    if start + count < rows {
        start + count
    } else {
        rows as int
    }
}

/// The rows of a window of column `column`, rendered.
pub open spec fn window_texts(
    batch: ReldexBatch,
    column: int,
    start: usize,
    count: usize,
    settings: Settings,
) -> Seq<Seq<char>> {
    let end = window_end(start, count, batch.table().row_count);
    let stored = batch.table().columns@[column];
    Seq::new(
        if start < end {
            (end - start) as nat
        } else {
            0
        },
        |i: int| cell_text(stored.cell(start + i), Some(stored.data.family()), settings),
    )
}

/// The settings a call renders with: the caller's, or the defaults where it
/// passes none.
pub open spec fn call_settings(options: InParam<ReldexFormatOptions<'_>>) -> Settings {
    match options {
        InParam::Given(options) => options.resolved(),
        _ => default_settings(),
    }
}

/// The documented defaults.
pub open spec fn default_settings() -> Settings {
    Settings {
        decimal: '.',
        grouping: None,
        grouping_size: 3,
        timestamp_style: ReldexTimestampStyle::Iso8601 as int,
        bytes_upper: true,
        max_fraction_digits: None,
        max_bytes: 32,
        null_text: Seq::empty(),
        taken_text: "[LOB]"@,
    }
}

impl ReldexTextArena {
    /// Appends the rows of a window of column `column`, rendered.
    fn format_window(
        &mut self,
        batch: &ReldexBatch,
        column: usize,
        start: usize,
        count: usize,
        settings: &Resolved<'_>,
    )
        requires
            batch.wf(),
            column < batch.table().columns@.len(),
        ensures
            final(self)@ == old(self)@ + window_texts(
                *batch,
                column as int,
                start,
                count,
                settings@,
            ),
    {
        let rows = batch.rows();
        let stored = &rows.columns[column];
        let kind = stored.kind();
        let end: usize = if count < rows.row_count && start < rows.row_count - count {
            start + count
        } else {
            rows.row_count
        };
        let mut slots = TextSlots::new();
        core::mem::swap(&mut self.slots, &mut slots);
        let mut writer = slots.into_writer();
        let mut row: usize = start;
        let ghost held = writer.values@;
        let ghost cells = window_texts(*batch, column as int, start, count, settings@);
        assert(held =~= held + cells.take(0));
        while row < end
            invariant
                batch.table() == *rows,
                rows.wf(),
                *stored == rows.columns@[column as int],
                column < rows.columns@.len(),
                kind == stored.data.family(),
                end == window_end(start, count, rows.row_count),
                start <= row,
                start < end ==> row <= end,
                start >= end ==> row == start,
                cells == window_texts(*batch, column as int, start, count, settings@),
                writer.wf(),
                writer.pending() == Seq::<char>::empty(),
                writer.values@ == held + cells.take(row - start),
            decreases end - row,
        {
            assert(rows.columns@[column as int].data.wf());
            let value = stored.value(row);
            let ghost len = end_to_end(writer.values@).len() as int;
            let ghost buffered = writer.buffer@;
            assert(buffered.skip(len).len() == buffered.len() - len);
            format_value_into(&mut writer.buffer, &mut self.digits, &value, Some(kind), settings);
            assert(writer.buffer@.take(len) =~= buffered.take(len));
            assert(writer.pending() =~= cell_text(value@, Some(kind), settings@));
            writer.close();
            row += 1;
            assert(writer.values@ =~= held + cells.take(row - start));
        }
        assert(cells.take(row - start) =~= cells);
        self.slots = writer.finish();
    }
}

/// Renders rows of one column into an arena, one text for each row. Rows past
/// the end of the batch are left out.
pub fn reldex_batch_format_column(
    boundary: &mut Boundary,
    batch: Option<&ReldexBatch>,
    column: usize,
    row_start: usize,
    row_count: usize,
    options: InParam<ReldexFormatOptions<'_>>,
    arena: Option<&mut ReldexTextArena>,
) -> (status: ReldexStatus)
    requires
        batch matches Some(batch) ==> batch.wf(),
        options matches InParam::Given(options) ==> options.readable(),
    ensures
        status != ReldexStatus::Okay ==> (arena matches Some(arena) ==> final(arena)@ == arena@),
        old(boundary)@.in_waker ==> {
            &&& status == ReldexStatus::Reentrant
            &&& final(boundary)@ == old(boundary)@.refused()
        },
        !old(boundary)@.in_waker && batch is None ==> {
            &&& status == ReldexStatus::InvalidArgument
            &&& final(boundary)@ == old(boundary)@.argument_error(
                "reldex_batch_format_column: `batch` is null or unaligned"@,
            )
        },
        !old(boundary)@.in_waker && batch is Some && arena is None ==> {
            &&& status == ReldexStatus::InvalidArgument
            &&& final(boundary)@ == old(boundary)@.argument_error(
                "reldex_batch_format_column: `arena` is null or unaligned"@,
            )
        },
        !old(boundary)@.in_waker && batch is Some && arena is Some && options is Refused ==> {
            &&& status == ReldexStatus::InvalidArgument
            &&& final(boundary)@ == old(boundary)@.argument_error(
                "reldex_batch_format_column: `options` is unaligned or its struct_size is too small"@,
            )
        },
        !old(boundary)@.in_waker && batch is Some && arena is Some && options !is Refused ==> {
            let columns = batch->0.table().columns@.len();
            if column >= columns {
                &&& status == ReldexStatus::NotFound
                &&& final(boundary)@ == old(boundary)@.failed(
                    no_such_column("reldex_batch_format_column"@, column, columns),
                )
            } else {
                &&& status == ReldexStatus::Okay
                &&& final(boundary)@ == old(boundary)@
                &&& arena matches Some(arena) && final(arena)@ == arena@ + window_texts(
                    *batch->0,
                    column as int,
                    row_start,
                    row_count,
                    call_settings(options),
                )
            }
        },
{
    if boundary.refuse_reentrant() {
        return ReldexStatus::Reentrant;
    }
    let batch = match batch {
        None => return boundary.set_last_argument_error(
            "reldex_batch_format_column: `batch` is null or unaligned",
        ),
        Some(batch) => batch,
    };
    let arena = match arena {
        None => return boundary.set_last_argument_error(
            "reldex_batch_format_column: `arena` is null or unaligned",
        ),
        Some(arena) => arena,
    };
    let ghost given = options;
    let options = match options {
        InParam::Null => ReldexFormatOptions::default(),
        InParam::Refused => return boundary.set_last_argument_error(
            "reldex_batch_format_column: `options` is unaligned or its struct_size is too small",
        ),
        InParam::Given(options) => options,
    };
    let settings = options.resolve();
    assert(settings@ =~= call_settings(given));
    let columns: usize = batch.rows().columns.len();
    if column >= columns {
        return set_last_column_error(boundary, "reldex_batch_format_column", column, columns);
    }
    arena.format_window(batch, column, row_start, row_count, &settings);
    ReldexStatus::Okay
}

/// Digits are shown in place: a minus sign in front exactly where the number is
/// negative, whatever the other settings are; then the whole part, a zero where
/// there is none, with nothing added to it but separators; then, where there is a
/// fraction, the decimal separator and every digit of it.
pub proof fn digits_are_shown_in_place(
    negative: bool,
    whole: Seq<u8>,
    part: Seq<u8>,
    settings: Settings,
)
    requires
        all_digits(whole),
        all_digits(part),
    ensures
        ({
            let text = decimal_text(negative, whole, part, settings);
            let sign: int = if negative {
                1
            } else {
                0
            };
            let tail: int = if part.len() > 0 {
                part.len() as int + 1
            } else {
                0
            };
            let shown = text.subrange(sign, text.len() - tail);
            let expected = if whole.len() == 0 {
                seq!['0']
            } else {
                digit_text(whole)
            };
            &&& text.len() >= sign + 1 + tail
            &&& text[0] == '-' <==> negative
            &&& part.len() > 0 ==> text[text.len() - tail] == settings.decimal && text.skip(
                text.len() - part.len(),
            ) == digit_text(part)
            &&& settings.grouping is None ==> shown == expected
            &&& settings.grouping matches Some(separator) ==> {
                &&& !('0' <= separator <= '9') ==> shown.filter(|ch: char| ch != separator)
                    == expected
                &&& whole.len() > 0 ==> shown == grouped(
                    whole,
                    separator,
                    settings.grouping_size,
                )
            }
        }),
{
    let text = decimal_text(negative, whole, part, settings);
    let sign: int = if negative {
        1
    } else {
        0
    };
    let tail: int = if part.len() > 0 {
        part.len() as int + 1
    } else {
        0
    };
    let shown = text.subrange(sign, text.len() - tail);
    if whole.len() > 0 {
        assert(is_digit(whole[0]));
        assert(digit_text(whole)[0] == whole[0] as char);
    }
    match settings.grouping {
        None => {
            if whole.len() == 0 {
                assert(shown =~= seq!['0']);
            } else {
                assert(shown =~= digit_text(whole));
            }
        },
        Some(separator) => {
            let kept = |ch: char| ch != separator;
            if whole.len() == 0 {
                assert(grouped(whole, separator, settings.grouping_size) =~= digit_text(
                    whole,
                ));
                assert(shown =~= seq!['0']);
                reveal(Seq::filter);
                assert(seq!['0'].drop_last() =~= Seq::<char>::empty());
                assert(Seq::<char>::empty().filter(kept) =~= Seq::<char>::empty());
                if !('0' <= separator <= '9') {
                    assert(shown.filter(kept) =~= seq!['0']);
                }
            } else {
                grouping_starts_with_a_digit(whole, separator, settings.grouping_size);
                assert(shown =~= grouped(
                    whole,
                    separator,
                    settings.grouping_size,
                ));
                if !('0' <= separator <= '9') {
                    grouping_only_adds_separators(whole, separator, settings.grouping_size);
                }
            }
        },
    }
    if part.len() > 0 {
        assert(text.skip(text.len() - part.len()) =~= digit_text(part));
    }
}

/// Every number keeps its sign, however it is grouped or rounded: its rendering
/// begins with a minus exactly where the number does.
pub proof fn a_number_keeps_its_sign(canonical: Seq<char>, settings: Settings)
    requires
        plain_decimal(canonical),
    ensures
        number_text(canonical, settings).len() > 0,
        number_text(canonical, settings)[0] == '-' <==> canonical.len() > 0 && canonical[0] == '-',
{
    shown_digits_are_digits(canonical, settings.max_fraction_digits);
    let (whole, part) = shown_digits(canonical, settings.max_fraction_digits);
    digits_are_shown_in_place(negative(canonical), whole, part, settings);
}

/// What is shown of a plain decimal is digits.
proof fn shown_digits_are_digits(canonical: Seq<char>, limit: Option<nat>)
    requires
        plain_decimal(canonical),
    ensures
        all_digits(shown_digits(canonical, limit).0),
        all_digits(shown_digits(canonical, limit).1),
        all_digits(integer_digits(canonical)),
        all_digits(fraction_digits(canonical)),
{
    let integer = integer_digits(canonical);
    let fraction = fraction_digits(canonical);
    digits_only_as_bytes(before(unsigned(canonical), '.'));
    digits_only_as_bytes(after(unsigned(canonical), '.'));
    match limit {
        Some(limit) if fraction.len() > limit => {
            rounded_digits_are_the_nearest(integer, fraction, limit);
            let kept = kept_digits(canonical, Some(limit));
            let (whole, part) = split_from_end(kept, limit);
            only_zeros_are_dropped(part);
            assert forall|i: int| 0 <= i < whole.len() implies is_digit(#[trigger] whole[i]) by {
                assert(is_digit(kept[i]));
            }
            let trimmed = without_trailing_zeros(part);
            assert forall|i: int| 0 <= i < trimmed.len() implies is_digit(#[trigger] trimmed[i]) by {
                assert(is_digit(kept[i + whole.len()]));
            }
        },
        _ => {},
    }
}

/// A number whose fraction is not cut is shown digit for digit: taking the
/// separators out of what is shown and reading the decimal separator as a point
/// gives back the number, a zero standing for a whole part that is not there.
pub proof fn a_number_is_shown_digit_for_digit(
    signed: bool,
    whole: Seq<char>,
    part: Seq<char>,
    canonical: Seq<char>,
    settings: Settings,
)
    requires
        digits_only(whole),
        digits_only(part),
        canonical == (if signed {
            seq!['-']
        } else {
            Seq::empty()
        }) + whole + (if part.len() > 0 {
            seq!['.'] + part
        } else {
            Seq::empty()
        }),
        settings.max_fraction_digits matches Some(limit) ==> part.len() <= limit,
    ensures
        plain_decimal(canonical),
        ({
            let text = number_text(canonical, settings);
            let sign: int = if signed {
                1
            } else {
                0
            };
            let tail: int = if part.len() > 0 {
                part.len() as int + 1
            } else {
                0
            };
            let shown = text.subrange(sign, text.len() - tail);
            let expected = if whole.len() == 0 {
                seq!['0']
            } else {
                whole
            };
            &&& text.len() >= sign + 1 + tail
            &&& text[0] == '-' <==> signed
            &&& part.len() > 0 ==> text[text.len() - tail] == settings.decimal && text.skip(
                text.len() - part.len(),
            ) == part
            &&& settings.grouping is None ==> shown == expected
            &&& settings.grouping matches Some(separator) ==> (!('0' <= separator <= '9')
                ==> shown.filter(|ch: char| ch != separator) == expected)
        }),
{
    let rest = unsigned(canonical);
    let tail = if part.len() > 0 {
        seq!['.'] + part
    } else {
        Seq::empty()
    };
    if whole.len() > 0 {
        assert('0' <= whole[0] <= '9');
    }
    assert(negative(canonical) == signed);
    assert(rest =~= whole + tail);
    assert forall|i: int| 0 <= i < whole.len() implies rest[i] != '.' by {
        assert('0' <= whole[i] <= '9');
        assert(rest[i] == whole[i]);
    }
    find_is(rest, '.', whole.len() as int);
    assert(before(rest, '.') =~= whole);
    assert(after(rest, '.') =~= part);
    digits_only_as_bytes(whole);
    digits_only_as_bytes(part);
    assert(digit_text(ascii_bytes(whole)) =~= whole) by {
        assert forall|i: int| 0 <= i < whole.len() implies digit_text(ascii_bytes(whole))[i]
            == whole[i] by {
            assert('0' <= whole[i] <= '9');
        }
    }
    assert(digit_text(ascii_bytes(part)) =~= part) by {
        assert forall|i: int| 0 <= i < part.len() implies digit_text(ascii_bytes(part))[i]
            == part[i] by {
            assert('0' <= part[i] <= '9');
        }
    }
    digits_are_shown_in_place(signed, ascii_bytes(whole), ascii_bytes(part), settings);
}

/// A number whose fraction is cut is shown as the nearest one with as many
/// fraction digits as the limit allows, a tie going away from zero, without zeros
/// at its end; in front of the separator and behind it stand digits alone.
pub proof fn a_cut_number_is_the_nearest(canonical: Seq<char>, settings: Settings, limit: nat)
    requires
        plain_decimal(canonical),
        settings.max_fraction_digits == Some(limit),
        fraction_digits(canonical).len() > limit,
    ensures
        ({
            let integer = integer_digits(canonical);
            let fraction = fraction_digits(canonical);
            let (whole, part) = shown_digits(canonical, Some(limit));
            let exact = digits_value(integer + fraction);
            let scale = pow10((fraction.len() - limit) as nat);
            let shown = digits_value(whole + part) * pow10((limit - part.len()) as nat);
            &&& part.len() <= limit
            &&& part.len() > 0 ==> part.last() != 0x30
            &&& all_digits(whole)
            &&& all_digits(part)
            &&& 2 * exact < (2 * shown + 1) * scale
            &&& (2 * shown - 1) * scale <= 2 * exact
            &&& number_text(canonical, settings) == decimal_text(
                canonical[0] == '-',
                whole,
                part,
                settings,
            )
        }),
{
    let integer = integer_digits(canonical);
    let fraction = fraction_digits(canonical);
    let kept = kept_digits(canonical, Some(limit));
    let (whole, cut) = split_from_end(kept, limit);
    let part = without_trailing_zeros(cut);
    shown_digits_are_digits(canonical, Some(limit));
    rounded_digits_are_the_nearest(integer, fraction, limit);
    only_zeros_are_dropped(cut);
    let zeros = (limit - part.len()) as nat;
    digits_value_concat(whole, cut);
    digits_value_concat(whole, part);
    assert(whole + cut =~= kept);
    pow10_of_sum(part.len(), zeros);
    assert(digits_value(kept) == digits_value(whole + part) * pow10(zeros)) by (nonlinear_arith)
        requires
            digits_value(kept) == digits_value(whole) * pow10(limit) + digits_value(cut),
            digits_value(whole + part) == digits_value(whole) * pow10(part.len()) + digits_value(
                part,
            ),
            digits_value(cut) == digits_value(part) * pow10(zeros),
            pow10(limit) == pow10(part.len()) * pow10(zeros),
    ;
}

/// Powers of ten multiply as their exponents add.
proof fn pow10_of_sum(left: nat, right: nat)
    ensures
        pow10(left + right) == pow10(left) * pow10(right),
    decreases right,
{
    if right > 0 {
        pow10_of_sum(left, (right - 1) as nat);
        let low = pow10((right - 1) as nat);
        assert((pow10(left) * low) * 10 == pow10(left) * (low * 10)) by (nonlinear_arith);
    } else {
        assert(pow10(left) * 1 == pow10(left));
    }
}

/// What is no plain decimal is shown as it is.
pub proof fn what_is_no_plain_decimal_is_shown_as_it_is(canonical: Seq<char>, settings: Settings)
    requires
        exists|i: int|
            0 <= i < canonical.len() && !('0' <= #[trigger] canonical[i] <= '9') && canonical[i]
                != '-' && canonical[i] != '.',
    ensures
        number_text(canonical, settings) == canonical,
{
    let i = choose|i: int|
        0 <= i < canonical.len() && !('0' <= #[trigger] canonical[i] <= '9') && canonical[i] != '-'
            && canonical[i] != '.';
    let rest = unsigned(canonical);
    let at = if negative(canonical) {
        i - 1
    } else {
        i
    };
    assert(rest[at] == canonical[i]);
    find_bounds(rest, '.');
    let point = find(rest, '.');
    if at < point {
        assert(before(rest, '.')[at] == canonical[i]);
    } else {
        assert(after(rest, '.')[at - point - 1] == canonical[i]);
    }
}

/// What a hexadecimal digit stands for, in either case.
pub open spec fn hex_value(ch: char) -> int {
    if '0' <= ch <= '9' {
        ch as int - '0' as int
    } else if 'A' <= ch <= 'F' {
        ch as int - 'A' as int + 10
    } else if 'a' <= ch <= 'f' {
        ch as int - 'a' as int + 10
    } else {
        -1
    }
}

/// Raw bytes can be read back from what is shown of them: two digits for each
/// byte, the higher half first, in the case that was asked for.
pub proof fn bytes_are_read_back_from_their_digits(bytes: Seq<u8>, upper: bool, index: int)
    requires
        0 <= index < bytes.len(),
    ensures
        ({
            let text = hex_text(bytes, upper);
            &&& text.len() == 2 * bytes.len()
            &&& 0 <= hex_value(text[2 * index]) < 16
            &&& 0 <= hex_value(text[2 * index + 1]) < 16
            &&& bytes[index] == 16 * hex_value(text[2 * index]) + hex_value(text[2 * index + 1])
            &&& upper ==> !('a' <= text[2 * index] <= 'f') && !('a' <= text[2 * index + 1] <= 'f')
            &&& !upper ==> !('A' <= text[2 * index] <= 'F') && !('A' <= text[2 * index + 1] <= 'F')
        }),
    decreases bytes.len(),
{
    let text = hex_text(bytes, upper);
    let front = bytes.drop_last();
    hex_text_len(bytes, upper);
    hex_text_len(front, upper);
    if index < front.len() {
        bytes_are_read_back_from_their_digits(front, upper, index);
        assert(hex_text(front, upper)[2 * index] == text[2 * index]);
        assert(hex_text(front, upper)[2 * index + 1] == text[2 * index + 1]);
    } else {
        assert(text[2 * index] == hex_digit(bytes.last() as int / 16, upper));
        assert(text[2 * index + 1] == hex_digit(bytes.last() as int % 16, upper));
    }
}

/// Two digits for each byte.
proof fn hex_text_len(bytes: Seq<u8>, upper: bool)
    ensures
        hex_text(bytes, upper).len() == 2 * bytes.len(),
    decreases bytes.len(),
{
    if bytes.len() > 0 {
        hex_text_len(bytes.drop_last(), upper);
    }
}

/// As many bytes are shown as the settings allow, from the first on; an ellipsis
/// stands at the end exactly where there are more.
pub proof fn bytes_are_shown_up_to_the_limit(bytes: Seq<u8>, settings: Settings)
    ensures
        ({
            let text = bytes_text(bytes, settings);
            let shown = if bytes.len() <= settings.max_bytes {
                bytes.len() as int
            } else {
                settings.max_bytes as int
            };
            let digits = text.take(2 * shown);
            &&& text.len() == 2 * shown + if bytes.len() > settings.max_bytes {
                1int
            } else {
                0
            }
            &&& digits == hex_text(bytes.take(shown), settings.bytes_upper)
            &&& bytes.len() > settings.max_bytes ==> text.last() == '…'
        }),
{
    let shown = if bytes.len() <= settings.max_bytes {
        bytes.len() as int
    } else {
        settings.max_bytes as int
    };
    hex_text_len(bytes.take(shown), settings.bytes_upper);
    let text = bytes_text(bytes, settings);
    if bytes.len() <= settings.max_bytes {
        assert(bytes.take(shown) =~= bytes);
    }
    assert(text.take(2 * shown) =~= hex_text(bytes.take(shown), settings.bytes_upper));
}

/// A timestamp keeps every character of its own: the style of the date alone ends
/// it in front of its `T`, the spaced style puts a space in the place of the
/// first `T`, and every other style shows it as it is.
pub proof fn a_timestamp_is_shown_in_its_style(canonical: Seq<char>, style: int, date: int)
    requires
        0 <= date <= canonical.len(),
        forall|i: int| 0 <= i < date ==> canonical[i] != 'T',
        date < canonical.len() ==> canonical[date] == 'T',
    ensures
        style == 3 ==> timestamp_text(canonical, style) == canonical.take(date),
        style == 2 && date < canonical.len() ==> timestamp_text(canonical, style)
            == canonical.update(date, ' '),
        style == 2 && date == canonical.len() ==> timestamp_text(canonical, style) == canonical,
        style != 2 && style != 3 ==> timestamp_text(canonical, style) == canonical,
{
    find_is(canonical, 'T', date);
    if style == 2 && date < canonical.len() {
        assert(timestamp_text(canonical, style) =~= canonical.update(date, ' '));
    }
}

/// A cell is shown as what it is: the caller's words for an absent one and for
/// one whose large object was taken, and its own text otherwise; nothing but a
/// number, raw bytes and a timestamp is reshaped.
pub proof fn a_cell_is_shown_as_what_it_is(
    value: ValueModel,
    kind: Option<ColumnKind>,
    settings: Settings,
)
    ensures
        value is Null ==> cell_text(value, kind, settings) == settings.null_text,
        value is Taken ==> cell_text(value, kind, settings) == settings.taken_text,
        value matches ValueModel::Boolean(set) ==> cell_text(value, kind, settings) == if set {
            "true"@
        } else {
            "false"@
        },
        value matches ValueModel::Text(text) ==> cell_text(value, kind, settings) == text,
        value matches ValueModel::Json(text) ==> cell_text(value, kind, settings) == text,
        value matches ValueModel::Unsupported(text) ==> cell_text(value, kind, settings) == text,
        value matches ValueModel::Number(canonical) ==> cell_text(value, kind, settings)
            == number_text(canonical, settings),
        value matches ValueModel::Float(canonical) ==> cell_text(value, kind, settings)
            == number_text(canonical, settings),
        value matches ValueModel::Double(canonical) ==> cell_text(value, kind, settings)
            == number_text(canonical, settings),
        value matches ValueModel::Bytes(bytes) ==> cell_text(value, kind, settings) == bytes_text(
            bytes,
            settings,
        ),
        value matches ValueModel::Timestamp(canonical) ==> cell_text(value, kind, settings)
            == timestamp_text(canonical, settings.timestamp_style),
        value is Unrecognized && kind == Some(ColumnKind::Lob) ==> cell_text(value, kind, settings)
            == settings.taken_text,
{
}

/// The settings a call renders with are the caller's, zero standing for the
/// documented default of each: a point, no grouping, groups of three, 32 bytes,
/// upper case, every fraction digit.
pub proof fn settings_are_the_callers(options: ReldexFormatOptions<'_>, settings: Resolved<'_>)
    requires
        options.readable(),
        call_ensures(ReldexFormatOptions::resolve, (&options,), settings),
    ensures
        options.decimal_separator == 0 ==> settings.decimal == '.',
        vstd::utf8::is_scalar(options.decimal_separator) && options.decimal_separator != 0
            ==> settings.decimal as u32 == options.decimal_separator,
        options.grouping_separator == 0 ==> settings.grouping is None,
        vstd::utf8::is_scalar(options.grouping_separator) && options.grouping_separator != 0 ==> (
        settings.grouping matches Some(separator) && separator as u32
            == options.grouping_separator),
        options.grouping_size == 0 ==> settings.grouping_size == 3,
        options.grouping_size > 0 ==> settings.grouping_size == options.grouping_size,
        settings.timestamp_style == options.timestamp_style,
        settings.bytes_upper <==> options.bytes_style != 2,
        options.max_fraction_digits <= 0 ==> settings.max_fraction_digits is None,
        options.max_fraction_digits > 0 ==> settings.max_fraction_digits == Some(
            options.max_fraction_digits as usize,
        ),
        options.max_bytes_rendered == 0 ==> settings.max_bytes == 32,
        options.max_bytes_rendered > 0 ==> settings.max_bytes == options.max_bytes_rendered,
        options.null_text.text() matches Some(text) ==> settings.null_text@ == text,
        options.taken_text.text() matches Some(text) ==> settings.taken_text@ == if text.len() > 0 {
            text
        } else {
            "[LOB]"@
        },
{
    assert(settings@.decimal == options.resolved().decimal);
    assert(settings@.grouping == options.resolved().grouping);
    assert(settings@.grouping_size == options.resolved().grouping_size);
    assert(settings@.max_fraction_digits == options.resolved().max_fraction_digits);
}

/// A window of a column is rendered row by row behind what the arena holds: one
/// text for every row of the window that the batch has, each of its own cell, by
/// the caller's settings.
pub proof fn a_window_is_rendered_row_by_row(
    boundary: &mut Boundary,
    batch: &ReldexBatch,
    column: usize,
    row_start: usize,
    row_count: usize,
    options: ReldexFormatOptions<'_>,
    arena: &mut ReldexTextArena,
    status: ReldexStatus,
)
    requires
        !old(boundary).in_waker,
        call_ensures(
            reldex_batch_format_column,
            (
                boundary,
                Some(batch),
                column,
                row_start,
                row_count,
                InParam::Given(options),
                Some(arena),
            ),
            status,
        ),
    ensures
        status == ReldexStatus::Okay <==> column < batch.table().columns@.len(),
        status == ReldexStatus::NotFound <==> column >= batch.table().columns@.len(),
        status != ReldexStatus::Okay ==> final(arena)@ == old(arena)@,
        status == ReldexStatus::Okay ==> {
            let rows = batch.table().row_count as int;
            let left = if row_start < rows {
                rows - row_start
            } else {
                0
            };
            let shown = if row_count < left {
                row_count as int
            } else {
                left
            };
            let stored = batch.table().columns@[column as int];
            &&& final(arena)@.len() == old(arena)@.len() + shown
            &&& forall|i: int|
                0 <= i < old(arena)@.len() ==> #[trigger] final(arena)@[i] == old(arena)@[i]
            &&& forall|i: int|
                0 <= i < shown ==> #[trigger] final(arena)@[old(arena)@.len() + i] == cell_text(
                    stored.cell(row_start + i),
                    Some(stored.data.family()),
                    options.resolved(),
                )
        },
{
}

/// An arena is made empty and counted until it is released; a refused release
/// leaves it with its caller.
pub proof fn an_arena_is_counted_until_released(
    before: &mut Boundary,
    made: Option<ReldexTextArena>,
    boundary: &mut Boundary,
    kept: Option<ReldexTextArena>,
)
    requires
        !old(before)@.in_waker,
        call_ensures(reldex_text_arena_create, (before,), made),
        call_ensures(reldex_text_arena_release, (boundary, made), kept),
    ensures
        made is Some,
        made->0@.len() == 0,
        final(before)@.live == (LiveCounters {
            arenas: next_count(old(before)@.live.arenas),
            ..old(before)@.live
        }),
        !old(boundary)@.in_waker ==> {
            &&& kept is None
            &&& old(boundary)@.live == final(before)@.live ==> final(boundary)@.live == old(
                before,
            )@.live
        },
        old(boundary)@.in_waker ==> kept == made,
{
}

/// What an arena holds is read back text by text, between the offsets it names; a
/// cleared one holds nothing.
pub proof fn an_arena_is_read_back(
    boundary: &mut Boundary,
    arena: ReldexTextArena,
    count: usize,
    valid: u32,
    view: Result<ReldexArenaView<'_>, ReldexStatus>,
    index: int,
)
    requires
        !old(boundary)@.in_waker,
        call_ensures(reldex_text_arena_count, (boundary, Some(&arena)), count),
        call_ensures(reldex_text_arena_view, (boundary, Some(&arena), Some(valid)), view),
        0 <= index < arena@.len(),
    ensures
        count == arena@.len(),
        view is Ok,
        view->Ok_0.struct_size == valid,
        view->Ok_0.count == arena@.len(),
        view->Ok_0.offsets@.len() == arena@.len() + 1,
        view->Ok_0.data@.subrange(
            view->Ok_0.offsets@[index] as int,
            view->Ok_0.offsets@[index + 1] as int,
        ) == vstd::utf8::encode_utf8(arena@[index]),
{
    arena_text_between_offsets(view->Ok_0, arena@, index);
}

/// Clearing an arena forgets every text, and counts it as before; a refused call
/// leaves the texts as they were.
pub proof fn a_cleared_arena_is_empty(boundary: &mut Boundary, arena: Option<&mut ReldexTextArena>)
    requires
        call_ensures(reldex_text_arena_clear, (boundary, arena), ()),
    ensures
        arena matches Some(arena) ==> {
            &&& !old(boundary)@.in_waker ==> final(arena)@.len() == 0
            &&& old(boundary)@.in_waker ==> final(arena)@ == arena@
        },
        !old(boundary)@.in_waker ==> final(boundary)@ == old(boundary)@,
{
}

/// What cannot be read is left at its default: a separator that is no character, a
/// text that is not UTF-8. What no family is known for is shown as nothing.
pub proof fn what_cannot_be_read_is_left_at_its_default(
    options: ReldexFormatOptions<'_>,
    settings: Resolved<'_>,
    kind: Option<ColumnKind>,
    shown: Settings,
)
    requires
        options.readable(),
        call_ensures(ReldexFormatOptions::resolve, (&options,), settings),
    ensures
        !vstd::utf8::is_scalar(options.decimal_separator) ==> settings.decimal == '.',
        !vstd::utf8::is_scalar(options.grouping_separator) ==> settings.grouping is None,
        options.null_text.text() is None ==> settings.null_text@ == Seq::<char>::empty(),
        options.taken_text.text() is None ==> settings.taken_text@ == "[LOB]"@,
        kind != Some(ColumnKind::Lob) ==> cell_text(ValueModel::Unrecognized, kind, shown)
            == Seq::<char>::empty(),
{
    assert(settings@.decimal == options.resolved().decimal);
    assert(settings@.grouping == options.resolved().grouping);
}

/// A caller that passes no options gets the documented defaults: the window is
/// rendered as for options that nobody filled in.
pub proof fn no_options_are_the_defaults(
    boundary: &mut Boundary,
    batch: &ReldexBatch,
    column: usize,
    row_start: usize,
    row_count: usize,
    arena: &mut ReldexTextArena,
    status: ReldexStatus,
    index: int,
)
    requires
        !old(boundary)@.in_waker,
        column < batch.table().columns@.len(),
        call_ensures(
            reldex_batch_format_column,
            (boundary, Some(batch), column, row_start, row_count, InParam::Null, Some(arena)),
            status,
        ),
        0 <= index < row_count,
        row_start + index < batch.table().row_count,
    ensures
        status == ReldexStatus::Okay,
        old(arena)@.len() + index < final(arena)@.len(),
        ({
            let stored = batch.table().columns@[column as int];
            let text = final(arena)@[old(arena)@.len() + index];
            let value = stored.cell(row_start + index);
            &&& value is Null ==> text == Seq::<char>::empty()
            &&& value is Taken ==> text == "[LOB]"@
            &&& value matches ValueModel::Text(shown) ==> text == shown
            &&& value matches ValueModel::Timestamp(canonical) ==> text == canonical
            &&& value matches ValueModel::Boolean(set) ==> text == if set {
                "true"@
            } else {
                "false"@
            }
            &&& value matches ValueModel::Bytes(bytes) ==> (bytes.len() <= 32 ==> text == hex_text(
                bytes,
                true,
            ))
        }),
{
}

} // verus!
