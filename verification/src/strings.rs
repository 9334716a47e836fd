//! Borrowed strings, the `struct_size` prefix rule, and the conversion from a
//! Unicode scalar offset to a UTF-16 one.

use vstd::prelude::*;
use vstd::utf8::{decode_utf8, encode_scalar, encode_utf8, valid_utf8};

use crate::status::Boundary;
use crate::text::{byte_len, encode_utf8_ascii_char, encode_utf8_concat, utf8_text};

verus! {

/// A borrowed UTF-8 string: where its bytes start, and how many there are.
///
/// * **Outbound**, every string is NUL-terminated: `ptr[len]` is readable and
///   zero. `len` is still authoritative for a string that contains a NUL.
/// * **Inbound**, only `len` readable bytes are needed.
#[derive(Debug, Clone, Copy)]
pub struct ReldexStr<'a> {
    /// The readable memory that starts at the first byte, or nothing for a null
    /// pointer.
    pub ptr: Option<&'a [u8]>,
    /// Length in bytes, excluding a trailing NUL.
    pub len: usize,
}

impl<'a> ReldexStr<'a> {
    /// Whether `len` bytes can be read, which the caller promises of every
    /// string it passes in.
    pub open spec fn readable(self) -> bool {
        self.ptr matches Some(memory) ==> self.len <= memory@.len()
    }

    /// The bytes of the string; nothing for a null pointer with a length.
    pub open spec fn bytes(self) -> Option<Seq<u8>> {
        if self.len == 0 {
            Some(Seq::empty())
        } else {
            match self.ptr {
                None => None,
                Some(memory) => Some(memory@.take(self.len as int)),
            }
        }
    }

    /// The text of the string, where it has bytes and they are UTF-8.
    pub open spec fn text(self) -> Option<Seq<char>> {
        match self.bytes() {
            None => None,
            Some(bytes) => if valid_utf8(bytes) {
                Some(decode_utf8(bytes))
            } else {
                None
            },
        }
    }

    /// Whether the byte behind the string is readable and zero.
    pub open spec fn nul_terminated(self) -> bool {
        self.ptr matches Some(memory) && self.len < memory@.len() && memory@[self.len as int] == 0
    }

    /// Whether this is `text` as the library hands it out: NUL-terminated.
    pub open spec fn carries(self, text: Seq<char>) -> bool {
        self.nul_terminated() && self.text() == Some(text)
    }

    /// The empty string.
    #[must_use]
    pub fn empty() -> (string: ReldexStr<'static>)
        ensures
            string.carries(Seq::empty()),
            string.len == 0,
    {
        let nul: &'static [u8] = &[0u8];
        ReldexStr { ptr: Some(nul), len: 0 }
    }

    /// Borrows the first `len` bytes of `text`, which is NUL-terminated there.
    pub fn borrow_nul_terminated(text: &'a str, len: usize) -> (string: Self)
        requires
            len < encode_utf8(text@).len(),
            encode_utf8(text@)[len as int] == 0,
        ensures
            string.nul_terminated(),
            string.ptr matches Some(memory) && memory@ == encode_utf8(text@),
            string.len == len,
    {
        ReldexStr { ptr: Some(text.as_bytes()), len }
    }

    /// The bytes of the string.
    #[must_use]
    pub fn as_bytes(self) -> (bytes: Option<&'a [u8]>)
        requires
            self.readable(),
        ensures
            bytes is Some <==> self.bytes() is Some,
            bytes matches Some(bytes) ==> self.bytes() == Some(bytes@),
    {
        if self.len == 0 {
            let none: &'static [u8] = &[];
            assert(none@ =~= Seq::<u8>::empty());
            return Some(none);
        }
        match self.ptr {
            None => None,
            Some(memory) => {
                let bytes = vstd::slice::slice_subrange(memory, 0, self.len);
                assert(bytes@ =~= memory@.take(self.len as int));
                Some(bytes)
            },
        }
    }

    /// The text of the string.
    #[must_use]
    pub fn as_str(self) -> (text: Option<&'a str>)
        requires
            self.readable(),
        ensures
            text is Some <==> self.text() is Some,
            text matches Some(text) ==> self.text() == Some(text@),
    {
        match self.as_bytes() {
            None => None,
            Some(bytes) => {
                let text = utf8_text(bytes);
                proof {
                    if let Some(text) = text {
                        vstd::utf8::encode_utf8_decode_utf8(text@);
                    }
                }
                text
            },
        }
    }
}

/// An owned string with a NUL behind it, so that a [`ReldexStr`] into it can be
/// handed out.
#[derive(Debug)]
pub struct OwnedStr {
    text: String,
    len: usize,
}

impl View for OwnedStr {
    type V = Seq<char>;

    closed spec fn view(&self) -> Seq<char> {
        self.text@.drop_last()
    }
}

impl OwnedStr {
    #[verifier::type_invariant]
    spec fn inv(self) -> bool {
        &&& self.text@.len() > 0
        &&& self.text@.last() == '\0'
        &&& self.len == encode_utf8(self.text@.drop_last()).len()
    }

    /// Takes `text` in and terminates it.
    pub fn new(text: String) -> (owned: Self)
        ensures
            owned@ == text@,
    {
        let mut text = text;
        let len: usize = byte_len(text.as_str());
        let ghost before = text@;
        text.push('\0');
        assert(text@.drop_last() =~= before);
        OwnedStr { text, len }
    }

    /// The text without its NUL, as it is handed out.
    pub fn as_reldex_str(&self) -> (string: ReldexStr<'_>)
        ensures
            string.carries(self@),
    {
        proof {
            use_type_invariant(self);
            assert(self.text@ =~= self@ + seq!['\0']);
            encode_utf8_concat(self@, seq!['\0']);
            encode_utf8_ascii_char('\0');
            vstd::utf8::encode_utf8_valid_utf8(self@);
            vstd::utf8::encode_utf8_decode_utf8(self@);
            assert(encode_utf8(self.text@).take(self.len as int) =~= encode_utf8(self@));
            assert(self.len == 0 ==> encode_utf8(self@) =~= Seq::empty());
        }
        ReldexStr::borrow_nul_terminated(self.text.as_str(), self.len)
    }
}

/// An input struct as a call receives it.
#[derive(Debug)]
pub enum InParam<T> {
    /// A null pointer.
    Null,
    /// A pointer that is unaligned, or a struct whose `struct_size` is too
    /// small to honour.
    Refused,
    /// What [`read_in_struct`] made of the caller's struct.
    Given(T),
}

/// A struct with a leading `struct_size`, as it lies in memory: that number and
/// the bytes behind it.
#[derive(Debug)]
pub struct StructImage {
    pub struct_size: u32,
    pub rest: Vec<u8>,
}

/// How many bytes a `struct_size` occupies.
pub const STRUCT_SIZE_BYTES: usize = 4;

/// How much of a struct of `size` bytes a caller that declares `declared` bytes
/// gets to see.
pub open spec fn shared_prefix(declared: u32, size: usize) -> usize {
    if declared < size {
        declared as usize
    } else {
        size
    }
}

/// Whether a caller that declares `declared` bytes can be honoured at all.
pub open spec fn honoured(declared: u32, min_size: usize) -> bool {
    declared >= min_size
}

/// How much of a struct of `size` bytes is valid to a caller that declares
/// `declared` bytes.
fn take_of(declared: u32, size: usize) -> (take: usize)
    ensures
        take == shared_prefix(declared, size),
{
    if (declared as usize) < size {
        declared as usize
    } else {
        size
    }
}

/// Reads an input struct from a caller whose header may be older or newer:
/// what the caller did not supply reads as zero, what this build does not know
/// is ignored. A null or unaligned pointer is `None`.
pub fn read_in_struct(image: Option<&StructImage>, min_size: usize, size: usize) -> (value: Option<
    StructImage,
>)
    requires
        STRUCT_SIZE_BYTES <= min_size <= size,
        image matches Some(image) ==> shared_prefix(image.struct_size, size) <= STRUCT_SIZE_BYTES
            + image.rest@.len(),
    ensures
        value is Some <==> (image matches Some(image) && honoured(image.struct_size, min_size)),
        value matches Some(value) ==> {
            let image = image->0;
            let take = shared_prefix(image.struct_size, size);
            &&& value.struct_size == image.struct_size
            &&& value.rest@ == Seq::new(
                (size - STRUCT_SIZE_BYTES) as nat,
                |i: int|
                    if i < take - STRUCT_SIZE_BYTES {
                        image.rest@[i]
                    } else {
                        0
                    },
            )
        },
{
    let image = match image {
        None => return None,
        Some(image) => image,
    };
    if (image.struct_size as usize) < min_size {
        return None;
    }
    let take: usize = take_of(image.struct_size, size);
    let mut rest: Vec<u8> = Vec::new();
    let mut index: usize = 0;
    while index < size - STRUCT_SIZE_BYTES
        invariant
            STRUCT_SIZE_BYTES <= take <= size,
            take <= STRUCT_SIZE_BYTES + image.rest@.len(),
            index <= size - STRUCT_SIZE_BYTES,
            rest@ == Seq::new(
                index as nat,
                |i: int|
                    if i < take - STRUCT_SIZE_BYTES {
                        image.rest@[i]
                    } else {
                        0
                    },
            ),
        decreases size - index,
    {
        rest.push(
            if index < take - STRUCT_SIZE_BYTES {
                image.rest[index]
            } else {
                0
            },
        );
        index += 1;
        assert(rest@ =~= Seq::new(
            index as nat,
            |i: int|
                if i < take - STRUCT_SIZE_BYTES {
                    image.rest@[i]
                } else {
                    0
                },
        ));
    }
    Some(StructImage { struct_size: image.struct_size, rest })
}

/// Checks that an output struct is one this build can fill, without writing to
/// it: how many bytes of it will be valid. `declared` is `None` for a null or
/// unaligned pointer.
pub fn check_out_struct(declared: Option<u32>, min_size: usize, size: usize) -> (valid: Option<u32>)
    ensures
        valid is Some <==> (declared matches Some(declared) && honoured(declared, min_size)),
        valid matches Some(valid) ==> valid == shared_prefix(declared->0, size),
{
    match declared {
        None => None,
        Some(declared) => if (declared as usize) < min_size {
            None
        } else {
            Some(take_of(declared, size) as u32)
        },
    }
}

/// Fills an output struct, writing only as many bytes as the caller owns and
/// reporting how many of them are valid. A null or unaligned pointer is `None`.
pub fn write_out_struct(out: Option<&mut StructImage>, value: &StructImage, min_size: usize) -> (
    written: bool)
    requires
        STRUCT_SIZE_BYTES <= min_size <= STRUCT_SIZE_BYTES + value.rest@.len(),
        STRUCT_SIZE_BYTES + value.rest@.len() <= usize::MAX,
        out matches Some(out) ==> shared_prefix(
            out.struct_size,
            (STRUCT_SIZE_BYTES + value.rest@.len()) as usize,
        ) <= STRUCT_SIZE_BYTES + out.rest@.len(),
    ensures
        written <==> (out matches Some(out) && honoured(out.struct_size, min_size)),
        out matches Some(out) ==> {
            let take = shared_prefix(
                out.struct_size,
                (STRUCT_SIZE_BYTES + value.rest@.len()) as usize,
            );
            &&& !written ==> *final(out) == *out
            &&& written ==> final(out).struct_size == take
            &&& written ==> final(out).rest@ == Seq::new(
                out.rest@.len(),
                |i: int|
                    if i < take - STRUCT_SIZE_BYTES {
                        value.rest@[i]
                    } else {
                        out.rest@[i]
                    },
            )
        },
{
    match out {
        None => false,
        Some(out) => {
            if (out.struct_size as usize) < min_size {
                return false;
            }
            let size: usize = STRUCT_SIZE_BYTES + value.rest.len();
            let take: usize = take_of(out.struct_size, size);
            let ghost before = out.rest@;
            let mut index: usize = 0;
            assert(before =~= Seq::new(before.len(), |i: int| if i < 0 { value.rest@[i] } else { before[i] }));
            while index < take - STRUCT_SIZE_BYTES
                invariant
                    STRUCT_SIZE_BYTES <= take <= STRUCT_SIZE_BYTES + value.rest@.len(),
                    take <= STRUCT_SIZE_BYTES + before.len(),
                    index <= take - STRUCT_SIZE_BYTES,
                    out.rest@ == Seq::new(
                        before.len(),
                        |i: int|
                            if i < index {
                                value.rest@[i]
                            } else {
                                before[i]
                            },
                    ),
                decreases take - index,
            {
                out.rest.set(index, value.rest[index]);
                index += 1;
                assert(out.rest@ =~= Seq::new(
                    before.len(),
                    |i: int|
                        if i < index {
                            value.rest@[i]
                        } else {
                            before[i]
                        },
                ));
            }
            out.struct_size = take as u32;
            true
        },
    }
}

/// What [`reldex_utf16_offset`] returns when it cannot answer.
pub const RELDEX_UTF16_OFFSET_INVALID: usize = usize::MAX;

/// How many UTF-16 units one character takes.
pub open spec fn utf16_width(ch: char) -> nat {
    if (ch as u32) < 0x1_0000 {
        1
    } else {
        2
    }
}

/// How many UTF-16 units `text` takes.
pub open spec fn utf16_len(text: Seq<char>) -> nat
    decreases text.len(),
{
    if text.len() == 0 {
        0
    } else {
        utf16_len(text.drop_last()) + utf16_width(text.last())
    }
}

/// Text never takes more UTF-16 units than UTF-8 bytes.
proof fn utf16_len_bound(text: Seq<char>)
    ensures
        utf16_len(text) <= encode_utf8(text).len(),
    decreases text.len(),
{
    if text.len() > 0 {
        utf16_len_bound(text.drop_last());
        assert(text =~= text.drop_last() + seq![text.last()]);
        encode_utf8_concat(text.drop_last(), seq![text.last()]);
        let last = seq![text.last()];
        assert(last.drop_first() =~= Seq::<char>::empty());
        assert(encode_utf8(Seq::<char>::empty()).len() == 0);
        assert(encode_utf8(last) =~= encode_scalar(text.last() as u32));
    }
}

/// Where in UTF-16 units the character at `char_offset` starts. Past the end it
/// is the length of the whole text.
pub open spec fn utf16_offset(text: Seq<char>, char_offset: int) -> nat {
    utf16_len(
        text.take(
            if char_offset < text.len() {
                char_offset
            } else {
                text.len() as int
            },
        ),
    )
}

/// Counts the UTF-16 units in front of the character at `char_offset`.
fn utf16_units_before(text: &str, char_offset: usize) -> (units: usize)
    ensures
        units == utf16_offset(text@, char_offset as int),
{
    let bytes: usize = byte_len(text);
    let mut units: usize = 0;
    let mut index: usize = 0;
    let mut chars = text.chars();
    assert(text@.take(0) =~= Seq::<char>::empty());
    assert(text@.skip(0) =~= text@);
    loop
        invariant
            index <= text@.len(),
            index <= char_offset,
            bytes == encode_utf8(text@).len(),
            units == utf16_len(text@.take(index as int)),
            vstd::std_specs::iter::IteratorSpec::remaining(&chars) == text@.skip(index as int),
        decreases text@.len() - index,
    {
        if index == char_offset {
            return units;
        }
        match chars.next() {
            None => {
                assert(text@.skip(index as int).len() == 0);
                return units;
            },
            Some(ch) => {
                proof {
                    let next = text@.take(index + 1);
                    assert(next.drop_last() =~= text@.take(index as int));
                    assert(text@ =~= next + text@.skip(index + 1));
                    encode_utf8_concat(next, text@.skip(index + 1));
                    utf16_len_bound(next);
                    assert(text@.skip(index as int).drop_first() =~= text@.skip(index + 1));
                }
                units += if (ch as u32) < 0x1_0000 {
                    1
                } else {
                    2
                };
                index += 1;
            },
        }
    }
}

/// Converts a Unicode scalar offset into a UTF-16 code-unit offset. There is no
/// answer for a null pointer, of whatever length, nor for bytes that are not
/// UTF-8.
pub fn reldex_utf16_offset(boundary: &mut Boundary, text: ReldexStr<'_>, char_offset: usize) -> (
    offset: usize)
    requires
        text.readable(),
    ensures
        old(boundary)@.in_waker ==> {
            &&& offset == RELDEX_UTF16_OFFSET_INVALID
            &&& final(boundary)@ == old(boundary)@.refused()
        },
        !old(boundary)@.in_waker ==> {
            &&& offset == match (text.ptr, text.text()) {
                (Some(_), Some(text)) => utf16_offset(text, char_offset as int) as int,
                _ => RELDEX_UTF16_OFFSET_INVALID as int,
            }
            &&& final(boundary)@ == old(boundary)@
        },
{
    if boundary.refuse_reentrant() {
        return RELDEX_UTF16_OFFSET_INVALID;
    }
    if text.ptr.is_none() {
        return RELDEX_UTF16_OFFSET_INVALID;
    }
    match text.as_str() {
        None => RELDEX_UTF16_OFFSET_INVALID,
        Some(text) => utf16_units_before(text, char_offset),
    }
}

/// A string that a caller passes is read as the bytes it points at: it has a text
/// exactly where those bytes are UTF-8, and then the text is the one they encode.
/// A null pointer with a length has none.
pub proof fn a_string_is_read_as_its_bytes(string: ReldexStr<'_>)
    requires
        string.readable(),
    ensures
        string.len == 0 ==> string.text() == Some(Seq::<char>::empty()),
        string.len > 0 && string.ptr is None ==> string.text() is None,
        string.len > 0 && string.ptr is Some ==> {
            let bytes = string.ptr->0@.subrange(0, string.len as int);
            &&& string.text() is Some <==> valid_utf8(bytes)
            &&& string.text() matches Some(text) ==> encode_utf8(text) == bytes
        },
{
    if string.len == 0 {
        let none = Seq::<char>::empty();
        vstd::utf8::encode_utf8_valid_utf8(none);
        vstd::utf8::encode_utf8_decode_utf8(none);
        assert(encode_utf8(none) =~= Seq::<u8>::empty());
    }
    if string.len > 0 && string.ptr is Some {
        let bytes = string.ptr->0@.subrange(0, string.len as int);
        assert(bytes =~= string.ptr->0@.take(string.len as int));
        if valid_utf8(bytes) {
            vstd::utf8::decode_utf8_encode_utf8(bytes);
        }
    }
}

/// A text that is handed out is read back as it was, with a NUL behind it.
pub proof fn a_text_is_read_back_as_handed_out(
    text: String,
    owned: OwnedStr,
    string: ReldexStr<'_>,
    read: Option<&str>,
)
    requires
        call_ensures(OwnedStr::new, (text,), owned),
        call_ensures(OwnedStr::as_reldex_str, (&owned,), string),
        call_ensures(ReldexStr::as_str, (string,), read),
    ensures
        read is Some,
        read matches Some(read) ==> read@ == text@,
        string.ptr matches Some(memory) && memory@.len() > string.len && memory@[string.len as int]
            == 0,
{
}

/// A struct that is read has, byte for byte, what the caller's header and this
/// build share, and zeros behind it. It is refused exactly where the caller
/// declares fewer bytes than there have to be.
pub proof fn a_struct_is_read_as_far_as_it_is_shared(
    image: &StructImage,
    min_size: usize,
    size: usize,
    value: Option<StructImage>,
)
    requires
        call_ensures(read_in_struct, (Some(image), min_size, size), value),
        4 <= min_size <= size,
    ensures
        value is Some <==> image.struct_size >= min_size,
        value matches Some(value) ==> {
            &&& value.rest@.len() == size - 4
            &&& value.struct_size == image.struct_size
            &&& forall|i: int|
                0 <= i < size - 4 && i + 4 < image.struct_size ==> #[trigger] value.rest@[i]
                    == image.rest@[i]
            &&& forall|i: int|
                0 <= i < size - 4 && i + 4 >= image.struct_size ==> #[trigger] value.rest@[i] == 0
        },
{
}

/// A struct that is filled gets what the caller's header and this build share, and
/// keeps every byte behind it. One that declares too little is left alone.
pub proof fn a_struct_is_filled_as_far_as_it_is_shared(
    out: &mut StructImage,
    value: &StructImage,
    min_size: usize,
    written: bool,
)
    requires
        call_ensures(write_out_struct, (Some(out), value, min_size), written),
        4 <= min_size <= 4 + value.rest@.len(),
        4 + value.rest@.len() <= usize::MAX,
    ensures
        written <==> old(out).struct_size >= min_size,
        !written ==> *final(out) == *old(out),
        written ==> {
            let size = 4 + value.rest@.len();
            &&& final(out).struct_size <= old(out).struct_size
            &&& final(out).struct_size <= size
            &&& final(out).struct_size == old(out).struct_size || final(out).struct_size == size
            &&& final(out).rest@.len() == old(out).rest@.len()
            &&& forall|i: int|
                0 <= i < final(out).rest@.len() && i + 4 < final(out).struct_size
                    ==> #[trigger] final(out).rest@[i] == value.rest@[i]
            &&& forall|i: int|
                0 <= i < final(out).rest@.len() && i + 4 >= final(out).struct_size
                    ==> #[trigger] final(out).rest@[i] == old(out).rest@[i]
        },
{
}

/// How many bytes of an output struct will be valid is checked beforehand by the
/// same rule.
pub proof fn a_struct_is_checked_as_it_is_filled(
    declared: Option<u32>,
    min_size: usize,
    size: usize,
    valid: Option<u32>,
)
    requires
        call_ensures(check_out_struct, (declared, min_size, size), valid),
        min_size <= size,
    ensures
        valid is Some <==> declared is Some && declared->0 >= min_size,
        valid matches Some(valid) ==> valid <= declared->0 && valid <= size && valid >= min_size,
        valid matches Some(valid) ==> valid == declared->0 || valid == size,
{
}

/// The UTF-16 units in front of a character are counted one by one: a character
/// outside the basic plane takes two and every other takes one, an offset past
/// the end counts the whole text, and the count never decreases.
pub proof fn utf16_units_are_counted_one_by_one(text: Seq<char>, offset: int)
    requires
        0 <= offset,
    ensures
        utf16_offset(text, 0) == 0,
        offset < text.len() && (text[offset] as u32) < 0x1_0000 ==> utf16_offset(text, offset + 1)
            == utf16_offset(text, offset) + 1,
        offset < text.len() && (text[offset] as u32) >= 0x1_0000 ==> utf16_offset(text, offset + 1)
            == utf16_offset(text, offset) + 2,
        offset >= text.len() ==> utf16_offset(text, offset) == utf16_offset(
            text,
            text.len() as int,
        ),
        utf16_offset(text, offset) <= utf16_offset(text, offset + 1),
{
    assert(text.take(0) =~= Seq::<char>::empty());
    if offset < text.len() {
        assert(text.take(offset + 1).drop_last() =~= text.take(offset));
    }
}

/// The offset a caller is given is that of its own text, counted so.
pub proof fn an_offset_is_that_of_the_callers_text(
    boundary: &mut Boundary,
    text: ReldexStr<'_>,
    char_offset: usize,
    offset: usize,
)
    requires
        !old(boundary)@.in_waker,
        call_ensures(reldex_utf16_offset, (boundary, text, char_offset), offset),
    ensures
        text.ptr is None ==> offset == usize::MAX,
        text.text() is None ==> offset == usize::MAX,
        text.ptr is Some && text.text() is Some ==> offset == utf16_offset(
            text.text()->0,
            char_offset as int,
        ),
        text.ptr is Some && text.text() is Some && char_offset == 0 ==> offset == 0,
        final(boundary)@ == old(boundary)@,
{
    if text.text() is Some {
        utf16_units_are_counted_one_by_one(text.text()->0, 0);
    }
}

} // verus!
