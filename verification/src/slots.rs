//! Many values in one buffer: the bytes of all of them end to end, and the
//! offsets at which each starts.

use vstd::prelude::*;
use vstd::utf8::encode_utf8;

use crate::text::{byte_len, encode_utf8_concat, utf8_text};

verus! {

/// Values end to end.
pub open spec fn end_to_end<T>(values: Seq<Seq<T>>) -> Seq<T>
    decreases values.len(),
{
    if values.len() == 0 {
        Seq::empty()
    } else {
        end_to_end(values.drop_last()) + values.last()
    }
}

/// The bytes that texts end to end take.
pub open spec fn encoded(values: Seq<Seq<char>>) -> Seq<Seq<u8>> {
    values.map_values(|value: Seq<char>| encode_utf8(value))
}

/// Whether `offsets` say where each of `values` starts in one buffer, and where
/// the last ends.
pub open spec fn delimits(offsets: Seq<usize>, values: Seq<Seq<u8>>) -> bool {
    &&& offsets.len() == values.len() + 1
    &&& forall|i: int|
        0 <= i < offsets.len() ==> #[trigger] offsets[i] == end_to_end(values.take(i)).len()
}

/// One more value is put behind the others.
proof fn end_to_end_push<T>(values: Seq<Seq<T>>, value: Seq<T>)
    ensures
        end_to_end(values.push(value)) == end_to_end(values) + value,
{
    assert(values.push(value).drop_last() =~= values);
}

/// The first values are a prefix of them all, with the next one behind.
proof fn end_to_end_prefix<T>(values: Seq<Seq<T>>, index: int)
    requires
        0 <= index < values.len(),
    ensures
        ({
            let start = end_to_end(values.take(index)).len() as int;
            let all = end_to_end(values);
            &&& start + values[index].len() <= all.len()
            &&& end_to_end(values.take(index + 1)).len() == start + values[index].len()
            &&& all.subrange(start, start + values[index].len()) == values[index]
        }),
    decreases values.len(),
{
    let start = end_to_end(values.take(index)).len() as int;
    let all = end_to_end(values);
    assert(values.take(index + 1).drop_last() =~= values.take(index));
    if index == values.len() - 1 {
        assert(values.take(index) =~= values.drop_last());
        assert(values.take(index + 1) =~= values);
        assert(all.subrange(start, start + values[index].len()) =~= values[index]);
    } else {
        let front = values.drop_last();
        end_to_end_prefix(front, index);
        assert(front.take(index) =~= values.take(index));
        assert(front.take(index + 1) =~= values.take(index + 1));
        assert(all.subrange(start, start + values[index].len()) =~= end_to_end(front).subrange(
            start,
            start + values[index].len(),
        ));
    }
}

/// The value at `index` stands between its offset and the next one.
pub proof fn slot_between_offsets(offsets: Seq<usize>, values: Seq<Seq<u8>>, index: int)
    requires
        delimits(offsets, values),
        0 <= index < values.len(),
    ensures
        0 <= offsets[index] <= offsets[index + 1] <= end_to_end(values).len(),
        end_to_end(values).subrange(offsets[index] as int, offsets[index + 1] as int)
            == values[index],
        offsets[0] == 0,
        offsets[values.len() as int] == end_to_end(values).len(),
{
    end_to_end_prefix(values, index);
    assert(values.take(values.len() as int) =~= values);
    assert(values.take(0) =~= Seq::empty());
}

/// Texts end to end are encoded as their encodings end to end.
proof fn encoded_end_to_end(values: Seq<Seq<char>>)
    ensures
        encode_utf8(end_to_end(values)) == end_to_end(encoded(values)),
    decreases values.len(),
{
    if values.len() == 0 {
        assert(encode_utf8(Seq::<char>::empty()) =~= Seq::empty());
    } else {
        encoded_end_to_end(values.drop_last());
        encode_utf8_concat(end_to_end(values.drop_last()), values.last());
        assert(encoded(values).drop_last() =~= encoded(values.drop_last()));
    }
}

/// Byte values in one buffer.
pub struct ByteSlots {
    buffer: Vec<u8>,
    offsets: Vec<usize>,
    values: Ghost<Seq<Seq<u8>>>,
}

impl View for ByteSlots {
    type V = Seq<Seq<u8>>;

    closed spec fn view(&self) -> Seq<Seq<u8>> {
        self.values@
    }
}

impl ByteSlots {
    #[verifier::type_invariant]
    spec fn inv(self) -> bool {
        &&& self.buffer@ == end_to_end(self.values@)
        &&& delimits(self.offsets@, self.values@)
    }

    /// No values.
    pub fn new() -> (slots: Self)
        ensures
            slots@ == Seq::<Seq<u8>>::empty(),
    {
        let mut offsets: Vec<usize> = Vec::new();
        offsets.push(0);
        let ghost none = Seq::<Seq<u8>>::empty();
        assert(none.take(0) =~= none);
        ByteSlots { buffer: Vec::new(), offsets, values: Ghost(none) }
    }

    /// Puts `value` behind the others.
    pub fn push(self, value: &[u8]) -> (slots: Self)
        ensures
            slots@ == self@.push(value@),
    {
        proof {
            use_type_invariant(&self);
        }
        let ghost values = self.values@;
        let ghost more = values.push(value@);
        let mut buffer = self.buffer;
        let mut offsets = self.offsets;
        let ghost before = offsets@;
        buffer.extend_from_slice(value);
        assert(buffer@ =~= end_to_end(values) + value@);
        offsets.push(buffer.len());
        proof {
            end_to_end_push(values, value@);
            assert forall|i: int| 0 <= i < offsets@.len() implies #[trigger] offsets@[i]
                == end_to_end(more.take(i)).len() by {
                if i <= values.len() {
                    assert(more.take(i) =~= values.take(i));
                    assert(before[i] == end_to_end(values.take(i)).len());
                } else {
                    assert(more.take(i) =~= more);
                }
            }
        }
        ByteSlots { buffer, offsets, values: Ghost(more) }
    }

    /// How many values there are.
    pub fn len(&self) -> (len: usize)
        ensures
            len == self@.len(),
    {
        proof {
            use_type_invariant(self);
        }
        self.offsets.len() - 1
    }

    /// The value at `index`.
    pub fn get(&self, index: usize) -> (value: &[u8])
        requires
            index < self@.len(),
        ensures
            value@ == self@[index as int],
    {
        proof {
            use_type_invariant(self);
            slot_between_offsets(self.offsets@, self.values@, index as int);
        }
        let count: usize = self.offsets.len();
        assert(index + 1 < count);
        vstd::slice::slice_subrange(
            self.buffer.as_slice(),
            self.offsets[index],
            self.offsets[index + 1],
        )
    }

    /// The buffer that holds the values end to end.
    pub fn buffer(&self) -> (buffer: &[u8])
        ensures
            buffer@ == end_to_end(self@),
    {
        proof {
            use_type_invariant(self);
        }
        self.buffer.as_slice()
    }

    /// Where each value starts in the buffer, and where the last ends.
    pub fn offsets(&self) -> (offsets: &[usize])
        ensures
            delimits(offsets@, self@),
    {
        proof {
            use_type_invariant(self);
        }
        self.offsets.as_slice()
    }
}

/// Texts in one buffer. No texts need no offset either, so that an empty one
/// takes no memory.
pub struct TextSlots {
    buffer: String,
    offsets: Vec<usize>,
    values: Ghost<Seq<Seq<char>>>,
}

impl View for TextSlots {
    type V = Seq<Seq<char>>;

    closed spec fn view(&self) -> Seq<Seq<char>> {
        self.values@
    }
}

impl TextSlots {
    #[verifier::type_invariant]
    spec fn inv(self) -> bool {
        &&& self.buffer@ == end_to_end(self.values@)
        &&& if self.offsets@.len() == 0 {
            self.values@.len() == 0
        } else {
            delimits(self.offsets@, encoded(self.values@))
        }
    }

    /// No texts.
    pub fn new() -> (slots: Self)
        ensures
            slots@ == Seq::<Seq<char>>::empty(),
    {
        TextSlots { buffer: String::new(), offsets: Vec::new(), values: Ghost(Seq::empty()) }
    }

    /// The same buffers with no texts in them.
    pub fn cleared(self) -> (slots: Self)
        ensures
            slots@ == Seq::<Seq<char>>::empty(),
    {
        let mut buffer = self.buffer;
        let mut offsets = self.offsets;
        buffer.clear();
        offsets.clear();
        TextSlots { buffer, offsets, values: Ghost(Seq::empty()) }
    }

    /// Puts `text` behind the others.
    pub fn push(self, text: &str) -> (slots: Self)
        ensures
            slots@ == self@.push(text@),
    {
        let mut writer = self.into_writer();
        let ghost len = end_to_end(writer.values@).len() as int;
        let ghost before = writer.buffer@;
        writer.buffer.append(text);
        assert(writer.buffer@.take(len) =~= before.take(len));
        assert(before.skip(len).len() == before.len() - len);
        assert(writer.pending() =~= text@);
        writer.close();
        writer.finish()
    }

    /// How many texts there are.
    pub fn len(&self) -> (len: usize)
        ensures
            len == self@.len(),
    {
        proof {
            use_type_invariant(self);
        }
        if self.offsets.len() == 0 {
            0
        } else {
            self.offsets.len() - 1
        }
    }

    /// The text at `index`.
    pub fn get(&self, index: usize) -> (text: &str)
        requires
            index < self@.len(),
        ensures
            text@ == self@[index as int],
    {
        proof {
            use_type_invariant(self);
            slot_between_offsets(self.offsets@, encoded(self.values@), index as int);
            encoded_end_to_end(self.values@);
            vstd::utf8::encode_utf8_valid_utf8(self.values@[index as int]);
            vstd::utf8::encode_utf8_decode_utf8(self.values@[index as int]);
        }
        let count: usize = self.offsets.len();
        assert(index + 1 < count);
        let bytes = vstd::slice::slice_subrange(
            self.buffer.as_str().as_bytes(),
            self.offsets[index],
            self.offsets[index + 1],
        );
        match utf8_text(bytes) {
            Some(text) => {
                proof {
                    vstd::utf8::encode_utf8_decode_utf8(text@);
                }
                text
            },
            None => "",
        }
    }

    /// The buffer that holds the texts end to end.
    pub fn buffer(&self) -> (buffer: &[u8])
        ensures
            buffer@ == end_to_end(encoded(self@)),
    {
        proof {
            use_type_invariant(self);
            encoded_end_to_end(self.values@);
        }
        self.buffer.as_str().as_bytes()
    }

    /// Where each text starts in the buffer, and where the last ends.
    pub fn offsets(&self) -> (offsets: &[usize])
        ensures
            delimits(offsets@, encoded(self@)),
    {
        proof {
            use_type_invariant(self);
        }
        if self.offsets.len() == 0 {
            let start: &'static [usize] = &[0usize];
            assert(start@ =~= seq![0usize]);
            assert(encoded(self@).take(0) =~= Seq::<Seq<u8>>::empty());
            start
        } else {
            self.offsets.as_slice()
        }
    }

    /// Opens the buffer for writing behind the texts.
    pub fn into_writer(self) -> (writer: SlotWriter)
        ensures
            writer.wf(),
            writer.values@ == self@,
            writer.pending() == Seq::<char>::empty(),
    {
        proof {
            use_type_invariant(&self);
        }
        let ghost len = end_to_end(self.values@).len() as int;
        assert(self.buffer@.take(len) =~= self.buffer@);
        assert(self.buffer@.skip(len) =~= Seq::<char>::empty());
        let mut offsets = self.offsets;
        if offsets.len() == 0 {
            offsets.push(0);
            assert(encoded(self.values@).take(0) =~= Seq::<Seq<u8>>::empty());
        }
        SlotWriter { buffer: self.buffer, offsets, values: self.values }
    }
}

/// Texts in one buffer, with one more being written behind them.
pub struct SlotWriter {
    pub buffer: String,
    pub offsets: Vec<usize>,
    pub values: Ghost<Seq<Seq<char>>>,
}

impl SlotWriter {
    /// Whether the finished texts stand at the start of the buffer.
    pub open spec fn wf(self) -> bool {
        let len = end_to_end(self.values@).len() as int;
        &&& delimits(self.offsets@, encoded(self.values@))
        &&& len <= self.buffer@.len()
        &&& self.buffer@.take(len) == end_to_end(self.values@)
    }

    /// What has been written behind the finished texts.
    pub open spec fn pending(self) -> Seq<char> {
        self.buffer@.skip(end_to_end(self.values@).len() as int)
    }

    /// Finishes the text being written.
    pub fn close(&mut self)
        requires
            old(self).wf(),
        ensures
            final(self).wf(),
            final(self).values@ == old(self).values@.push(old(self).pending()),
            final(self).pending() == Seq::<char>::empty(),
    {
        let ghost before = *self;
        let ghost text = self.pending();
        let ghost values = self.values@;
        let ghost more = values.push(text);
        proof {
            assert(self.buffer@ =~= end_to_end(values) + text);
            end_to_end_push(values, text);
            encoded_end_to_end(more);
            assert(encoded(more) =~= encoded(values).push(encode_utf8(text)));
        }
        self.offsets.push(byte_len(self.buffer.as_str()));
        self.values = Ghost(more);
        proof {
            assert forall|i: int| 0 <= i < self.offsets@.len() implies #[trigger] self.offsets@[i]
                == end_to_end(encoded(more).take(i)).len() by {
                if i <= values.len() {
                    assert(encoded(more).take(i) =~= encoded(values).take(i));
                    assert(before.offsets@[i] == end_to_end(encoded(values).take(i)).len());
                } else {
                    assert(encoded(more).take(i) =~= encoded(more));
                }
            }
            assert(self.buffer@.take(end_to_end(more).len() as int) =~= end_to_end(more));
            assert(self.pending() =~= Seq::<char>::empty());
        }
    }

    /// Closes the buffer again.
    pub fn finish(self) -> (slots: TextSlots)
        requires
            self.wf(),
            self.pending() == Seq::<char>::empty(),
        ensures
            slots@ == self.values@,
    {
        assert(self.buffer@ =~= self.buffer@.take(end_to_end(self.values@).len() as int)
            + self.pending());
        assert(self.buffer@ =~= end_to_end(self.values@));
        TextSlots { buffer: self.buffer, offsets: self.offsets, values: self.values }
    }
}

} // verus!
