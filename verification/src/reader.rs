//! Little-endian field reads against a source with a cursor.

use vstd::prelude::*;
use byteorder::{ByteOrder, LittleEndian};
use crate::error::Error;
use crate::layout::{REAL_LEN, U32_LEN};
use crate::value::Binary64;

verus! {

/// The unsigned number that the first four bytes of `bytes` spell,
/// least significant byte first.
pub open spec fn le_u32(bytes: Seq<u8>) -> u32
    recommends
        bytes.len() >= 4,
{
    (bytes[0] as int + 0x100 * bytes[1] as int + 0x1_0000 * bytes[2] as int + 0x100_0000
        * bytes[3] as int) as u32
}

/// The unsigned number that the first eight bytes of `bytes` spell,
/// least significant byte first.
pub open spec fn le_u64(bytes: Seq<u8>) -> u64
    recommends
        bytes.len() >= 8,
{
    (bytes[0] as int + 0x100 * bytes[1] as int + 0x1_0000 * bytes[2] as int + 0x100_0000
        * bytes[3] as int + 0x1_0000_0000 * bytes[4] as int + 0x100_0000_0000 * bytes[5] as int
        + 0x1_0000_0000_0000 * bytes[6] as int + 0x100_0000_0000_0000 * bytes[7] as int) as u64
}

/// The 32-bit field that lies at `offset` in `source`.
pub open spec fn u32_at(source: Seq<u8>, offset: int) -> u32
    recommends
        0 <= offset,
        offset + 4 <= source.len(),
{
    le_u32(source.subrange(offset, offset + 4))
}

/// The 64-bit field that lies at `offset` in `source`.
pub open spec fn u64_at(source: Seq<u8>, offset: int) -> u64
    recommends
        0 <= offset,
        offset + 8 <= source.len(),
{
    le_u64(source.subrange(offset, offset + 8))
}

/// The real field that lies at `offset` in `source`.
pub open spec fn real_at(source: Seq<u8>, offset: int) -> Binary64
    recommends
        0 <= offset,
        offset + 8 <= source.len(),
{
    Binary64 { bits: u64_at(source, offset) }
}

/// Whether a read of `width` bytes at `position` can be served from a
/// source of `len` bytes. A read of nothing can always be served.
pub open spec fn served(len: nat, position: nat, width: nat) -> bool {
    width == 0 || position + width <= len
}

/// `byteorder::LittleEndian::read_u32`: the little-endian value of the
/// first four bytes of a span that holds at least four.
#[verifier::external_body]
fn le_read_u32(span: &[u8]) -> (value: u32)
    requires
        span@.len() >= 4,
    ensures
        value == le_u32(span@),
{
    LittleEndian::read_u32(span)
}

/// `byteorder::LittleEndian::read_u64`: the little-endian value of the
/// first eight bytes of a span that holds at least eight.
#[verifier::external_body]
fn le_read_u64(span: &[u8]) -> (value: u64)
    requires
        span@.len() >= 8,
    ensures
        value == le_u64(span@),
{
    LittleEndian::read_u64(span)
}

/// `byteorder::LittleEndian::read_u64_into`: fills `words` with the
/// little-endian values of the successive eight-byte groups of `span`,
/// which has to hold exactly eight bytes for each word.
#[verifier::external_body]
fn le_read_u64_into(span: &[u8], words: &mut Vec<u64>)
    requires
        span@.len() == 8 * old(words)@.len(),
    ensures
        final(words)@.len() == old(words)@.len(),
        (forall|i: int|
            0 <= i < final(words)@.len() ==> #[trigger] final(words)@[i] == u64_at(span@, 8 * i)),
{
    LittleEndian::read_u64_into(span, words.as_mut_slice())
}

/// A source of bytes with a cursor, read field by field.
pub struct Reader<'a> {
    /// the whole source
    pub source: &'a [u8],
    /// the offset at which the next read starts; it may lie beyond the end
    pub position: usize,
}

impl<'a> Reader<'a> {
    /// A reader at the start of `source`.
    pub fn new(source: &'a [u8]) -> (reader: Reader<'a>)
        ensures
            reader.source@ == source@,
            reader.position == 0,
    {
        Reader { source, position: 0 }
    }

    /// Moves the cursor to the absolute offset `offset`, which may lie
    /// beyond the end of the source.
    pub fn seek(&mut self, offset: usize)
        ensures
            final(self).source@ == old(self).source@,
            final(self).position == offset,
    {
        self.position = offset;
    }

    /// The length of the source.
    pub fn len(&self) -> (len: usize)
        ensures
            len == self.source@.len(),
    {
        self.source.len()
    }

    /// Reads the next `width` bytes and moves the cursor past them.
    ///
    /// Fails, and leaves the cursor where it was, where the source ends
    /// before the last of them.
    pub fn read_bytes(&mut self, width: usize) -> (read: Result<&'a [u8], Error>)
        ensures
            final(self).source@ == old(self).source@,
            read is Ok <==> served(old(self).source@.len(), old(self).position as nat, width as nat),
            read is Ok ==> read->Ok_0@ == (if width == 0 {
                Seq::<u8>::empty()
            } else {
                old(self).source@.subrange(old(self).position as int, old(self).position + width)
            }),
            read is Ok ==> final(self).position == (if width == 0 {
                old(self).position as int
            } else {
                old(self).position + width
            }),
            read is Err ==> read->Err_0 == Error::UnexpectedEof && final(self).position == old(
                self,
            ).position,
    {
        let len = self.source.len();
        if width == 0 {
            let span = &self.source[0..0];
            assert(span@ =~= Seq::<u8>::empty());
            return Ok(span);
        }
        if self.position > len || width > len - self.position {
            return Err(Error::UnexpectedEof);
        }
        let start = self.position;
        let span = &self.source[start..start + width];
        self.position = start + width;
        Ok(span)
    }

    /// Reads a little-endian unsigned 32-bit integer.
    pub fn read_u32(&mut self) -> (read: Result<u32, Error>)
        ensures
            final(self).source@ == old(self).source@,
            read is Ok <==> old(self).position + 4 <= old(self).source@.len(),
            read is Ok ==> read->Ok_0 == u32_at(old(self).source@, old(self).position as int)
                && final(self).position == old(self).position + 4,
            read is Err ==> read->Err_0 == Error::UnexpectedEof && final(self).position == old(
                self,
            ).position,
    {
        match self.read_bytes(U32_LEN) {
            Ok(span) => Ok(le_read_u32(span)),
            Err(e) => Err(e),
        }
    }

    /// Reads a little-endian 64-bit real, as its bit pattern.
    pub fn read_real(&mut self) -> (read: Result<Binary64, Error>)
        ensures
            final(self).source@ == old(self).source@,
            read is Ok <==> old(self).position + 8 <= old(self).source@.len(),
            read is Ok ==> read->Ok_0 == real_at(old(self).source@, old(self).position as int)
                && final(self).position == old(self).position + 8,
            read is Err ==> read->Err_0 == Error::UnexpectedEof && final(self).position == old(
                self,
            ).position,
    {
        match self.read_bytes(REAL_LEN) {
            Ok(span) => Ok(Binary64 { bits: le_read_u64(span) }),
            Err(e) => Err(e),
        }
    }

    /// Reads `count` little-endian 64-bit words.
    pub fn read_words(&mut self, count: usize) -> (read: Result<Vec<u64>, Error>)
        ensures
            final(self).source@ == old(self).source@,
            read is Ok <==> served(
                old(self).source@.len(),
                old(self).position as nat,
                (8 * count) as nat,
            ),
            read is Ok ==> read->Ok_0@.len() == count && (forall|i: int|
                0 <= i < count ==> #[trigger] read->Ok_0@[i] == u64_at(
                    old(self).source@,
                    old(self).position + 8 * i,
                )),
            read is Ok ==> final(self).position == (if count == 0 {
                old(self).position as int
            } else {
                old(self).position + 8 * count
            }),
            read is Err ==> read->Err_0 == Error::UnexpectedEof && final(self).position == old(
                self,
            ).position,
    {
        let ghost start = self.position as int;
        // more words than the whole source could hold are not in it
        if count > self.len() / REAL_LEN {
            return Err(Error::UnexpectedEof);
        }
        match self.read_bytes(REAL_LEN * count) {
            Ok(span) => {
                let mut words: Vec<u64> = vec![0u64; count];
                le_read_u64_into(span, &mut words);
                proof {
                    assert forall|i: int| 0 <= i < count implies #[trigger] words@[i] == u64_at(
                        self.source@,
                        start + 8 * i,
                    ) by {
                        assert(span@.subrange(8 * i, 8 * i + 8) =~= self.source@.subrange(
                            start + 8 * i,
                            start + 8 * i + 8,
                        ));
                    }
                }
                Ok(words)
            },
            Err(e) => Err(e),
        }
    }
}

} // verus!
