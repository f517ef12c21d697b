//! Byte streams: a capability interface (position, size, read, write, seek)
//! and its in-memory backends.
//!
//! A memory stream owns a growable byte array and a cursor. Writing
//! overwrites at the cursor and appends any remainder; reading fills the
//! caller's buffer from the cursor, stopping at the end of data; seeking
//! clamps to `[0, size]`. Reaching the end of data is queryable, never an
//! error, so every memory-stream operation reports success.

use vstd::prelude::*;
use crate::vec::Vec;
use crate::vec::VecAppend;

verus! {

/// A finite, byte-addressable resource with a cursor.
pub trait Stream {
    /// The current cursor position.
    fn tell(&self) -> usize;

    /// The total length of the resource.
    fn size(&self) -> usize;
}

/// A stream that data can be read from at the cursor.
pub trait StreamReader: Stream {
    /// What the implementing backend demands before a read.
    open spec fn readOk(&self) -> bool {
        true
    }

    /// Reads into `buff`, returning how many bytes were transferred; a short
    /// count with success means the end of data was reached.
    fn read(&mut self, buff: &mut [u8]) -> Result<usize, ()>
        requires
            old(self).readOk(),
    ;

    /// Whether the cursor stands at the end of the data.
    fn isEOF(&self) -> bool;
}

/// A stream that data can be written to at the cursor.
pub trait StreamWriter: Stream {
    /// What the implementing backend demands before a write.
    open spec fn writeOk(&self, buff: Seq<u8>) -> bool {
        true
    }

    /// Writes `buff`, returning how many bytes were transferred.
    fn write(&mut self, buff: &[u8]) -> Result<usize, ()>
        requires
            old(self).writeOk(buff@),
    ;
}

/// A stream whose cursor can be repositioned.
pub trait StreamSeek: Stream {
    /// What the implementing backend demands before a seek.
    open spec fn seekOk(&self) -> bool {
        true
    }

    /// Moves the cursor, returning the position actually taken.
    fn seek(&mut self, cursor: usize) -> Result<usize, ()>
        requires
            old(self).seekOk(),
    ;
}

/// Classifies a host transfer: a short transfer with a reported fault is an
/// error; otherwise the transferred count stands, a short count meaning the
/// end of data was reached.
pub fn classifyTransfer(transferred: usize, requested: usize, faulted: bool) -> (r: Result<
    usize,
    (),
>)
    ensures
        r == if faulted && transferred < requested {
            Result::<usize, ()>::Err(())
        } else {
            Result::<usize, ()>::Ok(transferred)
        },
{
    if transferred < requested && faulted {
        Err(())
    } else {
        Ok(transferred)
    }
}

/// The bytes of `data` after writing `buff` at offset `pos`: the prefix up
/// to `pos` stays, `buff` replaces the range it covers, and whatever it
/// does not cover stays; bytes past the old end extend the data.
pub open spec fn writeAt(data: Seq<u8>, pos: int, buff: Seq<u8>) -> Seq<u8>
    recommends
        0 <= pos <= data.len(),
{
    if pos + buff.len() >= data.len() {
        data.take(pos) + buff
    } else {
        data.take(pos) + buff + data.skip(pos + buff.len())
    }
}

/// How many bytes a read transfers: the requested count, bounded by what
/// remains between the cursor and the end of data.
pub open spec fn readLenOf(size: int, pos: int, want: int) -> int
    recommends
        0 <= pos <= size,
{
    if want > size - pos {
        size - pos
    } else {
        want
    }
}

/// An in-memory stream that owns its buffer and accepts writes.
pub struct MemoryStreamWriter {
    data: Vec<u8>,
    cursor: usize,
}

impl MemoryStreamWriter {
    /// The backing array.
    pub closed spec fn buf(&self) -> Vec<u8> {
        self.data
    }

    /// The bytes held so far.
    pub open spec fn contents(&self) -> Seq<u8> {
        self.buf()@
    }

    /// The cursor.
    pub closed spec fn position(&self) -> usize {
        self.cursor
    }

    /// Validity: the backing array is well-formed and the cursor stays
    /// within the held bytes.
    pub open spec fn wf(&self) -> bool {
        self.buf().wf() && self.position() <= self.contents().len()
    }

    /// An empty stream with the cursor at the start.
    pub fn new() -> (r: Self)
        ensures
            r.contents() == Seq::<u8>::empty(),
            r.position() == 0,
            r.wf(),
    {
        MemoryStreamWriter { data: Vec::new(), cursor: 0 }
    }

    /// The backing array, for inspection.
    pub fn data(&self) -> (r: &Vec<u8>)
        ensures
            *r == self.buf(),
    {
        &self.data
    }

    /// The backing array, for direct mutation; the cursor is untouched, so
    /// validity afterwards rests on what the caller leaves behind.
    pub fn dataMut(&mut self) -> (r: &mut Vec<u8>)
        ensures
            *r == old(self).buf(),
            final(self).buf() == *final(r),
            final(self).position() == old(self).position(),
    {
        &mut self.data
    }

    /// The current position.
    pub fn tell(&self) -> (r: usize)
        ensures
            r == self.position(),
    {
        self.cursor
    }

    /// The number of bytes held.
    pub fn size(&self) -> (r: usize)
        ensures
            r == self.contents().len(),
    {
        self.data.len()
    }

    /// Writes all of `buff` at the cursor: bytes within the held range are
    /// overwritten, the remainder is appended, and the cursor advances by
    /// the whole length of `buff`. Always succeeds with the full count.
    pub fn write(&mut self, buff: &[u8]) -> (r: Result<usize, ()>)
        requires
            old(self).wf(),
            old(self).position() + buff@.len() <= usize::MAX,
        ensures
            final(self).wf(),
            r == Result::<usize, ()>::Ok((buff@.len() as usize)),
            final(self).contents() == writeAt(
                old(self).contents(),
                old(self).position() as int,
                buff@,
            ),
            final(self).position() == old(self).position() + buff@.len(),
    {
        let ghost opos: int = old(self).position() as int;
        let ghost odata: Seq<u8> = old(self).contents();

        let available = self.data.len() - self.cursor;
        let remaining = if buff.len() < available {
            0
        } else {
            buff.len() - available
        };
        let first = if available < buff.len() {
            available
        } else {
            buff.len()
        };

        let mut i: usize = 0;
        while i < first
            invariant
                first <= buff@.len(),
                opos + first <= odata.len(),
                i <= first,
                self.cursor == opos,
                self.data@.len() == odata.len(),
                self.data.wf(),
                forall|k: int|
                    0 <= k < odata.len() && !(opos <= k < opos + i) ==> self.data@[k] == odata[k],
                forall|k: int| opos <= k < opos + i ==> self.data@[k] == buff@[k - opos],
        decreases first - i,
        {
            let slot = self.data.getMut(self.cursor + i);
            *slot = buff[i];
            i += 1;
        }

        let mut j: usize = 0;
        while j < remaining
            invariant
                first <= buff@.len(),
                remaining == buff@.len() - first,
                opos + first <= odata.len(),
                j <= remaining,
                self.cursor == opos,
                self.data@.len() == odata.len() + j,
                self.data.wf(),
                forall|k: int|
                    0 <= k < odata.len() && !(opos <= k < opos + first) ==> self.data@[k]
                        == odata[k],
                forall|k: int| opos <= k < opos + first ==> self.data@[k] == buff@[k - opos],
                forall|k: int|
                    odata.len() <= k < odata.len() + j ==> self.data@[k] == buff@[first + (k
                        - odata.len())],
        decreases remaining - j,
        {
            self.data.pushBack(buff[first + j]);
            j += 1;
        }

        self.cursor += buff.len();
        proof {
            assert(self.data@ =~= writeAt(odata, opos, buff@));
        }
        Ok(buff.len())
    }

    /// Moves the cursor, clamping it to `[0, size]`; returns the position
    /// actually taken.
    pub fn seek(&mut self, cursor: usize) -> (r: Result<usize, ()>)
        ensures
            final(self).buf() == old(self).buf(),
            final(self).position() <= final(self).contents().len(),
            final(self).position() == if cursor <= old(self).contents().len() {
                cursor as int
            } else {
                old(self).contents().len() as int
            },
            r == Result::<usize, ()>::Ok(final(self).position()),
    {
        if self.data.len() < cursor {
            self.cursor = self.data.len();
        } else {
            self.cursor = cursor;
        }
        Ok(self.cursor)
    }
}

impl Stream for MemoryStreamWriter {
    fn tell(&self) -> (r: usize)
        ensures
            r == self.position(),
    {
        self.tell()
    }

    fn size(&self) -> (r: usize)
        ensures
            r == self.contents().len(),
    {
        self.size()
    }
}

impl StreamWriter for MemoryStreamWriter {
    open spec fn writeOk(&self, buff: Seq<u8>) -> bool {
        self.wf() && self.position() + buff.len() <= usize::MAX
    }

    fn write(&mut self, buff: &[u8]) -> (r: Result<usize, ()>)
        ensures
            final(self).wf(),
            r == Result::<usize, ()>::Ok((buff@.len() as usize)),
            final(self).contents() == writeAt(
                old(self).contents(),
                old(self).position() as int,
                buff@,
            ),
            final(self).position() == old(self).position() + buff@.len(),
    {
        self.write(buff)
    }
}

impl StreamSeek for MemoryStreamWriter {
    fn seek(&mut self, cursor: usize) -> (r: Result<usize, ()>)
        ensures
            final(self).buf() == old(self).buf(),
            final(self).position() <= final(self).contents().len(),
            final(self).position() == if cursor <= old(self).contents().len() {
                cursor as int
            } else {
                old(self).contents().len() as int
            },
            r == Result::<usize, ()>::Ok(final(self).position()),
    {
        self.seek(cursor)
    }
}

/// An in-memory stream over an owned copy of a byte buffer, for reading.
pub struct MemoryStreamReader {
    data: Vec<u8>,
    cursor: usize,
}

impl MemoryStreamReader {
    /// The backing array.
    pub closed spec fn buf(&self) -> Vec<u8> {
        self.data
    }

    /// The bytes held.
    pub open spec fn contents(&self) -> Seq<u8> {
        self.buf()@
    }

    /// The cursor.
    pub closed spec fn position(&self) -> usize {
        self.cursor
    }

    /// Validity: the cursor stays within the held bytes.
    pub open spec fn wf(&self) -> bool {
        self.position() <= self.contents().len()
    }

    /// A reader over a private copy of `src`, with the cursor at the start.
    pub fn from(src: &[u8]) -> (r: Self)
        ensures
            r.contents() == src@,
            r.position() == 0,
            r.wf(),
    {
        let mut v = Vec::new();
        v.append(src);
        proof {
            assert(v@ =~= src@);
        }
        MemoryStreamReader { data: v, cursor: 0 }
    }

    /// The current position.
    pub fn tell(&self) -> (r: usize)
        ensures
            r == self.position(),
    {
        self.cursor
    }

    /// The number of bytes held.
    pub fn size(&self) -> (r: usize)
        ensures
            r == self.contents().len(),
    {
        self.data.len()
    }

    /// Whether every held byte has been read past.
    pub fn isEOF(&self) -> (r: bool)
        ensures
            r == (self.position() == self.contents().len()),
    {
        self.cursor == self.data.len()
    }

    /// Reads into `buff` from the cursor: transfers the requested count or
    /// whatever remains, whichever is smaller; the rest of `buff` is left
    /// untouched, and the cursor advances by the transferred count. Always
    /// succeeds; a short count means the end of data.
    pub fn read(&mut self, buff: &mut [u8]) -> (r: Result<usize, ()>)
        requires
            old(self).wf(),
        ensures
            final(self).wf(),
            final(self).buf() == old(self).buf(),
            final(self).position() == old(self).position() + readLenOf(
                old(self).contents().len() as int,
                old(self).position() as int,
                old(buff)@.len() as int,
            ),
            r == Result::<usize, ()>::Ok(
                (readLenOf(
                    old(self).contents().len() as int,
                    old(self).position() as int,
                    old(buff)@.len() as int,
                ) as usize),
            ),
            final(buff)@.len() == old(buff)@.len(),
            forall|k: int|
                0 <= k < readLenOf(
                    old(self).contents().len() as int,
                    old(self).position() as int,
                    old(buff)@.len() as int,
                ) ==> final(buff)@[k] == old(self).contents()[old(self).position() + k],
            forall|k: int|
                readLenOf(
                    old(self).contents().len() as int,
                    old(self).position() as int,
                    old(buff)@.len() as int,
                ) <= k < old(buff)@.len() ==> final(buff)@[k] == old(buff)@[k],
    {
        let ghost opos: int = old(self).position() as int;
        let ghost odata: Seq<u8> = old(self).contents();
        let ghost obuff: Seq<u8> = old(buff)@;

        let readLen = if buff.len() > self.data.len() - self.cursor {
            self.data.len() - self.cursor
        } else {
            buff.len()
        };
        let mut c: usize = 0;
        while c < readLen
            invariant
                readLen == readLenOf(odata.len() as int, opos, obuff.len() as int),
                odata.len() <= usize::MAX,
                opos + readLen <= odata.len(),
                readLen <= buff@.len(),
                c <= readLen,
                self.cursor == opos,
                self.data@ == odata,
                buff@.len() == obuff.len(),
                forall|k: int| 0 <= k < c ==> buff@[k] == odata[opos + k],
                forall|k: int| c <= k < obuff.len() ==> buff@[k] == obuff[k],
        decreases readLen - c,
        {
            buff[c] = *self.data.get(self.cursor + c);
            c += 1;
        }
        self.cursor += readLen;
        Ok(readLen)
    }

    /// Moves the cursor, clamping it to `[0, size]`; returns the position
    /// actually taken.
    pub fn seek(&mut self, cursor: usize) -> (r: Result<usize, ()>)
        ensures
            final(self).wf(),
            final(self).buf() == old(self).buf(),
            final(self).position() == if cursor <= old(self).contents().len() {
                cursor as int
            } else {
                old(self).contents().len() as int
            },
            r == Result::<usize, ()>::Ok(final(self).position()),
    {
        if self.data.len() < cursor {
            self.cursor = self.data.len();
        } else {
            self.cursor = cursor;
        }
        Ok(self.cursor)
    }
}

impl Stream for MemoryStreamReader {
    fn tell(&self) -> (r: usize)
        ensures
            r == self.position(),
    {
        self.tell()
    }

    fn size(&self) -> (r: usize)
        ensures
            r == self.contents().len(),
    {
        self.size()
    }
}

impl StreamReader for MemoryStreamReader {
    open spec fn readOk(&self) -> bool {
        self.wf()
    }

    fn read(&mut self, buff: &mut [u8]) -> (r: Result<usize, ()>)
        ensures
            final(self).wf(),
            final(self).buf() == old(self).buf(),
            final(self).position() == old(self).position() + readLenOf(
                old(self).contents().len() as int,
                old(self).position() as int,
                old(buff)@.len() as int,
            ),
            r == Result::<usize, ()>::Ok(
                (readLenOf(
                    old(self).contents().len() as int,
                    old(self).position() as int,
                    old(buff)@.len() as int,
                ) as usize),
            ),
            final(buff)@.len() == old(buff)@.len(),
            forall|k: int|
                0 <= k < readLenOf(
                    old(self).contents().len() as int,
                    old(self).position() as int,
                    old(buff)@.len() as int,
                ) ==> final(buff)@[k] == old(self).contents()[old(self).position() + k],
            forall|k: int|
                readLenOf(
                    old(self).contents().len() as int,
                    old(self).position() as int,
                    old(buff)@.len() as int,
                ) <= k < old(buff)@.len() ==> final(buff)@[k] == old(buff)@[k],
    {
        self.read(buff)
    }

    fn isEOF(&self) -> (r: bool)
        ensures
            r == (self.position() == self.contents().len()),
    {
        self.isEOF()
    }
}

impl StreamSeek for MemoryStreamReader {
    fn seek(&mut self, cursor: usize) -> (r: Result<usize, ()>)
        ensures
            final(self).wf(),
            final(self).buf() == old(self).buf(),
            final(self).position() == if cursor <= old(self).contents().len() {
                cursor as int
            } else {
                old(self).contents().len() as int
            },
            r == Result::<usize, ()>::Ok(final(self).position()),
    {
        self.seek(cursor)
    }
}

/// The round-trip law: bytes written at the front of an empty stream are
/// exactly the stream's contents, and a full-length read from position zero
/// transfers exactly that many bytes.
pub proof fn lemma_write_read_round_trip(b: Seq<u8>)
    ensures
        writeAt(Seq::<u8>::empty(), 0, b) == b,
        readLenOf(b.len() as int, 0, b.len() as int) == b.len(),
{
    assert(writeAt(Seq::<u8>::empty(), 0, b) =~= b);
}

/// The in-place overwrite law: writing within the held range keeps the
/// size, replaces exactly the covered bytes, and leaves every other byte.
pub proof fn lemma_overwrite_in_place(data: Seq<u8>, pos: int, b: Seq<u8>)
    requires
        0 <= pos,
        pos + b.len() <= data.len(),
    ensures
        writeAt(data, pos, b).len() == data.len(),
        forall|k: int| pos <= k < pos + b.len() ==> writeAt(data, pos, b)[k] == b[k - pos],
        forall|k: int|
            0 <= k < data.len() && !(pos <= k < pos + b.len()) ==> writeAt(data, pos, b)[k]
                == data[k],
{
}

} // verus!
