use vstd::prelude::*;

verus! {

/// Why a request to an audio source failed.
#[derive(Clone, Copy, Debug, PartialEq, Eq, Structural)]
pub enum SourceError {
    /// Fewer bytes were left than a read asked for.
    UnexpectedEof,
}

/// The bytes that a read of `count` bytes at `from` hands back.
pub open spec fn span(data: Seq<u8>, from: int, count: int) -> Seq<u8> {
    Seq::new(count as nat, |i: int| data[from + i])
}

/// `buf` with the positions `at .. at + part.len()` replaced by `part`.
pub open spec fn splice(buf: Seq<u8>, at: int, part: Seq<u8>) -> Seq<u8> {
    buf.subrange(0, at) + part + buf.subrange(at + part.len(), buf.len() as int)
}

/// A random-access byte stream that audio is played from: it can report its
/// length and read cursor, seek to an absolute offset, and read an exact
/// number of bytes.
pub trait AudioSource {
    /// Every byte of the source, in order.
    spec fn bytes(&self) -> Seq<u8>;

    /// The read cursor, as a byte offset from the start.
    spec fn cursor(&self) -> nat;

    /// Whether requests that stay within the source never fail (as with a
    /// buffer held in memory).
    spec fn dependable(&self) -> bool;

    /// The total length in bytes.
    fn stream_len(&self) -> (r: Result<u64, SourceError>)
        ensures
            r is Ok ==> r->Ok_0 == self.bytes().len(),
            self.dependable() ==> r is Ok,
    ;

    /// The current read cursor.
    fn stream_position(&self) -> (r: Result<u64, SourceError>)
        ensures
            r is Ok ==> r->Ok_0 == self.cursor(),
            self.dependable() ==> r is Ok,
    ;

    /// Moves the read cursor to the absolute offset `to`.
    fn seek(&mut self, to: u64) -> (r: Result<(), SourceError>)
        ensures
            final(self).bytes() == old(self).bytes(),
            final(self).dependable() == old(self).dependable(),
            r is Ok ==> final(self).cursor() == to,
            old(self).dependable() ==> r is Ok,
    ;

    /// Reads exactly `count` bytes from the cursor into `buf[at .. at + count]`,
    /// and advances the cursor past them. Fails where fewer are left.
    fn read_exact(&mut self, buf: &mut Vec<u8>, at: usize, count: usize) -> (r: Result<
        (),
        SourceError,
    >)
        requires
            at + count <= old(buf).len(),
        ensures
            final(self).bytes() == old(self).bytes(),
            final(self).dependable() == old(self).dependable(),
            final(buf).len() == old(buf).len(),
            r is Ok ==> {
                &&& count == 0 || old(self).cursor() + count <= old(self).bytes().len()
                &&& final(self).cursor() == old(self).cursor() + count
                &&& final(buf)@ == splice(
                    old(buf)@,
                    at as int,
                    span(old(self).bytes(), old(self).cursor() as int, count as int),
                )
            },
            old(self).dependable() && old(self).cursor() + count <= old(self).bytes().len()
                ==> r is Ok,
    ;
}

/// An audio source held in memory, with its read cursor.
pub struct MemorySource {
    data: Vec<u8>,
    pos: u64,
}

impl MemorySource {
    /// A source over `data`, with the cursor at the start.
    pub fn new(data: Vec<u8>) -> (r: MemorySource)
        ensures
            r.bytes() == data@,
            r.cursor() == 0,
            r.dependable(),
    {
        MemorySource { data, pos: 0 }
    }

    /// The current read cursor.
    pub fn position(&self) -> (r: u64)
        ensures
            r == self.cursor(),
    {
        self.pos
    }
}

impl AudioSource for MemorySource {
    closed spec fn bytes(&self) -> Seq<u8> {
        self.data@
    }

    closed spec fn cursor(&self) -> nat {
        self.pos as nat
    }

    closed spec fn dependable(&self) -> bool {
        true
    }

    fn stream_len(&self) -> (r: Result<u64, SourceError>) {
        Ok(self.data.len() as u64)
    }

    fn stream_position(&self) -> (r: Result<u64, SourceError>) {
        Ok(self.pos)
    }

    fn seek(&mut self, to: u64) -> (r: Result<(), SourceError>) {
        self.pos = to;
        Ok(())
    }

    fn read_exact(&mut self, buf: &mut Vec<u8>, at: usize, count: usize) -> (r: Result<
        (),
        SourceError,
    >) {
        let len = self.data.len();
        if self.pos > len as u64 || count > len - self.pos as usize {
            if count == 0 {
                return Ok(());
            }
            return Err(SourceError::UnexpectedEof);
        }
        let start = self.pos as usize;
        let ghost before = buf@;
        let mut i: usize = 0;
        while i < count
            invariant
                i <= count,
                start + count <= len,
                len == self.data.len(),
                at + count <= buf.len(),
                buf.len() == before.len(),
                forall|k: int| 0 <= k < at ==> buf@[k] == before[k],
                forall|k: int| at + count <= k < buf.len() ==> buf@[k] == before[k],
                forall|k: int| at <= k < at + i ==> #[trigger] buf@[k] == self.data@[start + k - at],
            decreases count - i,
        {
            buf.set(at + i, self.data[start + i]);
            i += 1;
        }
        self.pos = self.pos + count as u64;
        assert(buf@ =~= splice(before, at as int, span(self.data@, start as int, count as int)));
        Ok(())
    }
}

} // verus!
