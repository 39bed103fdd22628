//! Byte-stream capabilities of erased values: writing, reading, buffered
//! reading and seeking, with the values of this crate that provide them.

use vstd::prelude::*;

verus! {

/// What kind of stream failure happened.
#[derive(Clone, Copy, Debug, PartialEq, Eq, Structural)]
pub enum IoErrorKind {
    /// The stream ended before the bytes asked for.
    UnexpectedEof,
    /// A seek to a position before the start of the stream, or past the
    /// largest position.
    InvalidInput,
    /// Any other failure of the wrapped stream.
    Other,
}

/// A failure of a wrapped stream, passed through unchanged.
#[derive(Clone, Copy, Debug, PartialEq, Eq, Structural)]
pub struct IoError {
    pub kind: IoErrorKind,
}

/// Where a seek is counted from.
#[derive(Clone, Copy, Debug, PartialEq, Eq, Structural)]
pub enum SeekFrom {
    Start(u64),
    End(i64),
    Current(i64),
}

/// Writing bytes.
pub trait ErasedIoWrite {
    /// The bytes written so far.
    spec fn sink(&self) -> Seq<u8>;

    /// Writes to this stream always succeed and take every byte.
    spec fn never_fails(&self) -> bool;

    fn erased_write(&mut self, buf: &[u8]) -> (r: Result<usize, IoError>)
        ensures
            r matches Ok(n) ==> n <= buf@.len() && final(self).sink() == old(self).sink() + buf@.take(
                n as int,
            ),
            r is Err ==> final(self).sink() == old(self).sink(),
            old(self).never_fails() ==> r == Ok::<usize, IoError>(buf@.len() as usize),
            final(self).never_fails() == old(self).never_fails(),
    ;

    fn erased_flush(&mut self) -> (r: Result<(), IoError>)
        ensures
            final(self).sink() == old(self).sink(),
            old(self).never_fails() ==> r is Ok,
            final(self).never_fails() == old(self).never_fails(),
    ;

    fn erased_write_all(&mut self, buf: &[u8]) -> (r: Result<(), IoError>)
        ensures
            r is Ok ==> final(self).sink() == old(self).sink() + buf@,
            old(self).never_fails() ==> r is Ok,
            final(self).never_fails() == old(self).never_fails(),
    ;
}

/// Reading bytes.
pub trait ErasedIoRead {
    /// The bytes not yet read.
    spec fn unread(&self) -> Seq<u8>;

    fn erased_read(&mut self, buf: &mut [u8]) -> (r: Result<usize, IoError>)
        ensures
            final(buf)@.len() == old(buf)@.len(),
            r matches Ok(n) ==> {
                &&& n <= old(buf)@.len()
                &&& n <= old(self).unread().len()
                &&& final(buf)@.take(n as int) == old(self).unread().take(n as int)
                &&& final(self).unread() == old(self).unread().skip(n as int)
            },
    ;

    fn erased_read_exact(&mut self, buf: &mut [u8]) -> (r: Result<(), IoError>)
        ensures
            final(buf)@.len() == old(buf)@.len(),
            r is Ok ==> {
                &&& old(buf)@.len() <= old(self).unread().len()
                &&& final(buf)@ == old(self).unread().take(old(buf)@.len() as int)
                &&& final(self).unread() == old(self).unread().skip(old(buf)@.len() as int)
            },
    ;
}

/// Reading bytes through an internal buffer.
pub trait ErasedBufRead: ErasedIoRead {
    fn erased_fill_buf(&mut self) -> (r: Result<&[u8], IoError>)
        ensures
            final(self).unread() == old(self).unread(),
            r matches Ok(b) ==> b@ == old(self).unread().take(b@.len() as int) && (b@.len() == 0
                <==> old(self).unread().len() == 0),
    ;

    fn erased_consume(&mut self, amount: usize)
        ensures
            final(self).unread() == old(self).unread().skip(
                if amount < old(self).unread().len() {
                    amount as int
                } else {
                    old(self).unread().len() as int
                },
            ),
    ;
}

/// Moving the position of a stream.
pub trait ErasedSeek {
    /// The current position.
    spec fn position(&self) -> u64;

    /// The length of the stream.
    spec fn end(&self) -> nat;

    fn erased_seek(&mut self, pos: SeekFrom) -> (r: Result<u64, IoError>)
        ensures
            final(self).end() == old(self).end(),
            r matches Ok(p) ==> p == final(self).position() && p as int == seek_target(
                pos,
                old(self).position(),
                old(self).end(),
            ),
            r is Err ==> final(self).position() == old(self).position(),
    ;
}

/// The position a seek asks for, which may lie outside the valid range.
pub open spec fn seek_target(pos: SeekFrom, current: u64, end: nat) -> int {
    match pos {
        SeekFrom::Start(n) => n as int,
        SeekFrom::End(d) => end + d,
        SeekFrom::Current(d) => current + d,
    }
}

impl ErasedIoWrite for Vec<u8> {
    open spec fn sink(&self) -> Seq<u8> {
        self@
    }

    open spec fn never_fails(&self) -> bool {
        true
    }

    fn erased_write(&mut self, buf: &[u8]) -> (r: Result<usize, IoError>) {
        append_bytes(self, buf);
        assert(buf@.take(buf@.len() as int) =~= buf@);
        Ok(buf.len())
    }

    fn erased_flush(&mut self) -> (r: Result<(), IoError>) {
        Ok(())
    }

    fn erased_write_all(&mut self, buf: &[u8]) -> (r: Result<(), IoError>) {
        append_bytes(self, buf);
        Ok(())
    }
}

/// Appends the bytes of `buf` to `v`.
fn append_bytes(v: &mut Vec<u8>, buf: &[u8])
    ensures
        final(v)@ == old(v)@ + buf@,
{
    let ghost start = v@;
    let mut i: usize = 0;
    while i < buf.len()
        invariant
            i <= buf@.len(),
            v@ == start + buf@.take(i as int),
        decreases buf@.len() - i,
    {
        v.push(buf[i]);
        assert(start + buf@.take(i + 1) =~= start + buf@.take(i as int) + seq![buf@[i as int]]);
        i = i + 1;
    }
    assert(buf@.take(buf@.len() as int) =~= buf@);
}

/// A readable, seekable stream over bytes held in memory.
pub struct ByteCursor {
    bytes: Vec<u8>,
    pos: u64,
}

impl ByteCursor {
    /// The bytes of the stream.
    pub closed spec fn contents(&self) -> Seq<u8> {
        self.bytes@
    }

    /// A stream over `bytes`, positioned at the start.
    pub fn new(bytes: Vec<u8>) -> (r: Self)
        ensures
            r.contents() == bytes@,
            r.position() == 0,
            r.end() == bytes@.len(),
            r.unread() == bytes@,
    {
        let r = ByteCursor { bytes, pos: 0 };
        assert(r.bytes@.skip(0) =~= r.bytes@);
        r
    }

    /// The current position.
    pub fn get_position(&self) -> (r: u64)
        ensures
            r == self.position(),
    {
        self.pos
    }
}

impl ErasedIoRead for ByteCursor {
    closed spec fn unread(&self) -> Seq<u8> {
        if (self.pos as int) < self.bytes@.len() {
            self.bytes@.skip(self.pos as int)
        } else {
            Seq::empty()
        }
    }

    fn erased_read(&mut self, buf: &mut [u8]) -> (r: Result<usize, IoError>) {
        Ok(self.read_into(buf))
    }

    fn erased_read_exact(&mut self, buf: &mut [u8]) -> (r: Result<(), IoError>) {
        let len = self.bytes.len();
        if self.pos > len as u64 || ((len - self.pos as usize) < buf.len()) {
            return Err(IoError { kind: IoErrorKind::UnexpectedEof });
        }
        let k = self.read_into(buf);
        assert(buf@.take(k as int) =~= buf@);
        Ok(())
    }
}

impl ByteCursor {
    /// Copies as many unread bytes into `buf` as both have room for.
    fn read_into(&mut self, buf: &mut [u8]) -> (n: usize)
        ensures
            final(buf)@.len() == old(buf)@.len(),
            n == (if old(buf)@.len() < old(self).unread().len() {
                old(buf)@.len()
            } else {
                old(self).unread().len()
            }),
            final(buf)@.take(n as int) == old(self).unread().take(n as int),
            final(self).unread() == old(self).unread().skip(n as int),
            final(self).bytes == old(self).bytes,
    {
        let len = self.bytes.len();
        if self.pos >= len as u64 {
            assert(buf@.take(0) =~= old(self).unread().take(0));
            assert(self.unread() =~= old(self).unread().skip(0));
            return 0;
        }
        let start = self.pos as usize;
        let avail = len - start;
        let n: usize = if buf.len() < avail {
            buf.len()
        } else {
            avail
        };
        let mut i: usize = 0;
        while i < n
            invariant
                n <= buf@.len(),
                n <= avail == len - start,
                len == self.bytes@.len(),
                start == self.pos,
                i <= n,
                buf@.len() == old(buf)@.len(),
                forall|j: int| 0 <= j < i ==> buf@[j] == self.bytes@[start + j],
            decreases n - i,
        {
            buf[i] = self.bytes[start + i];
            i = i + 1;
        }
        self.pos = (start + n) as u64;
        assert(buf@.take(n as int) =~= old(self).unread().take(n as int));
        assert(self.unread() =~= old(self).unread().skip(n as int));
        n
    }
}

impl ErasedBufRead for ByteCursor {
    fn erased_fill_buf(&mut self) -> (r: Result<&[u8], IoError>) {
        let len = self.bytes.len();
        let start: usize = if self.pos < len as u64 {
            self.pos as usize
        } else {
            len
        };
        let rest = slice_tail(self.bytes.as_slice(), start);
        assert(rest@ =~= old(self).unread().take(rest@.len() as int));
        Ok(rest)
    }

    fn erased_consume(&mut self, amount: usize) {
        let len = self.bytes.len();
        if self.pos >= len as u64 {
            assert(self.unread() =~= old(self).unread().skip(0));
            return;
        }
        let start = self.pos as usize;
        let avail = len - start;
        let n: usize = if amount < avail {
            amount
        } else {
            avail
        };
        self.pos = (start + n) as u64;
        assert(self.unread() =~= old(self).unread().skip(n as int));
    }
}

/// The bytes of `s` from `start` on.
fn slice_tail(s: &[u8], start: usize) -> (r: &[u8])
    requires
        start <= s@.len(),
    ensures
        r@ == s@.skip(start as int),
{
    let (_, tail) = s.split_at(start);
    tail
}

impl ErasedSeek for ByteCursor {
    closed spec fn position(&self) -> u64 {
        self.pos
    }

    closed spec fn end(&self) -> nat {
        self.bytes@.len()
    }

    fn erased_seek(&mut self, pos: SeekFrom) -> (r: Result<u64, IoError>) {
        let target: i128 = match pos {
            SeekFrom::Start(n) => n as i128,
            SeekFrom::End(d) => self.bytes.len() as i128 + d as i128,
            SeekFrom::Current(d) => self.pos as i128 + d as i128,
        };
        if target < 0 || target > u64::MAX as i128 {
            return Err(IoError { kind: IoErrorKind::InvalidInput });
        }
        self.pos = target as u64;
        Ok(self.pos)
    }
}

} // verus!
