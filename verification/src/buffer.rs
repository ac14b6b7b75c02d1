//! A growable in-memory byte buffer with a cursor, the backing store of the
//! in-memory streams.
//!
//! The cursor may be moved past the end of the buffer: reads past the end
//! yield no bytes, and a write past the end first pads the gap with zero
//! bytes, so nothing is silently truncated.

use vstd::prelude::*;
use vstd::slice::slice_subrange;
use vstd::slice::slice_to_vec;

verus! {

/// Growable byte buffer with a cursor position.
pub struct BufferedIO {
    /// The buffer contents.
    pub data: Vec<u8>,
    /// The cursor, counted in bytes from the start; it may exceed the length
    /// of `data`.
    pub pos: u64,
}

/// Contents of `buf` after writing `data` at position `pos`: bytes before
/// `pos` are kept, a gap between the old end and `pos` is padded with zeros,
/// `data` overwrites or extends from `pos`, and any old bytes after the
/// written range are kept.  Writing nothing changes nothing.
pub open spec fn write_at(buf: Seq<u8>, pos: int, data: Seq<u8>) -> Seq<u8> {
    if data.len() == 0 {
        buf
    } else {
        let new_len = if pos + data.len() > buf.len() {
            pos + data.len()
        } else {
            buf.len() as int
        };
        Seq::new(
            new_len as nat,
            |i: int|
                if pos <= i < pos + data.len() {
                    data[i - pos]
                } else if i < buf.len() {
                    buf[i]
                } else {
                    0u8
                },
        )
    }
}

/// Where a read on `buf` at position `pos` starts: the cursor, clamped to the
/// end of the buffer.
pub open spec fn read_start(buf: Seq<u8>, pos: int) -> int {
    if pos <= buf.len() {
        pos
    } else {
        buf.len() as int
    }
}

/// How many bytes a read of `n` bytes at position `pos` yields: all remaining
/// bytes when `n` is negative, otherwise at most `n` of them.
pub open spec fn read_count(buf: Seq<u8>, pos: int, n: int) -> int {
    let avail = buf.len() - read_start(buf, pos);
    if n < 0 || n > avail {
        avail
    } else {
        n
    }
}

/// Index just past the line that starts at `i`: one past the first newline
/// byte at or after `i`, or the end of `s` when no newline follows.
pub open spec fn line_end(s: Seq<u8>, i: int) -> int
    decreases s.len() - i,
{
    if i < 0 || i >= s.len() {
        s.len() as int
    } else if s[i] == 10u8 {
        i + 1
    } else {
        line_end(s, i + 1)
    }
}

/// A line runs from its start to at most the end of the buffer, and is
/// never empty unless it starts at or past the end.
pub proof fn lemma_line_end_bounds(s: Seq<u8>, i: int)
    requires
        0 <= i <= s.len(),
    ensures
        i <= line_end(s, i) <= s.len(),
        i < s.len() ==> i < line_end(s, i),
    decreases s.len() - i,
{
    if i < s.len() && s[i] != 10u8 {
        lemma_line_end_bounds(s, i + 1);
    }
}

/// The lines of `s` from position `i` on: each line runs up to and including
/// its newline byte, except perhaps the last.
pub open spec fn split_lines_from(s: Seq<u8>, i: int) -> Seq<Seq<u8>>
    decreases s.len() - i,
{
    if i < 0 || i >= s.len() {
        Seq::empty()
    } else {
        let e = line_end(s, i);
        if i < e <= s.len() {
            seq![s.subrange(i, e)] + split_lines_from(s, e)
        } else {
            Seq::empty()
        }
    }
}

/// Index just past the line that starts at `start`, stopped early after
/// `size` bytes when `size` is not negative.
pub open spec fn limited_line_end(s: Seq<u8>, start: int, size: int) -> int {
    let e = line_end(s, start);
    if size < 0 || start + size >= e {
        e
    } else {
        start + size
    }
}

/// Law: bytes written at the start of a fresh buffer and then read back in
/// full from the start come back unchanged: the write lands them whole, and
/// an unbounded read from position zero yields exactly them.
pub proof fn lemma_write_read_round_trip(data: Seq<u8>)
    ensures
        ({
            let b = write_at(Seq::<u8>::empty(), 0, data);
            &&& b == data
            &&& read_start(b, 0) == 0
            &&& read_count(b, 0, -1) == b.len()
            &&& b.subrange(0, b.len() as int) == data
        }),
{
    let b = write_at(Seq::<u8>::empty(), 0, data);
    assert(b =~= data);
    assert(b.subrange(0, b.len() as int) =~= data);
}

impl BufferedIO {
    /// The buffer contents.
    pub open spec fn bytes(&self) -> Seq<u8> {
        self.data@
    }

    /// The cursor position.
    pub open spec fn position(&self) -> int {
        self.pos as int
    }

    /// A fresh buffer over `data` with the cursor at the start.
    pub fn new(data: Vec<u8>) -> (r: BufferedIO)
        ensures
            r.bytes() == data@,
            r.position() == 0,
    {
        BufferedIO { data, pos: 0 }
    }

    /// Writes `data` at the cursor, never partially: either the whole of
    /// `data` lands in the buffer and the cursor advances past it, or (only
    /// when the buffer cannot grow that far) nothing changes.
    pub fn write(&mut self, data: &[u8]) -> (r: Option<u64>)
        ensures
            r is Some <==> (data@.len() == 0 || old(self).position() + data@.len() <= usize::MAX),
            r matches Some(n) ==> {
                &&& n == data@.len()
                &&& final(self).bytes() == write_at(old(self).bytes(), old(self).position(), data@)
                &&& final(self).position() == old(self).position() + data@.len()
            },
            r is None ==> *final(self) == *old(self),
    {
        let len = data.len();
        if len == 0 {
            return Some(0);
        }
        if self.pos > usize::MAX as u64 - len as u64 {
            return None;
        }
        let pos = self.pos as usize;
        let ghost old_data = self.data@;
        while self.data.len() < pos
            invariant
                len == data@.len(),
                1 <= len,
                pos + len <= usize::MAX,
                self.pos == old(self).pos,
                pos == self.pos,
                self.data@.len() >= old_data.len(),
                self.data@.len() <= old_data.len() || self.data@.len() <= pos,
                forall|i: int| 0 <= i < old_data.len() ==> self.data@[i] == old_data[i],
                forall|i: int| old_data.len() <= i < self.data@.len() ==> self.data@[i] == 0u8,
            decreases pos - self.data@.len(),
        {
            self.data.push(0);
        }
        let ghost base_len: int = if old_data.len() >= pos { old_data.len() as int } else { pos as int };
        assert(self.data@.len() == base_len);
        let mut j: usize = 0;
        while j < len
            invariant
                len == data@.len(),
                1 <= len,
                j <= len,
                pos + len <= usize::MAX,
                self.pos == old(self).pos,
                pos == self.pos,
                base_len == (if old_data.len() >= pos { old_data.len() as int } else { pos as int }),
                self.data@.len() == (if pos + j > base_len {
                    pos + j
                } else {
                    base_len
                }),
                forall|i: int|
                    0 <= i < pos && i < self.data@.len() ==> self.data@[i] == (if i
                        < old_data.len() {
                        old_data[i]
                    } else {
                        0u8
                    }),
                forall|i: int| pos <= i < pos + j ==> self.data@[i] == data@[i - pos],
                forall|i: int|
                    pos + j <= i < self.data@.len() ==> i < old_data.len() && self.data@[i]
                        == old_data[i],
            decreases len - j,
        {
            let idx = pos + j;
            if idx < self.data.len() {
                self.data[idx] = data[j];
            } else {
                self.data.push(data[j]);
            }
            j += 1;
        }
        assert(self.data@ =~= write_at(old_data, pos as int, data@));
        self.pos = self.pos + len as u64;
        Some(len as u64)
    }

    /// Reads `bytes` bytes from the cursor (all remaining bytes when `bytes`
    /// is negative), advancing the cursor by the number actually read.
    /// Reading at or past the end yields an empty result, never an error.
    pub fn read(&mut self, bytes: i64) -> (r: Option<Vec<u8>>)
        ensures
            ({
                let start = read_start(old(self).bytes(), old(self).position());
                let cnt = read_count(old(self).bytes(), old(self).position(), bytes as int);
                &&& r matches Some(out) && out@ == old(self).bytes().subrange(start, start + cnt)
                &&& final(self).bytes() == old(self).bytes()
                &&& final(self).position() == old(self).position() + cnt
            }),
    {
        let n = self.data.len();
        let start: usize = if self.pos < n as u64 {
            self.pos as usize
        } else {
            n
        };
        let count: usize = if bytes < 0 {
            n - start
        } else {
            if (bytes as u64) <= (n - start) as u64 {
                bytes as usize
            } else {
                n - start
            }
        };
        let out = slice_to_vec(slice_subrange(self.data.as_slice(), start, start + count));
        self.pos = self.pos + count as u64;
        Some(out)
    }

    /// Moves the cursor to `offset`, an absolute position from the start,
    /// and reports the position seeked to.
    pub fn seek(&mut self, offset: u64) -> (r: Option<u64>)
        ensures
            r == Some(offset),
            final(self).bytes() == old(self).bytes(),
            final(self).position() == offset,
    {
        self.pos = offset;
        Some(offset)
    }

    /// The cursor position.
    pub fn tell(&self) -> (r: u64)
        ensures
            r == self.position(),
    {
        self.pos
    }

    /// The full buffer contents, regardless of the cursor.
    pub fn getvalue(&self) -> (r: Vec<u8>)
        ensures
            r@ == self.bytes(),
    {
        slice_to_vec(self.data.as_slice())
    }

    /// Reads one line: the bytes from the cursor up to and including the
    /// next newline byte, or to the end when none follows, advancing the
    /// cursor past them.  The line is decoded as UTF-8; on invalid bytes the
    /// cursor still advances but no text is returned.
    pub fn readline(&mut self) -> (r: Option<String>)
        ensures
            ({
                let start = read_start(old(self).bytes(), old(self).position());
                let end = line_end(old(self).bytes(), start);
                let line = old(self).bytes().subrange(start, end);
                &&& final(self).bytes() == old(self).bytes()
                &&& final(self).position() == old(self).position() + (end - start)
                &&& r is Some <==> vstd::utf8::valid_utf8(line)
                &&& r matches Some(s) ==> s@ == vstd::utf8::decode_utf8(line)
            }),
    {
        let line = self.read_line_bytes(-1);
        match crate::transcode::decode_text(line) {
            Ok(s) => Some(s),
            Err(_) => None,
        }
    }

    /// Reads one line as raw bytes, stopping early after `size` bytes when
    /// `size` is not negative: the backing step of the line iteration that
    /// every stream offers.
    pub fn read_line_bytes(&mut self, size: i64) -> (r: Vec<u8>)
        ensures
            ({
                let start = read_start(old(self).bytes(), old(self).position());
                let end = limited_line_end(old(self).bytes(), start, size as int);
                &&& r@ == old(self).bytes().subrange(start, end)
                &&& final(self).bytes() == old(self).bytes()
                &&& final(self).position() == old(self).position() + (end - start)
            }),
    {
        let n = self.data.len();
        let start: usize = if self.pos < n as u64 {
            self.pos as usize
        } else {
            n
        };
        let mut e = start;
        while e < n && self.data[e] != 10
            invariant
                start <= e <= n,
                n == self.data@.len(),
                line_end(self.data@, start as int) == line_end(self.data@, e as int),
            decreases n - e,
        {
            e = e + 1;
        }
        if e < n {
            e = e + 1;
        }
        assert(e == line_end(self.data@, start as int));
        let end: usize = if size < 0 {
            e
        } else {
            if (size as u64) < (e - start) as u64 {
                start + size as usize
            } else {
                e
            }
        };
        let r = slice_to_vec(slice_subrange(self.data.as_slice(), start, end));
        self.pos = self.pos + (end - start) as u64;
        r
    }

    /// Shrinks the buffer to `size` bytes when it is longer; never grows it
    /// and never moves the cursor.
    pub fn truncate(&mut self, size: usize)
        ensures
            final(self).position() == old(self).position(),
            final(self).bytes() == (if size <= old(self).bytes().len() {
                old(self).bytes().subrange(0, size as int)
            } else {
                old(self).bytes()
            }),
    {
        self.data.truncate(size);
    }
}

} // verus!
