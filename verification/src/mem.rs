//! Closable in-memory streams over a cursor buffer: a text stream that
//! transcodes UTF-8 on its edges, and a byte stream that hands bytes through
//! unchanged.  Closing drops the buffer; afterwards every operation but the
//! `closed` query and a repeated `close` reports a closed-stream error.

use vstd::prelude::*;
use vstd::string::StrSliceExecFns;
use vstd::string::StringExecFns;
use vstd::utf8::decode_utf8;
use vstd::utf8::encode_utf8;
use vstd::utf8::valid_utf8;

use crate::base::byte_count;
use crate::base::io_base_checkclosed;
use crate::base::IoError;
use crate::buffer::limited_line_end;
use crate::buffer::line_end;
use crate::buffer::read_count;
use crate::buffer::read_start;
use crate::buffer::split_lines_from;
use crate::buffer::write_at;
use crate::buffer::BufferedIO;
use crate::transcode::decode_text;

verus! {

/// In-memory text stream: a cursor buffer holding the UTF-8 encoding of its
/// text, dropped on close.
pub struct StringIo {
    /// The backing buffer; `None` once the stream is closed.
    pub buffer: Option<BufferedIO>,
}

/// In-memory byte stream: a cursor buffer dropped on close.
pub struct BytesIo {
    /// The backing buffer; `None` once the stream is closed.
    pub buffer: Option<BufferedIO>,
}

impl StringIo {
    /// Whether the stream was closed.
    pub open spec fn is_closed(&self) -> bool {
        self.buffer is None
    }

    /// The buffer contents, for a stream not yet closed.
    pub open spec fn bytes(&self) -> Seq<u8>
        recommends
            !self.is_closed(),
    {
        self.buffer->0.bytes()
    }

    /// The cursor position, for a stream not yet closed.
    pub open spec fn position(&self) -> int
        recommends
            !self.is_closed(),
    {
        self.buffer->0.position()
    }

    /// A fresh text stream holding the UTF-8 encoding of `object` (empty
    /// when absent), with the cursor at the start.
    pub fn new(object: Option<String>) -> (r: StringIo)
        ensures
            !r.is_closed(),
            r.position() == 0,
            r.bytes() == (match object {
                Option::Some(s) => encode_utf8(s@),
                Option::None => Seq::<u8>::empty(),
            }),
    {
        let raw: Vec<u8> = match object {
            Some(s) => s.as_str().as_bytes_vec(),
            None => Vec::new(),
        };
        StringIo { buffer: Some(BufferedIO::new(raw)) }
    }

    /// Writes the UTF-8 encoding of `data` at the cursor and reports the
    /// number of bytes written.
    pub fn write(&mut self, data: &str) -> (r: Result<u64, IoError>)
        ensures
            old(self).is_closed() ==> (r matches Err(IoError::ClosedStream(_)) && *final(self)
                == *old(self)),
            !old(self).is_closed() ==> {
                let enc = encode_utf8(data@);
                &&& !final(self).is_closed()
                &&& r matches Ok(n) ==> {
                    &&& n == enc.len()
                    &&& final(self).bytes() == write_at(old(self).bytes(), old(self).position(), enc)
                    &&& final(self).position() == old(self).position() + enc.len()
                }
                &&& r is Err ==> *final(self) == *old(self)
                &&& (r is Ok <==> (enc.len() == 0 || old(self).position() + enc.len()
                    <= usize::MAX))
            },
    {
        match &mut self.buffer {
            None => Err(closed_error()),
            Some(buf) => {
                let bytes = data.as_bytes();
                match buf.write(bytes) {
                    Some(n) => Ok(n),
                    None => Err(IoError::WriteFailed(error_text("Error Writing String"))),
                }
            },
        }
    }

    /// The whole contents decoded as UTF-8, regardless of the cursor; the
    /// stream is left untouched.
    pub fn getvalue(&self) -> (r: Result<String, IoError>)
        ensures
            self.is_closed() ==> r matches Err(IoError::ClosedStream(_)),
            !self.is_closed() ==> {
                &&& r is Ok <==> valid_utf8(self.bytes())
                &&& r matches Ok(s) ==> s@ == decode_utf8(self.bytes())
                &&& r matches Err(e) ==> e matches IoError::Decode(i) && i < self.bytes().len()
            },
    {
        match &self.buffer {
            None => Err(closed_error()),
            Some(buf) => match decode_text(buf.getvalue()) {
                Ok(s) => Ok(s),
                Err(i) => Err(IoError::Decode(i)),
            },
        }
    }

    /// Moves the cursor to the absolute position `offset`.
    pub fn seek(&mut self, offset: u64) -> (r: Result<u64, IoError>)
        ensures
            old(self).is_closed() ==> (r matches Err(IoError::ClosedStream(_)) && *final(self)
                == *old(self)),
            !old(self).is_closed() ==> {
                &&& r == Ok::<u64, IoError>(offset)
                &&& !final(self).is_closed()
                &&& final(self).bytes() == old(self).bytes()
                &&& final(self).position() == offset
            },
    {
        match &mut self.buffer {
            None => Err(closed_error()),
            Some(buf) => {
                let r = buf.seek(offset);
                match r {
                    Some(p) => Ok(p),
                    None => Err(IoError::WriteFailed(error_text("Error Performing Operation"))),
                }
            },
        }
    }

    /// Every in-memory stream is seekable.
    pub fn seekable(&self) -> (r: bool)
        ensures
            r == true,
    {
        true
    }

    /// Reads `bytes` bytes from the cursor (everything remaining when the
    /// count is absent or negative) and decodes them as UTF-8.  The cursor
    /// advances past the bytes read even when they fail to decode.
    pub fn read(&mut self, bytes: Option<i64>) -> (r: Result<String, IoError>)
        ensures
            old(self).is_closed() ==> (r matches Err(IoError::ClosedStream(_)) && *final(self)
                == *old(self)),
            !old(self).is_closed() ==> {
                let n = (match bytes {
                    Option::Some(b) => b as int,
                    Option::None => -1,
                });
                let start = read_start(old(self).bytes(), old(self).position());
                let cnt = read_count(old(self).bytes(), old(self).position(), n);
                let chunk = old(self).bytes().subrange(start, start + cnt);
                &&& !final(self).is_closed()
                &&& final(self).bytes() == old(self).bytes()
                &&& final(self).position() == old(self).position() + cnt
                &&& (r is Ok <==> valid_utf8(chunk))
                &&& r matches Ok(s) ==> s@ == decode_utf8(chunk)
                &&& r matches Err(e) ==> e matches IoError::Decode(i) && i < chunk.len()
            },
    {
        let n = byte_count(bytes);
        match &mut self.buffer {
            None => Err(closed_error()),
            Some(buf) => {
                let data = match buf.read(n) {
                    Some(value) => value,
                    None => Vec::new(),
                };
                match decode_text(data) {
                    Ok(s) => Ok(s),
                    Err(i) => Err(IoError::Decode(i)),
                }
            },
        }
    }

    /// The cursor position.
    pub fn tell(&self) -> (r: Result<u64, IoError>)
        ensures
            self.is_closed() ==> r matches Err(IoError::ClosedStream(_)),
            !self.is_closed() ==> (r matches Ok(p) && p == self.position()),
    {
        match &self.buffer {
            None => Err(closed_error()),
            Some(buf) => Ok(buf.tell()),
        }
    }

    /// Reads one line — up to and including the next newline byte, or to the
    /// end — and decodes it as UTF-8.  The cursor advances past the line even
    /// when it fails to decode.
    pub fn readline(&mut self) -> (r: Result<String, IoError>)
        ensures
            old(self).is_closed() ==> (r matches Err(IoError::ClosedStream(_)) && *final(self)
                == *old(self)),
            !old(self).is_closed() ==> {
                let start = read_start(old(self).bytes(), old(self).position());
                let end = line_end(old(self).bytes(), start);
                let line = old(self).bytes().subrange(start, end);
                &&& !final(self).is_closed()
                &&& final(self).bytes() == old(self).bytes()
                &&& final(self).position() == old(self).position() + (end - start)
                &&& (r is Ok <==> valid_utf8(line))
                &&& r matches Ok(s) ==> s@ == decode_utf8(line)
                &&& r matches Err(e) ==> e matches IoError::Decode(i) && i < line.len()
            },
    {
        match &mut self.buffer {
            None => Err(closed_error()),
            Some(buf) => {
                let line = buf.read_line_bytes(-1);
                match decode_text(line) {
                    Ok(s) => Ok(s),
                    Err(i) => Err(IoError::Decode(i)),
                }
            },
        }
    }

    /// Shrinks the contents to `size` bytes (to the cursor position when
    /// absent) when they are longer; the cursor does not move.
    pub fn truncate(&mut self, size: Option<usize>) -> (r: Result<(), IoError>)
        ensures
            old(self).is_closed() ==> (r matches Err(IoError::ClosedStream(_)) && *final(self)
                == *old(self)),
            !old(self).is_closed() ==> {
                let cut = (match size {
                    Option::Some(s) => s as int,
                    Option::None => old(self).position(),
                });
                &&& r is Ok
                &&& !final(self).is_closed()
                &&& final(self).position() == old(self).position()
                &&& final(self).bytes() == (if cut <= old(self).bytes().len() {
                    old(self).bytes().subrange(0, cut)
                } else {
                    old(self).bytes()
                })
            },
    {
        match &mut self.buffer {
            None => Err(closed_error()),
            Some(buf) => {
                let cut: usize = match size {
                    Some(s) => s,
                    None => {
                        let p = buf.tell();
                        let blen = buf.data.len();
                        if p > blen as u64 {
                            blen
                        } else {
                            p as usize
                        }
                    },
                };
                buf.truncate(cut);
                proof {
                    assert(old(self).bytes().subrange(0, old(self).bytes().len() as int)
                        =~= old(self).bytes());
                }
                Ok(())
            },
        }
    }

    /// Whether the stream was closed.
    pub fn closed(&self) -> (r: bool)
        ensures
            r == self.is_closed(),
    {
        self.buffer.is_none()
    }

    /// Drops the buffer; repeated closes do nothing.
    pub fn close(&mut self)
        ensures
            final(self).is_closed(),
    {
        self.buffer = None;
    }
}

impl BytesIo {
    /// Whether the stream was closed.
    pub open spec fn is_closed(&self) -> bool {
        self.buffer is None
    }

    /// The buffer contents, for a stream not yet closed.
    pub open spec fn bytes(&self) -> Seq<u8>
        recommends
            !self.is_closed(),
    {
        self.buffer->0.bytes()
    }

    /// The cursor position, for a stream not yet closed.
    pub open spec fn position(&self) -> int
        recommends
            !self.is_closed(),
    {
        self.buffer->0.position()
    }

    /// A fresh byte stream holding `object` (empty when absent), with the
    /// cursor at the start.
    pub fn new(object: Option<Vec<u8>>) -> (r: BytesIo)
        ensures
            !r.is_closed(),
            r.position() == 0,
            r.bytes() == (match object {
                Option::Some(v) => v@,
                Option::None => Seq::<u8>::empty(),
            }),
    {
        let raw: Vec<u8> = match object {
            Some(v) => v,
            None => Vec::new(),
        };
        BytesIo { buffer: Some(BufferedIO::new(raw)) }
    }

    /// Writes `data` at the cursor and reports the number of bytes written.
    pub fn write(&mut self, data: &[u8]) -> (r: Result<u64, IoError>)
        ensures
            old(self).is_closed() ==> (r matches Err(IoError::ClosedStream(_)) && *final(self)
                == *old(self)),
            !old(self).is_closed() ==> {
                &&& !final(self).is_closed()
                &&& r matches Ok(n) ==> {
                    &&& n == data@.len()
                    &&& final(self).bytes() == write_at(
                        old(self).bytes(),
                        old(self).position(),
                        data@,
                    )
                    &&& final(self).position() == old(self).position() + data@.len()
                }
                &&& r is Err ==> *final(self) == *old(self)
                &&& (r is Ok <==> (data@.len() == 0 || old(self).position() + data@.len()
                    <= usize::MAX))
            },
    {
        match &mut self.buffer {
            None => Err(closed_error()),
            Some(buf) => match buf.write(data) {
                Some(n) => Ok(n),
                None => Err(IoError::WriteFailed(error_text("Error Writing Bytes"))),
            },
        }
    }

    /// The whole contents, regardless of the cursor; the stream is left
    /// untouched.
    pub fn getvalue(&self) -> (r: Result<Vec<u8>, IoError>)
        ensures
            self.is_closed() ==> r matches Err(IoError::ClosedStream(_)),
            !self.is_closed() ==> (r matches Ok(v) && v@ == self.bytes()),
    {
        match &self.buffer {
            None => Err(closed_error()),
            Some(buf) => Ok(buf.getvalue()),
        }
    }

    /// Reads `bytes` bytes from the cursor, everything remaining when the
    /// count is absent or negative.
    pub fn read(&mut self, bytes: Option<i64>) -> (r: Result<Vec<u8>, IoError>)
        ensures
            old(self).is_closed() ==> (r matches Err(IoError::ClosedStream(_)) && *final(self)
                == *old(self)),
            !old(self).is_closed() ==> {
                let n = (match bytes {
                    Option::Some(b) => b as int,
                    Option::None => -1,
                });
                let start = read_start(old(self).bytes(), old(self).position());
                let cnt = read_count(old(self).bytes(), old(self).position(), n);
                &&& !final(self).is_closed()
                &&& final(self).bytes() == old(self).bytes()
                &&& final(self).position() == old(self).position() + cnt
                &&& (r matches Ok(v) && v@ == old(self).bytes().subrange(start, start + cnt))
            },
    {
        let n = byte_count(bytes);
        match &mut self.buffer {
            None => Err(closed_error()),
            Some(buf) => match buf.read(n) {
                Some(value) => Ok(value),
                None => Err(IoError::WriteFailed(error_text("Error Retrieving Value"))),
            },
        }
    }

    /// Moves the cursor to the absolute position `offset`.
    pub fn seek(&mut self, offset: u64) -> (r: Result<u64, IoError>)
        ensures
            old(self).is_closed() ==> (r matches Err(IoError::ClosedStream(_)) && *final(self)
                == *old(self)),
            !old(self).is_closed() ==> {
                &&& r == Ok::<u64, IoError>(offset)
                &&& !final(self).is_closed()
                &&& final(self).bytes() == old(self).bytes()
                &&& final(self).position() == offset
            },
    {
        match &mut self.buffer {
            None => Err(closed_error()),
            Some(buf) => {
                let r = buf.seek(offset);
                match r {
                    Some(p) => Ok(p),
                    None => Err(IoError::WriteFailed(error_text("Error Performing Operation"))),
                }
            },
        }
    }

    /// Every in-memory stream is seekable.
    pub fn seekable(&self) -> (r: bool)
        ensures
            r == true,
    {
        true
    }

    /// The cursor position.
    pub fn tell(&self) -> (r: Result<u64, IoError>)
        ensures
            self.is_closed() ==> r matches Err(IoError::ClosedStream(_)),
            !self.is_closed() ==> (r matches Ok(p) && p == self.position()),
    {
        match &self.buffer {
            None => Err(closed_error()),
            Some(buf) => Ok(buf.tell()),
        }
    }

    /// Reads one line of raw bytes: up to and including the next newline
    /// byte, or to the end.
    pub fn readline(&mut self) -> (r: Result<Vec<u8>, IoError>)
        ensures
            old(self).is_closed() ==> (r matches Err(IoError::ClosedStream(_)) && *final(self)
                == *old(self)),
            !old(self).is_closed() ==> {
                let start = read_start(old(self).bytes(), old(self).position());
                let end = line_end(old(self).bytes(), start);
                &&& !final(self).is_closed()
                &&& final(self).bytes() == old(self).bytes()
                &&& final(self).position() == old(self).position() + (end - start)
                &&& (r matches Ok(l) && l@ == old(self).bytes().subrange(start, end))
            },
    {
        match &mut self.buffer {
            None => Err(closed_error()),
            Some(buf) => Ok(buf.read_line_bytes(-1)),
        }
    }

    /// Shrinks the contents to `size` bytes (to the cursor position when
    /// absent) when they are longer; the cursor does not move.
    pub fn truncate(&mut self, size: Option<usize>) -> (r: Result<(), IoError>)
        ensures
            old(self).is_closed() ==> (r matches Err(IoError::ClosedStream(_)) && *final(self)
                == *old(self)),
            !old(self).is_closed() ==> {
                let cut = (match size {
                    Option::Some(s) => s as int,
                    Option::None => old(self).position(),
                });
                &&& r is Ok
                &&& !final(self).is_closed()
                &&& final(self).position() == old(self).position()
                &&& final(self).bytes() == (if cut <= old(self).bytes().len() {
                    old(self).bytes().subrange(0, cut)
                } else {
                    old(self).bytes()
                })
            },
    {
        match &mut self.buffer {
            None => Err(closed_error()),
            Some(buf) => {
                let cut: usize = match size {
                    Some(s) => s,
                    None => {
                        let p = buf.tell();
                        let blen = buf.data.len();
                        if p > blen as u64 {
                            blen
                        } else {
                            p as usize
                        }
                    },
                };
                buf.truncate(cut);
                proof {
                    assert(old(self).bytes().subrange(0, old(self).bytes().len() as int)
                        =~= old(self).bytes());
                }
                Ok(())
            },
        }
    }

    /// Reads one line of raw bytes, stopped early after `size` bytes when
    /// `size` is not negative.
    pub fn readline_limited(&mut self, size: i64) -> (r: Result<Vec<u8>, IoError>)
        ensures
            old(self).is_closed() ==> (r matches Err(IoError::ClosedStream(_)) && *final(self)
                == *old(self)),
            !old(self).is_closed() ==> {
                let start = read_start(old(self).bytes(), old(self).position());
                let end = limited_line_end(old(self).bytes(), start, size as int);
                &&& !final(self).is_closed()
                &&& final(self).bytes() == old(self).bytes()
                &&& final(self).position() == old(self).position() + (end - start)
                &&& (r matches Ok(l) && l@ == old(self).bytes().subrange(start, end))
            },
    {
        match &mut self.buffer {
            None => Err(closed_error()),
            Some(buf) => Ok(buf.read_line_bytes(size)),
        }
    }

    /// One step of the line iteration every stream offers: the next line, or
    /// nothing when no bytes remain before the end.
    pub fn next(&mut self) -> (r: Result<Option<Vec<u8>>, IoError>)
        ensures
            old(self).is_closed() ==> (r matches Err(IoError::ClosedStream(_)) && *final(self)
                == *old(self)),
            !old(self).is_closed() ==> {
                let start = read_start(old(self).bytes(), old(self).position());
                let end = line_end(old(self).bytes(), start);
                &&& !final(self).is_closed()
                &&& final(self).bytes() == old(self).bytes()
                &&& final(self).position() == old(self).position() + (end - start)
                &&& r matches Ok(o) ==> {
                    &&& (o is None <==> start == end)
                    &&& (o matches Some(l) ==> l@ == old(self).bytes().subrange(start, end))
                }
                &&& r is Ok
            },
    {
        proof {
            if !old(self).is_closed() {
                crate::buffer::lemma_line_end_bounds(
                    old(self).bytes(),
                    read_start(old(self).bytes(), old(self).position()),
                );
            }
        }
        match self.readline() {
            Err(e) => Err(e),
            Ok(line) => if line.len() == 0 {
                Ok(None)
            } else {
                Ok(Some(line))
            },
        }
    }

    /// Iterates to the end: every remaining line, in order, each up to and
    /// including its newline byte except perhaps the last; the cursor is
    /// left at the end.
    pub fn readlines(&mut self) -> (r: Result<Vec<Vec<u8>>, IoError>)
        ensures
            old(self).is_closed() ==> (r matches Err(IoError::ClosedStream(_)) && *final(self)
                == *old(self)),
            !old(self).is_closed() ==> {
                let start = read_start(old(self).bytes(), old(self).position());
                let lines = split_lines_from(old(self).bytes(), start);
                &&& !final(self).is_closed()
                &&& final(self).bytes() == old(self).bytes()
                &&& final(self).position() == old(self).position() + (old(self).bytes().len()
                    - start)
                &&& r matches Ok(ls) ==> (ls@.len() == lines.len() && (forall|j: int|
                    0 <= j < lines.len() ==> #[trigger] ls@[j]@ == lines[j]))
                &&& r is Ok
            },
    {
        match &mut self.buffer {
            None => Err(closed_error()),
            Some(buf) => {
                let ghost all = buf.bytes();
                let ghost p0 = buf.position();
                let ghost startc = read_start(all, p0);
                let mut lines: Vec<Vec<u8>> = Vec::new();
                let mut done = false;
                while !done
                    invariant
                        buf.bytes() == all,
                        startc == read_start(all, p0),
                        buf.position() == p0 || (p0 <= all.len() && p0 < buf.position()
                            <= all.len()),
                        done ==> (if p0 <= all.len() {
                            buf.position() == all.len()
                        } else {
                            buf.position() == p0
                        }),
                        lines@.len() + split_lines_from(
                            all,
                            read_start(all, buf.position()),
                        ).len() == split_lines_from(all, startc).len(),
                        forall|j: int|
                            0 <= j < lines@.len() ==> #[trigger] lines@[j]@ == split_lines_from(
                                all,
                                startc,
                            )[j],
                        forall|j: int|
                            0 <= j < split_lines_from(all, read_start(all, buf.position())).len()
                                ==> #[trigger] split_lines_from(
                                all,
                                read_start(all, buf.position()),
                            )[j] == split_lines_from(all, startc)[lines@.len() + j],
                    decreases all.len() - read_start(all, buf.position()) + (if done {
                        0int
                    } else {
                        1int
                    }),
                {
                    let ghost cur = read_start(all, buf.position());
                    proof {
                        crate::buffer::lemma_line_end_bounds(all, cur);
                    }
                    let line = buf.read_line_bytes(-1);
                    if line.len() == 0 {
                        proof {
                            assert(cur == all.len());
                        }
                        done = true;
                    } else {
                        proof {
                            let e = line_end(all, cur);
                            assert(cur < e <= all.len());
                            assert(split_lines_from(all, cur) == seq![all.subrange(cur, e)]
                                + split_lines_from(all, e));
                            assert(split_lines_from(all, cur)[0] == all.subrange(cur, e));
                            assert(forall|j: int|
                                0 <= j < split_lines_from(all, e).len()
                                    ==> #[trigger] split_lines_from(all, e)[j]
                                    == split_lines_from(all, cur)[j + 1]);
                        }
                        lines.push(line);
                    }
                }
                Ok(lines)
            },
        }
    }

    /// Whether the stream was closed.
    pub fn closed(&self) -> (r: bool)
        ensures
            r == self.is_closed(),
    {
        self.buffer.is_none()
    }

    /// Drops the buffer; repeated closes do nothing.
    pub fn close(&mut self)
        ensures
            final(self).is_closed(),
    {
        self.buffer = None;
    }
}

/// Law: a fresh in-memory text stream reads back exactly the text it was
/// built from, and an immediate second read yields no characters and no
/// error: the encoding of the text is valid UTF-8, an unbounded read from
/// the start takes all of it and decodes to the original text, and an
/// unbounded read from the end takes nothing.
pub proof fn lemma_text_round_trip(text: Seq<char>)
    ensures
        ({
            let b = encode_utf8(text);
            &&& valid_utf8(b)
            &&& read_start(b, 0) == 0
            &&& read_count(b, 0, -1) == b.len()
            &&& decode_utf8(b.subrange(0, b.len() as int)) == text
            &&& read_count(b, b.len() as int, -1) == 0
            &&& decode_utf8(b.subrange(b.len() as int, b.len() as int)) == Seq::<char>::empty()
        }),
{
    let b = encode_utf8(text);
    vstd::utf8::encode_utf8_valid_utf8(text);
    vstd::utf8::encode_utf8_decode_utf8(text);
    assert(b.subrange(0, b.len() as int) =~= b);
    assert(b.subrange(b.len() as int, b.len() as int) =~= Seq::<u8>::empty());
}

/// The closed-stream error with its usual message.
fn closed_error() -> (r: IoError)
    ensures
        r matches IoError::ClosedStream(m) && m@ == "I/O operation on closed file."@,
{
    match io_base_checkclosed(true, None) {
        Err(e) => e,
        Ok(()) => IoError::ClosedStream(String::new()),
    }
}

/// Builds an owned error message.
fn error_text(msg: &str) -> (r: String)
    ensures
        r@ == msg@,
{
    String::from_str(msg)
}

} // verus!
