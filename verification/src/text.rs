//! UTF-8 transcoding wrapper over a buffering decorator.  Reads decode the
//! bytes beneath and report the byte offset of the first invalid byte;
//! writes encode the text and report how many characters — not bytes — were
//! written, counting only characters whose whole encoding landed.

use vstd::prelude::*;
use vstd::string::StrSliceExecFns;
use vstd::string::StringExecFns;
use vstd::utf8::decode_utf8;
use vstd::utf8::encode_utf8;
use vstd::utf8::valid_first_scalar;
use vstd::utf8::valid_utf8;

use crate::base::byte_count;
use crate::base::spec_byte_count;
use crate::base::IoError;
use crate::buffer::limited_line_end;
use crate::buffer::read_count;
use crate::buffer::read_start;
use crate::buffer::write_at;
use crate::buffered::BufferedReader;
use crate::buffered::BufferedWriter;
use crate::buffered::LineStep;
use crate::buffered::RawStream;
use crate::buffered::ReadStep;
use crate::buffered::WriteStep;
use crate::fileio::ReadRequest;
use crate::transcode::count_written_chars;
use crate::transcode::decode_text;
use crate::transcode::floor_char_boundary;

verus! {

/// The decorator a text wrapper sits on: reads need a reading decorator,
/// writes a writing one.
pub enum BufferedStream {
    /// A reading decorator.
    Reader(BufferedReader),
    /// A writing decorator.
    Writer(BufferedWriter),
}

/// The answer of a text read: the decoded text from an in-memory stream, or
/// the request to put to the OS before decoding.
pub enum TextRead {
    /// The decoded text.
    Done(String),
    /// Ask this of the OS on the stream's descriptor, then decode what came
    /// back with `text_finish_read`.
    OsRead(ReadRequest),
    /// Collect a line from the descriptor — stopping after this many bytes
    /// when not negative — then decode it with `text_finish_read`.
    OsReadLine(i64),
}

/// The answer of a text write: the count of characters written to an
/// in-memory stream, or the descriptor and encoded bytes the OS must write,
/// to be accounted with `text_finish_write`.
pub enum TextWrite {
    /// The number of characters whose whole encoding was written.
    Done(usize),
    /// Write these bytes to this descriptor, then account the reported count
    /// with `text_finish_write`.
    Os(i64, Vec<u8>),
}

/// UTF-8 transcoding wrapper owning the decorator beneath it.
pub struct TextIoWrapper {
    /// The decorator the wrapper transcodes over.
    pub buffer: BufferedStream,
}

impl TextIoWrapper {
    /// Wraps a buffering decorator.
    pub fn new(buffer: BufferedStream) -> (r: TextIoWrapper)
        ensures
            r.buffer == buffer,
    {
        TextIoWrapper { buffer }
    }

    /// A text wrapper supports seeking.
    pub fn seekable(&self) -> (r: bool)
        ensures
            r == true,
    {
        true
    }

    /// Reads `size` bytes (everything when absent or negative) from the
    /// decorator beneath and decodes them as UTF-8.  The stream must wrap a
    /// reading decorator.
    pub fn read(&mut self, size: Option<i64>) -> (r: Result<TextRead, IoError>)
        ensures
            old(self).buffer is Writer ==> (r matches Err(IoError::Capability(m)) && m@
                == "not readable"@ && *final(self) == *old(self)),
            old(self).buffer matches BufferedStream::Reader(rd) ==> {
                &&& rd.raw.is_closed() ==> (r matches Err(IoError::ClosedStream(_)) && *final(self)
                    == *old(self))
                &&& !rd.raw.is_closed() ==> match rd.raw {
                    RawStream::File(_) => {
                        &&& *final(self) == *old(self)
                        &&& r == (if spec_byte_count(size) < 0 {
                            Ok::<TextRead, IoError>(TextRead::OsRead(ReadRequest::ToEnd))
                        } else {
                            Ok::<TextRead, IoError>(
                                TextRead::OsRead(ReadRequest::UpTo(spec_byte_count(size) as u64)),
                            )
                        })
                    },
                    RawStream::InMemory(b) => {
                        let start = read_start(b.bytes(), b.position());
                        let cnt = read_count(b.bytes(), b.position(), spec_byte_count(size));
                        let chunk = b.bytes().subrange(start, start + cnt);
                        &&& final(self).buffer matches BufferedStream::Reader(rd2)
                            && rd2.raw matches RawStream::InMemory(b2) && !b2.is_closed()
                            && b2.bytes() == b.bytes() && b2.position() == b.position() + cnt
                        &&& (r matches Ok(st) ==> (st matches TextRead::Done(s) && s@
                            == decode_utf8(chunk)))
                        &&& (r is Ok <==> valid_utf8(chunk))
                        &&& r matches Err(e) ==> (e matches IoError::Decode(i) && i < chunk.len())
                    },
                }
            },
    {
        match &mut self.buffer {
            BufferedStream::Writer(_) => Err(
                IoError::Capability(String::from_str("not readable")),
            ),
            BufferedStream::Reader(rd) => match rd.read(size) {
                Err(e) => Err(e),
                Ok(ReadStep::Os(req)) => Ok(TextRead::OsRead(req)),
                Ok(ReadStep::Done(bytes)) => match decode_text(bytes) {
                    Ok(s) => Ok(TextRead::Done(s)),
                    Err(i) => Err(IoError::Decode(i)),
                },
            },
        }
    }

    /// Reads one line from the decorator beneath — stopped early after
    /// `size` bytes when given and not negative — and decodes it as UTF-8.
    /// The stream must wrap a reading decorator.
    pub fn readline(&mut self, size: Option<i64>) -> (r: Result<TextRead, IoError>)
        ensures
            old(self).buffer is Writer ==> (r matches Err(IoError::Capability(m)) && m@
                == "not readable"@ && *final(self) == *old(self)),
            old(self).buffer matches BufferedStream::Reader(rd) ==> {
                &&& rd.raw.is_closed() ==> (r matches Err(IoError::ClosedStream(_)) && *final(self)
                    == *old(self))
                &&& !rd.raw.is_closed() ==> match rd.raw {
                    RawStream::File(_) => {
                        &&& *final(self) == *old(self)
                        &&& r matches Ok(st) && st matches TextRead::OsReadLine(n) && n as int
                            == spec_byte_count(size)
                    },
                    RawStream::InMemory(b) => {
                        let start = read_start(b.bytes(), b.position());
                        let end = limited_line_end(b.bytes(), start, spec_byte_count(size));
                        let line = b.bytes().subrange(start, end);
                        &&& final(self).buffer matches BufferedStream::Reader(rd2)
                            && rd2.raw matches RawStream::InMemory(b2) && !b2.is_closed()
                            && b2.bytes() == b.bytes() && b2.position() == b.position() + (end
                            - start)
                        &&& (r matches Ok(st) ==> (st matches TextRead::Done(s) && s@
                            == decode_utf8(line)))
                        &&& (r is Ok <==> valid_utf8(line))
                        &&& r matches Err(e) ==> (e matches IoError::Decode(i) && i < line.len())
                    },
                }
            },
    {
        let n = byte_count(size);
        match &mut self.buffer {
            BufferedStream::Writer(_) => Err(
                IoError::Capability(String::from_str("not readable")),
            ),
            BufferedStream::Reader(rd) => match rd.readline(n) {
                Err(e) => Err(e),
                Ok(LineStep::Os(limit)) => Ok(TextRead::OsReadLine(limit)),
                Ok(LineStep::Done(bytes)) => match decode_text(bytes) {
                    Ok(s) => Ok(TextRead::Done(s)),
                    Err(i) => Err(IoError::Decode(i)),
                },
            },
        }
    }

    /// Encodes `data` as UTF-8 and writes the bytes through the decorator
    /// beneath, which must be a writing one.  For an in-memory stream the
    /// whole encoding lands and the answer is the number of characters of
    /// `data` — characters, not bytes.
    pub fn write(&mut self, data: &str) -> (r: Result<TextWrite, IoError>)
        ensures
            old(self).buffer is Reader ==> (r matches Err(IoError::Capability(m)) && m@
                == "not writable"@ && *final(self) == *old(self)),
            old(self).buffer matches BufferedStream::Writer(w) ==> {
                let enc = encode_utf8(data@);
                &&& w.raw.is_closed() ==> (r matches Err(IoError::ClosedStream(_)) && *final(self)
                    == *old(self))
                &&& !w.raw.is_closed() ==> match w.raw {
                    RawStream::File(f) => {
                        &&& *final(self) == *old(self)
                        &&& (r matches Ok(st) && st matches TextWrite::Os(fd, bytes) && fd
                            == f.fileno && bytes@ == enc)
                    },
                    RawStream::InMemory(b) => {
                        &&& r matches Ok(st) ==> (st matches TextWrite::Done(cnt) && cnt == data@.len())
                        &&& r is Ok ==> (final(self).buffer matches BufferedStream::Writer(w2)
                            && w2.raw matches RawStream::InMemory(b2) && !b2.is_closed()
                            && b2.bytes() == write_at(b.bytes(), b.position(), enc)
                            && b2.position() == b.position() + enc.len())
                        &&& r is Err ==> *final(self) == *old(self)
                        &&& (r is Ok <==> (enc.len() == 0 || b.position() + enc.len()
                            <= usize::MAX))
                    },
                }
            },
    {
        match &mut self.buffer {
            BufferedStream::Reader(_) => Err(
                IoError::Capability(String::from_str("not writable")),
            ),
            BufferedStream::Writer(w) => {
                let bytes = data.as_bytes_vec();
                match w.write(bytes.as_slice()) {
                    Err(e) => Err(e),
                    Ok(WriteStep::Os(fd)) => Ok(TextWrite::Os(fd, bytes)),
                    Ok(WriteStep::Done(n)) => {
                        let written = n as usize;
                        proof {
                            vstd::utf8::encode_utf8_valid_utf8(data@);
                        }
                        let cnt = count_written_chars(bytes.as_slice(), written);
                        proof {
                            let enc = encode_utf8(data@);
                            vstd::utf8::is_char_boundary_start_end_of_seq(enc);
                            assert(floor_char_boundary(enc, enc.len() as int) == enc.len());
                            assert(enc.subrange(0, enc.len() as int) =~= enc);
                            vstd::utf8::encode_utf8_decode_utf8(data@);
                        }
                        Ok(TextWrite::Done(cnt))
                    },
                }
            },
        }
    }
}

/// Decodes the bytes an OS read handed back, as the text wrapper's read
/// does for an in-memory stream: the text on valid UTF-8, else the byte
/// offset of the first invalid byte.
pub fn text_finish_read(bytes: Vec<u8>) -> (r: Result<String, IoError>)
    ensures
        r is Ok <==> valid_utf8(bytes@),
        r matches Ok(s) ==> s@ == decode_utf8(bytes@),
        r matches Err(e) ==> e matches IoError::Decode(i) && {
            &&& i < bytes@.len()
            &&& vstd::utf8::partial_valid_utf8(bytes@, i as int)
            &&& !valid_first_scalar(bytes@.subrange(i as int, bytes@.len() as int))
        },
{
    match decode_text(bytes) {
        Ok(s) => Ok(s),
        Err(i) => Err(IoError::Decode(i)),
    }
}

/// Accounts a text write the OS performed: of the text whose encoding was
/// submitted, counts the characters whose whole encoding lies within the
/// `written` bytes the OS reported, truncating to the last character
/// boundary at or before `written`.
pub fn text_finish_write(data: &str, written: usize) -> (r: usize)
    requires
        written <= encode_utf8(data@).len(),
    ensures
        r == decode_utf8(
            encode_utf8(data@).subrange(
                0,
                floor_char_boundary(encode_utf8(data@), written as int),
            ),
        ).len(),
{
    proof {
        vstd::utf8::encode_utf8_valid_utf8(data@);
    }
    count_written_chars(data.as_bytes(), written)
}

} // verus!
