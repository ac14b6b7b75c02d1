//! Thin buffering decorators over a raw stream: they carry a configured
//! buffer-size hint and hand every read and write straight through to the
//! stream beneath, which they own exclusively.  Over an in-memory stream the
//! answer comes at once; over a descriptor stream the answer is the request
//! the caller must put to the OS.

use vstd::prelude::*;
use vstd::string::StringExecFns;

use crate::base::byte_count;
use crate::base::io_base_checkclosed;
use crate::base::spec_byte_count;
use crate::base::IoError;
use crate::buffer::limited_line_end;
use crate::buffer::read_count;
use crate::buffer::read_start;
use crate::buffer::write_at;
use crate::fileio::FileIo;
use crate::fileio::ReadRequest;
use crate::mem::BytesIo;

verus! {

/// The buffer-size hint used when the caller names none.
pub const DEFAULT_BUFFER_SIZE: usize = 8 * 1024;

/// The raw stream beneath a decorator: an in-memory byte stream, or a stream
/// over an OS descriptor.
pub enum RawStream {
    /// An in-memory byte stream.
    InMemory(BytesIo),
    /// A descriptor-backed stream.
    File(FileIo),
}

impl RawStream {
    /// Whether the raw stream was closed.
    pub open spec fn is_closed(&self) -> bool {
        match self {
            RawStream::InMemory(b) => b.is_closed(),
            RawStream::File(f) => f.closed,
        }
    }
}

/// The answer of a delegated read: the bytes themselves from an in-memory
/// stream, or the request to put to the OS for a descriptor stream.
pub enum ReadStep {
    /// The bytes read.
    Done(Vec<u8>),
    /// What to ask of the OS on the stream's descriptor.
    Os(ReadRequest),
}

/// The answer of a delegated line read: the line itself from an in-memory
/// stream, or the size limit for the line-reading loop over the descriptor.
pub enum LineStep {
    /// The line read.
    Done(Vec<u8>),
    /// Collect a line from the descriptor, stopping after this many bytes
    /// when not negative.
    Os(i64),
}

/// The answer of a delegated write: the count written to an in-memory
/// stream, or the descriptor the bytes must be written to.
pub enum WriteStep {
    /// The number of bytes written.
    Done(u64),
    /// Write the bytes to this descriptor.
    Os(i64),
}

/// Reading decorator: a raw stream it owns, and the configured buffer size.
pub struct BufferedReader {
    /// The raw stream beneath.
    pub raw: RawStream,
    /// The configured buffer-size hint; configuration only, reads pass
    /// through unbatched.
    pub buffer_size: usize,
}

/// Writing decorator: a raw stream it owns, and the configured buffer size.
pub struct BufferedWriter {
    /// The raw stream beneath.
    pub raw: RawStream,
    /// The configured buffer-size hint; configuration only, writes pass
    /// through unbatched.
    pub buffer_size: usize,
}

/// The buffer size a decorator keeps: the caller's, or the usual default.
pub open spec fn chosen_buffer_size(buffer_size: Option<usize>) -> int {
    match buffer_size {
        Option::Some(n) => n as int,
        Option::None => DEFAULT_BUFFER_SIZE as int,
    }
}

/// Picks the configured buffer size or the default.
fn resolve_buffer_size(buffer_size: Option<usize>) -> (r: usize)
    ensures
        r == chosen_buffer_size(buffer_size),
{
    match buffer_size {
        Some(n) => n,
        None => DEFAULT_BUFFER_SIZE,
    }
}

/// The descriptor beneath a decorator, for introspection; an in-memory
/// stream has none.
fn raw_fileno(raw: &RawStream) -> (r: Result<i64, IoError>)
    ensures
        raw matches RawStream::File(f) ==> r == Ok::<i64, IoError>(f.fileno),
        raw is InMemory ==> r matches Err(IoError::Unsupported(_)),
{
    match raw {
        RawStream::File(f) => Ok(f.fileno()),
        RawStream::InMemory(_) => Err(
            IoError::Unsupported(String::from_str("stream has no file descriptor")),
        ),
    }
}

impl BufferedReader {
    /// Decorates `raw` with the given buffer size, the usual default when
    /// absent.
    pub fn new(raw: RawStream, buffer_size: Option<usize>) -> (r: BufferedReader)
        ensures
            r.raw == raw,
            r.buffer_size == chosen_buffer_size(buffer_size),
    {
        BufferedReader { raw, buffer_size: resolve_buffer_size(buffer_size) }
    }

    /// Delegates a read of `size` bytes (everything when absent or negative)
    /// to the raw stream.
    pub fn read(&mut self, size: Option<i64>) -> (r: Result<ReadStep, IoError>)
        ensures
            final(self).buffer_size == old(self).buffer_size,
            old(self).raw.is_closed() ==> (r matches Err(IoError::ClosedStream(_)) && *final(self)
                == *old(self)),
            !old(self).raw.is_closed() ==> match old(self).raw {
                RawStream::File(f) => {
                    &&& *final(self) == *old(self)
                    &&& r == (if spec_byte_count(size) < 0 {
                        Ok::<ReadStep, IoError>(ReadStep::Os(ReadRequest::ToEnd))
                    } else {
                        Ok::<ReadStep, IoError>(
                            ReadStep::Os(ReadRequest::UpTo(spec_byte_count(size) as u64)),
                        )
                    })
                },
                RawStream::InMemory(b) => {
                    let start = read_start(b.bytes(), b.position());
                    let cnt = read_count(b.bytes(), b.position(), spec_byte_count(size));
                    &&& final(self).raw matches RawStream::InMemory(b2) && !b2.is_closed()
                        && b2.bytes() == b.bytes() && b2.position() == b.position() + cnt
                    &&& (r matches Ok(ReadStep::Done(v)) && v@ == b.bytes().subrange(
                        start,
                        start + cnt,
                    ))
                },
            },
    {
        match &mut self.raw {
            RawStream::File(f) => match f.read_request(byte_count(size)) {
                Ok(req) => Ok(ReadStep::Os(req)),
                Err(e) => Err(e),
            },
            RawStream::InMemory(b) => match b.read(size) {
                Ok(v) => Ok(ReadStep::Done(v)),
                Err(e) => Err(e),
            },
        }
    }

    /// Delegates a line read to the raw stream, stopped early after `size`
    /// bytes when `size` is not negative.
    pub fn readline(&mut self, size: i64) -> (r: Result<LineStep, IoError>)
        ensures
            final(self).buffer_size == old(self).buffer_size,
            old(self).raw.is_closed() ==> (r matches Err(IoError::ClosedStream(_)) && *final(self)
                == *old(self)),
            !old(self).raw.is_closed() ==> match old(self).raw {
                RawStream::File(_) => {
                    &&& *final(self) == *old(self)
                    &&& r == Ok::<LineStep, IoError>(LineStep::Os(size))
                },
                RawStream::InMemory(b) => {
                    let start = read_start(b.bytes(), b.position());
                    let end = limited_line_end(b.bytes(), start, size as int);
                    &&& final(self).raw matches RawStream::InMemory(b2) && !b2.is_closed()
                        && b2.bytes() == b.bytes() && b2.position() == b.position() + (end - start)
                    &&& (r matches Ok(LineStep::Done(l)) && l@ == b.bytes().subrange(start, end))
                },
            },
    {
        match &mut self.raw {
            RawStream::File(f) => match io_base_checkclosed(f.closed, None) {
                Err(e) => Err(e),
                Ok(()) => Ok(LineStep::Os(size)),
            },
            RawStream::InMemory(b) => match b.readline_limited(size) {
                Ok(l) => Ok(LineStep::Done(l)),
                Err(e) => Err(e),
            },
        }
    }

    /// A buffering decorator supports seeking.
    pub fn seekable(&self) -> (r: bool)
        ensures
            r == true,
    {
        true
    }

    /// Closes the raw stream beneath.  The answer says whether the caller
    /// must release a descriptor now: at most once per stream.
    pub fn close(&mut self) -> (release: bool)
        ensures
            final(self).buffer_size == old(self).buffer_size,
            final(self).raw.is_closed(),
            release == (old(self).raw matches RawStream::File(f) && !f.closed),
            old(self).raw matches RawStream::File(f) ==> (final(self).raw matches RawStream::File(
                f2,
            ) && f2.fileno == f.fileno),
    {
        match &mut self.raw {
            RawStream::InMemory(b) => {
                b.close();
                false
            },
            RawStream::File(f) => f.close(),
        }
    }

    /// The descriptor beneath, for introspection only.
    pub fn fileno(&self) -> (r: Result<i64, IoError>)
        ensures
            self.raw matches RawStream::File(f) ==> r == Ok::<i64, IoError>(f.fileno),
            self.raw is InMemory ==> r matches Err(IoError::Unsupported(_)),
    {
        raw_fileno(&self.raw)
    }
}

impl BufferedWriter {
    /// Decorates `raw` with the given buffer size, the usual default when
    /// absent.
    pub fn new(raw: RawStream, buffer_size: Option<usize>) -> (r: BufferedWriter)
        ensures
            r.raw == raw,
            r.buffer_size == chosen_buffer_size(buffer_size),
    {
        BufferedWriter { raw, buffer_size: resolve_buffer_size(buffer_size) }
    }

    /// Delegates a write of `data` to the raw stream.
    pub fn write(&mut self, data: &[u8]) -> (r: Result<WriteStep, IoError>)
        ensures
            final(self).buffer_size == old(self).buffer_size,
            old(self).raw.is_closed() ==> (r matches Err(IoError::ClosedStream(_)) && *final(self)
                == *old(self)),
            !old(self).raw.is_closed() ==> match old(self).raw {
                RawStream::File(f) => {
                    &&& *final(self) == *old(self)
                    &&& r == Ok::<WriteStep, IoError>(WriteStep::Os(f.fileno))
                },
                RawStream::InMemory(b) => {
                    &&& final(self).raw is InMemory
                    &&& r matches Ok(WriteStep::Done(n)) ==> {
                        &&& n == data@.len()
                        &&& final(self).raw matches RawStream::InMemory(b2) && !b2.is_closed()
                            && b2.bytes() == write_at(b.bytes(), b.position(), data@)
                            && b2.position() == b.position() + data@.len()
                    }
                    &&& (r matches Ok(st) ==> st is Done)
                    &&& r is Err ==> *final(self) == *old(self)
                    &&& (r is Ok <==> (data@.len() == 0 || b.position() + data@.len()
                        <= usize::MAX))
                },
            },
    {
        match &mut self.raw {
            RawStream::File(f) => match f.write_request() {
                Ok(fd) => Ok(WriteStep::Os(fd)),
                Err(e) => Err(e),
            },
            RawStream::InMemory(b) => match b.write(data) {
                Ok(n) => Ok(WriteStep::Done(n)),
                Err(e) => Err(e),
            },
        }
    }

    /// A buffering decorator supports seeking.
    pub fn seekable(&self) -> (r: bool)
        ensures
            r == true,
    {
        true
    }

    /// Closes the raw stream beneath.  The answer says whether the caller
    /// must release a descriptor now: at most once per stream.
    pub fn close(&mut self) -> (release: bool)
        ensures
            final(self).buffer_size == old(self).buffer_size,
            final(self).raw.is_closed(),
            release == (old(self).raw matches RawStream::File(f) && !f.closed),
            old(self).raw matches RawStream::File(f) ==> (final(self).raw matches RawStream::File(
                f2,
            ) && f2.fileno == f.fileno),
    {
        match &mut self.raw {
            RawStream::InMemory(b) => {
                b.close();
                false
            },
            RawStream::File(f) => f.close(),
        }
    }

    /// The descriptor beneath, for introspection only.
    pub fn fileno(&self) -> (r: Result<i64, IoError>)
        ensures
            self.raw matches RawStream::File(f) ==> r == Ok::<i64, IoError>(f.fileno),
            self.raw is InMemory ==> r matches Err(IoError::Unsupported(_)),
    {
        raw_fileno(&self.raw)
    }
}

} // verus!
