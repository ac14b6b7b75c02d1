//! The descriptor-backed raw stream.  The stream owns its OS file descriptor
//! until `close`; every OS call itself (open, read, write, release) is the
//! caller's: the functions here decide what to ask of the OS and account for
//! what came back, and guarantee that a descriptor is never used after, nor
//! released more than once by, this stream.

use vstd::prelude::*;
use vstd::slice::slice_subrange;
use vstd::slice::slice_to_vec;
use vstd::string::StrSliceExecFns;

use crate::base::io_base_checkclosed;
use crate::base::IoError;

verus! {

/// How the OS should open a file, decided from a mode string; the caller
/// maps each value onto its platform's open flags.
pub enum OpenFlag {
    /// Write access, creating the file when absent.
    WriteCreate,
    /// Write access, creating the file and failing when it already exists.
    WriteCreateExclusive,
    /// Append access.
    Append,
    /// Both read and write access.
    ReadWrite,
    /// Read access only.
    ReadOnly,
}

/// The flag owed for a mode string: decided by its first character alone,
/// read access when the string is empty or starts with any other character.
pub open spec fn flag_of_mode(s: Seq<char>) -> OpenFlag {
    if s.len() == 0 {
        OpenFlag::ReadOnly
    } else if s[0] == 'w' {
        OpenFlag::WriteCreate
    } else if s[0] == 'x' {
        OpenFlag::WriteCreateExclusive
    } else if s[0] == 'a' {
        OpenFlag::Append
    } else if s[0] == '+' {
        OpenFlag::ReadWrite
    } else {
        OpenFlag::ReadOnly
    }
}

/// Decides from a mode string how the OS should open the file.
pub fn compute_c_flag(mode: &str) -> (r: OpenFlag)
    ensures
        r == flag_of_mode(mode@),
{
    if mode.unicode_len() == 0 {
        return OpenFlag::ReadOnly;
    }
    let c = mode.get_char(0);
    if c == 'w' {
        OpenFlag::WriteCreate
    } else if c == 'x' {
        OpenFlag::WriteCreateExclusive
    } else if c == 'a' {
        OpenFlag::Append
    } else if c == '+' {
        OpenFlag::ReadWrite
    } else {
        OpenFlag::ReadOnly
    }
}

/// A raw stream over an already-open OS file descriptor.
pub struct FileIo {
    /// The descriptor number this stream owns.
    pub fileno: i64,
    /// Whether the stream was closed; once set, no request function hands
    /// the descriptor out again.
    pub closed: bool,
    /// Whether this stream has released the descriptor.
    pub closefd: bool,
}

/// What a raw read asks of the OS.
pub enum ReadRequest {
    /// Read everything up to the end of the file.
    ToEnd,
    /// Read at most this many bytes.
    UpTo(u64),
}

/// Builds the raw stream over an already-open descriptor, which the stream
/// owns from now on.
pub fn make_fileio(fileno: i64) -> (r: FileIo)
    ensures
        r.fileno == fileno,
        !r.closed,
        !r.closefd,
{
    FileIo { fileno, closed: false, closefd: false }
}

impl FileIo {
    /// Decides a read: everything to the end of the file for a negative
    /// count, otherwise at most `read_byte` bytes.  Refused once closed.
    pub fn read_request(&self, read_byte: i64) -> (r: Result<ReadRequest, IoError>)
        ensures
            self.closed ==> r matches Err(IoError::ClosedStream(_)),
            !self.closed ==> r == (if read_byte < 0 {
                Ok::<ReadRequest, IoError>(ReadRequest::ToEnd)
            } else {
                Ok::<ReadRequest, IoError>(ReadRequest::UpTo(read_byte as u64))
            }),
    {
        match io_base_checkclosed(self.closed, None) {
            Err(e) => Err(e),
            Ok(()) => if read_byte < 0 {
                Ok(ReadRequest::ToEnd)
            } else {
                Ok(ReadRequest::UpTo(read_byte as u64))
            },
        }
    }

    /// Hands the descriptor out for a write; refused once closed, so no
    /// write can reach a released descriptor.
    pub fn write_request(&self) -> (r: Result<i64, IoError>)
        ensures
            self.closed ==> r matches Err(IoError::ClosedStream(_)),
            !self.closed ==> r == Ok::<i64, IoError>(self.fileno),
    {
        match io_base_checkclosed(self.closed, None) {
            Err(e) => Err(e),
            Ok(()) => Ok(self.fileno),
        }
    }

    /// Marks the stream closed.  The answer says whether the caller must
    /// release the descriptor now: true exactly once, on the first close, so
    /// the descriptor is never released twice.
    pub fn close(&mut self) -> (release: bool)
        ensures
            final(self).fileno == old(self).fileno,
            final(self).closed,
            release == !old(self).closed,
            release ==> final(self).closefd,
            !release ==> final(self).closefd == old(self).closefd,
    {
        if self.closed {
            false
        } else {
            self.closed = true;
            self.closefd = true;
            true
        }
    }

    /// A descriptor-backed stream supports seeking.
    pub fn seekable(&self) -> (r: bool)
        ensures
            r == true,
    {
        true
    }

    /// The raw descriptor number, for introspection only; ownership stays
    /// with the stream.
    pub fn fileno(&self) -> (r: i64)
        ensures
            r == self.fileno,
    {
        self.fileno
    }
}

/// Accounts for a sized read: of the buffer handed to the OS, only the first
/// `n` bytes — the count the OS reported read — are the stream's data.
pub fn file_io_read_commit(bytes: Vec<u8>, n: usize) -> (r: Vec<u8>)
    requires
        n <= bytes@.len(),
    ensures
        r@ == bytes@.subrange(0, n as int),
{
    slice_to_vec(slice_subrange(bytes.as_slice(), 0, n))
}

/// Replaces the contents of a caller-supplied buffer with the bytes the OS
/// read into a scratch buffer, as a read-into must.
pub fn file_io_readinto_commit(dest: &mut Vec<u8>, got: Vec<u8>)
    ensures
        final(dest)@ == got@,
{
    *dest = got;
}

} // verus!
