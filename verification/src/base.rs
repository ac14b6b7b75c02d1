//! The behaviour every stream shares: the error taxonomy, the capability
//! guards that run before each operation, and the close protocol.

use vstd::prelude::*;
use vstd::string::StringExecFns;

verus! {

/// A typed stream error, so callers can tell syntax, capability, closed,
/// decode and OS failures apart.
#[derive(Debug)]
pub enum IoError {
    /// A malformed mode string, with the parser's message.
    ModeSyntax(String),
    /// An operation attempted against a capability the stream lacks.
    Capability(String),
    /// An operation on a stream that was closed.
    ClosedStream(String),
    /// Invalid UTF-8 on read; carries the byte offset of the first invalid
    /// byte.
    Decode(usize),
    /// An operation the factory does not support.
    Unsupported(String),
    /// A buffer operation the backing store could not complete, such as a
    /// write it could not grow for.
    WriteFailed(String),
    /// A failed OS call, wrapping the platform error code.
    Os(i32),
}

/// A byte count argument, defaulting to `-1` (read everything) when absent.
pub open spec fn spec_byte_count(bytes: Option<i64>) -> int {
    match bytes {
        Option::Some(b) => b as int,
        Option::None => -1,
    }
}

/// A byte count argument, defaulting to `-1` (read everything) when absent.
pub fn byte_count(bytes: Option<i64>) -> (r: i64)
    ensures
        r as int == spec_byte_count(bytes),
{
    match bytes {
        Some(b) => b,
        None => -1,
    }
}

/// The message a guard reports: the caller's own, or the given default.
pub open spec fn guard_message(msg: Option<String>, default: Seq<char>) -> Seq<char> {
    match msg {
        Option::Some(m) => m@,
        Option::None => default,
    }
}

/// Picks the caller's message or the default.
fn resolve_message(msg: Option<String>, default: &str) -> (r: String)
    ensures
        r@ == guard_message(msg, default@),
{
    match msg {
        Some(m) => m,
        None => String::from_str(default),
    }
}

/// Guard run before every operation: fails exactly when the stream is
/// closed, with the caller's message or the usual one.
pub fn io_base_checkclosed(closed: bool, msg: Option<String>) -> (r: Result<(), IoError>)
    ensures
        r is Ok <==> !closed,
        r matches Err(e) ==> e matches IoError::ClosedStream(m) && m@ == guard_message(
            msg,
            "I/O operation on closed file."@,
        ),
{
    if closed {
        Err(IoError::ClosedStream(resolve_message(msg, "I/O operation on closed file.")))
    } else {
        Ok(())
    }
}

/// Guard for reads: fails exactly when the stream is not readable.
pub fn io_base_checkreadable(readable: bool, msg: Option<String>) -> (r: Result<(), IoError>)
    ensures
        r is Ok <==> readable,
        r matches Err(e) ==> e matches IoError::Capability(m) && m@ == guard_message(
            msg,
            "File or stream is not readable."@,
        ),
{
    if !readable {
        Err(IoError::Capability(resolve_message(msg, "File or stream is not readable.")))
    } else {
        Ok(())
    }
}

/// Guard for writes: fails exactly when the stream is not writable.
pub fn io_base_checkwritable(writable: bool, msg: Option<String>) -> (r: Result<(), IoError>)
    ensures
        r is Ok <==> writable,
        r matches Err(e) ==> e matches IoError::Capability(m) && m@ == guard_message(
            msg,
            "File or stream is not writable."@,
        ),
{
    if !writable {
        Err(IoError::Capability(resolve_message(msg, "File or stream is not writable.")))
    } else {
        Ok(())
    }
}

/// Guard for seeks: fails exactly when the stream is not seekable.
pub fn io_base_checkseekable(seekable: bool, msg: Option<String>) -> (r: Result<(), IoError>)
    ensures
        r is Ok <==> seekable,
        r matches Err(e) ==> e matches IoError::Capability(m) && m@ == guard_message(
            msg,
            "File or stream is not seekable."@,
        ),
{
    if !seekable {
        Err(IoError::Capability(resolve_message(msg, "File or stream is not seekable.")))
    } else {
        Ok(())
    }
}

/// A stream is seekable only when its concrete kind says so.
pub fn io_base_seekable() -> (r: bool)
    ensures
        r == false,
{
    false
}

/// A stream is readable only when its concrete kind says so.
pub fn io_base_readable() -> (r: bool)
    ensures
        r == false,
{
    false
}

/// A stream is writable only when its concrete kind says so.
pub fn io_base_writable() -> (r: bool)
    ensures
        r == false,
{
    false
}

/// Flushing is a no-op unless a concrete stream kind overrides it.
pub fn io_base_flush() -> (r: Result<(), IoError>)
    ensures
        r is Ok,
{
    Ok(())
}

/// One step of the shared line-reading loop, which collects one byte at a
/// time: appends the byte just read (`None` at end of input) and says whether
/// the loop goes on — it stops at end of input, after a newline byte, and
/// once `size` bytes were collected (never by size when `size` is negative).
pub fn io_base_readline_step(res: &mut Vec<u8>, size: i64, got: Option<u8>) -> (more: bool)
    ensures
        got is None ==> final(res)@ == old(res)@ && !more,
        got matches Some(b) ==> final(res)@ == old(res)@ + seq![b] && more == (b != 10 && (size < 0
            || final(res)@.len() < size)),
{
    match got {
        None => false,
        Some(b) => {
            res.push(b);
            if b == 10 {
                false
            } else if size < 0 {
                true
            } else {
                (res.len() as u64) < (size as u64)
            }
        },
    }
}

/// The close protocol shared by every stream: a first close commits the
/// closed state even when the flush that preceded it failed, and still
/// surfaces that failure; a second close does nothing and cannot fail.
/// `flush_result` is the outcome of the flush the caller ran before closing
/// a stream that was still open.
pub fn io_base_close(closed: &mut bool, flush_result: Result<(), IoError>) -> (r: Result<
    (),
    IoError,
>)
    ensures
        *final(closed),
        *old(closed) ==> r is Ok,
        !*old(closed) ==> r == flush_result,
{
    if !*closed {
        *closed = true;
        flush_result
    } else {
        Ok(())
    }
}

} // verus!
