//! The factory that composes a stream from a freshly opened descriptor and a
//! mode string: parse the mode, build the raw descriptor stream, pick the
//! buffering decorator from the access letter, and wrap it for text unless
//! binary was asked for.  Opening the path itself is the caller's: it parses
//! the mode with `split_mode_string`, maps `compute_c_flag`'s answer onto
//! its platform's flags, and hands the descriptor in.

use vstd::prelude::*;
use vstd::string::StrSliceExecFns;
use vstd::string::StringExecFns;

use crate::base::IoError;
use crate::buffered::chosen_buffer_size;
use crate::buffered::BufferedReader;
use crate::buffered::BufferedWriter;
use crate::buffered::RawStream;
use crate::fileio::make_fileio;
use crate::mode::lemma_scan_accepted_chars;
use crate::mode::mode_scan;
use crate::mode::scan_error_message;
use crate::mode::split_mode_string;
use crate::text::BufferedStream;
use crate::text::TextIoWrapper;

verus! {

/// What the factory hands back: a text wrapper, or the bare buffering
/// decorator for binary modes.
pub enum OpenedStream {
    /// A transcoding wrapper over the decorator.
    Text(TextIoWrapper),
    /// The decorator itself.
    Binary(BufferedStream),
}

/// The mode string the factory parses: the caller's, or `"rt"` when absent.
pub open spec fn effective_mode(mode: Option<String>) -> Seq<char> {
    match mode {
        Option::Some(m) => m@,
        Option::None => "rt"@,
    }
}

/// A raw stream freshly built over `fileno`.
pub open spec fn fresh_file_raw(raw: RawStream, fileno: i64) -> bool {
    &&& raw matches RawStream::File(f)
    &&& f.fileno == fileno
    &&& !f.closed
    &&& !f.closefd
}

/// The decorator owed for an access letter: a writer for `'w'`, a reader for
/// `'r'`, each freshly over `fileno` with the default buffer size.
pub open spec fn buffered_shape(bs: BufferedStream, access: char, fileno: i64) -> bool {
    match bs {
        BufferedStream::Reader(rd) => {
            &&& access == 'r'
            &&& fresh_file_raw(rd.raw, fileno)
            &&& rd.buffer_size == chosen_buffer_size(Option::None)
        },
        BufferedStream::Writer(w) => {
            &&& access == 'w'
            &&& fresh_file_raw(w.raw, fileno)
            &&& w.buffer_size == chosen_buffer_size(Option::None)
        },
    }
}

/// The stream owed for an accepted mode over `fileno`.
pub open spec fn opened_shape(st: OpenedStream, access: char, kind: char, fileno: i64) -> bool {
    match st {
        OpenedStream::Text(t) => kind == 't' && buffered_shape(t.buffer, access, fileno),
        OpenedStream::Binary(bs) => kind == 'b' && buffered_shape(bs, access, fileno),
    }
}

/// Composes the stream for an already-opened descriptor and a mode string
/// (`"rt"` when absent): a malformed mode is refused with the parser's exact
/// message before anything is built, append mode is refused as unsupported,
/// and otherwise the decorator chain owed for the mode comes back.
pub fn io_open(fileno: i64, mode: Option<String>) -> (r: Result<OpenedStream, IoError>)
    ensures
        ({
            let sc = mode_scan(effective_mode(mode));
            &&& (r is Ok <==> (sc is Accepted && sc->access != 'a'))
            &&& r matches Ok(st) ==> opened_shape(st, sc->access, sc->kind, fileno)
            &&& r matches Err(e) ==> {
                &&& sc is Accepted ==> (e matches IoError::Unsupported(_))
                &&& !(sc is Accepted) ==> (e matches IoError::ModeSyntax(m) && m@
                    == scan_error_message(sc, effective_mode(mode)))
            }
        }),
{
    let mode_string: String = match mode {
        Some(m) => m,
        None => String::from_str("rt"),
    };
    let ghost ms = mode_string@;
    let parsed = split_mode_string(mode_string);
    let (m, typ) = match parsed {
        Err(msg) => {
            return Err(IoError::ModeSyntax(msg));
        },
        Ok(p) => p,
    };
    proof {
        lemma_scan_accepted_chars(ms, 0, Option::None, Option::None, false);
    }
    let a = m.as_str().get_char(0);
    let buffered: BufferedStream = if a == 'w' {
        BufferedStream::Writer(BufferedWriter::new(RawStream::File(make_fileio(fileno)), None))
    } else if a == 'r' {
        BufferedStream::Reader(BufferedReader::new(RawStream::File(make_fileio(fileno)), None))
    } else {
        return Err(IoError::Unsupported(String::from_str("append mode is not supported")));
    };
    let t = typ.as_str().get_char(0);
    if t == 't' {
        Ok(OpenedStream::Text(TextIoWrapper::new(buffered)))
    } else {
        Ok(OpenedStream::Binary(buffered))
    }
}

} // verus!
