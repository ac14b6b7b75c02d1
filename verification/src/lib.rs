//! Layered stream toolkit: a mode-string parser, an in-memory cursor buffer,
//! closable in-memory text and byte streams, a descriptor-backed raw stream,
//! buffering decorators, a UTF-8 transcoding wrapper, and an `io_open` factory
//! that composes them.

pub mod base;
pub mod buffer;
pub mod buffered;
pub mod fileio;
pub mod mem;
pub mod mode;
pub mod open;
pub mod text;
pub mod transcode;
