use iocore::base::io_base_checkclosed;
use iocore::base::byte_count;
use iocore::base::io_base_checkreadable;
use iocore::base::io_base_checkseekable;
use iocore::base::io_base_checkwritable;
use iocore::base::io_base_flush;
use iocore::base::io_base_readable;
use iocore::base::io_base_seekable;
use iocore::base::io_base_writable;
use iocore::base::io_base_close;
use iocore::base::io_base_readline_step;
use iocore::base::IoError;
use iocore::buffer::BufferedIO;
use iocore::buffered::BufferedReader;
use iocore::buffered::BufferedWriter;
use iocore::buffered::RawStream;
use iocore::buffered::WriteStep;
use iocore::fileio::compute_c_flag;
use iocore::fileio::file_io_read_commit;
use iocore::fileio::make_fileio;
use iocore::fileio::OpenFlag;
use iocore::fileio::ReadRequest;
use iocore::mem::BytesIo;
use iocore::mem::StringIo;
use iocore::open::io_open;
use iocore::open::OpenedStream;
use iocore::text::text_finish_read;
use iocore::text::text_finish_write;
use iocore::text::BufferedStream;
use iocore::text::TextIoWrapper;
use iocore::text::TextRead;
use iocore::text::TextWrite;
use iocore::transcode::utf8_check;

#[test]
fn test_buffered_read() {
    let data = vec![1, 2, 3, 4];
    let bytes: i64 = -1;
    let mut buffered = BufferedIO::new(data.clone());

    assert_eq!(buffered.read(bytes).unwrap(), data);
}

#[test]
fn test_buffered_seek() {
    let data = vec![1, 2, 3, 4];
    let count: u64 = 2;
    let mut buffered = BufferedIO::new(data.clone());

    assert_eq!(buffered.seek(count.clone()).unwrap(), count);
    assert_eq!(buffered.read(count.clone() as i64).unwrap(), vec![3, 4]);
}

#[test]
fn test_buffered_value() {
    let data = vec![1, 2, 3, 4];
    let buffered = BufferedIO::new(data.clone());

    assert_eq!(buffered.getvalue(), data);
}

#[test]
fn test_buffered_write_extends_and_overwrites() {
    let mut buffered = BufferedIO::new(vec![9, 9, 9, 9]);
    assert_eq!(buffered.seek(2).unwrap(), 2);
    assert_eq!(buffered.write(&[7, 7, 7]).unwrap(), 3);
    assert_eq!(buffered.getvalue(), vec![9, 9, 7, 7, 7]);
    assert_eq!(buffered.tell(), 5);
}

#[test]
fn test_buffered_write_past_end_pads_zeros() {
    let mut buffered = BufferedIO::new(Vec::new());
    assert_eq!(buffered.seek(4).unwrap(), 4);
    assert_eq!(buffered.write(&[5]).unwrap(), 1);
    assert_eq!(buffered.getvalue(), vec![0, 0, 0, 0, 5]);
}

#[test]
fn test_buffered_read_past_end_is_empty() {
    let mut buffered = BufferedIO::new(vec![1, 2]);
    assert_eq!(buffered.seek(10).unwrap(), 10);
    assert_eq!(buffered.read(-1).unwrap(), Vec::<u8>::new());
    assert_eq!(buffered.tell(), 10);
}

#[test]
fn test_buffered_readline() {
    let mut buffered = BufferedIO::new(b"ab\ncd".to_vec());
    assert_eq!(buffered.readline().unwrap(), "ab\n");
    assert_eq!(buffered.readline().unwrap(), "cd");
    assert_eq!(buffered.readline().unwrap(), "");
}

#[test]
fn test_string_io_text_round_trip() {
    let mut stream = StringIo::new(Some("hello".to_string()));
    assert_eq!(stream.read(None).unwrap(), "hello");
    assert_eq!(stream.read(None).unwrap(), "");
}

#[test]
fn test_string_io_write_and_getvalue() {
    let mut stream = StringIo::new(None);
    assert_eq!(stream.write("ab").unwrap(), 2);
    assert_eq!(stream.getvalue().unwrap(), "ab");
    assert_eq!(stream.tell().unwrap(), 2);
    assert!(stream.seekable());
}

#[test]
fn test_string_io_decode_error_offset() {
    let mut stream = StringIo::new(Some("é".to_string()));
    match stream.read(Some(1)) {
        Err(IoError::Decode(offset)) => assert_eq!(offset, 0),
        other => panic!("expected a decode error, got {:?}", other.is_ok()),
    }
}

#[test]
fn test_bytes_io_binary_round_trip() {
    let mut stream = BytesIo::new(None);
    assert_eq!(stream.write(b"ab").unwrap(), 2);
    assert_eq!(stream.seek(0).unwrap(), 0);
    assert_eq!(stream.read(None).unwrap(), b"ab".to_vec());
}

#[test]
fn test_bytes_io_truncate_keeps_prefix_and_cursor() {
    let mut stream = BytesIo::new(Some(vec![1, 2, 3, 4]));
    assert_eq!(stream.seek(3).unwrap(), 3);
    stream.truncate(Some(2)).unwrap();
    assert_eq!(stream.getvalue().unwrap(), vec![1, 2]);
    assert_eq!(stream.tell().unwrap(), 3);
}

#[test]
fn test_bytes_io_truncate_never_grows() {
    let mut stream = BytesIo::new(Some(vec![1, 2]));
    stream.truncate(Some(10)).unwrap();
    assert_eq!(stream.getvalue().unwrap(), vec![1, 2]);
}

#[test]
fn test_bytes_io_readline_and_next() {
    let mut stream = BytesIo::new(Some(b"ab\ncd".to_vec()));
    assert_eq!(stream.readline().unwrap(), b"ab\n".to_vec());
    assert_eq!(stream.next().unwrap(), Some(b"cd".to_vec()));
    assert_eq!(stream.next().unwrap(), None);
}

#[test]
fn test_bytes_io_readlines() {
    let mut stream = BytesIo::new(Some(b"ab\ncd\ne".to_vec()));
    assert_eq!(
        stream.readlines().unwrap(),
        vec![b"ab\n".to_vec(), b"cd\n".to_vec(), b"e".to_vec()]
    );
    assert_eq!(stream.tell().unwrap(), 7);
    assert_eq!(stream.readlines().unwrap(), Vec::<Vec<u8>>::new());
}

#[test]
fn test_closed_stream_refuses_operations() {
    let mut stream = StringIo::new(Some("hello".to_string()));
    stream.close();
    assert!(stream.closed());
    assert!(matches!(stream.read(None), Err(IoError::ClosedStream(_))));
    assert!(matches!(stream.write("x"), Err(IoError::ClosedStream(_))));
    assert!(matches!(stream.seek(0), Err(IoError::ClosedStream(_))));
    assert!(matches!(stream.tell(), Err(IoError::ClosedStream(_))));
    assert!(matches!(stream.getvalue(), Err(IoError::ClosedStream(_))));
    assert!(matches!(stream.readline(), Err(IoError::ClosedStream(_))));
    assert!(matches!(stream.truncate(None), Err(IoError::ClosedStream(_))));
    stream.close();
    assert!(stream.closed());

    let mut bytes = BytesIo::new(None);
    bytes.close();
    assert!(matches!(bytes.read(None), Err(IoError::ClosedStream(_))));
    bytes.close();
    assert!(bytes.closed());
}

#[test]
fn test_closed_message() {
    match io_base_checkclosed(true, None) {
        Err(IoError::ClosedStream(m)) => assert_eq!(m, "I/O operation on closed file."),
        _ => panic!("expected the closed-stream error"),
    }
    match io_base_checkclosed(true, Some("gone".to_string())) {
        Err(IoError::ClosedStream(m)) => assert_eq!(m, "gone"),
        _ => panic!("expected the closed-stream error"),
    }
    assert!(io_base_checkclosed(false, None).is_ok());
    match io_base_checkreadable(false, None) {
        Err(IoError::Capability(m)) => assert_eq!(m, "File or stream is not readable."),
        _ => panic!("expected the capability error"),
    }
    match io_base_checkwritable(false, None) {
        Err(IoError::Capability(m)) => assert_eq!(m, "File or stream is not writable."),
        _ => panic!("expected the capability error"),
    }
    match io_base_checkseekable(false, None) {
        Err(IoError::Capability(m)) => assert_eq!(m, "File or stream is not seekable."),
        _ => panic!("expected the capability error"),
    }
    assert!(io_base_checkreadable(true, None).is_ok());
}

#[test]
fn test_base_defaults() {
    assert!(!io_base_seekable());
    assert!(!io_base_readable());
    assert!(!io_base_writable());
    assert!(io_base_flush().is_ok());
    assert_eq!(byte_count(None), -1);
    assert_eq!(byte_count(Some(9)), 9);
}

#[test]
fn test_close_commits_even_when_flush_fails() {
    let mut closed = false;
    let r = io_base_close(&mut closed, Err(IoError::Os(5)));
    assert!(matches!(r, Err(IoError::Os(5))));
    assert!(closed);
    let r = io_base_close(&mut closed, Err(IoError::Os(5)));
    assert!(r.is_ok());
    assert!(closed);
}

#[test]
fn test_readline_step() {
    let mut acc = Vec::new();
    assert!(io_base_readline_step(&mut acc, -1, Some(b'a')));
    assert!(!io_base_readline_step(&mut acc, -1, Some(b'\n')));
    assert_eq!(acc, b"a\n".to_vec());
    assert!(!io_base_readline_step(&mut acc, 3, Some(b'x')));
    assert!(!io_base_readline_step(&mut acc, -1, None));
    assert_eq!(acc, b"a\nx".to_vec());
}

#[test]
fn test_utf8_check_reports_first_invalid_byte() {
    assert!(utf8_check(b"ab\xc3\xa9").is_ok());
    assert_eq!(utf8_check(b"ab\xffcd"), Err(2));
    assert_eq!(utf8_check(b"\xc3"), Err(0));
    assert_eq!(utf8_check(b"ab\xed\xa0\x80"), Err(2));
}

#[test]
fn test_text_wrapper_counts_codepoints_not_bytes() {
    let raw = RawStream::InMemory(BytesIo::new(None));
    let writer = BufferedWriter::new(raw, None);
    let mut text = TextIoWrapper::new(BufferedStream::Writer(writer));
    // three characters, five bytes of UTF-8
    let written = text.write("ab\u{20ac}").unwrap();
    assert!(matches!(written, TextWrite::Done(3)));
}

#[test]
fn test_text_wrapper_read_round_trip() {
    let raw = RawStream::InMemory(BytesIo::new(Some(b"ab\xe2\x82\xac".to_vec())));
    let reader = BufferedReader::new(raw, None);
    let mut text = TextIoWrapper::new(BufferedStream::Reader(reader));
    match text.read(None) {
        Ok(TextRead::Done(s)) => assert_eq!(s, "ab\u{20ac}"),
        _ => panic!("expected the decoded text"),
    }
}

#[test]
fn test_text_wrapper_capability_errors() {
    let writer = BufferedWriter::new(RawStream::InMemory(BytesIo::new(None)), None);
    let mut text = TextIoWrapper::new(BufferedStream::Writer(writer));
    match text.read(None) {
        Err(IoError::Capability(m)) => assert_eq!(m, "not readable"),
        _ => panic!("expected the capability error"),
    }
    let reader = BufferedReader::new(RawStream::InMemory(BytesIo::new(None)), None);
    let mut text = TextIoWrapper::new(BufferedStream::Reader(reader));
    match text.write("x") {
        Err(IoError::Capability(m)) => assert_eq!(m, "not writable"),
        _ => panic!("expected the capability error"),
    }
}

#[test]
fn test_text_wrapper_readline_limits() {
    let reader = BufferedReader::new(
        RawStream::InMemory(BytesIo::new(Some(b"abcd\nef".to_vec()))),
        None,
    );
    let mut text = TextIoWrapper::new(BufferedStream::Reader(reader));
    match text.readline(Some(2)) {
        Ok(TextRead::Done(s)) => assert_eq!(s, "ab"),
        _ => panic!("expected two characters"),
    }
    match text.readline(None) {
        Ok(TextRead::Done(s)) => assert_eq!(s, "cd\n"),
        _ => panic!("expected the rest of the line"),
    }
    match text.readline(None) {
        Ok(TextRead::Done(s)) => assert_eq!(s, "ef"),
        _ => panic!("expected the unterminated last line"),
    }
}

#[test]
fn test_text_wrapper_over_descriptor_requests_os_read() {
    match io_open(5, Some("rt".to_string())) {
        Ok(OpenedStream::Text(mut t)) => {
            match t.read(None) {
                Ok(TextRead::OsRead(ReadRequest::ToEnd)) => {}
                _ => panic!("a descriptor-backed text read must go to the OS"),
            }
            match t.read(Some(4)) {
                Ok(TextRead::OsRead(ReadRequest::UpTo(4))) => {}
                _ => panic!("a sized read must carry its limit"),
            }
            match t.readline(Some(9)) {
                Ok(TextRead::OsReadLine(9)) => {}
                _ => panic!("a line read must carry its limit"),
            }
        }
        _ => panic!("'rt' must give a text stream"),
    }
}

#[test]
fn test_io_open_plus_modes() {
    match io_open(2, Some("r+b".to_string())) {
        Ok(OpenedStream::Binary(BufferedStream::Reader(rd))) => {
            assert_eq!(rd.fileno().unwrap(), 2);
        }
        _ => panic!("'r+b' must give a bare reading decorator"),
    }
    match io_open(2, Some("+wt".to_string())) {
        Ok(OpenedStream::Text(_)) => {}
        _ => panic!("'+wt' must give a text stream over a writer"),
    }
}

#[test]
fn test_text_wrapper_decode_error() {
    let reader = BufferedReader::new(RawStream::InMemory(BytesIo::new(Some(vec![0xff]))), None);
    let mut text = TextIoWrapper::new(BufferedStream::Reader(reader));
    assert!(matches!(text.read(None), Err(IoError::Decode(0))));
}

#[test]
fn test_text_finish_read_decodes() {
    assert_eq!(text_finish_read(vec![0xc3, 0xa9]).unwrap(), "é");
    assert!(matches!(
        text_finish_read(vec![b'a', 0xc3]),
        Err(IoError::Decode(1))
    ));
}

#[test]
fn test_text_finish_write_truncates_to_boundary() {
    // "ab€" encodes to five bytes; a short write of three bytes covers
    // only the two one-byte characters.
    assert_eq!(text_finish_write("ab\u{20ac}", 3), 2);
    assert_eq!(text_finish_write("ab\u{20ac}", 5), 3);
    assert_eq!(text_finish_write("ab\u{20ac}", 0), 0);
}

#[test]
fn test_compute_c_flag_mappings() {
    assert!(matches!(compute_c_flag("w"), OpenFlag::WriteCreate));
    assert!(matches!(compute_c_flag("x"), OpenFlag::WriteCreateExclusive));
    assert!(matches!(compute_c_flag("a"), OpenFlag::Append));
    assert!(matches!(compute_c_flag("+r"), OpenFlag::ReadWrite));
    assert!(matches!(compute_c_flag("r"), OpenFlag::ReadOnly));
    assert!(matches!(compute_c_flag(""), OpenFlag::ReadOnly));
}

#[test]
fn test_fileio_close_releases_once() {
    let mut file = make_fileio(7);
    assert_eq!(file.fileno(), 7);
    assert!(file.seekable());
    assert!(file.close());
    assert!(!file.close());
    assert!(matches!(
        file.read_request(-1),
        Err(IoError::ClosedStream(_))
    ));
    assert!(matches!(
        file.write_request(),
        Err(IoError::ClosedStream(_))
    ));
}

#[test]
fn test_fileio_read_requests() {
    let file = make_fileio(7);
    assert!(matches!(file.read_request(-1), Ok(ReadRequest::ToEnd)));
    assert!(matches!(file.read_request(10), Ok(ReadRequest::UpTo(10))));
    assert_eq!(file_io_read_commit(vec![1, 2, 3, 4], 2), vec![1, 2]);
}

#[test]
fn test_io_open_composes_by_mode() {
    match io_open(7, None) {
        Ok(OpenedStream::Text(t)) => match t.buffer {
            BufferedStream::Reader(rd) => assert_eq!(rd.fileno().unwrap(), 7),
            _ => panic!("the default mode must read"),
        },
        _ => panic!("the default mode must give a text stream"),
    }
    match io_open(7, Some("wb".to_string())) {
        Ok(OpenedStream::Binary(BufferedStream::Writer(w))) => {
            assert_eq!(w.fileno().unwrap(), 7);
            assert!(w.seekable());
        }
        _ => panic!("'wb' must give a bare writing decorator"),
    }
    assert!(matches!(
        io_open(7, Some("a".to_string())),
        Err(IoError::Unsupported(_))
    ));
    match io_open(7, Some("rbsss".to_string())) {
        Err(IoError::ModeSyntax(m)) => assert_eq!(m, "invalid mode: 'rbsss'"),
        _ => panic!("a malformed mode must be refused"),
    }
}

#[test]
fn test_buffered_writer_over_descriptor_requests_os_write() {
    let mut writer = BufferedWriter::new(RawStream::File(make_fileio(3)), Some(16));
    assert_eq!(writer.buffer_size, 16);
    match writer.write(b"xy") {
        Ok(WriteStep::Os(fd)) => assert_eq!(fd, 3),
        _ => panic!("a descriptor-backed write must go to the OS"),
    }
    assert!(writer.close());
    assert!(matches!(
        writer.write(b"xy"),
        Err(IoError::ClosedStream(_))
    ));
}
