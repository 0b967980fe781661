use spewcap::buffer::LineBuffer;

#[test]
fn test_buffer_write_and_read() {
    let mut buffer = LineBuffer::new();
    let data = b"Hello\nWorld\n";
    buffer.write(data, data.len());

    assert_eq!(buffer.next_line(), Some("Hello\n".to_string()));
    assert_eq!(buffer.next_line(), Some("World\n".to_string()));
    assert_eq!(buffer.next_line(), None);
}

#[test]
fn test_buffer_partial_lines() {
    let mut buffer = LineBuffer::new();
    buffer.write(b"Hello", 5);
    assert_eq!(buffer.next_line(), None);
    buffer.write(b" World\n", 7);
    assert_eq!(buffer.next_line(), Some("Hello World\n".to_string()));
}

#[test]
fn test_buffer_shift_remaining() {
    let mut buffer = LineBuffer::new();
    let data = b"Line1\nPartial";
    buffer.write(data, data.len());
    assert_eq!(buffer.next_line(), Some("Line1\n".to_string()));
    buffer.write(b"Line\n", 5);
    assert_eq!(buffer.next_line(), Some("PartialLine\n".to_string()));
}

#[test]
fn test_empty_buffer() {
    let buffer = LineBuffer::new();
    assert!(buffer.is_empty());
    assert_eq!(buffer.len(), 0);
}

#[test]
fn test_buffer_capacity() {
    let buffer = LineBuffer::with_capacity(1024);
    assert!(buffer.capacity() >= 1024);
}

/// No byte is lost or duplicated between writes and returned lines: the
/// concatenation of every line drained equals the concatenation of all bytes
/// written, for newline-delimited valid UTF-8 input.
#[test]
fn lines_reassemble_written_stream() {
    let mut buffer = LineBuffer::new();
    let chunks: [&[u8]; 4] = [b"alpha\nbe", b"ta\n", b"gamma", b"\ndelta\n"];
    let mut all_written = String::new();
    for chunk in chunks.iter() {
        all_written.push_str(std::str::from_utf8(chunk).unwrap());
    }
    let mut drained = String::new();
    for chunk in chunks.iter() {
        buffer.write(chunk, chunk.len());
        while let Some(line) = buffer.next_line() {
            drained.push_str(&line);
        }
        buffer.shift_remaining();
    }
    assert_eq!(drained, all_written);
    assert!(buffer.is_empty());
}

/// A multi-byte UTF-8 character split across two writes decodes correctly
/// once both halves and the newline have arrived.
#[test]
fn split_multibyte_character_reassembles() {
    let mut buffer = LineBuffer::new();
    // "Hé\n" encodes as 48 c3 a9 0a; split in the middle of é.
    buffer.write(b"H\xc3", 2);
    assert_eq!(buffer.next_line(), None);
    buffer.write(b"\xa9\n", 2);
    assert_eq!(buffer.next_line(), Some("H\u{e9}\n".to_string()));
}

/// Nothing is returned until a newline arrives; once one write supplies
/// several newlines, repeated calls drain the lines in arrival order.
#[test]
fn lines_drain_in_arrival_order() {
    let mut buffer = LineBuffer::new();
    buffer.write(b"no newline yet", 14);
    assert_eq!(buffer.next_line(), None);
    buffer.write(b"\nfirst\nsecond\n", 14);
    assert_eq!(buffer.next_line(), Some("no newline yet\n".to_string()));
    assert_eq!(buffer.next_line(), Some("first\n".to_string()));
    assert_eq!(buffer.next_line(), Some("second\n".to_string()));
    assert_eq!(buffer.next_line(), None);
}

/// A line whose tail is malformed decodes as its longest valid prefix.
#[test]
fn malformed_tail_decodes_valid_prefix() {
    let mut buffer = LineBuffer::new();
    buffer.write(b"ab\xff\n", 4);
    assert_eq!(buffer.next_line(), Some("ab".to_string()));
    assert_eq!(buffer.next_line(), None);
}

/// A line that starts with a malformed byte yields nothing, and draining
/// continues with the following line.
#[test]
fn wholly_malformed_line_yields_nothing() {
    let mut buffer = LineBuffer::new();
    buffer.write(b"\xff\nok\n", 5);
    assert_eq!(buffer.next_line(), None);
    assert_eq!(buffer.next_line(), Some("ok\n".to_string()));
}

/// Compaction keeps the buffered partial line and gives capacity back after
/// a large burst once retained data is small.
#[test]
fn compaction_reclaims_capacity() {
    let mut buffer = LineBuffer::new();
    let big = vec![b'x'; 30000];
    buffer.write(&big, big.len());
    buffer.write(b"\ntail", 5);
    while buffer.next_line().is_some() {}
    buffer.shift_remaining();
    assert_eq!(buffer.len(), 4);
    assert_eq!(buffer.capacity(), 8192);
    buffer.write(b" end\n", 5);
    assert_eq!(buffer.next_line(), Some("tail end\n".to_string()));
}
