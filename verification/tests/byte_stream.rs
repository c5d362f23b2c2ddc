use async_stream_packed::byte_stream::{ByteStream, CursorStream, LayeredStream};

#[test]
fn cursor_read_fills_prefix_and_keeps_padding() {
    let mut cursor = CursorStream::new(b"foo".to_vec());
    let mut buf = vec![7u8; 5];
    let n = cursor.read(&mut buf);
    assert_eq!(n, 3);
    assert_eq!(buf, vec![b'f', b'o', b'o', 7, 7]);
    assert_eq!(cursor.pos, 3);

    // A second read finds no bytes left.
    let n = cursor.read(&mut buf);
    assert_eq!(n, 0);
    assert_eq!(buf, vec![b'f', b'o', b'o', 7, 7]);
}

#[test]
fn cursor_write_overwrites_and_extends() {
    let mut cursor = CursorStream::new(b"abcd".to_vec());
    let mut probe = vec![0u8; 1];
    assert_eq!(cursor.read(&mut probe), 1);
    assert_eq!(probe, vec![b'a']);

    // Writing at position 1 overwrites "bcd" and extends by one byte.
    let n = cursor.write(&b"wxyz".to_vec());
    assert_eq!(n, 4);
    assert_eq!(cursor.data, b"awxyz".to_vec());
    assert_eq!(cursor.pos, 5);

    // Writing at the end extends the contents.
    let n = cursor.write(&b"!".to_vec());
    assert_eq!(n, 1);
    assert_eq!(cursor.data, b"awxyz!".to_vec());
    assert_eq!(cursor.pos, 6);
}

#[test]
fn cursor_flush_changes_nothing() {
    let mut cursor = CursorStream::new(b"foo".to_vec());
    assert!(cursor.flush().is_ok());
    assert_eq!(cursor.data, b"foo".to_vec());
    assert_eq!(cursor.pos, 0);
    assert_eq!(cursor.trace, Vec::new());
}

#[test]
fn layered_stream_passes_bytes_through() {
    let cursor = CursorStream::new(Vec::new());
    let mut layered = LayeredStream::new(cursor, vec![1, 2]);

    assert_eq!(layered.write(&b"foo".to_vec()), 3);
    assert_eq!(layered.inner.data, b"foo".to_vec());
    assert_eq!(layered.inner.pos, 3);
    assert_eq!(layered.layers, vec![1, 2]);
}
