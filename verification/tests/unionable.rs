use async_stream_packed::byte_stream::{ByteStream, CursorStream, LayeredStream};
use async_stream_packed::unionable::UnionableAsyncStream;

#[test]
fn unionable_sample() {
    let cursor = CursorStream::new(b"foo".to_vec());
    let mut stream = if true {
        UnionableAsyncStream::<CursorStream, LayeredStream>::one(cursor)
    } else {
        let empty = CursorStream::new(Vec::new());
        UnionableAsyncStream::the_other(LayeredStream::new(empty, Vec::new()))
    };

    assert_eq!(stream.write(&Vec::new()), 0);

    let mut buf = vec![0u8; 5];
    let n = stream.read(&mut buf);
    assert_eq!(n, 3);
    assert_eq!(buf, b"foo\0\0".to_vec());
}

#[test]
fn unionable_the_other_delegates() {
    let cursor = CursorStream::new(b"foo".to_vec());
    let wrapped = LayeredStream::new(cursor, vec![4]);
    let mut stream = UnionableAsyncStream::<CursorStream, LayeredStream>::the_other(wrapped);

    assert_eq!(stream.write(&Vec::new()), 0);

    let mut buf = vec![0u8; 5];
    let n = stream.read(&mut buf);
    assert_eq!(n, 3);
    assert_eq!(buf, b"foo\0\0".to_vec());

    // The same operations against the wrapped stream directly give
    // byte-identical results.
    let cursor = CursorStream::new(b"foo".to_vec());
    let mut direct = LayeredStream::new(cursor, vec![4]);
    assert_eq!(direct.write(&Vec::new()), 0);
    let mut buf2 = vec![0u8; 5];
    let n2 = direct.read(&mut buf2);
    assert_eq!(n2, n);
    assert_eq!(buf2, buf);
}

#[test]
fn unionable_one_matches_direct() {
    let mut stream =
        UnionableAsyncStream::<CursorStream, LayeredStream>::one(CursorStream::new(b"ab".to_vec()));
    let mut direct = CursorStream::new(b"ab".to_vec());

    assert_eq!(stream.write(&b"xy".to_vec()), direct.write(&b"xy".to_vec()));

    let mut buf_union = vec![0u8; 3];
    let mut buf_direct = vec![0u8; 3];
    assert_eq!(
        stream.read(&mut buf_union),
        direct.read(&mut buf_direct)
    );
    assert_eq!(buf_union, buf_direct);
    assert!(stream.flush().is_ok());
}
