use async_stream_packed::byte_stream::{CursorStream, LayeredStream};
use async_stream_packed::errors::StreamError;
use async_stream_packed::grader::LayerGrader;
use async_stream_packed::upgradable::UpgradableAsyncStream;

#[test]
fn upgradable_ext_futures_io_refer() {
    let cursor = CursorStream::new(b"foo".to_vec());
    let mut stream = UpgradableAsyncStream::new(cursor, LayerGrader::new(1));

    assert_eq!(stream.get_ref().data, b"foo".to_vec());
    assert_eq!(stream.get_mut().data, b"foo".to_vec());

    stream.upgrade().unwrap();

    assert_eq!(stream.get_ref().data, b"foo".to_vec());
    assert_eq!(stream.get_mut().data, b"foo".to_vec());

    //
    let cursor = CursorStream::new(b"foo".to_vec());
    let mut stream = UpgradableAsyncStream::<CursorStream, ()>::with_upgraded_stream(cursor);

    assert_eq!(stream.get_ref().data, b"foo".to_vec());
    assert_eq!(stream.get_mut().data, b"foo".to_vec());
}

#[test]
fn into_stream() {
    let cursor = CursorStream::new(b"foo".to_vec());
    let stream = UpgradableAsyncStream::new(cursor, LayerGrader::new(1));

    assert_eq!(stream.into_stream().unwrap().data, b"foo".to_vec());

    //
    let cursor = CursorStream::new(b"foo".to_vec());
    let stream = UpgradableAsyncStream::<CursorStream, ()>::with_upgraded_stream(cursor);

    assert_eq!(stream.into_stream().unwrap().data, b"foo".to_vec());
}

#[test]
fn try_into_stream() {
    let cursor = CursorStream::new(b"foo".to_vec());
    let stream = UpgradableAsyncStream::new(cursor, LayerGrader::new(1));

    assert_eq!(stream.try_into_stream().unwrap().data, b"foo".to_vec());

    //
    let cursor = CursorStream::new(b"foo".to_vec());
    let stream = UpgradableAsyncStream::<CursorStream, ()>::with_upgraded_stream(cursor);

    let err = stream.try_into_stream().err().unwrap();
    assert_eq!(err, StreamError::NotAllowed);
    assert_eq!(err.message(), "not allow");
}
