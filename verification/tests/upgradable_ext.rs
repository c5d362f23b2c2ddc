use async_stream_packed::byte_stream::{CursorStream, LayeredStream};
use async_stream_packed::grader::LayerGrader;
use async_stream_packed::upgradable::UpgradableAsyncStream;

#[test]
fn upgradable_ext_refer() {
    let cursor = CursorStream::new(b"foo".to_vec());
    let mut stream = UpgradableAsyncStream::new(cursor, LayerGrader::new(1));

    assert_eq!(stream.get_ref().data, b"foo".to_vec());
    assert_eq!(stream.get_mut().data, b"foo".to_vec());

    stream.upgrade().unwrap();

    assert_eq!(stream.get_ref().data, b"foo".to_vec());
    assert_eq!(stream.get_mut().data, b"foo".to_vec());
}

#[test]
fn try_into_s() {
    let cursor = CursorStream::new(b"foo".to_vec());
    let stream = UpgradableAsyncStream::new(cursor, LayerGrader::new(1));

    assert_eq!(stream.into_stream().unwrap().data, b"foo".to_vec());

    let cursor = CursorStream::new(b"foo".to_vec());
    let output = LayeredStream::new(cursor, vec![1]);
    let stream = UpgradableAsyncStream::<CursorStream, LayerGrader>::with_upgraded_stream_and_upgrader(
        output,
        LayerGrader::new(1),
    );

    assert_eq!(stream.into_stream().unwrap().data, b"foo".to_vec());
}
