use async_stream_packed::byte_stream::CursorStream;
use async_stream_packed::errors::StreamError;
use async_stream_packed::grader::LayerGrader;
use async_stream_packed::upgradable::UpgradableAsyncStream;

#[test]
fn upgradable_futures_io_new() {
    let cursor = CursorStream::new(b"foo".to_vec());
    let mut stream = UpgradableAsyncStream::new(cursor, LayerGrader::new(9));
    assert_eq!(stream.is_upgraded(), false);
    assert_eq!(stream.upgrade_required(), true);
    stream.upgrade().unwrap();
    assert_eq!(stream.is_upgraded(), true);
    assert_eq!(stream.upgrade_required(), false);
}

#[test]
fn upgradable_futures_io_with_stream() {
    let cursor = CursorStream::new(b"foo".to_vec());
    let stream = UpgradableAsyncStream::new(cursor, ());
    assert_eq!(stream.is_upgraded(), false);
    assert_eq!(stream.upgrade_required(), false);
}

#[test]
fn upgradable_futures_io_with_upgraded_stream() {
    let cursor = CursorStream::new(b"foo".to_vec());
    let stream = UpgradableAsyncStream::<CursorStream, ()>::with_upgraded_stream(cursor);
    assert_eq!(stream.is_upgraded(), true);
    assert_eq!(stream.upgrade_required(), false);
}

#[test]
fn upgradable_futures_io_upgrade_required() {
    let mut identity_like = LayerGrader::new(9);
    identity_like.upgrade_needed = false;

    let cursor = CursorStream::new(b"foo".to_vec());
    let mut stream = UpgradableAsyncStream::new(cursor, identity_like);
    assert_eq!(stream.is_upgraded(), false);
    assert_eq!(stream.upgrade_required(), false);
    let err = stream.upgrade().err().unwrap();
    assert_eq!(err, StreamError::UpgradeNotRequired);
    assert_eq!(err.message(), "upgrade not required");

    //
    let cursor = CursorStream::new(b"foo".to_vec());
    let mut stream = UpgradableAsyncStream::<CursorStream, ()>::with_upgraded_stream(cursor);
    assert_eq!(stream.is_upgraded(), true);
    assert_eq!(stream.upgrade_required(), false);
    let err = stream.upgrade().err().unwrap();
    assert_eq!(err, StreamError::NotAllowed);
    assert_eq!(err.message(), "not allow");
}
