use async_stream_packed::byte_stream::{ByteStream, CursorStream, TransitionEvent};
use async_stream_packed::errors::StreamError;
use async_stream_packed::gradable::GradableAsyncStream;
use async_stream_packed::grader::LayerGrader;
use async_stream_packed::upgradable::UpgradableAsyncStream;

#[test]
fn round_trip_preserves_bytes() {
    let cursor = CursorStream::new(Vec::new());
    let mut stream = GradableAsyncStream::new(cursor, LayerGrader::new(5));

    assert_eq!(stream.write(&b"foo".to_vec()), 3);

    stream.upgrade().unwrap();
    stream.downgrade().unwrap();

    assert_eq!(stream.is_upgraded(), false);
    let mut inner = stream.try_into_stream().unwrap();
    assert_eq!(inner.data, b"foo".to_vec());
    assert_eq!(inner.pos, 3);
    assert_eq!(
        inner.trace,
        vec![
            TransitionEvent { id: 5, reverse: false },
            TransitionEvent { id: 5, reverse: true },
        ]
    );

    // Rewind by reconstructing a cursor over the same bytes: the content the
    // round trip preserved reads back unchanged.
    inner.pos = 0;
    let mut buf = vec![0u8; 3];
    assert_eq!(inner.read(&mut buf), 3);
    assert_eq!(buf, b"foo".to_vec());
}

#[test]
fn not_required_upgrade_leaves_state_unchanged() {
    let mut identity_like = LayerGrader::new(1);
    identity_like.upgrade_needed = false;

    let cursor = CursorStream::new(b"foo".to_vec());
    let mut stream = UpgradableAsyncStream::new(cursor, identity_like);
    let err = stream.upgrade().err().unwrap();
    assert_eq!(err, StreamError::UpgradeNotRequired);
    assert_eq!(stream.is_upgraded(), false);
    assert_eq!(stream.upgrade_required(), false);

    // The transport is untouched.
    let inner = stream.try_into_stream().unwrap();
    assert_eq!(inner.data, b"foo".to_vec());
    assert_eq!(inner.trace, Vec::new());
}

#[test]
fn failing_upgrade_surfaces_transformer_error() {
    let mut flaky = LayerGrader::new(6);
    flaky.fail_upgrade = true;

    let cursor = CursorStream::new(Vec::new());
    let mut stream = UpgradableAsyncStream::new(cursor, flaky);
    let err = stream.upgrade().err().unwrap();
    assert_eq!(err, StreamError::Transformer(6));
    assert_eq!(err.message(), "transformer failure");
    assert_eq!(stream.is_upgraded(), false);
}

#[test]
fn failing_downgrade_surfaces_transformer_error() {
    let mut flaky = LayerGrader::new(6);
    flaky.fail_downgrade = true;

    let cursor = CursorStream::new(Vec::new());
    let mut stream = GradableAsyncStream::new(cursor, flaky);
    stream.upgrade().unwrap();
    let err = stream.downgrade().err().unwrap();
    assert_eq!(err, StreamError::Transformer(6));
    assert_eq!(stream.is_upgraded(), false);
}

#[test]
fn reverse_on_pending_is_not_allowed() {
    let cursor = CursorStream::new(Vec::new());
    let mut stream = GradableAsyncStream::new(cursor, LayerGrader::new(3));
    let err = stream.downgrade().err().unwrap();
    assert_eq!(err, StreamError::NotAllowed);
    assert_eq!(stream.is_upgraded(), false);
    assert_eq!(stream.upgrade_required(), true);
}
