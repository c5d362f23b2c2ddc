use async_stream_packed::byte_stream::{CursorStream, LayeredStream};
use async_stream_packed::errors::StreamError;
use async_stream_packed::gradable::GradableAsyncStream;
use async_stream_packed::grader::LayerGrader;

#[test]
fn with_upgraded_stream_and_grader() {
    let cursor = CursorStream::new(Vec::new());
    let output = LayeredStream::new(cursor, vec![1]);
    let mut stream = GradableAsyncStream::<CursorStream, LayerGrader>::with_upgraded_stream_and_upgrader(
        output,
        LayerGrader::new(1),
    );
    assert_eq!(stream.is_upgraded(), true);
    assert_eq!(stream.upgrade_required(), false);
    assert_eq!(stream.downgrade_required(), true);
    stream.downgrade().unwrap();
    assert_eq!(stream.is_upgraded(), false);
    assert_eq!(stream.upgrade_required(), true);
    assert_eq!(stream.downgrade_required(), false);
}

#[test]
fn downgrade() {
    let cursor = CursorStream::new(Vec::new());
    let mut stream = GradableAsyncStream::new(cursor, LayerGrader::new(1));
    assert_eq!(stream.is_upgraded(), false);
    assert_eq!(stream.upgrade_required(), true);
    assert_eq!(stream.downgrade_required(), false);
    stream.upgrade().unwrap();
    assert_eq!(stream.is_upgraded(), true);
    assert_eq!(stream.upgrade_required(), false);
    assert_eq!(stream.downgrade_required(), true);
    stream.downgrade().unwrap();
    assert_eq!(stream.is_upgraded(), false);
    assert_eq!(stream.upgrade_required(), true);
    assert_eq!(stream.downgrade_required(), false);
}

#[test]
fn downgrade_required() {
    let mut not_reversible = LayerGrader::new(1);
    not_reversible.downgrade_needed = false;

    let cursor = CursorStream::new(Vec::new());
    let mut stream = GradableAsyncStream::new(cursor, not_reversible);
    assert_eq!(stream.is_upgraded(), false);
    assert_eq!(stream.downgrade_required(), false);
    let err = stream.downgrade().err().unwrap();
    assert_eq!(err, StreamError::NotAllowed);
    assert_eq!(err.message(), "not allow");

    //
    let cursor = CursorStream::new(Vec::new());
    let mut stream = GradableAsyncStream::<CursorStream, ()>::with_upgraded_stream(cursor);
    assert_eq!(stream.is_upgraded(), true);
    assert_eq!(stream.downgrade_required(), false);
    let err = stream.downgrade().err().unwrap();
    assert_eq!(err, StreamError::DowngradeNotRequired);
    assert_eq!(err.message(), "downgrade not required");

    //
    let cursor = CursorStream::new(Vec::new());
    let output = LayeredStream::new(cursor, vec![1]);
    let mut not_reversible = LayerGrader::new(1);
    not_reversible.downgrade_needed = false;
    let mut stream = GradableAsyncStream::<CursorStream, LayerGrader>::with_upgraded_stream_and_upgrader(
        output,
        not_reversible,
    );
    assert_eq!(stream.is_upgraded(), true);
    assert_eq!(stream.downgrade_required(), false);
    let err = stream.downgrade().err().unwrap();
    assert_eq!(err, StreamError::DowngradeNotRequired);
    assert_eq!(err.message(), "downgrade not required");
}

#[test]
fn once_upgrade_and_once_downgrade() {
    let mut grader = LayerGrader::new(1);
    grader.single_use = true;
    assert_eq!(grader.upgrade_count, 0);
    assert_eq!(grader.downgrade_count, 0);

    let cursor = CursorStream::new(Vec::new());
    let mut stream = GradableAsyncStream::new(cursor, grader);

    assert_eq!(stream.is_upgraded(), false);
    stream.upgrade().unwrap();
    assert_eq!(stream.is_upgraded(), true);
    stream.downgrade().unwrap();
    assert_eq!(stream.is_upgraded(), false);
    assert_eq!(stream.upgrade_required(), false);
}
