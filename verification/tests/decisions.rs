use async_stream_packed::byte_stream::{ByteStream, CursorStream};
use async_stream_packed::errors::StreamError;
use async_stream_packed::syncable_with_context::{
    ready_or_would_block, SyncableWithContextAsyncStream,
};
use async_stream_packed::syncable_with_waker::WakerKind;
use async_stream_packed::timeoutable::resolve_timeout_poll;

#[test]
fn ready_or_would_block_maps_pending() {
    assert_eq!(ready_or_would_block(Some(Ok(3usize))), Ok(3));
    assert_eq!(
        ready_or_would_block(Some(Err::<usize, StreamError>(StreamError::NotAllowed))),
        Err(StreamError::NotAllowed)
    );
    assert_eq!(
        ready_or_would_block(None::<Result<usize, StreamError>>),
        Err(StreamError::WouldBlock)
    );
    assert_eq!(StreamError::WouldBlock.message(), "would block");
}

#[test]
fn timeout_poll_resolution() {
    assert_eq!(resolve_timeout_poll(Some(Ok(3usize)), false), Some(Ok(3)));
    assert_eq!(resolve_timeout_poll(Some(Ok(3usize)), true), Some(Ok(3)));
    assert_eq!(
        resolve_timeout_poll(None::<Result<usize, StreamError>>, true),
        Some(Err(StreamError::TimedOut))
    );
    assert_eq!(
        resolve_timeout_poll(None::<Result<usize, StreamError>>, false),
        None
    );
    assert_eq!(StreamError::TimedOut.message(), "timed out");
}

#[test]
fn waker_kind_direction() {
    assert!(WakerKind::Read.is_read());
    assert!(!WakerKind::Write.is_read());
    assert_eq!(WakerKind::Read, WakerKind::Read);
    assert_ne!(WakerKind::Read, WakerKind::Write);
}

#[test]
fn syncable_with_context_wraps_stream() {
    let cursor = CursorStream::new(b"foo".to_vec());
    let mut stream = SyncableWithContextAsyncStream::new(cursor);
    assert_eq!(stream.get_ref().data, b"foo".to_vec());
    assert_eq!(stream.get_mut().data, b"foo".to_vec());

    let mut buf = vec![0u8; 4];
    assert_eq!(stream.read(&mut buf), 3);
    assert_eq!(buf, b"foo\0".to_vec());

    let inner = stream.into_inner();
    assert_eq!(inner.data, b"foo".to_vec());
    assert_eq!(inner.pos, 3);
}
