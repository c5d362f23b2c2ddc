use async_stream_packed::byte_stream::{ByteStream, CursorStream, TransitionEvent};
use async_stream_packed::grader::LayerGrader;
use async_stream_packed::smtp::SmtpClientInnerStream;

#[test]
fn smtp_case1() {
    let cursor = CursorStream::new(b"foo".to_vec());
    let mut stream = SmtpClientInnerStream::with_imap_client(cursor, LayerGrader::new(9));

    assert_eq!(stream.write(&Vec::new()), 0);

    let mut buf = vec![0u8; 5];
    let n = stream.read(&mut buf);
    assert_eq!(n, 3);
    assert_eq!(buf, b"foo\0\0".to_vec());

    stream.upgrade().unwrap();

    let out = stream.try_into_upgraded_stream().unwrap();
    assert_eq!(
        out.inner.trace,
        vec![TransitionEvent { id: 9, reverse: false }]
    );
}

#[test]
fn smtp_with_smtp_client_starts_pending() {
    let cursor = CursorStream::new(b"foo".to_vec());
    let stream = SmtpClientInnerStream::with_smtp_client(cursor, LayerGrader::new(9));
    assert_eq!(stream.is_upgraded(), false);
    assert_eq!(stream.upgrade_required(), true);
}

#[test]
fn smtp_case2() {
    let cursor = CursorStream::new(b"foo".to_vec());
    let mut stream = SmtpClientInnerStream::with_imap_client(cursor, LayerGrader::new(9));
    stream.upgrade().unwrap();

    assert_eq!(stream.write(&Vec::new()), 0);

    let mut buf = vec![0u8; 5];
    let n = stream.read(&mut buf);
    assert_eq!(n, 3);
    assert_eq!(buf, b"foo\0\0".to_vec());

    let out = stream.try_into_upgraded_stream().unwrap();
    assert_eq!(
        out.inner.trace,
        vec![TransitionEvent { id: 9, reverse: false }]
    );
}
