use framed_codecs::CodecError;
use framed_codecs::EncryptedBincode;
use framed_codecs::Framed;
use framed_codecs::FramedError;
use framed_codecs::Json;
use framed_codecs::Poll;
use framed_codecs::QueueTransport;
use framed_codecs::Serializer;
use framed_codecs::SymmetricallyFramed;
use framed_codecs::TransportError;

fn json_frame(v: u64) -> Vec<u8> {
    Json::default().serialize(&v).unwrap()
}

type JsonFramed = Framed<QueueTransport, u64, u64, Json>;

#[test]
fn framed_end_to_end() {
    // Three framed buffers in, three values out, then end-of-stream.
    let transport = QueueTransport::new(vec![json_frame(1), json_frame(2), json_frame(3)]);
    let mut framed: JsonFramed = Framed::new(transport, Json::default());
    assert!(matches!(framed.poll_next(), Poll::Ready(Some(Ok(1)))));
    assert!(matches!(framed.poll_next(), Poll::Ready(Some(Ok(2)))));
    assert!(matches!(framed.poll_next(), Poll::Ready(Some(Ok(3)))));
    assert!(matches!(framed.poll_next(), Poll::Ready(None)));
    // Pulling again after exhaustion stays exhausted.
    assert!(matches!(framed.poll_next(), Poll::Ready(None)));
}

#[test]
fn framed_suspension_propagates() {
    // While the transport is not ready the adapter is not ready, and no
    // buffer is consumed meanwhile.
    let mut transport = QueueTransport::new(vec![json_frame(10)]);
    transport.set_stall(2);
    let mut framed: JsonFramed = Framed::new(transport, Json::default());
    assert!(matches!(framed.poll_next(), Poll::Pending));
    assert!(matches!(framed.poll_next(), Poll::Pending));
    assert!(matches!(framed.poll_next(), Poll::Ready(Some(Ok(10)))));
    assert!(matches!(framed.poll_next(), Poll::Ready(None)));
}

#[test]
fn framed_close_flushes_first() {
    // One unflushed write is pending; closing must deliver it before the
    // transport is closed — the transport's own close never delivers.
    let transport = QueueTransport::new(Vec::new());
    let mut framed: JsonFramed = Framed::new(transport, Json::default());
    assert!(matches!(framed.start_send(42), Ok(())));
    assert_eq!(framed.get_ref().staged.len(), 1);
    assert_eq!(framed.get_ref().flushed.len(), 0);
    assert!(matches!(framed.poll_close(), Poll::Ready(Ok(()))));
    let transport = framed.into_inner();
    assert!(transport.write_closed);
    assert_eq!(transport.staged.len(), 0);
    assert_eq!(transport.flushed, vec![json_frame(42)]);
}

#[test]
fn framed_write_path() {
    let transport = QueueTransport::new(Vec::new());
    let mut framed: JsonFramed = Framed::new(transport, Json::default());
    assert!(matches!(framed.poll_ready(), Poll::Ready(Ok(()))));
    assert!(matches!(framed.start_send(7), Ok(())));
    assert!(matches!(framed.start_send(8), Ok(())));
    assert!(matches!(framed.poll_flush(), Poll::Ready(Ok(()))));
    let transport = framed.into_inner();
    assert_eq!(transport.flushed, vec![json_frame(7), json_frame(8)]);
    assert!(!transport.write_closed);
}

#[test]
fn framed_transport_error_passes_through() {
    // A transport error is yielded verbatim, without decoding, and the
    // stream stays pollable afterwards.
    let events = vec![Err(TransportError::ConnectionLost), Ok(json_frame(9))];
    let transport = QueueTransport::with_events(events);
    let mut framed: JsonFramed = Framed::new(transport, Json::default());
    assert!(matches!(
        framed.poll_next(),
        Poll::Ready(Some(Err(FramedError::Transport(TransportError::ConnectionLost))))
    ));
    assert!(matches!(framed.poll_next(), Poll::Ready(Some(Ok(9)))));
    assert!(matches!(framed.poll_next(), Poll::Ready(None)));
}

#[test]
fn framed_decode_error_does_not_terminate() {
    // A frame the codec rejects surfaces as an error item; the next frame
    // still decodes.
    let transport = QueueTransport::new(vec![b"x".to_vec(), json_frame(5)]);
    let mut framed: JsonFramed = Framed::new(transport, Json::default());
    assert!(matches!(
        framed.poll_next(),
        Poll::Ready(Some(Err(FramedError::Codec(CodecError::Malformed))))
    ));
    assert!(matches!(framed.poll_next(), Poll::Ready(Some(Ok(5)))));
    assert!(matches!(framed.poll_next(), Poll::Ready(None)));
}

#[test]
fn framed_send_after_close_fails() {
    let transport = QueueTransport::new(Vec::new());
    let mut framed: JsonFramed = Framed::new(transport, Json::default());
    assert!(matches!(framed.poll_close(), Poll::Ready(Ok(()))));
    assert!(matches!(
        framed.start_send(1),
        Err(FramedError::Transport(TransportError::Closed))
    ));
}

#[test]
fn framed_encrypted_end_to_end() {
    // The authenticated codec behind the adapter: what one side sends in
    // encrypted frames, the other side reads back as values.
    let key = vec![9u8; 32];
    let sender_transport = QueueTransport::new(Vec::new());
    let mut sender: SymmetricallyFramed<QueueTransport, u64, EncryptedBincode> =
        Framed::new(sender_transport, EncryptedBincode::new(key.clone()));
    assert!(matches!(sender.start_send(1), Ok(())));
    assert!(matches!(sender.start_send(2), Ok(())));
    assert!(matches!(sender.poll_close(), Poll::Ready(Ok(()))));
    let delivered = sender.into_inner().flushed;
    let receiver_transport = QueueTransport::new(delivered);
    let mut receiver: SymmetricallyFramed<QueueTransport, u64, EncryptedBincode> =
        Framed::new(receiver_transport, EncryptedBincode::new(key));
    assert!(matches!(receiver.poll_next(), Poll::Ready(Some(Ok(1)))));
    assert!(matches!(receiver.poll_next(), Poll::Ready(Some(Ok(2)))));
    assert!(matches!(receiver.poll_next(), Poll::Ready(None)));
}

#[test]
fn framed_accessors() {
    let transport = QueueTransport::new(vec![json_frame(1)]);
    let mut framed: JsonFramed = Framed::new(transport, Json::default());
    assert_eq!(framed.get_ref().incoming.len(), 1);
    framed.get_mut().incoming.clear();
    assert!(matches!(framed.poll_next(), Poll::Ready(None)));
    let transport = framed.into_inner();
    assert_eq!(transport.incoming.len(), 0);
}
