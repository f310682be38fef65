use futures::channel::oneshot;
use sphinx::{Receive, TaskHandle};

#[test]
fn oneshot_delivers_exactly_once() {
    let (sender, receiver) = oneshot::channel::<u32>();
    let mut handle = TaskHandle::new(receiver);
    assert!(matches!(handle.try_receive(), Receive::Pending));
    assert!(matches!(handle.try_receive(), Receive::Pending));
    assert!(!handle.is_finished());
    sender.send(42).unwrap();
    assert!(matches!(handle.try_receive(), Receive::Ready(42)));
    assert!(handle.is_finished());
    assert!(matches!(handle.try_receive(), Receive::Closed));
    assert!(matches!(handle.try_receive(), Receive::Closed));
}

#[test]
fn oneshot_sender_dropped_is_closed() {
    let (sender, receiver) = oneshot::channel::<String>();
    let mut handle = TaskHandle::new(receiver);
    drop(sender);
    assert!(matches!(handle.try_receive(), Receive::Closed));
    assert!(handle.is_finished());
    assert!(matches!(handle.try_receive(), Receive::Closed));
}

#[test]
fn interpret_maps_each_poll() {
    assert!(matches!(TaskHandle::interpret(Ok(Some(7u8))), Receive::Ready(7)));
    assert!(matches!(TaskHandle::<u8>::interpret(Ok(None)), Receive::Pending));
    assert!(matches!(TaskHandle::<u8>::interpret(Err(oneshot::Canceled)), Receive::Closed));
}
