use borrowing_from_session_types::{End, Recv, Restricted, Return, Snd, Split, TransportError};
use kanal::{ReceiveError, SendError};

#[test]
fn send_then_receive_round_trip() {
    let (tx, rx) = kanal::bounded::<i64>(1);
    let sender = Snd::new(tx, End);
    let receiver = Recv::new(rx, End);
    let rest = sender.send(-42).unwrap();
    let End = rest;
    let (value, rest) = receiver.recv().unwrap();
    let End = rest;
    assert_eq!(value, -42);
}

#[test]
fn chain_steps_through_in_order() {
    let (tx, rx) = kanal::bounded::<u32>(2);
    let session = Snd::new(tx.clone(), Snd::new(tx, Recv::new(rx.clone(), End)));
    let session = session.send(1).unwrap();
    let session = session.send(2).unwrap();
    let (first, session) = session.recv().unwrap();
    let End = session;
    assert_eq!(first, 1);
    assert_eq!(rx.recv().unwrap(), 2);
}

fn forward_once(session: Recv<u32, Snd<u32, Return>>) {
    let (x, session) = session.recv().unwrap();
    let session = session.send(x).unwrap();
    drop(session);
}

#[test]
fn borrowed_prefix_forwards_and_remainder_resumes() {
    let (tx, rx) = kanal::bounded::<u32>(1);
    let side_a = Snd::new(tx.clone(), Recv::new(rx.clone(), Snd::new(tx.clone(), End)));
    let side_b = Recv::new(rx.clone(), Snd::new(tx.clone(), Recv::new(rx.clone(), End)));

    let side_a = side_a.send(100).unwrap();

    let (unrestricted, side_b): (Recv<u32, Snd<u32, Return<'static>>>, _) = side_b.split();
    let borrow = Restricted::from_unrestricted(unrestricted, &side_b);
    forward_once(borrow);

    let (unrestricted, side_a): (Recv<u32, Snd<u32, Return<'static>>>, _) = side_a.split();
    let borrow = Restricted::from_unrestricted(unrestricted, &side_a);
    forward_once(borrow);
    let End = side_a;

    let (result, side_b) = side_b.recv().unwrap();
    let End = side_b;
    assert_eq!(result, 100);
}

#[test]
fn empty_split_leaves_session_untouched() {
    let (tx, rx) = kanal::bounded::<u8>(1);
    let session = Snd::new(tx, End);
    let (lent, session): (Return<'static>, _) = session.split();
    drop(lent);
    let End = session.send(9).unwrap();
    assert_eq!(rx.recv().unwrap(), 9);
}

#[test]
fn empty_split_of_receive_leaves_session_untouched() {
    let (tx, rx) = kanal::bounded::<u8>(1);
    let session = Recv::new(rx, End);
    let (lent, session): (Return<'static>, _) = session.split();
    drop(lent);
    tx.send(3).unwrap();
    let (value, End) = session.recv().unwrap();
    assert_eq!(value, 3);
}

#[test]
fn finished_session_splits_into_marker_and_end() {
    let (lent, rest): (Return<'static>, End) = End.split();
    let anchor = 0u8;
    let lent: Return = Restricted::from_unrestricted(lent, &anchor);
    drop(lent);
    let End = rest;
}

#[test]
fn full_split_lends_every_step() {
    let (tx, rx) = kanal::bounded::<u16>(2);
    let session = Snd::new(tx.clone(), Snd::new(tx, End));
    let (lent, rest): (Snd<u16, Snd<u16, Return<'static>>>, End) = session.split();
    let lent: Snd<u16, Snd<u16, Return>> = Restricted::from_unrestricted(lent, &rest);
    let lent = lent.send(5).unwrap();
    let lent = lent.send(6).unwrap();
    drop(lent);
    let End = rest;
    assert_eq!(rx.recv().unwrap(), 5);
    assert_eq!(rx.recv().unwrap(), 6);
}

#[test]
fn send_to_departed_receiver_fails() {
    let (tx, rx) = kanal::bounded::<u8>(1);
    drop(rx);
    let result = Snd::new(tx, End).send(1);
    assert!(matches!(result, Err(TransportError::PeerGone)));
}

#[test]
fn send_on_closed_channel_fails() {
    let (tx, rx) = kanal::bounded::<u8>(1);
    rx.close().unwrap();
    let result = Snd::new(tx, End).send(1);
    assert!(matches!(result, Err(TransportError::Closed)));
}

#[test]
fn receive_from_departed_sender_fails() {
    let (tx, rx) = kanal::bounded::<u8>(1);
    drop(tx);
    let result = Recv::new(rx, End).recv();
    assert!(matches!(result, Err(TransportError::PeerGone)));
}

#[test]
fn receive_on_closed_channel_fails() {
    let (tx, rx) = kanal::bounded::<u8>(1);
    tx.close().unwrap();
    let result = Recv::new(rx, End).recv();
    assert!(matches!(result, Err(TransportError::Closed)));
}

#[test]
fn channel_errors_map_to_transport_errors() {
    assert_eq!(TransportError::from_send_error(SendError::Closed), TransportError::Closed);
    assert_eq!(TransportError::from_send_error(SendError::ReceiveClosed), TransportError::PeerGone);
    assert_eq!(TransportError::from_receive_error(ReceiveError::Closed), TransportError::Closed);
    assert_eq!(TransportError::from_receive_error(ReceiveError::SendClosed), TransportError::PeerGone);
}

#[test]
fn split_keeps_each_endpoint() {
    let (tx_a, rx_a) = kanal::bounded::<u8>(1);
    let (tx_b, rx_b) = kanal::bounded::<u8>(1);
    let session = Snd::new(tx_a, Recv::new(rx_b, End));
    let (lent, rest): (Snd<u8, Return<'static>>, Recv<u8, End>) = session.split();
    let lent: Snd<u8, Return> = Restricted::from_unrestricted(lent, &rest);
    drop(lent.send(11).unwrap());
    assert_eq!(rx_a.recv().unwrap(), 11);
    tx_b.send(12).unwrap();
    let (value, End) = rest.recv().unwrap();
    assert_eq!(value, 12);
}
