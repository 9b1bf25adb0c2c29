use porticus::hub::BroadcastHub;
use porticus::session::{ClientMessage, ClientSession, SessionAction};

#[test]
fn payload_goes_to_device_in_one_write() {
    let hub = BroadcastHub::new(4);
    let mut s = ClientSession::new(&hub);
    let act = s.on_client_message(ClientMessage::Binary(vec![0x01, 0x02, 0x03]));
    assert_eq!(act, SessionAction::WriteDevice(vec![0x01, 0x02, 0x03]));
    assert_eq!(s.on_device_write(true), SessionAction::Continue);
    assert!(s.is_open());
}

#[test]
fn text_payload_goes_to_device() {
    let hub = BroadcastHub::new(4);
    let mut s = ClientSession::new(&hub);
    let act = s.on_client_message(ClientMessage::Text(b"hi".to_vec()));
    assert_eq!(act, SessionAction::WriteDevice(vec![b'h', b'i']));
}

#[test]
fn control_messages_are_ignored() {
    let hub = BroadcastHub::new(4);
    let mut s = ClientSession::new(&hub);
    assert_eq!(s.on_client_message(ClientMessage::Ping(vec![9])), SessionAction::Continue);
    assert_eq!(s.on_client_message(ClientMessage::Pong(vec![9])), SessionAction::Continue);
    assert_eq!(s.on_client_message(ClientMessage::Close), SessionAction::Continue);
    assert_eq!(s.on_client_message(ClientMessage::Frame), SessionAction::Continue);
    assert!(s.is_open());
}

#[test]
fn failed_send_cancels_inbound() {
    let mut hub = BroadcastHub::new(4);
    let mut s = ClientSession::new(&hub);
    hub.publish(vec![7]);
    assert_eq!(s.next_outbound(&hub), SessionAction::SendToClient(vec![7]));
    assert_eq!(s.on_client_send(false), SessionAction::End);
    assert!(!s.is_open());
    assert_eq!(s.on_client_message(ClientMessage::Binary(vec![1])), SessionAction::End);
}

#[test]
fn client_gone_cancels_outbound() {
    let mut hub = BroadcastHub::new(4);
    let mut s = ClientSession::new(&hub);
    assert_eq!(s.on_client_gone(), SessionAction::End);
    hub.publish(vec![1]);
    assert_eq!(s.next_outbound(&hub), SessionAction::End);
    assert!(!s.is_open());
}

#[test]
fn failed_device_write_ends_session() {
    let hub = BroadcastHub::new(4);
    let mut s = ClientSession::new(&hub);
    assert_eq!(s.on_device_write(false), SessionAction::End);
    assert_eq!(s.next_outbound(&hub), SessionAction::End);
    assert_eq!(s.on_client_send(true), SessionAction::End);
}

#[test]
fn outbound_skips_gap_and_goes_on() {
    let mut hub = BroadcastHub::new(1);
    let mut s = ClientSession::new(&hub);
    hub.publish(vec![1]);
    hub.publish(vec![2]);
    assert_eq!(s.next_outbound(&hub), SessionAction::Continue);
    assert_eq!(s.next_outbound(&hub), SessionAction::SendToClient(vec![2]));
    assert!(s.is_open());
}
