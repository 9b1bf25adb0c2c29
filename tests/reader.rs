use porticus::hub::{BroadcastHub, Delivery};
use porticus::reader::{ReadResult, ReaderAction, SerialReader, READ_BACKOFF_MS};
use porticus::session::{ClientSession, SessionAction};

#[test]
fn read_publishes_each_byte_in_order_to_every_client() {
    let mut hub = BroadcastHub::new(16);
    let mut reader = SerialReader::new();
    let mut first = ClientSession::new(&hub);
    let mut second = ClientSession::new(&hub);
    let act = reader.on_read(&mut hub, ReadResult::Bytes(vec![0x41, 0x42]));
    assert_eq!(act, ReaderAction::ReadAgain);
    assert_eq!(hub.published_count(), 2);
    for client in [&mut first, &mut second] {
        assert_eq!(client.next_outbound(&hub), SessionAction::SendToClient(vec![0x41]));
        assert_eq!(client.next_outbound(&hub), SessionAction::SendToClient(vec![0x42]));
        assert_eq!(client.next_outbound(&hub), SessionAction::WaitForData);
    }
}

#[test]
fn late_client_gets_only_later_bytes() {
    let mut hub = BroadcastHub::new(16);
    let mut reader = SerialReader::new();
    let _early = ClientSession::new(&hub);
    reader.on_read(&mut hub, ReadResult::Bytes(vec![0x41, 0x42]));
    let mut late = ClientSession::new(&hub);
    assert_eq!(late.next_outbound(&hub), SessionAction::WaitForData);
    reader.on_read(&mut hub, ReadResult::Bytes(vec![0x43]));
    assert_eq!(late.next_outbound(&hub), SessionAction::SendToClient(vec![0x43]));
    assert_eq!(late.next_outbound(&hub), SessionAction::WaitForData);
}

#[test]
fn hard_error_stops_reader_for_good() {
    let mut hub = BroadcastHub::new(16);
    let mut reader = SerialReader::new();
    let mut client = ClientSession::new(&hub);
    let act = reader.on_read(&mut hub, ReadResult::Failed("device gone".to_string()));
    assert_eq!(act, ReaderAction::Stop);
    assert!(!reader.is_running());
    let act = reader.on_read(&mut hub, ReadResult::Bytes(vec![1, 2, 3]));
    assert_eq!(act, ReaderAction::Stop);
    assert_eq!(hub.published_count(), 0);
    assert!(client.is_open());
    assert_eq!(client.next_outbound(&hub), SessionAction::WaitForData);
    assert!(client.is_open());
}

#[test]
fn empty_read_retries_without_publishing() {
    let mut hub = BroadcastHub::new(4);
    let mut reader = SerialReader::new();
    assert_eq!(reader.on_read(&mut hub, ReadResult::Bytes(vec![])), ReaderAction::ReadAgain);
    assert_eq!(hub.published_count(), 0);
    assert!(reader.is_running());
}

#[test]
fn would_block_backs_off() {
    let mut hub = BroadcastHub::new(4);
    let mut reader = SerialReader::new();
    assert_eq!(reader.on_read(&mut hub, ReadResult::WouldBlock), ReaderAction::Backoff(10));
    assert_eq!(READ_BACKOFF_MS, 10);
    assert_eq!(hub.published_count(), 0);
    assert!(reader.is_running());
}

#[test]
fn read_larger_than_capacity_keeps_newest() {
    let mut hub = BroadcastHub::new(2);
    let mut reader = SerialReader::new();
    let mut sub = hub.subscribe();
    reader.on_read(&mut hub, ReadResult::Bytes(vec![1, 2, 3, 4]));
    assert_eq!(hub.try_recv(&mut sub), Delivery::Lagged(2));
    assert_eq!(hub.try_recv(&mut sub), Delivery::Chunk(vec![3]));
    assert_eq!(hub.try_recv(&mut sub), Delivery::Chunk(vec![4]));
}
