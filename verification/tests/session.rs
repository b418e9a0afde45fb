use nl80211::attribute::RawAttribute;
use nl80211::command::Command;
use nl80211::error::WirelessError;
use nl80211::monitor::{parse_frames, ControlAction, EventAction, Monitor};
use nl80211::request::{MessageMode, Request, WirelessDeviceId};
use nl80211::scan::{FetchStep, ScanRequest};
use nl80211::transport::TransportMessage;
use nl80211::user_command::UserCommand;

const FAMILY: u16 = 28;

fn attribute(identifier: u16, payload: &[u8]) -> Vec<u8> {
    let length = (payload.len() + 4) as u16;
    let mut bytes = Vec::new();
    bytes.extend_from_slice(&length.to_ne_bytes());
    bytes.extend_from_slice(&identifier.to_ne_bytes());
    bytes.extend_from_slice(payload);
    while bytes.len() % 4 != 0 {
        bytes.push(0);
    }
    bytes
}

fn bss(name: &[u8], signal: i32) -> Vec<u8> {
    let mut elements = vec![0, name.len() as u8];
    elements.extend_from_slice(name);
    let mut data = attribute(1, &[2, 4, 6, 8, 10, 12]);
    data.extend_from_slice(&attribute(2, &2437u32.to_ne_bytes()));
    data.extend_from_slice(&attribute(7, &signal.to_ne_bytes()));
    data.extend_from_slice(&attribute(6, &elements));
    data
}

fn message(command: u8, attributes: &[u8]) -> TransportMessage {
    let mut data = vec![command, 1, 0, 0];
    data.extend_from_slice(attributes);
    TransportMessage::Data { identifier: FAMILY, data }
}

fn scan_result(name: &[u8], signal: i32) -> TransportMessage {
    message(34, &attribute(47, &bss(name, signal)))
}

fn names(action: &ControlAction) -> Vec<String> {
    match action {
        ControlAction::Present(access_points) => {
            access_points.iter().map(|a| a.ssid.clone()).collect()
        }
        _ => panic!("no results were handed out"),
    }
}

#[test]
fn dump_is_flushed_once_and_leaves_the_session_idle() {
    let mut monitor = Monitor::new(FAMILY);
    assert_eq!(monitor.family(), FAMILY);
    assert_eq!(monitor.control_command(), None);
    assert!(monitor.scan_results().is_empty());
    let first = monitor.handle_control_message(&scan_result(b"weak", -8000));
    assert_eq!(first, Ok(ControlAction::Nothing));
    assert_eq!(monitor.control_command(), Some(Command::NewScanResults));
    assert_eq!(monitor.scan_results().len(), 1);
    let second = monitor.handle_control_message(&scan_result(b"strong", -4000));
    assert_eq!(second, Ok(ControlAction::Nothing));
    assert_eq!(monitor.scan_results().len(), 2);
    let third = monitor.handle_control_message(&TransportMessage::Done).unwrap();
    assert_eq!(names(&third), vec!["strong", "weak"]);
    assert_eq!(monitor.control_command(), None);
    assert!(monitor.scan_results().is_empty());
    let after = monitor.handle_control_message(&TransportMessage::Done);
    assert_eq!(after, Ok(ControlAction::Nothing));
    let next = monitor.handle_control_message(&scan_result(b"later", -5000));
    assert_eq!(next, Ok(ControlAction::Nothing));
    assert_eq!(monitor.scan_results().len(), 1);
    assert_eq!(monitor.scan_results()[0].ssid, "later");
}

#[test]
fn batch_of_control_messages_gives_one_outcome_each() {
    let mut monitor = Monitor::new(FAMILY);
    let batch = vec![
        scan_result(b"bravo", -5000),
        scan_result(b"alpha", -5000),
        message(34, &[]),
        scan_result(b"charlie", -3000),
        TransportMessage::Done,
    ];
    let outcomes = monitor.handle_control_messages(&batch);
    assert_eq!(outcomes.len(), 5);
    assert_eq!(outcomes[0], Ok(ControlAction::Nothing));
    assert_eq!(outcomes[1], Ok(ControlAction::Nothing));
    assert_eq!(outcomes[2], Err(WirelessError::NotFound));
    assert_eq!(outcomes[3], Ok(ControlAction::Nothing));
    assert_eq!(names(outcomes[4].as_ref().unwrap()), vec!["charlie", "alpha", "bravo"]);
    assert_eq!(monitor.control_command(), None);
    assert!(monitor.scan_results().is_empty());
    assert!(monitor.handle_control_messages(&vec![]).is_empty());
}

#[test]
fn new_dump_starts_with_an_empty_buffer() {
    let mut monitor = Monitor::new(FAMILY);
    monitor.handle_control_message(&scan_result(b"old", -5000)).unwrap();
    let report = monitor.handle_control_message(&message(7, &attribute(3, &[1, 0, 0, 0])));
    match report {
        Ok(ControlAction::Report(content)) => {
            assert_eq!(content.command, 7);
            assert_eq!(content.attributes.len(), 1);
        }
        _ => panic!("the command was not reported"),
    }
    assert_eq!(monitor.control_command(), Some(Command::NewInterface));
    assert_eq!(monitor.scan_results().len(), 1);
    monitor.handle_control_message(&scan_result(b"new", -6000)).unwrap();
    assert_eq!(monitor.scan_results().len(), 1);
    assert_eq!(monitor.scan_results()[0].ssid, "new");
    let done = monitor.handle_control_message(&TransportMessage::Done).unwrap();
    assert_eq!(names(&done), vec!["new"]);
}

#[test]
fn acknowledgement_ends_the_wait_and_keeps_the_buffer() {
    let mut monitor = Monitor::new(FAMILY);
    monitor.handle_control_message(&scan_result(b"kept", -5000)).unwrap();
    let acknowledged = monitor.handle_control_message(&TransportMessage::Acknowledge);
    assert_eq!(acknowledged, Ok(ControlAction::Nothing));
    assert_eq!(monitor.control_command(), None);
    assert_eq!(monitor.scan_results().len(), 1);
    let done = monitor.handle_control_message(&TransportMessage::Done);
    assert_eq!(done, Ok(ControlAction::Nothing));
    assert_eq!(monitor.scan_results().len(), 1);
}

#[test]
fn unreadable_control_message_leaves_the_session_as_it_was() {
    let mut monitor = Monitor::new(FAMILY);
    monitor.handle_control_message(&message(7, &[])).unwrap();
    monitor.handle_control_message(&scan_result(b"held", -5000)).unwrap();
    monitor.handle_control_message(&message(5, &[])).unwrap();
    let before = monitor.clone();
    let missing = monitor.handle_control_message(&message(34, &attribute(47, &[])));
    assert_eq!(missing, Err(WirelessError::NotFound));
    assert_eq!(monitor, before);
    let short = TransportMessage::Data { identifier: FAMILY, data: vec![34, 1] };
    assert_eq!(monitor.handle_control_message(&short), Err(WirelessError::Malformed));
    assert_eq!(monitor, before);
    let foreign = TransportMessage::Data { identifier: FAMILY + 1, data: vec![34] };
    assert_eq!(monitor.handle_control_message(&foreign), Ok(ControlAction::Nothing));
    assert_eq!(monitor, before);
}

#[test]
fn news_of_scan_results_asks_for_the_dump() {
    let mut monitor = Monitor::new(FAMILY);
    let mut attributes = attribute(3, &5u32.to_ne_bytes());
    attributes.extend_from_slice(&attribute(153, &0x1_0000_0002u64.to_ne_bytes()));
    let action = monitor.handle_event_message(&message(34, &attributes));
    match action {
        Ok(EventAction::Send(request)) => {
            assert_eq!(request.family, FAMILY);
            assert_eq!(request.command, Command::GetScan);
            assert_eq!(request.mode, MessageMode::Dump);
            assert_eq!(request.attributes.len(), 1);
            assert_eq!(request.attributes[0].identifier, 153);
            assert_eq!(request.attributes[0].as_u64(), Ok(0x1_0000_0002));
        }
        _ => panic!("no request was made"),
    }
    assert_eq!(monitor.control_command(), Some(Command::GetScan));
    let by_index = monitor.handle_event_message(&message(34, &attribute(3, &5u32.to_ne_bytes())));
    match by_index {
        Ok(EventAction::Send(request)) => {
            assert_eq!(request.attributes.len(), 1);
            assert_eq!(request.attributes[0].identifier, 3);
            assert_eq!(request.attributes[0].as_u32(), Ok(5));
        }
        _ => panic!("no request was made"),
    }
}

#[test]
fn news_without_a_device_is_an_error() {
    let mut monitor = Monitor::new(FAMILY);
    let nameless = monitor.handle_event_message(&message(34, &attribute(46, &[1, 0, 0, 0])));
    assert_eq!(nameless, Err(WirelessError::NoInterfaceIdentifier));
    assert_eq!(monitor.control_command(), None);
    let mut unreadable = attribute(153, &[1, 2, 3]);
    unreadable.extend_from_slice(&attribute(3, &[1, 2]));
    let second = monitor.handle_event_message(&message(34, &unreadable));
    assert_eq!(second, Err(WirelessError::NoInterfaceIdentifier));
}

#[test]
fn other_events_change_nothing() {
    let mut monitor = Monitor::new(FAMILY);
    let before = monitor.clone();
    let started = monitor.handle_event_message(&message(33, &attribute(3, &[1, 0, 0, 0])));
    assert_eq!(started, Ok(EventAction::Nothing));
    assert_eq!(monitor.handle_event_message(&TransportMessage::Done), Ok(EventAction::Nothing));
    assert_eq!(
        monitor.handle_event_message(&TransportMessage::Acknowledge),
        Ok(EventAction::Nothing)
    );
    let foreign = TransportMessage::Data { identifier: 1, data: vec![] };
    assert_eq!(monitor.handle_event_message(&foreign), Ok(EventAction::Nothing));
    let short = TransportMessage::Data { identifier: FAMILY, data: vec![59] };
    assert_eq!(monitor.handle_event_message(&short), Err(WirelessError::Malformed));
    assert_eq!(monitor, before);
}

#[test]
fn management_frame_is_reported_with_its_header() {
    let mut frame = Vec::new();
    frame.extend_from_slice(&0x00b0u16.to_ne_bytes());
    frame.extend_from_slice(&0x0100u16.to_ne_bytes());
    frame.extend_from_slice(&[1, 1, 1, 1, 1, 1, 2, 2, 2, 2, 2, 2, 3, 3, 3, 3, 3, 3]);
    frame.extend_from_slice(&[0, 0, 9, 9]);
    let mut attributes = attribute(3, &5u32.to_ne_bytes());
    attributes.extend_from_slice(&attribute(51, &frame));
    let mut monitor = Monitor::new(FAMILY);
    let action = monitor.handle_event_message(&message(59, &attributes));
    match action {
        Ok(EventAction::Report { message, frames }) => {
            assert_eq!(Command::from(message.command), Command::Frame);
            assert_eq!(message.attributes.len(), 2);
            assert_eq!(frames.len(), 1);
            assert_eq!(frames[0].frame_control, 0x00b0);
            assert_eq!(frames[0].duration_id, 0x0100);
            assert_eq!(frames[0].destination.bytes(), [1; 6]);
            assert_eq!(frames[0].source.bytes(), [2; 6]);
            assert_eq!(frames[0].bssid.bytes(), [3; 6]);
        }
        _ => panic!("the notification was not reported"),
    }
    assert_eq!(monitor.control_command(), None);
    let cut = monitor.handle_event_message(&message(59, &attribute(51, &frame[..10])));
    assert_eq!(cut, Err(WirelessError::Malformed));
    let frames = parse_frames(&vec![RawAttribute::new_bytes(3, &[1])]);
    assert_eq!(frames, Ok(vec![]));
}

#[test]
fn batch_of_event_messages_gives_one_outcome_each() {
    let mut monitor = Monitor::new(FAMILY);
    let batch = vec![
        message(33, &[]),
        message(34, &[]),
        message(34, &attribute(153, &7u64.to_ne_bytes())),
        TransportMessage::Done,
    ];
    let outcomes = monitor.handle_event_messages(&batch);
    assert_eq!(outcomes.len(), 4);
    assert_eq!(outcomes[0], Ok(EventAction::Nothing));
    assert_eq!(outcomes[1], Err(WirelessError::NoInterfaceIdentifier));
    assert!(matches!(outcomes[2], Ok(EventAction::Send(_))));
    assert_eq!(outcomes[3], Ok(EventAction::Nothing));
    assert_eq!(monitor.control_command(), Some(Command::GetScan));
}

#[test]
fn request_names_its_device() {
    let monitor = Monitor::new(FAMILY);
    let by_identifier = monitor
        .prepare_message(
            WirelessDeviceId::DeviceIdentifier(0x0102_0304_0506_0708),
            Command::GetScan,
            MessageMode::Dump,
        )
        .unwrap();
    assert_eq!(by_identifier.family, FAMILY);
    assert_eq!(by_identifier.command, Command::GetScan);
    assert_eq!(by_identifier.mode, MessageMode::Dump);
    assert_eq!(by_identifier.attributes.len(), 1);
    assert_eq!(by_identifier.attributes[0].identifier, 153);
    assert_eq!(
        by_identifier.attributes[0].as_bytes(),
        0x0102_0304_0506_0708u64.to_ne_bytes().to_vec()
    );
    let by_index = Request::prepare(
        9,
        WirelessDeviceId::InterfaceIndex(0x0a0b_0c0d),
        Command::TriggerScan,
        MessageMode::Acknowledge,
    )
    .unwrap();
    assert_eq!(by_index.family, 9);
    assert_eq!(by_index.command, Command::TriggerScan);
    assert_eq!(by_index.mode, MessageMode::Acknowledge);
    assert_eq!(by_index.attributes[0].identifier, 3);
    assert_eq!(by_index.attributes[0].as_bytes(), 0x0a0b_0c0du32.to_ne_bytes().to_vec());
    let nameless =
        monitor.prepare_message(WirelessDeviceId::Unset, Command::GetScan, MessageMode::Dump);
    assert_eq!(nameless, Err(WirelessError::NoInterfaceIdentifier));
}

#[test]
fn device_identifier_is_preferred_to_interface_index() {
    let index = RawAttribute::new_bytes(3, &5u32.to_ne_bytes());
    let identifier = RawAttribute::new_bytes(153, &6u64.to_ne_bytes());
    let second = RawAttribute::new_bytes(153, &7u64.to_ne_bytes());
    let broken = RawAttribute::new_bytes(153, &[1]);
    assert_eq!(
        WirelessDeviceId::from_attributes(&vec![index.clone(), identifier.clone(), second]),
        WirelessDeviceId::DeviceIdentifier(6)
    );
    assert_eq!(
        WirelessDeviceId::from_attributes(&vec![broken.clone(), index.clone()]),
        WirelessDeviceId::InterfaceIndex(5)
    );
    assert_eq!(WirelessDeviceId::from_attributes(&vec![broken]), WirelessDeviceId::Unset);
    assert_eq!(WirelessDeviceId::from_attributes(&vec![]), WirelessDeviceId::Unset);
}

#[test]
fn fetch_ends_on_an_empty_batch() {
    let mut fetch = ScanRequest::new(FAMILY);
    let request = fetch.request(WirelessDeviceId::InterfaceIndex(3)).unwrap();
    assert_eq!(request.command, Command::GetScan);
    assert_eq!(request.mode, MessageMode::Dump);
    assert_eq!(request.attributes[0].as_u32(), Ok(3));
    assert_eq!(
        fetch.request(WirelessDeviceId::Unset),
        Err(WirelessError::NoInterfaceIdentifier)
    );
    let first = vec![
        scan_result(b"bravo", -5000),
        TransportMessage::Done,
        TransportMessage::Data { identifier: FAMILY + 1, data: vec![] },
        scan_result(b"alpha", -5000),
    ];
    assert_eq!(fetch.receive(&first), Ok(FetchStep::More));
    assert_eq!(fetch.access_points().len(), 2);
    let second = vec![TransportMessage::Acknowledge, scan_result(b"charlie", -1000)];
    assert_eq!(fetch.receive(&second), Ok(FetchStep::More));
    assert_eq!(fetch.access_points().len(), 3);
    match fetch.receive(&vec![]) {
        Ok(FetchStep::Finished(access_points)) => {
            let order: Vec<&str> = access_points.iter().map(|a| a.ssid.as_str()).collect();
            assert_eq!(order, vec!["charlie", "alpha", "bravo"]);
        }
        _ => panic!("the fetch did not end"),
    }
    assert!(fetch.access_points().is_empty());
}

#[test]
fn fetch_fails_on_a_message_without_a_scan_result() {
    let mut fetch = ScanRequest::new(FAMILY);
    fetch.receive(&vec![scan_result(b"kept", -5000)]).unwrap();
    let before = fetch.clone();
    let batch = vec![scan_result(b"lost", -5000), message(33, &[])];
    assert_eq!(fetch.receive(&batch), Err(WirelessError::NotFound));
    assert_eq!(fetch, before);
    let short = vec![TransportMessage::Data { identifier: FAMILY, data: vec![1] }];
    assert_eq!(fetch.receive(&short), Err(WirelessError::Malformed));
    assert_eq!(fetch, before);
}

#[test]
fn only_reading_commands_need_no_privilege() {
    assert!(UserCommand::Scan.requires_root());
    assert!(UserCommand::ScheduleScan.requires_root());
    assert!(UserCommand::Disconnect.requires_root());
    assert!(!UserCommand::ScanResults.requires_root());
    assert!(!UserCommand::Survey.requires_root());
    assert!(!UserCommand::Monitor.requires_root());
}

#[test]
fn issued_command_is_awaited() {
    let mut monitor = Monitor::new(FAMILY);
    let request = monitor
        .issue(WirelessDeviceId::InterfaceIndex(4), Command::TriggerScan, MessageMode::Acknowledge)
        .unwrap();
    assert_eq!(request.family, FAMILY);
    assert_eq!(request.command, Command::TriggerScan);
    assert_eq!(request.mode, MessageMode::Acknowledge);
    assert_eq!(request.attributes[0].as_u32(), Ok(4));
    assert_eq!(monitor.control_command(), Some(Command::TriggerScan));
    let refused = monitor.issue(WirelessDeviceId::Unset, Command::GetScan, MessageMode::Dump);
    assert_eq!(refused, Err(WirelessError::NoInterfaceIdentifier));
    assert_eq!(monitor.control_command(), Some(Command::TriggerScan));
    monitor.handle_control_message(&TransportMessage::Acknowledge).unwrap();
    assert_eq!(monitor.control_command(), None);
}
