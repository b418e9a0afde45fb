use nl80211::attribute::{HardwareAddress, RawAttribute};
use nl80211::attributes::{Attribute, BssAttribute, SurveyInformationAttributes};
use nl80211::command::Command;
use nl80211::error::WirelessError;
use nl80211::frame::FrameHeader;
use nl80211::generic::Message;
use nl80211::information_element::{
    AuthenticationKeyManagement, CipherSuite, InformationElementId, InformationElements,
    ProtectedManagementFramesMode, RobustSecurityNetwork,
};

fn attribute(identifier: u16, payload: &[u8]) -> Vec<u8> {
    let length = (payload.len() + 4) as u16;
    let mut bytes = Vec::new();
    bytes.extend_from_slice(&length.to_ne_bytes());
    bytes.extend_from_slice(&identifier.to_ne_bytes());
    bytes.extend_from_slice(payload);
    while bytes.len() % 4 != 0 {
        bytes.push(0);
    }
    bytes
}

fn security_element(capabilities: u16) -> Vec<u8> {
    let mut bytes = vec![0x01, 0x00];
    bytes.extend_from_slice(&[0x00, 0x0f, 0xac, 0x04]);
    bytes.extend_from_slice(&[0x01, 0x00]);
    bytes.extend_from_slice(&[0x00, 0x0f, 0xac, 0x04]);
    bytes.extend_from_slice(&[0x01, 0x00]);
    bytes.extend_from_slice(&[0x00, 0x0f, 0xac, 0x02]);
    bytes.extend_from_slice(&capabilities.to_le_bytes());
    bytes
}

#[test]
fn two_attributes_with_padding_are_decoded() {
    let mut buffer = attribute(0x1000, &[0x11, 0xaa, 0x55]);
    buffer.extend_from_slice(&attribute(0x1001, &[0x11, 0xaa, 0x55, 0xee]));
    let (used, attributes) = RawAttribute::unpack_all(&buffer);
    assert_eq!(used, 16);
    assert_eq!(attributes.len(), 2);
    assert_eq!(attributes[0].identifier, 0x1000);
    assert_eq!(attributes[0].as_bytes(), vec![0x11, 0xaa, 0x55]);
    assert_eq!(attributes[0].len(), 3);
    assert_eq!(attributes[1].identifier, 0x1001);
    assert_eq!(attributes[1].as_bytes(), vec![0x11, 0xaa, 0x55, 0xee]);
}

#[test]
fn well_formed_buffer_is_consumed_to_the_end() {
    let mut buffer = Vec::new();
    for n in 0..9u8 {
        let payload: Vec<u8> = (0..n).collect();
        buffer.extend_from_slice(&attribute(n as u16, &payload));
    }
    let (used, attributes) = RawAttribute::unpack_all(&buffer);
    assert_eq!(used, buffer.len());
    assert_eq!(attributes.len(), 9);
    for n in 0..9usize {
        assert_eq!(attributes[n].identifier, n as u16);
        assert_eq!(attributes[n].len(), n);
    }
}

#[test]
fn empty_buffer_holds_no_attribute() {
    let (used, attributes) = RawAttribute::unpack_all(&[]);
    assert_eq!(used, 0);
    assert!(attributes.is_empty());
}

#[test]
fn truncated_header_stops_decoding() {
    let mut buffer = attribute(7, &[1, 2, 3, 4]);
    buffer.extend_from_slice(&[8, 0, 1]);
    let (used, attributes) = RawAttribute::unpack_all(&buffer);
    assert_eq!(used, 8);
    assert_eq!(attributes.len(), 1);
}

#[test]
fn declared_length_past_the_end_stops_decoding() {
    let mut buffer = attribute(7, &[1, 2, 3, 4]);
    buffer.extend_from_slice(&12u16.to_ne_bytes());
    buffer.extend_from_slice(&9u16.to_ne_bytes());
    buffer.extend_from_slice(&[1, 2, 3, 4]);
    let (used, attributes) = RawAttribute::unpack_all(&buffer);
    assert_eq!(used, 8);
    assert_eq!(attributes.len(), 1);
    assert_eq!(attributes[0].identifier, 7);
}

#[test]
fn declared_length_below_header_size_stops_decoding() {
    for short in 0..4u16 {
        let mut buffer = attribute(7, &[1, 2, 3, 4]);
        buffer.extend_from_slice(&short.to_ne_bytes());
        buffer.extend_from_slice(&9u16.to_ne_bytes());
        buffer.extend_from_slice(&[1, 2, 3, 4]);
        let (used, attributes) = RawAttribute::unpack_all(&buffer);
        assert_eq!(used, 8);
        assert_eq!(attributes.len(), 1);
    }
}

#[test]
fn missing_padding_at_the_end_stops_decoding() {
    let mut buffer = attribute(7, &[1, 2, 3, 4]);
    buffer.extend_from_slice(&5u16.to_ne_bytes());
    buffer.extend_from_slice(&9u16.to_ne_bytes());
    buffer.push(0xff);
    let (used, attributes) = RawAttribute::unpack_all(&buffer);
    assert_eq!(used, 8);
    assert_eq!(attributes.len(), 1);
}

#[test]
fn attribute_with_empty_payload_is_decoded() {
    let buffer = attribute(3, &[]);
    let (used, attributes) = RawAttribute::unpack_all(&buffer);
    assert_eq!(used, 4);
    assert_eq!(attributes.len(), 1);
    assert_eq!(attributes[0].as_bytes(), Vec::<u8>::new());
}

#[test]
fn unsigned_accessors_read_native_numbers() {
    assert_eq!(RawAttribute::new_bytes(1, &[0x5a]).as_u8(), Ok(0x5a));
    assert_eq!(RawAttribute::new_bytes(1, &0xaa22u16.to_ne_bytes()).as_u16(), Ok(0xaa22));
    assert_eq!(RawAttribute::new_bytes(1, &0x11223344u32.to_ne_bytes()).as_u32(), Ok(0x11223344));
    assert_eq!(
        RawAttribute::new_bytes(1, &0x1122334455667788u64.to_ne_bytes()).as_u64(),
        Ok(0x1122334455667788)
    );
}

#[test]
fn signed_accessors_read_native_numbers() {
    assert_eq!(RawAttribute::new_bytes(1, &[0xa5]).as_i8(), Ok(-91));
    assert_eq!(RawAttribute::new_bytes(1, &[0x7f]).as_i8(), Ok(127));
    assert_eq!(RawAttribute::new_bytes(1, &(-21931i16).to_ne_bytes()).as_i16(), Ok(-21931));
    assert_eq!(
        RawAttribute::new_bytes(1, &(-1540152815i32).to_ne_bytes()).as_i32(),
        Ok(-1540152815)
    );
    assert_eq!(RawAttribute::new_bytes(1, &(-4500i32).to_ne_bytes()).as_i32(), Ok(-4500));
    assert_eq!(
        RawAttribute::new_bytes(1, &(-8637284766759618799i64).to_ne_bytes()).as_i64(),
        Ok(-8637284766759618799)
    );
}

#[test]
fn accessors_refuse_payloads_of_another_width() {
    let three = RawAttribute::new_bytes(1, &[1, 2, 3]);
    let five = RawAttribute::new_bytes(1, &[1, 2, 3, 4, 5]);
    let none = RawAttribute::new_bytes(1, &[]);
    assert_eq!(none.as_u8(), Err(WirelessError::Malformed));
    assert_eq!(three.as_u8(), Err(WirelessError::Malformed));
    assert_eq!(none.as_i8(), Err(WirelessError::Malformed));
    assert_eq!(three.as_u16(), Err(WirelessError::Malformed));
    assert_eq!(three.as_i16(), Err(WirelessError::Malformed));
    assert_eq!(three.as_u32(), Err(WirelessError::Malformed));
    assert_eq!(five.as_u32(), Err(WirelessError::Malformed));
    assert_eq!(three.as_i32(), Err(WirelessError::Malformed));
    assert_eq!(five.as_i32(), Err(WirelessError::Malformed));
    assert_eq!(five.as_u64(), Err(WirelessError::Malformed));
    assert_eq!(five.as_i64(), Err(WirelessError::Malformed));
    assert_eq!(five.as_hardware_address(), Err(WirelessError::Malformed));
}

#[test]
fn hardware_address_is_read_from_six_bytes() {
    let attribute = RawAttribute::new_bytes(1, &[0xaa, 0xbb, 0xcc, 0xdd, 0xee, 0xff]);
    let address = attribute.as_hardware_address().unwrap();
    assert_eq!(address, HardwareAddress { value: [0xaa, 0xbb, 0xcc, 0xdd, 0xee, 0xff] });
    assert_eq!(address.bytes(), [0xaa, 0xbb, 0xcc, 0xdd, 0xee, 0xff]);
    assert_eq!(
        HardwareAddress::from_bytes(&[1, 2, 3, 4, 5, 6, 7]),
        Err(WirelessError::Malformed)
    );
}

#[test]
fn message_is_split_into_command_and_attributes() {
    let mut data = vec![34, 1, 0, 0];
    data.extend_from_slice(&attribute(3, &7u32.to_ne_bytes()));
    let message = Message::parse(&data).unwrap();
    assert_eq!(message.command, 34);
    assert_eq!(message.version, 1);
    assert_eq!(message.attributes.len(), 1);
    assert_eq!(message.attributes[0].as_u32(), Ok(7));
    assert_eq!(Message::parse(&[34, 1, 0]), Err(WirelessError::Malformed));
    let bare = Message::parse(&[33, 1, 0, 0]).unwrap();
    assert!(bare.attributes.is_empty());
    let made = Message::new(32, vec![RawAttribute::new_bytes(3, &[1, 0, 0, 0])]);
    assert_eq!(made.command, 32);
    assert_eq!(made.version, 1);
    assert_eq!(made.attributes.len(), 1);
}

#[test]
fn code_tables_keep_unknown_codes() {
    assert_eq!(Command::from(34u8), Command::NewScanResults);
    assert_eq!(Command::from(33u8), Command::TriggerScan);
    assert_eq!(Command::from(32u8), Command::GetScan);
    assert_eq!(Command::from(0u8), Command::Unspecified);
    assert_eq!(Command::from(48u8), Command::Disconnect);
    assert_eq!(Command::from(75u8), Command::StartScheduledScan);
    assert_eq!(Command::from(76u8), Command::StopScheduledScan);
    assert_eq!(Command::from(200u8), Command::Unknown(200));
    assert_eq!(Attribute::from(3u16), Attribute::Ifindex);
    assert_eq!(Attribute::from(153u16), Attribute::Wdev);
    assert_eq!(Attribute::from(47u16), Attribute::Bss);
    assert_eq!(Attribute::from(46u16), Attribute::Generation);
    assert_eq!(Attribute::from(51u16), Attribute::Frame);
    assert_eq!(Attribute::from(84u16), Attribute::SurveyInfo);
    assert_eq!(Attribute::from(9999u16), Attribute::Unknown(9999));
    assert_eq!(BssAttribute::from(1u16), BssAttribute::Bssid);
    assert_eq!(BssAttribute::from(7u16), BssAttribute::SignalMbm);
    assert_eq!(BssAttribute::from(77u16), BssAttribute::Unknown(77));
    assert_eq!(SurveyInformationAttributes::from(2u16), SurveyInformationAttributes::Noise);
    assert_eq!(SurveyInformationAttributes::from(99u16), SurveyInformationAttributes::Unknown(99));
    assert_eq!(InformationElementId::from(0u8), InformationElementId::Ssid);
    assert_eq!(InformationElementId::from(48u8), InformationElementId::RobustSecurityNetwork);
    assert_eq!(InformationElementId::from(61u8), InformationElementId::HighThroughputOperation);
    assert_eq!(InformationElementId::from(192u8), InformationElementId::VeryHighThroughputOperation);
    assert_eq!(InformationElementId::from(250u8), InformationElementId::Unknown(250));
    assert_eq!(CipherSuite::from(0x000f_ac04u32), CipherSuite::Ccmp);
    assert_eq!(CipherSuite::from(0x0050_f202u32), CipherSuite::Unknown(0x0050_f202));
    assert_eq!(
        AuthenticationKeyManagement::from(0x000f_ac02u32),
        AuthenticationKeyManagement::PreSharedKey
    );
    assert_eq!(
        AuthenticationKeyManagement::from(7u32),
        AuthenticationKeyManagement::Unknown(7)
    );
}

#[test]
fn every_code_comes_back_from_its_table() {
    for code in 0..=255u8 {
        assert_eq!(u8::from(Command::from(code)), code);
        assert_eq!(u8::from(InformationElementId::from(code)), code);
    }
    for code in 0..=400u16 {
        assert_eq!(u16::from(Attribute::from(code)), code);
        assert_eq!(u16::from(BssAttribute::from(code)), code);
        assert_eq!(u16::from(SurveyInformationAttributes::from(code)), code);
    }
    for code in 0x000f_abf0..0x000f_ac20u32 {
        assert_eq!(u32::from(CipherSuite::from(code)), code);
        assert_eq!(u32::from(AuthenticationKeyManagement::from(code)), code);
    }
}

#[test]
fn information_elements_are_decoded_in_order() {
    let data = [0, 3, b'a', b'b', b'c', 61, 0, 0, 1, b'x', 7, 2, 9, 9];
    let elements = InformationElements::parse(&data).elements;
    assert_eq!(elements.len(), 4);
    assert_eq!(elements[0].identifier, 0);
    assert_eq!(elements[0].data, b"abc".to_vec());
    assert_eq!(elements[1].identifier, 61);
    assert!(elements[1].data.is_empty());
    assert_eq!(elements[2].identifier, 0);
    assert_eq!(elements[2].data, b"x".to_vec());
    assert_eq!(elements[3].identifier, 7);
    assert_eq!(elements[3].data, vec![9, 9]);
}

#[test]
fn information_element_longer_than_the_rest_stops_decoding() {
    let data = [0, 3, b'a', b'b', b'c', 48, 5, 1, 2];
    let elements = InformationElements::parse(&data).elements;
    assert_eq!(elements.len(), 1);
    assert_eq!(elements[0].data, b"abc".to_vec());
    assert!(InformationElements::parse(&[7]).elements.is_empty());
    assert!(InformationElements::parse(&[]).elements.is_empty());
}

#[test]
fn security_parameters_are_decoded() {
    let parameters = RobustSecurityNetwork::from_bytes(&security_element(0x0080)).unwrap();
    assert_eq!(parameters.version, 1);
    assert_eq!(parameters.cipher_suite, CipherSuite::Ccmp);
    assert_eq!(parameters.ciphers, vec![CipherSuite::Ccmp]);
    assert_eq!(parameters.akms, vec![AuthenticationKeyManagement::PreSharedKey]);
    assert_eq!(parameters.capabilities, 0x0080);
    assert_eq!(parameters.pmf_mode(), ProtectedManagementFramesMode::Capable);
}

#[test]
fn security_parameters_with_several_suites_are_decoded() {
    let mut bytes = vec![0x01, 0x00, 0x00, 0x0f, 0xac, 0x02, 0x02, 0x00];
    bytes.extend_from_slice(&[0x00, 0x0f, 0xac, 0x04, 0x00, 0x0f, 0xac, 0x02]);
    bytes.extend_from_slice(&[0x03, 0x00]);
    bytes.extend_from_slice(&[0x00, 0x0f, 0xac, 0x01, 0x00, 0x0f, 0xac, 0x08, 0x00, 0x50, 0xf2, 0x02]);
    bytes.extend_from_slice(&[0xc0, 0x00]);
    bytes.extend_from_slice(&[0xde, 0xad]);
    let parameters = RobustSecurityNetwork::from_bytes(&bytes).unwrap();
    assert_eq!(parameters.cipher_suite, CipherSuite::Tkip);
    assert_eq!(parameters.ciphers, vec![CipherSuite::Ccmp, CipherSuite::Tkip]);
    assert_eq!(
        parameters.akms,
        vec![
            AuthenticationKeyManagement::PairwiseMasterKeySecurityAssociation,
            AuthenticationKeyManagement::SimultaneousAuthenticationOfEquals,
            AuthenticationKeyManagement::Unknown(0x0050_f202),
        ]
    );
    assert_eq!(parameters.capabilities, 0x00c0);
    assert_eq!(parameters.pmf_mode(), ProtectedManagementFramesMode::Required);
}

#[test]
fn security_parameters_cut_short_are_malformed() {
    let whole = security_element(0);
    for length in 0..whole.len() {
        assert_eq!(
            RobustSecurityNetwork::from_bytes(&whole[..length]),
            Err(WirelessError::Malformed)
        );
    }
    assert!(RobustSecurityNetwork::from_bytes(&whole).is_ok());
}

#[test]
fn management_frame_protection_follows_the_two_bits() {
    let mode = |capabilities: u16| {
        RobustSecurityNetwork::from_bytes(&security_element(capabilities)).unwrap().pmf_mode()
    };
    assert_eq!(mode(0x0000), ProtectedManagementFramesMode::Disabled);
    assert_eq!(mode(0x0080), ProtectedManagementFramesMode::Capable);
    assert_eq!(mode(0x0040), ProtectedManagementFramesMode::Required);
    assert_eq!(mode(0x00c0), ProtectedManagementFramesMode::Required);
    assert_eq!(mode(0xff3f), ProtectedManagementFramesMode::Disabled);
}

#[test]
fn frame_header_is_read_from_the_front() {
    let mut data = Vec::new();
    data.extend_from_slice(&0x00d0u16.to_ne_bytes());
    data.extend_from_slice(&0x013au16.to_ne_bytes());
    data.extend_from_slice(&[1, 2, 3, 4, 5, 6]);
    data.extend_from_slice(&[7, 8, 9, 10, 11, 12]);
    data.extend_from_slice(&[13, 14, 15, 16, 17, 18]);
    data.extend_from_slice(&[0xee, 0xee]);
    let header = FrameHeader::parse(&data).unwrap();
    assert_eq!(header.frame_control, 0x00d0);
    assert_eq!(header.duration_id, 0x013a);
    assert_eq!(header.destination.bytes(), [1, 2, 3, 4, 5, 6]);
    assert_eq!(header.source.bytes(), [7, 8, 9, 10, 11, 12]);
    assert_eq!(header.bssid.bytes(), [13, 14, 15, 16, 17, 18]);
    assert_eq!(FrameHeader::parse(&data[..21]), Err(WirelessError::Malformed));
    assert!(FrameHeader::parse(&data[..22]).is_ok());
}
