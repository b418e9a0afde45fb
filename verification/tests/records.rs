use nl80211::access_point::{
    parse_bss, parse_scan_payload, parse_scan_result, AccessPoint, AccessPointBuilder,
    AccessPointStatus,
};
use nl80211::attribute::{HardwareAddress, RawAttribute};
use nl80211::error::WirelessError;
use nl80211::generic::Message;
use nl80211::information_element::{
    AuthenticationKeyManagement, CipherSuite, InformationElement, InformationElements,
    ProtectedManagementFramesMode,
};
use nl80211::ranking::{ranks_first, sort_access_points};
use nl80211::survey::{SurveyInformation, SurveyResult, INVALID_CHANNEL};

fn attribute(identifier: u16, payload: &[u8]) -> Vec<u8> {
    let length = (payload.len() + 4) as u16;
    let mut bytes = Vec::new();
    bytes.extend_from_slice(&length.to_ne_bytes());
    bytes.extend_from_slice(&identifier.to_ne_bytes());
    bytes.extend_from_slice(payload);
    while bytes.len() % 4 != 0 {
        bytes.push(0);
    }
    bytes
}

fn element(identifier: u8, data: &[u8]) -> Vec<u8> {
    let mut bytes = vec![identifier, data.len() as u8];
    bytes.extend_from_slice(data);
    bytes
}

fn security_element(capabilities: u16) -> Vec<u8> {
    let mut bytes = vec![0x01, 0x00];
    bytes.extend_from_slice(&[0x00, 0x0f, 0xac, 0x04]);
    bytes.extend_from_slice(&[0x01, 0x00]);
    bytes.extend_from_slice(&[0x00, 0x0f, 0xac, 0x04]);
    bytes.extend_from_slice(&[0x01, 0x00]);
    bytes.extend_from_slice(&[0x00, 0x0f, 0xac, 0x02]);
    bytes.extend_from_slice(&capabilities.to_le_bytes());
    bytes
}

fn high_throughput(primary: u8, bits: u8) -> Vec<u8> {
    let mut data = vec![0u8; 22];
    data[0] = primary;
    data[1] = bits;
    data
}

const BSSID: u16 = 1;
const FREQUENCY: u16 = 2;
const ELEMENTS: u16 = 6;
const SIGNAL: u16 = 7;
const STATUS: u16 = 9;
const BEACON: u16 = 11;

fn bss(name: &[u8], signal: i32, frequency: u32, more_elements: &[u8]) -> Vec<u8> {
    let mut elements = element(0, name);
    elements.extend_from_slice(more_elements);
    let mut data = attribute(BSSID, &[2, 4, 6, 8, 10, 12]);
    data.extend_from_slice(&attribute(FREQUENCY, &frequency.to_ne_bytes()));
    data.extend_from_slice(&attribute(SIGNAL, &signal.to_ne_bytes()));
    data.extend_from_slice(&attribute(ELEMENTS, &elements));
    data
}

fn plain(name: &str, signal: i32) -> AccessPoint {
    AccessPoint {
        bssid: HardwareAddress { value: [0; 6] },
        ssid: String::from(name),
        signal,
        frequency: 2412,
        channel_1: 0,
        channel_2: 0,
        channel_width: 0,
        status: AccessPointStatus::NotConnected,
        ciphers: vec![],
        akms: vec![],
        pmf: ProtectedManagementFramesMode::Disabled,
    }
}

#[test]
fn access_point_is_built_from_its_attributes() {
    let access_point = parse_bss(&bss(b"home", -4500, 2437, &[])).unwrap();
    assert_eq!(access_point.bssid.bytes(), [2, 4, 6, 8, 10, 12]);
    assert_eq!(access_point.ssid, "home");
    assert_eq!(access_point.signal, -4500);
    assert_eq!(access_point.frequency, 2437);
    assert_eq!(access_point.channel(), 6);
    assert_eq!(access_point.channel_1, 0);
    assert_eq!(access_point.channel_2, 0);
    assert_eq!(access_point.channel_width, 0);
    assert_eq!(access_point.status, AccessPointStatus::NotConnected);
    assert!(access_point.ciphers.is_empty());
    assert!(access_point.akms.is_empty());
    assert_eq!(access_point.pmf, ProtectedManagementFramesMode::Disabled);
}

#[test]
fn display_channel_follows_the_frequency() {
    assert_eq!(parse_bss(&bss(b"a", -4500, 2432, &[])).unwrap().channel(), 5);
    assert_eq!(parse_bss(&bss(b"a", -4500, 2437, &[])).unwrap().channel(), 6);
    assert_eq!(parse_bss(&bss(b"a", -4500, 5180, &[])).unwrap().channel(), 36);
    assert_eq!(parse_bss(&bss(b"a", -4500, 6100, &[])).unwrap().channel(), INVALID_CHANNEL);
}

#[test]
fn security_element_fills_ciphers_and_protection() {
    let access_point =
        parse_bss(&bss(b"home", -4500, 2437, &element(48, &security_element(0x0080)))).unwrap();
    assert_eq!(access_point.pmf, ProtectedManagementFramesMode::Capable);
    assert_eq!(access_point.ciphers, vec![CipherSuite::Ccmp]);
    assert_eq!(access_point.akms, vec![AuthenticationKeyManagement::PreSharedKey]);
}

#[test]
fn two_security_elements_add_up() {
    let mut more = element(48, &security_element(0x0040));
    more.extend_from_slice(&element(48, &security_element(0x0000)));
    let access_point = parse_bss(&bss(b"home", -4500, 2437, &more)).unwrap();
    assert_eq!(access_point.pmf, ProtectedManagementFramesMode::Disabled);
    assert_eq!(access_point.ciphers, vec![CipherSuite::Ccmp, CipherSuite::Ccmp]);
    assert_eq!(access_point.akms.len(), 2);
}

#[test]
fn high_throughput_element_gives_the_channels() {
    let above = parse_bss(&bss(b"a", -1, 2437, &element(61, &high_throughput(6, 0x01)))).unwrap();
    assert_eq!((above.channel_1, above.channel_2, above.channel_width), (6, 7, 20));
    let below = parse_bss(&bss(b"a", -1, 2437, &element(61, &high_throughput(6, 0x07)))).unwrap();
    assert_eq!((below.channel_1, below.channel_2, below.channel_width), (6, 5, 40));
    let alone = parse_bss(&bss(b"a", -1, 2437, &element(61, &high_throughput(6, 0x04)))).unwrap();
    assert_eq!((alone.channel_1, alone.channel_2, alone.channel_width), (6, 0, 40));
    let other = parse_bss(&bss(b"a", -1, 2437, &element(61, &high_throughput(6, 0x02)))).unwrap();
    assert_eq!((other.channel_1, other.channel_2, other.channel_width), (6, 0, 20));
    let top = parse_bss(&bss(b"a", -1, 2437, &element(61, &high_throughput(255, 0x01)))).unwrap();
    assert_eq!((top.channel_1, top.channel_2), (255, 0));
    let bottom = parse_bss(&bss(b"a", -1, 2437, &element(61, &high_throughput(0, 0x03)))).unwrap();
    assert_eq!((bottom.channel_1, bottom.channel_2), (0, 255));
    let short = parse_bss(&bss(b"a", -1, 2437, &element(61, &[6, 1, 0]))).unwrap();
    assert_eq!((short.channel_1, short.channel_2, short.channel_width), (0, 0, 0));
}

#[test]
fn very_high_throughput_element_gives_the_wider_channel() {
    let width = |bits: u8| {
        parse_bss(&bss(b"a", -1, 5180, &element(192, &[bits, 42, 50, 0, 0]))).unwrap()
    };
    assert_eq!((width(0).channel_1, width(0).channel_2, width(0).channel_width), (42, 50, 40));
    assert_eq!(width(1).channel_width, 80);
    assert_eq!(width(2).channel_width, 160);
    assert_eq!(width(3).channel_width, 80);
    assert_eq!(width(0xfd).channel_width, 80);
    let mut both = element(192, &[2, 42, 50, 0, 0]);
    both.extend_from_slice(&element(61, &high_throughput(36, 0x05)));
    let narrowed = parse_bss(&bss(b"a", -1, 5180, &both)).unwrap();
    assert_eq!(narrowed.channel_width, 160);
    assert_eq!((narrowed.channel_1, narrowed.channel_2), (36, 37));
    let wrong = parse_bss(&bss(b"a", -1, 5180, &element(192, &[2, 42, 50, 0]))).unwrap();
    assert_eq!(wrong.channel_width, 0);
}

#[test]
fn status_attribute_gives_the_connection() {
    let status = |payload: &[u8]| {
        let mut data = bss(b"a", -1, 2412, &[]);
        data.extend_from_slice(&attribute(STATUS, payload));
        parse_bss(&data).unwrap().status
    };
    assert_eq!(status(&0u32.to_ne_bytes()), AccessPointStatus::Authenticated);
    assert_eq!(status(&1u32.to_ne_bytes()), AccessPointStatus::Associated);
    assert_eq!(status(&2u32.to_ne_bytes()), AccessPointStatus::Joined);
    assert_eq!(status(&3u32.to_ne_bytes()), AccessPointStatus::NotConnected);
    assert_eq!(status(&[1, 0]), AccessPointStatus::NotConnected);
}

#[test]
fn name_is_read_as_latin1_where_it_is_no_utf8() {
    assert_eq!(parse_bss(&bss(b"caf\xe9", -1, 2412, &[])).unwrap().ssid, "caf\u{e9}");
    assert_eq!(parse_bss(&bss("caf\u{e9}".as_bytes(), -1, 2412, &[])).unwrap().ssid, "caf\u{e9}");
    assert_eq!(parse_bss(&bss(b"", -1, 2412, &[])).unwrap().ssid, "");
}

#[test]
fn access_point_without_a_required_field_is_not_found() {
    let address = attribute(BSSID, &[2, 4, 6, 8, 10, 12]);
    let frequency = attribute(FREQUENCY, &2437u32.to_ne_bytes());
    let signal = attribute(SIGNAL, &(-4500i32).to_ne_bytes());
    let mut named = element(0, b"home");
    named.extend_from_slice(&element(48, &security_element(0x0080)));
    named.extend_from_slice(&element(61, &high_throughput(6, 1)));
    let name = attribute(ELEMENTS, &named);
    let others = attribute(ELEMENTS, &element(48, &security_element(0x0080)));
    let join = |parts: &[&Vec<u8>]| {
        let mut data = Vec::new();
        for part in parts {
            data.extend_from_slice(part);
        }
        data
    };
    assert!(parse_bss(&join(&[&address, &frequency, &signal, &name])).is_ok());
    assert_eq!(parse_bss(&join(&[&frequency, &signal, &name])), Err(WirelessError::NotFound));
    assert_eq!(parse_bss(&join(&[&address, &signal, &name])), Err(WirelessError::NotFound));
    assert_eq!(parse_bss(&join(&[&address, &frequency, &name])), Err(WirelessError::NotFound));
    assert_eq!(parse_bss(&join(&[&address, &frequency, &signal])), Err(WirelessError::NotFound));
    assert_eq!(
        parse_bss(&join(&[&address, &frequency, &signal, &others])),
        Err(WirelessError::NotFound)
    );
    assert_eq!(parse_bss(&[]), Err(WirelessError::NotFound));
}

#[test]
fn required_field_of_the_wrong_width_is_missing() {
    let mut data = bss(b"home", -4500, 2437, &[]);
    data.extend_from_slice(&attribute(FREQUENCY, &[1, 2]));
    assert_eq!(parse_bss(&data), Err(WirelessError::NotFound));
    let mut data = bss(b"home", -4500, 2437, &[]);
    data.extend_from_slice(&attribute(SIGNAL, &[1, 2, 3, 4, 5]));
    assert_eq!(parse_bss(&data), Err(WirelessError::NotFound));
    let mut data = bss(b"home", -4500, 2437, &[]);
    data.extend_from_slice(&attribute(BSSID, &[1, 2, 3, 4, 5]));
    assert_eq!(parse_bss(&data), Err(WirelessError::NotFound));
}

#[test]
fn security_element_cut_short_is_malformed() {
    let whole = security_element(0x0080);
    let cut = element(48, &whole[..whole.len() - 1]);
    assert_eq!(parse_bss(&bss(b"home", -4500, 2437, &cut)), Err(WirelessError::Malformed));
    let mut data = bss(b"home", -4500, 2437, &[]);
    data.extend_from_slice(&attribute(BEACON, &cut));
    assert_eq!(parse_bss(&data), Err(WirelessError::Malformed));
    assert_eq!(parse_bss(&attribute(BEACON, &cut)), Err(WirelessError::Malformed));
    let mut data = bss(b"home", -4500, 2437, &[]);
    data.extend_from_slice(&attribute(BEACON, &element(48, &whole)));
    let kept = parse_bss(&data).unwrap();
    assert!(kept.ciphers.is_empty());
    assert_eq!(kept.pmf, ProtectedManagementFramesMode::Disabled);
}

#[test]
fn builder_takes_attributes_and_elements_one_by_one() {
    let builder = AccessPointBuilder::new();
    assert_eq!(builder.clone().build(), Err(WirelessError::NotFound));
    let builder = builder
        .attribute(&RawAttribute::new_bytes(BSSID, &[1, 1, 1, 1, 1, 1]))
        .unwrap()
        .attribute(&RawAttribute::new_bytes(FREQUENCY, &5180u32.to_ne_bytes()))
        .unwrap()
        .attribute(&RawAttribute::new_bytes(SIGNAL, &(-7000i32).to_ne_bytes()))
        .unwrap()
        .attribute(&RawAttribute::new_bytes(500, &[9, 9]))
        .unwrap();
    assert_eq!(builder.clone().build(), Err(WirelessError::NotFound));
    let builder = builder
        .element(&InformationElement { identifier: 0, data: b"lab".to_vec() })
        .unwrap()
        .element(&InformationElement { identifier: 200, data: vec![1, 2, 3] })
        .unwrap();
    let access_point = builder.clone().build().unwrap();
    assert_eq!(access_point.ssid, "lab");
    assert_eq!(access_point.signal, -7000);
    assert_eq!(access_point.frequency, 5180);
    assert_eq!(
        builder.element(&InformationElement { identifier: 48, data: vec![1, 0] }),
        Err(WirelessError::Malformed)
    );
    let beacon = InformationElements::parse(&element(48, &[1, 0]));
    assert_eq!(AccessPointBuilder::check_beacon_elements(&beacon), Err(WirelessError::Malformed));
    let beacon = InformationElements::parse(&element(48, &security_element(0)));
    assert_eq!(AccessPointBuilder::check_beacon_elements(&beacon), Ok(()));
}

#[test]
fn scan_result_is_read_from_its_message() {
    let mut data = vec![34, 1, 0, 0];
    data.extend_from_slice(&attribute(46, &1u32.to_ne_bytes()));
    data.extend_from_slice(&attribute(3, &2u32.to_ne_bytes()));
    data.extend_from_slice(&attribute(47, &bss(b"home", -4500, 2437, &[])));
    data.extend_from_slice(&attribute(47, &bss(b"other", -4600, 2412, &[])));
    let message = Message::parse(&data).unwrap();
    assert_eq!(parse_scan_result(&message).unwrap().ssid, "home");
    assert_eq!(parse_scan_payload(&data).unwrap().ssid, "home");
    let mut wrong = data.clone();
    wrong[0] = 33;
    assert_eq!(parse_scan_payload(&wrong), Err(WirelessError::NotFound));
    assert_eq!(parse_scan_payload(&[34, 1, 0, 0]), Err(WirelessError::NotFound));
    assert_eq!(parse_scan_payload(&[34, 1]), Err(WirelessError::Malformed));
    let mut empty = vec![34, 1, 0, 0];
    empty.extend_from_slice(&attribute(47, &[]));
    assert_eq!(parse_scan_payload(&empty), Err(WirelessError::NotFound));
}

#[test]
fn signal_bars_follow_the_signal() {
    let bars = |signal: i32| plain("a", signal).num_bars();
    assert_eq!(bars(i32::MIN), 0);
    assert_eq!(bars(-10000), 0);
    assert_eq!(bars(-9501), 0);
    assert_eq!(bars(-9500), 1);
    assert_eq!(bars(-8500), 2);
    assert_eq!(bars(-6000), 4);
    assert_eq!(bars(-4500), 6);
    assert_eq!(bars(-3501), 6);
    assert_eq!(bars(-3500), 7);
    assert_eq!(bars(0), 7);
    assert_eq!(bars(i32::MAX), 7);
}

#[test]
fn signal_bars_never_fall_when_the_signal_rises() {
    let mut last = 0;
    let mut signal = -12000;
    while signal <= 2000 {
        let bars = plain("a", signal).num_bars();
        assert!(bars <= 7);
        assert!(bars >= last);
        last = bars;
        signal += 7;
    }
    assert_eq!(last, 7);
}

#[test]
fn access_points_are_ranked_by_signal_then_name() {
    let mut access_points = vec![
        plain("delta", -7000),
        plain("bravo", -5000),
        plain("alpha", -5000),
        plain("charlie", -3000),
        plain("alp", -5000),
        plain("", -5000),
    ];
    sort_access_points(&mut access_points);
    let order: Vec<(&str, i32)> =
        access_points.iter().map(|a| (a.ssid.as_str(), a.signal)).collect();
    assert_eq!(
        order,
        vec![
            ("charlie", -3000),
            ("", -5000),
            ("alp", -5000),
            ("alpha", -5000),
            ("bravo", -5000),
            ("delta", -7000),
        ]
    );
}

#[test]
fn access_points_of_one_rank_keep_their_order() {
    let mut access_points = Vec::new();
    for n in 0..6u8 {
        let mut access_point = plain(if n % 2 == 0 { "even" } else { "odd" }, -5000);
        access_point.channel_1 = n;
        access_points.push(access_point);
    }
    sort_access_points(&mut access_points);
    let order: Vec<u8> = access_points.iter().map(|a| a.channel_1).collect();
    assert_eq!(order, vec![0, 2, 4, 1, 3, 5]);
    let mut none: Vec<AccessPoint> = Vec::new();
    sort_access_points(&mut none);
    assert!(none.is_empty());
}

#[test]
fn names_are_ranked_by_code_point() {
    assert!(ranks_first(&plain("a", -1), &plain("a", -1)));
    assert!(ranks_first(&plain("a", -1), &plain("b", -1)));
    assert!(!ranks_first(&plain("b", -1), &plain("a", -1)));
    assert!(ranks_first(&plain("Z", -1), &plain("a", -1)));
    assert!(ranks_first(&plain("z", -1), &plain("\u{e9}", -1)));
    assert!(ranks_first(&plain("\u{ffff}", -1), &plain("\u{10000}", -1)));
    assert!(ranks_first(&plain("z", -1), &plain("a", -2)));
    assert!(!ranks_first(&plain("a", -2), &plain("z", -1)));
}

#[test]
fn survey_record_is_read_from_its_attributes() {
    let attributes = vec![
        RawAttribute::new_bytes(1, &2437u32.to_ne_bytes()),
        RawAttribute::new_bytes(2, &[0xa1]),
        RawAttribute::new_bytes(4, &1000u32.to_ne_bytes()),
        RawAttribute::new_bytes(5, &250u32.to_ne_bytes()),
        RawAttribute::new_bytes(7, &200u32.to_ne_bytes()),
        RawAttribute::new_bytes(8, &30u32.to_ne_bytes()),
        RawAttribute::new_bytes(9, &20u32.to_ne_bytes()),
        RawAttribute::new_bytes(11, &10u32.to_ne_bytes()),
        RawAttribute::new_bytes(12, &5u32.to_ne_bytes()),
        RawAttribute::new_bytes(3, &[]),
        RawAttribute::new_bytes(77, &[1, 2, 3]),
    ];
    assert_eq!(
        SurveyResult::from_attributes(attributes),
        Ok(SurveyResult {
            frequency: 2437,
            frequency_offset: 5,
            channel: 6,
            noise: -95,
            time: 1000,
            time_busy: 250,
            time_rx: 200,
            time_tx: 30,
            time_bss_rx: 10,
            time_scan: 20,
        })
    );
}

#[test]
fn survey_record_with_missing_fields_is_zero_there() {
    let empty = SurveyResult {
        frequency: 0,
        frequency_offset: 0,
        channel: 0,
        noise: 0,
        time: 0,
        time_busy: 0,
        time_rx: 0,
        time_tx: 0,
        time_bss_rx: 0,
        time_scan: 0,
    };
    assert_eq!(SurveyResult::from_attributes(vec![]), Ok(empty));
    let only_noise = SurveyResult::from_attributes(vec![RawAttribute::new_bytes(2, &[5])]);
    assert_eq!(only_noise, Ok(SurveyResult { noise: 5, ..empty }));
    let unknown_band =
        SurveyResult::from_attributes(vec![RawAttribute::new_bytes(1, &6100u32.to_ne_bytes())]);
    assert_eq!(
        unknown_band,
        Ok(SurveyResult { frequency: 6100, channel: INVALID_CHANNEL, ..empty })
    );
}

#[test]
fn survey_record_with_a_payload_of_the_wrong_width_fails() {
    let attributes = vec![
        RawAttribute::new_bytes(1, &2437u32.to_ne_bytes()),
        RawAttribute::new_bytes(4, &[1, 2]),
    ];
    assert_eq!(SurveyResult::from_attributes(attributes), Err(WirelessError::Malformed));
    let attributes = vec![RawAttribute::new_bytes(2, &[1, 2])];
    assert_eq!(SurveyResult::from_attributes(attributes), Err(WirelessError::Malformed));
}

#[test]
fn nested_survey_keeps_one_record_or_none() {
    let mut buffer = attribute(1, &5180u32.to_ne_bytes());
    buffer.extend_from_slice(&attribute(2, &[0xa6]));
    let results = SurveyResult::from_nested_attribute_array(&buffer);
    assert_eq!(results.len(), 1);
    assert_eq!(results[0].frequency, 5180);
    assert_eq!(results[0].channel, 36);
    assert_eq!(results[0].noise, -90);
    buffer.extend_from_slice(&attribute(5, &[1]));
    assert!(SurveyResult::from_nested_attribute_array(&buffer).is_empty());
    assert_eq!(SurveyResult::from_nested_attribute_array(&[]).len(), 1);
}

#[test]
fn survey_is_read_from_its_message() {
    let mut record = attribute(1, &2412u32.to_ne_bytes());
    record.extend_from_slice(&attribute(5, &40u32.to_ne_bytes()));
    let mut data = vec![51, 1, 0, 0];
    data.extend_from_slice(&attribute(3, &4u32.to_ne_bytes()));
    data.extend_from_slice(&attribute(84, &record));
    let message = Message::parse(&data).unwrap();
    let survey = SurveyInformation::from_message(&message).unwrap();
    assert_eq!(survey.interface, 4);
    assert_eq!(survey.results.len(), 1);
    assert_eq!(survey.results[0].frequency, 2412);
    assert_eq!(survey.results[0].channel, 1);
    assert_eq!(survey.results[0].time_busy, 40);
    let bare = SurveyInformation::from_message(&Message::new(51, vec![])).unwrap();
    assert_eq!(bare.interface, 0);
    assert!(bare.results.is_empty());
    let wrong = Message::new(51, vec![RawAttribute::new_bytes(3, &[1, 2])]);
    assert_eq!(SurveyInformation::from_message(&wrong), Err(WirelessError::Malformed));
}
