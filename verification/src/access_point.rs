use vstd::prelude::*;
use crate::attribute::{
    attribute_views, attributes_of, payload_address, payload_i32, payload_u32, HardwareAddress,
    RawAttribute,
};
use crate::attributes::{Attribute, BssAttribute};
use crate::command::Command;
use crate::error::WirelessError;
use crate::generic::{parsed_message, Message, MessageView};
use crate::information_element::{
    element_views, elements_of, pmf_mode_of, security_parameters_fit, security_parameters_of,
    AuthenticationKeyManagement, CipherSuite, InformationElement, InformationElementId,
    InformationElements, ProtectedManagementFramesMode, RobustSecurityNetwork,
};
use crate::survey::{channel_of, SurveyResult};
use crate::text::{decode_ssid, ssid_text, text_view};

verus! {

/// Length of the data of a high throughput operation element.
pub const HT_OPERATION_SIZE: usize = 22;

/// Length of the data of a very high throughput operation element.
pub const VHT_OPERATION_SIZE: usize = 5;

/// How the station stands to an access point.
#[derive(Clone, Copy, Debug, PartialEq, Eq, Structural)]
pub enum AccessPointStatus {
    NotConnected,
    Authenticated,
    Associated,
    Joined,
}

/// One wireless network as a scan saw it.
#[derive(Clone, Debug, PartialEq, Eq)]
pub struct AccessPoint {
    pub bssid: HardwareAddress,
    pub ssid: String,
    /// Signal level in hundredths of dBm.
    pub signal: i32,
    /// Centre frequency in MHz.
    pub frequency: u32,
    pub channel_1: u8,
    pub channel_2: u8,
    /// Channel width in MHz.
    pub channel_width: u32,
    pub status: AccessPointStatus,
    pub ciphers: Vec<CipherSuite>,
    pub akms: Vec<AuthenticationKeyManagement>,
    pub pmf: ProtectedManagementFramesMode,
}

/// What an `AccessPoint` holds.
pub struct AccessPointView {
    pub bssid: Seq<u8>,
    pub ssid: Seq<char>,
    pub signal: i32,
    pub frequency: u32,
    pub channel_1: u8,
    pub channel_2: u8,
    pub channel_width: u32,
    pub status: AccessPointStatus,
    pub ciphers: Seq<CipherSuite>,
    pub akms: Seq<AuthenticationKeyManagement>,
    pub pmf: ProtectedManagementFramesMode,
}

impl View for AccessPoint {
    type V = AccessPointView;

    open spec fn view(&self) -> AccessPointView {
        AccessPointView {
            bssid: self.bssid@,
            ssid: self.ssid@,
            signal: self.signal,
            frequency: self.frequency,
            channel_1: self.channel_1,
            channel_2: self.channel_2,
            channel_width: self.channel_width,
            status: self.status,
            ciphers: self.ciphers@,
            akms: self.akms@,
            pmf: self.pmf,
        }
    }
}

/// The number of signal bars, from 0 to 7, for a signal level in hundredths
/// of dBm: the level above -100 dBm, held between 0 and 100 dB, in steps of
/// 10 dB rounded to the nearest step, and never more than 7.
pub open spec fn bars_of(signal: i32) -> int {
    let above = signal + 10000;
    let held = if above < 0 {
        0
    } else if above > 10000 {
        10000
    } else {
        above
    };
    let steps = (held + 500) / 1000;
    if steps > 7 {
        7
    } else {
        steps
    }
}

/// The bar count lies between 0 and 7 and never falls when the signal rises.
pub proof fn lemma_bars_bounded_and_monotonic(weaker: i32, stronger: i32)
    requires
        weaker <= stronger,
    ensures
        0 <= bars_of(weaker) <= bars_of(stronger) <= 7,
{
}

/// The fields gathered so far for one access point. The four that a record
/// cannot do without are missing until an attribute gives them.
pub struct BssFields {
    pub bssid: Option<Seq<u8>>,
    pub ssid: Option<Seq<char>>,
    pub signal: Option<i32>,
    pub frequency: Option<u32>,
    pub channel_1: u8,
    pub channel_2: u8,
    pub channel_width: u32,
    pub status: AccessPointStatus,
    pub ciphers: Seq<CipherSuite>,
    pub akms: Seq<AuthenticationKeyManagement>,
    pub pmf: ProtectedManagementFramesMode,
}

/// The fields before any attribute was read.
pub open spec fn no_fields() -> BssFields {
    BssFields {
        bssid: None,
        ssid: None,
        signal: None,
        frequency: None,
        channel_1: 0,
        channel_2: 0,
        channel_width: 0,
        status: AccessPointStatus::NotConnected,
        ciphers: Seq::empty(),
        akms: Seq::empty(),
        pmf: ProtectedManagementFramesMode::Disabled,
    }
}

/// The value of a read that succeeded, nothing for one that failed.
pub open spec fn read_ok<T>(read: Result<T, WirelessError>) -> Option<T> {
    match read {
        Ok(v) => Some(v),
        Err(_) => None,
    }
}

/// The connection status that a status code stands for.
pub open spec fn status_of(code: u32) -> AccessPointStatus {
    match code {
        0 => AccessPointStatus::Authenticated,
        1 => AccessPointStatus::Associated,
        2 => AccessPointStatus::Joined,
        _ => AccessPointStatus::NotConnected,
    }
}

/// The wider of two channel widths.
pub open spec fn wider(a: u32, b: u32) -> u32 {
    if a < b {
        b
    } else {
        a
    }
}

/// The channel width that a high throughput operation element announces.
pub open spec fn ht_width(data: Seq<u8>) -> u32 {
    if data[1] & 0x04 == 0 {
        20
    } else {
        40
    }
}

/// The secondary channel that a high throughput operation element
/// announces: the one above the primary channel, the one below it, or none
/// (0). The neighbour is counted modulo 256.
pub open spec fn ht_secondary(data: Seq<u8>) -> u8 {
    match data[1] & 0x03 {
        1 => if data[0] == 255 {
            0
        } else {
            (data[0] + 1) as u8
        },
        3 => if data[0] == 0 {
            255
        } else {
            (data[0] - 1) as u8
        },
        _ => 0,
    }
}

/// The channel width that a very high throughput operation element
/// announces; two segments of 80 MHz count as 80.
pub open spec fn vht_width(data: Seq<u8>) -> u32 {
    match data[0] & 0x03 {
        1 => 80,
        2 => 160,
        3 => 80,
        _ => 40,
    }
}

/// The fields after one more information element was read into them.
/// The element with identifier 0 names the network. The two operation
/// elements count only at their fixed lengths. A security element that is
/// cut short is an error. Any other element changes nothing.
pub open spec fn element_step(acc: BssFields, element: (u8, Seq<u8>)) -> Result<
    BssFields,
    WirelessError,
> {
    let data = element.1;
    if element.0 == 0 {
        Ok(BssFields { ssid: ssid_text(data), ..acc })
    } else {
        match InformationElementId::of_code(element.0) {
            InformationElementId::HighThroughputOperation => if data.len() == HT_OPERATION_SIZE {
                Ok(
                    BssFields {
                        channel_width: wider(acc.channel_width, ht_width(data)),
                        channel_1: data[0],
                        channel_2: ht_secondary(data),
                        ..acc
                    },
                )
            } else {
                Ok(acc)
            },
            InformationElementId::VeryHighThroughputOperation => if data.len()
                == VHT_OPERATION_SIZE {
                Ok(
                    BssFields {
                        channel_width: wider(acc.channel_width, vht_width(data)),
                        channel_1: data[1],
                        channel_2: data[2],
                        ..acc
                    },
                )
            } else {
                Ok(acc)
            },
            InformationElementId::RobustSecurityNetwork => if security_parameters_fit(data) {
                let parameters = security_parameters_of(data);
                Ok(
                    BssFields {
                        pmf: pmf_mode_of(parameters.capabilities),
                        ciphers: acc.ciphers + parameters.ciphers,
                        akms: acc.akms + parameters.akms,
                        ..acc
                    },
                )
            } else {
                Err(WirelessError::Malformed)
            },
            _ => Ok(acc),
        }
    }
}

/// The fields after a run of information elements was read into them,
/// first to last; the first error ends the reading.
pub open spec fn elements_fold(acc: BssFields, elements: Seq<(u8, Seq<u8>)>) -> Result<
    BssFields,
    WirelessError,
>
    decreases elements.len(),
{
    if elements.len() == 0 {
        Ok(acc)
    } else {
        match elements_fold(acc, elements.drop_last()) {
            Ok(fields) => element_step(fields, elements.last()),
            Err(e) => Err(e),
        }
    }
}

/// Whether an element is whole: a security element must hold all that it
/// announces, any other element is whole as it is.
pub open spec fn element_whole(element: (u8, Seq<u8>)) -> bool {
    InformationElementId::of_code(element.0) == InformationElementId::RobustSecurityNetwork
        ==> security_parameters_fit(element.1)
}

/// Whether every element of a run is whole.
pub open spec fn elements_whole(elements: Seq<(u8, Seq<u8>)>) -> bool {
    forall|i: int| 0 <= i < elements.len() ==> element_whole(#[trigger] elements[i])
}

/// The fields after one more attribute of the scan result was read into
/// them. Frequency, signal and address are taken from their attributes, and
/// are missing again after one whose payload has the wrong length. A status
/// with the wrong length changes nothing. The elements of the last beacon
/// are only checked; those of the last response fill the fields.
pub open spec fn bss_step(acc: BssFields, attribute: (u16, Seq<u8>)) -> Result<
    BssFields,
    WirelessError,
> {
    let data = attribute.1;
    match BssAttribute::of_code(attribute.0) {
        BssAttribute::Frequency => Ok(BssFields { frequency: read_ok(payload_u32(data)), ..acc }),
        BssAttribute::SignalMbm => Ok(BssFields { signal: read_ok(payload_i32(data)), ..acc }),
        BssAttribute::Status => match payload_u32(data) {
            Ok(code) => Ok(BssFields { status: status_of(code), ..acc }),
            Err(_) => Ok(acc),
        },
        BssAttribute::Bssid => Ok(BssFields { bssid: read_ok(payload_address(data)), ..acc }),
        BssAttribute::BeaconIes => if elements_whole(elements_of(data)) {
            Ok(acc)
        } else {
            Err(WirelessError::Malformed)
        },
        BssAttribute::InformationElements => elements_fold(acc, elements_of(data)),
        _ => Ok(acc),
    }
}

/// The fields after a run of attributes was read into them, first to last;
/// the first error ends the reading.
pub open spec fn bss_fold(acc: BssFields, attributes: Seq<(u16, Seq<u8>)>) -> Result<
    BssFields,
    WirelessError,
>
    decreases attributes.len(),
{
    if attributes.len() == 0 {
        Ok(acc)
    } else {
        match bss_fold(acc, attributes.drop_last()) {
            Ok(fields) => bss_step(fields, attributes.last()),
            Err(e) => Err(e),
        }
    }
}

/// Whether address, name, signal and frequency are all there.
pub open spec fn complete(fields: BssFields) -> bool {
    fields.bssid is Some && fields.ssid is Some && fields.signal is Some && fields.frequency
        is Some
}

/// The access point that complete fields make up.
pub open spec fn record_of(fields: BssFields) -> AccessPointView
    recommends
        complete(fields),
{
    AccessPointView {
        bssid: fields.bssid->Some_0,
        ssid: fields.ssid->Some_0,
        signal: fields.signal->Some_0,
        frequency: fields.frequency->Some_0,
        channel_1: fields.channel_1,
        channel_2: fields.channel_2,
        channel_width: fields.channel_width,
        status: fields.status,
        ciphers: fields.ciphers,
        akms: fields.akms,
        pmf: fields.pmf,
    }
}

/// The access point that the fields make up, or `NotFound` where one of the
/// four required fields is missing.
pub open spec fn built(fields: BssFields) -> Result<AccessPointView, WirelessError> {
    if complete(fields) {
        Ok(record_of(fields))
    } else {
        Err(WirelessError::NotFound)
    }
}

/// The access point that a run of attributes describes.
pub open spec fn access_point_from(attributes: Seq<(u16, Seq<u8>)>) -> Result<
    AccessPointView,
    WirelessError,
> {
    match bss_fold(no_fields(), attributes) {
        Ok(fields) => built(fields),
        Err(e) => Err(e),
    }
}

/// The access point that the nested attributes of a scan result describe.
pub open spec fn access_point_of(data: Seq<u8>) -> Result<AccessPointView, WirelessError> {
    access_point_from(attributes_of(data))
}

/// The view of an access point that was read, or the error.
pub open spec fn access_point_view(r: Result<AccessPoint, WirelessError>) -> Result<
    AccessPointView,
    WirelessError,
> {
    match r {
        Ok(access_point) => Ok(access_point@),
        Err(e) => Err(e),
    }
}

/// Gathers the fields of one access point, attribute by attribute, and
/// makes the record once all were read.
#[derive(Clone, Debug, PartialEq, Eq)]
pub struct AccessPointBuilder {
    pub bssid: Option<HardwareAddress>,
    pub ssid: Option<String>,
    pub signal: Option<i32>,
    pub frequency: Option<u32>,
    pub channel_1: u8,
    pub channel_2: u8,
    pub channel_width: u32,
    pub status: AccessPointStatus,
    pub ciphers: Vec<CipherSuite>,
    pub akms: Vec<AuthenticationKeyManagement>,
    pub pmf: ProtectedManagementFramesMode,
}

impl View for AccessPointBuilder {
    type V = BssFields;

    open spec fn view(&self) -> BssFields {
        BssFields {
            bssid: match self.bssid {
                Some(address) => Some(address@),
                None => None,
            },
            ssid: text_view(self.ssid),
            signal: self.signal,
            frequency: self.frequency,
            channel_1: self.channel_1,
            channel_2: self.channel_2,
            channel_width: self.channel_width,
            status: self.status,
            ciphers: self.ciphers@,
            akms: self.akms@,
            pmf: self.pmf,
        }
    }
}

/// The fields of a builder that a step gave, or the error.
pub open spec fn builder_view(r: Result<AccessPointBuilder, WirelessError>) -> Result<
    BssFields,
    WirelessError,
> {
    match r {
        Ok(builder) => Ok(builder@),
        Err(e) => Err(e),
    }
}

/// Once reading a run of elements has failed at some length, it fails with
/// the same error for the whole run.
pub proof fn lemma_elements_error_stays(acc: BssFields, elements: Seq<(u8, Seq<u8>)>, n: int)
    requires
        0 <= n <= elements.len(),
    ensures
        elements_fold(acc, elements.take(n)) is Err ==> elements_fold(acc, elements)
            == elements_fold(acc, elements.take(n)),
    decreases elements.len() - n,
{
    if n == elements.len() {
        assert(elements.take(n) =~= elements);
    } else if elements_fold(acc, elements.take(n)) is Err {
        assert(elements.take(n + 1).drop_last() =~= elements.take(n));
        lemma_elements_error_stays(acc, elements, n + 1);
    }
}

/// Once reading a run of attributes has failed at some length, it fails
/// with the same error for the whole run.
pub proof fn lemma_bss_error_stays(acc: BssFields, attributes: Seq<(u16, Seq<u8>)>, n: int)
    requires
        0 <= n <= attributes.len(),
    ensures
        bss_fold(acc, attributes.take(n)) is Err ==> bss_fold(acc, attributes) == bss_fold(
            acc,
            attributes.take(n),
        ),
    decreases attributes.len() - n,
{
    if n == attributes.len() {
        assert(attributes.take(n) =~= attributes);
    } else if bss_fold(acc, attributes.take(n)) is Err {
        assert(attributes.take(n + 1).drop_last() =~= attributes.take(n));
        lemma_bss_error_stays(acc, attributes, n + 1);
    }
}

impl AccessPointBuilder {
    /// A builder that has read nothing.
    pub fn new() -> (r: AccessPointBuilder)
        ensures
            r@ == no_fields(),
    {
        AccessPointBuilder {
            bssid: None,
            ssid: None,
            signal: None,
            frequency: None,
            channel_1: 0,
            channel_2: 0,
            channel_width: 0,
            status: AccessPointStatus::NotConnected,
            ciphers: Vec::new(),
            akms: Vec::new(),
            pmf: ProtectedManagementFramesMode::Disabled,
        }
    }

    /// Reads one information element of a probe response or beacon.
    pub fn element(self, element: &InformationElement) -> (r: Result<
        AccessPointBuilder,
        WirelessError,
    >)
        ensures
            builder_view(r) == element_step(self@, element@),
    {
        let mut builder = self;
        if element.identifier == 0 {
            builder.ssid = decode_ssid(element.data.as_slice());
            return Ok(builder);
        }
        match InformationElementId::from(element.identifier) {
            InformationElementId::HighThroughputOperation => {
                if element.data.len() == HT_OPERATION_SIZE {
                    let width: u32 = if element.data[1] & 0x04 == 0 {
                        20
                    } else {
                        40
                    };
                    if builder.channel_width < width {
                        builder.channel_width = width;
                    }
                    let primary: u8 = element.data[0];
                    builder.channel_1 = primary;
                    builder.channel_2 =
                    match element.data[1] & 0x03 {
                        1 => if primary == 255 {
                            0
                        } else {
                            primary + 1
                        },
                        3 => if primary == 0 {
                            255
                        } else {
                            primary - 1
                        },
                        _ => 0,
                    };
                }
            },
            InformationElementId::VeryHighThroughputOperation => {
                if element.data.len() == VHT_OPERATION_SIZE {
                    let width: u32 = match element.data[0] & 0x03 {
                        1 => 80,
                        2 => 160,
                        3 => 80,
                        _ => 40,
                    };
                    if builder.channel_width < width {
                        builder.channel_width = width;
                    }
                    builder.channel_1 = element.data[1];
                    builder.channel_2 = element.data[2];
                }
            },
            InformationElementId::RobustSecurityNetwork => {
                let mut parameters = RobustSecurityNetwork::from_bytes(element.data.as_slice())?;
                builder.pmf = parameters.pmf_mode();
                builder.ciphers.append(&mut parameters.ciphers);
                builder.akms.append(&mut parameters.akms);
            },
            _ => (),
        }
        Ok(builder)
    }

    /// Checks the elements of a beacon: a security element among them must
    /// hold all that it announces.
    pub fn check_beacon_elements(elements: &InformationElements) -> (r: Result<(), WirelessError>)
        ensures
            elements_whole(elements@) ==> r is Ok,
            !elements_whole(elements@) ==> r == Err::<(), WirelessError>(
                WirelessError::Malformed,
            ),
    {
        let ghost views = elements@;
        let mut i: usize = 0;
        while i < elements.elements.len()
            invariant
                i <= elements.elements@.len(),
                views == element_views(elements.elements@),
                forall|k: int| 0 <= k < i ==> element_whole(#[trigger] views[k]),
            decreases elements.elements@.len() - i,
        {
            let element = &elements.elements[i];
            assert(views[i as int] == element@);
            match InformationElementId::from(element.identifier) {
                InformationElementId::RobustSecurityNetwork => {
                    match RobustSecurityNetwork::from_bytes(element.data.as_slice()) {
                        Ok(_) => {},
                        Err(e) => {
                            return Err(e);
                        },
                    }
                },
                _ => (),
            }
            i = i + 1;
        }
        Ok(())
    }

    /// Reads one attribute of a scan result.
    pub fn attribute(self, attribute: &RawAttribute) -> (r: Result<
        AccessPointBuilder,
        WirelessError,
    >)
        ensures
            builder_view(r) == bss_step(self@, attribute@),
    {
        let mut builder = self;
        match BssAttribute::from(attribute.identifier) {
            BssAttribute::Frequency => {
                builder.frequency = attribute.as_u32().ok();
            },
            BssAttribute::SignalMbm => {
                builder.signal = attribute.as_i32().ok();
            },
            BssAttribute::Status => {
                match attribute.as_u32() {
                    Ok(value) => {
                        builder.status =
                        match value {
                            0 => AccessPointStatus::Authenticated,
                            1 => AccessPointStatus::Associated,
                            2 => AccessPointStatus::Joined,
                            _ => AccessPointStatus::NotConnected,
                        };
                    },
                    Err(_) => (),
                }
            },
            BssAttribute::Bssid => {
                builder.bssid = attribute.as_hardware_address().ok();
            },
            BssAttribute::BeaconIes => {
                let elements = InformationElements::parse(attribute.data.as_slice());
                Self::check_beacon_elements(&elements)?;
            },
            BssAttribute::InformationElements => {
                let elements = InformationElements::parse(attribute.data.as_slice());
                let ghost start = builder@;
                let ghost views = elements@;
                let mut i: usize = 0;
                assert(views.take(0) =~= Seq::empty());
                while i < elements.elements.len()
                    invariant
                        i <= elements.elements@.len(),
                        views == element_views(elements.elements@),
                        views == elements_of(attribute@.1),
                        start == self@,
                        BssAttribute::of_code(attribute@.0) == BssAttribute::InformationElements,
                        elements_fold(start, views.take(i as int)) == Ok::<
                            BssFields,
                            WirelessError,
                        >(builder@),
                    decreases elements.elements@.len() - i,
                {
                    let element = &elements.elements[i];
                    proof {
                        assert(views.take(i + 1).drop_last() =~= views.take(i as int));
                        assert(views.take(i + 1).last() == element@);
                        lemma_elements_error_stays(start, views, i + 1);
                    }
                    builder = builder.element(element)?;
                    i = i + 1;
                }
                assert(views.take(i as int) =~= views);
            },
            _ => (),
        }
        Ok(builder)
    }

    /// Makes the record, or fails with `NotFound` where address, name,
    /// signal or frequency is missing.
    pub fn build(self) -> (r: Result<AccessPoint, WirelessError>)
        ensures
            access_point_view(r) == built(self@),
    {
        match (self.bssid, self.ssid, self.signal, self.frequency) {
            (Some(bssid), Some(ssid), Some(signal), Some(frequency)) => Ok(
                AccessPoint {
                    bssid,
                    ssid,
                    signal,
                    frequency,
                    channel_1: self.channel_1,
                    channel_2: self.channel_2,
                    channel_width: self.channel_width,
                    status: self.status,
                    ciphers: self.ciphers,
                    akms: self.akms,
                    pmf: self.pmf,
                },
            ),
            _ => Err(WirelessError::NotFound),
        }
    }
}

impl AccessPoint {
    /// The channel that belongs to the centre frequency, for display.
    pub fn channel(&self) -> (r: u32)
        ensures
            r == channel_of(self.frequency),
    {
        SurveyResult::freq_to_channel(self.frequency)
    }

    /// The number of signal bars, from 0 to 7.
    pub fn num_bars(&self) -> (r: usize)
        ensures
            r == bars_of(self.signal),
            r <= 7,
    {
        let above: i64 = self.signal as i64 + 10000;
        let held: i64 = if above < 0 {
            0
        } else if above > 10000 {
            10000
        } else {
            above
        };
        let steps: i64 = (held + 500) / 1000;
        if steps > 7 {
            7
        } else {
            steps as usize
        }
    }
}

/// Reads an access point out of the nested attributes of a scan result.
/// Fails with `Malformed` where a security element is cut short, and with
/// `NotFound` where address, name, signal or frequency is missing at the end.
pub fn parse_bss(data: &[u8]) -> (r: Result<AccessPoint, WirelessError>)
    ensures
        access_point_view(r) == access_point_of(data@),
{
    let (_, attributes) = RawAttribute::unpack_all(data);
    let ghost views = attribute_views(attributes@);
    let mut builder = AccessPointBuilder::new();
    let mut i: usize = 0;
    assert(views.take(0) =~= Seq::empty());
    while i < attributes.len()
        invariant
            i <= attributes@.len(),
            views == attribute_views(attributes@),
            views == attributes_of(data@),
            bss_fold(no_fields(), views.take(i as int)) == Ok::<BssFields, WirelessError>(
                builder@,
            ),
        decreases attributes@.len() - i,
    {
        let attribute = &attributes[i];
        proof {
            assert(views.take(i + 1).drop_last() =~= views.take(i as int));
            assert(views.take(i + 1).last() == attribute@);
            lemma_bss_error_stays(no_fields(), views, i + 1);
        }
        builder = builder.attribute(attribute)?;
        i = i + 1;
    }
    assert(views.take(i as int) =~= views);
    builder.build()
}

/// The payload of the first attribute that holds a scan result, if any.
pub open spec fn first_bss(attributes: Seq<(u16, Seq<u8>)>) -> Option<Seq<u8>>
    decreases attributes.len(),
{
    if attributes.len() == 0 {
        None
    } else if Attribute::of_code(attributes[0].0) == Attribute::Bss {
        Some(attributes[0].1)
    } else {
        first_bss(attributes.skip(1))
    }
}

/// The access point that a message carries: the one described by its first
/// scan result attribute, if the message brings new scan results and has
/// such an attribute; `NotFound` otherwise.
pub open spec fn scan_result_of(message: MessageView) -> Result<AccessPointView, WirelessError> {
    if Command::of_code(message.command) == Command::NewScanResults {
        match first_bss(message.attributes) {
            Some(data) => access_point_of(data),
            None => Err(WirelessError::NotFound),
        }
    } else {
        Err(WirelessError::NotFound)
    }
}

/// Reads the access point that a message with new scan results carries.
pub fn parse_scan_result(message: &Message) -> (r: Result<AccessPoint, WirelessError>)
    ensures
        access_point_view(r) == scan_result_of(message@),
{
    let command = Command::from(message.command);
    if command == Command::NewScanResults {
        let ghost views = message@.attributes;
        let mut i: usize = 0;
        assert(views.skip(0) =~= views);
        while i < message.attributes.len()
            invariant
                i <= message.attributes@.len(),
                views == attribute_views(message.attributes@),
                views == message@.attributes,
                Command::of_code(message@.command) == Command::NewScanResults,
                first_bss(views) == first_bss(views.skip(i as int)),
            decreases message.attributes@.len() - i,
        {
            let attribute = &message.attributes[i];
            proof {
                assert(views.skip(i as int)[0] == attribute@);
                assert(views.skip(i as int).skip(1) =~= views.skip(i + 1));
            }
            match Attribute::from(attribute.identifier) {
                Attribute::Bss => {
                    return parse_bss(attribute.data.as_slice());
                },
                _ => (),
            }
            i = i + 1;
        }
    }
    Err(WirelessError::NotFound)
}

/// The scan result that the payload of a data message carries, or why it
/// carries none.
pub open spec fn carried_scan_result(data: Seq<u8>) -> Result<AccessPointView, WirelessError> {
    match parsed_message(data) {
        Ok(content) => scan_result_of(content),
        Err(e) => Err(e),
    }
}

/// Reads the access point that the payload of a data message carries.
pub fn parse_scan_payload(data: &[u8]) -> (r: Result<AccessPoint, WirelessError>)
    ensures
        access_point_view(r) == carried_scan_result(data@),
{
    let content = Message::parse(data)?;
    parse_scan_result(&content)
}

} // verus!
