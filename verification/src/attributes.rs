use vstd::prelude::*;
use vstd::std_specs::convert::FromSpecImpl;

verus! {

/// Identifier of an attribute at the top level of a message.
#[derive(Clone, Copy, Debug, PartialEq, Eq, Structural)]
pub enum Attribute {
    Unspecified,
    /// Index of the radio.
    Wiphy,
    /// Index of the network interface.
    Ifindex,
    /// Name of the network interface.
    Ifname,
    /// Hardware address of the interface.
    Mac,
    /// Counter that changes when the dumped data changes.
    Generation,
    /// One scan result, as nested attributes.
    Bss,
    /// A management frame, header first.
    Frame,
    /// One survey record, as nested attributes.
    SurveyInfo,
    /// Time between two scheduled scans, in milliseconds.
    SchedScanInterval,
    /// Identifier of the wireless device.
    Wdev,
    /// A code that this table does not list, kept as it came.
    Unknown(u16),
}

impl Attribute {
    /// The entry that a code stands for.
    pub open spec fn of_code(code: u16) -> Attribute {
        match code {
            0 => Attribute::Unspecified,
            1 => Attribute::Wiphy,
            3 => Attribute::Ifindex,
            4 => Attribute::Ifname,
            6 => Attribute::Mac,
            46 => Attribute::Generation,
            47 => Attribute::Bss,
            51 => Attribute::Frame,
            84 => Attribute::SurveyInfo,
            119 => Attribute::SchedScanInterval,
            153 => Attribute::Wdev,
            _ => Attribute::Unknown(code),
        }
    }

    /// The code that stands for an entry.
    pub open spec fn code_of(self) -> u16 {
        match self {
            Attribute::Unspecified => 0,
            Attribute::Wiphy => 1,
            Attribute::Ifindex => 3,
            Attribute::Ifname => 4,
            Attribute::Mac => 6,
            Attribute::Generation => 46,
            Attribute::Bss => 47,
            Attribute::Frame => 51,
            Attribute::SurveyInfo => 84,
            Attribute::SchedScanInterval => 119,
            Attribute::Wdev => 153,
            Attribute::Unknown(code) => code,
        }
    }

    /// No code is lost: the entry made from a code gives that code back.
    pub proof fn lemma_code_round_trip(code: u16)
        ensures
            Attribute::of_code(code).code_of() == code,
    {
    }
}

impl From<u16> for Attribute {
    fn from(code: u16) -> (r: Attribute) {
        match code {
            0 => Attribute::Unspecified,
            1 => Attribute::Wiphy,
            3 => Attribute::Ifindex,
            4 => Attribute::Ifname,
            6 => Attribute::Mac,
            46 => Attribute::Generation,
            47 => Attribute::Bss,
            51 => Attribute::Frame,
            84 => Attribute::SurveyInfo,
            119 => Attribute::SchedScanInterval,
            153 => Attribute::Wdev,
            _ => Attribute::Unknown(code),
        }
    }
}

impl FromSpecImpl<u16> for Attribute {
    open spec fn obeys_from_spec() -> bool {
        true
    }

    open spec fn from_spec(code: u16) -> Attribute {
        Attribute::of_code(code)
    }
}

impl From<Attribute> for u16 {
    fn from(entry: Attribute) -> (r: u16) {
        match entry {
            Attribute::Unspecified => 0,
            Attribute::Wiphy => 1,
            Attribute::Ifindex => 3,
            Attribute::Ifname => 4,
            Attribute::Mac => 6,
            Attribute::Generation => 46,
            Attribute::Bss => 47,
            Attribute::Frame => 51,
            Attribute::SurveyInfo => 84,
            Attribute::SchedScanInterval => 119,
            Attribute::Wdev => 153,
            Attribute::Unknown(code) => code,
        }
    }
}

impl FromSpecImpl<Attribute> for u16 {
    open spec fn obeys_from_spec() -> bool {
        true
    }

    open spec fn from_spec(entry: Attribute) -> u16 {
        entry.code_of()
    }
}
/// Identifier of an attribute inside a scan result.
#[derive(Clone, Copy, Debug, PartialEq, Eq, Structural)]
pub enum BssAttribute {
    Invalid,
    /// Address of the access point.
    Bssid,
    /// Centre frequency in MHz.
    Frequency,
    Tsf,
    BeaconInterval,
    Capability,
    /// Information elements of the last probe response or beacon.
    InformationElements,
    /// Signal level in hundredths of dBm.
    SignalMbm,
    SignalUnspec,
    /// Whether the station is connected to this access point.
    Status,
    SeenMsAgo,
    /// Information elements of the last beacon.
    BeaconIes,
    ChanWidth,
    BeaconTsf,
    PrespData,
    LastSeenBootTime,
    Pad,
    ParentTsf,
    ParentBssid,
    /// A code that this table does not list, kept as it came.
    Unknown(u16),
}

impl BssAttribute {
    /// The entry that a code stands for.
    pub open spec fn of_code(code: u16) -> BssAttribute {
        match code {
            0 => BssAttribute::Invalid,
            1 => BssAttribute::Bssid,
            2 => BssAttribute::Frequency,
            3 => BssAttribute::Tsf,
            4 => BssAttribute::BeaconInterval,
            5 => BssAttribute::Capability,
            6 => BssAttribute::InformationElements,
            7 => BssAttribute::SignalMbm,
            8 => BssAttribute::SignalUnspec,
            9 => BssAttribute::Status,
            10 => BssAttribute::SeenMsAgo,
            11 => BssAttribute::BeaconIes,
            12 => BssAttribute::ChanWidth,
            13 => BssAttribute::BeaconTsf,
            14 => BssAttribute::PrespData,
            15 => BssAttribute::LastSeenBootTime,
            16 => BssAttribute::Pad,
            17 => BssAttribute::ParentTsf,
            18 => BssAttribute::ParentBssid,
            _ => BssAttribute::Unknown(code),
        }
    }

    /// The code that stands for an entry.
    pub open spec fn code_of(self) -> u16 {
        match self {
            BssAttribute::Invalid => 0,
            BssAttribute::Bssid => 1,
            BssAttribute::Frequency => 2,
            BssAttribute::Tsf => 3,
            BssAttribute::BeaconInterval => 4,
            BssAttribute::Capability => 5,
            BssAttribute::InformationElements => 6,
            BssAttribute::SignalMbm => 7,
            BssAttribute::SignalUnspec => 8,
            BssAttribute::Status => 9,
            BssAttribute::SeenMsAgo => 10,
            BssAttribute::BeaconIes => 11,
            BssAttribute::ChanWidth => 12,
            BssAttribute::BeaconTsf => 13,
            BssAttribute::PrespData => 14,
            BssAttribute::LastSeenBootTime => 15,
            BssAttribute::Pad => 16,
            BssAttribute::ParentTsf => 17,
            BssAttribute::ParentBssid => 18,
            BssAttribute::Unknown(code) => code,
        }
    }

    /// No code is lost: the entry made from a code gives that code back.
    pub proof fn lemma_code_round_trip(code: u16)
        ensures
            BssAttribute::of_code(code).code_of() == code,
    {
    }
}

impl From<u16> for BssAttribute {
    fn from(code: u16) -> (r: BssAttribute) {
        match code {
            0 => BssAttribute::Invalid,
            1 => BssAttribute::Bssid,
            2 => BssAttribute::Frequency,
            3 => BssAttribute::Tsf,
            4 => BssAttribute::BeaconInterval,
            5 => BssAttribute::Capability,
            6 => BssAttribute::InformationElements,
            7 => BssAttribute::SignalMbm,
            8 => BssAttribute::SignalUnspec,
            9 => BssAttribute::Status,
            10 => BssAttribute::SeenMsAgo,
            11 => BssAttribute::BeaconIes,
            12 => BssAttribute::ChanWidth,
            13 => BssAttribute::BeaconTsf,
            14 => BssAttribute::PrespData,
            15 => BssAttribute::LastSeenBootTime,
            16 => BssAttribute::Pad,
            17 => BssAttribute::ParentTsf,
            18 => BssAttribute::ParentBssid,
            _ => BssAttribute::Unknown(code),
        }
    }
}

impl FromSpecImpl<u16> for BssAttribute {
    open spec fn obeys_from_spec() -> bool {
        true
    }

    open spec fn from_spec(code: u16) -> BssAttribute {
        BssAttribute::of_code(code)
    }
}

impl From<BssAttribute> for u16 {
    fn from(entry: BssAttribute) -> (r: u16) {
        match entry {
            BssAttribute::Invalid => 0,
            BssAttribute::Bssid => 1,
            BssAttribute::Frequency => 2,
            BssAttribute::Tsf => 3,
            BssAttribute::BeaconInterval => 4,
            BssAttribute::Capability => 5,
            BssAttribute::InformationElements => 6,
            BssAttribute::SignalMbm => 7,
            BssAttribute::SignalUnspec => 8,
            BssAttribute::Status => 9,
            BssAttribute::SeenMsAgo => 10,
            BssAttribute::BeaconIes => 11,
            BssAttribute::ChanWidth => 12,
            BssAttribute::BeaconTsf => 13,
            BssAttribute::PrespData => 14,
            BssAttribute::LastSeenBootTime => 15,
            BssAttribute::Pad => 16,
            BssAttribute::ParentTsf => 17,
            BssAttribute::ParentBssid => 18,
            BssAttribute::Unknown(code) => code,
        }
    }
}

impl FromSpecImpl<BssAttribute> for u16 {
    open spec fn obeys_from_spec() -> bool {
        true
    }

    open spec fn from_spec(entry: BssAttribute) -> u16 {
        entry.code_of()
    }
}
/// Identifier of an attribute inside a survey record.
#[derive(Clone, Copy, Debug, PartialEq, Eq, Structural)]
pub enum SurveyInformationAttributes {
    Invalid,
    /// Centre frequency in MHz.
    Frequency,
    /// Noise level in dBm.
    Noise,
    InUse,
    /// Time the radio was on, in milliseconds.
    Time,
    /// Time the channel was busy.
    TimeBusy,
    TimeExtBusy,
    /// Time spent receiving.
    TimeRx,
    /// Time spent transmitting.
    TimeTx,
    /// Time spent scanning.
    TimeScan,
    Pad,
    /// Time spent receiving frames of the own network.
    BssRx,
    /// Offset of the centre frequency in kHz.
    FrequencyOffset,
    /// A code that this table does not list, kept as it came.
    Unknown(u16),
}

impl SurveyInformationAttributes {
    /// The entry that a code stands for.
    pub open spec fn of_code(code: u16) -> SurveyInformationAttributes {
        match code {
            0 => SurveyInformationAttributes::Invalid,
            1 => SurveyInformationAttributes::Frequency,
            2 => SurveyInformationAttributes::Noise,
            3 => SurveyInformationAttributes::InUse,
            4 => SurveyInformationAttributes::Time,
            5 => SurveyInformationAttributes::TimeBusy,
            6 => SurveyInformationAttributes::TimeExtBusy,
            7 => SurveyInformationAttributes::TimeRx,
            8 => SurveyInformationAttributes::TimeTx,
            9 => SurveyInformationAttributes::TimeScan,
            10 => SurveyInformationAttributes::Pad,
            11 => SurveyInformationAttributes::BssRx,
            12 => SurveyInformationAttributes::FrequencyOffset,
            _ => SurveyInformationAttributes::Unknown(code),
        }
    }

    /// The code that stands for an entry.
    pub open spec fn code_of(self) -> u16 {
        match self {
            SurveyInformationAttributes::Invalid => 0,
            SurveyInformationAttributes::Frequency => 1,
            SurveyInformationAttributes::Noise => 2,
            SurveyInformationAttributes::InUse => 3,
            SurveyInformationAttributes::Time => 4,
            SurveyInformationAttributes::TimeBusy => 5,
            SurveyInformationAttributes::TimeExtBusy => 6,
            SurveyInformationAttributes::TimeRx => 7,
            SurveyInformationAttributes::TimeTx => 8,
            SurveyInformationAttributes::TimeScan => 9,
            SurveyInformationAttributes::Pad => 10,
            SurveyInformationAttributes::BssRx => 11,
            SurveyInformationAttributes::FrequencyOffset => 12,
            SurveyInformationAttributes::Unknown(code) => code,
        }
    }

    /// No code is lost: the entry made from a code gives that code back.
    pub proof fn lemma_code_round_trip(code: u16)
        ensures
            SurveyInformationAttributes::of_code(code).code_of() == code,
    {
    }
}

impl From<u16> for SurveyInformationAttributes {
    fn from(code: u16) -> (r: SurveyInformationAttributes) {
        match code {
            0 => SurveyInformationAttributes::Invalid,
            1 => SurveyInformationAttributes::Frequency,
            2 => SurveyInformationAttributes::Noise,
            3 => SurveyInformationAttributes::InUse,
            4 => SurveyInformationAttributes::Time,
            5 => SurveyInformationAttributes::TimeBusy,
            6 => SurveyInformationAttributes::TimeExtBusy,
            7 => SurveyInformationAttributes::TimeRx,
            8 => SurveyInformationAttributes::TimeTx,
            9 => SurveyInformationAttributes::TimeScan,
            10 => SurveyInformationAttributes::Pad,
            11 => SurveyInformationAttributes::BssRx,
            12 => SurveyInformationAttributes::FrequencyOffset,
            _ => SurveyInformationAttributes::Unknown(code),
        }
    }
}

impl FromSpecImpl<u16> for SurveyInformationAttributes {
    open spec fn obeys_from_spec() -> bool {
        true
    }

    open spec fn from_spec(code: u16) -> SurveyInformationAttributes {
        SurveyInformationAttributes::of_code(code)
    }
}

impl From<SurveyInformationAttributes> for u16 {
    fn from(entry: SurveyInformationAttributes) -> (r: u16) {
        match entry {
            SurveyInformationAttributes::Invalid => 0,
            SurveyInformationAttributes::Frequency => 1,
            SurveyInformationAttributes::Noise => 2,
            SurveyInformationAttributes::InUse => 3,
            SurveyInformationAttributes::Time => 4,
            SurveyInformationAttributes::TimeBusy => 5,
            SurveyInformationAttributes::TimeExtBusy => 6,
            SurveyInformationAttributes::TimeRx => 7,
            SurveyInformationAttributes::TimeTx => 8,
            SurveyInformationAttributes::TimeScan => 9,
            SurveyInformationAttributes::Pad => 10,
            SurveyInformationAttributes::BssRx => 11,
            SurveyInformationAttributes::FrequencyOffset => 12,
            SurveyInformationAttributes::Unknown(code) => code,
        }
    }
}

impl FromSpecImpl<SurveyInformationAttributes> for u16 {
    open spec fn obeys_from_spec() -> bool {
        true
    }

    open spec fn from_spec(entry: SurveyInformationAttributes) -> u16 {
        entry.code_of()
    }
}
} // verus!
