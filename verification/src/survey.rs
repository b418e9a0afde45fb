use vstd::prelude::*;
use crate::attribute::{
    attribute_views, attributes_of, payload_i8, payload_u32, RawAttribute,
};
use crate::attributes::{Attribute, SurveyInformationAttributes};
use crate::error::WirelessError;
use crate::generic::Message;

verus! {

/// Channel number reported for a frequency that lies in no known band.
pub const INVALID_CHANNEL: u32 = 0xffff_ffff;

/// The channel that belongs to a centre frequency in MHz: channels 1 to 13
/// lie five MHz apart from 2412 on, channel 14 lies at 2484, and in the band
/// from 5000 up to 6000 the channel is a fifth of the distance from 5000.
pub open spec fn channel_of(mhz: u32) -> u32 {
    if 2412 <= mhz <= 2472 {
        ((mhz - 2407) / 5) as u32
    } else if mhz == 2484 {
        14
    } else if 5000 <= mhz < 6000 {
        ((mhz - 5000) / 5) as u32
    } else {
        INVALID_CHANNEL
    }
}

/// How one frequency was used, as the radio measured it.
#[derive(Clone, Copy, Debug, PartialEq, Eq, Structural)]
pub struct SurveyResult {
    pub frequency: u32,
    pub frequency_offset: u32,
    pub channel: u32,
    pub noise: i8,
    pub time: u32,
    pub time_busy: u32,
    pub time_rx: u32,
    pub time_tx: u32,
    pub time_bss_rx: u32,
    pub time_scan: u32,
}

/// The record in which nothing was measured yet.
pub open spec fn empty_survey() -> SurveyResult {
    SurveyResult {
        frequency: 0,
        frequency_offset: 0,
        channel: 0,
        noise: 0,
        time: 0,
        time_busy: 0,
        time_rx: 0,
        time_tx: 0,
        time_bss_rx: 0,
        time_scan: 0,
    }
}

/// The record after one more attribute was read into it. An attribute
/// that is not listed changes nothing; a listed one whose payload has the
/// wrong length is an error.
pub open spec fn survey_step(acc: SurveyResult, attribute: (u16, Seq<u8>)) -> Result<
    SurveyResult,
    WirelessError,
> {
    match SurveyInformationAttributes::of_code(attribute.0) {
        SurveyInformationAttributes::Frequency => match payload_u32(attribute.1) {
            Ok(v) => Ok(SurveyResult { frequency: v, channel: channel_of(v), ..acc }),
            Err(e) => Err(e),
        },
        SurveyInformationAttributes::Noise => match payload_i8(attribute.1) {
            Ok(v) => Ok(SurveyResult { noise: v, ..acc }),
            Err(e) => Err(e),
        },
        SurveyInformationAttributes::Time => match payload_u32(attribute.1) {
            Ok(v) => Ok(SurveyResult { time: v, ..acc }),
            Err(e) => Err(e),
        },
        SurveyInformationAttributes::TimeBusy => match payload_u32(attribute.1) {
            Ok(v) => Ok(SurveyResult { time_busy: v, ..acc }),
            Err(e) => Err(e),
        },
        SurveyInformationAttributes::TimeRx => match payload_u32(attribute.1) {
            Ok(v) => Ok(SurveyResult { time_rx: v, ..acc }),
            Err(e) => Err(e),
        },
        SurveyInformationAttributes::TimeTx => match payload_u32(attribute.1) {
            Ok(v) => Ok(SurveyResult { time_tx: v, ..acc }),
            Err(e) => Err(e),
        },
        SurveyInformationAttributes::TimeScan => match payload_u32(attribute.1) {
            Ok(v) => Ok(SurveyResult { time_scan: v, ..acc }),
            Err(e) => Err(e),
        },
        SurveyInformationAttributes::BssRx => match payload_u32(attribute.1) {
            Ok(v) => Ok(SurveyResult { time_bss_rx: v, ..acc }),
            Err(e) => Err(e),
        },
        SurveyInformationAttributes::FrequencyOffset => match payload_u32(attribute.1) {
            Ok(v) => Ok(SurveyResult { frequency_offset: v, ..acc }),
            Err(e) => Err(e),
        },
        _ => Ok(acc),
    }
}

/// The record that a run of attributes gives, read first to last from the
/// empty record; the first error ends the reading.
pub open spec fn survey_of(attributes: Seq<(u16, Seq<u8>)>) -> Result<SurveyResult, WirelessError>
    decreases attributes.len(),
{
    if attributes.len() == 0 {
        Ok(empty_survey())
    } else {
        match survey_of(attributes.drop_last()) {
            Ok(acc) => survey_step(acc, attributes.last()),
            Err(e) => Err(e),
        }
    }
}

/// The records that a buffer of nested attributes gives: the one record
/// that its attributes make up, or none where reading them fails.
pub open spec fn nested_surveys_of(buffer: Seq<u8>) -> Seq<SurveyResult> {
    match survey_of(attributes_of(buffer)) {
        Ok(record) => seq![record],
        Err(_) => Seq::empty(),
    }
}

impl SurveyResult {
    /// The channel that belongs to a centre frequency in MHz, or
    /// `INVALID_CHANNEL`.
    pub fn freq_to_channel(mhz: u32) -> (channel: u32)
        ensures
            channel == channel_of(mhz),
    {
        if mhz >= 2412 && mhz <= 2472 {
            return (mhz - 2407) / 5;
        }
        if mhz == 2484 {
            return 14;
        }
        if mhz >= 5000 && mhz < 6000 {
            (mhz - 5000) / 5
        } else {
            INVALID_CHANNEL
        }
    }

    /// Reads a survey record out of its attributes. A field whose attribute
    /// is missing stays zero; an attribute whose payload has the wrong length
    /// makes the whole record fail.
    pub fn from_attributes(attributes: Vec<RawAttribute>) -> (r: Result<SurveyResult, WirelessError>)
        ensures
            r == survey_of(attribute_views(attributes@)),
    {
        let mut record = SurveyResult {
            frequency: 0,
            frequency_offset: 0,
            channel: 0,
            noise: 0,
            time: 0,
            time_busy: 0,
            time_rx: 0,
            time_tx: 0,
            time_bss_rx: 0,
            time_scan: 0,
        };
        let ghost views = attribute_views(attributes@);
        let mut i: usize = 0;
        assert(views.take(0) =~= Seq::empty());
        while i < attributes.len()
            invariant
                i <= attributes@.len(),
                views == attribute_views(attributes@),
                survey_of(views.take(i as int)) == Ok::<SurveyResult, WirelessError>(record),
            decreases attributes@.len() - i,
        {
            let attribute = &attributes[i];
            proof {
                assert(views.take(i + 1).drop_last() =~= views.take(i as int));
                assert(views.take(i + 1).last() == attribute@);
                lemma_survey_error_stays(views, i + 1);
            }
            let id = SurveyInformationAttributes::from(attribute.identifier);
            match id {
                SurveyInformationAttributes::Frequency => {
                    record.frequency = attribute.as_u32()?;
                    record.channel = Self::freq_to_channel(record.frequency);
                },
                SurveyInformationAttributes::Noise => {
                    record.noise = attribute.as_i8()?;
                },
                SurveyInformationAttributes::Time => {
                    record.time = attribute.as_u32()?;
                },
                SurveyInformationAttributes::TimeBusy => {
                    record.time_busy = attribute.as_u32()?;
                },
                SurveyInformationAttributes::TimeRx => {
                    record.time_rx = attribute.as_u32()?;
                },
                SurveyInformationAttributes::TimeTx => {
                    record.time_tx = attribute.as_u32()?;
                },
                SurveyInformationAttributes::TimeScan => {
                    record.time_scan = attribute.as_u32()?;
                },
                SurveyInformationAttributes::BssRx => {
                    record.time_bss_rx = attribute.as_u32()?;
                },
                SurveyInformationAttributes::FrequencyOffset => {
                    record.frequency_offset = attribute.as_u32()?;
                },
                _ => (),
            }
            i = i + 1;
        }
        assert(views.take(i as int) =~= views);
        Ok(record)
    }

    /// Reads the survey records of a buffer of nested attributes: the
    /// attributes of the buffer are read as one record, which is kept if
    /// reading it succeeds.
    pub fn from_nested_attribute_array(buffer: &[u8]) -> (results: Vec<SurveyResult>)
        ensures
            results@ == nested_surveys_of(buffer@),
    {
        let mut results: Vec<SurveyResult> = Vec::new();
        let (_, attributes) = RawAttribute::unpack_all(buffer);
        if let Ok(record) = SurveyResult::from_attributes(attributes) {
            results.push(record);
            assert(results@ =~= seq![record]);
        }
        results
    }
}

/// Once reading a run of attributes has failed at some length, it fails
/// with the same error for the whole run.
pub proof fn lemma_survey_error_stays(attributes: Seq<(u16, Seq<u8>)>, n: int)
    requires
        0 <= n <= attributes.len(),
    ensures
        survey_of(attributes.take(n)) is Err ==> survey_of(attributes) == survey_of(
            attributes.take(n),
        ),
    decreases attributes.len() - n,
{
    if n == attributes.len() {
        assert(attributes.take(n) =~= attributes);
    } else if survey_of(attributes.take(n)) is Err {
        assert(attributes.take(n + 1).drop_last() =~= attributes.take(n));
        lemma_survey_error_stays(attributes, n + 1);
    }
}

/// The survey of one interface: its index and the records measured.
#[derive(Clone, Debug, PartialEq, Eq)]
pub struct SurveyInformation {
    pub interface: u32,
    pub results: Vec<SurveyResult>,
}

/// What a `SurveyInformation` holds.
pub struct SurveyInformationView {
    pub interface: u32,
    pub results: Seq<SurveyResult>,
}

impl View for SurveyInformation {
    type V = SurveyInformationView;

    open spec fn view(&self) -> SurveyInformationView {
        SurveyInformationView { interface: self.interface, results: self.results@ }
    }
}

/// The survey after one more attribute of the message was read into it:
/// an interface index replaces the index, a survey record replaces the
/// records, any other attribute changes nothing.
pub open spec fn information_step(
    acc: SurveyInformationView,
    attribute: (u16, Seq<u8>),
) -> Result<SurveyInformationView, WirelessError> {
    match Attribute::of_code(attribute.0) {
        Attribute::Ifindex => match payload_u32(attribute.1) {
            Ok(v) => Ok(SurveyInformationView { interface: v, ..acc }),
            Err(e) => Err(e),
        },
        Attribute::SurveyInfo => Ok(
            SurveyInformationView { results: nested_surveys_of(attribute.1), ..acc },
        ),
        _ => Ok(acc),
    }
}

/// The survey that the attributes of a message give, read first to last;
/// the first error ends the reading.
pub open spec fn information_of(attributes: Seq<(u16, Seq<u8>)>) -> Result<
    SurveyInformationView,
    WirelessError,
>
    decreases attributes.len(),
{
    if attributes.len() == 0 {
        Ok(SurveyInformationView { interface: 0, results: Seq::empty() })
    } else {
        match information_of(attributes.drop_last()) {
            Ok(acc) => information_step(acc, attributes.last()),
            Err(e) => Err(e),
        }
    }
}

/// Once reading the attributes of a message has failed at some length, it
/// fails with the same error for all of them.
pub proof fn lemma_information_error_stays(attributes: Seq<(u16, Seq<u8>)>, n: int)
    requires
        0 <= n <= attributes.len(),
    ensures
        information_of(attributes.take(n)) is Err ==> information_of(attributes)
            == information_of(attributes.take(n)),
    decreases attributes.len() - n,
{
    if n == attributes.len() {
        assert(attributes.take(n) =~= attributes);
    } else if information_of(attributes.take(n)) is Err {
        assert(attributes.take(n + 1).drop_last() =~= attributes.take(n));
        lemma_information_error_stays(attributes, n + 1);
    }
}

/// The view of a survey that was read, or the error.
pub open spec fn information_view(r: Result<SurveyInformation, WirelessError>) -> Result<
    SurveyInformationView,
    WirelessError,
> {
    match r {
        Ok(information) => Ok(information@),
        Err(e) => Err(e),
    }
}

impl SurveyInformation {
    /// Reads the survey that a message carries.
    pub fn from_message(message: &Message) -> (r: Result<SurveyInformation, WirelessError>)
        ensures
            information_view(r) == information_of(message@.attributes),
    {
        let mut interface: u32 = 0;
        let mut results: Vec<SurveyResult> = Vec::new();
        let ghost views = message@.attributes;
        let mut i: usize = 0;
        assert(views.take(0) =~= Seq::empty());
        while i < message.attributes.len()
            invariant
                i <= message.attributes@.len(),
                views == attribute_views(message.attributes@),
                information_of(views.take(i as int)) == Ok::<SurveyInformationView, WirelessError>(
                    SurveyInformationView { interface, results: results@ },
                ),
            decreases message.attributes@.len() - i,
        {
            let attribute = &message.attributes[i];
            proof {
                assert(views.take(i + 1).drop_last() =~= views.take(i as int));
                assert(views.take(i + 1).last() == attribute@);
                lemma_information_error_stays(views, i + 1);
            }
            let id = Attribute::from(attribute.identifier);
            match id {
                Attribute::Ifindex => {
                    interface = attribute.as_u32()?;
                },
                Attribute::SurveyInfo => {
                    results = SurveyResult::from_nested_attribute_array(
                        attribute.as_bytes().as_slice(),
                    );
                },
                _ => (),
            }
            i = i + 1;
        }
        assert(views.take(i as int) =~= views);
        Ok(SurveyInformation { interface, results })
    }
}

} // verus!
