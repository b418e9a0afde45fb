use vstd::prelude::*;
use vstd::slice::slice_subrange;
use crate::attribute::{unpack_hardware_address, HardwareAddress};
use crate::error::WirelessError;
use crate::native::{native_u16, unpack_u16};

verus! {

/// Length of the part of a management frame header that is read: frame
/// control, duration and three addresses.
pub const FRAME_HEADER_SIZE: usize = 22;

/// The start of the header of a management frame.
#[derive(Clone, Copy, Debug, PartialEq, Eq)]
pub struct FrameHeader {
    pub frame_control: u16,
    pub duration_id: u16,
    pub destination: HardwareAddress,
    pub source: HardwareAddress,
    pub bssid: HardwareAddress,
}

/// What a `FrameHeader` holds.
pub struct FrameHeaderView {
    pub frame_control: u16,
    pub duration_id: u16,
    pub destination: Seq<u8>,
    pub source: Seq<u8>,
    pub bssid: Seq<u8>,
}

impl View for FrameHeader {
    type V = FrameHeaderView;

    open spec fn view(&self) -> FrameHeaderView {
        FrameHeaderView {
            frame_control: self.frame_control,
            duration_id: self.duration_id,
            destination: self.destination@,
            source: self.source@,
            bssid: self.bssid@,
        }
    }
}

/// The header that stands at the front of a frame: two numbers of sixteen
/// bits in the byte order of the machine, then destination, source and
/// network address. A frame shorter than that is malformed.
pub open spec fn frame_header_of(data: Seq<u8>) -> Result<FrameHeaderView, WirelessError> {
    if data.len() >= FRAME_HEADER_SIZE {
        Ok(
            FrameHeaderView {
                frame_control: native_u16(data),
                duration_id: native_u16(data.skip(2)),
                destination: data.subrange(4, 10),
                source: data.subrange(10, 16),
                bssid: data.subrange(16, 22),
            },
        )
    } else {
        Err(WirelessError::Malformed)
    }
}

/// The view of a header that was read, or the error.
pub open spec fn frame_header_view(r: Result<FrameHeader, WirelessError>) -> Result<
    FrameHeaderView,
    WirelessError,
> {
    match r {
        Ok(header) => Ok(header@),
        Err(e) => Err(e),
    }
}

impl FrameHeader {
    /// Reads the start of the header of a management frame.
    pub fn parse(data: &[u8]) -> (r: Result<FrameHeader, WirelessError>)
        ensures
            frame_header_view(r) == frame_header_of(data@),
    {
        if data.len() < FRAME_HEADER_SIZE {
            return Err(WirelessError::Malformed);
        }
        let after_control = slice_subrange(data, 2, data.len());
        assert(after_control@ =~= data@.skip(2));
        let first = slice_subrange(data, 4, 10);
        let second = slice_subrange(data, 10, 16);
        let third = slice_subrange(data, 16, 22);
        assert(first@.subrange(0, 6) =~= data@.subrange(4, 10));
        assert(second@.subrange(0, 6) =~= data@.subrange(10, 16));
        assert(third@.subrange(0, 6) =~= data@.subrange(16, 22));
        match (
            unpack_u16(data),
            unpack_u16(after_control),
            unpack_hardware_address(first),
            unpack_hardware_address(second),
            unpack_hardware_address(third),
        ) {
            (Ok(frame_control), Ok(duration_id), Ok(destination), Ok(source), Ok(bssid)) => Ok(
                FrameHeader {
                    frame_control,
                    duration_id,
                    destination: HardwareAddress { value: destination },
                    source: HardwareAddress { value: source },
                    bssid: HardwareAddress { value: bssid },
                },
            ),
            _ => Err(WirelessError::Malformed),
        }
    }
}

} // verus!
