use vstd::prelude::*;
use crate::attribute::{
    attribute_views, pack_u32_attribute, pack_u64_attribute, payload_u32, payload_u64,
    RawAttribute,
};
use crate::attributes::Attribute;
use crate::command::Command;
use crate::error::WirelessError;
use crate::native::{
    lemma_u32_bytes_round_trip, lemma_u64_bytes_round_trip, native_bytes_u32, native_bytes_u64,
};

verus! {

/// The device that a command is meant for.
#[derive(Clone, Copy, Debug, PartialEq, Eq, Structural)]
pub enum WirelessDeviceId {
    /// No device was named.
    Unset,
    InterfaceIndex(u32),
    DeviceIdentifier(u64),
}

/// How the kernel is to answer a request.
#[derive(Clone, Copy, Debug, PartialEq, Eq, Structural)]
pub enum MessageMode {
    /// With no answer but the data asked for.
    Plain,
    /// With an acknowledgement.
    Acknowledge,
    /// With all records, one message each, and a marker at the end.
    Dump,
}

/// A command ready to be sent on the control channel.
#[derive(Clone, Debug, PartialEq, Eq)]
pub struct Request {
    pub family: u16,
    pub command: Command,
    pub mode: MessageMode,
    pub attributes: Vec<RawAttribute>,
}

/// What a `Request` holds.
pub struct RequestView {
    pub family: u16,
    pub command: Command,
    pub mode: MessageMode,
    pub attributes: Seq<(u16, Seq<u8>)>,
}

impl View for Request {
    type V = RequestView;

    open spec fn view(&self) -> RequestView {
        RequestView {
            family: self.family,
            command: self.command,
            mode: self.mode,
            attributes: attribute_views(self.attributes@),
        }
    }
}

/// The view of a request that was made, or the error.
pub open spec fn request_view(r: Result<Request, WirelessError>) -> Result<
    RequestView,
    WirelessError,
> {
    match r {
        Ok(request) => Ok(request@),
        Err(e) => Err(e),
    }
}

/// The attribute that names a device in a request, if one is named.
pub open spec fn device_attribute(device: WirelessDeviceId) -> Option<(u16, Seq<u8>)> {
    match device {
        WirelessDeviceId::DeviceIdentifier(id) => Some(
            (Attribute::Wdev.code_of(), native_bytes_u64(id)),
        ),
        WirelessDeviceId::InterfaceIndex(index) => Some(
            (Attribute::Ifindex.code_of(), native_bytes_u32(index)),
        ),
        WirelessDeviceId::Unset => None,
    }
}

/// The request that sends a command to a device: it carries the one
/// attribute that names the device. Without a device there is no request.
pub open spec fn request_for(
    family: u16,
    device: WirelessDeviceId,
    command: Command,
    mode: MessageMode,
) -> Result<RequestView, WirelessError> {
    match device_attribute(device) {
        Some(attribute) => Ok(
            RequestView { family, command, mode, attributes: seq![attribute] },
        ),
        None => Err(WirelessError::NoInterfaceIdentifier),
    }
}

/// The first device identifier among the attributes, if any can be read.
pub open spec fn first_device_identifier(attributes: Seq<(u16, Seq<u8>)>) -> Option<u64>
    decreases attributes.len(),
{
    if attributes.len() == 0 {
        None
    } else if Attribute::of_code(attributes[0].0) == Attribute::Wdev && payload_u64(
        attributes[0].1,
    ) is Ok {
        Some(payload_u64(attributes[0].1)->Ok_0)
    } else {
        first_device_identifier(attributes.skip(1))
    }
}

/// The first interface index among the attributes, if any can be read.
pub open spec fn first_interface_index(attributes: Seq<(u16, Seq<u8>)>) -> Option<u32>
    decreases attributes.len(),
{
    if attributes.len() == 0 {
        None
    } else if Attribute::of_code(attributes[0].0) == Attribute::Ifindex && payload_u32(
        attributes[0].1,
    ) is Ok {
        Some(payload_u32(attributes[0].1)->Ok_0)
    } else {
        first_interface_index(attributes.skip(1))
    }
}

/// The device that the attributes of a message name: the first device
/// identifier that can be read; without one, the first interface index
/// that can be read; without either, none.
pub open spec fn device_of(attributes: Seq<(u16, Seq<u8>)>) -> WirelessDeviceId {
    match first_device_identifier(attributes) {
        Some(id) => WirelessDeviceId::DeviceIdentifier(id),
        None => match first_interface_index(attributes) {
            Some(index) => WirelessDeviceId::InterfaceIndex(index),
            None => WirelessDeviceId::Unset,
        },
    }
}

/// The device that a request names is the device that is read from its
/// attributes.
pub proof fn lemma_request_names_device(
    family: u16,
    device: WirelessDeviceId,
    command: Command,
    mode: MessageMode,
)
    requires
        device != WirelessDeviceId::Unset,
    ensures
        request_for(family, device, command, mode) is Ok,
        device_of(request_for(family, device, command, mode)->Ok_0.attributes) == device,
{
    let attributes = request_for(family, device, command, mode)->Ok_0.attributes;
    assert(attributes.len() == 1);
    assert(attributes.skip(1).len() == 0);
    assert(first_device_identifier(attributes.skip(1)) is None);
    assert(first_interface_index(attributes.skip(1)) is None);
    match device {
        WirelessDeviceId::DeviceIdentifier(id) => {
            lemma_u64_bytes_round_trip(id);
            assert(attributes[0] == (153u16, native_bytes_u64(id)));
            assert(Attribute::of_code(attributes[0].0) == Attribute::Wdev);
            assert(payload_u64(attributes[0].1) == Ok::<u64, WirelessError>(id));
            assert(first_device_identifier(attributes) == Some(id));
        },
        WirelessDeviceId::InterfaceIndex(index) => {
            lemma_u32_bytes_round_trip(index);
            assert(attributes[0] == (3u16, native_bytes_u32(index)));
            assert(Attribute::of_code(attributes[0].0) == Attribute::Ifindex);
            assert(payload_u32(attributes[0].1) == Ok::<u32, WirelessError>(index));
            assert(first_device_identifier(attributes) is None);
            assert(first_interface_index(attributes) == Some(index));
        },
        WirelessDeviceId::Unset => {},
    }
}

impl WirelessDeviceId {
    /// Reads the device that the attributes of a message name.
    pub fn from_attributes(attributes: &Vec<RawAttribute>) -> (r: WirelessDeviceId)
        ensures
            r == device_of(attribute_views(attributes@)),
    {
        let ghost views = attribute_views(attributes@);
        let mut i: usize = 0;
        assert(views.skip(0) =~= views);
        while i < attributes.len()
            invariant
                i <= attributes@.len(),
                views == attribute_views(attributes@),
                first_device_identifier(views) == first_device_identifier(views.skip(i as int)),
            decreases attributes@.len() - i,
        {
            let attribute = &attributes[i];
            proof {
                assert(views.skip(i as int)[0] == attribute@);
                assert(views.skip(i as int).skip(1) =~= views.skip(i + 1));
            }
            match Attribute::from(attribute.identifier) {
                Attribute::Wdev => {
                    if let Ok(id) = attribute.as_u64() {
                        return WirelessDeviceId::DeviceIdentifier(id);
                    }
                },
                _ => (),
            }
            i = i + 1;
        }
        let mut j: usize = 0;
        while j < attributes.len()
            invariant
                j <= attributes@.len(),
                views == attribute_views(attributes@),
                first_device_identifier(views) is None,
                first_interface_index(views) == first_interface_index(views.skip(j as int)),
            decreases attributes@.len() - j,
        {
            let attribute = &attributes[j];
            proof {
                assert(views.skip(j as int)[0] == attribute@);
                assert(views.skip(j as int).skip(1) =~= views.skip(j + 1));
            }
            match Attribute::from(attribute.identifier) {
                Attribute::Ifindex => {
                    if let Ok(index) = attribute.as_u32() {
                        return WirelessDeviceId::InterfaceIndex(index);
                    }
                },
                _ => (),
            }
            j = j + 1;
        }
        WirelessDeviceId::Unset
    }
}

impl Request {
    /// Makes the request that sends `command` to `device`. Fails with
    /// `NoInterfaceIdentifier` where no device is named.
    pub fn prepare(
        family: u16,
        device: WirelessDeviceId,
        command: Command,
        mode: MessageMode,
    ) -> (r: Result<Request, WirelessError>)
        ensures
            request_view(r) == request_for(family, device, command, mode),
    {
        let mut attributes: Vec<RawAttribute> = Vec::new();
        match device {
            WirelessDeviceId::DeviceIdentifier(id) => {
                attributes.push(pack_u64_attribute(u16::from(Attribute::Wdev), id));
            },
            WirelessDeviceId::InterfaceIndex(index) => {
                attributes.push(pack_u32_attribute(u16::from(Attribute::Ifindex), index));
            },
            WirelessDeviceId::Unset => {
                return Err(WirelessError::NoInterfaceIdentifier);
            },
        }
        assert(attribute_views(attributes@) =~= seq![device_attribute(device)->Some_0]);
        Ok(Request { family, command, mode, attributes })
    }
}

} // verus!
