use vstd::prelude::*;
use vstd::slice::slice_subrange;
use crate::attribute::{attribute_views, attributes_of, RawAttribute};
use crate::error::WirelessError;

verus! {

/// Size of the envelope that precedes the attributes: command, version
/// and two reserved bytes.
pub const ENVELOPE_SIZE: usize = 4;

/// A generic message: a command code and the attributes that follow it.
#[derive(Clone, Debug, PartialEq, Eq)]
pub struct Message {
    pub command: u8,
    pub version: u8,
    pub attributes: Vec<RawAttribute>,
}

/// What a `Message` holds.
pub struct MessageView {
    pub command: u8,
    pub version: u8,
    pub attributes: Seq<(u16, Seq<u8>)>,
}

impl View for Message {
    type V = MessageView;

    open spec fn view(&self) -> MessageView {
        MessageView {
            command: self.command,
            version: self.version,
            attributes: attribute_views(self.attributes@),
        }
    }
}

/// The message that `s` holds: command, version, two bytes that are not
/// read, then attributes up to the first place where none stands.
pub open spec fn message_of(s: Seq<u8>) -> MessageView
    recommends
        s.len() >= ENVELOPE_SIZE,
{
    MessageView {
        command: s[0],
        version: s[1],
        attributes: attributes_of(s.skip(ENVELOPE_SIZE as int)),
    }
}

/// The view of a message that was read, or the error.
pub open spec fn message_view(r: Result<Message, WirelessError>) -> Result<
    MessageView,
    WirelessError,
> {
    match r {
        Ok(message) => Ok(message@),
        Err(e) => Err(e),
    }
}

/// What parsing `s` as a message gives: `Malformed` where the envelope is
/// cut short.
pub open spec fn parsed_message(s: Seq<u8>) -> Result<MessageView, WirelessError> {
    if s.len() >= ENVELOPE_SIZE {
        Ok(message_of(s))
    } else {
        Err(WirelessError::Malformed)
    }
}

impl Message {
    /// A message with the given command and attributes.
    pub fn new(command: u8, attributes: Vec<RawAttribute>) -> (r: Message)
        ensures
            r.command == command,
            r.version == 1,
            r.attributes == attributes,
    {
        Message { command, version: 1, attributes }
    }

    /// Splits the payload of a transport message into command code and
    /// attributes.
    pub fn parse(data: &[u8]) -> (r: Result<Message, WirelessError>)
        ensures
            message_view(r) == parsed_message(data@),
    {
        if data.len() < ENVELOPE_SIZE {
            return Err(WirelessError::Malformed);
        }
        let rest = slice_subrange(data, ENVELOPE_SIZE, data.len());
        assert(rest@ =~= data@.skip(ENVELOPE_SIZE as int));
        let (_, attributes) = RawAttribute::unpack_all(rest);
        Ok(Message { command: data[0], version: data[1], attributes })
    }
}

} // verus!
