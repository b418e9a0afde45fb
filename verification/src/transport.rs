use vstd::prelude::*;
use vstd::slice::{slice_subrange, slice_to_vec};
use crate::attribute::padding;
use crate::error::WirelessError;
use crate::native::{native_u16, native_u32, signed_32, unpack_i32, unpack_u16, unpack_u32};

verus! {

/// Size of the header of a transport message: length, identifier, flags,
/// sequence number and process identifier.
pub const MESSAGE_HEADER_SIZE: usize = 16;

/// Identifier of a message that carries nothing.
pub const MESSAGE_NOOP: u16 = 1;

/// Identifier of a message that carries an error number; the number zero
/// acknowledges a request.
pub const MESSAGE_ERROR: u16 = 2;

/// Identifier of the message that ends a dump.
pub const MESSAGE_DONE: u16 = 3;

/// What the transport hands over from one channel: a data message with the
/// identifier of its protocol family and its payload, or one of the two
/// markers that end a request.
#[derive(Clone, Debug, PartialEq, Eq)]
pub enum TransportMessage {
    Data { identifier: u16, data: Vec<u8> },
    Acknowledge,
    Done,
}

/// What a `TransportMessage` holds.
pub enum TransportView {
    Data { identifier: u16, data: Seq<u8> },
    Acknowledge,
    Done,
}

impl View for TransportMessage {
    type V = TransportView;

    open spec fn view(&self) -> TransportView {
        match self {
            TransportMessage::Data { identifier, data } => TransportView::Data {
                identifier: *identifier,
                data: data@,
            },
            TransportMessage::Acknowledge => TransportView::Acknowledge,
            TransportMessage::Done => TransportView::Done,
        }
    }
}

/// The views of a batch of messages, in order.
pub open spec fn transport_views(messages: Seq<TransportMessage>) -> Seq<TransportView> {
    messages.map_values(|m: TransportMessage| m@)
}

/// The length that the header at the front of `s` declares: header and
/// payload, without padding.
pub open spec fn message_length(s: Seq<u8>) -> int
    recommends
        s.len() >= MESSAGE_HEADER_SIZE,
{
    native_u32(s) as int
}

/// The identifier that the header at the front of `s` declares.
pub open spec fn message_identifier(s: Seq<u8>) -> u16
    recommends
        s.len() >= MESSAGE_HEADER_SIZE,
{
    native_u16(s.skip(4))
}

/// Whether a whole message stands at the front of `s`.
pub open spec fn has_message(s: Seq<u8>) -> bool {
    s.len() >= MESSAGE_HEADER_SIZE && MESSAGE_HEADER_SIZE <= message_length(s) <= s.len()
}

/// The payload of the message at the front of `s`.
pub open spec fn message_payload(s: Seq<u8>) -> Seq<u8>
    recommends
        has_message(s),
{
    s.subrange(MESSAGE_HEADER_SIZE as int, message_length(s))
}

/// The bytes that the message at the front of `s` takes up: its length
/// with padding, or all of `s` where the padding of the last message is
/// left off.
pub open spec fn message_stride(s: Seq<u8>) -> int
    recommends
        has_message(s),
{
    let padded = message_length(s) + padding(message_length(s));
    if padded <= s.len() {
        padded
    } else {
        s.len() as int
    }
}

/// What a message with the given identifier and payload stands for: nothing
/// where it carries nothing, an acknowledgement for the error number zero,
/// the end of a dump, or data. Any other error number is a refusal.
pub open spec fn classified(identifier: u16, payload: Seq<u8>) -> Result<
    Option<TransportView>,
    WirelessError,
> {
    if identifier == MESSAGE_NOOP {
        Ok(None)
    } else if identifier == MESSAGE_ERROR {
        if payload.len() >= 4 {
            let code = signed_32(native_u32(payload));
            if code == 0 {
                Ok(Some(TransportView::Acknowledge))
            } else {
                Err(WirelessError::Refused(code))
            }
        } else {
            Err(WirelessError::Malformed)
        }
    } else if identifier == MESSAGE_DONE {
        Ok(Some(TransportView::Done))
    } else {
        Ok(Some(TransportView::Data { identifier, data: payload }))
    }
}

/// A run of messages with one more put in front, if there is one.
pub open spec fn with_front(front: Option<TransportView>, rest: Seq<TransportView>) -> Seq<
    TransportView,
> {
    match front {
        Some(message) => seq![message] + rest,
        None => rest,
    }
}

/// The messages that a datagram holds, in order. The datagram must be made
/// of whole messages from its first byte to its last, and the first message
/// that is refused or cannot be read is the error of the whole datagram.
pub open spec fn datagram_messages(s: Seq<u8>) -> Result<Seq<TransportView>, WirelessError>
    decreases s.len(),
{
    if s.len() == 0 {
        Ok(Seq::empty())
    } else if !has_message(s) {
        Err(WirelessError::Malformed)
    } else {
        match classified(message_identifier(s), message_payload(s)) {
            Err(e) => Err(e),
            Ok(front) => match datagram_messages(s.skip(message_stride(s))) {
                Err(e) => Err(e),
                Ok(rest) => Ok(with_front(front, rest)),
            },
        }
    }
}

/// A run of messages in front of what the rest of a datagram holds.
pub open spec fn behind(
    messages: Seq<TransportView>,
    rest: Result<Seq<TransportView>, WirelessError>,
) -> Result<Seq<TransportView>, WirelessError> {
    match rest {
        Ok(more) => Ok(messages + more),
        Err(e) => Err(e),
    }
}

impl TransportMessage {
    /// Tells what a message with the given identifier and payload stands for.
    pub fn classify(identifier: u16, payload: &[u8]) -> (r: Result<
        Option<TransportMessage>,
        WirelessError,
    >)
        ensures
            match classified(identifier, payload@) {
                Ok(Some(message)) => r is Ok && r->Ok_0 is Some && r->Ok_0->Some_0@ == message,
                Ok(None) => r == Ok::<Option<TransportMessage>, WirelessError>(None),
                Err(e) => r == Err::<Option<TransportMessage>, WirelessError>(e),
            },
    {
        if identifier == MESSAGE_NOOP {
            Ok(None)
        } else if identifier == MESSAGE_ERROR {
            match unpack_i32(payload) {
                Ok(code) => {
                    if code == 0 {
                        Ok(Some(TransportMessage::Acknowledge))
                    } else {
                        Err(WirelessError::Refused(code))
                    }
                },
                Err(_) => Err(WirelessError::Malformed),
            }
        } else if identifier == MESSAGE_DONE {
            Ok(Some(TransportMessage::Done))
        } else {
            Ok(Some(TransportMessage::Data { identifier, data: slice_to_vec(payload) }))
        }
    }

    /// Splits a datagram into its messages.
    pub fn unpack_all(datagram: &[u8]) -> (r: Result<Vec<TransportMessage>, WirelessError>)
        ensures
            match datagram_messages(datagram@) {
                Ok(messages) => r is Ok && transport_views(r->Ok_0@) == messages,
                Err(e) => r == Err::<Vec<TransportMessage>, WirelessError>(e),
            },
    {
        let mut messages: Vec<TransportMessage> = Vec::new();
        let mut pos: usize = 0;
        assert(datagram@.skip(0) =~= datagram@);
        assert(transport_views(messages@) =~= Seq::empty());
        assert(behind(Seq::empty(), datagram_messages(datagram@)) =~= datagram_messages(
            datagram@,
        )) by {
            if datagram_messages(datagram@) is Ok {
                assert(Seq::<TransportView>::empty() + datagram_messages(datagram@)->Ok_0
                    =~= datagram_messages(datagram@)->Ok_0);
            }
        }
        while pos < datagram.len()
            invariant
                pos <= datagram@.len(),
                datagram_messages(datagram@) == behind(
                    transport_views(messages@),
                    datagram_messages(datagram@.skip(pos as int)),
                ),
            decreases datagram@.len() - pos,
        {
            let rest = slice_subrange(datagram, pos, datagram.len());
            assert(rest@ =~= datagram@.skip(pos as int));
            if rest.len() < MESSAGE_HEADER_SIZE {
                return Err(WirelessError::Malformed);
            }
            let length: usize = match unpack_u32(rest) {
                Ok(length) => length as usize,
                Err(_) => {
                    return Err(WirelessError::Malformed);
                },
            };
            if length < MESSAGE_HEADER_SIZE || length > rest.len() {
                return Err(WirelessError::Malformed);
            }
            let after_length = slice_subrange(rest, 4, rest.len());
            assert(after_length@ =~= rest@.skip(4));
            let identifier: u16 = match unpack_u16(after_length) {
                Ok(identifier) => identifier,
                Err(_) => {
                    return Err(WirelessError::Malformed);
                },
            };
            let payload = slice_subrange(rest, MESSAGE_HEADER_SIZE, length);
            let front = Self::classify(identifier, payload)?;
            let aligned: usize = if length % 4 == 0 {
                length
            } else if length - length % 4 <= usize::MAX - 4 {
                length - length % 4 + 4
            } else {
                rest.len()
            };
            let stride: usize = if aligned <= rest.len() {
                aligned
            } else {
                rest.len()
            };
            proof {
                assert(stride == message_stride(rest@));
                assert(datagram@.skip(pos as int).skip(stride as int) =~= datagram@.skip(
                    pos + stride,
                ));
                let before = transport_views(messages@);
                let tail = datagram_messages(datagram@.skip(pos + stride));
                if front is Some {
                    let message = front->Some_0;
                    assert(transport_views(messages@.push(message)) =~= before.push(message@));
                    if tail is Ok {
                        assert(before.push(message@) + tail->Ok_0 =~= before + with_front(
                            Some(message@),
                            tail->Ok_0,
                        ));
                    }
                }
            }
            match front {
                Some(message) => {
                    messages.push(message);
                },
                None => {},
            }
            pos = pos + stride;
        }
        proof {
            assert(datagram@.skip(pos as int).len() == 0);
            assert(transport_views(messages@) + Seq::<TransportView>::empty() =~= transport_views(
                messages@,
            ));
        }
        Ok(messages)
    }
}

} // verus!
