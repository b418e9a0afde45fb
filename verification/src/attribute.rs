use vstd::prelude::*;
use vstd::slice::slice_subrange;
use crate::error::WirelessError;
use crate::native::{
    native_bytes_u32, native_bytes_u64, native_u16, native_u32, native_u64, read_or_malformed, signed_16, signed_32, signed_64,
    signed_8, unpack_i16, unpack_i32, unpack_i64, unpack_i8, unpack_u16, unpack_u32, unpack_u64,
    unpack_u8,
};

verus! {

/// Size of the header (length, identifier) that precedes each payload.
pub const HEADER_SIZE: usize = 4;

/// A six octet address of a wireless station.
#[derive(Clone, Copy, Debug, PartialEq, Eq)]
pub struct HardwareAddress {
    pub value: [u8; 6],
}

impl View for HardwareAddress {
    type V = Seq<u8>;

    open spec fn view(&self) -> Seq<u8> {
        self.value@
    }
}

impl HardwareAddress {
    /// The six octets.
    pub fn bytes(&self) -> (r: [u8; 6])
        ensures
            r@ == self@,
    {
        self.value
    }
}

/// One decoded attribute: its numeric identifier and its payload, without
/// header and padding.
#[derive(Clone, Debug, PartialEq, Eq)]
pub struct RawAttribute {
    pub identifier: u16,
    pub data: Vec<u8>,
}

impl View for RawAttribute {
    type V = (u16, Seq<u8>);

    open spec fn view(&self) -> (u16, Seq<u8>) {
        (self.identifier, self.data@)
    }
}

/// The views of a run of attributes, in order.
pub open spec fn attribute_views(attributes: Seq<RawAttribute>) -> Seq<(u16, Seq<u8>)> {
    attributes.map_values(|a: RawAttribute| a@)
}

/// What a payload gives when read as an unsigned number of eight bits:
/// the payload must be one byte long.
pub open spec fn payload_u8(data: Seq<u8>) -> Result<u8, WirelessError> {
    if data.len() == 1 {
        Ok(data[0])
    } else {
        Err(WirelessError::Malformed)
    }
}

/// What a payload gives when read as an unsigned number of sixteen bits:
/// the payload must be two bytes long.
pub open spec fn payload_u16(data: Seq<u8>) -> Result<u16, WirelessError> {
    if data.len() == 2 {
        Ok(native_u16(data))
    } else {
        Err(WirelessError::Malformed)
    }
}

/// What a payload gives when read as an unsigned number of thirty-two bits:
/// the payload must be four bytes long.
pub open spec fn payload_u32(data: Seq<u8>) -> Result<u32, WirelessError> {
    if data.len() == 4 {
        Ok(native_u32(data))
    } else {
        Err(WirelessError::Malformed)
    }
}

/// What a payload gives when read as an unsigned number of sixty-four bits:
/// the payload must be eight bytes long.
pub open spec fn payload_u64(data: Seq<u8>) -> Result<u64, WirelessError> {
    if data.len() == 8 {
        Ok(native_u64(data))
    } else {
        Err(WirelessError::Malformed)
    }
}

/// What a payload gives when read as a signed number of eight bits.
pub open spec fn payload_i8(data: Seq<u8>) -> Result<i8, WirelessError> {
    if data.len() == 1 {
        Ok(signed_8(data[0]))
    } else {
        Err(WirelessError::Malformed)
    }
}

/// What a payload gives when read as a signed number of sixteen bits.
pub open spec fn payload_i16(data: Seq<u8>) -> Result<i16, WirelessError> {
    if data.len() == 2 {
        Ok(signed_16(native_u16(data)))
    } else {
        Err(WirelessError::Malformed)
    }
}

/// What a payload gives when read as a signed number of thirty-two bits.
pub open spec fn payload_i32(data: Seq<u8>) -> Result<i32, WirelessError> {
    if data.len() == 4 {
        Ok(signed_32(native_u32(data)))
    } else {
        Err(WirelessError::Malformed)
    }
}

/// What a payload gives when read as a signed number of sixty-four bits.
pub open spec fn payload_i64(data: Seq<u8>) -> Result<i64, WirelessError> {
    if data.len() == 8 {
        Ok(signed_64(native_u64(data)))
    } else {
        Err(WirelessError::Malformed)
    }
}

/// What a payload gives when read as a hardware address: the payload must
/// be six bytes long, and they are the address.
pub open spec fn payload_address(data: Seq<u8>) -> Result<Seq<u8>, WirelessError> {
    if data.len() == 6 {
        Ok(data)
    } else {
        Err(WirelessError::Malformed)
    }
}

/// The view of a hardware address that was read, or the error.
pub open spec fn address_view(r: Result<HardwareAddress, WirelessError>) -> Result<
    Seq<u8>,
    WirelessError,
> {
    match r {
        Ok(address) => Ok(address@),
        Err(e) => Err(e),
    }
}

/// Number of bytes that follow a payload of `length` bytes (header counted)
/// so that the next header starts on a multiple of four.
pub open spec fn padding(length: int) -> int {
    (4 - length % 4) % 4
}

/// The length that the header at the front of `s` declares: header and
/// payload, without padding.
pub open spec fn declared_length(s: Seq<u8>) -> int
    recommends
        s.len() >= HEADER_SIZE,
{
    native_u16(s) as int
}

/// The identifier that the header at the front of `s` declares.
pub open spec fn declared_identifier(s: Seq<u8>) -> u16
    recommends
        s.len() >= HEADER_SIZE,
{
    native_u16(s.skip(2))
}

/// The bytes that the attribute at the front of `s` takes up, padding included.
pub open spec fn stride(s: Seq<u8>) -> int
    recommends
        s.len() >= HEADER_SIZE,
{
    declared_length(s) + padding(declared_length(s))
}

/// Whether a whole attribute stands at the front of `s`: a header, a declared
/// length that covers at least the header, and room for payload and padding.
pub open spec fn has_attribute(s: Seq<u8>) -> bool {
    &&& s.len() >= HEADER_SIZE
    &&& declared_length(s) >= HEADER_SIZE
    &&& stride(s) <= s.len()
}

/// The attribute at the front of `s`.
pub open spec fn first_attribute(s: Seq<u8>) -> (u16, Seq<u8>)
    recommends
        has_attribute(s),
{
    (declared_identifier(s), s.subrange(HEADER_SIZE as int, declared_length(s)))
}

/// The attributes that `s` holds, in order, up to the first place where no
/// whole attribute stands.
pub open spec fn attributes_of(s: Seq<u8>) -> Seq<(u16, Seq<u8>)>
    decreases s.len(),
{
    if has_attribute(s) {
        seq![first_attribute(s)] + attributes_of(s.skip(stride(s)))
    } else {
        Seq::empty()
    }
}

/// The number of bytes of `s` that its attributes take up, padding included.
pub open spec fn consumed_of(s: Seq<u8>) -> int
    decreases s.len(),
{
    if has_attribute(s) {
        stride(s) + consumed_of(s.skip(stride(s)))
    } else {
        0
    }
}

/// Whether `s` is made of whole attributes from its first byte to its last.
pub open spec fn well_formed(s: Seq<u8>) -> bool
    decreases s.len(),
{
    s.len() == 0 || (has_attribute(s) && well_formed(s.skip(stride(s))))
}

/// The bytes that a run of attributes takes up when each is written with
/// its header and padding.
pub open spec fn packed_size(attributes: Seq<(u16, Seq<u8>)>) -> int
    decreases attributes.len(),
{
    if attributes.len() == 0 {
        0
    } else {
        let length = HEADER_SIZE + attributes[0].1.len();
        length + padding(length) + packed_size(attributes.skip(1))
    }
}

/// Decoding never runs past the end: the bytes consumed are at most those given.
pub proof fn lemma_consumed_within(s: Seq<u8>)
    ensures
        0 <= consumed_of(s) <= s.len(),
    decreases s.len(),
{
    if has_attribute(s) {
        lemma_consumed_within(s.skip(stride(s)));
    }
}

/// A buffer is consumed to its last byte exactly when it is made of whole
/// attributes throughout.
pub proof fn lemma_well_formed_consumes_all(s: Seq<u8>)
    ensures
        well_formed(s) <==> consumed_of(s) == s.len(),
    decreases s.len(),
{
    if has_attribute(s) {
        lemma_well_formed_consumes_all(s.skip(stride(s)));
        lemma_consumed_within(s.skip(stride(s)));
    }
}

/// The bytes consumed are the sum, over the attributes decoded, of header,
/// payload and padding.
pub proof fn lemma_consumed_is_packed_size(s: Seq<u8>)
    ensures
        consumed_of(s) == packed_size(attributes_of(s)),
    decreases s.len(),
{
    if has_attribute(s) {
        let rest = s.skip(stride(s));
        lemma_consumed_is_packed_size(rest);
        let all = attributes_of(s);
        assert(all.skip(1) =~= attributes_of(rest));
        assert(all[0] == first_attribute(s));
        assert(HEADER_SIZE + all[0].1.len() == declared_length(s));
    }
}

/// Calls `unpack_with_size` of `netlink_rust::NativeUnpack` for
/// `netlink_rust::Attribute` and copies identifier and payload out of the
/// attribute it returns. Trusted: on a buffer whose declared length covers the
/// header it succeeds exactly when the whole attribute with its padding fits,
/// reports the bytes taken up with padding, and gives the declared identifier
/// and the payload between the header and the declared length. A declared
/// length below the header size is left out, since the call panics on it.
#[verifier::external_body]
fn unpack_attribute(buffer: &[u8]) -> (r: Result<(usize, RawAttribute), netlink_rust::Error>)
    requires
        buffer@.len() >= HEADER_SIZE ==> declared_length(buffer@) >= HEADER_SIZE,
    ensures
        r is Ok <==> has_attribute(buffer@),
        r is Ok ==> r->Ok_0.0 == stride(buffer@) && r->Ok_0.1@ == first_attribute(buffer@),
{
    match <netlink_rust::Attribute as netlink_rust::NativeUnpack>::unpack_with_size(buffer) {
        Ok((used, attribute)) => Ok(
            (used, RawAttribute { identifier: attribute.identifier, data: attribute.as_bytes() }),
        ),
        Err(e) => Err(e),
    }
}

/// Calls `unpack` of `netlink_rust::NativeUnpack` for
/// `netlink_rust::HardwareAddress` and takes the octets out of the address.
/// Trusted: it succeeds exactly when six bytes are there, and gives the first
/// six bytes in order.
#[verifier::external_body]
pub(crate) fn unpack_hardware_address(data: &[u8]) -> (r: Result<[u8; 6], netlink_rust::Error>)
    ensures
        r is Ok <==> data@.len() >= 6,
        r is Ok ==> r->Ok_0@ == data@.subrange(0, 6),
{
    <netlink_rust::HardwareAddress as netlink_rust::NativeUnpack>::unpack(data).map(|a| a.bytes())
}

/// Calls `netlink_rust::Attribute::new` with a value of thirty-two bits and
/// copies identifier and payload out of the attribute it returns. Trusted:
/// the attribute has the given identifier, and its payload is the value in
/// four bytes in the byte order of the machine.
#[verifier::external_body]
pub(crate) fn pack_u32_attribute(identifier: u16, value: u32) -> (r: RawAttribute)
    ensures
        r@ == (identifier, native_bytes_u32(value)),
{
    let attribute = netlink_rust::Attribute::new(identifier, value);
    RawAttribute { identifier: attribute.identifier, data: attribute.as_bytes() }
}

/// Calls `netlink_rust::Attribute::new` with a value of sixty-four bits and
/// copies identifier and payload out of the attribute it returns. Trusted:
/// the attribute has the given identifier, and its payload is the value in
/// eight bytes in the byte order of the machine.
#[verifier::external_body]
pub(crate) fn pack_u64_attribute(identifier: u16, value: u64) -> (r: RawAttribute)
    ensures
        r@ == (identifier, native_bytes_u64(value)),
{
    let attribute = netlink_rust::Attribute::new(identifier, value);
    RawAttribute { identifier: attribute.identifier, data: attribute.as_bytes() }
}

impl HardwareAddress {
    /// Reads an address from a payload of exactly six bytes.
    pub fn from_bytes(data: &[u8]) -> (r: Result<HardwareAddress, WirelessError>)
        ensures
            address_view(r) == payload_address(data@),
    {
        if data.len() != 6 {
            return Err(WirelessError::Malformed);
        }
        match unpack_hardware_address(data) {
            Ok(value) => {
                assert(data@.subrange(0, 6) =~= data@);
                Ok(HardwareAddress { value })
            },
            Err(_) => Err(WirelessError::Malformed),
        }
    }
}

impl RawAttribute {
    /// An attribute with the given identifier and a copy of `value` as payload.
    pub fn new_bytes(identifier: u16, value: &[u8]) -> (r: RawAttribute)
        ensures
            r@ == (identifier, value@),
    {
        RawAttribute { identifier, data: vstd::slice::slice_to_vec(value) }
    }

    /// Decodes every attribute of `buffer`, first to last. Decoding stops,
    /// without failing, where fewer than four bytes are left, where a header
    /// declares a length below the header size, or where the declared length
    /// with its padding does not fit into what is left. Returns the number of
    /// bytes taken up by the attributes decoded, and the attributes.
    pub fn unpack_all(buffer: &[u8]) -> (r: (usize, Vec<RawAttribute>))
        ensures
            r.0 == consumed_of(buffer@),
            r.0 <= buffer@.len(),
            attribute_views(r.1@) == attributes_of(buffer@),
    {
        let mut pos: usize = 0;
        let mut attributes: Vec<RawAttribute> = Vec::new();
        assert(buffer@.skip(0) =~= buffer@);
        assert(attribute_views(attributes@) =~= Seq::empty());
        loop
            invariant
                pos <= buffer@.len(),
                consumed_of(buffer@) == pos + consumed_of(buffer@.skip(pos as int)),
                attributes_of(buffer@) == attribute_views(attributes@) + attributes_of(
                    buffer@.skip(pos as int),
                ),
            ensures
                pos <= buffer@.len(),
                pos == consumed_of(buffer@),
                attribute_views(attributes@) == attributes_of(buffer@),
            decreases buffer@.len() - pos,
        {
            let rest = slice_subrange(buffer, pos, buffer.len());
            assert(rest@ =~= buffer@.skip(pos as int));
            if rest.len() >= HEADER_SIZE {
                match unpack_u16(rest) {
                    Ok(length) => {
                        if length < 4 {
                            assert(attributes_of(buffer@) =~= attribute_views(attributes@));
                            break ;
                        }
                    },
                    Err(_) => {
                        break ;
                    },
                }
            }
            match unpack_attribute(rest) {
                Ok((used, attribute)) => {
                    proof {
                        let ghost before = attributes@;
                        assert(buffer@.skip(pos as int).skip(used as int) =~= buffer@.skip(
                            pos + used,
                        ));
                        assert(attribute_views(before.push(attribute)) =~= attribute_views(
                            before,
                        ).push(attribute@));
                        assert(attribute_views(before).push(attribute@) + attributes_of(
                            buffer@.skip(pos + used),
                        ) =~= attribute_views(before) + (seq![attribute@] + attributes_of(
                            buffer@.skip(pos + used),
                        )));
                    }
                    attributes.push(attribute);
                    pos = pos + used;
                },
                Err(_) => {
                    assert(attributes_of(buffer@) =~= attribute_views(attributes@));
                    break ;
                },
            }
        }
        (pos, attributes)
    }

    /// Number of payload bytes.
    pub fn len(&self) -> (r: usize)
        ensures
            r == self.data@.len(),
    {
        self.data.len()
    }

    /// The payload as an unsigned number of eight bits.
    pub fn as_u8(&self) -> (r: Result<u8, WirelessError>)
        ensures
            r == payload_u8(self.data@),
    {
        if self.data.len() != 1 {
            return Err(WirelessError::Malformed);
        }
        read_or_malformed(unpack_u8(self.data.as_slice()))
    }

    /// The payload as a number of sixteen bits in the byte order of the machine.
    pub fn as_u16(&self) -> (r: Result<u16, WirelessError>)
        ensures
            r == payload_u16(self.data@),
    {
        if self.data.len() != 2 {
            return Err(WirelessError::Malformed);
        }
        read_or_malformed(unpack_u16(self.data.as_slice()))
    }

    /// The payload as a number of thirty-two bits in the byte order of the machine.
    pub fn as_u32(&self) -> (r: Result<u32, WirelessError>)
        ensures
            r == payload_u32(self.data@),
    {
        if self.data.len() != 4 {
            return Err(WirelessError::Malformed);
        }
        read_or_malformed(unpack_u32(self.data.as_slice()))
    }

    /// The payload as a number of sixty-four bits in the byte order of the machine.
    pub fn as_u64(&self) -> (r: Result<u64, WirelessError>)
        ensures
            r == payload_u64(self.data@),
    {
        if self.data.len() != 8 {
            return Err(WirelessError::Malformed);
        }
        read_or_malformed(unpack_u64(self.data.as_slice()))
    }

    /// The payload as a signed number of eight bits.
    pub fn as_i8(&self) -> (r: Result<i8, WirelessError>)
        ensures
            r == payload_i8(self.data@),
    {
        if self.data.len() != 1 {
            return Err(WirelessError::Malformed);
        }
        read_or_malformed(unpack_i8(self.data.as_slice()))
    }

    /// The payload as a signed number of sixteen bits in the byte order of the machine.
    pub fn as_i16(&self) -> (r: Result<i16, WirelessError>)
        ensures
            r == payload_i16(self.data@),
    {
        if self.data.len() != 2 {
            return Err(WirelessError::Malformed);
        }
        read_or_malformed(unpack_i16(self.data.as_slice()))
    }

    /// The payload as a signed number of thirty-two bits in the byte order of the machine.
    pub fn as_i32(&self) -> (r: Result<i32, WirelessError>)
        ensures
            r == payload_i32(self.data@),
    {
        if self.data.len() != 4 {
            return Err(WirelessError::Malformed);
        }
        read_or_malformed(unpack_i32(self.data.as_slice()))
    }

    /// The payload as a signed number of sixty-four bits in the byte order of the machine.
    pub fn as_i64(&self) -> (r: Result<i64, WirelessError>)
        ensures
            r == payload_i64(self.data@),
    {
        if self.data.len() != 8 {
            return Err(WirelessError::Malformed);
        }
        read_or_malformed(unpack_i64(self.data.as_slice()))
    }

    /// The payload as a hardware address.
    pub fn as_hardware_address(&self) -> (r: Result<HardwareAddress, WirelessError>)
        ensures
            address_view(r) == payload_address(self.data@),
    {
        HardwareAddress::from_bytes(self.data.as_slice())
    }

    /// A copy of the payload.
    pub fn as_bytes(&self) -> (r: Vec<u8>)
        ensures
            r@ == self.data@,
    {
        self.data.clone()
    }
}

} // verus!
