use vstd::prelude::*;
use vstd::endian::{endianness, Endian};
use crate::error::WirelessError;

verus! {

/// The number held by the first two bytes of `s`, least significant byte first.
pub open spec fn le_u16(s: Seq<u8>) -> u16
    recommends
        s.len() >= 2,
{
    (s[0] as int + 256 * (s[1] as int)) as u16
}

/// The number held by the first two bytes of `s`, most significant byte first.
pub open spec fn be_u16(s: Seq<u8>) -> u16
    recommends
        s.len() >= 2,
{
    (256 * (s[0] as int) + s[1] as int) as u16
}

/// The number held by the first four bytes of `s`, least significant byte first.
pub open spec fn le_u32(s: Seq<u8>) -> u32
    recommends
        s.len() >= 4,
{
    (le_u16(s) as int + 0x1_0000 * (le_u16(s.skip(2)) as int)) as u32
}

/// The number held by the first four bytes of `s`, most significant byte first.
pub open spec fn be_u32(s: Seq<u8>) -> u32
    recommends
        s.len() >= 4,
{
    (0x1_0000 * (be_u16(s) as int) + be_u16(s.skip(2)) as int) as u32
}

/// The number held by the first eight bytes of `s`, least significant byte first.
pub open spec fn le_u64(s: Seq<u8>) -> u64
    recommends
        s.len() >= 8,
{
    (le_u32(s) as int + 0x1_0000_0000 * (le_u32(s.skip(4)) as int)) as u64
}

/// The number held by the first eight bytes of `s`, most significant byte first.
pub open spec fn be_u64(s: Seq<u8>) -> u64
    recommends
        s.len() >= 8,
{
    (0x1_0000_0000 * (be_u32(s) as int) + be_u32(s.skip(4)) as int) as u64
}

/// The first two bytes of `s` read in the byte order of the machine.
pub open spec fn native_u16(s: Seq<u8>) -> u16
    recommends
        s.len() >= 2,
{
    match endianness() {
        Endian::Little => le_u16(s),
        Endian::Big => be_u16(s),
    }
}

/// The first four bytes of `s` read in the byte order of the machine.
pub open spec fn native_u32(s: Seq<u8>) -> u32
    recommends
        s.len() >= 4,
{
    match endianness() {
        Endian::Little => le_u32(s),
        Endian::Big => be_u32(s),
    }
}

/// The first eight bytes of `s` read in the byte order of the machine.
pub open spec fn native_u64(s: Seq<u8>) -> u64
    recommends
        s.len() >= 8,
{
    match endianness() {
        Endian::Little => le_u64(s),
        Endian::Big => be_u64(s),
    }
}

/// The two bytes that hold `v`, least significant byte first.
pub open spec fn le_bytes_u16(v: u16) -> Seq<u8> {
    seq![(v % 256) as u8, (v / 256) as u8]
}

/// The two bytes that hold `v`, most significant byte first.
pub open spec fn be_bytes_u16(v: u16) -> Seq<u8> {
    seq![(v / 256) as u8, (v % 256) as u8]
}

/// The four bytes that hold `v`, least significant byte first.
pub open spec fn le_bytes_u32(v: u32) -> Seq<u8> {
    le_bytes_u16((v % 0x1_0000) as u16) + le_bytes_u16((v / 0x1_0000) as u16)
}

/// The four bytes that hold `v`, most significant byte first.
pub open spec fn be_bytes_u32(v: u32) -> Seq<u8> {
    be_bytes_u16((v / 0x1_0000) as u16) + be_bytes_u16((v % 0x1_0000) as u16)
}

/// The eight bytes that hold `v`, least significant byte first.
pub open spec fn le_bytes_u64(v: u64) -> Seq<u8> {
    le_bytes_u32((v % 0x1_0000_0000) as u32) + le_bytes_u32((v / 0x1_0000_0000) as u32)
}

/// The eight bytes that hold `v`, most significant byte first.
pub open spec fn be_bytes_u64(v: u64) -> Seq<u8> {
    be_bytes_u32((v / 0x1_0000_0000) as u32) + be_bytes_u32((v % 0x1_0000_0000) as u32)
}

/// The four bytes that hold `v` in the byte order of the machine.
pub open spec fn native_bytes_u32(v: u32) -> Seq<u8> {
    match endianness() {
        Endian::Little => le_bytes_u32(v),
        Endian::Big => be_bytes_u32(v),
    }
}

/// The eight bytes that hold `v` in the byte order of the machine.
pub open spec fn native_bytes_u64(v: u64) -> Seq<u8> {
    match endianness() {
        Endian::Little => le_bytes_u64(v),
        Endian::Big => be_bytes_u64(v),
    }
}

/// Reading the bytes that hold a number of thirty-two bits gives the
/// number back, in either byte order and so in that of the machine.
pub proof fn lemma_u32_bytes_round_trip(v: u32)
    ensures
        le_bytes_u32(v).len() == 4,
        be_bytes_u32(v).len() == 4,
        le_u32(le_bytes_u32(v)) == v,
        be_u32(be_bytes_u32(v)) == v,
        native_bytes_u32(v).len() == 4,
        native_u32(native_bytes_u32(v)) == v,
{
    let low = (v % 0x1_0000) as u16;
    let high = (v / 0x1_0000) as u16;
    assert(le_bytes_u32(v).skip(2) =~= le_bytes_u16(high));
    assert(be_bytes_u32(v).skip(2) =~= be_bytes_u16(low));
}

/// Reading the bytes that hold a number of sixty-four bits gives the
/// number back, in either byte order and so in that of the machine.
pub proof fn lemma_u64_bytes_round_trip(v: u64)
    ensures
        le_bytes_u64(v).len() == 8,
        be_bytes_u64(v).len() == 8,
        le_u64(le_bytes_u64(v)) == v,
        be_u64(be_bytes_u64(v)) == v,
        native_bytes_u64(v).len() == 8,
        native_u64(native_bytes_u64(v)) == v,
{
    let low = (v % 0x1_0000_0000) as u32;
    let high = (v / 0x1_0000_0000) as u32;
    lemma_u32_bytes_round_trip(low);
    lemma_u32_bytes_round_trip(high);
    let le = le_bytes_u64(v);
    let be = be_bytes_u64(v);
    assert(le.skip(4) =~= le_bytes_u32(high));
    assert(le.skip(2) =~= le_bytes_u32(low).skip(2) + le_bytes_u32(high));
    assert(le.skip(4).skip(2) =~= le_bytes_u32(high).skip(2));
    assert(be.skip(4) =~= be_bytes_u32(low));
    assert(be.skip(2) =~= be_bytes_u32(high).skip(2) + be_bytes_u32(low));
    assert(be.skip(4).skip(2) =~= be_bytes_u32(low).skip(2));
    assert(le_u16(le) == le_u16(le_bytes_u32(low)));
    assert(le_u16(le.skip(2)) == le_u16(le_bytes_u32(low).skip(2)));
    assert(le_u32(le) == low);
    assert(le_u32(le.skip(4)) == high);
    assert(be_u16(be) == be_u16(be_bytes_u32(high)));
    assert(be_u16(be.skip(2)) == be_u16(be_bytes_u32(high).skip(2)));
    assert(be_u32(be) == high);
    assert(be_u32(be.skip(4)) == low);
}

/// The two's complement reading of eight bits.
pub open spec fn signed_8(v: u8) -> i8 {
    if v < 0x80 {
        v as i8
    } else {
        (v - 0x100) as i8
    }
}

/// The two's complement reading of sixteen bits.
pub open spec fn signed_16(v: u16) -> i16 {
    if v < 0x8000 {
        v as i16
    } else {
        (v - 0x1_0000) as i16
    }
}

/// The two's complement reading of thirty-two bits.
pub open spec fn signed_32(v: u32) -> i32 {
    if v < 0x8000_0000 {
        v as i32
    } else {
        (v - 0x1_0000_0000) as i32
    }
}

/// The two's complement reading of sixty-four bits.
pub open spec fn signed_64(v: u64) -> i64 {
    if v < 0x8000_0000_0000_0000 {
        v as i64
    } else {
        (v - 0x1_0000_0000_0000_0000) as i64
    }
}

/// The error type of the netlink crate, carried through unread.
#[verifier::external_type_specification]
#[verifier::external_body]
pub struct ExNetlinkError(netlink_rust::Error);

/// Calls `unpack` of `netlink_rust::NativeUnpack` for `u8`. Trusted: it
/// succeeds exactly when there is a byte to read, and gives the first byte.
#[verifier::external_body]
pub(crate) fn unpack_u8(data: &[u8]) -> (r: Result<u8, netlink_rust::Error>)
    ensures
        r is Ok <==> data@.len() >= 1,
        r is Ok ==> r->Ok_0 == data@[0],
{
    <u8 as netlink_rust::NativeUnpack>::unpack(data)
}

/// Calls `unpack` of `netlink_rust::NativeUnpack` for `i8`. Trusted: it
/// succeeds exactly when there is a byte to read, and gives the first byte
/// as a signed number.
#[verifier::external_body]
pub(crate) fn unpack_i8(data: &[u8]) -> (r: Result<i8, netlink_rust::Error>)
    ensures
        r is Ok <==> data@.len() >= 1,
        r is Ok ==> r->Ok_0 == signed_8(data@[0]),
{
    <i8 as netlink_rust::NativeUnpack>::unpack(data)
}

/// Calls `unpack` of `netlink_rust::NativeUnpack` for `u16`. Trusted: it
/// succeeds exactly when two bytes are there, and reads them in the byte
/// order of the machine.
#[verifier::external_body]
pub(crate) fn unpack_u16(data: &[u8]) -> (r: Result<u16, netlink_rust::Error>)
    ensures
        r is Ok <==> data@.len() >= 2,
        r is Ok ==> r->Ok_0 == native_u16(data@),
{
    <u16 as netlink_rust::NativeUnpack>::unpack(data)
}

/// Calls `unpack` of `netlink_rust::NativeUnpack` for `i16`. Trusted: it
/// succeeds exactly when two bytes are there, and reads them in the byte
/// order of the machine as a signed number.
#[verifier::external_body]
pub(crate) fn unpack_i16(data: &[u8]) -> (r: Result<i16, netlink_rust::Error>)
    ensures
        r is Ok <==> data@.len() >= 2,
        r is Ok ==> r->Ok_0 == signed_16(native_u16(data@)),
{
    <i16 as netlink_rust::NativeUnpack>::unpack(data)
}

/// Calls `unpack` of `netlink_rust::NativeUnpack` for `u32`. Trusted: it
/// succeeds exactly when four bytes are there, and reads them in the byte
/// order of the machine.
#[verifier::external_body]
pub(crate) fn unpack_u32(data: &[u8]) -> (r: Result<u32, netlink_rust::Error>)
    ensures
        r is Ok <==> data@.len() >= 4,
        r is Ok ==> r->Ok_0 == native_u32(data@),
{
    <u32 as netlink_rust::NativeUnpack>::unpack(data)
}

/// Calls `unpack` of `netlink_rust::NativeUnpack` for `i32`. Trusted: it
/// succeeds exactly when four bytes are there, and reads them in the byte
/// order of the machine as a signed number.
#[verifier::external_body]
pub(crate) fn unpack_i32(data: &[u8]) -> (r: Result<i32, netlink_rust::Error>)
    ensures
        r is Ok <==> data@.len() >= 4,
        r is Ok ==> r->Ok_0 == signed_32(native_u32(data@)),
{
    <i32 as netlink_rust::NativeUnpack>::unpack(data)
}

/// Calls `unpack` of `netlink_rust::NativeUnpack` for `u64`. Trusted: it
/// succeeds exactly when eight bytes are there, and reads them in the byte
/// order of the machine.
#[verifier::external_body]
pub(crate) fn unpack_u64(data: &[u8]) -> (r: Result<u64, netlink_rust::Error>)
    ensures
        r is Ok <==> data@.len() >= 8,
        r is Ok ==> r->Ok_0 == native_u64(data@),
{
    <u64 as netlink_rust::NativeUnpack>::unpack(data)
}

/// Calls `unpack` of `netlink_rust::NativeUnpack` for `i64`. Trusted: it
/// succeeds exactly when eight bytes are there, and reads them in the byte
/// order of the machine as a signed number.
#[verifier::external_body]
pub(crate) fn unpack_i64(data: &[u8]) -> (r: Result<i64, netlink_rust::Error>)
    ensures
        r is Ok <==> data@.len() >= 8,
        r is Ok ==> r->Ok_0 == signed_64(native_u64(data@)),
{
    <i64 as netlink_rust::NativeUnpack>::unpack(data)
}

/// Turns the outcome of a read by the netlink crate into one of this
/// library: a failed read is a malformed payload.
pub(crate) fn read_or_malformed<T>(read: Result<T, netlink_rust::Error>) -> (r: Result<T, WirelessError>)
    ensures
        read is Ok ==> r == Ok::<T, WirelessError>(read->Ok_0),
        read is Err ==> r == Err::<T, WirelessError>(WirelessError::Malformed),
{
    match read {
        Ok(value) => Ok(value),
        Err(_) => Err(WirelessError::Malformed),
    }
}

/// Reads the two bytes at `at`, least significant byte first.
pub(crate) fn read_le_u16(data: &[u8], at: usize) -> (r: u16)
    requires
        at + 2 <= data@.len(),
    ensures
        r == le_u16(data@.skip(at as int)),
{
    let low: u16 = data[at] as u16;
    let high: u16 = data[at + 1] as u16;
    low + 256 * high
}

/// Reads the four bytes at `at`, most significant byte first.
pub(crate) fn read_be_u32(data: &[u8], at: usize) -> (r: u32)
    requires
        at + 4 <= data@.len(),
    ensures
        r == be_u32(data@.skip(at as int)),
{
    let b0: u32 = data[at] as u32;
    let b1: u32 = data[at + 1] as u32;
    let b2: u32 = data[at + 2] as u32;
    let b3: u32 = data[at + 3] as u32;
    assert(data@.skip(at as int).skip(2) =~= data@.skip(at + 2));
    0x1_0000 * (256 * b0 + b1) + (256 * b2 + b3)
}

} // verus!
