use vstd::prelude::*;
use vstd::std_specs::convert::FromSpecImpl;
use crate::error::WirelessError;
use crate::native::{be_u32, le_u16, read_be_u32, read_le_u16};

verus! {

/// Identifier of an information element.
#[derive(Clone, Copy, Debug, PartialEq, Eq, Structural)]
pub enum InformationElementId {
    /// Name of the network.
    Ssid,
    /// Security parameters.
    RobustSecurityNetwork,
    ExtendedChannelSwitchAnnouncement,
    HighThroughputOperation,
    VeryHighThroughputOperation,
    /// A code that this table does not list, kept as it came.
    Unknown(u8),
}

impl InformationElementId {
    /// The entry that a code stands for.
    pub open spec fn of_code(code: u8) -> InformationElementId {
        match code {
            0 => InformationElementId::Ssid,
            48 => InformationElementId::RobustSecurityNetwork,
            60 => InformationElementId::ExtendedChannelSwitchAnnouncement,
            61 => InformationElementId::HighThroughputOperation,
            192 => InformationElementId::VeryHighThroughputOperation,
            _ => InformationElementId::Unknown(code),
        }
    }

    /// The code that stands for an entry.
    pub open spec fn code_of(self) -> u8 {
        match self {
            InformationElementId::Ssid => 0,
            InformationElementId::RobustSecurityNetwork => 48,
            InformationElementId::ExtendedChannelSwitchAnnouncement => 60,
            InformationElementId::HighThroughputOperation => 61,
            InformationElementId::VeryHighThroughputOperation => 192,
            InformationElementId::Unknown(code) => code,
        }
    }

    /// No code is lost: the entry made from a code gives that code back.
    pub proof fn lemma_code_round_trip(code: u8)
        ensures
            InformationElementId::of_code(code).code_of() == code,
    {
    }
}

impl From<u8> for InformationElementId {
    fn from(code: u8) -> (r: InformationElementId) {
        match code {
            0 => InformationElementId::Ssid,
            48 => InformationElementId::RobustSecurityNetwork,
            60 => InformationElementId::ExtendedChannelSwitchAnnouncement,
            61 => InformationElementId::HighThroughputOperation,
            192 => InformationElementId::VeryHighThroughputOperation,
            _ => InformationElementId::Unknown(code),
        }
    }
}

impl FromSpecImpl<u8> for InformationElementId {
    open spec fn obeys_from_spec() -> bool {
        true
    }

    open spec fn from_spec(code: u8) -> InformationElementId {
        InformationElementId::of_code(code)
    }
}

impl From<InformationElementId> for u8 {
    fn from(entry: InformationElementId) -> (r: u8) {
        match entry {
            InformationElementId::Ssid => 0,
            InformationElementId::RobustSecurityNetwork => 48,
            InformationElementId::ExtendedChannelSwitchAnnouncement => 60,
            InformationElementId::HighThroughputOperation => 61,
            InformationElementId::VeryHighThroughputOperation => 192,
            InformationElementId::Unknown(code) => code,
        }
    }
}

impl FromSpecImpl<InformationElementId> for u8 {
    open spec fn obeys_from_spec() -> bool {
        true
    }

    open spec fn from_spec(entry: InformationElementId) -> u8 {
        entry.code_of()
    }
}
/// A cipher suite: three octets that name an organisation and one that
/// numbers the suite, read as one number with the first octet on top.
#[derive(Clone, Copy, Debug, PartialEq, Eq, Structural)]
pub enum CipherSuite {
    UseGroupCipherSuite,
    Wep40,
    Tkip,
    Ccmp,
    Wep104,
    BipCmac128,
    GroupAddressedTrafficNotAllowed,
    Gcmp128,
    Gcmp256,
    Ccmp256,
    BipGmac128,
    BipGmac256,
    BipCmac256,
    /// A code that this table does not list, kept as it came.
    Unknown(u32),
}

impl CipherSuite {
    /// The entry that a code stands for.
    pub open spec fn of_code(code: u32) -> CipherSuite {
        match code {
            0x000F_AC00 => CipherSuite::UseGroupCipherSuite,
            0x000F_AC01 => CipherSuite::Wep40,
            0x000F_AC02 => CipherSuite::Tkip,
            0x000F_AC04 => CipherSuite::Ccmp,
            0x000F_AC05 => CipherSuite::Wep104,
            0x000F_AC06 => CipherSuite::BipCmac128,
            0x000F_AC07 => CipherSuite::GroupAddressedTrafficNotAllowed,
            0x000F_AC08 => CipherSuite::Gcmp128,
            0x000F_AC09 => CipherSuite::Gcmp256,
            0x000F_AC0A => CipherSuite::Ccmp256,
            0x000F_AC0B => CipherSuite::BipGmac128,
            0x000F_AC0C => CipherSuite::BipGmac256,
            0x000F_AC0D => CipherSuite::BipCmac256,
            _ => CipherSuite::Unknown(code),
        }
    }

    /// The code that stands for an entry.
    pub open spec fn code_of(self) -> u32 {
        match self {
            CipherSuite::UseGroupCipherSuite => 0x000F_AC00,
            CipherSuite::Wep40 => 0x000F_AC01,
            CipherSuite::Tkip => 0x000F_AC02,
            CipherSuite::Ccmp => 0x000F_AC04,
            CipherSuite::Wep104 => 0x000F_AC05,
            CipherSuite::BipCmac128 => 0x000F_AC06,
            CipherSuite::GroupAddressedTrafficNotAllowed => 0x000F_AC07,
            CipherSuite::Gcmp128 => 0x000F_AC08,
            CipherSuite::Gcmp256 => 0x000F_AC09,
            CipherSuite::Ccmp256 => 0x000F_AC0A,
            CipherSuite::BipGmac128 => 0x000F_AC0B,
            CipherSuite::BipGmac256 => 0x000F_AC0C,
            CipherSuite::BipCmac256 => 0x000F_AC0D,
            CipherSuite::Unknown(code) => code,
        }
    }

    /// No code is lost: the entry made from a code gives that code back.
    pub proof fn lemma_code_round_trip(code: u32)
        ensures
            CipherSuite::of_code(code).code_of() == code,
    {
    }
}

impl From<u32> for CipherSuite {
    fn from(code: u32) -> (r: CipherSuite) {
        match code {
            0x000F_AC00 => CipherSuite::UseGroupCipherSuite,
            0x000F_AC01 => CipherSuite::Wep40,
            0x000F_AC02 => CipherSuite::Tkip,
            0x000F_AC04 => CipherSuite::Ccmp,
            0x000F_AC05 => CipherSuite::Wep104,
            0x000F_AC06 => CipherSuite::BipCmac128,
            0x000F_AC07 => CipherSuite::GroupAddressedTrafficNotAllowed,
            0x000F_AC08 => CipherSuite::Gcmp128,
            0x000F_AC09 => CipherSuite::Gcmp256,
            0x000F_AC0A => CipherSuite::Ccmp256,
            0x000F_AC0B => CipherSuite::BipGmac128,
            0x000F_AC0C => CipherSuite::BipGmac256,
            0x000F_AC0D => CipherSuite::BipCmac256,
            _ => CipherSuite::Unknown(code),
        }
    }
}

impl FromSpecImpl<u32> for CipherSuite {
    open spec fn obeys_from_spec() -> bool {
        true
    }

    open spec fn from_spec(code: u32) -> CipherSuite {
        CipherSuite::of_code(code)
    }
}

impl From<CipherSuite> for u32 {
    fn from(entry: CipherSuite) -> (r: u32) {
        match entry {
            CipherSuite::UseGroupCipherSuite => 0x000F_AC00,
            CipherSuite::Wep40 => 0x000F_AC01,
            CipherSuite::Tkip => 0x000F_AC02,
            CipherSuite::Ccmp => 0x000F_AC04,
            CipherSuite::Wep104 => 0x000F_AC05,
            CipherSuite::BipCmac128 => 0x000F_AC06,
            CipherSuite::GroupAddressedTrafficNotAllowed => 0x000F_AC07,
            CipherSuite::Gcmp128 => 0x000F_AC08,
            CipherSuite::Gcmp256 => 0x000F_AC09,
            CipherSuite::Ccmp256 => 0x000F_AC0A,
            CipherSuite::BipGmac128 => 0x000F_AC0B,
            CipherSuite::BipGmac256 => 0x000F_AC0C,
            CipherSuite::BipCmac256 => 0x000F_AC0D,
            CipherSuite::Unknown(code) => code,
        }
    }
}

impl FromSpecImpl<CipherSuite> for u32 {
    open spec fn obeys_from_spec() -> bool {
        true
    }

    open spec fn from_spec(entry: CipherSuite) -> u32 {
        entry.code_of()
    }
}
/// A suite for authentication and key management, numbered like a cipher suite.
#[derive(Clone, Copy, Debug, PartialEq, Eq, Structural)]
pub enum AuthenticationKeyManagement {
    /// Authentication over IEEE 802.1X.
    PairwiseMasterKeySecurityAssociation,
    PreSharedKey,
    FastTransitionPMKSA,
    FastTransitionPreSharedKey,
    PMKSASha256,
    PreSharedKeySha256,
    TunneledDirectLinkSetup,
    SimultaneousAuthenticationOfEquals,
    FastTransitionSAE,
    /// A code that this table does not list, kept as it came.
    Unknown(u32),
}

impl AuthenticationKeyManagement {
    /// The entry that a code stands for.
    pub open spec fn of_code(code: u32) -> AuthenticationKeyManagement {
        match code {
            0x000F_AC01 => AuthenticationKeyManagement::PairwiseMasterKeySecurityAssociation,
            0x000F_AC02 => AuthenticationKeyManagement::PreSharedKey,
            0x000F_AC03 => AuthenticationKeyManagement::FastTransitionPMKSA,
            0x000F_AC04 => AuthenticationKeyManagement::FastTransitionPreSharedKey,
            0x000F_AC05 => AuthenticationKeyManagement::PMKSASha256,
            0x000F_AC06 => AuthenticationKeyManagement::PreSharedKeySha256,
            0x000F_AC07 => AuthenticationKeyManagement::TunneledDirectLinkSetup,
            0x000F_AC08 => AuthenticationKeyManagement::SimultaneousAuthenticationOfEquals,
            0x000F_AC09 => AuthenticationKeyManagement::FastTransitionSAE,
            _ => AuthenticationKeyManagement::Unknown(code),
        }
    }

    /// The code that stands for an entry.
    pub open spec fn code_of(self) -> u32 {
        match self {
            AuthenticationKeyManagement::PairwiseMasterKeySecurityAssociation => 0x000F_AC01,
            AuthenticationKeyManagement::PreSharedKey => 0x000F_AC02,
            AuthenticationKeyManagement::FastTransitionPMKSA => 0x000F_AC03,
            AuthenticationKeyManagement::FastTransitionPreSharedKey => 0x000F_AC04,
            AuthenticationKeyManagement::PMKSASha256 => 0x000F_AC05,
            AuthenticationKeyManagement::PreSharedKeySha256 => 0x000F_AC06,
            AuthenticationKeyManagement::TunneledDirectLinkSetup => 0x000F_AC07,
            AuthenticationKeyManagement::SimultaneousAuthenticationOfEquals => 0x000F_AC08,
            AuthenticationKeyManagement::FastTransitionSAE => 0x000F_AC09,
            AuthenticationKeyManagement::Unknown(code) => code,
        }
    }

    /// No code is lost: the entry made from a code gives that code back.
    pub proof fn lemma_code_round_trip(code: u32)
        ensures
            AuthenticationKeyManagement::of_code(code).code_of() == code,
    {
    }
}

impl From<u32> for AuthenticationKeyManagement {
    fn from(code: u32) -> (r: AuthenticationKeyManagement) {
        match code {
            0x000F_AC01 => AuthenticationKeyManagement::PairwiseMasterKeySecurityAssociation,
            0x000F_AC02 => AuthenticationKeyManagement::PreSharedKey,
            0x000F_AC03 => AuthenticationKeyManagement::FastTransitionPMKSA,
            0x000F_AC04 => AuthenticationKeyManagement::FastTransitionPreSharedKey,
            0x000F_AC05 => AuthenticationKeyManagement::PMKSASha256,
            0x000F_AC06 => AuthenticationKeyManagement::PreSharedKeySha256,
            0x000F_AC07 => AuthenticationKeyManagement::TunneledDirectLinkSetup,
            0x000F_AC08 => AuthenticationKeyManagement::SimultaneousAuthenticationOfEquals,
            0x000F_AC09 => AuthenticationKeyManagement::FastTransitionSAE,
            _ => AuthenticationKeyManagement::Unknown(code),
        }
    }
}

impl FromSpecImpl<u32> for AuthenticationKeyManagement {
    open spec fn obeys_from_spec() -> bool {
        true
    }

    open spec fn from_spec(code: u32) -> AuthenticationKeyManagement {
        AuthenticationKeyManagement::of_code(code)
    }
}

impl From<AuthenticationKeyManagement> for u32 {
    fn from(entry: AuthenticationKeyManagement) -> (r: u32) {
        match entry {
            AuthenticationKeyManagement::PairwiseMasterKeySecurityAssociation => 0x000F_AC01,
            AuthenticationKeyManagement::PreSharedKey => 0x000F_AC02,
            AuthenticationKeyManagement::FastTransitionPMKSA => 0x000F_AC03,
            AuthenticationKeyManagement::FastTransitionPreSharedKey => 0x000F_AC04,
            AuthenticationKeyManagement::PMKSASha256 => 0x000F_AC05,
            AuthenticationKeyManagement::PreSharedKeySha256 => 0x000F_AC06,
            AuthenticationKeyManagement::TunneledDirectLinkSetup => 0x000F_AC07,
            AuthenticationKeyManagement::SimultaneousAuthenticationOfEquals => 0x000F_AC08,
            AuthenticationKeyManagement::FastTransitionSAE => 0x000F_AC09,
            AuthenticationKeyManagement::Unknown(code) => code,
        }
    }
}

impl FromSpecImpl<AuthenticationKeyManagement> for u32 {
    open spec fn obeys_from_spec() -> bool {
        true
    }

    open spec fn from_spec(entry: AuthenticationKeyManagement) -> u32 {
        entry.code_of()
    }
}
/// How far a network insists on protected management frames.
#[derive(Clone, Copy, Debug, PartialEq, Eq, Structural)]
pub enum ProtectedManagementFramesMode {
    Disabled,
    Capable,
    Required,
}

/// Bit of the security capabilities that tells that protected management
/// frames are required.
pub const PMF_REQUIRED: u16 = 0x0040;

/// Bit of the security capabilities that tells that protected management
/// frames can be used.
pub const PMF_CAPABLE: u16 = 0x0080;

/// The mode that the two capability bits stand for: "required" wins over
/// "capable".
pub open spec fn pmf_mode_of_bits(capable: bool, required: bool) -> ProtectedManagementFramesMode {
    if required {
        ProtectedManagementFramesMode::Required
    } else if capable {
        ProtectedManagementFramesMode::Capable
    } else {
        ProtectedManagementFramesMode::Disabled
    }
}

/// The mode that a capability bitfield stands for.
pub open spec fn pmf_mode_of(capabilities: u16) -> ProtectedManagementFramesMode {
    pmf_mode_of_bits(capabilities & PMF_CAPABLE != 0, capabilities & PMF_REQUIRED != 0)
}

/// One information element: a one byte identifier and the data that its
/// one byte length announces.
#[derive(Clone, Debug, PartialEq, Eq)]
pub struct InformationElement {
    pub identifier: u8,
    pub data: Vec<u8>,
}

impl View for InformationElement {
    type V = (u8, Seq<u8>);

    open spec fn view(&self) -> (u8, Seq<u8>) {
        (self.identifier, self.data@)
    }
}

/// The information elements of one payload, in the order in which they stand.
#[derive(Clone, Debug, PartialEq, Eq)]
pub struct InformationElements {
    pub elements: Vec<InformationElement>,
}

/// The views of a run of elements, in order.
pub open spec fn element_views(elements: Seq<InformationElement>) -> Seq<(u8, Seq<u8>)> {
    elements.map_values(|e: InformationElement| e@)
}

impl View for InformationElements {
    type V = Seq<(u8, Seq<u8>)>;

    open spec fn view(&self) -> Seq<(u8, Seq<u8>)> {
        element_views(self.elements@)
    }
}

/// Whether a whole element stands at the front of `s`: identifier, length,
/// and as many bytes of data as the length announces.
pub open spec fn has_element(s: Seq<u8>) -> bool {
    s.len() >= 2 && 2 + s[1] <= s.len()
}

/// The bytes that the element at the front of `s` takes up.
pub open spec fn element_size(s: Seq<u8>) -> int
    recommends
        s.len() >= 2,
{
    2 + s[1]
}

/// The element at the front of `s`.
pub open spec fn first_element(s: Seq<u8>) -> (u8, Seq<u8>)
    recommends
        has_element(s),
{
    (s[0], s.subrange(2, element_size(s)))
}

/// The elements that `s` holds, in order, up to the first place where no
/// whole element stands.
pub open spec fn elements_of(s: Seq<u8>) -> Seq<(u8, Seq<u8>)>
    decreases s.len(),
{
    if has_element(s) {
        seq![first_element(s)] + elements_of(s.skip(element_size(s)))
    } else {
        Seq::empty()
    }
}

/// The bytes that a run of elements takes up when each is written with
/// identifier and length.
pub open spec fn elements_size(elements: Seq<(u8, Seq<u8>)>) -> int
    decreases elements.len(),
{
    if elements.len() == 0 {
        0
    } else {
        2 + elements[0].1.len() + elements_size(elements.skip(1))
    }
}

/// The elements decoded never take up more than the bytes given, and none
/// holds more data than one length byte can announce.
pub proof fn lemma_elements_within(s: Seq<u8>)
    ensures
        elements_size(elements_of(s)) <= s.len(),
        forall|i: int| 0 <= i < elements_of(s).len() ==> (#[trigger] elements_of(s)[i]).1.len() <= 255,
    decreases s.len(),
{
    if has_element(s) {
        let rest = s.skip(element_size(s));
        lemma_elements_within(rest);
        let all = elements_of(s);
        assert(all.skip(1) =~= elements_of(rest));
        assert forall|i: int| 0 <= i < all.len() implies (#[trigger] all[i]).1.len() <= 255 by {
            if i > 0 {
                assert(all[i] == elements_of(rest)[i - 1]);
            }
        }
    }
}

impl InformationElements {
    /// Decodes every element of `data`, first to last. Decoding stops,
    /// without failing, where fewer than two bytes are left or where an
    /// element announces more data than is left.
    pub fn parse(data: &[u8]) -> (r: InformationElements)
        ensures
            r@ == elements_of(data@),
    {
        let mut pos: usize = 0;
        let mut elements: Vec<InformationElement> = Vec::new();
        assert(data@.skip(0) =~= data@);
        assert(element_views(elements@) =~= Seq::empty());
        loop
            invariant
                pos <= data@.len(),
                elements_of(data@) == element_views(elements@) + elements_of(
                    data@.skip(pos as int),
                ),
            ensures
                element_views(elements@) == elements_of(data@),
            decreases data@.len() - pos,
        {
            let ghost rest = data@.skip(pos as int);
            if data.len() - pos < 2 {
                assert(elements_of(data@) =~= element_views(elements@));
                break ;
            }
            let identifier = data[pos];
            let length: usize = data[pos + 1] as usize;
            if data.len() - pos - 2 < length {
                assert(elements_of(data@) =~= element_views(elements@));
                break ;
            }
            let body = vstd::slice::slice_to_vec(
                vstd::slice::slice_subrange(data, pos + 2, pos + 2 + length),
            );
            let element = InformationElement { identifier, data: body };
            proof {
                let ghost before = elements@;
                assert(has_element(rest));
                assert(element@.1 =~= first_element(rest).1);
                assert(rest.skip(element_size(rest)) =~= data@.skip(pos + 2 + length));
                assert(element_views(before.push(element)) =~= element_views(before).push(
                    element@,
                ));
                assert(element_views(before).push(element@) + elements_of(
                    data@.skip(pos + 2 + length),
                ) =~= element_views(before) + (seq![element@] + elements_of(
                    data@.skip(pos + 2 + length),
                )));
            }
            elements.push(element);
            pos = pos + 2 + length;
        }
        InformationElements { elements }
    }
}

/// The security parameters of a network: the cipher for group traffic, the
/// ciphers offered for pairwise traffic, the ways to authenticate, and the
/// capability bits.
#[derive(Clone, Debug, PartialEq, Eq)]
pub struct RobustSecurityNetwork {
    pub version: u16,
    pub cipher_suite: CipherSuite,
    pub ciphers: Vec<CipherSuite>,
    pub akms: Vec<AuthenticationKeyManagement>,
    pub capabilities: u16,
}

/// What a `RobustSecurityNetwork` holds.
pub struct SecurityParameters {
    pub version: u16,
    pub cipher_suite: CipherSuite,
    pub ciphers: Seq<CipherSuite>,
    pub akms: Seq<AuthenticationKeyManagement>,
    pub capabilities: u16,
}

impl View for RobustSecurityNetwork {
    type V = SecurityParameters;

    open spec fn view(&self) -> SecurityParameters {
        SecurityParameters {
            version: self.version,
            cipher_suite: self.cipher_suite,
            ciphers: self.ciphers@,
            akms: self.akms@,
            capabilities: self.capabilities,
        }
    }
}

/// The `count` cipher suites that stand in `s` from `start` on, four bytes each.
pub open spec fn ciphers_at(s: Seq<u8>, start: int, count: int) -> Seq<CipherSuite> {
    Seq::new(count as nat, |i: int| CipherSuite::of_code(be_u32(s.skip(start + 4 * i))))
}

/// The `count` authentication suites that stand in `s` from `start` on, four bytes each.
pub open spec fn akms_at(s: Seq<u8>, start: int, count: int) -> Seq<AuthenticationKeyManagement> {
    Seq::new(
        count as nat,
        |i: int| AuthenticationKeyManagement::of_code(be_u32(s.skip(start + 4 * i))),
    )
}

/// Number of pairwise ciphers that `s` announces.
pub open spec fn cipher_count(s: Seq<u8>) -> int
    recommends
        s.len() >= 8,
{
    le_u16(s.skip(6)) as int
}

/// Where the count of authentication suites stands in `s`.
pub open spec fn akm_count_offset(s: Seq<u8>) -> int
    recommends
        s.len() >= 8,
{
    8 + 4 * cipher_count(s)
}

/// Number of authentication suites that `s` announces.
pub open spec fn akm_count(s: Seq<u8>) -> int
    recommends
        s.len() >= akm_count_offset(s) + 2,
{
    le_u16(s.skip(akm_count_offset(s))) as int
}

/// Where the capability bits stand in `s`.
pub open spec fn capabilities_offset(s: Seq<u8>) -> int
    recommends
        s.len() >= akm_count_offset(s) + 2,
{
    akm_count_offset(s) + 2 + 4 * akm_count(s)
}

/// Whether `s` holds all that its counts announce: version, group cipher,
/// the pairwise ciphers, the authentication suites and the capability bits.
pub open spec fn security_parameters_fit(s: Seq<u8>) -> bool {
    &&& s.len() >= 8
    &&& s.len() >= akm_count_offset(s) + 2
    &&& s.len() >= capabilities_offset(s) + 2
}

/// The security parameters that `s` holds. Bytes after the capability bits
/// are not read.
pub open spec fn security_parameters_of(s: Seq<u8>) -> SecurityParameters
    recommends
        security_parameters_fit(s),
{
    SecurityParameters {
        version: le_u16(s),
        cipher_suite: CipherSuite::of_code(be_u32(s.skip(2))),
        ciphers: ciphers_at(s, 8, cipher_count(s)),
        akms: akms_at(s, akm_count_offset(s) + 2, akm_count(s)),
        capabilities: le_u16(s.skip(capabilities_offset(s))),
    }
}

impl RobustSecurityNetwork {
    /// Decodes the data of a security element. Fails with `Malformed` where
    /// the data ends before a field that the layout or a count announces.
    pub fn from_bytes(data: &[u8]) -> (r: Result<RobustSecurityNetwork, WirelessError>)
        ensures
            security_parameters_fit(data@) ==> r is Ok && r->Ok_0@ == security_parameters_of(data@),
            !security_parameters_fit(data@) ==> r == Err::<RobustSecurityNetwork, WirelessError>(
                WirelessError::Malformed,
            ),
    {
        if data.len() < 8 {
            return Err(WirelessError::Malformed);
        }
        assert(data@.skip(0) =~= data@);
        let version = read_le_u16(data, 0);
        let cipher_suite = CipherSuite::from(read_be_u32(data, 2));
        let count: usize = read_le_u16(data, 6) as usize;
        if data.len() - 8 < 4 * count + 2 {
            return Err(WirelessError::Malformed);
        }
        let mut ciphers: Vec<CipherSuite> = Vec::new();
        let mut i: usize = 0;
        while i < count
            invariant
                i <= count,
                count == cipher_count(data@),
                8 + 4 * count + 2 <= data@.len(),
                ciphers@ =~= ciphers_at(data@, 8, i as int),
            decreases count - i,
        {
            ciphers.push(CipherSuite::from(read_be_u32(data, 8 + 4 * i)));
            i = i + 1;
        }
        let at: usize = 8 + 4 * count;
        let akm_total: usize = read_le_u16(data, at) as usize;
        if data.len() - at - 2 < 4 * akm_total + 2 {
            return Err(WirelessError::Malformed);
        }
        let mut akms: Vec<AuthenticationKeyManagement> = Vec::new();
        let mut j: usize = 0;
        while j < akm_total
            invariant
                j <= akm_total,
                at == akm_count_offset(data@),
                akm_total == akm_count(data@),
                at + 2 + 4 * akm_total + 2 <= data@.len(),
                akms@ =~= akms_at(data@, at + 2, j as int),
            decreases akm_total - j,
        {
            akms.push(AuthenticationKeyManagement::from(read_be_u32(data, at + 2 + 4 * j)));
            j = j + 1;
        }
        let capabilities = read_le_u16(data, at + 2 + 4 * akm_total);
        Ok(RobustSecurityNetwork { version, cipher_suite, ciphers, akms, capabilities })
    }

    /// How far the network insists on protected management frames.
    pub fn pmf_mode(&self) -> (r: ProtectedManagementFramesMode)
        ensures
            r == pmf_mode_of(self.capabilities),
    {
        if self.capabilities & PMF_REQUIRED != 0 {
            ProtectedManagementFramesMode::Required
        } else if self.capabilities & PMF_CAPABLE != 0 {
            ProtectedManagementFramesMode::Capable
        } else {
            ProtectedManagementFramesMode::Disabled
        }
    }
}

} // verus!
