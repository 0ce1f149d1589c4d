//! Credentials and identifiers of wireless networks.

use vstd::prelude::*;
use vstd::slice::{slice_subrange, slice_to_vec};
use vstd::utf8::{decode_utf8, valid_utf8};

use crate::error::ErrorCode;
use crate::digits::{append_padded_lower_hex, hex_width, lower_hex};
use crate::private::Sealed;
use crate::text::{string64_chars, string64_clone, string64_try_from, utf8_text};

verus! {

/// The longest SSID, in bytes.
pub const MAX_SSID_LEN: usize = 32;

/// The longest Wifi password, in bytes.
pub const MAX_PASSWORD_LEN: usize = 64;

/// The longest Extended PAN ID, in bytes.
pub const MAX_EXT_PAN_ID_LEN: usize = 8;

/// The longest Thread operational dataset, in bytes.
pub const MAX_OP_DATASET_LEN: usize = 256;

/// The type of the Extended PAN ID entry of a Thread operational dataset.
pub const EXT_PAN_ID: u8 = 2;

/// The length byte that announces a long value.
pub const LONG_VALUE_ID: u8 = 255;

/// The number of bytes that precede the value of the entry at the start of `bytes`.
pub open spec fn tlv_header_len(bytes: Seq<u8>) -> int {
    if bytes[1] == LONG_VALUE_ID {
        5
    } else {
        2
    }
}

/// The length of the value of the entry at the start of `bytes`: either the second byte or,
/// when that one announces a long value, the three bytes that follow it in big-endian order.
pub open spec fn tlv_value_len(bytes: Seq<u8>) -> int {
    if bytes[1] == LONG_VALUE_ID {
        bytes[2] * 0x10000 + bytes[3] * 0x100 + bytes[4]
    } else {
        bytes[1] as int
    }
}

/// Whether `bytes` starts with a complete entry.
pub open spec fn tlv_available(bytes: Seq<u8>) -> bool {
    &&& bytes.len() >= 2
    &&& bytes.len() >= tlv_header_len(bytes)
    &&& bytes.len() >= tlv_header_len(bytes) + tlv_value_len(bytes)
}

/// The type and the value of the entry at the start of `bytes`.
pub open spec fn tlv_first(bytes: Seq<u8>) -> (u8, Seq<u8>) {
    let start = tlv_header_len(bytes);
    (bytes[0], bytes.subrange(start, start + tlv_value_len(bytes)))
}

/// What follows the entry at the start of `bytes`.
pub open spec fn tlv_rest(bytes: Seq<u8>) -> Seq<u8> {
    bytes.skip(tlv_header_len(bytes) + tlv_value_len(bytes))
}

/// All entries up to the end of `bytes`, or up to the first incomplete one.
pub open spec fn tlvs(bytes: Seq<u8>) -> Seq<(u8, Seq<u8>)>
    decreases bytes.len(),
{
    if tlv_available(bytes) {
        seq![tlv_first(bytes)] + tlvs(tlv_rest(bytes))
    } else {
        Seq::empty()
    }
}

/// The shortest encoding of an entry.
pub open spec fn tlv_encode(tlv_type: u8, value: Seq<u8>) -> Seq<u8> {
    if value.len() < LONG_VALUE_ID {
        seq![tlv_type, value.len() as u8] + value
    } else {
        seq![
            tlv_type,
            LONG_VALUE_ID,
            (value.len() / 0x10000) as u8,
            (value.len() / 0x100 % 0x100) as u8,
            (value.len() % 0x100) as u8,
        ] + value
    }
}

/// Reading is the inverse of encoding: an encoded entry is read back with its type and its
/// value, and what follows it is left for the next read.
pub proof fn lemma_tlv_read_encoded(tlv_type: u8, value: Seq<u8>, rest: Seq<u8>)
    requires
        value.len() < 0x1000000,
    ensures
        tlv_available(tlv_encode(tlv_type, value) + rest),
        tlv_first(tlv_encode(tlv_type, value) + rest) == (tlv_type, value),
        tlv_rest(tlv_encode(tlv_type, value) + rest) == rest,
        tlvs(tlv_encode(tlv_type, value) + rest) == seq![(tlv_type, value)] + tlvs(rest),
{
    let bytes = tlv_encode(tlv_type, value) + rest;
    let n = value.len() as int;
    assert(n / 0x10000 * 0x10000 + n / 0x100 % 0x100 * 0x100 + n % 0x100 == n);
    assert(tlv_value_len(bytes) == n);
    assert(tlv_first(bytes).1 =~= value);
    assert(tlv_rest(bytes) =~= rest);
}

/// Every read entry takes at least two bytes, so that reading always comes to an end.
pub proof fn lemma_tlv_read_shrinks(bytes: Seq<u8>)
    requires
        tlv_available(bytes),
    ensures
        tlv_rest(bytes).len() + 2 <= bytes.len(),
        tlv_rest(bytes).len() + tlv_header_len(bytes) + tlv_first(bytes).1.len() == bytes.len(),
{
}

/// A simple Thread TLV reader
pub struct ThreadTlvRead<'a>(&'a [u8]);

impl<'a> View for ThreadTlvRead<'a> {
    type V = Seq<u8>;

    closed spec fn view(&self) -> Seq<u8> {
        self.0@
    }
}

impl<'a> ThreadTlvRead<'a> {
    /// Create a new `ThreadTlvRead` instance with the given TLV data
    pub fn new(tlv: &'a [u8]) -> (res: Self)
        ensures
            res@ == tlv@,
    {
        Self(tlv)
    }

    /// Get the next TLV from the data
    ///
    /// Returns `Some` with the TLV type and value if there is a TLV available,
    /// otherwise returns `None`.
    pub fn next_tlv(&mut self) -> (res: Option<(u8, &'a [u8])>)
        ensures
            res is Some <==> tlv_available(old(self)@),
            res matches Some((tlv_type, tlv_value)) ==> {
                &&& (tlv_type, tlv_value@) == tlv_first(old(self)@)
                &&& final(self)@ == tlv_rest(old(self)@)
            },
            res is None ==> final(self)@ == old(self)@,
    {
        let slice: &'a [u8] = self.0;

        if slice.len() < 2 {
            return None;
        }
        let tlv_type: u8 = slice[0];

        let header_len: usize = if slice[1] == LONG_VALUE_ID {
            5
        } else {
            2
        };

        if slice.len() < header_len {
            return None;
        }
        let tlv_len: usize = if header_len == 2 {
            slice[1] as usize
        } else {
            slice[2] as usize * 0x10000 + slice[3] as usize * 0x100 + slice[4] as usize
        };

        if slice.len() - header_len < tlv_len {
            return None;
        }
        let tlv_end: usize = header_len + tlv_len;
        let tlv_value: &'a [u8] = slice_subrange(slice, header_len, tlv_end);
        self.0 = slice_subrange(slice, tlv_end, slice.len());

        Some((tlv_type, tlv_value))
    }
}

/// The identifier of a wireless network: an SSID for Wifi, an Extended PAN ID for Thread.
///
/// An identifier is nothing more than its bytes, which are its view.
pub trait NetworkId: Sealed + View<V = Seq<u8>> + Sized {
    /// Why `bytes` are no identifier, if they are none.
    spec fn refusal(bytes: Seq<u8>) -> Option<ErrorCode>;

    /// The identifier with the given bytes.
    fn try_from(bytes: &[u8]) -> (res: Result<Self, ErrorCode>)
        ensures
            match Self::refusal(bytes@) {
                Some(code) => res == Err::<Self, ErrorCode>(code),
                None => res is Ok && res->Ok_0@ == bytes@,
            },
    ;

    /// The bytes of the identifier.
    fn as_ref(&self) -> (bytes: &[u8])
        ensures
            bytes@ == self@,
            Self::refusal(bytes@) is None,
    ;

    /// A copy of the identifier.
    fn duplicate(&self) -> (res: Self)
        ensures
            res@ == self@,
    ;
}

/// A request to add a Wifi network, or to update the one with the same SSID.
#[derive(Debug)]
pub struct AddWifiNetworkRequest {
    pub ssid: Vec<u8>,
    pub credentials: Vec<u8>,
}

/// A request to add a Thread network, or to update the one with the same Extended PAN ID.
#[derive(Debug)]
pub struct AddThreadNetworkRequest {
    pub op_dataset: Vec<u8>,
}

/// A trait representing the credentials of a wireless network (Wifi or Thread).
///
/// The trait is sealed: Wifi networks implement it, with SSIDs that are bytes or text, and Thread
/// networks do.
pub trait NetworkCredentials: Sealed + View + Sized {
    /// The ID of the network (SSID for Wifi and Extended PAN ID for Thread)
    type NetworkId: NetworkId;

    /// The bytes of the ID of the network with the given credentials.
    spec fn id_of(creds: Self::V) -> Seq<u8>;

    /// What a request to add a Wifi network asks for.
    spec fn of_wifi(ssid: Seq<u8>, credentials: Seq<u8>) -> Result<Self::V, ErrorCode>;

    /// What a request to add a Thread network asks for.
    spec fn of_thread(op_dataset: Seq<u8>) -> Result<Self::V, ErrorCode>;

    /// Return the network ID
    fn network_id(&self) -> (id: Self::NetworkId)
        ensures
            id@ == Self::id_of(self@),
    ;

    /// A copy of the credentials.
    fn duplicate(&self) -> (res: Self)
        ensures
            res@ == self@,
    ;

    /// The credentials in a request to add a Wifi network.
    fn try_from_wifi(req: &AddWifiNetworkRequest) -> (res: Result<Self, ErrorCode>)
        ensures
            match Self::of_wifi(req.ssid@, req.credentials@) {
                Ok(creds) => res is Ok && res->Ok_0@ == creds,
                Err(code) => res == Err::<Self, ErrorCode>(code),
            },
    ;

    /// The credentials in a request to add a Thread network.
    fn try_from_thread(req: &AddThreadNetworkRequest) -> (res: Result<Self, ErrorCode>)
        ensures
            match Self::of_thread(req.op_dataset@) {
                Ok(creds) => res is Ok && res->Ok_0@ == creds,
                Err(code) => res == Err::<Self, ErrorCode>(code),
            },
    ;
}

/// The text that shows an SSID to a user.
pub open spec fn ssid_shown(bytes: Seq<u8>) -> Seq<char> {
    if valid_utf8(bytes) {
        "SSID::"@ + decode_utf8(bytes)
    } else {
        "SSID::"@ + "???"@
    }
}

/// Concrete Network ID type for Wifi networks
#[derive(Debug)]
pub struct WifiSsid {
    octets: Vec<u8>,
}

impl View for WifiSsid {
    type V = Seq<u8>;

    closed spec fn view(&self) -> Seq<u8> {
        self.octets@
    }
}

impl Sealed for WifiSsid {

}

impl WifiSsid {
    #[verifier::type_invariant]
    closed spec fn fits(self) -> bool {
        self.octets@.len() <= MAX_SSID_LEN
    }

    /// The text that shows the SSID to a user.
    pub fn text(&self) -> (text: String)
        ensures
            text@ == "SSID::"@ + (if valid_utf8(self@) {
                decode_utf8(self@)
            } else {
                "???"@
            }),
            text@ == ssid_shown(self@),
    {
        let mut text = "SSID::".to_owned();
        match utf8_text(self.octets.as_slice()) {
            Some(ssid) => text.append(ssid),
            None => text.append("???"),
        }
        text
    }
}

impl NetworkId for WifiSsid {
    open spec fn refusal(bytes: Seq<u8>) -> Option<ErrorCode> {
        if bytes.len() > MAX_SSID_LEN {
            Some(ErrorCode::NoSpace)
        } else {
            None
        }
    }

    fn try_from(bytes: &[u8]) -> (res: Result<Self, ErrorCode>) {
        if bytes.len() > MAX_SSID_LEN {
            return Err(ErrorCode::NoSpace);
        }
        Ok(Self { octets: slice_to_vec(bytes) })
    }

    fn as_ref(&self) -> (bytes: &[u8]) {
        proof {
            use_type_invariant(self);
        }
        self.octets.as_slice()
    }

    fn duplicate(&self) -> (res: Self) {
        proof {
            use_type_invariant(self);
        }
        Self { octets: slice_to_vec(self.octets.as_slice()) }
    }
}

/// The contents of `WifiCredentials`.
pub struct WifiCredentialsView {
    pub ssid: Seq<u8>,
    pub password: Seq<char>,
}

/// A struct implementing the `NetworkCredentials` trait for Wifi networks.
#[derive(Debug)]
pub struct WifiCredentials {
    pub ssid: WifiSsid,
    pub password: heapless::String<64>,
}

impl View for WifiCredentials {
    type V = WifiCredentialsView;

    open spec fn view(&self) -> WifiCredentialsView {
        WifiCredentialsView { ssid: self.ssid@, password: string64_chars(self.password) }
    }
}

impl Sealed for WifiCredentials {

}

impl NetworkCredentials for WifiCredentials {
    type NetworkId = WifiSsid;

    open spec fn id_of(creds: WifiCredentialsView) -> Seq<u8> {
        creds.ssid
    }

    open spec fn of_wifi(ssid: Seq<u8>, credentials: Seq<u8>) -> Result<
        WifiCredentialsView,
        ErrorCode,
    > {
        if ssid.len() > MAX_SSID_LEN {
            Err(ErrorCode::NoSpace)
        } else if !valid_utf8(credentials) || credentials.len() > MAX_PASSWORD_LEN {
            Err(ErrorCode::InvalidData)
        } else {
            Ok(WifiCredentialsView { ssid, password: decode_utf8(credentials) })
        }
    }

    open spec fn of_thread(op_dataset: Seq<u8>) -> Result<WifiCredentialsView, ErrorCode> {
        Err(ErrorCode::InvalidCommand)
    }

    fn network_id(&self) -> (id: WifiSsid) {
        self.ssid.duplicate()
    }

    fn duplicate(&self) -> (res: Self) {
        Self { ssid: self.ssid.duplicate(), password: string64_clone(&self.password) }
    }

    fn try_from_wifi(req: &AddWifiNetworkRequest) -> (res: Result<Self, ErrorCode>) {
        let ssid = match <WifiSsid as NetworkId>::try_from(req.ssid.as_slice()) {
            Ok(ssid) => ssid,
            Err(code) => return Err(code),
        };
        match utf8_text(req.credentials.as_slice()) {
            Some(password) => {
                proof {
                    vstd::utf8::decode_utf8_encode_utf8(req.credentials@);
                }
                match string64_try_from(password) {
                    Ok(password) => Ok(Self { ssid, password }),
                    Err(_) => Err(ErrorCode::InvalidData),
                }
            },
            None => Err(ErrorCode::InvalidData),
        }
    }

    fn try_from_thread(_req: &AddThreadNetworkRequest) -> (res: Result<Self, ErrorCode>) {
        Err(ErrorCode::InvalidCommand)
    }
}

/// The number that eight bytes stand for in big-endian order.
pub open spec fn be_value(bytes: Seq<u8>) -> int
    decreases bytes.len(),
{
    if bytes.len() == 0 {
        0
    } else {
        be_value(bytes.drop_last()) * 0x100 + bytes.last()
    }
}

/// The value of the first entry of the given type.
pub open spec fn find_tlv(entries: Seq<(u8, Seq<u8>)>, tlv_type: u8) -> Option<Seq<u8>>
    decreases entries.len(),
{
    if entries.len() == 0 {
        None
    } else if entries[0].0 == tlv_type {
        Some(entries[0].1)
    } else {
        find_tlv(entries.skip(1), tlv_type)
    }
}

/// An entry is found exactly when there is one of its type, and no earlier one has that type.
pub proof fn lemma_find_tlv(entries: Seq<(u8, Seq<u8>)>, tlv_type: u8)
    ensures
        match find_tlv(entries, tlv_type) {
            Some(value) => exists|i: int|
                {
                    &&& 0 <= i < entries.len()
                    &&& #[trigger] entries[i] == (tlv_type, value)
                    &&& forall|j: int| 0 <= j < i ==> (#[trigger] entries[j]).0 != tlv_type
                },
            None => forall|j: int|
                0 <= j < entries.len() ==> (#[trigger] entries[j]).0 != tlv_type,
        },
    decreases entries.len(),
{
    if entries.len() > 0 && entries[0].0 != tlv_type {
        let rest = entries.skip(1);
        lemma_find_tlv(rest, tlv_type);
        match find_tlv(rest, tlv_type) {
            Some(value) => {
                let i = choose|i: int|
                    {
                        &&& 0 <= i < rest.len()
                        &&& #[trigger] rest[i] == (tlv_type, value)
                        &&& forall|j: int| 0 <= j < i ==> (#[trigger] rest[j]).0 != tlv_type
                    };
                assert(entries[i + 1] == (tlv_type, value));
                assert forall|j: int| 0 <= j < i + 1 implies (
                #[trigger] entries[j]).0 != tlv_type by {
                    if j > 0 {
                        assert(rest[j - 1] == entries[j]);
                    }
                }
            },
            None => {
                assert forall|j: int| 0 <= j < entries.len() implies (
                #[trigger] entries[j]).0 != tlv_type by {
                    if j > 0 {
                        assert(rest[j - 1] == entries[j]);
                    }
                }
            },
        }
    } else if entries.len() > 0 {
        assert(entries[0] == (tlv_type, entries[0].1));
    }
}

/// The text that shows a complete Extended PAN ID to a user.
pub open spec fn ext_pan_id_text(bytes: Seq<u8>) -> Seq<char> {
    let width = hex_width(be_value(bytes));
    "EPAN ID::0x"@ + lower_hex(be_value(bytes), if width < 8 { 8 } else { width })
}

/// Concrete Network ID type for Thread networks
#[derive(Debug)]
pub struct ThreadId {
    octets: Vec<u8>,
}

impl View for ThreadId {
    type V = Seq<u8>;

    closed spec fn view(&self) -> Seq<u8> {
        self.octets@
    }
}

impl Sealed for ThreadId {

}

impl ThreadId {
    #[verifier::type_invariant]
    closed spec fn fits(self) -> bool {
        self.octets@.len() <= MAX_EXT_PAN_ID_LEN
    }

    /// The identifier without any bytes.
    fn empty() -> (res: Self)
        ensures
            res@ == Seq::<u8>::empty(),
    {
        Self { octets: Vec::new() }
    }

    /// The text that shows a complete Extended PAN ID to a user.
    pub fn text(&self) -> (text: String)
        requires
            self@.len() == MAX_EXT_PAN_ID_LEN,
        ensures
            text@ == "EPAN ID::0x"@ + lower_hex(
                be_value(self@),
                if hex_width(be_value(self@)) < 8 { 8 } else { hex_width(be_value(self@)) },
            ),
            text@ == ext_pan_id_text(self@),
    {
        let mut value: u64 = 0;
        let mut i: usize = 0;
        while i < 8
            invariant
                self@.len() == 8,
                i <= 8,
                value == be_value(self@.take(i as int)),
                i == 0 ==> value == 0,
                i == 1 ==> value <= 0xff,
                i == 2 ==> value <= 0xffff,
                i == 3 ==> value <= 0xff_ffff,
                i == 4 ==> value <= 0xffff_ffff,
                i == 5 ==> value <= 0xff_ffff_ffff,
                i == 6 ==> value <= 0xffff_ffff_ffff,
                i == 7 ==> value <= 0xff_ffff_ffff_ffff,
            decreases 8 - i,
        {
            assert(self@.take(i + 1).drop_last() =~= self@.take(i as int));
            value = value * 0x100 + self.octets[i] as u64;
            i = i + 1;
        }
        assert(self@.take(8) =~= self@);
        let mut text = "EPAN ID::0x".to_owned();
        append_padded_lower_hex(&mut text, value, 8);
        text
    }
}

impl NetworkId for ThreadId {
    open spec fn refusal(bytes: Seq<u8>) -> Option<ErrorCode> {
        if bytes.len() > MAX_EXT_PAN_ID_LEN {
            Some(ErrorCode::InvalidData)
        } else {
            None
        }
    }

    fn try_from(bytes: &[u8]) -> (res: Result<Self, ErrorCode>) {
        if bytes.len() > MAX_EXT_PAN_ID_LEN {
            return Err(ErrorCode::InvalidData);
        }
        Ok(Self { octets: slice_to_vec(bytes) })
    }

    fn as_ref(&self) -> (bytes: &[u8]) {
        proof {
            use_type_invariant(self);
        }
        self.octets.as_slice()
    }

    fn duplicate(&self) -> (res: Self) {
        proof {
            use_type_invariant(self);
        }
        Self { octets: slice_to_vec(self.octets.as_slice()) }
    }
}

/// A struct implementing the `NetworkCredentials` trait for Thread networks.
///
/// Its view is the operational dataset.
#[derive(Debug)]
pub struct ThreadCredentials {
    op_dataset: Vec<u8>,
}

impl View for ThreadCredentials {
    type V = Seq<u8>;

    closed spec fn view(&self) -> Seq<u8> {
        self.op_dataset@
    }
}

impl Sealed for ThreadCredentials {

}

/// The Extended PAN ID in an operational dataset: empty when the dataset has none.
pub open spec fn dataset_ext_pan_id(op_dataset: Seq<u8>) -> Result<Seq<u8>, ErrorCode> {
    match find_tlv(tlvs(op_dataset), EXT_PAN_ID) {
        Some(value) => match ThreadId::refusal(value) {
            Some(code) => Err(code),
            None => Ok(value),
        },
        None => Ok(Seq::empty()),
    }
}

impl ThreadCredentials {
    #[verifier::type_invariant]
    closed spec fn fits(self) -> bool {
        self.op_dataset@.len() <= MAX_OP_DATASET_LEN
    }

    /// The operational dataset.
    pub fn op_dataset(&self) -> (bytes: &[u8])
        ensures
            bytes@ == self@,
            bytes@.len() <= MAX_OP_DATASET_LEN,
    {
        proof {
            use_type_invariant(self);
        }
        self.op_dataset.as_slice()
    }

    /// Get the Extended PAN ID from the operational dataset
    pub fn ext_pan_id(&self) -> (res: Result<ThreadId, ErrorCode>)
        ensures
            match dataset_ext_pan_id(self@) {
                Ok(id) => res is Ok && res->Ok_0@ == id,
                Err(code) => res == Err::<ThreadId, ErrorCode>(code),
            },
    {
        let mut reader = ThreadTlvRead::new(self.op_dataset.as_slice());
        loop
            invariant
                find_tlv(tlvs(self@), EXT_PAN_ID) == find_tlv(tlvs(reader@), EXT_PAN_ID),
            decreases reader@.len(),
        {
            proof {
                if tlv_available(reader@) {
                    let entries = tlvs(reader@);
                    assert(entries[0] == tlv_first(reader@));
                    assert(entries.skip(1) =~= tlvs(tlv_rest(reader@)));
                    lemma_tlv_read_shrinks(reader@);
                }
            }
            match reader.next_tlv() {
                Some((tlv_type, tlv_value)) => {
                    if tlv_type == EXT_PAN_ID {
                        return <ThreadId as NetworkId>::try_from(tlv_value);
                    }
                },
                None => return Ok(ThreadId::empty()),
            }
        }
    }
}

impl NetworkCredentials for ThreadCredentials {
    type NetworkId = ThreadId;

    open spec fn id_of(creds: Seq<u8>) -> Seq<u8> {
        match dataset_ext_pan_id(creds) {
            Ok(id) => id,
            Err(_) => Seq::empty(),
        }
    }

    open spec fn of_wifi(ssid: Seq<u8>, credentials: Seq<u8>) -> Result<Seq<u8>, ErrorCode> {
        Err(ErrorCode::InvalidCommand)
    }

    open spec fn of_thread(op_dataset: Seq<u8>) -> Result<Seq<u8>, ErrorCode> {
        if op_dataset.len() > MAX_OP_DATASET_LEN {
            Err(ErrorCode::NoSpace)
        } else {
            Ok(op_dataset)
        }
    }

    fn network_id(&self) -> (id: ThreadId) {
        match self.ext_pan_id() {
            Ok(id) => id,
            Err(_) => ThreadId::empty(),
        }
    }

    fn duplicate(&self) -> (res: Self) {
        proof {
            use_type_invariant(self);
        }
        Self { op_dataset: slice_to_vec(self.op_dataset.as_slice()) }
    }

    fn try_from_wifi(_req: &AddWifiNetworkRequest) -> (res: Result<Self, ErrorCode>) {
        Err(ErrorCode::InvalidCommand)
    }

    fn try_from_thread(req: &AddThreadNetworkRequest) -> (res: Result<Self, ErrorCode>) {
        if req.op_dataset.len() > MAX_OP_DATASET_LEN {
            return Err(ErrorCode::NoSpace);
        }
        Ok(Self { op_dataset: slice_to_vec(req.op_dataset.as_slice()) })
    }
}

/// The security modes that a Wifi network offers.
#[derive(Debug, Clone, Copy, PartialEq, Eq, Structural)]
pub struct WiFiSecurity {
    pub unencrypted: bool,
    pub wep: bool,
    pub wpa_personal: bool,
    pub wpa2_personal: bool,
    pub wpa3_personal: bool,
}

/// The frequency band of a Wifi network.
#[derive(Debug, Clone, Copy, PartialEq, Eq, Structural)]
pub enum WifiBand {
    B2G4,
    B3G65,
    B5G,
    B6G,
    B60G,
}

/// A Wifi network that a scan has found.
#[derive(Debug)]
pub struct WifiScanResult {
    pub security: WiFiSecurity,
    pub ssid: WifiSsid,
    pub bssid: [u8; 6],
    pub channel: u16,
    pub band: Option<WifiBand>,
    pub rssi: Option<i8>,
}

/// A Thread network that a scan has found.
#[derive(Debug)]
pub struct ThreadScanResult {
    pub pan_id: u16,
    pub extended_pan_id: u64,
    pub network_name: heapless::String<32>,
    pub channel: u16,
    pub version: u8,
    pub extended_address: heapless::Vec<u8, 16>,
    pub rssi: i8,
    pub lqi: u8,
}

/// The statistics of a Wifi interface.
#[derive(Debug, Clone, Copy, PartialEq, Eq)]
pub struct WifiNwDiagData {
    pub bssid: [u8; 6],
    pub security_type: u8,
    pub wifi_version: u8,
    pub channel_number: u16,
    pub rssi: i8,
}

impl WifiNwDiagData {
    /// The statistics that are shown as long as there are no actual ones: no access point, an
    /// unspecified security type, 802.11b and channel 20.
    pub fn placeholder() -> (res: Self)
        ensures
            res.bssid@ == seq![0u8, 0, 0, 0, 0, 0],
            res.security_type == 0,
            res.wifi_version == 1,
            res.channel_number == 20,
            res.rssi == 0,
    {
        let bssid: [u8; 6] = [0, 0, 0, 0, 0, 0];
        assert(bssid@ =~= seq![0u8, 0, 0, 0, 0, 0]);
        Self { bssid, security_type: 0, wifi_version: 1, channel_number: 20, rssi: 0 }
    }
}

/// A trait representing all DTOs required for wireless network commissioning and operation.
///
/// The trait is sealed and is implemented by `WifiData` and `ThreadData`, and by `WifiTextData` for
/// Wifi networks whose SSIDs are text.
pub trait WirelessData: Sealed {
    /// The type of the network credentials (e.g. WifiCredentials or ThreadCredentials)
    type NetworkCredentials: NetworkCredentials;

    /// The type of the scan result (e.g. WifiScanResult or ThreadScanResult)
    type ScanResult;

    /// The type of the statistics (they are different for Wifi vs Thread)
    type Stats;

    /// Whether this wireless data is for Wifi networks (`true`) or Thread networks (`false`)
    const WIFI: bool;

    /// The statistics of an interface that is not in use.
    spec fn no_stats() -> Self::Stats;

    /// The statistics of an interface that is not in use.
    fn default_stats() -> (res: Self::Stats)
        ensures
            res == Self::no_stats(),
    ;
}

/// A struct implementing the `WirelessData` trait for Wifi networks.
#[derive(Debug)]
pub struct WifiData;

impl Sealed for WifiData {

}

impl WirelessData for WifiData {
    type NetworkCredentials = WifiCredentials;

    type ScanResult = WifiScanResult;

    type Stats = Option<WifiNwDiagData>;

    const WIFI: bool = true;

    open spec fn no_stats() -> Option<WifiNwDiagData> {
        None
    }

    fn default_stats() -> (res: Option<WifiNwDiagData>) {
        None
    }
}

/// A struct implementing the `WirelessData` trait for Thread networks.
#[derive(Debug)]
pub struct ThreadData;

impl Sealed for ThreadData {

}

impl WirelessData for ThreadData {
    type NetworkCredentials = ThreadCredentials;

    type ScanResult = ThreadScanResult;

    type Stats = ();

    const WIFI: bool = false;

    open spec fn no_stats() -> () {
        ()
    }

    fn default_stats() -> (res: ()) {
        ()
    }
}

/// A trait representing a wireless configuration, i.e. what data (Wifi or Thread).
///
/// The trait is sealed and has only two implementations: `Wifi` and `Thread`.
pub trait WirelessConfig: Sealed {
    /// The type of the wireless data (WifiData or ThreadData)
    type Data: WirelessData;
}

/// A struct representing a Wifi wireless configuration
#[derive(Debug)]
pub struct Wifi;

impl Sealed for Wifi {

}

impl WirelessConfig for Wifi {
    type Data = WifiData;
}

/// A struct representing a Thread wireless configuration
#[derive(Debug)]
pub struct Thread;

impl Sealed for Thread {

}

impl WirelessConfig for Thread {
    type Data = ThreadData;
}

/// A no-op controller.
///
/// Useful for simulating non-concurrent wireless connectivity in tests and examples.
#[derive(Debug)]
pub struct DisconnectedController;

impl DisconnectedController {
    /// Create a new disconnected controller
    pub fn new() -> (res: Self)
        ensures
            res == DisconnectedController,
    {
        DisconnectedController
    }

    /// Scan requests should not arrive in non-concurrent commissioning workflow
    pub fn scan(&self) -> (res: Result<(), ErrorCode>)
        ensures
            res == Err::<(), ErrorCode>(ErrorCode::InvalidCommand),
    {
        Err(ErrorCode::InvalidCommand)
    }

    /// In non-concurrent commissioning workflow, we pretend to connect to the network
    /// but this is of course not possible to do for real.
    pub fn connect(&self) -> (res: Result<(), ErrorCode>)
        ensures
            res == Ok::<(), ErrorCode>(()),
    {
        Ok(())
    }

    /// There is never a network that the controller is connected to.
    pub fn connected_network<T: WirelessData>(&self) -> (res: Result<
        Option<<T::NetworkCredentials as NetworkCredentials>::NetworkId>,
        ErrorCode,
    >)
        ensures
            res is Ok && res->Ok_0 is None,
    {
        Ok(None)
    }

    /// The statistics of an interface that is not in use.
    pub fn stats<T: WirelessData>(&self) -> (res: Result<T::Stats, ErrorCode>)
        ensures
            res is Ok && res->Ok_0 == T::no_stats(),
    {
        Ok(T::default_stats())
    }
}

impl Default for DisconnectedController {
    fn default() -> (res: Self)
        ensures
            res == DisconnectedController,
    {
        Self::new()
    }
}

/// A utility type for running a wireless task with a pre-existing wireless interface
/// rather than bringing up / tearing down the wireless interface for the task.
///
/// This utility can only be used with hardware that implements wireless coexist mode
/// (i.e. the Thread/Wifi interface as well as the BLE GATT peripheral are available at the same
/// time).
pub struct PreexistingWireless<N, U, C, G> {
    pub netif: N,
    pub udp: U,
    pub controller: C,
    pub gatt: G,
}

impl<N, U, C, G> PreexistingWireless<N, U, C, G> {
    /// Create a new `PreexistingWireless` instance with the given network interface, UDP stack,
    /// wireless controller and GATT peripheral.
    pub fn new(netif: N, udp: U, controller: C, gatt: G) -> (res: Self)
        ensures
            res.netif == netif,
            res.udp == udp,
            res.controller == controller,
            res.gatt == gatt,
    {
        Self { netif, udp, controller, gatt }
    }
}

} // verus!
