//! Networks are known by their IDs.

use vstd::arithmetic::power::pow;
use vstd::prelude::*;
use vstd::utf8::{encode_utf8, valid_utf8};

use crate::digits::{hex_width, lower_hex};
use crate::error::ErrorCode;
use crate::laws::texts::{lemma_hex_width, lemma_lower_hex_is_read_back, number};
use crate::wifi::comm::{is_password, is_ssid};
use crate::wifi::WifiName;
use crate::wireless::traits::{
    be_value, dataset_ext_pan_id, ext_pan_id_text, find_tlv, ssid_shown, tlv_available, tlv_first,
    tlv_rest, tlvs, NetworkCredentials, NetworkId, ThreadCredentials, ThreadId, WifiCredentials,
    WifiSsid,
};

verus! {

/// An entry of an operational dataset, as it is written down: its length takes three bytes if
/// `long`, and one otherwise.
pub struct Entry {
    pub tlv_type: u8,
    pub value: Seq<u8>,
    pub long: bool,
}

impl Entry {
    /// Whether the length can be written down.
    pub open spec fn fits(self) -> bool {
        if self.long {
            self.value.len() < 0x100_0000
        } else {
            self.value.len() < 255
        }
    }

    /// The bytes of the entry.
    pub open spec fn bytes(self) -> Seq<u8> {
        let n = self.value.len() as int;
        if self.long {
            seq![
                self.tlv_type,
                255u8,
                (n / 0x10000) as u8,
                (n / 0x100 % 0x100) as u8,
                (n % 0x100) as u8,
            ] + self.value
        } else {
            seq![self.tlv_type, n as u8] + self.value
        }
    }
}

/// The bytes of all entries.
pub open spec fn dataset(entries: Seq<Entry>) -> Seq<u8>
    decreases entries.len(),
{
    if entries.len() == 0 {
        Seq::empty()
    } else {
        entries[0].bytes() + dataset(entries.skip(1))
    }
}

/// None of the entries is an Extended PAN ID.
pub open spec fn other_entries(entries: Seq<Entry>) -> bool {
    forall|i: int|
        0 <= i < entries.len() ==> (#[trigger] entries[i]).fits() && entries[i].tlv_type != 2
}

/// An entry is read with its type and its value, whichever way its length is written down, and
/// what follows it is left.
pub proof fn lemma_entry_is_read(entry: Entry, rest: Seq<u8>)
    requires
        entry.fits(),
    ensures
        tlv_available(entry.bytes() + rest),
        tlv_first(entry.bytes() + rest) == (entry.tlv_type, entry.value),
        tlv_rest(entry.bytes() + rest) == rest,
{
    let bytes = entry.bytes() + rest;
    let n = entry.value.len() as int;
    assert(n / 0x10000 * 0x10000 + n / 0x100 % 0x100 * 0x100 + n % 0x100 == n);
    assert(tlv_first(bytes).1 =~= entry.value);
    assert(tlv_rest(bytes) =~= rest);
}

/// Nothing is read of an entry that is cut off.
pub proof fn lemma_cut_off_entry_is_not_read(entry: Entry, n: int)
    requires
        entry.fits(),
        0 <= n < entry.bytes().len(),
    ensures
        !tlv_available(entry.bytes().take(n)),
{
    let bytes = entry.bytes().take(n);
    let len = entry.value.len() as int;
    assert(len / 0x10000 * 0x10000 + len / 0x100 % 0x100 * 0x100 + len % 0x100 == len);
}

proof fn lemma_other_entries_are_skipped(others: Seq<Entry>, rest: Seq<u8>)
    requires
        other_entries(others),
    ensures
        dataset_ext_pan_id(dataset(others) + rest) == dataset_ext_pan_id(rest),
    decreases others.len(),
{
    if others.len() == 0 {
        assert(dataset(others) + rest =~= rest);
    } else {
        let next = others.skip(1);
        assert forall|i: int| 0 <= i < next.len() implies (#[trigger] next[i]).fits()
            && next[i].tlv_type != 2 by {
            assert(next[i] == others[i + 1]);
        }
        lemma_other_entries_are_skipped(next, rest);
        let tail = dataset(next) + rest;
        assert(others[0].fits());
        lemma_entry_is_read(others[0], tail);
        let bytes = dataset(others) + rest;
        assert(bytes =~= others[0].bytes() + tail);
        assert(tlvs(bytes)[0] == (others[0].tlv_type, others[0].value));
        assert(tlvs(bytes).skip(1) =~= tlvs(tail));
        assert(find_tlv(tlvs(bytes), 2) == find_tlv(tlvs(tail), 2));
    }
}

/// The Extended PAN ID of a dataset is the value of its first entry of type 2, after any number of
/// other entries and whatever follows. One of more than eight bytes is no ID.
pub proof fn lemma_ext_pan_id_is_found(others: Seq<Entry>, id: Entry, rest: Seq<u8>)
    requires
        other_entries(others),
        id.tlv_type == 2,
        id.fits(),
    ensures
        ({
            let op_dataset = dataset(others) + (id.bytes() + rest);
            if id.value.len() <= 8 {
                &&& dataset_ext_pan_id(op_dataset) == Ok::<Seq<u8>, ErrorCode>(id.value)
                &&& ThreadCredentials::id_of(op_dataset) == id.value
            } else {
                &&& dataset_ext_pan_id(op_dataset) == Err::<Seq<u8>, ErrorCode>(
                    ErrorCode::InvalidData,
                )
                &&& ThreadCredentials::id_of(op_dataset).len() == 0
            }
        }),
{
    lemma_other_entries_are_skipped(others, id.bytes() + rest);
    lemma_entry_is_read(id, rest);
    assert(tlvs(id.bytes() + rest)[0] == (id.tlv_type, id.value));
}

/// A dataset has no Extended PAN ID only if no entry is one: not up to its end, and not up to an
/// entry that is cut off.
pub proof fn lemma_no_ext_pan_id(others: Seq<Entry>, cut_off: Entry, n: int)
    requires
        other_entries(others),
        cut_off.fits(),
        0 <= n < cut_off.bytes().len(),
    ensures
        dataset_ext_pan_id(dataset(others)) == Ok::<Seq<u8>, ErrorCode>(Seq::empty()),
        dataset_ext_pan_id(dataset(others) + cut_off.bytes().take(n)) == Ok::<Seq<u8>, ErrorCode>(
            Seq::empty(),
        ),
        ThreadCredentials::id_of(dataset(others)).len() == 0,
        ThreadCredentials::id_of(dataset(others) + cut_off.bytes().take(n)).len() == 0,
{
    lemma_other_entries_are_skipped(others, Seq::empty());
    assert(dataset(others) + Seq::<u8>::empty() =~= dataset(others));
    lemma_other_entries_are_skipped(others, cut_off.bytes().take(n));
    lemma_cut_off_entry_is_not_read(cut_off, n);
}

/// A Thread network is asked for with its dataset, if that is not too long, and never with an
/// SSID.
pub proof fn lemma_thread_requests(op_dataset: Seq<u8>, ssid: Seq<u8>, credentials: Seq<u8>)
    ensures
        op_dataset.len() <= 256 ==> ThreadCredentials::of_thread(op_dataset) == Ok::<
            Seq<u8>,
            ErrorCode,
        >(op_dataset),
        op_dataset.len() > 256 ==> ThreadCredentials::of_thread(op_dataset) == Err::<
            Seq<u8>,
            ErrorCode,
        >(ErrorCode::NoSpace),
        ThreadCredentials::of_wifi(ssid, credentials) == Err::<Seq<u8>, ErrorCode>(
            ErrorCode::InvalidCommand,
        ),
{
}

/// A Wifi network is asked for with its SSID, which becomes its ID, and its password, if neither is
/// too long and the password is text; and never with a dataset.
pub proof fn lemma_wifi_requests(ssid: Seq<u8>, credentials: Seq<u8>, op_dataset: Seq<u8>)
    ensures
        WifiCredentials::of_wifi(ssid, credentials) is Ok <==> ssid.len() <= 32
            && credentials.len() <= 64 && valid_utf8(credentials),
        WifiCredentials::of_wifi(ssid, credentials) matches Ok(creds) ==> {
            &&& WifiCredentials::id_of(creds) == ssid
            &&& creds.ssid == ssid
            &&& encode_utf8(creds.password) == credentials
        },
        WifiCredentials::of_wifi(ssid, credentials) matches Err(code) ==> code == (if ssid.len()
            > 32 {
            ErrorCode::NoSpace
        } else {
            ErrorCode::InvalidData
        }),
        WifiCredentials::of_thread(op_dataset) is Err,
        WifiCredentials::of_thread(op_dataset)->Err_0 == ErrorCode::InvalidCommand,
{
    if valid_utf8(credentials) {
        vstd::utf8::decode_utf8_encode_utf8(credentials);
    }
}

/// The same holds where the SSID is text, for one that is.
pub proof fn lemma_wifi_text_requests(ssid: Seq<u8>, credentials: Seq<u8>, op_dataset: Seq<u8>)
    ensures
        crate::wifi::WifiCredentials::of_wifi(ssid, credentials) is Ok <==> ssid.len() <= 32
            && credentials.len() <= 64 && valid_utf8(ssid) && valid_utf8(credentials),
        crate::wifi::WifiCredentials::of_wifi(ssid, credentials) matches Ok(creds) ==> {
            &&& crate::wifi::WifiCredentials::id_of(creds) == ssid
            &&& encode_utf8(creds.ssid) == ssid
            &&& encode_utf8(creds.password) == credentials
        },
        crate::wifi::WifiCredentials::of_wifi(ssid, credentials) matches Err(code) ==> code
            == ErrorCode::InvalidData,
        crate::wifi::WifiCredentials::of_thread(op_dataset) is Err,
        crate::wifi::WifiCredentials::of_thread(op_dataset)->Err_0 == ErrorCode::CommandNotFound,
{
    if valid_utf8(credentials) {
        vstd::utf8::decode_utf8_encode_utf8(credentials);
    }
    if valid_utf8(ssid) {
        vstd::utf8::decode_utf8_encode_utf8(ssid);
    }
}

/// Just the requests that are accepted where the SSID is text have a text for an SSID and a text
/// for a password.
pub proof fn lemma_wifi_texts(ssid: Seq<u8>, credentials: Seq<u8>)
    ensures
        is_ssid(ssid) <==> valid_utf8(ssid) && ssid.len() <= 32,
        is_password(credentials) <==> valid_utf8(credentials) && credentials.len() <= 64,
        is_ssid(ssid) && is_password(credentials) <==> crate::wifi::WifiCredentials::of_wifi(
            ssid,
            credentials,
        ) is Ok,
{
}

/// What is no ID is refused: an SSID of more than 32 bytes or one that has to be text and is none,
/// and an Extended PAN ID of more than eight bytes.
pub proof fn lemma_refused_ids(bytes: Seq<u8>)
    ensures
        WifiSsid::refusal(bytes) == (if bytes.len() > 32 {
            Some(ErrorCode::NoSpace)
        } else {
            None
        }),
        ThreadId::refusal(bytes) == (if bytes.len() > 8 {
            Some(ErrorCode::InvalidData)
        } else {
            None
        }),
        WifiName::refusal(bytes) == (if bytes.len() > 32 || !valid_utf8(bytes) {
            Some(ErrorCode::InvalidData)
        } else {
            None
        }),
{
}

/// The number of eight bytes is the one that they stand for with the highest one first.
pub proof fn lemma_eight_bytes(b: Seq<u8>)
    requires
        b.len() == 8,
    ensures
        be_value(b) == b[0] * 0x100_0000_0000_0000 + b[1] * 0x1_0000_0000_0000 + b[2]
            * 0x100_0000_0000 + b[3] * 0x1_0000_0000 + b[4] * 0x100_0000 + b[5] * 0x1_0000 + b[6]
            * 0x100 + b[7],
{
    reveal_with_fuel(be_value, 9);
}

/// An Extended PAN ID is shown by its number, with eight digits at least and with no leading zeros
/// otherwise.
pub proof fn lemma_ext_pan_id_text(bytes: Seq<u8>) -> (digits: Seq<char>)
    requires
        bytes.len() == 8,
    ensures
        ext_pan_id_text(bytes) == "EPAN ID::0x"@ + digits,
        number(digits, 16) == Some(be_value(bytes)),
        digits.len() >= 8,
        digits.len() > 8 ==> be_value(bytes) >= pow(16, (digits.len() - 1) as nat),
{
    lemma_eight_bytes(bytes);
    let value = be_value(bytes);
    let width = hex_width(value);
    let shown = if width < 8 {
        8
    } else {
        width
    };
    lemma_hex_width(value);
    if width < 8 {
        vstd::arithmetic::power::lemma_pow_increases(16, width, 8);
    }
    lemma_lower_hex_is_read_back(value, shown);
    lower_hex(value, shown)
}

/// An SSID is shown by its text, if it is one.
pub proof fn lemma_ssid_shown(bytes: Seq<u8>) -> (text: Seq<char>)
    ensures
        ssid_shown(bytes) == "SSID::"@ + text,
        valid_utf8(bytes) ==> encode_utf8(text) == bytes,
        !valid_utf8(bytes) ==> text == "???"@,
{
    if valid_utf8(bytes) {
        vstd::utf8::decode_utf8_encode_utf8(bytes);
        vstd::utf8::decode_utf8(bytes)
    } else {
        "???"@
    }
}

} // verus!
