//! Network interfaces and their configuration.

use vstd::prelude::*;

use nix::net::if_::InterfaceFlags;

use crate::bytes::bytes_eq;
use crate::digits::{append_decimal, append_upper_hex_byte, decimal, upper_hex_byte};
use crate::oper::{IPV4_UNSPECIFIED, IPV6_UNSPECIFIED};

verus! {

/// The contents of `NetifConf`.
pub struct NetifConfView {
    pub ipv4: Seq<u8>,
    pub ipv6: Seq<u8>,
    pub interface: u32,
    pub mac: Seq<u8>,
}

/// The current IP configuration of a network interface (if the netif is configured and up)
#[derive(Clone, Copy, Debug)]
pub struct NetifConf {
    /// Ipv4 address
    pub ipv4: [u8; 4],
    /// Ipv6 address
    pub ipv6: [u8; 16],
    /// Interface index
    pub interface: u32,
    /// MAC address
    pub mac: [u8; 6],
}

impl View for NetifConf {
    type V = NetifConfView;

    open spec fn view(&self) -> NetifConfView {
        NetifConfView {
            ipv4: self.ipv4@,
            ipv6: self.ipv6@,
            interface: self.interface,
            mac: self.mac@,
        }
    }
}

/// The contents of a configuration that may be missing.
pub open spec fn conf_view(conf: Option<NetifConf>) -> Option<NetifConfView> {
    match conf {
        Some(conf) => Some(conf@),
        None => None,
    }
}

/// The hardware address of a configuration that has none.
pub const NO_MAC: [u8; 6] = [0, 0, 0, 0, 0, 0];

/// An IPv4 address in dotted decimal notation.
pub open spec fn ipv4_text(ipv4: Seq<u8>) -> Seq<char> {
    decimal(ipv4[0] as int) + "."@ + decimal(ipv4[1] as int) + "."@ + decimal(ipv4[2] as int)
        + "."@ + decimal(ipv4[3] as int)
}

/// A hardware address in hexadecimal digits, with a colon between the bytes.
pub open spec fn mac_text(mac: Seq<u8>) -> Seq<char> {
    upper_hex_byte(mac[0]) + ":"@ + upper_hex_byte(mac[1]) + ":"@ + upper_hex_byte(mac[2]) + ":"@
        + upper_hex_byte(mac[3]) + ":"@ + upper_hex_byte(mac[4]) + ":"@ + upper_hex_byte(mac[5])
}

/// The text that shows a configuration to a user, given the text of its IPv6 address.
pub open spec fn conf_text(conf: NetifConfView, ipv6: Seq<char>) -> Seq<char> {
    "IPv4: "@ + ipv4_text(conf.ipv4) + ", IPv6: "@ + ipv6 + ", Interface: "@ + decimal(
        conf.interface as int,
    ) + ", MAC: "@ + mac_text(conf.mac)
}

impl NetifConf {
    /// A configuration without any address.
    pub fn new() -> (res: Self)
        ensures
            res@ == (NetifConfView {
                ipv4: IPV4_UNSPECIFIED@,
                ipv6: IPV6_UNSPECIFIED@,
                interface: 0,
                mac: NO_MAC@,
            }),
    {
        Self { ipv4: IPV4_UNSPECIFIED, ipv6: IPV6_UNSPECIFIED, interface: 0, mac: NO_MAC }
    }

    /// Whether two configurations are the same.
    pub fn same(&self, other: &Self) -> (res: bool)
        ensures
            res == (self@ == other@),
    {
        bytes_eq(self.ipv4.as_slice(), other.ipv4.as_slice()) && bytes_eq(
            self.ipv6.as_slice(),
            other.ipv6.as_slice(),
        ) && self.interface == other.interface && bytes_eq(
            self.mac.as_slice(),
            other.mac.as_slice(),
        )
    }

    /// The text that shows the configuration to a user, given the text of its IPv6 address, which
    /// the caller has to provide.
    pub fn text(&self, ipv6: &str) -> (text: String)
        ensures
            text@ == conf_text(self@, ipv6@),
    {
        let mut text = "IPv4: ".to_owned();
        append_decimal(&mut text, self.ipv4[0] as u64);
        text.append(".");
        append_decimal(&mut text, self.ipv4[1] as u64);
        text.append(".");
        append_decimal(&mut text, self.ipv4[2] as u64);
        text.append(".");
        append_decimal(&mut text, self.ipv4[3] as u64);
        assert(text@ =~= "IPv4: "@ + ipv4_text(self@.ipv4));
        text.append(", IPv6: ");
        text.append(ipv6);
        text.append(", Interface: ");
        append_decimal(&mut text, self.interface as u64);
        text.append(", MAC: ");
        let ghost before = text@;
        append_upper_hex_byte(&mut text, self.mac[0]);
        text.append(":");
        append_upper_hex_byte(&mut text, self.mac[1]);
        text.append(":");
        append_upper_hex_byte(&mut text, self.mac[2]);
        text.append(":");
        append_upper_hex_byte(&mut text, self.mac[3]);
        text.append(":");
        append_upper_hex_byte(&mut text, self.mac[4]);
        text.append(":");
        append_upper_hex_byte(&mut text, self.mac[5]);
        assert(text@ =~= before + mac_text(self@.mac));
        text
    }
}

impl Default for NetifConf {
    fn default() -> (res: Self)
        ensures
            res@ == (NetifConfView {
                ipv4: IPV4_UNSPECIFIED@,
                ipv6: IPV6_UNSPECIFIED@,
                interface: 0,
                mac: NO_MAC@,
            }),
    {
        Self::new()
    }
}

/// A network interface that does not really track any changes of an underlying network interface,
/// and therefore assumes the network interface is always up.
///
/// Useful for demoing purposes
pub struct DummyNetif<U> {
    pub conf: Option<NetifConf>,
    pub bind: U,
}

impl<U> DummyNetif<U> {
    /// Create a new `DummyNetif` with the given IP configuration and MAC address
    pub fn new(conf: Option<NetifConf>, bind: U) -> (res: Self)
        ensures
            res.conf == conf,
            res.bind == bind,
    {
        Self { conf, bind }
    }

    /// The configuration, which never changes.
    pub fn get_conf(&self) -> (conf: Option<NetifConf>)
        ensures
            conf == self.conf,
    {
        self.conf
    }
}

/// `InterfaceFlags::IFF_LOOPBACK`: the flag of a loopback interface, with the same value on every
/// Unix.
#[verifier::external_body]
fn iff_loopback() -> (bits: i32)
    ensures
        bits == 0x8,
{
    InterfaceFlags::IFF_LOOPBACK.bits()
}

/// `InterfaceFlags::IFF_POINTOPOINT`: the flag of a point-to-point interface, with the same value
/// on every Unix.
#[verifier::external_body]
fn iff_pointopoint() -> (bits: i32)
    ensures
        bits == 0x10,
{
    InterfaceFlags::IFF_POINTOPOINT.bits()
}

/// `InterfaceFlags::IFF_BROADCAST`: the flag of an interface with a broadcast address, with the
/// same value on every Unix.
#[verifier::external_body]
fn iff_broadcast() -> (bits: i32)
    ensures
        bits == 0x2,
{
    InterfaceFlags::IFF_BROADCAST.bits()
}

/// `InterfaceFlags::contains`: whether all bits of `other` are set in `flags`.
#[verifier::external_body]
fn iff_contains(flags: i32, other: i32) -> (res: bool)
    ensures
        res == (flags & other == other),
{
    InterfaceFlags::from_bits_retain(flags).contains(InterfaceFlags::from_bits_retain(other))
}

/// `InterfaceFlags::intersects`: whether some bit of `other` is set in `flags`.
#[verifier::external_body]
fn iff_intersects(flags: i32, other: i32) -> (res: bool)
    ensures
        res == (flags & other != 0),
{
    InterfaceFlags::from_bits_retain(flags).intersects(InterfaceFlags::from_bits_retain(other))
}

/// How often the configuration of an interface of a Unix-like OS is looked at, in seconds.
pub const POLL_INTERVAL_SECS: u64 = 2;

/// A set of flags that can be used to filter network interfaces.
#[derive(Debug, Clone, Copy, PartialEq, Eq, Structural)]
pub struct NetifSearchFlags {
    pub bits: u16,
}

impl NetifSearchFlags {
    /// Consider only interfaces which have the Loopback flag set
    pub const LOOPBACK: u16 = 0x0001;

    /// Consider only interfaces which do not have the Loopback flag set
    pub const NON_LOOPBACK: u16 = 0x0002;

    /// Consider only interfaces which have the Point-to-Point flag set
    pub const PEER_TO_PEER: u16 = 0x0004;

    /// Consider only interfaces which do not have the Point-to-Point flag set
    pub const NON_PEER_TO_PEER: u16 = 0x0008;

    /// Consider only interfaces which have the Broadcast flag set
    pub const BROADCAST: u16 = 0x0010;

    /// Consider only interfaces which do have an IPv4 address assigned
    pub const IPV4: u16 = 0x0020;

    /// Consider only interfaces which do have an IPv6 address assigned
    pub const IPV6: u16 = 0x0040;

    /// Consider only interfaces which do have a Link-Local IPv6 address assigned
    pub const IPV6_LINK_LOCAL: u16 = 0x0080;

    /// Consider only interfaces which do have a non-Link-Local IPv6 address assigned
    pub const IPV6_NON_LINK_LOCAL: u16 = 0x0100;

    /// Whether the flag is set.
    pub open spec fn has(self, flag: u16) -> bool {
        self.bits & flag == flag
    }

    /// Whether the flag is set.
    pub fn contains(self, flag: u16) -> (res: bool)
        ensures
            res == self.has(flag),
    {
        self.bits & flag == flag
    }

    /// The flags that an interface has to have.
    pub open spec fn required(self) -> i32 {
        (if self.has(Self::LOOPBACK) { 0x8i32 } else { 0 }) | (if self.has(Self::PEER_TO_PEER) {
            0x10i32
        } else {
            0
        }) | (if self.has(Self::BROADCAST) { 0x2i32 } else { 0 })
    }

    /// The flags that an interface may not have.
    pub open spec fn forbidden(self) -> i32 {
        (if self.has(Self::NON_LOOPBACK) { 0x8i32 } else { 0 }) | (if self.has(
            Self::NON_PEER_TO_PEER,
        ) {
            0x10i32
        } else {
            0
        })
    }

    /// The flags that an interface has to have.
    pub fn contains_if_flags(&self) -> (flags: i32)
        ensures
            flags == self.required(),
    {
        let loopback: i32 = if self.contains(Self::LOOPBACK) {
            iff_loopback()
        } else {
            0
        };
        let peer_to_peer: i32 = if self.contains(Self::PEER_TO_PEER) {
            iff_pointopoint()
        } else {
            0
        };
        let broadcast: i32 = if self.contains(Self::BROADCAST) {
            iff_broadcast()
        } else {
            0
        };
        loopback | peer_to_peer | broadcast
    }

    /// The flags that an interface may not have.
    pub fn not_contains_if_flags(&self) -> (flags: i32)
        ensures
            flags == self.forbidden(),
    {
        let loopback: i32 = if self.contains(Self::NON_LOOPBACK) {
            iff_loopback()
        } else {
            0
        };
        let peer_to_peer: i32 = if self.contains(Self::NON_PEER_TO_PEER) {
            iff_pointopoint()
        } else {
            0
        };
        loopback | peer_to_peer
    }
}

impl Default for NetifSearchFlags {
    fn default() -> (res: Self)
        ensures
            res.bits == (Self::NON_LOOPBACK | Self::NON_PEER_TO_PEER | Self::BROADCAST | Self::IPV4
                | Self::IPV6 | Self::IPV6_LINK_LOCAL),
    {
        Self {
            bits: Self::NON_LOOPBACK | Self::NON_PEER_TO_PEER | Self::BROADCAST | Self::IPV4
                | Self::IPV6 | Self::IPV6_LINK_LOCAL,
        }
    }
}

/// An address of a network interface.
#[derive(Debug, Clone, Copy)]
pub enum IfAddress {
    /// An IPv4 address.
    Ipv4([u8; 4]),
    /// An IPv6 address.
    Ipv6([u8; 16]),
    /// A link-level address, with the index of the interface.
    Link { ifindex: usize, addr: Option<[u8; 6]> },
    /// An address of any other kind.
    Other,
}

/// One entry of the list of the addresses of all interfaces of the system.
#[derive(Debug)]
pub struct InterfaceAddress {
    pub interface_name: String,
    pub flags: i32,
    pub address: Option<IfAddress>,
}

/// Whether an IPv6 address is a link-local one.
pub open spec fn is_link_local(octets: Seq<u8>) -> bool {
    octets[0] == 0xfe && octets[1] == 0x80
}

/// Whether an entry meets the flags, as far as this can be seen from the entry alone.
pub open spec fn is_candidate(flags: NetifSearchFlags, entry: InterfaceAddress) -> bool {
    &&& entry.flags & flags.required() == flags.required()
    &&& entry.flags & flags.forbidden() == 0
    &&& flags.has(NetifSearchFlags::IPV4) ==> entry.address matches Some(IfAddress::Ipv4(_))
}

/// Whether the listing holds an IPv6 address of the interface with the given name: any one, or
/// one that is or is not a link-local one.
pub open spec fn has_ipv6(
    listing: Seq<InterfaceAddress>,
    name: Seq<char>,
    link_local: Option<bool>,
) -> bool {
    exists|i: int|
        0 <= i < listing.len() && is_ipv6_of(#[trigger] listing[i], name, link_local)
}

/// Whether an entry is such an IPv6 address.
pub open spec fn is_ipv6_of(
    entry: InterfaceAddress,
    name: Seq<char>,
    link_local: Option<bool>,
) -> bool {
    &&& entry.interface_name@ == name
    &&& entry.address matches Some(IfAddress::Ipv6(octets)) && match link_local {
        Some(wanted) => is_link_local(octets@) == wanted,
        None => true,
    }
}

/// Whether the interface with the given name meets the flags on IPv6. `listing` is the list of
/// addresses, where it could be had.
pub open spec fn meets_ipv6(
    flags: NetifSearchFlags,
    name: Seq<char>,
    listing: Option<Seq<InterfaceAddress>>,
) -> bool {
    let asked_for = NetifSearchFlags::IPV6 | NetifSearchFlags::IPV6_LINK_LOCAL
        | NetifSearchFlags::IPV6_NON_LINK_LOCAL;
    flags.bits & asked_for != 0 ==> {
        &&& listing is Some
        &&& has_ipv6(listing->Some_0, name, None)
        &&& flags.has(NetifSearchFlags::IPV6_LINK_LOCAL) ==> has_ipv6(
            listing->Some_0,
            name,
            Some(true),
        )
        &&& flags.has(NetifSearchFlags::IPV6_NON_LINK_LOCAL) ==> has_ipv6(
            listing->Some_0,
            name,
            Some(false),
        )
    }
}

/// The names of the entries that meet the flags, as far as this can be seen from an entry alone.
pub open spec fn candidate_names(
    flags: NetifSearchFlags,
    listing: Seq<InterfaceAddress>,
) -> Seq<Seq<char>>
    decreases listing.len(),
{
    if listing.len() == 0 {
        Seq::empty()
    } else {
        let front = candidate_names(flags, listing.drop_last());
        if is_candidate(flags, listing.last()) {
            front.push(listing.last().interface_name@)
        } else {
            front
        }
    }
}

/// The names that also meet the flags on IPv6, in the listing that was made for each.
pub open spec fn found_names(
    flags: NetifSearchFlags,
    names: Seq<Seq<char>>,
    listings: Seq<Option<Seq<InterfaceAddress>>>,
) -> Seq<Seq<char>>
    decreases names.len(),
{
    if names.len() == 0 {
        Seq::empty()
    } else {
        let front = found_names(flags, names.drop_last(), listings);
        let last = names.len() - 1;
        if meets_ipv6(flags, names[last], listings[last]) {
            front.push(names[last])
        } else {
            front
        }
    }
}

/// The contents of a listing that may be missing.
pub open spec fn listing_view(listing: Option<Vec<InterfaceAddress>>) -> Option<
    Seq<InterfaceAddress>,
> {
    match listing {
        Some(listing) => Some(listing@),
        None => None,
    }
}

/// The contents of a list of names.
pub open spec fn names_view(names: Seq<String>) -> Seq<Seq<char>> {
    names.map_values(|name: String| name@)
}

/// The contents of a list of interfaces.
pub open spec fn netifs_view(netifs: Seq<UnixNetif>) -> Seq<Seq<char>> {
    netifs.map_values(|netif: UnixNetif| netif@)
}

/// A network interface of a Unix-like OS.
///
/// Its view is its name.
#[derive(Debug)]
pub struct UnixNetif(String);

impl View for UnixNetif {
    type V = Seq<char>;

    closed spec fn view(&self) -> Seq<char> {
        self.0@
    }
}

impl UnixNetif {
    /// Create a new `UnixNetif` for the given interface name
    pub fn new(if_name: String) -> (res: Self)
        ensures
            res@ == if_name@,
    {
        Self(if_name)
    }

    /// The name of the interface.
    pub fn name(&self) -> (name: &str)
        ensures
            name@ == self@,
    {
        self.0.as_str()
    }

    /// The names of the interfaces that may match the given flags. Whether they do shows only in
    /// a further list of addresses for each.
    pub fn candidates(
        flags: NetifSearchFlags,
        listing: &Option<Vec<InterfaceAddress>>,
    ) -> (names: Vec<String>)
        ensures
            names_view(names@) == match listing_view(*listing) {
                Some(listing) => candidate_names(flags, listing),
                None => Seq::empty(),
            },
    {
        let mut names: Vec<String> = Vec::new();
        assert(names_view(names@) =~= Seq::<Seq<char>>::empty());
        let listing: &Vec<InterfaceAddress> = match listing {
            Some(listing) => listing,
            None => return names,
        };
        let required: i32 = flags.contains_if_flags();
        let forbidden: i32 = flags.not_contains_if_flags();
        let ipv4: bool = flags.contains(NetifSearchFlags::IPV4);
        let mut i: usize = 0;
        while i < listing.len()
            invariant
                i <= listing.len(),
                required == flags.required(),
                forbidden == flags.forbidden(),
                ipv4 == flags.has(NetifSearchFlags::IPV4),
                names_view(names@) == candidate_names(flags, listing@.take(i as int)),
            decreases listing.len() - i,
        {
            let entry = &listing[i];
            let ghost before = names@;
            assert(listing@.take(i + 1).drop_last() =~= listing@.take(i as int));
            assert(listing@.take(i + 1).last() == *entry);
            if iff_contains(entry.flags, required) && !iff_intersects(entry.flags, forbidden) && (
            !ipv4 || matches!(entry.address, Some(IfAddress::Ipv4(_)))) {
                names.push(entry.interface_name.clone());
                assert(names_view(names@) =~= names_view(before).push(entry.interface_name@));
            }
            i = i + 1;
        }
        assert(listing@.take(i as int) =~= listing@);
        names
    }

    /// Whether the interface with the given name meets the flags on IPv6.
    pub fn matches_ipv6(
        flags: NetifSearchFlags,
        if_name: &String,
        listing: &Option<Vec<InterfaceAddress>>,
    ) -> (res: bool)
        ensures
            res == meets_ipv6(flags, if_name@, listing_view(*listing)),
    {
        if flags.bits & (NetifSearchFlags::IPV6 | NetifSearchFlags::IPV6_LINK_LOCAL
            | NetifSearchFlags::IPV6_NON_LINK_LOCAL) == 0 {
            return true;
        }
        let listing: &Vec<InterfaceAddress> = match listing {
            Some(listing) => listing,
            None => return false,
        };
        let want_link_local: bool = flags.contains(NetifSearchFlags::IPV6_LINK_LOCAL);
        let want_non_link_local: bool = flags.contains(NetifSearchFlags::IPV6_NON_LINK_LOCAL);
        let mut ipv6: bool = false;
        let mut ipv6_link_local: bool = !want_link_local;
        let mut ipv6_non_link_local: bool = !want_non_link_local;
        let mut i: usize = 0;
        while i < listing.len()
            invariant
                i <= listing.len(),
                ipv6 == has_ipv6(listing@.take(i as int), if_name@, None),
                ipv6_link_local == (want_link_local ==> has_ipv6(
                    listing@.take(i as int),
                    if_name@,
                    Some(true),
                )),
                ipv6_non_link_local == (want_non_link_local ==> has_ipv6(
                    listing@.take(i as int),
                    if_name@,
                    Some(false),
                )),
            decreases listing.len() - i,
        {
            let entry = &listing[i];
            proof {
                lemma_has_ipv6_grows(listing@, i as int, if_name@, None);
                lemma_has_ipv6_grows(listing@, i as int, if_name@, Some(true));
                lemma_has_ipv6_grows(listing@, i as int, if_name@, Some(false));
            }
            if entry.interface_name == *if_name {
                if let Some(IfAddress::Ipv6(octets)) = &entry.address {
                    ipv6 = true;
                    let link_local: bool = octets[0] == 0xfe && octets[1] == 0x80;
                    if want_link_local && link_local {
                        ipv6_link_local = true;
                    }
                    if want_non_link_local && !link_local {
                        ipv6_non_link_local = true;
                    }
                }
            }
            i = i + 1;
        }
        assert(listing@.take(i as int) =~= listing@);
        ipv6 && ipv6_link_local && ipv6_non_link_local
    }

    /// Search for network interfaces that match the given flags.
    ///
    /// `listing` is the list of addresses from which the candidates are taken, `further` the list
    /// for each candidate in turn; either may be missing.
    pub fn search(
        flags: NetifSearchFlags,
        listing: &Option<Vec<InterfaceAddress>>,
        further: &Vec<Option<Vec<InterfaceAddress>>>,
    ) -> (res: Vec<Self>)
        requires
            further.len() == (match listing_view(*listing) {
                Some(listing) => candidate_names(flags, listing).len(),
                None => 0,
            }),
        ensures
            netifs_view(res@) == (match listing_view(*listing) {
                Some(listing) => found_names(
                    flags,
                    candidate_names(flags, listing),
                    further@.map_values(|l: Option<Vec<InterfaceAddress>>| listing_view(l)),
                ),
                None => Seq::empty(),
            }),
    {
        let names = Self::candidates(flags, listing);
        let ghost listings = further@.map_values(
            |l: Option<Vec<InterfaceAddress>>| listing_view(l),
        );
        let ghost all = names_view(names@);
        let mut res: Vec<Self> = Vec::new();
        assert(netifs_view(res@) =~= Seq::<Seq<char>>::empty());
        let mut i: usize = 0;
        while i < names.len()
            invariant
                i <= names.len(),
                names.len() == further.len(),
                all == names_view(names@),
                listings == further@.map_values(
                    |l: Option<Vec<InterfaceAddress>>| listing_view(l),
                ),
                netifs_view(res@) == found_names(flags, all.take(i as int), listings),
            decreases names.len() - i,
        {
            let ghost before = res@;
            assert(all.take(i + 1).drop_last() =~= all.take(i as int));
            assert(all.take(i + 1).last() == names[i as int]@);
            assert(listings[i as int] == listing_view(further[i as int]));
            if Self::matches_ipv6(flags, &names[i], &further[i]) {
                res.push(UnixNetif::new(names[i].clone()));
                assert(netifs_view(res@) =~= netifs_view(before).push(names[i as int]@));
            }
            i = i + 1;
        }
        assert(all.take(i as int) =~= all);
        res
    }

    /// The interface to use by default: the first one that a search has found.
    pub fn new_default(found: Vec<Self>) -> (res: Self)
        requires
            found.len() > 0,
        ensures
            res@ == netifs_view(found@)[0],
    {
        let mut found = found;
        found.remove(0)
    }
}

/// One more entry of a listing adds just this entry to the addresses.
proof fn lemma_has_ipv6_grows(
    listing: Seq<InterfaceAddress>,
    i: int,
    name: Seq<char>,
    link_local: Option<bool>,
)
    requires
        0 <= i < listing.len(),
    ensures
        has_ipv6(listing.take(i + 1), name, link_local) <==> has_ipv6(
            listing.take(i),
            name,
            link_local,
        ) || is_ipv6_of(listing[i], name, link_local),
{
    let (a, b) = (listing.take(i), listing.take(i + 1));
    if has_ipv6(a, name, link_local) {
        let k = choose|k: int| 0 <= k < a.len() && is_ipv6_of(#[trigger] a[k], name, link_local);
        assert(b[k] == a[k]);
    }
    if is_ipv6_of(listing[i], name, link_local) {
        assert(b[i] == listing[i]);
    }
    if has_ipv6(b, name, link_local) {
        let k = choose|k: int| 0 <= k < b.len() && is_ipv6_of(#[trigger] b[k], name, link_local);
        if k < i {
            assert(a[k] == b[k]);
        }
    }
}

/// The candidates are the names of just those entries that meet the flags.
pub proof fn lemma_candidate_names(
    flags: NetifSearchFlags,
    listing: Seq<InterfaceAddress>,
    name: Seq<char>,
)
    ensures
        candidate_names(flags, listing).contains(name) <==> exists|i: int|
            {
                &&& 0 <= i < listing.len()
                &&& (#[trigger] listing[i]).interface_name@ == name
                &&& is_candidate(flags, listing[i])
            },
    decreases listing.len(),
{
    if listing.len() > 0 {
        let front = listing.drop_last();
        let last = listing.len() - 1;
        lemma_candidate_names(flags, front, name);
        let fronts = candidate_names(flags, front);
        let all = candidate_names(flags, listing);
        if fronts.contains(name) {
            let k = fronts.index_of(name);
            assert(all[k] == name);
            let i = choose|i: int|
                {
                    &&& 0 <= i < front.len()
                    &&& (#[trigger] front[i]).interface_name@ == name
                    &&& is_candidate(flags, front[i])
                };
            assert(listing[i] == front[i]);
        } else if all.contains(name) {
            assert(all == fronts.push(listing[last].interface_name@));
            let k = choose|k: int| 0 <= k < all.len() && all[k] == name;
            assert(k == fronts.len()) by {
                if k < fronts.len() {
                    assert(fronts[k] == name);
                }
            }
            assert(listing[last].interface_name@ == name);
        }
        if exists|i: int|
            {
                &&& 0 <= i < listing.len()
                &&& (#[trigger] listing[i]).interface_name@ == name
                &&& is_candidate(flags, listing[i])
            } {
            let i = choose|i: int|
                {
                    &&& 0 <= i < listing.len()
                    &&& (#[trigger] listing[i]).interface_name@ == name
                    &&& is_candidate(flags, listing[i])
                };
            if i < last {
                assert(front[i] == listing[i]);
            } else {
                assert(all[fronts.len() as int] == name);
            }
        }
    }
}

/// A search finds just those candidates that meet the flags on IPv6 in their own listing.
pub proof fn lemma_found_names(
    flags: NetifSearchFlags,
    names: Seq<Seq<char>>,
    listings: Seq<Option<Seq<InterfaceAddress>>>,
    name: Seq<char>,
)
    ensures
        found_names(flags, names, listings).contains(name) <==> exists|i: int|
            {
                &&& 0 <= i < names.len()
                &&& #[trigger] names[i] == name
                &&& meets_ipv6(flags, name, listings[i])
            },
    decreases names.len(),
{
    if names.len() > 0 {
        let front = names.drop_last();
        let last = names.len() - 1;
        lemma_found_names(flags, front, listings, name);
        let fronts = found_names(flags, front, listings);
        let all = found_names(flags, names, listings);
        if fronts.contains(name) {
            let k = fronts.index_of(name);
            assert(all[k] == name);
            let i = choose|i: int|
                {
                    &&& 0 <= i < front.len()
                    &&& #[trigger] front[i] == name
                    &&& meets_ipv6(flags, name, listings[i])
                };
            assert(names[i] == front[i]);
        } else if all.contains(name) {
            let k = choose|k: int| 0 <= k < all.len() && all[k] == name;
            assert(k == fronts.len()) by {
                if k < fronts.len() {
                    assert(fronts[k] == name);
                }
            }
            assert(names[last] == name);
        }
        if exists|i: int|
            {
                &&& 0 <= i < names.len()
                &&& #[trigger] names[i] == name
                &&& meets_ipv6(flags, name, listings[i])
            } {
            let i = choose|i: int|
                {
                    &&& 0 <= i < names.len()
                    &&& #[trigger] names[i] == name
                    &&& meets_ipv6(flags, name, listings[i])
                };
            if i < last {
                assert(front[i] == names[i]);
            } else {
                assert(all[fronts.len() as int] == name);
            }
        }
    }
}

/// The last IPv4 address.
pub open spec fn last_ipv4(addrs: Seq<IfAddress>) -> Option<Seq<u8>>
    decreases addrs.len(),
{
    if addrs.len() == 0 {
        None
    } else if let IfAddress::Ipv4(octets) = addrs.last() {
        Some(octets@)
    } else {
        last_ipv4(addrs.drop_last())
    }
}

/// The last IPv6 address.
pub open spec fn last_ipv6(addrs: Seq<IfAddress>) -> Option<Seq<u8>>
    decreases addrs.len(),
{
    if addrs.len() == 0 {
        None
    } else if let IfAddress::Ipv6(octets) = addrs.last() {
        Some(octets@)
    } else {
        last_ipv6(addrs.drop_last())
    }
}

/// The index of the interface in the first link-level address.
pub open spec fn first_ifindex(addrs: Seq<IfAddress>) -> Option<u32>
    decreases addrs.len(),
{
    if addrs.len() == 0 {
        None
    } else if first_ifindex(addrs.drop_last()) is Some {
        first_ifindex(addrs.drop_last())
    } else if let IfAddress::Link { ifindex, addr } = addrs.last() {
        Some(ifindex as u32)
    } else {
        None
    }
}

/// The hardware address in the first link-level address that has one.
pub open spec fn first_mac(addrs: Seq<IfAddress>) -> Option<Seq<u8>>
    decreases addrs.len(),
{
    if addrs.len() == 0 {
        None
    } else if first_mac(addrs.drop_last()) is Some {
        first_mac(addrs.drop_last())
    } else if let IfAddress::Link { ifindex, addr: Some(mac) } = addrs.last() {
        Some(mac@)
    } else {
        None
    }
}

/// The configuration that the addresses of an interface make up, where it is complete.
pub open spec fn if_conf(addrs: Seq<IfAddress>) -> Option<NetifConfView> {
    if last_ipv4(addrs) is Some && last_ipv6(addrs) is Some && first_ifindex(addrs) is Some
        && first_mac(addrs) is Some {
        Some(
            NetifConfView {
                ipv4: last_ipv4(addrs)->Some_0,
                ipv6: last_ipv6(addrs)->Some_0,
                interface: first_ifindex(addrs)->Some_0,
                mac: first_mac(addrs)->Some_0,
            },
        )
    } else {
        None
    }
}

/// The addresses in the entries of the interface with the given name.
pub open spec fn addresses_of(listing: Seq<InterfaceAddress>, name: Seq<char>) -> Seq<IfAddress>
    decreases listing.len(),
{
    if listing.len() == 0 {
        Seq::empty()
    } else {
        let front = addresses_of(listing.drop_last(), name);
        if listing.last().interface_name@ == name && listing.last().address is Some {
            front.push(listing.last().address->Some_0)
        } else {
            front
        }
    }
}

/// What has been seen of the addresses of an interface.
struct IfConf {
    ipv4: Option<[u8; 4]>,
    ipv6: Option<[u8; 16]>,
    interface: Option<u32>,
    mac: Option<[u8; 6]>,
}

impl IfConf {
    spec fn of(&self, addrs: Seq<IfAddress>) -> bool {
        &&& last_ipv4(addrs) == match self.ipv4 {
            Some(octets) => Some(octets@),
            None => None,
        }
        &&& last_ipv6(addrs) == match self.ipv6 {
            Some(octets) => Some(octets@),
            None => None,
        }
        &&& first_ifindex(addrs) == self.interface
        &&& first_mac(addrs) == match self.mac {
            Some(octets) => Some(octets@),
            None => None,
        }
    }

    /// Take note of one more address.
    fn see(&mut self, addr: &IfAddress, Ghost(addrs): Ghost<Seq<IfAddress>>)
        requires
            old(self).of(addrs),
        ensures
            final(self).of(addrs.push(*addr)),
    {
        assert(addrs.push(*addr).drop_last() =~= addrs);
        match addr {
            IfAddress::Ipv4(octets) => self.ipv4 = Some(*octets),
            IfAddress::Ipv6(octets) => self.ipv6 = Some(*octets),
            IfAddress::Link { ifindex, addr: mac } => {
                if self.mac.is_none() {
                    self.mac = *mac;
                }
                if self.interface.is_none() {
                    self.interface = Some(
                        #[verifier::truncate]
                        (*ifindex as u32),
                    );
                }
            },
            IfAddress::Other => {},
        }
    }

    /// The configuration, where it is complete.
    fn conf(&self) -> (res: Option<NetifConf>)
        ensures
            forall|addrs: Seq<IfAddress>| self.of(addrs) ==> conf_view(res) == if_conf(addrs),
    {
        match (self.ipv4, self.ipv6, self.interface, self.mac) {
            (Some(ipv4), Some(ipv6), Some(interface), Some(mac)) => Some(
                NetifConf { ipv4, ipv6, interface, mac },
            ),
            _ => None,
        }
    }
}

/// The configuration that the addresses of an interface make up.
pub fn extract_if_conf(addrs: &Vec<IfAddress>) -> (res: Option<NetifConf>)
    ensures
        conf_view(res) == if_conf(addrs@),
{
    let mut seen = IfConf { ipv4: None, ipv6: None, interface: None, mac: None };
    let mut i: usize = 0;
    while i < addrs.len()
        invariant
            i <= addrs.len(),
            seen.of(addrs@.take(i as int)),
        decreases addrs.len() - i,
    {
        assert(addrs@.take(i + 1) =~= addrs@.take(i as int).push(addrs[i as int]));
        seen.see(&addrs[i], Ghost(addrs@.take(i as int)));
        i = i + 1;
    }
    assert(addrs@.take(i as int) =~= addrs@);
    seen.conf()
}

/// The configuration of the interface with the given name.
pub fn get_if_conf(if_name: &String, listing: &Vec<InterfaceAddress>) -> (res: Option<NetifConf>)
    ensures
        conf_view(res) == if_conf(addresses_of(listing@, if_name@)),
{
    let mut addrs: Vec<IfAddress> = Vec::new();
    let mut i: usize = 0;
    while i < listing.len()
        invariant
            i <= listing.len(),
            addrs@ == addresses_of(listing@.take(i as int), if_name@),
        decreases listing.len() - i,
    {
        let entry = &listing[i];
        assert(listing@.take(i + 1).drop_last() =~= listing@.take(i as int));
        assert(listing@.take(i + 1).last() == *entry);
        if entry.interface_name == *if_name {
            if let Some(addr) = &entry.address {
                addrs.push(*addr);
            }
        }
        i = i + 1;
    }
    assert(listing@.take(i as int) =~= listing@);
    extract_if_conf(&addrs)
}

impl UnixNetif {
    /// The configuration of the interface, given the list of addresses of all interfaces.
    pub fn get_conf(&self, listing: &Vec<InterfaceAddress>) -> (res: Option<NetifConf>)
        ensures
            conf_view(res) == if_conf(addresses_of(listing@, self@)),
    {
        get_if_conf(&self.0, listing)
    }
}

} // verus!
