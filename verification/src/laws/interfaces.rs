//! The interfaces of the system are searched, and their configuration is put together from their
//! addresses.

use vstd::prelude::*;

use crate::digits::{decimal, upper_hex_byte};
use crate::laws::texts::{
    lemma_decimal_is_read_back, lemma_upper_hex_byte_is_read_back, number, upper_value,
};
use crate::netif::{
    addresses_of, candidate_names, conf_text, first_ifindex, first_mac, found_names, has_ipv6,
    if_conf, ipv4_text, is_candidate, is_ipv6_of, last_ipv4, last_ipv6, mac_text, meets_ipv6,
    IfAddress, InterfaceAddress, NetifConfView, NetifSearchFlags,
};

verus! {

/// The flag of a search is set.
pub open spec fn is_set(flags: NetifSearchFlags, flag: u16) -> bool {
    flags.bits & flag != 0
}

proof fn lemma_is_set(flags: NetifSearchFlags)
    ensures
        flags.has(1) == is_set(flags, 1),
        flags.has(2) == is_set(flags, 2),
        flags.has(4) == is_set(flags, 4),
        flags.has(8) == is_set(flags, 8),
        flags.has(0x10) == is_set(flags, 0x10),
        flags.has(0x20) == is_set(flags, 0x20),
        flags.has(0x80) == is_set(flags, 0x80),
        flags.has(0x100) == is_set(flags, 0x100),
{
    let bits = flags.bits;
    assert((bits & 1 == 1) == (bits & 1 != 0)) by (bit_vector);
    assert((bits & 2 == 2) == (bits & 2 != 0)) by (bit_vector);
    assert((bits & 4 == 4) == (bits & 4 != 0)) by (bit_vector);
    assert((bits & 8 == 8) == (bits & 8 != 0)) by (bit_vector);
    assert((bits & 0x10 == 0x10) == (bits & 0x10 != 0)) by (bit_vector);
    assert((bits & 0x20 == 0x20) == (bits & 0x20 != 0)) by (bit_vector);
    assert((bits & 0x80 == 0x80) == (bits & 0x80 != 0)) by (bit_vector);
    assert((bits & 0x100 == 0x100) == (bits & 0x100 != 0)) by (bit_vector);
}

proof fn lemma_required_bits(flags: i32, loopback: bool, peer: bool, broadcast: bool)
    ensures
        ({
            let required = (if loopback { 0x8i32 } else { 0 }) | (if peer { 0x10i32 } else { 0 })
                | (if broadcast { 0x2i32 } else { 0 });
            flags & required == required <==> (loopback ==> flags & 8 != 0) && (peer ==> flags
                & 0x10 != 0) && (broadcast ==> flags & 2 != 0)
        }),
{
    assert(flags & ((if loopback { 0x8i32 } else { 0i32 }) | (if peer { 0x10i32 } else { 0i32 })
        | (if broadcast { 0x2i32 } else { 0i32 })) == ((if loopback { 0x8i32 } else { 0i32 }) | (
    if peer { 0x10i32 } else { 0i32 }) | (if broadcast { 0x2i32 } else { 0i32 })) <==> (loopback
        ==> flags & 8i32 != 0) && (peer ==> flags & 0x10i32 != 0) && (broadcast ==> flags & 2i32
        != 0)) by (bit_vector);
}

proof fn lemma_forbidden_bits(flags: i32, loopback: bool, peer: bool)
    ensures
        ({
            let forbidden = (if loopback { 0x8i32 } else { 0 }) | (if peer { 0x10i32 } else { 0 });
            flags & forbidden == 0 <==> (loopback ==> flags & 8 == 0) && (peer ==> flags & 0x10
                == 0)
        }),
{
    assert(flags & ((if loopback { 0x8i32 } else { 0i32 }) | (if peer { 0x10i32 } else { 0i32 }))
        == 0 <==> (loopback ==> flags & 8i32 == 0) && (peer ==> flags & 0x10i32 == 0))
        by (bit_vector);
}

/// Each flag of a search asks for one thing: an interface that is a loopback interface (1) or is
/// none (2), that is a point-to-point interface (4) or is none (8), that has a broadcast address
/// (16), and an IPv4 address (32). An entry meets the flags exactly when it has all that is asked
/// for.
pub proof fn lemma_search_flags(flags: NetifSearchFlags, entry: InterfaceAddress)
    ensures
        is_candidate(flags, entry) <==> {
            &&& is_set(flags, 1) ==> entry.flags & 0x8 != 0
            &&& is_set(flags, 2) ==> entry.flags & 0x8 == 0
            &&& is_set(flags, 4) ==> entry.flags & 0x10 != 0
            &&& is_set(flags, 8) ==> entry.flags & 0x10 == 0
            &&& is_set(flags, 0x10) ==> entry.flags & 0x2 != 0
            &&& is_set(flags, 0x20) ==> entry.address is Some && entry.address->Some_0 is Ipv4
        },
{
    lemma_is_set(flags);
    lemma_required_bits(entry.flags, is_set(flags, 1), is_set(flags, 4), is_set(flags, 0x10));
    lemma_forbidden_bits(entry.flags, is_set(flags, 2), is_set(flags, 8));
}

/// The entry is an IPv6 address of the interface.
pub open spec fn is_ipv6_entry(entry: InterfaceAddress, name: Seq<char>) -> bool {
    entry.interface_name@ == name && entry.address is Some && entry.address->Some_0 is Ipv6
}

/// The entry is a link-local IPv6 address: one that starts with fe80.
pub open spec fn is_link_local_entry(entry: InterfaceAddress) -> bool {
    entry.address matches Some(IfAddress::Ipv6(octets)) && octets@[0] == 0xfe && octets@[1] == 0x80
}

proof fn lemma_has_ipv6(listing: Seq<InterfaceAddress>, name: Seq<char>)
    ensures
        has_ipv6(listing, name, None) <==> exists|i: int|
            0 <= i < listing.len() && is_ipv6_entry(#[trigger] listing[i], name),
        has_ipv6(listing, name, Some(true)) <==> exists|i: int|
            0 <= i < listing.len() && is_ipv6_entry(#[trigger] listing[i], name)
                && is_link_local_entry(listing[i]),
        has_ipv6(listing, name, Some(false)) <==> exists|i: int|
            0 <= i < listing.len() && is_ipv6_entry(#[trigger] listing[i], name)
                && !is_link_local_entry(listing[i]),
{
    assert forall|i: int| 0 <= i < listing.len() implies is_ipv6_of(
        #[trigger] listing[i],
        name,
        None,
    ) == is_ipv6_entry(listing[i], name) by {}
    assert forall|i: int| 0 <= i < listing.len() implies is_ipv6_of(
        #[trigger] listing[i],
        name,
        Some(true),
    ) == (is_ipv6_entry(listing[i], name) && is_link_local_entry(listing[i])) by {}
    assert forall|i: int| 0 <= i < listing.len() implies is_ipv6_of(
        #[trigger] listing[i],
        name,
        Some(false),
    ) == (is_ipv6_entry(listing[i], name) && !is_link_local_entry(listing[i])) by {}
}

/// An interface has to have an IPv6 address if any of the flags on IPv6 is set (64, 128, 256), a
/// link-local one if 128 is, and one that is not link-local if 256 is. Without such a flag it can
/// be had without looking at the addresses.
pub proof fn lemma_ipv6_flags(
    flags: NetifSearchFlags,
    name: Seq<char>,
    listing: Seq<InterfaceAddress>,
)
    ensures
        meets_ipv6(flags, name, None) <==> !is_set(flags, 0x40) && !is_set(flags, 0x80) && !is_set(
            flags,
            0x100,
        ),
        meets_ipv6(flags, name, Some(listing)) <==> {
            &&& is_set(flags, 0x40) || is_set(flags, 0x80) || is_set(flags, 0x100) ==> exists|
                i: int,
            |
                0 <= i < listing.len() && is_ipv6_entry(#[trigger] listing[i], name)
            &&& is_set(flags, 0x80) ==> exists|i: int|
                0 <= i < listing.len() && is_ipv6_entry(#[trigger] listing[i], name)
                    && is_link_local_entry(listing[i])
            &&& is_set(flags, 0x100) ==> exists|i: int|
                0 <= i < listing.len() && is_ipv6_entry(#[trigger] listing[i], name)
                    && !is_link_local_entry(listing[i])
        },
{
    let bits = flags.bits;
    lemma_is_set(flags);
    lemma_has_ipv6(listing, name);
    assert((bits & (0x40u16 | 0x80u16 | 0x100u16) != 0) == (bits & 0x40 != 0 || bits & 0x80 != 0
        || bits & 0x100 != 0)) by (bit_vector);
}

/// The candidates come in the order of the entries: those of two listings one after the other are
/// those of the first and then those of the second.
pub proof fn lemma_candidates_in_order(
    flags: NetifSearchFlags,
    a: Seq<InterfaceAddress>,
    b: Seq<InterfaceAddress>,
)
    ensures
        candidate_names(flags, a + b) == candidate_names(flags, a) + candidate_names(flags, b),
    decreases b.len(),
{
    if b.len() == 0 {
        assert(a + b =~= a);
    } else {
        lemma_candidates_in_order(flags, a, b.drop_last());
        assert((a + b).drop_last() =~= a + b.drop_last());
        assert(candidate_names(flags, a + b) =~= candidate_names(flags, a) + candidate_names(
            flags,
            b,
        ));
    }
}

/// A single entry is a candidate under its own name, once, if it meets the flags. Without entries
/// there are no candidates.
pub proof fn lemma_single_candidate(flags: NetifSearchFlags, entry: InterfaceAddress)
    ensures
        candidate_names(flags, seq![entry]) == (if is_candidate(flags, entry) {
            seq![entry.interface_name@]
        } else {
            Seq::empty()
        }),
        candidate_names(flags, Seq::empty()).len() == 0,
{
    assert(seq![entry].drop_last() =~= Seq::empty());
    assert(candidate_names(flags, Seq::empty()) =~= Seq::empty());
}

/// What is found comes in the order of the candidates, each of them judged by its own listing.
pub proof fn lemma_found_in_order(
    flags: NetifSearchFlags,
    names_a: Seq<Seq<char>>,
    names_b: Seq<Seq<char>>,
    a: Seq<Option<Seq<InterfaceAddress>>>,
    b: Seq<Option<Seq<InterfaceAddress>>>,
)
    requires
        names_a.len() == a.len(),
        names_b.len() == b.len(),
    ensures
        found_names(flags, names_a + names_b, a + b) == found_names(flags, names_a, a)
            + found_names(flags, names_b, b),
    decreases names_b.len(),
{
    if names_b.len() == 0 {
        assert(names_a + names_b =~= names_a);
        assert(a + b =~= a);
    } else {
        lemma_found_in_order(flags, names_a, names_b.drop_last(), a, b.drop_last());
        assert((names_a + names_b).drop_last() =~= names_a + names_b.drop_last());
        lemma_further_listings(flags, names_a + names_b.drop_last(), a + b, a + b.drop_last());
        lemma_further_listings(flags, names_b.drop_last(), b, b.drop_last());
        assert(found_names(flags, names_a + names_b, a + b) =~= found_names(flags, names_a, a)
            + found_names(flags, names_b, b));
    }
}

proof fn lemma_further_listings(
    flags: NetifSearchFlags,
    names: Seq<Seq<char>>,
    a: Seq<Option<Seq<InterfaceAddress>>>,
    b: Seq<Option<Seq<InterfaceAddress>>>,
)
    requires
        names.len() <= a.len(),
        names.len() <= b.len(),
        forall|i: int| 0 <= i < names.len() ==> #[trigger] a[i] == b[i],
    ensures
        found_names(flags, names, a) == found_names(flags, names, b),
    decreases names.len(),
{
    if names.len() > 0 {
        lemma_further_listings(flags, names.drop_last(), a, b);
        assert(a[names.len() - 1] == b[names.len() - 1]);
    }
}

/// A single candidate is found if it meets the flags on IPv6 in its listing.
pub proof fn lemma_single_found(
    flags: NetifSearchFlags,
    name: Seq<char>,
    listing: Option<Seq<InterfaceAddress>>,
)
    ensures
        found_names(flags, seq![name], seq![listing]) == (if meets_ipv6(flags, name, listing) {
            seq![name]
        } else {
            Seq::empty()
        }),
        found_names(flags, Seq::empty(), Seq::empty()).len() == 0,
{
    assert(seq![name].drop_last() =~= Seq::empty());
    assert(found_names(flags, Seq::empty(), seq![listing]) =~= Seq::empty());
}

/// The addresses of an interface come in the order of the entries.
pub proof fn lemma_addresses_in_order(
    a: Seq<InterfaceAddress>,
    b: Seq<InterfaceAddress>,
    name: Seq<char>,
)
    ensures
        addresses_of(a + b, name) == addresses_of(a, name) + addresses_of(b, name),
    decreases b.len(),
{
    if b.len() == 0 {
        assert(a + b =~= a);
    } else {
        lemma_addresses_in_order(a, b.drop_last(), name);
        assert((a + b).drop_last() =~= a + b.drop_last());
        assert(addresses_of(a + b, name) =~= addresses_of(a, name) + addresses_of(b, name));
    }
}

/// A single entry has at most one address, which is one of the interface that the entry names.
pub proof fn lemma_single_address(entry: InterfaceAddress, name: Seq<char>)
    ensures
        addresses_of(seq![entry], name) == (match entry.address {
            Some(address) => if entry.interface_name@ == name {
                seq![address]
            } else {
                Seq::empty()
            },
            None => Seq::empty(),
        }),
        addresses_of(Seq::empty(), name).len() == 0,
{
    assert(seq![entry].drop_last() =~= Seq::empty());
    assert(addresses_of(Seq::empty(), name) =~= Seq::empty());
}

proof fn lemma_last_ipv4(addrs: Seq<IfAddress>, i: int)
    requires
        0 <= i < addrs.len(),
        addrs[i] is Ipv4,
        forall|j: int| i < j < addrs.len() ==> !(#[trigger] addrs[j] is Ipv4),
    ensures
        last_ipv4(addrs) is Some,
        addrs[i] matches IfAddress::Ipv4(octets) && last_ipv4(addrs)->Some_0 == octets@,
    decreases addrs.len(),
{
    if i < addrs.len() - 1 {
        let front = addrs.drop_last();
        assert(!(addrs[addrs.len() - 1] is Ipv4));
        assert forall|j: int| i < j < front.len() implies !(#[trigger] front[j] is Ipv4) by {
            assert(front[j] == addrs[j]);
        }
        lemma_last_ipv4(front, i);
    }
}

proof fn lemma_last_ipv6(addrs: Seq<IfAddress>, i: int)
    requires
        0 <= i < addrs.len(),
        addrs[i] is Ipv6,
        forall|j: int| i < j < addrs.len() ==> !(#[trigger] addrs[j] is Ipv6),
    ensures
        last_ipv6(addrs) is Some,
        addrs[i] matches IfAddress::Ipv6(octets) && last_ipv6(addrs)->Some_0 == octets@,
    decreases addrs.len(),
{
    if i < addrs.len() - 1 {
        let front = addrs.drop_last();
        assert(!(addrs[addrs.len() - 1] is Ipv6));
        assert forall|j: int| i < j < front.len() implies !(#[trigger] front[j] is Ipv6) by {
            assert(front[j] == addrs[j]);
        }
        lemma_last_ipv6(front, i);
    }
}

/// The address is a link-level address that holds a hardware address.
pub open spec fn has_mac(address: IfAddress) -> bool {
    address matches IfAddress::Link { ifindex, addr } && addr is Some
}

proof fn lemma_first_ifindex(addrs: Seq<IfAddress>, i: int)
    requires
        0 <= i < addrs.len(),
        addrs[i] is Link,
        forall|j: int| 0 <= j < i ==> !(#[trigger] addrs[j] is Link),
    ensures
        addrs[i] matches IfAddress::Link { ifindex, addr } && first_ifindex(addrs) == Some(
            ifindex as u32,
        ),
    decreases addrs.len(),
{
    let front = addrs.drop_last();
    if i < addrs.len() - 1 {
        assert forall|j: int| 0 <= j < i implies !(#[trigger] front[j] is Link) by {
            assert(front[j] == addrs[j]);
        }
        lemma_first_ifindex(front, i);
    } else {
        assert forall|j: int| 0 <= j < front.len() implies !(#[trigger] front[j] is Link) by {
            assert(front[j] == addrs[j]);
        }
        lemma_no_link(front);
    }
}

proof fn lemma_no_link(addrs: Seq<IfAddress>)
    requires
        forall|j: int| 0 <= j < addrs.len() ==> !(#[trigger] addrs[j] is Link),
    ensures
        first_ifindex(addrs) is None,
    decreases addrs.len(),
{
    if addrs.len() > 0 {
        let front = addrs.drop_last();
        assert(!(addrs[addrs.len() - 1] is Link));
        assert forall|j: int| 0 <= j < front.len() implies !(#[trigger] front[j] is Link) by {
            assert(front[j] == addrs[j]);
        }
        lemma_no_link(front);
    }
}

proof fn lemma_first_mac(addrs: Seq<IfAddress>, i: int)
    requires
        0 <= i < addrs.len(),
        has_mac(addrs[i]),
        forall|j: int| 0 <= j < i ==> !has_mac(#[trigger] addrs[j]),
    ensures
        addrs[i] matches IfAddress::Link { ifindex, addr } && first_mac(addrs) == Some(
            addr->Some_0@,
        ),
    decreases addrs.len(),
{
    let front = addrs.drop_last();
    if i < addrs.len() - 1 {
        assert forall|j: int| 0 <= j < i implies !has_mac(#[trigger] front[j]) by {
            assert(front[j] == addrs[j]);
        }
        lemma_first_mac(front, i);
    } else {
        assert forall|j: int| 0 <= j < front.len() implies !has_mac(#[trigger] front[j]) by {
            assert(front[j] == addrs[j]);
        }
        lemma_no_mac(front);
    }
}

proof fn lemma_no_mac(addrs: Seq<IfAddress>)
    requires
        forall|j: int| 0 <= j < addrs.len() ==> !has_mac(#[trigger] addrs[j]),
    ensures
        first_mac(addrs) is None,
    decreases addrs.len(),
{
    if addrs.len() > 0 {
        let front = addrs.drop_last();
        assert(!has_mac(addrs[addrs.len() - 1]));
        assert forall|j: int| 0 <= j < front.len() implies !has_mac(#[trigger] front[j]) by {
            assert(front[j] == addrs[j]);
        }
        lemma_no_mac(front);
    }
}

/// The configuration of an interface has its last IPv4 address, its last IPv6 address, the index in
/// its first link-level address, and the first hardware address.
pub proof fn lemma_configuration(addrs: Seq<IfAddress>, ipv4: int, ipv6: int, link: int, mac: int)
    requires
        0 <= ipv4 < addrs.len() && addrs[ipv4] is Ipv4,
        forall|j: int| ipv4 < j < addrs.len() ==> !(#[trigger] addrs[j] is Ipv4),
        0 <= ipv6 < addrs.len() && addrs[ipv6] is Ipv6,
        forall|j: int| ipv6 < j < addrs.len() ==> !(#[trigger] addrs[j] is Ipv6),
        0 <= link < addrs.len() && addrs[link] is Link,
        forall|j: int| 0 <= j < link ==> !(#[trigger] addrs[j] is Link),
        0 <= mac < addrs.len() && has_mac(addrs[mac]),
        forall|j: int| 0 <= j < mac ==> !has_mac(#[trigger] addrs[j]),
    ensures
        if_conf(addrs) matches Some(conf) && {
            &&& addrs[ipv4] matches IfAddress::Ipv4(octets) && conf.ipv4 == octets@
            &&& addrs[ipv6] matches IfAddress::Ipv6(octets) && conf.ipv6 == octets@
            &&& addrs[link] matches IfAddress::Link { ifindex, addr } && conf.interface
                == ifindex as u32
            &&& addrs[mac] matches IfAddress::Link { ifindex, addr } && conf.mac
                == addr->Some_0@
        },
{
    lemma_last_ipv4(addrs, ipv4);
    lemma_last_ipv6(addrs, ipv6);
    lemma_first_ifindex(addrs, link);
    lemma_first_mac(addrs, mac);
}

proof fn lemma_no_ip(addrs: Seq<IfAddress>)
    ensures
        (forall|j: int| 0 <= j < addrs.len() ==> !(#[trigger] addrs[j] is Ipv4)) ==> last_ipv4(
            addrs,
        ) is None,
        (forall|j: int| 0 <= j < addrs.len() ==> !(#[trigger] addrs[j] is Ipv6)) ==> last_ipv6(
            addrs,
        ) is None,
    decreases addrs.len(),
{
    if addrs.len() > 0 {
        let front = addrs.drop_last();
        let last = addrs[addrs.len() - 1];
        lemma_no_ip(front);
        if forall|j: int| 0 <= j < addrs.len() ==> !(#[trigger] addrs[j] is Ipv4) {
            assert(!(last is Ipv4));
            assert forall|j: int| 0 <= j < front.len() implies !(#[trigger] front[j] is Ipv4) by {
                assert(front[j] == addrs[j]);
            }
        }
        if forall|j: int| 0 <= j < addrs.len() ==> !(#[trigger] addrs[j] is Ipv6) {
            assert(!(last is Ipv6));
            assert forall|j: int| 0 <= j < front.len() implies !(#[trigger] front[j] is Ipv6) by {
                assert(front[j] == addrs[j]);
            }
        }
    }
}

/// An interface that lacks one of these has no configuration.
pub proof fn lemma_no_configuration(addrs: Seq<IfAddress>)
    requires
        (forall|j: int| 0 <= j < addrs.len() ==> !(#[trigger] addrs[j] is Ipv4)) || (forall|j: int|
            0 <= j < addrs.len() ==> !(#[trigger] addrs[j] is Ipv6)) || (forall|j: int|
            0 <= j < addrs.len() ==> !has_mac(#[trigger] addrs[j])),
    ensures
        if_conf(addrs) is None,
{
    lemma_no_ip(addrs);
    if forall|j: int| 0 <= j < addrs.len() ==> !has_mac(#[trigger] addrs[j]) {
        lemma_no_mac(addrs);
    }
}

/// An IPv4 address is shown by its four numbers, with a dot between them.
pub proof fn lemma_ipv4_text(ipv4: Seq<u8>) -> (parts: Seq<Seq<char>>)
    requires
        ipv4.len() == 4,
    ensures
        parts.len() == 4,
        forall|i: int|
            0 <= i < 4 ==> number(#[trigger] parts[i], 10) == Some(ipv4[i] as int),
        ipv4_text(ipv4) == parts[0] + seq!['.'] + parts[1] + seq!['.'] + parts[2] + seq!['.']
            + parts[3],
{
    let parts = Seq::new(4, |i: int| decimal(ipv4[i] as int));
    assert forall|i: int| 0 <= i < 4 implies number(#[trigger] parts[i], 10) == Some(
        ipv4[i] as int,
    ) by {
        lemma_decimal_is_read_back(ipv4[i] as int);
    }
    reveal_strlit(".");
    assert("."@ =~= seq!['.']);
    parts
}

/// A hardware address is shown by two hexadecimal digits per byte, with a colon between the bytes.
pub proof fn lemma_mac_text(mac: Seq<u8>, i: int)
    requires
        mac.len() == 6,
        0 <= i < 6,
    ensures
        mac_text(mac).len() == 17,
        upper_value(mac_text(mac)[3 * i]) is Some,
        upper_value(mac_text(mac)[3 * i + 1]) is Some,
        upper_value(mac_text(mac)[3 * i])->Some_0 * 16 + upper_value(
            mac_text(mac)[3 * i + 1],
        )->Some_0 == mac[i],
        i < 5 ==> mac_text(mac)[3 * i + 2] == ':',
{
    reveal_strlit(":");
    assert(":"@ =~= seq![':']);
    lemma_upper_hex_byte_is_read_back(mac[i]);
    let text = mac_text(mac);
    assert(text[3 * i] == upper_hex_byte(mac[i])[0]);
    assert(text[3 * i + 1] == upper_hex_byte(mac[i])[1]);
}

/// A configuration is shown with all that it consists of.
pub proof fn lemma_conf_text(conf: NetifConfView, ipv6: Seq<char>) -> (interface: Seq<char>)
    ensures
        number(interface, 10) == Some(conf.interface as int),
        conf_text(conf, ipv6) == "IPv4: "@ + ipv4_text(conf.ipv4) + ", IPv6: "@ + ipv6
            + ", Interface: "@ + interface + ", MAC: "@ + mac_text(conf.mac),
{
    lemma_decimal_is_read_back(conf.interface as int);
    decimal(conf.interface as int)
}

} // verus!
