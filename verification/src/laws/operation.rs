//! The operational network uses the interfaces of the device.

use vstd::prelude::*;

use crate::error::ErrorCode;
use crate::oper::{
    lemma_loaded, lemma_loaded_is_stable, loaded, oper_begin, oper_differs, oper_look, oper_mode,
    oper_outcome, oper_start, NetifInfo, NetifView, OperEvent, OperModeView, OperNetView,
};
use crate::udp::{io_outcome, received_from, remote_of, Address};

verus! {

/// The interface can be used: it is up and has an IPv6 address.
pub open spec fn can_be_used(info: NetifInfo) -> bool {
    info.operational && info.ipv6_addrs@.len() > 0
}

/// The address has this many bytes, which are all zero.
pub open spec fn is_unspecified(address: Seq<u8>, len: nat) -> bool {
    address.len() == len && forall|i: int| 0 <= i < len ==> #[trigger] address[i] == 0
}

/// The last interface that can be used is the one that is used: with its number, its hardware
/// address, its first IPv6 address, and its first IPv4 address unless it has none.
pub proof fn lemma_last_usable_is_used(netif_index: u32, infos: Seq<NetifInfo>, i: int)
    requires
        0 <= i < infos.len(),
        can_be_used(infos[i]),
        forall|j: int| i < j < infos.len() ==> !can_be_used(#[trigger] infos[j]),
    ensures
        ({
            let netif = loaded(netif_index, infos);
            &&& netif.operational
            &&& netif.ipv6 == infos[i].ipv6_addrs@[0]@
            &&& infos[i].ipv4_addrs@.len() > 0 ==> netif.ipv4 == infos[i].ipv4_addrs@[0]@
            &&& infos[i].ipv4_addrs@.len() == 0 ==> is_unspecified(netif.ipv4, 4)
            &&& netif.mac == infos[i].hw_addr@
            &&& netif.netif_index == infos[i].netif_index
        }),
    decreases infos.len(),
{
    if i < infos.len() - 1 {
        let front = infos.drop_last();
        assert(!can_be_used(infos[infos.len() - 1]));
        assert forall|j: int| i < j < front.len() implies !can_be_used(#[trigger] front[j]) by {
            assert(front[j] == infos[j]);
        }
        lemma_last_usable_is_used(netif_index, front, i);
    }
}

/// As long as no interface can be used, none is: there are no addresses, and only the number of
/// the last one is known.
pub proof fn lemma_none_is_used(netif_index: u32, infos: Seq<NetifInfo>)
    requires
        forall|j: int| 0 <= j < infos.len() ==> !can_be_used(#[trigger] infos[j]),
    ensures
        ({
            let netif = loaded(netif_index, infos);
            &&& !netif.operational
            &&& is_unspecified(netif.ipv6, 16)
            &&& is_unspecified(netif.ipv4, 4)
            &&& is_unspecified(netif.mac, 8)
            &&& netif.netif_index == netif_index
        }),
{
    lemma_loaded(netif_index, infos);
    assert forall|j: int| 0 <= j < infos.len() implies !(#[trigger] infos[j]).usable() by {
        assert(!can_be_used(infos[j]));
    }
}

/// The UDP transport runs on the Matter port with the interface that is used, together with the
/// commissioning transport if there is one. Without an interface the commissioning transport runs
/// alone.
pub proof fn lemma_what_runs(netif: NetifView, comm: bool)
    ensures
        netif.operational ==> (oper_mode(netif, comm) matches OperModeView::Operational {
            port,
            chained,
            netif: used,
        } && port == 5540 && chained == comm && used == netif),
        !netif.operational && comm ==> oper_mode(netif, comm) is Commissioning,
        !netif.operational && !comm ==> oper_mode(netif, comm) is Down,
{
}

/// The operational network starts with none of the interfaces in use, and uses the one that was
/// found as soon as it begins.
pub proof fn lemma_interface_is_taken_over(comm: bool, infos: Seq<NetifInfo>)
    ensures
        ({
            let start = oper_start(comm, infos);
            &&& !start.current.operational
            &&& start.latest == loaded(0, infos)
            &&& start.comm == comm
            &&& oper_begin(start).current == loaded(0, infos)
        }),
{
}

/// A change of the interface is found exactly when the one that is found now is another than the
/// one in use, and it is gone once the operational network has begun anew.
pub proof fn lemma_change_is_found(net: OperNetView, infos: Seq<NetifInfo>)
    ensures
        ({
            let looked = oper_look(net, infos);
            let begun = oper_begin(looked);
            &&& looked.comm == net.comm
            &&& looked.current == net.current
            &&& looked.latest == loaded(net.latest.netif_index, infos)
            &&& oper_differs(looked) <==> loaded(net.latest.netif_index, infos) != net.current
            &&& begun.comm == net.comm
            &&& begun.current == looked.latest
            &&& begun.latest == looked.latest
            &&& !oper_differs(begun)
            &&& !oper_differs(oper_look(begun, infos))
        }),
{
    lemma_loaded_is_stable(net.latest.netif_index, infos);
}

/// Whom something was received from can be sent something, and nobody else but the peers over UDP.
/// A failure of the socket is an I/O error.
pub proof fn lemma_peers<A>(size: usize, addr: A, peer: Address<A>, remote: A)
    ensures
        received_from(Some((size, addr))) matches Ok((len, from)) && len == size && remote_of(from)
            == Ok::<A, ErrorCode>(addr),
        received_from::<A>(None) == Err::<(usize, Address<A>), ErrorCode>(ErrorCode::StdIoError),
        remote_of(peer) == Ok::<A, ErrorCode>(remote) <==> peer == Address::Udp(remote),
        !(peer is Udp) ==> remote_of(peer) == Err::<A, ErrorCode>(ErrorCode::NoNetworkInterface),
        io_outcome(true) == Ok::<(), ErrorCode>(()),
        io_outcome(false) == Err::<(), ErrorCode>(ErrorCode::StdIoError),
{
}

/// The operational network goes on when a wait for a change of the interface is over, however that
/// came about, and ends when anything else does, in the way that did.
pub proof fn lemma_what_ends(event: OperEvent, result: Result<(), ErrorCode>)
    ensures
        oper_outcome(event) is None <==> event is NetifChanged,
        oper_outcome(OperEvent::Network(result)) == Some(result),
        oper_outcome(OperEvent::Mdns(result)) == Some(result),
        oper_outcome(OperEvent::Until(result)) == Some(result),
{
}

} // verus!
