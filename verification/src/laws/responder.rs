//! The mDNS responder announces the host.

use vstd::prelude::*;

use crate::laws::texts::{lemma_upper_hex_is_read_back, upper_value};
use crate::mdns::{mdns_step, BuiltinMdnsRunView, MatterService, MdnsStepView, Service};

verus! {

/// The responder binds the mDNS port on its interface.
pub proof fn lemma_responder_binds(run: BuiltinMdnsRunView)
    requires
        run.done == 0,
    ensures
        mdns_step(run) matches MdnsStepView::Bind { port, interface } && port == 5353 && interface
            == run.interface,
{
}

/// Then it joins the IPv4 multicast group 224.0.0.251 and then the IPv6 multicast group ff02::fb.
pub proof fn lemma_responder_joins(run: BuiltinMdnsRunView)
    ensures
        run.done == 1 ==> (mdns_step(run) matches MdnsStepView::JoinV4 { group, local } && group
            == seq![224u8, 0, 0, 251] && local == run.ipv4),
        run.done == 2 ==> (mdns_step(run) matches MdnsStepView::JoinV6 { group, interface }
            && group.len() == 16 && group[0] == 0xff && group[1] == 2 && group[15] == 0xfb && (
        forall|i: int| 2 <= i < 15 ==> #[trigger] group[i] == 0) && interface == run.interface),
{
    if run.done == 1 {
        assert(crate::mdns::MDNS_IPV4_BROADCAST_ADDR@ =~= seq![224u8, 0, 0, 251]);
    }
}

/// Then it responds, with the addresses of the host and with a name from which the hardware address
/// can be read.
pub proof fn lemma_responder_announces(run: BuiltinMdnsRunView, i: int)
    requires
        run.done >= 3,
        0 <= i < run.mac.len(),
    ensures
        mdns_step(run) matches MdnsStepView::Respond {
            id,
            hostname,
            ip,
            ipv6,
            local,
            interface,
        } && {
            &&& id == 0
            &&& hostname.len() == 2 * run.mac.len()
            &&& upper_value(hostname[2 * i]) is Some
            &&& upper_value(hostname[2 * i + 1]) is Some
            &&& upper_value(hostname[2 * i])->Some_0 * 16 + upper_value(
                hostname[2 * i + 1],
            )->Some_0 == run.mac[i]
            &&& ip == run.ipv4
            &&& ipv6 == run.ipv6
            &&& local == run.ipv4
            &&& interface == run.interface
        },
{
    lemma_upper_hex_is_read_back(run.mac, i);
}

/// A service of Matter is announced as it is, and no other one comes before it.
pub proof fn lemma_service_is_announced(service: MatterService)
    ensures
        Service::of(service).name == service.name,
        Service::of(service).service == service.service,
        Service::of(service).protocol == service.protocol,
        Service::of(service).port == service.port,
        Service::of(service).service_subtypes == service.service_subtypes,
        Service::of(service).txt_kvs == service.txt_kvs,
        Service::of(service).priority == 0,
        Service::of(service).weight == 0,
{
}

} // verus!
