//! The mDNS responder.

use vstd::prelude::*;
use vstd::slice::slice_to_vec;
use vstd::utf8::{is_ascii_chars, is_ascii_chars_encode_utf8};

use crate::error::ErrorCode;
use crate::digits::{upper_digit_char, upper_hex};
use crate::text::{string16_as_str, string16_chars, string16_new, string16_push};

verus! {

/// The UDP port of mDNS.
pub const MDNS_PORT: u16 = 5353;

/// The IPv4 multicast group of mDNS.
pub const MDNS_IPV4_BROADCAST_ADDR: [u8; 4] = [224, 0, 0, 251];

/// The IPv6 multicast group of mDNS.
pub const MDNS_IPV6_BROADCAST_ADDR: [u8; 16] = [
    0xff,
    0x02,
    0,
    0,
    0,
    0,
    0,
    0,
    0,
    0,
    0,
    0,
    0,
    0,
    0,
    0xfb,
];

/// The name of the host with the given hardware address: its bytes in upper-case hexadecimal
/// digits.
pub fn hostname(mac: &[u8]) -> (res: heapless::String<16>)
    requires
        mac@.len() == 6 || mac@.len() == 8,
    ensures
        string16_chars(res) == upper_hex(mac@),
{
    let mut res = string16_new();
    let mut i: usize = 0;
    while i < mac.len()
        invariant
            mac@.len() <= 8,
            i <= mac@.len(),
            string16_chars(res) == upper_hex(mac@.take(i as int)),
            is_ascii_chars(string16_chars(res)),
            string16_chars(res).len() == 2 * i,
        decreases mac.len() - i,
    {
        let ghost before = string16_chars(res);
        let high: char = upper_digit_char(mac[i] / 16);
        let low: char = upper_digit_char(mac[i] % 16);
        proof {
            is_ascii_chars_encode_utf8(before.push(high));
            is_ascii_chars_encode_utf8(before.push(high).push(low));
            assert(mac@.take(i + 1).drop_last() =~= mac@.take(i as int));
            assert(before.push(high).push(low) =~= before + seq![high, low]);
        }
        let _ = string16_push(&mut res, high);
        let _ = string16_push(&mut res, low);
        i = i + 1;
    }
    assert(mac@.take(i as int) =~= mac@);
    res
}

/// A host as the mDNS responder announces it.
#[derive(Debug)]
pub struct Host {
    pub id: u16,
    pub hostname: heapless::String<16>,
    pub ip: [u8; 4],
    pub ipv6: [u8; 16],
}

impl Host {
    /// The name of the host.
    pub fn name(&self) -> (name: &str)
        ensures
            name@ == string16_chars(self.hostname),
    {
        string16_as_str(&self.hostname)
    }
}

/// What to do next for the mDNS responder.
#[derive(Debug)]
pub enum MdnsStep {
    /// Bind a UDP socket to the port on all addresses, scoped to the interface.
    Bind { port: u16, interface: u32 },
    /// Join the IPv4 multicast group on the interface with the given address.
    JoinV4 { group_v4: [u8; 4], local: [u8; 4] },
    /// Join the IPv6 multicast group on the interface.
    JoinV6 { group_v6: [u8; 16], interface: u32 },
    /// Respond as the given host, on the interface and on the one with the given IPv4 address.
    Respond { host: Host, local: [u8; 4], interface: u32 },
}

/// The contents of `MdnsStep`.
pub enum MdnsStepView {
    Bind { port: u16, interface: u32 },
    JoinV4 { group: Seq<u8>, local: Seq<u8> },
    JoinV6 { group: Seq<u8>, interface: u32 },
    Respond {
        id: u16,
        hostname: Seq<char>,
        ip: Seq<u8>,
        ipv6: Seq<u8>,
        local: Seq<u8>,
        interface: u32,
    },
}

impl View for MdnsStep {
    type V = MdnsStepView;

    open spec fn view(&self) -> MdnsStepView {
        match *self {
            MdnsStep::Bind { port, interface } => MdnsStepView::Bind { port, interface },
            MdnsStep::JoinV4 { group_v4, local } => MdnsStepView::JoinV4 {
                group: group_v4@,
                local: local@,
            },
            MdnsStep::JoinV6 { group_v6, interface } => MdnsStepView::JoinV6 {
                group: group_v6@,
                interface,
            },
            MdnsStep::Respond { host, local, interface } => MdnsStepView::Respond {
                id: host.id,
                hostname: string16_chars(host.hostname),
                ip: host.ip@,
                ipv6: host.ipv6@,
                local: local@,
                interface,
            },
        }
    }
}

/// The contents of `BuiltinMdnsRun`.
pub struct BuiltinMdnsRunView {
    pub mac: Seq<u8>,
    pub ipv4: Seq<u8>,
    pub ipv6: Seq<u8>,
    pub interface: u32,
    pub done: nat,
}

/// The step that comes after the first `done` ones.
pub open spec fn mdns_step(run: BuiltinMdnsRunView) -> MdnsStepView {
    if run.done == 0 {
        MdnsStepView::Bind { port: MDNS_PORT, interface: run.interface }
    } else if run.done == 1 {
        MdnsStepView::JoinV4 { group: MDNS_IPV4_BROADCAST_ADDR@, local: run.ipv4 }
    } else if run.done == 2 {
        MdnsStepView::JoinV6 { group: MDNS_IPV6_BROADCAST_ADDR@, interface: run.interface }
    } else {
        MdnsStepView::Respond {
            id: 0,
            hostname: upper_hex(run.mac),
            ip: run.ipv4,
            ipv6: run.ipv6,
            local: run.ipv4,
            interface: run.interface,
        }
    }
}

/// The course of the built-in mDNS responder.
pub struct BuiltinMdnsRun {
    mac: Vec<u8>,
    ipv4: [u8; 4],
    ipv6: [u8; 16],
    interface: u32,
    done: u8,
}

impl View for BuiltinMdnsRun {
    type V = BuiltinMdnsRunView;

    closed spec fn view(&self) -> BuiltinMdnsRunView {
        BuiltinMdnsRunView {
            mac: self.mac@,
            ipv4: self.ipv4@,
            ipv6: self.ipv6@,
            interface: self.interface,
            done: self.done as nat,
        }
    }
}

impl BuiltinMdnsRun {
    /// The first step.
    pub fn first(&self) -> (step: MdnsStep)
        requires
            self@.done == 0,
        ensures
            step@ == mdns_step(self@),
    {
        MdnsStep::Bind { port: MDNS_PORT, interface: self.interface }
    }

    /// The step after the current one, which either `succeeded` or not. The first failure ends
    /// the responder.
    pub fn next(&mut self, succeeded: bool) -> (res: Result<MdnsStep, ErrorCode>)
        requires
            old(self)@.done < 3,
            succeeded && old(self)@.done == 2 ==> old(self)@.mac.len() == 6 || old(
                self,
            )@.mac.len() == 8,
        ensures
            if succeeded {
                &&& final(self)@ == (BuiltinMdnsRunView {
                    done: old(self)@.done + 1,
                    ..old(self)@
                })
                &&& res is Ok
                &&& res->Ok_0@ == mdns_step(final(self)@)
            } else {
                &&& final(self)@ == old(self)@
                &&& res is Err
                &&& res->Err_0 == ErrorCode::StdIoError
            },
    {
        if !succeeded {
            return Err(ErrorCode::StdIoError);
        }
        self.done = self.done + 1;
        if self.done == 1 {
            Ok(MdnsStep::JoinV4 { group_v4: MDNS_IPV4_BROADCAST_ADDR, local: self.ipv4 })
        } else if self.done == 2 {
            Ok(MdnsStep::JoinV6 { group_v6: MDNS_IPV6_BROADCAST_ADDR, interface: self.interface })
        } else {
            Ok(
                MdnsStep::Respond {
                    host: Host {
                        id: 0,
                        hostname: hostname(self.mac.as_slice()),
                        ip: self.ipv4,
                        ipv6: self.ipv6,
                    },
                    local: self.ipv4,
                    interface: self.interface,
                },
            )
        }
    }
}

/// A built-in mDNS responder for Matter.
pub struct BuiltinMdns;

impl BuiltinMdns {
    /// Prepare the responder.
    ///
    /// Arguments:
    /// - `mac`: The MAC address of the host, used to generate the hostname.
    /// - `ipv4`: The IPv4 address of the host.
    /// - `ipv6`: The IPv6 address of the host.
    /// - `interface`: The interface index for the host, used for IPv6 multicast.
    pub fn run(&self, mac: &[u8], ipv4: [u8; 4], ipv6: [u8; 16], interface: u32) -> (res:
        BuiltinMdnsRun)
        ensures
            res@ == (BuiltinMdnsRunView {
                mac: mac@,
                ipv4: ipv4@,
                ipv6: ipv6@,
                interface,
                done: 0,
            }),
    {
        BuiltinMdnsRun { mac: slice_to_vec(mac), ipv4, ipv6, interface, done: 0 }
    }
}

/// An mDNS responder for Matter using the `zeroconf` service of the system.
pub struct ZeroconfMdns;

/// An mDNS responder for Matter using the DNS-SD service of the system.
pub struct AstroMdns;

/// An adaptor for buffers.
pub struct MatterBuffer<B>(pub B);

impl<B> MatterBuffer<B> {
    /// Create a new instance of `MatterBuffer`
    pub fn new(buffer: B) -> (res: Self)
        ensures
            res.0 == buffer,
    {
        Self(buffer)
    }
}

/// A service of Matter that is announced over mDNS.
#[derive(Debug)]
pub struct MatterService {
    pub name: String,
    pub service: String,
    pub protocol: String,
    pub port: u16,
    pub service_subtypes: Vec<String>,
    pub txt_kvs: Vec<(String, String)>,
}

/// A service of a host, as a general-purpose mDNS responder announces it.
#[derive(Debug)]
pub struct Service {
    pub name: String,
    pub service: String,
    pub protocol: String,
    pub port: u16,
    pub service_subtypes: Vec<String>,
    pub txt_kvs: Vec<(String, String)>,
    pub priority: u16,
    pub weight: u16,
}

impl Service {
    /// The service that stands for the one of Matter: no other service comes before it.
    pub open spec fn of(service: MatterService) -> Self {
        Service {
            name: service.name,
            service: service.service,
            protocol: service.protocol,
            port: service.port,
            service_subtypes: service.service_subtypes,
            txt_kvs: service.txt_kvs,
            priority: 0,
            weight: 0,
        }
    }
}

/// All services of Matter, for a general-purpose mDNS responder.
pub fn emdns_services(services: Vec<MatterService>) -> (res: Vec<Service>)
    ensures
        res@ == services@.map_values(|service: MatterService| Service::of(service)),
{
    let ghost all = services@;
    let mut services = services;
    let mut res: Vec<Service> = Vec::new();
    while services.len() > 0
        invariant
            res.len() <= all.len(),
            services@ == all.skip(res.len() as int),
            forall|i: int| 0 <= i < res.len() ==> res@[i] == Service::of(#[trigger] all[i]),
        decreases services.len(),
    {
        let service = services.remove(0);
        assert(service == all[res.len() as int]);
        res.push(
            Service {
                name: service.name,
                service: service.service,
                protocol: service.protocol,
                port: service.port,
                service_subtypes: service.service_subtypes,
                txt_kvs: service.txt_kvs,
                priority: 0,
                weight: 0,
            },
        );
        assert(services@ =~= all.skip(res.len() as int));
    }
    assert(res@ =~= all.map_values(|service: MatterService| Service::of(service)));
    res
}

} // verus!
