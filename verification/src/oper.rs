//! The operational network: when the UDP transport and the mDNS service run, and with what.

use vstd::prelude::*;

use crate::bytes::bytes_eq;
use crate::error::ErrorCode;
use crate::udp::io_outcome;

verus! {

/// The UDP port of Matter.
pub const MATTER_PORT: u16 = 5540;

/// The IPv4 address that stands for none.
pub const IPV4_UNSPECIFIED: [u8; 4] = [0, 0, 0, 0];

/// The IPv6 address that stands for none.
pub const IPV6_UNSPECIFIED: [u8; 16] = [0, 0, 0, 0, 0, 0, 0, 0, 0, 0, 0, 0, 0, 0, 0, 0];

/// The hardware address that stands for none.
pub const MAC_UNSPECIFIED: [u8; 8] = [0, 0, 0, 0, 0, 0, 0, 0];

/// What is known of one network interface of the device.
#[derive(Debug)]
pub struct NetifInfo {
    pub operational: bool,
    pub ipv6_addrs: Vec<[u8; 16]>,
    pub ipv4_addrs: Vec<[u8; 4]>,
    pub hw_addr: [u8; 8],
    pub netif_index: u32,
}

impl NetifInfo {
    /// Whether the operational network can use the interface.
    pub open spec fn usable(self) -> bool {
        self.operational && self.ipv6_addrs.len() > 0
    }
}

/// The contents of `Netif`.
pub struct NetifView {
    pub ipv6: Seq<u8>,
    pub ipv4: Seq<u8>,
    pub mac: Seq<u8>,
    pub operational: bool,
    pub netif_index: u32,
}

/// The network interface that the operational network uses.
#[derive(Debug, Clone, Copy)]
pub struct Netif {
    pub ipv6: [u8; 16],
    pub ipv4: [u8; 4],
    pub mac: [u8; 8],
    pub operational: bool,
    pub netif_index: u32,
}

impl View for Netif {
    type V = NetifView;

    open spec fn view(&self) -> NetifView {
        NetifView {
            ipv6: self.ipv6@,
            ipv4: self.ipv4@,
            mac: self.mac@,
            operational: self.operational,
            netif_index: self.netif_index,
        }
    }
}

/// The interface that is used while none is usable. Only its number is kept.
pub open spec fn netif_down(netif_index: u32) -> NetifView {
    NetifView {
        ipv6: IPV6_UNSPECIFIED@,
        ipv4: IPV4_UNSPECIFIED@,
        mac: MAC_UNSPECIFIED@,
        operational: false,
        netif_index,
    }
}

/// The interface that is used when the given one is usable.
pub open spec fn netif_up(info: NetifInfo) -> NetifView {
    NetifView {
        ipv6: info.ipv6_addrs[0]@,
        ipv4: if info.ipv4_addrs.len() > 0 {
            info.ipv4_addrs[0]@
        } else {
            IPV4_UNSPECIFIED@
        },
        mac: info.hw_addr@,
        operational: true,
        netif_index: info.netif_index,
    }
}

/// The interface that is used, given the interfaces of the device: the last usable one.
pub open spec fn loaded(netif_index: u32, infos: Seq<NetifInfo>) -> NetifView
    decreases infos.len(),
{
    if infos.len() == 0 {
        netif_down(netif_index)
    } else if infos.last().usable() {
        netif_up(infos.last())
    } else {
        loaded(netif_index, infos.drop_last())
    }
}

/// The interface is up exactly when one of those of the device is usable, and then it is the
/// last one of these.
pub proof fn lemma_loaded(netif_index: u32, infos: Seq<NetifInfo>)
    ensures
        loaded(netif_index, infos).operational <==> exists|i: int|
            0 <= i < infos.len() && (#[trigger] infos[i]).usable(),
        loaded(netif_index, infos).operational ==> exists|i: int|
            {
                &&& 0 <= i < infos.len()
                &&& (#[trigger] infos[i]).usable()
                &&& loaded(netif_index, infos) == netif_up(infos[i])
                &&& forall|j: int| i < j < infos.len() ==> !(#[trigger] infos[j]).usable()
            },
        !loaded(netif_index, infos).operational ==> loaded(netif_index, infos) == netif_down(
            netif_index,
        ),
    decreases infos.len(),
{
    if infos.len() > 0 {
        let front = infos.drop_last();
        lemma_loaded(netif_index, front);
        let last = infos.len() - 1;
        if infos[last].usable() {
        } else if loaded(netif_index, front).operational {
            let i = choose|i: int|
                {
                    &&& 0 <= i < front.len()
                    &&& (#[trigger] front[i]).usable()
                    &&& loaded(netif_index, front) == netif_up(front[i])
                    &&& forall|j: int| i < j < front.len() ==> !(#[trigger] front[j]).usable()
                };
            assert(infos[i] == front[i]);
            assert forall|j: int| i < j < infos.len() implies !(#[trigger] infos[j]).usable() by {
                if j < last {
                    assert(front[j] == infos[j]);
                }
            }
        } else {
            assert forall|i: int| 0 <= i < infos.len() implies !(#[trigger] infos[i]).usable() by {
                if i < last {
                    assert(front[i] == infos[i]);
                }
            }
        }
    }
}

/// Looking again at interfaces that have not changed gives the same interface.
pub proof fn lemma_loaded_is_stable(netif_index: u32, infos: Seq<NetifInfo>)
    ensures
        loaded(loaded(netif_index, infos).netif_index, infos) == loaded(netif_index, infos),
    decreases infos.len(),
{
    if infos.len() > 0 && !infos.last().usable() {
        lemma_loaded_is_stable(netif_index, infos.drop_last());
    }
}

impl Netif {
    /// No interface at all.
    pub fn new() -> (res: Self)
        ensures
            res@ == netif_down(0),
    {
        Netif {
            ipv6: IPV6_UNSPECIFIED,
            ipv4: IPV4_UNSPECIFIED,
            mac: MAC_UNSPECIFIED,
            operational: false,
            netif_index: 0,
        }
    }

    /// Choose from the interfaces of the device.
    pub fn load(&mut self, infos: &Vec<NetifInfo>)
        ensures
            final(self)@ == loaded(old(self)@.netif_index, infos@),
    {
        self.operational = false;
        self.ipv6 = IPV6_UNSPECIFIED;
        self.ipv4 = IPV4_UNSPECIFIED;
        self.mac = MAC_UNSPECIFIED;

        let mut i: usize = 0;
        while i < infos.len()
            invariant
                i <= infos.len(),
                self@ == loaded(old(self)@.netif_index, infos@.take(i as int)),
            decreases infos.len() - i,
        {
            let info = &infos[i];
            assert(infos@.take(i + 1).drop_last() =~= infos@.take(i as int));
            assert(infos@.take(i + 1).last() == *info);
            if info.operational && info.ipv6_addrs.len() > 0 {
                self.operational = true;
                self.ipv6 = info.ipv6_addrs[0];
                self.ipv4 = if info.ipv4_addrs.len() > 0 {
                    info.ipv4_addrs[0]
                } else {
                    IPV4_UNSPECIFIED
                };
                self.mac = info.hw_addr;
                self.netif_index = info.netif_index;
            }
            i = i + 1;
        }
        assert(infos@.take(i as int) =~= infos@);
    }

    /// Whether two interfaces are the same in every respect.
    pub fn same(&self, other: &Self) -> (res: bool)
        ensures
            res == (self@ == other@),
    {
        bytes_eq(self.ipv6.as_slice(), other.ipv6.as_slice()) && bytes_eq(
            self.ipv4.as_slice(),
            other.ipv4.as_slice(),
        ) && bytes_eq(self.mac.as_slice(), other.mac.as_slice()) && self.operational
            == other.operational && self.netif_index == other.netif_index
    }
}

/// What runs on the operational network.
#[derive(Debug, Clone, Copy)]
pub enum OperMode {
    /// The UDP transport on the given port of all addresses, together with the commissioning
    /// transport where `chained`, and the mDNS service on the given interface.
    Operational { port: u16, chained: bool, netif: Netif },
    /// The commissioning transport only.
    Commissioning,
    /// Nothing: no interface is usable.
    Down,
}

/// The contents of `OperMode`.
pub enum OperModeView {
    Operational { port: u16, chained: bool, netif: NetifView },
    Commissioning,
    Down,
}

impl View for OperMode {
    type V = OperModeView;

    open spec fn view(&self) -> OperModeView {
        match *self {
            OperMode::Operational { port, chained, netif } => OperModeView::Operational {
                port,
                chained,
                netif: netif@,
            },
            OperMode::Commissioning => OperModeView::Commissioning,
            OperMode::Down => OperModeView::Down,
        }
    }
}

/// What runs, given the interface and whether there is a commissioning transport.
pub open spec fn oper_mode(netif: NetifView, comm: bool) -> OperModeView {
    if netif.operational {
        OperModeView::Operational { port: MATTER_PORT, chained: comm, netif }
    } else if comm {
        OperModeView::Commissioning
    } else {
        OperModeView::Down
    }
}

impl OperMode {
    /// Whether the task of the user runs: only while an interface is up.
    pub fn runs_user_task(&self) -> (res: bool)
        ensures
            res == (self@ is Operational),
    {
        matches!(self, OperMode::Operational { .. })
    }
}

/// What has come to an end first.
#[derive(Debug, Clone, Copy, PartialEq, Eq)]
pub enum OperEvent {
    /// The transport.
    Network(Result<(), ErrorCode>),
    /// The mDNS service.
    Mdns(Result<(), ErrorCode>),
    /// The wait for a change of the interface.
    NetifChanged(Result<(), ErrorCode>),
    /// The task that limits how long the operational network runs.
    Until(Result<(), ErrorCode>),
}

/// How the operational network ends, or `None` when it goes on with the interface as it is now.
pub open spec fn oper_outcome(event: OperEvent) -> Option<Result<(), ErrorCode>> {
    match event {
        OperEvent::NetifChanged(_) => None,
        OperEvent::Network(result) => Some(result),
        OperEvent::Mdns(result) => Some(result),
        OperEvent::Until(result) => Some(result),
    }
}

/// The contents of `OperNet`.
pub struct OperNetView {
    pub comm: bool,
    pub current: NetifView,
    pub latest: NetifView,
}

/// The course of the operational network, which is started anew whenever the interface changes.
pub struct OperNet {
    comm: bool,
    current: Netif,
    latest: Netif,
}

impl View for OperNet {
    type V = OperNetView;

    closed spec fn view(&self) -> OperNetView {
        OperNetView { comm: self.comm, current: self.current@, latest: self.latest@ }
    }
}

/// The course after a start with these interfaces.
pub open spec fn oper_start(comm: bool, infos: Seq<NetifInfo>) -> OperNetView {
    OperNetView { comm, current: netif_down(0), latest: loaded(0, infos) }
}

/// The course after it goes on with the interface as it is now.
pub open spec fn oper_begin(net: OperNetView) -> OperNetView {
    OperNetView { current: net.latest, ..net }
}

/// The course after a look at the interfaces.
pub open spec fn oper_look(net: OperNetView, infos: Seq<NetifInfo>) -> OperNetView {
    OperNetView { latest: loaded(net.latest.netif_index, infos), ..net }
}

/// Whether the interface differs from the one in use.
pub open spec fn oper_differs(net: OperNetView) -> bool {
    net.latest != net.current
}

impl OperNet {
    /// Start from the interfaces that were `reported`, unless the report failed. `comm` tells
    /// that there is a commissioning transport too.
    pub fn start(
        comm: bool,
        infos: &Vec<NetifInfo>,
        reported: Result<(), ErrorCode>,
    ) -> (res: Result<Self, ErrorCode>)
        ensures
            match reported {
                Ok(_) => {
                    &&& res is Ok
                    &&& res->Ok_0@ == (OperNetView {
                        comm,
                        current: netif_down(0),
                        latest: loaded(0, infos@),
                    })
                    &&& res->Ok_0@ == oper_start(comm, infos@)
                },
                Err(code) => res is Err && res->Err_0 == code,
            },
    {
        let mut latest = Netif::new();
        latest.load(infos);
        match reported {
            Ok(_) => Ok(OperNet { comm, current: Netif::new(), latest }),
            Err(code) => Err(code),
        }
    }

    /// Go on with the interface as it is now.
    pub fn begin(&mut self) -> (mode: OperMode)
        ensures
            final(self)@ == (OperNetView { current: old(self)@.latest, ..old(self)@ }),
            final(self)@ == oper_begin(old(self)@),
            mode@ == oper_mode(old(self)@.latest, old(self)@.comm),
    {
        self.current = self.latest;
        if self.current.operational {
            OperMode::Operational { port: MATTER_PORT, chained: self.comm, netif: self.current }
        } else if self.comm {
            OperMode::Commissioning
        } else {
            OperMode::Down
        }
    }

    /// The outcome of binding the UDP socket.
    pub fn bound(&self, bound: bool) -> (res: Result<(), ErrorCode>)
        ensures
            res == (if bound {
                Ok::<(), ErrorCode>(())
            } else {
                Err(ErrorCode::StdIoError)
            }),
            res == io_outcome(bound),
    {
        if bound {
            Ok(())
        } else {
            Err(ErrorCode::StdIoError)
        }
    }

    /// Look at the interfaces that were `reported`: whether the interface differs from the one
    /// in use, so that the wait for a change is over.
    pub fn netif_changed(
        &mut self,
        infos: &Vec<NetifInfo>,
        reported: Result<(), ErrorCode>,
    ) -> (res: Result<bool, ErrorCode>)
        ensures
            final(self)@ == (OperNetView {
                latest: loaded(old(self)@.latest.netif_index, infos@),
                ..old(self)@
            }),
            final(self)@ == oper_look(old(self)@, infos@),
            reported is Ok ==> res == Ok::<bool, ErrorCode>(oper_differs(final(self)@)),
            match reported {
                Ok(_) => res == Ok::<bool, ErrorCode>(final(self)@.latest != final(self)@.current),
                Err(code) => res == Err::<bool, ErrorCode>(code),
            },
    {
        self.latest.load(infos);
        match reported {
            Ok(_) => Ok(!self.latest.same(&self.current)),
            Err(code) => Err(code),
        }
    }

    /// How the operational network ends, or `None` when it goes on with the interface as it is
    /// now. A failure to look at the interfaces does not end it.
    pub fn ended(&self, event: OperEvent) -> (res: Option<Result<(), ErrorCode>>)
        ensures
            res == oper_outcome(event),
    {
        match event {
            OperEvent::NetifChanged(_) => None,
            OperEvent::Network(result) => Some(result),
            OperEvent::Mdns(result) => Some(result),
            OperEvent::Until(result) => Some(result),
        }
    }
}

/// The operational network is not started anew as long as the interfaces stay as they are: when
/// it runs with what was chosen from the interfaces, looking at them again finds no change.
pub proof fn lemma_no_restart_without_change(
    net: OperNetView,
    netif_index: u32,
    infos: Seq<NetifInfo>,
)
    requires
        net.latest == loaded(netif_index, infos),
        net.current == net.latest,
    ensures
        loaded(net.latest.netif_index, infos) == net.current,
{
    lemma_loaded_is_stable(netif_index, infos);
}

/// The task of the user runs exactly as long as one of the interfaces that were looked at is
/// usable, whether or not there is a commissioning transport.
pub proof fn lemma_user_task_needs_interface(netif_index: u32, infos: Seq<NetifInfo>, comm: bool)
    ensures
        oper_mode(loaded(netif_index, infos), comm) is Operational <==> exists|i: int|
            0 <= i < infos.len() && (#[trigger] infos[i]).usable(),
{
    lemma_loaded(netif_index, infos);
}

/// The UDP transport runs only with an interface that has an IPv6 address: what the mDNS service
/// announces is the address of one of the interfaces that were looked at.
pub proof fn lemma_operational_has_address(
    netif_index: u32,
    infos: Seq<NetifInfo>,
    comm: bool,
)
    requires
        oper_mode(loaded(netif_index, infos), comm) is Operational,
    ensures
        exists|i: int|
            {
                &&& 0 <= i < infos.len()
                &&& (#[trigger] infos[i]).operational
                &&& infos[i].ipv6_addrs.len() > 0
                &&& loaded(netif_index, infos).ipv6 == infos[i].ipv6_addrs[0]@
                &&& loaded(netif_index, infos).mac == infos[i].hw_addr@
            },
{
    lemma_loaded(netif_index, infos);
    let i = choose|i: int|
        {
            &&& 0 <= i < infos.len()
            &&& (#[trigger] infos[i]).usable()
            &&& loaded(netif_index, infos) == netif_up(infos[i])
            &&& forall|j: int| i < j < infos.len() ==> !(#[trigger] infos[j]).usable()
        };
    assert(infos[i].operational);
}

} // verus!
