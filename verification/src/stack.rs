//! A stack that follows one network interface.

use vstd::prelude::*;

use crate::error::ErrorCode;
use crate::netif::{conf_view, NetifConf, NetifConfView};
use crate::oper::MATTER_PORT;

verus! {

/// An enum modeling the mDNS service to be used.
#[derive(Copy, Clone, Eq, PartialEq, Debug, Structural)]
pub enum MdnsType {
    /// The built-in mDNS service.
    Builtin,
}

impl MdnsType {
    /// The built-in mDNS service.
    pub fn default() -> (res: Self)
        ensures
            res == MdnsType::Builtin,
    {
        Self::Builtin
    }
}

impl Default for MdnsType {
    fn default() -> (res: Self)
        ensures
            res == MdnsType::Builtin,
    {
        MdnsType::Builtin
    }
}

/// Whether two configurations, each of which may be missing, are the same.
fn same_conf(a: &Option<NetifConf>, b: &Option<NetifConf>) -> (res: bool)
    ensures
        res == (conf_view(*a) == conf_view(*b)),
{
    match (a, b) {
        (Some(a), Some(b)) => a.same(b),
        (None, None) => true,
        _ => false,
    }
}

/// The configuration of the interface as others can see it.
pub struct NetifSignal {
    conf: Option<NetifConf>,
}

impl View for NetifSignal {
    type V = Option<NetifConfView>;

    closed spec fn view(&self) -> Option<NetifConfView> {
        conf_view(self.conf)
    }
}

impl NetifSignal {
    /// No configuration.
    pub fn new() -> (res: Self)
        ensures
            res@ is None,
    {
        Self { conf: None }
    }

    /// The configuration of the interface.
    ///
    /// Useful when user code needs to bring up/down its own IP services depending on
    /// when the interface goes up, down or changes its IP configuration.
    pub fn get_netif_info(&self) -> (conf: Option<NetifConf>)
        ensures
            conf_view(conf) == self@,
    {
        self.conf
    }

    /// The configuration of the interface, once it differs from the previous one; otherwise the
    /// next notification has to be awaited.
    pub fn wait_netif_changed(&self, prev: &Option<NetifConf>) -> (res: Option<Option<NetifConf>>)
        ensures
            match res {
                Some(conf) => conf_view(conf) == self@ && self@ != conf_view(*prev),
                None => self@ == conf_view(*prev),
            },
    {
        if same_conf(&self.conf, prev) {
            None
        } else {
            Some(self.conf)
        }
    }

    /// Withdraw the configuration: `true` when there was one, so that others have to be notified.
    pub fn reset(&mut self) -> (notify: bool)
        ensures
            final(self)@ is None,
            notify == (old(self)@ is Some),
    {
        if self.conf.is_some() {
            self.conf = None;
            true
        } else {
            false
        }
    }

    /// Publish a configuration; others have to be notified.
    pub fn publish(&mut self, conf: NetifConf)
        ensures
            final(self)@ == Some(conf@),
    {
        self.conf = Some(conf);
    }
}

/// What a stack that follows an interface does.
#[derive(Clone, Copy, Debug)]
pub enum NetifAction {
    /// Wait until the configuration of the interface changes, and look at it again.
    WaitConfChange,
    /// Bind the UDP socket of Matter to the port on all addresses, scoped to the interface.
    Bind { port: u16, interface: u32 },
    /// Run the transport and the mDNS service with the given configuration, until one of them
    /// ends or the configuration changes.
    Run(NetifConf),
}

/// The contents of `NetifAction`.
pub enum NetifActionView {
    WaitConfChange,
    Bind { port: u16, interface: u32 },
    Run(NetifConfView),
}

impl View for NetifAction {
    type V = NetifActionView;

    open spec fn view(&self) -> NetifActionView {
        match *self {
            NetifAction::WaitConfChange => NetifActionView::WaitConfChange,
            NetifAction::Bind { port, interface } => NetifActionView::Bind { port, interface },
            NetifAction::Run(conf) => NetifActionView::Run(conf@),
        }
    }
}

impl NetifAction {
    /// Whether the task of the user runs: only while the interface is up.
    pub fn runs_user_task(&self) -> (res: bool)
        ensures
            res == (self@ is Run),
    {
        matches!(self, NetifAction::Run(_))
    }
}

/// The contents of `NetifRun`.
pub struct NetifRunView {
    /// The configuration that the stack runs with, which is also the one that others see.
    pub conf: Option<NetifConfView>,
    /// Whether others are still to be notified that a configuration was withdrawn.
    pub withdrawn: bool,
}

impl NetifRunView {
    /// The state after the configuration was withdrawn, if there was one.
    pub open spec fn withdraw(self) -> Self {
        NetifRunView { conf: None, withdrawn: self.withdrawn || self.conf is Some }
    }
}

/// The course of a stack that follows one interface: whenever the interface has a configuration,
/// the transport and the mDNS service run with it, until it changes.
pub struct NetifRun {
    signal: NetifSignal,
    withdrawn: bool,
}

impl View for NetifRun {
    type V = NetifRunView;

    closed spec fn view(&self) -> NetifRunView {
        NetifRunView { conf: self.signal@, withdrawn: self.withdrawn }
    }
}

impl NetifRun {
    /// A stack that has not started yet.
    pub fn new() -> (res: Self)
        ensures
            res@ == (NetifRunView { conf: None, withdrawn: false }),
    {
        Self { signal: NetifSignal::new(), withdrawn: false }
    }

    /// What others can see of the configuration.
    pub fn signal(&self) -> (signal: &NetifSignal)
        ensures
            signal@ == self@.conf,
    {
        &self.signal
    }

    /// Whether others have to be notified, because a configuration that they could see was
    /// withdrawn since the last call.
    pub fn take_withdrawn(&mut self) -> (notify: bool)
        ensures
            notify == old(self)@.withdrawn,
            final(self)@ == (NetifRunView { withdrawn: false, ..old(self)@ }),
    {
        let notify: bool = self.withdrawn;
        self.withdrawn = false;
        notify
    }

    /// Withdraw the configuration: `true` when there was one.
    fn withdraw(&mut self) -> (notify: bool)
        ensures
            final(self)@ == old(self)@.withdraw(),
            notify == (old(self)@.conf is Some),
    {
        let notify: bool = self.signal.reset();
        if notify {
            self.withdrawn = true;
        }
        notify
    }

    /// Start, or start anew: `true` when others have to be notified.
    pub fn restart(&mut self) -> (notify: bool)
        ensures
            final(self)@ == old(self)@.withdraw(),
            final(self)@ == after_event(old(self)@, NetifRunEvent::Restart),
            notify == (old(self)@.conf is Some),
    {
        self.withdraw()
    }

    /// Look at the configuration of the interface. If there is one, it is published, and others
    /// have to be notified.
    pub fn on_conf(&mut self, conf: Option<NetifConf>) -> (action: NetifAction)
        requires
            old(self)@.conf is None,
        ensures
            final(self)@ == (NetifRunView { conf: conf_view(conf), ..old(self)@ }),
            final(self)@ == after_event(old(self)@, NetifRunEvent::Conf(conf_view(conf))),
            action@ == conf_action(conf_view(conf)),
            action@ == (match conf_view(conf) {
                Some(conf) => NetifActionView::Bind {
                    port: MATTER_PORT,
                    interface: conf.interface,
                },
                None => NetifActionView::WaitConfChange,
            }),
    {
        match conf {
            Some(conf) => {
                self.signal.publish(conf);
                NetifAction::Bind { port: MATTER_PORT, interface: conf.interface }
            },
            None => NetifAction::WaitConfChange,
        }
    }

    /// Take note of whether the socket could be bound. A failure ends the stack, and the
    /// configuration is withdrawn.
    pub fn on_bound(&mut self, bound: bool) -> (res: Result<NetifAction, ErrorCode>)
        requires
            old(self)@.conf is Some,
        ensures
            if bound {
                &&& final(self)@ == old(self)@
                &&& res is Ok && res->Ok_0@ == NetifActionView::Run(old(self)@.conf->Some_0)
            } else {
                &&& final(self)@ == old(self)@.withdraw()
                &&& res is Err && res->Err_0 == ErrorCode::StdIoError
            },
            match bound_action(old(self)@.conf->Some_0, bound) {
                Ok(action) => res is Ok && res->Ok_0@ == action,
                Err(code) => res is Err && res->Err_0 == code,
            },
            final(self)@ == after_event(old(self)@, NetifRunEvent::Bound(bound)),
    {
        match (bound, self.signal.get_netif_info()) {
            (true, Some(conf)) => Ok(NetifAction::Run(conf)),
            _ => {
                self.withdraw();
                Err(ErrorCode::StdIoError)
            },
        }
    }

    /// Whether the configuration of the interface is no longer the one that the stack runs with.
    pub fn is_down(&self, next: &Option<NetifConf>) -> (res: bool)
        ensures
            res == (self@.conf != conf_view(*next)),
    {
        self.signal.wait_netif_changed(next).is_some()
    }

    /// The transport or the mDNS service has ended, or the configuration has changed: a failure
    /// ends the stack, and otherwise it starts anew. In any case the configuration is withdrawn.
    pub fn on_ended(&mut self, result: Result<(), ErrorCode>) -> (res: Result<(), ErrorCode>)
        ensures
            final(self)@ == old(self)@.withdraw(),
            final(self)@ == after_event(old(self)@, NetifRunEvent::Ended),
            res == result,
    {
        self.withdraw();
        result
    }
}

/// What is done once the configuration of the interface was looked at.
pub open spec fn conf_action(conf: Option<NetifConfView>) -> NetifActionView {
    match conf {
        Some(conf) => NetifActionView::Bind { port: MATTER_PORT, interface: conf.interface },
        None => NetifActionView::WaitConfChange,
    }
}

/// What is done with a configuration once the socket was bound, or not.
pub open spec fn bound_action(conf: NetifConfView, bound: bool) -> Result<
    NetifActionView,
    ErrorCode,
> {
    if bound {
        Ok(NetifActionView::Run(conf))
    } else {
        Err(ErrorCode::StdIoError)
    }
}

/// What a stack that follows an interface is told, or asked.
pub enum NetifRunEvent {
    /// It starts, or starts anew.
    Restart,
    /// It looks at the configuration of the interface.
    Conf(Option<NetifConfView>),
    /// The socket was bound, or not.
    Bound(bool),
    /// What ran has ended.
    Ended,
}

/// The state after an event.
pub open spec fn after_event(run: NetifRunView, event: NetifRunEvent) -> NetifRunView {
    match event {
        NetifRunEvent::Restart => run.withdraw(),
        NetifRunEvent::Conf(conf) => NetifRunView { conf, ..run },
        NetifRunEvent::Bound(true) => run,
        NetifRunEvent::Bound(false) => run.withdraw(),
        NetifRunEvent::Ended => run.withdraw(),
    }
}

/// The state after several events.
pub open spec fn after_events(run: NetifRunView, events: Seq<NetifRunEvent>) -> NetifRunView
    decreases events.len(),
{
    if events.len() == 0 {
        run
    } else {
        after_event(after_events(run, events.drop_last()), events.last())
    }
}

/// Whether the `i`-th event withdraws a configuration.
pub open spec fn withdraws(run: NetifRunView, events: Seq<NetifRunEvent>, i: int) -> bool {
    &&& after_events(run, events.take(i)).conf is Some
    &&& match events[i] {
        NetifRunEvent::Restart => true,
        NetifRunEvent::Conf(_) => false,
        NetifRunEvent::Bound(bound) => !bound,
        NetifRunEvent::Ended => true,
    }
}

/// A notification is owed exactly when a configuration was withdrawn since it was last taken,
/// whatever else has happened meanwhile.
pub proof fn lemma_withdrawal_is_notified(run: NetifRunView, events: Seq<NetifRunEvent>)
    requires
        !run.withdrawn,
    ensures
        after_events(run, events).withdrawn <==> exists|i: int|
            0 <= i < events.len() && #[trigger] withdraws(run, events, i),
    decreases events.len(),
{
    if events.len() > 0 {
        let front = events.drop_last();
        let last = events.len() - 1;
        lemma_withdrawal_is_notified(run, front);
        assert(events.take(last) =~= front);
        assert forall|i: int| 0 <= i < last implies #[trigger] withdraws(run, events, i)
            == withdraws(run, front, i) by {
            assert(events.take(i) =~= front.take(i));
        }
        if after_events(run, front).withdrawn {
            let i = choose|i: int| 0 <= i < front.len() && #[trigger] withdraws(run, front, i);
            assert(withdraws(run, events, i));
        }
        if withdraws(run, events, last) {
            assert(after_events(run, events).withdrawn);
        }
        if after_events(run, events).withdrawn && !after_events(run, front).withdrawn {
            assert(withdraws(run, events, last));
        }
    }
}

} // verus!
