//! Wifi manager module.

use vstd::prelude::*;

use crate::error::ErrorCode;
use crate::text::{
    string32_chars, string32_clone, string64_as_str, string64_chars, string64_clone,
};
use crate::wifi::{WifiContext, WifiCredentials, WifiCredentialsView};
use crate::wireless::mgmt::{
    manager_step, pick_step, ManagerAction, ManagerEvent, ManagerRun, ManagerView,
};
use crate::wireless::store::NetworkContextView;
use crate::wireless::svc::AuthMethod;

verus! {

/// The ways to authenticate that are tried in turn: an open network only without a password, and
/// all the others only with one.
pub open spec fn auth_methods(open: bool) -> Seq<AuthMethod> {
    if open {
        seq![AuthMethod::Open]
    } else {
        seq![AuthMethod::WPAWPA2Personal, AuthMethod::WPA2WPA3Personal, AuthMethod::WEP]
    }
}

/// What the Wifi driver has to do to connect to a network.
#[derive(Debug)]
pub enum ConnectAction {
    /// Stop; a failure does not matter.
    Stop,
    /// Configure the driver as a client of the given network.
    SetConfiguration {
        ssid: heapless::String<32>,
        auth_method: AuthMethod,
        password: heapless::String<64>,
    },
    /// Start.
    Start,
    /// Connect.
    Connect,
    /// Nothing more: there is a connection or not.
    Finish { connected: bool },
}

/// The contents of `ConnectAction`.
pub enum ConnectActionView {
    Stop,
    SetConfiguration { ssid: Seq<char>, auth_method: AuthMethod, password: Seq<char> },
    Start,
    Connect,
    Finish { connected: bool },
}

impl View for ConnectAction {
    type V = ConnectActionView;

    open spec fn view(&self) -> ConnectActionView {
        match *self {
            ConnectAction::Stop => ConnectActionView::Stop,
            ConnectAction::SetConfiguration { ssid, auth_method, password } => {
                ConnectActionView::SetConfiguration {
                    ssid: string32_chars(ssid),
                    auth_method,
                    password: string64_chars(password),
                }
            },
            ConnectAction::Start => ConnectActionView::Start,
            ConnectAction::Connect => ConnectActionView::Connect,
            ConnectAction::Finish { connected } => ConnectActionView::Finish { connected },
        }
    }
}

/// Which action the driver is busy with.
#[derive(Debug, Clone, Copy, PartialEq, Eq, Structural)]
pub enum ConnectPhase {
    Stopping,
    Configuring,
    Starting,
    Connecting,
    Finished,
}

/// The contents of `WifiConnect`.
pub struct WifiConnectView {
    pub creds: WifiCredentialsView,
    pub attempt: nat,
    pub phase: ConnectPhase,
}

/// An attempt to connect that has just begun.
pub open spec fn connect_start(creds: WifiCredentialsView) -> WifiConnectView {
    WifiConnectView { creds, attempt: 0, phase: ConnectPhase::Stopping }
}

/// The end of an attempt to connect.
pub open spec fn connect_finish(run: WifiConnectView, connected: bool) -> (
    WifiConnectView,
    ConnectActionView,
) {
    (
        WifiConnectView { phase: ConnectPhase::Finished, ..run },
        ConnectActionView::Finish { connected },
    )
}

/// The way to authenticate has failed: the next one is tried, if there is one.
pub open spec fn connect_retry(run: WifiConnectView) -> (WifiConnectView, ConnectActionView) {
    if run.attempt + 1 < auth_methods(run.creds.password.len() == 0).len() {
        (
            WifiConnectView { attempt: run.attempt + 1, phase: ConnectPhase::Stopping, ..run },
            ConnectActionView::Stop,
        )
    } else {
        connect_finish(run, false)
    }
}

/// What follows when the action that the driver is busy with has `succeeded` or failed. The
/// driver of an open network does not have to be told to connect.
pub open spec fn connect_next(run: WifiConnectView, succeeded: bool) -> (
    WifiConnectView,
    ConnectActionView,
) {
    let method = auth_methods(run.creds.password.len() == 0)[run.attempt as int];
    match run.phase {
        ConnectPhase::Stopping => (
            WifiConnectView { phase: ConnectPhase::Configuring, ..run },
            ConnectActionView::SetConfiguration {
                ssid: run.creds.ssid,
                auth_method: method,
                password: run.creds.password,
            },
        ),
        ConnectPhase::Configuring => if succeeded {
            (WifiConnectView { phase: ConnectPhase::Starting, ..run }, ConnectActionView::Start)
        } else {
            connect_retry(run)
        },
        ConnectPhase::Starting => if !succeeded {
            connect_retry(run)
        } else if method == AuthMethod::Open {
            connect_finish(run, true)
        } else {
            (WifiConnectView { phase: ConnectPhase::Connecting, ..run }, ConnectActionView::Connect)
        },
        ConnectPhase::Connecting => if succeeded {
            connect_finish(run, true)
        } else {
            connect_retry(run)
        },
        ConnectPhase::Finished => connect_finish(run, false),
    }
}

/// An attempt to connect to a network, with one way to authenticate after the other.
pub struct WifiConnect {
    ssid: heapless::String<32>,
    password: heapless::String<64>,
    attempt: usize,
    phase: ConnectPhase,
}

impl View for WifiConnect {
    type V = WifiConnectView;

    closed spec fn view(&self) -> WifiConnectView {
        WifiConnectView {
            creds: WifiCredentialsView {
                ssid: string32_chars(self.ssid),
                password: string64_chars(self.password),
            },
            attempt: self.attempt as nat,
            phase: self.phase,
        }
    }
}

impl WifiConnect {
    /// There is a way to authenticate that is being tried.
    pub open spec fn wf(&self) -> bool {
        self@.attempt < auth_methods(self@.creds.password.len() == 0).len()
    }

    /// Start an attempt, with a stop of the driver as its first action.
    pub fn new(creds: &WifiCredentials) -> (res: Self)
        ensures
            res.wf(),
            res@ == (WifiConnectView {
                creds: creds@,
                attempt: 0,
                phase: ConnectPhase::Stopping,
            }),
            res@ == connect_start(creds@),
    {
        WifiConnect {
            ssid: string32_clone(&creds.ssid),
            password: string64_clone(&creds.password),
            attempt: 0,
            phase: ConnectPhase::Stopping,
        }
    }

    /// The way to authenticate that is being tried.
    fn auth_method(&self) -> (res: AuthMethod)
        requires
            self.wf(),
        ensures
            res == auth_methods(self@.creds.password.len() == 0)[self@.attempt as int],
    {
        if string64_as_str(&self.password).is_empty() {
            AuthMethod::Open
        } else if self.attempt == 0 {
            AuthMethod::WPAWPA2Personal
        } else if self.attempt == 1 {
            AuthMethod::WPA2WPA3Personal
        } else {
            AuthMethod::WEP
        }
    }

    /// Try the next way to authenticate, if there is one.
    fn retry(&mut self) -> (action: ConnectAction)
        requires
            old(self).wf(),
        ensures
            final(self).wf(),
            (final(self)@, action@) == connect_retry(old(self)@),
    {
        let methods: usize = if string64_as_str(&self.password).is_empty() {
            1
        } else {
            3
        };
        if self.attempt + 1 < methods {
            self.attempt = self.attempt + 1;
            self.phase = ConnectPhase::Stopping;
            ConnectAction::Stop
        } else {
            self.phase = ConnectPhase::Finished;
            ConnectAction::Finish { connected: false }
        }
    }

    /// What follows when the action that the driver is busy with has `succeeded` or failed.
    pub fn next(&mut self, succeeded: bool) -> (action: ConnectAction)
        requires
            old(self).wf(),
            old(self)@.phase != ConnectPhase::Finished,
        ensures
            final(self).wf(),
            (final(self)@, action@) == connect_next(old(self)@, succeeded),
    {
        match self.phase {
            ConnectPhase::Stopping => {
                self.phase = ConnectPhase::Configuring;
                ConnectAction::SetConfiguration {
                    ssid: string32_clone(&self.ssid),
                    auth_method: self.auth_method(),
                    password: string64_clone(&self.password),
                }
            },
            ConnectPhase::Configuring => {
                if !succeeded {
                    return self.retry();
                }
                self.phase = ConnectPhase::Starting;
                ConnectAction::Start
            },
            ConnectPhase::Starting => {
                if !succeeded {
                    return self.retry();
                }
                if self.auth_method() == AuthMethod::Open {
                    self.phase = ConnectPhase::Finished;
                    return ConnectAction::Finish { connected: true };
                }
                self.phase = ConnectPhase::Connecting;
                ConnectAction::Connect
            },
            ConnectPhase::Connecting => {
                if !succeeded {
                    return self.retry();
                }
                self.phase = ConnectPhase::Finished;
                ConnectAction::Finish { connected: true }
            },
            ConnectPhase::Finished => ConnectAction::Finish { connected: false },
        }
    }

    /// How far the attempt is from its end: it decreases with every action.
    pub open spec fn rank(run: WifiConnectView) -> int {
        let left = auth_methods(run.creds.password.len() == 0).len() - run.attempt;
        4 * left - match run.phase {
            ConnectPhase::Stopping => 0int,
            ConnectPhase::Configuring => 1,
            ConnectPhase::Starting => 2,
            ConnectPhase::Connecting => 3,
            ConnectPhase::Finished => 4 * left,
        }
    }
}

/// An attempt to connect comes to an end, whatever the driver does.
pub proof fn lemma_connect_ends(run: WifiConnectView, succeeded: bool)
    requires
        run.attempt < auth_methods(run.creds.password.len() == 0).len(),
        run.phase != ConnectPhase::Finished,
    ensures
        0 <= WifiConnect::rank(connect_next(run, succeeded).0) < WifiConnect::rank(run),
        connect_next(run, succeeded).0.phase == ConnectPhase::Finished <==> connect_next(
            run,
            succeeded,
        ).1 is Finish,
{
}

/// A generic Wifi manager.
///
/// Connects to one of the networks that the Matter stack knows, in preference order matching the
/// order of the networks there, and the connect request that might be provided by the Matter
/// stack.
///
/// Also monitors the Wifi connection status and retries the connection
/// with a backoff strategy and in a round-robin fashion with the other
/// networks in case of a failure.
pub struct WifiManager<W> {
    wifi: W,
    run: Option<ManagerRun<WifiCredentials>>,
}

/// What the manager is told to do, which has to be something: without a network it cannot run.
pub open spec fn run_outcome<V>(action: ManagerAction<V>) -> Result<ManagerAction<V>, ErrorCode> {
    match action {
        ManagerAction::WaitActivated => Err(ErrorCode::Invalid),
        action => Ok(action),
    }
}

impl<W> WifiManager<W> {
    /// The driver.
    pub closed spec fn spec_wifi(&self) -> W {
        self.wifi
    }

    /// The course of the manager, once it has been started.
    pub closed spec fn spec_run(&self) -> Option<ManagerView<WifiCredentialsView>> {
        match self.run {
            Some(run) => Some(run@),
            None => None,
        }
    }

    /// While the manager is busy with a network, it has the credentials for it.
    pub closed spec fn wf(&self) -> bool {
        self.run matches Some(run) ==> run.wf()
    }

    /// Create a new Wifi manager.
    pub fn new(wifi: W) -> (res: Self)
        ensures
            res.wf(),
            res.spec_wifi() == wifi,
            res.spec_run() is None,
    {
        Self { wifi, run: None }
    }

    /// The driver.
    pub fn wifi(&self) -> (res: &W)
        ensures
            *res == self.spec_wifi(),
    {
        &self.wifi
    }

    /// Start the manager (without an event), or go on after an event. It cannot run without a
    /// network.
    pub fn run<const N: usize>(
        &mut self,
        context: &mut WifiContext<N>,
        event: Option<ManagerEvent>,
    ) -> (res: Result<ManagerAction<WifiCredentials>, ErrorCode>)
        requires
            old(self).wf(),
            old(context).wf(),
            match event {
                Some(event) => old(self).spec_run() matches Some(run) && event.fits(run.phase),
                None => true,
            },
        ensures
            final(self).wf(),
            final(context).wf(),
            final(self).spec_wifi() == old(self).spec_wifi(),
            ({
                let step = match event {
                    Some(event) => manager_step::<WifiCredentials>(
                        old(self).spec_run()->Some_0,
                        old(context)@.state,
                        event,
                    ),
                    None => pick_step::<WifiCredentials>(None, old(context)@.state),
                };
                &&& final(self).spec_run() == Some(step.manager)
                &&& final(context)@ == (NetworkContextView { state: step.state, ..old(context)@ })
                &&& match step.action {
                    ManagerAction::WaitActivated => res is Err && res->Err_0
                        == ErrorCode::Invalid,
                    action => res is Ok && res->Ok_0@ == action,
                }
                &&& match run_outcome(step.action) {
                    Ok(action) => res is Ok && res->Ok_0@ == action,
                    Err(code) => res is Err && res->Err_0 == code,
                }
            }),
    {
        let action = match (&mut self.run, event) {
            (Some(run), Some(event)) => run.next(&mut context.context.state, event),
            _ => {
                let (run, action) = ManagerRun::start(&mut context.context.state);
                self.run = Some(run);
                action
            },
        };
        match action {
            // No networks, bail out
            ManagerAction::WaitActivated => Err(ErrorCode::Invalid),
            action => Ok(action),
        }
    }
}

} // verus!
