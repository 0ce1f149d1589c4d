//! A controller that hands its commands over to another one, which comes and goes.

use vstd::prelude::*;

use crate::error::ErrorCode;
use crate::wireless::traits::{
    NetworkCredentials, ThreadScanResult, WifiScanResult, WirelessData,
};

verus! {

/// The number of results of a scan that are handed back.
pub const MAX_SCAN_RESULTS: usize = 5;

/// A network that a scan has found.
#[derive(Debug)]
pub enum ScanResult {
    Wifi(WifiScanResult),
    Thread(ThreadScanResult),
}

#[verifier::external_type_specification]
#[verifier::external_body]
#[verifier::reject_recursive_types(T)]
pub struct ExHeaplessVec<T, const N: usize>(heapless::Vec<T, N>);

/// The results that a list of up to five holds, in order.
pub uninterp spec fn held_results(results: heapless::Vec<ScanResult, 5>) -> Seq<ScanResult>;

/// `heapless::Vec::<_, 5>::new`: an empty list.
#[verifier::external_body]
fn results_new() -> (res: heapless::Vec<ScanResult, 5>)
    ensures
        held_results(res) == Seq::<ScanResult>::empty(),
{
    heapless::Vec::new()
}

/// `heapless::Vec::<_, 5>::push`: appends the result, or gives it back and leaves the list as it
/// is when it holds five already.
#[verifier::external_body]
fn results_push(results: &mut heapless::Vec<ScanResult, 5>, result: ScanResult) -> (res: Result<
    (),
    ScanResult,
>)
    ensures
        if held_results(*old(results)).len() < 5 {
            &&& res is Ok
            &&& held_results(*final(results)) == held_results(*old(results)).push(result)
        } else {
            &&& res == Err::<(), ScanResult>(result)
            &&& held_results(*final(results)) == held_results(*old(results))
        },
{
    results.push(result)
}

/// `heapless::Vec::<_, 5>::as_slice`: the results that the list holds, in order.
#[verifier::external_body]
fn results_slice(results: &heapless::Vec<ScanResult, 5>) -> (res: &[ScanResult])
    ensures
        res@ == held_results(*results),
{
    results.as_slice()
}

/// The results of a scan that may have found nothing.
pub open spec fn outcome_results(results: Option<heapless::Vec<ScanResult, 5>>) -> Seq<
    ScanResult,
> {
    match results {
        Some(results) => held_results(results),
        None => Seq::empty(),
    }
}

/// The results of a scan while they come in: the first ones are kept, and the others dropped.
pub struct ScanCollector {
    results: heapless::Vec<ScanResult, 5>,
}

impl View for ScanCollector {
    type V = Seq<ScanResult>;

    closed spec fn view(&self) -> Seq<ScanResult> {
        held_results(self.results)
    }
}

/// The results that are kept of the ones that a scan reports.
pub open spec fn kept_results(reported: Seq<ScanResult>) -> Seq<ScanResult> {
    if reported.len() <= MAX_SCAN_RESULTS {
        reported
    } else {
        reported.take(MAX_SCAN_RESULTS as int)
    }
}

/// Keeping the results one by one keeps the first ones of all.
pub proof fn lemma_kept_results(reported: Seq<ScanResult>, result: ScanResult)
    ensures
        kept_results(reported.push(result)) == (if kept_results(reported).len()
            < MAX_SCAN_RESULTS {
            kept_results(reported).push(result)
        } else {
            kept_results(reported)
        }),
{
    assert(kept_results(reported.push(result)) =~= (if kept_results(reported).len()
        < MAX_SCAN_RESULTS {
        kept_results(reported).push(result)
    } else {
        kept_results(reported)
    }));
}

/// The results that are kept after one more report of a scan.
pub open spec fn collected(kept: Seq<ScanResult>, report: Option<ScanResult>) -> Seq<ScanResult> {
    match report {
        Some(result) => if kept.len() < MAX_SCAN_RESULTS {
            kept.push(result)
        } else {
            kept
        },
        None => kept,
    }
}

impl ScanCollector {
    /// No results yet.
    pub fn new() -> (res: Self)
        ensures
            res@ == Seq::<ScanResult>::empty(),
    {
        Self { results: results_new() }
    }

    /// Take note of a report of the scan: a result, or its end.
    pub fn on_report(&mut self, result: Option<ScanResult>)
        ensures
            final(self)@ == collected(old(self)@, result),
            final(self)@ == (match result {
                Some(result) => if old(self)@.len() < MAX_SCAN_RESULTS {
                    old(self)@.push(result)
                } else {
                    old(self)@
                },
                None => old(self)@,
            }),
    {
        if let Some(result) = result {
            let _ = results_push(&mut self.results, result);
        }
    }

    /// The results, unless the scan has failed.
    pub fn finish(self, scanned: Result<(), ErrorCode>) -> (res: Result<
        heapless::Vec<ScanResult, 5>,
        ErrorCode,
    >)
        ensures
            match scanned {
                Ok(_) => res is Ok && held_results(res->Ok_0) == self@,
                Err(code) => res is Err && res->Err_0 == code,
            },
    {
        match scanned {
            Ok(_) => Ok(self.results),
            Err(code) => Err(code),
        }
    }
}

/// What is passed between the proxy and the controller.
#[verifier::reject_recursive_types(T)]
pub enum ControllerExchange<T> where T: WirelessData {
    Empty,
    Processing,
    Scan(Option<<T::NetworkCredentials as NetworkCredentials>::NetworkId>),
    ScanResult(Result<heapless::Vec<ScanResult, 5>, ErrorCode>),
    Connect(T::NetworkCredentials),
    ConnectResult(Result<(), ErrorCode>),
    ConnectedNetwork,
    ConnectedNetworkResult(
        Result<Option<<T::NetworkCredentials as NetworkCredentials>::NetworkId>, ErrorCode>,
    ),
    Stats,
    StatsResult(Result<T::Stats, ErrorCode>),
}

impl<T> ControllerExchange<T> where T: WirelessData {
    /// Whether the controller has to act.
    pub open spec fn spec_is_command(self) -> bool {
        self is Scan || self is Connect || self is ConnectedNetwork || self is Stats
    }

    /// Whether the proxy can take the exchange back.
    pub open spec fn spec_is_reply(self) -> bool {
        !self.spec_is_command() && !(self is Processing)
    }

    /// Whether `reply` is an answer of the controller to this command.
    pub open spec fn answered_by(self, reply: Self) -> bool {
        match self {
            ControllerExchange::Scan(_) => reply is ScanResult,
            ControllerExchange::Connect(_) => reply is ConnectResult,
            ControllerExchange::ConnectedNetwork => reply is ConnectedNetworkResult,
            ControllerExchange::Stats => reply is StatsResult,
            _ => false,
        }
    }

    /// Whether the proxy can take the exchange back.
    pub fn is_reply(&self) -> (res: bool)
        ensures
            res == self.spec_is_reply(),
    {
        !self.is_command() && !matches!(self, ControllerExchange::Processing)
    }

    /// Whether the controller has to act.
    pub fn is_command(&self) -> (res: bool)
        ensures
            res == self.spec_is_command(),
    {
        matches!(
            self,
            ControllerExchange::Scan(_)
                | ControllerExchange::Connect(_)
                | ControllerExchange::ConnectedNetwork
                | ControllerExchange::Stats
        )
    }
}

/// A controller that hands its commands over to another one, as long as one is connected.
#[verifier::reject_recursive_types(T)]
pub struct ControllerProxy<T> where T: WirelessData {
    pub supports_concurrent_connection: bool,
    pub connected: bool,
    pub pipe: ControllerExchange<T>,
}

/// The proxy after the controller has asked for a command, and the command.
pub open spec fn processed<T: WirelessData>(proxy: ControllerProxy<T>) -> (
    ControllerProxy<T>,
    Option<ControllerExchange<T>>,
) {
    if proxy.pipe.spec_is_command() {
        (
            ControllerProxy { pipe: ControllerExchange::Processing, ..proxy },
            Some(proxy.pipe),
        )
    } else {
        (proxy, None)
    }
}

/// The proxy after the controller has answered.
pub open spec fn answered<T: WirelessData>(
    proxy: ControllerProxy<T>,
    answer: ControllerExchange<T>,
) -> ControllerProxy<T> {
    ControllerProxy { pipe: answer, ..proxy }
}

/// The proxy after it was tried to hand over a command, and the outcome.
pub open spec fn commanded<T: WirelessData>(
    proxy: ControllerProxy<T>,
    command: ControllerExchange<T>,
) -> (ControllerProxy<T>, Result<bool, ControllerExchange<T>>) {
    if !proxy.connected {
        (proxy, Ok(false))
    } else if proxy.pipe is Empty {
        (ControllerProxy { pipe: command, ..proxy }, Ok(true))
    } else {
        (proxy, Err(command))
    }
}

/// The proxy after it was tried to take a reply, and the outcome.
pub open spec fn replied<T: WirelessData>(proxy: ControllerProxy<T>) -> (
    ControllerProxy<T>,
    Option<Result<ControllerExchange<T>, ()>>,
) {
    if !proxy.connected {
        (proxy, Some(Err(())))
    } else if proxy.pipe.spec_is_reply() {
        (
            ControllerProxy { pipe: ControllerExchange::Empty, ..proxy },
            Some(Ok(proxy.pipe)),
        )
    } else {
        (proxy, None)
    }
}

impl<T> ControllerProxy<T> where T: WirelessData {
    /// Create a proxy to which no controller is connected.
    pub fn new(supports_concurrent_connection: bool) -> (res: Self)
        ensures
            res.supports_concurrent_connection == supports_concurrent_connection,
            !res.connected,
            res.pipe is Empty,
    {
        Self { supports_concurrent_connection, connected: false, pipe: ControllerExchange::Empty }
    }

    /// Whether BLE and the wireless network can be used at the same time.
    pub fn supports_concurrent_connection(&self) -> (res: bool)
        ensures
            res == self.supports_concurrent_connection,
    {
        self.supports_concurrent_connection
    }

    /// A controller starts (`true`) or ends (`false`) processing the commands.
    pub fn set_connected(&mut self, connected: bool)
        ensures
            *final(self) == (ControllerProxy { connected, ..*old(self) }),
    {
        self.connected = connected;
    }

    /// The next command for the controller, if there is one. It has to be answered before there
    /// is another.
    pub fn process(&mut self) -> (command: Option<ControllerExchange<T>>)
        ensures
            if old(self).pipe.spec_is_command() {
                &&& command == Some(old(self).pipe)
                &&& *final(self) == (ControllerProxy {
                    pipe: ControllerExchange::Processing,
                    ..*old(self)
                })
            } else {
                &&& command is None
                &&& *final(self) == *old(self)
            },
            (*final(self), command) == processed(*old(self)),
    {
        if !self.pipe.is_command() {
            return None;
        }
        let mut command = ControllerExchange::Processing;
        core::mem::swap(&mut self.pipe, &mut command);
        Some(command)
    }

    /// The controller answers the command.
    pub fn answer(&mut self, answer: ControllerExchange<T>)
        requires
            old(self).pipe is Processing,
        ensures
            *final(self) == (ControllerProxy { pipe: answer, ..*old(self) }),
            *final(self) == answered(*old(self), answer),
    {
        self.pipe = answer;
    }

    /// Try to hand over a command: `Ok(true)` when it was handed over, `Ok(false)` when there is
    /// no controller, and the command itself when it has to wait for an earlier one.
    pub fn command(&mut self, command: ControllerExchange<T>) -> (res: Result<
        bool,
        ControllerExchange<T>,
    >)
        ensures
            if !old(self).connected {
                &&& res is Ok && res->Ok_0 == false
                &&& *final(self) == *old(self)
            } else if old(self).pipe is Empty {
                &&& res is Ok && res->Ok_0 == true
                &&& *final(self) == (ControllerProxy { pipe: command, ..*old(self) })
            } else {
                &&& res is Err && res->Err_0 == command
                &&& *final(self) == *old(self)
            },
            (*final(self), res) == commanded(*old(self), command),
    {
        if !self.connected {
            return Ok(false);
        }
        if !matches!(self.pipe, ControllerExchange::Empty) {
            return Err(command);
        }
        self.pipe = command;
        Ok(true)
    }

    /// Try to take a reply: `Some(Err(()))` when there is no controller any more, `None` when the
    /// reply has to be waited for.
    pub fn reply(&mut self) -> (res: Option<Result<ControllerExchange<T>, ()>>)
        ensures
            if !old(self).connected {
                &&& res == Some(Err::<ControllerExchange<T>, ()>(()))
                &&& *final(self) == *old(self)
            } else if old(self).pipe.spec_is_reply() {
                &&& res == Some(Ok::<ControllerExchange<T>, ()>(old(self).pipe))
                &&& *final(self) == (ControllerProxy {
                    pipe: ControllerExchange::Empty,
                    ..*old(self)
                })
            } else {
                &&& res is None
                &&& *final(self) == *old(self)
            },
            (*final(self), res) == replied(*old(self)),
    {
        if !self.connected {
            return Some(Err(()));
        }
        if !self.pipe.is_reply() {
            return None;
        }
        let mut reply = ControllerExchange::Empty;
        core::mem::swap(&mut self.pipe, &mut reply);
        Some(Ok(reply))
    }
}

/// An exchange waits either for the controller or for the proxy, unless the controller is busy
/// with it.
pub proof fn lemma_command_or_reply<T: WirelessData>(exchange: ControllerExchange<T>)
    ensures
        !(exchange.spec_is_command() && exchange.spec_is_reply()),
        exchange.spec_is_command() || exchange.spec_is_reply() || exchange is Processing,
{
}

/// The answer to a command is for the proxy: the controller does not act on it, and the proxy
/// can take it.
pub proof fn lemma_answer_is_reply<T: WirelessData>(
    command: ControllerExchange<T>,
    answer: ControllerExchange<T>,
)
    requires
        command.answered_by(answer),
    ensures
        answer.spec_is_reply(),
        !answer.spec_is_command(),
{
}

/// A command that was handed over stays in place until the controller has taken it, and from
/// then on nothing can be taken until it is answered.
pub proof fn lemma_command_waits_for_answer<T: WirelessData>(command: ControllerExchange<T>)
    requires
        command.spec_is_command(),
    ensures
        !command.spec_is_reply(),
        !ControllerExchange::<T>::Processing.spec_is_reply(),
        !ControllerExchange::<T>::Processing.spec_is_command(),
        exists|answer: ControllerExchange<T>| #[trigger] command.answered_by(answer),
{
    match command {
        ControllerExchange::Scan(_) => {
            assert(command.answered_by(
                ControllerExchange::ScanResult(Err(ErrorCode::NoNetworkInterface)),
            ));
        },
        ControllerExchange::Connect(_) => {
            assert(command.answered_by(ControllerExchange::ConnectResult(Ok(()))));
        },
        ControllerExchange::Stats => {
            assert(command.answered_by(
                ControllerExchange::StatsResult(Err(ErrorCode::NoNetworkInterface)),
            ));
        },
        _ => {
            assert(command.answered_by(ControllerExchange::ConnectedNetworkResult(Ok(None))));
        },
    }
}

/// The outcome of a scan, given the reply to the command.
pub open spec fn scan_outcome<T: WirelessData>(
    reply: Option<Result<ControllerExchange<T>, ()>>,
) -> Result<Option<heapless::Vec<ScanResult, 5>>, ErrorCode> {
    match reply {
        Some(Ok(ControllerExchange::ScanResult(Ok(results)))) => Ok(Some(results)),
        Some(Ok(ControllerExchange::ScanResult(Err(code)))) => Err(code),
        _ => Ok(None),
    }
}

/// The outcome of connecting, given the reply to the command.
pub open spec fn connect_outcome<T: WirelessData>(
    reply: Option<Result<ControllerExchange<T>, ()>>,
) -> Result<(), ErrorCode> {
    match reply {
        Some(Ok(ControllerExchange::ConnectResult(result))) => result,
        _ => Ok(()),
    }
}

/// The network that there is a connection to, given the reply to the command.
pub open spec fn connected_outcome<T: WirelessData>(
    reply: Option<Result<ControllerExchange<T>, ()>>,
) -> Result<Option<<T::NetworkCredentials as NetworkCredentials>::NetworkId>, ErrorCode> {
    match reply {
        Some(Ok(ControllerExchange::ConnectedNetworkResult(result))) => result,
        _ => Ok(None),
    }
}

/// The statistics, given the reply to the question.
pub open spec fn stats_outcome<T: WirelessData>(
    reply: Option<Result<ControllerExchange<T>, ()>>,
) -> Result<T::Stats, ErrorCode> {
    match reply {
        Some(Ok(ControllerExchange::StatsResult(result))) => result,
        _ => Ok(T::no_stats()),
    }
}

impl<T> ControllerProxy<T> where T: WirelessData {
    /// The outcome of a scan, given the reply to the command. The reply is missing when the
    /// command could not be handed over.
    ///
    /// Without a controller a scan finds nothing.
    pub fn scan(reply: Option<Result<ControllerExchange<T>, ()>>) -> (res: Result<
        Option<heapless::Vec<ScanResult, 5>>,
        ErrorCode,
    >)
        requires
            reply matches Some(Ok(answer)) ==> answer is ScanResult,
        ensures
            match reply {
                Some(Ok(ControllerExchange::ScanResult(Ok(results)))) => res is Ok && res->Ok_0
                    == Some(results),
                Some(Ok(ControllerExchange::ScanResult(Err(code)))) => res is Err && res->Err_0
                    == code,
                _ => res is Ok && res->Ok_0 is None,
            },
            res == scan_outcome(reply),
    {
        match reply {
            Some(Ok(ControllerExchange::ScanResult(Ok(results)))) => Ok(Some(results)),
            Some(Ok(ControllerExchange::ScanResult(Err(code)))) => Err(code),
            _ => Ok(None),
        }
    }

    /// What a scan reports, given its results: these in their order, and then, once and last,
    /// `None`, which tells that there are no more. Where there are no results, only this end is
    /// reported.
    pub fn reports<'a>(results: &'a Option<heapless::Vec<ScanResult, 5>>) -> (res: Vec<
        Option<&'a ScanResult>,
    >)
        ensures
            res.len() == outcome_results(*results).len() + 1,
            forall|i: int|
                0 <= i < outcome_results(*results).len() ==> #[trigger] res[i] == Some(
                    &outcome_results(*results)[i],
                ),
            res@.last() is None,
    {
        let mut res: Vec<Option<&'a ScanResult>> = Vec::new();
        if let Some(results) = results {
            let held = results_slice(results);
            let mut i: usize = 0;
            while i < held.len()
                invariant
                    i <= held.len(),
                    held@ == held_results(*results),
                    res.len() == i,
                    forall|j: int| 0 <= j < i ==> #[trigger] res[j] == Some(&held@[j]),
                decreases held.len() - i,
            {
                res.push(Some(&held[i]));
                i = i + 1;
            }
        }
        res.push(None);
        res
    }

    /// The outcome of connecting to a network, given the reply to the command.
    ///
    /// Without a controller the proxy pretends to connect.
    pub fn connect(reply: Option<Result<ControllerExchange<T>, ()>>) -> (res: Result<
        (),
        ErrorCode,
    >)
        requires
            reply matches Some(Ok(answer)) ==> answer is ConnectResult,
        ensures
            res == (match reply {
                Some(Ok(ControllerExchange::ConnectResult(result))) => result,
                _ => Ok::<(), ErrorCode>(()),
            }),
            res == connect_outcome(reply),
    {
        match reply {
            Some(Ok(ControllerExchange::ConnectResult(result))) => result,
            _ => Ok(()),
        }
    }

    /// The network that the controller is connected to, given the reply to the command.
    ///
    /// Without a controller there is none.
    pub fn connected_network(reply: Option<Result<ControllerExchange<T>, ()>>) -> (res: Result<
        Option<<T::NetworkCredentials as NetworkCredentials>::NetworkId>,
        ErrorCode,
    >)
        requires
            reply matches Some(Ok(answer)) ==> answer is ConnectedNetworkResult,
        ensures
            match reply {
                Some(Ok(ControllerExchange::ConnectedNetworkResult(result))) => res == result,
                _ => res is Ok && res->Ok_0 is None,
            },
            res == connected_outcome(reply),
    {
        match reply {
            Some(Ok(ControllerExchange::ConnectedNetworkResult(result))) => result,
            _ => Ok(None),
        }
    }

    /// The statistics of the interface, given the reply to the question.
    ///
    /// Without a controller these are the ones of an interface that is not in use.
    pub fn stats(reply: Option<Result<ControllerExchange<T>, ()>>) -> (res: Result<
        T::Stats,
        ErrorCode,
    >)
        requires
            reply matches Some(Ok(answer)) ==> answer is StatsResult,
        ensures
            match reply {
                Some(Ok(ControllerExchange::StatsResult(result))) => res == result,
                _ => res is Ok && res->Ok_0 == T::no_stats(),
            },
            res == stats_outcome(reply),
    {
        match reply {
            Some(Ok(ControllerExchange::StatsResult(result))) => result,
            _ => Ok(T::default_stats()),
        }
    }
}

} // verus!
