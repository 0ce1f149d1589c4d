//! Commands are handed over to a controller, and diagnostics are read from it.

use vstd::prelude::*;

use crate::error::ErrorCode;
use crate::wireless::diag::thread::thread_diag_value;
use crate::wireless::diag::wifi::{diag_command, diag_value, DiagRead, WifiDiagValue};
use crate::wireless::proxy::{
    answered, collected, commanded, connect_outcome, connected_outcome, kept_results, processed,
    replied, scan_outcome, stats_outcome, ControllerExchange, ControllerProxy, ScanResult,
};
use crate::wireless::traits::{NetworkCredentials, WifiNwDiagData, WirelessData};

verus! {

/// The exchange is a question to the controller, which it has to answer.
pub open spec fn is_question<T: WirelessData>(exchange: ControllerExchange<T>) -> bool {
    exchange is Scan || exchange is Connect || exchange is ConnectedNetwork || exchange is Stats
}

/// The exchange is an answer of the controller.
pub open spec fn is_answer<T: WirelessData>(exchange: ControllerExchange<T>) -> bool {
    exchange is ScanResult || exchange is ConnectResult || exchange is ConnectedNetworkResult
        || exchange is StatsResult
}

/// A command goes to the controller, which gets it once and as it is; its answer goes back to the
/// proxy, which gets it once and as it is. Meanwhile no other command is accepted, and no reply
/// can be had. In the end the next command can be handed over.
pub proof fn lemma_command_is_answered<T: WirelessData>(
    proxy: ControllerProxy<T>,
    command: ControllerExchange<T>,
    answer: ControllerExchange<T>,
    other: ControllerExchange<T>,
)
    requires
        proxy.connected,
        proxy.pipe is Empty,
        is_question(command),
        is_answer(answer),
    ensures
        ({
            let (waiting, res) = commanded(proxy, command);
            let (busy, taken) = processed(waiting);
            let done = answered(busy, answer);
            let (after, reply) = replied(done);
            &&& res == Ok::<bool, ControllerExchange<T>>(true)
            &&& processed(proxy) == (proxy, None::<ControllerExchange<T>>)
            &&& commanded(waiting, other) == (
                waiting,
                Err::<bool, ControllerExchange<T>>(other),
            )
            &&& replied(waiting) == (waiting, None::<Result<ControllerExchange<T>, ()>>)
            &&& taken == Some(command)
            &&& processed(busy) == (busy, None::<ControllerExchange<T>>)
            &&& commanded(busy, other) == (busy, Err::<bool, ControllerExchange<T>>(other))
            &&& replied(busy) == (busy, None::<Result<ControllerExchange<T>, ()>>)
            &&& processed(done) == (done, None::<ControllerExchange<T>>)
            &&& commanded(done, other) == (done, Err::<bool, ControllerExchange<T>>(other))
            &&& reply == Some(Ok::<ControllerExchange<T>, ()>(answer))
            &&& after == proxy
        }),
{
}

/// Without a controller no command is accepted, and no reply is waited for.
pub proof fn lemma_no_controller<T: WirelessData>(
    proxy: ControllerProxy<T>,
    command: ControllerExchange<T>,
)
    requires
        !proxy.connected,
    ensures
        commanded(proxy, command) == (proxy, Ok::<bool, ControllerExchange<T>>(false)),
        replied(proxy) == (proxy, Some(Err::<ControllerExchange<T>, ()>(()))),
{
}

/// Each command has its own answer.
pub proof fn lemma_answers<T: WirelessData>(
    command: ControllerExchange<T>,
    answer: ControllerExchange<T>,
)
    ensures
        command.answered_by(answer) <==> {
            ||| command is Scan && answer is ScanResult
            ||| command is Connect && answer is ConnectResult
            ||| command is ConnectedNetwork && answer is ConnectedNetworkResult
            ||| command is Stats && answer is StatsResult
        },
        command.spec_is_command() <==> is_question(command),
        answer.spec_is_reply() <==> is_answer(answer) || answer is Empty,
{
}

/// What the controller answers is what the proxy gives back, be it a failure or not.
pub proof fn lemma_answer_is_given_back<T: WirelessData>(
    results: heapless::Vec<ScanResult, 5>,
    code: ErrorCode,
    connected: Result<(), ErrorCode>,
    network: Result<Option<<T::NetworkCredentials as NetworkCredentials>::NetworkId>, ErrorCode>,
    stats: Result<T::Stats, ErrorCode>,
)
    ensures
        scan_outcome::<T>(Some(Ok(ControllerExchange::ScanResult(Ok(results))))) == Ok::<
            Option<heapless::Vec<ScanResult, 5>>,
            ErrorCode,
        >(Some(results)),
        scan_outcome::<T>(Some(Ok(ControllerExchange::ScanResult(Err(code))))) == Err::<
            Option<heapless::Vec<ScanResult, 5>>,
            ErrorCode,
        >(code),
        connect_outcome::<T>(Some(Ok(ControllerExchange::ConnectResult(connected)))) == connected,
        connected_outcome::<T>(Some(Ok(ControllerExchange::ConnectedNetworkResult(network))))
            == network,
        stats_outcome::<T>(Some(Ok(ControllerExchange::StatsResult(stats)))) == stats,
{
}

/// Without a controller a scan finds nothing, a network is connected to for the sake of
/// appearances, there is a connection to none, and the statistics are those of an interface that
/// is not in use. It does not matter when the controller went away.
pub proof fn lemma_without_controller<T: WirelessData>(
    reply: Option<Result<ControllerExchange<T>, ()>>,
)
    requires
        reply is None || reply->Some_0 is Err,
    ensures
        scan_outcome::<T>(reply) is Ok && scan_outcome::<T>(reply)->Ok_0 is None,
        connect_outcome::<T>(reply) == Ok::<(), ErrorCode>(()),
        connected_outcome::<T>(reply) is Ok && connected_outcome::<T>(reply)->Ok_0 is None,
        stats_outcome::<T>(reply) is Ok && stats_outcome::<T>(reply)->Ok_0 == T::no_stats(),
{
}

/// What is kept of several reports.
pub open spec fn collected_all(reports: Seq<Option<ScanResult>>) -> Seq<ScanResult>
    decreases reports.len(),
{
    if reports.len() == 0 {
        Seq::empty()
    } else {
        collected(collected_all(reports.drop_last()), reports.last())
    }
}

/// The results of a scan are kept in their order up to the fifth one, and the end of the scan adds
/// nothing.
pub proof fn lemma_first_five_results(results: Seq<ScanResult>)
    ensures
        ({
            let reports = results.map_values(|result: ScanResult| Some(result));
            let kept = collected_all(reports);
            &&& kept.len() == (if results.len() < 5 { results.len() } else { 5 })
            &&& forall|i: int| 0 <= i < kept.len() ==> #[trigger] kept[i] == results[i]
            &&& collected_all(reports.push(None)) == kept
            &&& kept == kept_results(results)
        }),
    decreases results.len(),
{
    let reports = results.map_values(|result: ScanResult| Some(result));
    assert(reports.push(None).drop_last() =~= reports);
    if results.len() > 0 {
        let front = results.drop_last();
        lemma_first_five_results(front);
        assert(reports.drop_last() =~= front.map_values(|result: ScanResult| Some(result)));
    }
    assert(collected_all(reports) =~= kept_results(results));
}

/// The diagnostics have five attributes: the BSSID, the security type, the Wifi version, the
/// channel and the signal strength. They are null as long as they are not known.
pub proof fn lemma_diagnostics(data: WifiNwDiagData, attr_id: u32)
    ensures
        diag_value(Some(data), 0) == Some(WifiDiagValue::Bssid(data.bssid)),
        diag_value(Some(data), 1) == Some(WifiDiagValue::SecurityType(data.security_type)),
        diag_value(Some(data), 2) == Some(WifiDiagValue::WifiVersion(data.wifi_version)),
        diag_value(Some(data), 3) == Some(WifiDiagValue::ChannelNumber(data.channel_number)),
        diag_value(Some(data), 4) == Some(WifiDiagValue::Rssi(data.rssi)),
        attr_id < 5 ==> diag_value(None, attr_id) == Some(WifiDiagValue::Null),
        attr_id >= 5 ==> diag_value(None, attr_id) is None && diag_value(
            Some(data),
            attr_id,
        ) is None,
{
}

/// Of a Thread interface nothing is known. The only command of the diagnostics is the one to reset
/// the counts, with the ID 0.
pub proof fn lemma_further_diagnostics(known: bool, code: ErrorCode, cmd_id: u32)
    ensures
        thread_diag_value(known, Err(code)) == Err::<(), ErrorCode>(code),
        thread_diag_value(true, Ok(())) == Ok::<(), ErrorCode>(()),
        thread_diag_value(false, Ok(())) == Err::<(), ErrorCode>(ErrorCode::AttributeNotFound),
        diag_command(cmd_id) is Ok <==> cmd_id == 0,
        cmd_id != 0 ==> diag_command(cmd_id) == Err::<(), ErrorCode>(ErrorCode::CommandNotFound),
{
}

/// The controller is asked only for what the reader does not know and the metadata does not tell.
pub proof fn lemma_diagnostics_are_asked_for(up_to_date: bool, system: bool)
    ensures
        DiagRead::of(up_to_date, system) == DiagRead::UpToDate <==> up_to_date,
        DiagRead::of(up_to_date, system) == DiagRead::System <==> !up_to_date && system,
        DiagRead::of(up_to_date, system) == DiagRead::Stats <==> !up_to_date && !system,
{
}

} // verus!
