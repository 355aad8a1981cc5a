//! What holds of the operations whatever the state and the request.
//!
//! Each law is stated over the functions that the contracts of `start`,
//! `complete_start`, `stop` and `status` are stated over.

use super::command::{CommandLineView, SpawnError};
use super::routes::{
    rejected, start_decision, start_outcome, status_report, stop_outcome,
    ComponentLoggingResponseView, OutcomeView, StartDecisionView, StartLoggingRequestView,
    StopLoggingRequestView, ALREADY_LOGGING, INVALID_COMPONENT, LOGGING_ACTIVE, LOGGING_STARTED,
    LOGGING_STOPPED, NO_LOGGING_WAS_ACTIVE,
};
use super::state::LoggerStateView;
use vstd::prelude::*;

verus! {

/// A start request for the component called `name`.
pub open spec fn start_request(name: Seq<char>, log_path: Seq<char>) -> StartLoggingRequestView {
    StartLoggingRequestView { log_path, component: Some(name) }
}

/// A stop request for the component called `name`.
pub open spec fn stop_request(name: Seq<char>) -> StopLoggingRequestView {
    StopLoggingRequestView { component: Some(name) }
}

/// A request that names a component the controller does not know is turned
/// down with "Invalid component", by `start` and by `stop` alike, and the
/// state of every component stays as it was.
pub proof fn lemma_unknown_component_is_rejected<H>(
    db: LoggerStateView<H>,
    name: Seq<char>,
    log_path: Seq<char>,
    command: Option<CommandLineView>,
    spawned: Result<H, SpawnError>,
)
    requires
        !db.knows(name),
    ensures
        start_decision(db, start_request(name, log_path), command) == StartDecisionView::Answer(
            rejected(INVALID_COMPONENT@),
        ),
        start_outcome(db, start_request(name, log_path), command, spawned) == (
            db.counted(),
            OutcomeView::<H> { response: rejected(INVALID_COMPONENT@), terminate: None },
        ),
        stop_outcome(db, stop_request(name)) == (
            db.counted(),
            OutcomeView::<H> { response: rejected(INVALID_COMPONENT@), terminate: None },
        ),
        !rejected(INVALID_COMPONENT@).request_status,
        db.counted().components == db.components,
        db.counted().names == db.names,
{
}

/// Starting a known component on a path it is not yet logging to succeeds
/// once the process is launched; the same request again is turned down with
/// "Already logging to this log_path". After the first call the component is
/// active on that path and owns the launched process, and the second call
/// changes nothing of that.
pub proof fn lemma_repeated_start_is_rejected<H>(
    db: LoggerStateView<H>,
    name: Seq<char>,
    log_path: Seq<char>,
    command: CommandLineView,
    handle: H,
    again: Result<H, SpawnError>,
)
    requires
        db.knows(name),
        log_path.len() > 0,
        !db.components[name].is_logging_to(log_path),
    ensures
        ({
            let req = start_request(name, log_path);
            let (first, first_out) = start_outcome(db, req, Some(command), Ok(handle));
            let (second, second_out) = start_outcome(first, req, Some(command), again);
            &&& first_out.response.request_status
            &&& first_out.response.request_message == Some(LOGGING_STARTED@)
            &&& first.components[name].active
            &&& first.components[name].log_path == Some(log_path)
            &&& first.components[name].command == Some(handle)
            &&& second_out == OutcomeView::<H> {
                response: rejected(ALREADY_LOGGING@),
                terminate: None,
            }
            &&& !second_out.response.request_status
            &&& second.components == first.components
            &&& second.names == first.names
        }),
{
}

/// Stopping a known component that is idle is turned down with "No logging
/// was active"; neither its previous path nor anything else of any component
/// changes.
pub proof fn lemma_stop_idle_is_rejected<H>(db: LoggerStateView<H>, name: Seq<char>)
    requires
        db.knows(name),
        !db.components[name].active,
    ensures
        stop_outcome(db, stop_request(name)) == (
            db.counted(),
            OutcomeView::<H> { response: rejected(NO_LOGGING_WAS_ACTIVE@), terminate: None },
        ),
        !rejected(NO_LOGGING_WAS_ACTIVE@).request_status,
        db.counted().components == db.components,
        db.counted().components[name].previous_log_path == db.components[name].previous_log_path,
{
}

/// Start, then stop, then status: the stop succeeds, and the status lists
/// the component as idle with the started path as its previous one. Where
/// the start launched a process, the stop hands back that very process.
pub proof fn lemma_start_stop_round_trip<H>(
    db: LoggerStateView<H>,
    name: Seq<char>,
    log_path: Seq<char>,
    command: CommandLineView,
    handle: H,
    i: int,
)
    requires
        db.wf(),
        0 <= i < db.names.len(),
        db.names[i] == name,
        log_path.len() > 0,
    ensures
        ({
            let (started, _) = start_outcome(
                db,
                start_request(name, log_path),
                Some(command),
                Ok(handle),
            );
            let (stopped, stop_out) = stop_outcome(started, stop_request(name));
            let report = status_report(stopped);
            &&& stop_out.response.request_status
            &&& stop_out.response.request_message == Some(LOGGING_STOPPED@)
            &&& !db.components[name].is_logging_to(log_path) ==> stop_out.terminate == Some(handle)
            &&& report.request_status
            &&& report.components.len() == db.names.len()
            &&& report.components[i] == ComponentLoggingResponseView {
                log_path: None,
                previous_log_path: Some(log_path),
                component: name,
                active: false,
            }
        }),
{
    assert(db.names.to_set().contains(name));
}

/// Every operation counts exactly once, whether it is carried out or turned
/// down.
pub proof fn lemma_each_operation_counts_once<H>(
    db: LoggerStateView<H>,
    start_req: StartLoggingRequestView,
    command: Option<CommandLineView>,
    spawned: Result<H, SpawnError>,
    stop_req: StopLoggingRequestView,
)
    ensures
        start_outcome(db, start_req, command, spawned).0.call_count == db.call_count + 1,
        stop_outcome(db, stop_req).0.call_count == db.call_count + 1,
        db.counted().call_count == db.call_count + 1,
{
}

/// Start requests for two different components do not disturb each other:
/// in either order each request gets the same outcome, the controller ends
/// in the same state, and the status report that follows is the same.
pub proof fn lemma_start_order_is_irrelevant<H>(
    db: LoggerStateView<H>,
    a: Seq<char>,
    a_path: Seq<char>,
    a_spawned: Result<H, SpawnError>,
    b: Seq<char>,
    b_path: Seq<char>,
    b_spawned: Result<H, SpawnError>,
    command: Option<CommandLineView>,
)
    requires
        a != b,
    ensures
        ({
            let a_req = start_request(a, a_path);
            let b_req = start_request(b, b_path);
            let (a_first, a_out) = start_outcome(db, a_req, command, a_spawned);
            let (a_then_b, b_after_a) = start_outcome(a_first, b_req, command, b_spawned);
            let (b_first, b_out) = start_outcome(db, b_req, command, b_spawned);
            let (b_then_a, a_after_b) = start_outcome(b_first, a_req, command, a_spawned);
            &&& a_after_b == a_out
            &&& b_after_a == b_out
            &&& a_then_b == b_then_a
            &&& status_report(a_then_b) == status_report(b_then_a)
        }),
{
    let a_req = start_request(a, a_path);
    let b_req = start_request(b, b_path);
    let (a_first, a_out) = start_outcome(db, a_req, command, a_spawned);
    let (a_then_b, b_after_a) = start_outcome(a_first, b_req, command, b_spawned);
    let (b_first, b_out) = start_outcome(db, b_req, command, b_spawned);
    let (b_then_a, a_after_b) = start_outcome(b_first, a_req, command, a_spawned);
    assert(a_then_b.components =~= b_then_a.components);
}

/// After two different known components have been started, the status
/// report lists each of them as active on its own path.
pub proof fn lemma_both_started_are_reported<H>(
    db: LoggerStateView<H>,
    a: Seq<char>,
    a_path: Seq<char>,
    a_handle: H,
    i: int,
    b: Seq<char>,
    b_path: Seq<char>,
    b_handle: H,
    j: int,
    command: CommandLineView,
)
    requires
        db.wf(),
        a != b,
        0 <= i < db.names.len(),
        db.names[i] == a,
        0 <= j < db.names.len(),
        db.names[j] == b,
        a_path.len() > 0,
        b_path.len() > 0,
    ensures
        ({
            let (a_first, _) = start_outcome(
                db,
                start_request(a, a_path),
                Some(command),
                Ok(a_handle),
            );
            let (both, _) = start_outcome(
                a_first,
                start_request(b, b_path),
                Some(command),
                Ok(b_handle),
            );
            let report = status_report(both);
            &&& report.components.len() == db.names.len()
            &&& report.components[i].component == a
            &&& report.components[i].active
            &&& report.components[i].log_path == Some(a_path)
            &&& report.components[j].component == b
            &&& report.components[j].active
            &&& report.components[j].log_path == Some(b_path)
            &&& report.request_message == Some(LOGGING_ACTIVE@)
        }),
{
    assert(db.names.to_set().contains(a));
    assert(db.names.to_set().contains(b));
    let (a_first, _) = start_outcome(db, start_request(a, a_path), Some(command), Ok(a_handle));
    let (both, _) = start_outcome(a_first, start_request(b, b_path), Some(command), Ok(b_handle));
    assert(both.components.dom().contains(a) && both.components[a].active);
}

/// No process is lost. A process that was launched for a start request is
/// owned by the component afterwards or handed back to the caller, and so is
/// the process that the component owned before. The process of a component
/// that is stopped is handed back.
pub proof fn lemma_processes_are_kept_or_handed_back<H>(
    db: LoggerStateView<H>,
    name: Seq<char>,
    log_path: Seq<char>,
    command: Option<CommandLineView>,
    handle: H,
)
    requires
        db.knows(name),
    ensures
        ({
            let req = start_request(name, log_path);
            let (started, start_out) = start_outcome(db, req, command, Ok(handle));
            let (stopped, stop_out) = stop_outcome(db, stop_request(name));
            &&& start_decision(db, req, command) is Launch ==> {
                &&& started.components[name].command == Some(handle)
                &&& start_out.terminate == db.components[name].command
            }
            &&& start_decision(db, req, command) is Answer ==> {
                &&& started.components[name].command == db.components[name].command
                &&& start_out.terminate is None
            }
            &&& db.components[name].active ==> {
                &&& stopped.components[name].command is None
                &&& stop_out.terminate == db.components[name].command
            }
            &&& !db.components[name].active ==> {
                &&& stopped.components[name].command == db.components[name].command
                &&& stop_out.terminate is None
            }
        }),
{
}

/// The operations keep a well-formed state well-formed, and none of them
/// adds, removes or renames a component.
pub proof fn lemma_operations_keep_the_state_well_formed<H>(
    db: LoggerStateView<H>,
    start_req: StartLoggingRequestView,
    command: Option<CommandLineView>,
    spawned: Result<H, SpawnError>,
    stop_req: StopLoggingRequestView,
)
    requires
        db.wf(),
    ensures
        start_outcome(db, start_req, command, spawned).0.wf(),
        start_outcome(db, start_req, command, spawned).0.names == db.names,
        stop_outcome(db, stop_req).0.wf(),
        stop_outcome(db, stop_req).0.names == db.names,
        db.counted().wf(),
        db.counted().names == db.names,
{
    let started = start_outcome(db, start_req, command, spawned).0;
    assert(started.components.dom() =~= db.components.dom());
    let stopped = stop_outcome(db, stop_req).0;
    assert(stopped.components.dom() =~= db.components.dom());
}

} // verus!
