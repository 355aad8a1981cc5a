//! Requests, responses and the three operations of the controller.
//!
//! An operation runs while its caller holds the controller exclusively.
//! `stop` and `status` are one call each. `start` is two: [`start`] decides,
//! and where it decides to launch a process the caller launches it and hands
//! the result to [`complete_start`], which records it and answers.

use super::command::{
    command_line_of, launch_plan, run_command, shlex_split, CommandLineView, SpawnError,
    SpawnOrder, SpawnOrderView, COLLECTION_COMMAND,
};
use super::state::{
    clone_opt, opt_view, ComponentState, ComponentStateView, LoggerState, LoggerStateView,
};
use vstd::prelude::*;

verus! {

/// The message for a component that the controller does not know.
pub const INVALID_COMPONENT: &'static str = "Invalid component";

/// The message for a start request that repeats the active one.
pub const ALREADY_LOGGING: &'static str = "Already logging to this log_path";

/// The message for a start request that was carried out.
pub const LOGGING_STARTED: &'static str = "Logging started";

/// The message for a stop request on an idle component.
pub const NO_LOGGING_WAS_ACTIVE: &'static str = "No logging was active";

/// The message for a stop request that was carried out.
pub const LOGGING_STOPPED: &'static str = "Logging stopped";

/// The status message while some component is active.
pub const LOGGING_ACTIVE: &'static str = "Logging active";

/// The status message while every component is idle.
pub const NO_LOGGING_ACTIVE: &'static str = "No logging active";

/// A request to start logging for `component` into the file at `log_path`.
#[derive(Debug, Clone, PartialEq, Eq)]
pub struct StartLoggingRequest {
    pub log_path: String,
    pub component: Option<String>,
}

/// What a [`StartLoggingRequest`] stands for.
pub struct StartLoggingRequestView {
    pub log_path: Seq<char>,
    pub component: Option<Seq<char>>,
}

impl View for StartLoggingRequest {
    type V = StartLoggingRequestView;

    open spec fn view(&self) -> StartLoggingRequestView {
        StartLoggingRequestView { log_path: self.log_path@, component: opt_view(self.component) }
    }
}

/// A request to stop logging for `component`.
#[derive(Debug, Clone, PartialEq, Eq)]
pub struct StopLoggingRequest {
    pub component: Option<String>,
}

/// What a [`StopLoggingRequest`] stands for.
pub struct StopLoggingRequestView {
    pub component: Option<Seq<char>>,
}

impl View for StopLoggingRequest {
    type V = StopLoggingRequestView;

    open spec fn view(&self) -> StopLoggingRequestView {
        StopLoggingRequestView { component: opt_view(self.component) }
    }
}

/// The part of a response that describes one component.
#[derive(Debug, Clone, PartialEq, Eq)]
pub struct ComponentLoggingResponse {
    pub log_path: Option<String>,
    pub previous_log_path: Option<String>,
    pub component: String,
    pub active: bool,
}

/// What a [`ComponentLoggingResponse`] stands for.
pub struct ComponentLoggingResponseView {
    pub log_path: Option<Seq<char>>,
    pub previous_log_path: Option<Seq<char>>,
    pub component: Seq<char>,
    pub active: bool,
}

impl View for ComponentLoggingResponse {
    type V = ComponentLoggingResponseView;

    open spec fn view(&self) -> ComponentLoggingResponseView {
        ComponentLoggingResponseView {
            log_path: opt_view(self.log_path),
            previous_log_path: opt_view(self.previous_log_path),
            component: self.component@,
            active: self.active,
        }
    }
}

impl Default for ComponentLoggingResponse {
    fn default() -> (r: ComponentLoggingResponse)
        ensures
            r@ == (ComponentLoggingResponseView {
                log_path: None,
                previous_log_path: None,
                component: Seq::empty(),
                active: false,
            }),
    {
        ComponentLoggingResponse {
            log_path: None,
            previous_log_path: None,
            component: String::new(),
            active: false,
        }
    }
}

/// The answer to a request: whether it was carried out, a message, and the
/// components it reports on.
#[derive(Debug, Clone, PartialEq, Eq)]
pub struct LoggingResponse {
    pub components: Vec<ComponentLoggingResponse>,
    pub request_status: bool,
    pub request_message: Option<String>,
}

/// What a [`LoggingResponse`] stands for.
pub struct LoggingResponseView {
    pub components: Seq<ComponentLoggingResponseView>,
    pub request_status: bool,
    pub request_message: Option<Seq<char>>,
}

impl View for LoggingResponse {
    type V = LoggingResponseView;

    open spec fn view(&self) -> LoggingResponseView {
        LoggingResponseView {
            components: self.components@.map_values(|c: ComponentLoggingResponse| c@),
            request_status: self.request_status,
            request_message: opt_view(self.request_message),
        }
    }
}

impl Default for LoggingResponse {
    fn default() -> (r: LoggingResponse)
        ensures
            r@ == (LoggingResponseView {
                components: Seq::empty(),
                request_status: false,
                request_message: None,
            }),
    {
        let r = LoggingResponse {
            components: Vec::new(),
            request_status: false,
            request_message: None,
        };
        assert(r@.components =~= Seq::empty());
        r
    }
}

/// What a component's state shows in a response.
pub open spec fn component_report<H>(c: ComponentStateView<H>) -> ComponentLoggingResponseView {
    ComponentLoggingResponseView {
        log_path: c.log_path,
        previous_log_path: c.previous_log_path,
        component: c.name,
        active: c.active,
    }
}

/// The response to a request that names no component: nothing is done and
/// nothing is reported.
pub open spec fn accepted() -> LoggingResponseView {
    LoggingResponseView { components: Seq::empty(), request_status: true, request_message: None }
}

/// The response to a request that is turned down.
pub open spec fn rejected(message: Seq<char>) -> LoggingResponseView {
    LoggingResponseView {
        components: Seq::empty(),
        request_status: false,
        request_message: Some(message),
    }
}

/// The response to a request that was carried out on one component.
pub open spec fn succeeded(
    message: Seq<char>,
    component: ComponentLoggingResponseView,
) -> LoggingResponseView {
    LoggingResponseView {
        components: seq![component],
        request_status: true,
        request_message: Some(message),
    }
}

/// What [`start`] decides: either the request is answered at once, or a
/// process has to be launched first.
#[derive(Debug, Clone, PartialEq, Eq)]
pub enum StartDecision {
    /// The request is answered; the state of the components is untouched.
    Answer(LoggingResponse),
    /// The caller launches what the order says and hands the result to
    /// [`complete_start`].
    Launch(SpawnOrder),
}

/// What a [`StartDecision`] stands for.
pub enum StartDecisionView {
    Answer(LoggingResponseView),
    Launch(SpawnOrderView),
}

impl View for StartDecision {
    type V = StartDecisionView;

    open spec fn view(&self) -> StartDecisionView {
        match self {
            StartDecision::Answer(response) => StartDecisionView::Answer(response@),
            StartDecision::Launch(order) => StartDecisionView::Launch(order@),
        }
    }
}

/// How an operation ends: the response, and the handle of a process that the
/// controller has given up and the caller should terminate.
#[derive(Debug)]
pub struct Outcome<H> {
    pub response: LoggingResponse,
    pub terminate: Option<H>,
}

/// What an [`Outcome`] stands for.
pub struct OutcomeView<H> {
    pub response: LoggingResponseView,
    pub terminate: Option<H>,
}

impl<H> View for Outcome<H> {
    type V = OutcomeView<H>;

    open spec fn view(&self) -> OutcomeView<H> {
        OutcomeView { response: self.response@, terminate: self.terminate }
    }
}

/// What is decided about a request to start logging for the component
/// called `name`: it is turned down where the name is unknown, where the
/// component is already logging to that very path, and where no launch can
/// be planned; otherwise the planned launch is ordered.
pub open spec fn start_component_decision<H>(
    db: LoggerStateView<H>,
    name: Seq<char>,
    log_path: Seq<char>,
    command: Option<CommandLineView>,
) -> StartDecisionView {
    if !db.knows(name) {
        StartDecisionView::Answer(rejected(INVALID_COMPONENT@))
    } else if db.components[name].is_logging_to(log_path) {
        StartDecisionView::Answer(rejected(ALREADY_LOGGING@))
    } else {
        match launch_plan(name, log_path, command) {
            Ok(order) => StartDecisionView::Launch(order),
            Err(e) => StartDecisionView::Answer(rejected(e.spec_message())),
        }
    }
}

/// What is decided about a start request.
pub open spec fn start_decision<H>(
    db: LoggerStateView<H>,
    req: StartLoggingRequestView,
    command: Option<CommandLineView>,
) -> StartDecisionView {
    match req.component {
        Some(name) => start_component_decision(db, name, req.log_path, command),
        None => StartDecisionView::Answer(accepted()),
    }
}

/// The state and the outcome once the launch that `order` asked for has
/// ended as `spawned` says. A failed launch changes nothing. A process
/// launched for a component that the controller does not know is handed
/// back. Otherwise the component is logging to the ordered path, and the
/// process it owned before, if any, is handed back.
pub open spec fn start_completion<H>(
    db: LoggerStateView<H>,
    order: SpawnOrderView,
    spawned: Result<H, SpawnError>,
) -> (LoggerStateView<H>, OutcomeView<H>) {
    match spawned {
        Err(e) => (db, OutcomeView { response: rejected(e.spec_message()), terminate: None }),
        Ok(command) => if !db.knows(order.component) {
            (
                db,
                OutcomeView { response: rejected(INVALID_COMPONENT@), terminate: Some(command) },
            )
        } else {
            let before = db.components[order.component];
            let after = before.started(order.log_path, command);
            (
                db.with_component(order.component, after),
                OutcomeView {
                    response: succeeded(LOGGING_STARTED@, component_report(after)),
                    terminate: before.command,
                },
            )
        },
    }
}

/// The state and the outcome of a whole start operation: the decision of
/// [`start`] and, where a launch was ordered and has ended as `spawned`
/// says, its completion by [`complete_start`].
pub open spec fn start_outcome<H>(
    db: LoggerStateView<H>,
    req: StartLoggingRequestView,
    command: Option<CommandLineView>,
    spawned: Result<H, SpawnError>,
) -> (LoggerStateView<H>, OutcomeView<H>) {
    match start_decision(db, req, command) {
        StartDecisionView::Answer(response) => (
            db.counted(),
            OutcomeView { response, terminate: None },
        ),
        StartDecisionView::Launch(order) => start_completion(db.counted(), order, spawned),
    }
}

/// The state and the outcome of stopping the component called `name`.
pub open spec fn stop_component_outcome<H>(db: LoggerStateView<H>, name: Seq<char>) -> (
    LoggerStateView<H>,
    OutcomeView<H>,
) {
    if !db.knows(name) {
        (db, OutcomeView { response: rejected(INVALID_COMPONENT@), terminate: None })
    } else if !db.components[name].active {
        (db, OutcomeView { response: rejected(NO_LOGGING_WAS_ACTIVE@), terminate: None })
    } else {
        let before = db.components[name];
        let after = before.stopped();
        (
            db.with_component(name, after),
            OutcomeView {
                response: succeeded(LOGGING_STOPPED@, component_report(after)),
                terminate: before.command,
            },
        )
    }
}

/// The state and the outcome of a stop request.
pub open spec fn stop_outcome<H>(db: LoggerStateView<H>, req: StopLoggingRequestView) -> (
    LoggerStateView<H>,
    OutcomeView<H>,
) {
    match req.component {
        Some(name) => stop_component_outcome(db.counted(), name),
        None => (db.counted(), OutcomeView { response: accepted(), terminate: None }),
    }
}

/// The response to a status request: every known component in the order of
/// `db.names`, and a message that says whether any of them is active.
pub open spec fn status_report<H>(db: LoggerStateView<H>) -> LoggingResponseView {
    LoggingResponseView {
        components: db.names.map_values(|n: Seq<char>| component_report(db.components[n])),
        request_status: true,
        request_message: Some(
            if db.any_active() {
                LOGGING_ACTIVE@
            } else {
                NO_LOGGING_ACTIVE@
            },
        ),
    }
}

/// Builds the response to a request that names no component.
fn accept() -> (r: LoggingResponse)
    ensures
        r@ == accepted(),
{
    let mut r = LoggingResponse::default();
    r.request_status = true;
    r
}

/// Builds the response to a request that is turned down.
fn reject(message: String) -> (r: LoggingResponse)
    ensures
        r@ == rejected(message@),
{
    let mut r = LoggingResponse::default();
    r.request_message = Some(message);
    r
}

/// Builds the part of a response that describes `component`.
fn report<H>(component: &ComponentState<H>) -> (r: ComponentLoggingResponse)
    ensures
        r@ == component_report(component@),
{
    let mut r = ComponentLoggingResponse::default();
    r.component = component.name().clone();
    r.log_path = clone_opt(component.log_path());
    r.previous_log_path = clone_opt(component.previous_log_path());
    r.active = component.active();
    r
}

/// Builds the response to a request that was carried out on `component`.
fn succeed<H>(message: &str, component: &ComponentState<H>) -> (r: LoggingResponse)
    ensures
        r@ == succeeded(message@, component_report(component@)),
{
    let mut r = LoggingResponse::default();
    r.components.push(report(component));
    r.request_status = true;
    r.request_message = Some(message.to_owned());
    assert(r@.components =~= seq![component_report(component@)]);
    r
}

/// Decides about a request to start logging for the component called
/// `component_name` into `log_path`. Nothing is changed.
pub fn start_component<H>(component_name: &String, log_path: &String, db: &LoggerState<H>) -> (out:
    StartDecision)
    requires
        db@.wf(),
    ensures
        out@ == start_component_decision(
            db@,
            component_name@,
            log_path@,
            command_line_of(shlex_split(COLLECTION_COMMAND@)),
        ),
{
    match db.lookup(component_name) {
        None => StartDecision::Answer(reject(INVALID_COMPONENT.to_owned())),
        Some(component) => {
            if component.is_logging_to(log_path) {
                StartDecision::Answer(reject(ALREADY_LOGGING.to_owned()))
            } else {
                match run_command(component_name, log_path) {
                    Ok(order) => StartDecision::Launch(order),
                    Err(e) => StartDecision::Answer(reject(e.message())),
                }
            }
        },
    }
}

/// The first half of a start operation: counts it and decides about it. A
/// request that names no component is accepted and nothing is done for it.
/// The components stay as they are; where the decision is to launch, they
/// change only in [`complete_start`].
pub fn start<H>(req: &StartLoggingRequest, db: &mut LoggerState<H>) -> (out: StartDecision)
    requires
        old(db)@.wf(),
        old(db)@.call_count < u32::MAX,
    ensures
        final(db)@ == old(db)@.counted(),
        final(db)@.wf(),
        final(db)@.call_count == old(db)@.call_count + 1,
        out@ == start_decision(
            old(db)@,
            req@,
            command_line_of(shlex_split(COLLECTION_COMMAND@)),
        ),
        req@.component matches Some(name) && !old(db)@.knows(name) ==> out@
            == StartDecisionView::Answer(rejected(INVALID_COMPONENT@)),
        req@.component matches Some(name) && old(db)@.knows(name)
            && old(db)@.components[name].is_logging_to(req@.log_path) ==> out@
            == StartDecisionView::Answer(rejected(ALREADY_LOGGING@)),
{
    db.count_call();
    match &req.component {
        Some(component_name) => start_component(component_name, &req.log_path, db),
        None => StartDecision::Answer(accept()),
    }
}

/// The second half of a start operation: records how the launch that `order`
/// asked for has ended and answers the request. It is part of the operation
/// that [`start`] has counted and counts nothing itself.
pub fn complete_start<H>(
    order: SpawnOrder,
    spawned: Result<H, SpawnError>,
    db: &mut LoggerState<H>,
) -> (out: Outcome<H>)
    requires
        old(db)@.wf(),
    ensures
        final(db)@.wf(),
        final(db)@.call_count == old(db)@.call_count,
        (final(db)@, out@) == start_completion(old(db)@, order@, spawned),
{
    match spawned {
        Err(e) => Outcome { response: reject(e.message()), terminate: None },
        Ok(command) => {
            match db.position(&order.component) {
                None => Outcome {
                    response: reject(INVALID_COMPONENT.to_owned()),
                    terminate: Some(command),
                },
                Some(i) => {
                    let replaced = db.begin_logging(i, order.log_path, command);
                    let resp = succeed(LOGGING_STARTED, db.component(i));
                    Outcome { response: resp, terminate: replaced }
                },
            }
        },
    }
}

/// Stops logging for the component called `component_name`. An active
/// component becomes idle whatever happens to its process afterwards: the
/// handle is given to the caller, who terminates it as well as it can.
pub fn stop_component<H>(component_name: &String, db: &mut LoggerState<H>) -> (out: Outcome<H>)
    requires
        old(db)@.wf(),
    ensures
        final(db)@.wf(),
        final(db)@.call_count == old(db)@.call_count,
        (final(db)@, out@) == stop_component_outcome(old(db)@, component_name@),
{
    match db.position(component_name) {
        None => Outcome { response: reject(INVALID_COMPONENT.to_owned()), terminate: None },
        Some(i) => {
            if !db.component(i).active() {
                Outcome { response: reject(NO_LOGGING_WAS_ACTIVE.to_owned()), terminate: None }
            } else {
                let command = db.end_logging(i);
                let resp = succeed(LOGGING_STOPPED, db.component(i));
                Outcome { response: resp, terminate: command }
            }
        },
    }
}

/// The stop operation: counts it and, where the request names a component,
/// stops that component as [`stop_component`] does. A request that names
/// none is accepted and changes nothing else.
pub fn stop<H>(req: &StopLoggingRequest, db: &mut LoggerState<H>) -> (out: Outcome<H>)
    requires
        old(db)@.wf(),
        old(db)@.call_count < u32::MAX,
    ensures
        final(db)@.wf(),
        final(db)@.call_count == old(db)@.call_count + 1,
        (final(db)@, out@) == stop_outcome(old(db)@, req@),
        req@.component matches Some(name) && !old(db)@.knows(name) ==> {
            &&& out@.response == rejected(INVALID_COMPONENT@)
            &&& final(db)@.components == old(db)@.components
        },
        req@.component matches Some(name) && old(db)@.knows(name)
            && !old(db)@.components[name].active ==> {
            &&& out@.response == rejected(NO_LOGGING_WAS_ACTIVE@)
            &&& final(db)@.components == old(db)@.components
        },
{
    db.count_call();
    match &req.component {
        Some(component_name) => stop_component(component_name, db),
        None => Outcome { response: accept(), terminate: None },
    }
}

/// The status operation: reports on every known component. It changes
/// nothing but the count of operations.
pub fn status<H>(db: &mut LoggerState<H>) -> (resp: LoggingResponse)
    requires
        old(db)@.wf(),
        old(db)@.call_count < u32::MAX,
    ensures
        final(db)@ == old(db)@.counted(),
        final(db)@.wf(),
        final(db)@.call_count == old(db)@.call_count + 1,
        resp@ == status_report(old(db)@),
{
    let message = if db.active() {
        LOGGING_ACTIVE.to_owned()
    } else {
        NO_LOGGING_ACTIVE.to_owned()
    };
    db.count_call();
    let mut resp = accept();
    resp.request_message = Some(message);
    let n = db.len();
    let mut i: usize = 0;
    assert(resp.components@.len() == resp@.components.len());
    while i < n
        invariant
            db@.wf(),
            n == db@.names.len(),
            i <= n,
            resp.components@.len() == i,
            forall|j: int|
                0 <= j < i ==> (#[trigger] resp.components@[j])@ == component_report(
                    db@.components[db@.names[j]],
                ),
            resp.request_status,
            opt_view(resp.request_message) == status_report(old(db)@).request_message,
        decreases n - i,
    {
        resp.components.push(report(db.component(i)));
        i += 1;
    }
    assert(resp@.components =~= status_report(old(db)@).components);
    resp
}

} // verus!
