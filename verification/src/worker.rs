//! The dispatch loop of one worker as a state machine.
//!
//! A worker owns its route table and its upload buffer and shares nothing
//! that changes with other workers. It does no I/O. Its caller receives the
//! connection, reads the body where the worker asks for it, sends the reply
//! and reports how the flush went; between these steps the worker decides.
//!
//! ```text
//! Idle -> Matching -> (ExtractingBody) -> Dispatching -> Flushing -> Idle
//! ```

use crate::err::{
    forgiven, ignore_client_closing_errors, io_fault_of, BeakError, BeakResult,
};
use crate::header::Header;
use crate::request::{
    is_bare, Handler, HttpVersion, OutputSink, Request, Response, INTERNAL_SERVER_ERROR,
    NOT_FOUND, PAYLOAD_TOO_LARGE,
};
use crate::route::{
    admissible, build_outcome, matched_view, resolution, specs_of, MatchedRoute, MatchedSpec,
    RouteDescriptor, RouteSpec, RouteTable,
};
use crate::upload::{
    entry_of, entry_view, parse_first_part, parsed_part, store_part, too_large, EntrySpec,
    OverflowPolicy, PartSpec, UploadBuffer,
};
use vstd::prelude::*;

verus! {

/// The states of a worker.
#[derive(Clone, Copy, Debug, PartialEq, Eq, Structural)]
pub enum Phase {
    /// Waiting for the next connection.
    Idle,
    /// Resolving the path of the connection in hand.
    Matching,
    /// Waiting for the body of a request whose route wants a body part.
    ExtractingBody,
    /// Ready to make the request view and to call the handler.
    Dispatching,
    /// Waiting for the reply to be written and flushed.
    Flushing,
}

/// What moves a worker from one state to the next.
#[derive(Clone, Copy, Debug, PartialEq, Eq, Structural)]
pub enum Signal {
    /// The listener delivered a connection.
    Connection,
    /// No route matches the path.
    NoMatch,
    /// A route matches the path.
    Matched { needs_body_part: bool },
    /// The body was looked at; an upload was found or not.
    Extracted,
    /// The body part is larger than the upload buffer takes.
    Oversized,
    /// The handler returned.
    Handled,
    /// The reply was flushed, or the attempt failed.
    Flushed,
}

/// The transition function of the worker. `None` where the signal is not
/// expected in the state.
pub open spec fn next_phase(phase: Phase, signal: Signal) -> Option<Phase> {
    match (phase, signal) {
        (Phase::Idle, Signal::Connection) => Some(Phase::Matching),
        (Phase::Matching, Signal::NoMatch) => Some(Phase::Flushing),
        (Phase::Matching, Signal::Matched { needs_body_part }) => if needs_body_part {
            Some(Phase::ExtractingBody)
        } else {
            Some(Phase::Dispatching)
        },
        (Phase::ExtractingBody, Signal::Extracted) => Some(Phase::Dispatching),
        (Phase::ExtractingBody, Signal::Oversized) => Some(Phase::Flushing),
        (Phase::Dispatching, Signal::Handled) => Some(Phase::Flushing),
        (Phase::Flushing, Signal::Flushed) => Some(Phase::Idle),
        _ => None,
    }
}

/// Computes the state that follows `phase` on `signal`.
pub fn advance(phase: Phase, signal: Signal) -> (next: Option<Phase>)
    ensures
        next == next_phase(phase, signal),
{
    match phase {
        Phase::Idle => match signal {
            Signal::Connection => Some(Phase::Matching),
            _ => None,
        },
        Phase::Matching => match signal {
            Signal::NoMatch => Some(Phase::Flushing),
            Signal::Matched { needs_body_part } => if needs_body_part {
                Some(Phase::ExtractingBody)
            } else {
                Some(Phase::Dispatching)
            },
            _ => None,
        },
        Phase::ExtractingBody => match signal {
            Signal::Extracted => Some(Phase::Dispatching),
            Signal::Oversized => Some(Phase::Flushing),
            _ => None,
        },
        Phase::Dispatching => match signal {
            Signal::Handled => Some(Phase::Flushing),
            _ => None,
        },
        Phase::Flushing => match signal {
            Signal::Flushed => Some(Phase::Idle),
            _ => None,
        },
    }
}

/// A request for which no route is found is answered without a step
/// through body extraction or dispatch: the worker goes from matching to
/// flushing, and from flushing only back to idle.
pub proof fn law_unmatched_request_reaches_no_handler(signal: Signal)
    ensures
        next_phase(Phase::Matching, Signal::NoMatch) == Some(Phase::Flushing),
        next_phase(Phase::Flushing, signal) is Some ==> next_phase(Phase::Flushing, signal)
            == Some(Phase::Idle),
{
}

/// The steps of an exchange come in order: a worker matches only after it
/// was idle, extracts only after a match, dispatches only after a match or
/// an extraction, and is idle again only after flushing.
pub proof fn law_steps_come_in_order(phase: Phase, signal: Signal)
    ensures
        next_phase(phase, signal) == Some(Phase::Matching) ==> phase == Phase::Idle,
        next_phase(phase, signal) == Some(Phase::ExtractingBody) ==> phase == Phase::Matching,
        next_phase(phase, signal) == Some(Phase::Dispatching) ==> phase == Phase::Matching
            || phase == Phase::ExtractingBody,
        next_phase(phase, signal) == Some(Phase::Flushing) ==> phase == Phase::Matching || phase
            == Phase::ExtractingBody || phase == Phase::Dispatching,
        next_phase(phase, signal) == Some(Phase::Idle) ==> phase == Phase::Flushing,
{
}

/// Extraction runs only for a route that wants a body part: the one way
/// into the extracting state is a match on such a route.
pub proof fn law_extraction_only_on_demand(phase: Phase, signal: Signal)
    requires
        next_phase(phase, signal) == Some(Phase::ExtractingBody),
    ensures
        phase == Phase::Matching,
        signal == (Signal::Matched { needs_body_part: true }),
{
}

/// The inbound data of one accepted connection, as read when the
/// connection was received.
#[derive(Debug)]
pub struct Connection {
    pub url: String,
    pub headers: Vec<Header>,
    pub http_version: HttpVersion,
}

/// What a worker asks of its caller once a connection is routed.
#[derive(Debug)]
pub enum Routing {
    /// No route matches: send this reply.
    NotFound(Response),
    /// The route wants a body part: read the body, then dispatch with it.
    NeedsBody,
    /// The route wants no body: dispatch at once.
    Ready,
}

/// The state of a worker after it resolved a path with the given result:
/// flushing the not-found reply where there is no match, else extracting
/// or dispatching, as the matched route wants a body part or not.
pub open spec fn phase_after_routing(found: Option<MatchedSpec>) -> Phase {
    match found {
        None => Phase::Flushing,
        Some(m) => if m.needs_body_part {
            Phase::ExtractingBody
        } else {
            Phase::Dispatching
        },
    }
}

/// Whether `routing` is what a worker asks for after it resolved a path
/// with the given result.
pub open spec fn answers(routing: Routing, found: Option<MatchedSpec>) -> bool {
    match found {
        None => routing matches Routing::NotFound(reply) && is_bare(reply, NOT_FOUND),
        Some(m) => if m.needs_body_part {
            routing is NeedsBody
        } else {
            routing is Ready
        },
    }
}

/// The outcome of a dispatch: the reply to send, and the failure to report
/// for this connection, if any.
#[derive(Debug)]
pub struct Served {
    pub reply: Response,
    pub failure: Option<BeakError>,
}

/// The error of a result, if any.
pub open spec fn failure_of(result: BeakResult<()>) -> Option<BeakError> {
    match result {
        Ok(()) => None,
        Err(e) => Some(e),
    }
}

/// Decides what is sent after a handler returned: the response that the
/// handler emitted, whatever it returned, or a bare internal server error
/// where it emitted none. An error of the handler is reported.
pub fn conclude(sink: OutputSink, result: BeakResult<()>) -> (served: Served)
    ensures
        sink.emitted matches Some(response) ==> served.reply == response,
        sink.emitted is None ==> is_bare(served.reply, INTERNAL_SERVER_ERROR),
        served.failure == failure_of(result),
{
    let reply = match sink.emitted {
        Some(response) => response,
        None => Response::empty(INTERNAL_SERVER_ERROR),
    };
    let failure = match result {
        Ok(()) => None,
        Err(e) => Some(e),
    };
    Served { reply, failure }
}

/// Reads the descriptor of each handler: its pattern and whether it wants
/// a body part.
pub fn describe<C: Send + Sync>(routes: &[&dyn Handler<C>]) -> (descriptors: Vec<RouteDescriptor>)
    ensures
        descriptors@.len() == routes@.len(),
{
    let mut descriptors: Vec<RouteDescriptor> = Vec::new();
    let mut i: usize = 0;
    while i < routes.len()
        invariant
            i <= routes.len(),
            descriptors@.len() == i,
        decreases routes.len() - i,
    {
        let handler = routes[i];
        descriptors.push(
            RouteDescriptor {
                path_pattern: handler.path().to_owned(),
                needs_body_part: handler.needs_multipart(),
            },
        );
        i += 1;
    }
    descriptors
}

/// The part that a request offers for extraction: the first part of its
/// body, where the body was read.
pub open spec fn offered_part(headers: Seq<Header>, body: Option<&[u8]>) -> Option<PartSpec> {
    match body {
        Some(body) => parsed_part(headers, body@),
        None => None,
    }
}

/// The upload that the handler of a request sees, or `Err` with the
/// capacity and the size of the part where the part is rejected.
pub open spec fn upload_for(part: Option<PartSpec>, capacity: usize, policy: OverflowPolicy)
    -> Result<Option<EntrySpec>, (usize, nat)> {
    match part {
        None => Ok(None),
        Some(part) => match entry_of(part, capacity, policy) {
            Some(entry) => Ok(Some(entry)),
            None => Err((capacity, part.data.len())),
        },
    }
}

/// The upload of an extraction that was not rejected.
pub open spec fn granted(upload: Result<Option<EntrySpec>, (usize, nat)>) -> Option<EntrySpec> {
    match upload {
        Ok(upload) => upload,
        Err(_) => None,
    }
}

/// Whether `request` shows the data of `connection`, the parameters of
/// `matched` and the upload `upload`.
pub open spec fn shows(
    request: Request<'_, '_, '_>,
    connection: Connection,
    matched: MatchedRoute,
    upload: Option<EntrySpec>,
) -> bool {
    &&& request.url@ == connection.url@
    &&& request.params == matched.params
    &&& entry_view(request.multipart_entry) == upload
    &&& request.headers@ == connection.headers@
    &&& request.http_version == connection.http_version
}

/// Makes the request view of a connection.
///
/// Where a body is given, its first part is extracted into the upload
/// buffer. A request without a part has no upload, and the buffer is left
/// empty; that is no error. A part that is rejected for its size ends the
/// preparation with `UploadTooLarge`. Without a body the buffer is not
/// touched. The view shows the URL, the header lines and the version of
/// the connection, the parameters of the match and the upload, and it
/// writes into `output`.
pub fn prepare<'a>(
    connection: &'a Connection,
    matched: MatchedRoute,
    buffer: &'a mut UploadBuffer,
    policy: OverflowPolicy,
    body: Option<&[u8]>,
    output: &'a mut OutputSink,
) -> (res: Result<Request<'a, 'a, 'a>, BeakError>)
    requires
        old(buffer).wf(),
    ensures
        final(buffer).wf(),
        final(buffer).capacity() == old(buffer).capacity(),
        body is None ==> final(buffer)@ == old(buffer)@,
        body is Some && offered_part(connection.headers@, body) is None ==> final(buffer)@.len()
            == 0,
        offered_part(connection.headers@, body) is None ==> (res matches Ok(request)
            && request.multipart_entry is None),
        res is Ok <==> upload_for(
            offered_part(connection.headers@, body),
            old(buffer).capacity(),
            policy,
        ) is Ok,
        res matches Ok(request) ==> shows(
            request,
            *connection,
            matched,
            granted(
                upload_for(
                    offered_part(connection.headers@, body),
                    old(buffer).capacity(),
                    policy,
                ),
            ),
        ) && *request.output == *old(output) && *final(request.output) == *final(output),
        res matches Err(e) ==> *final(output) == *old(output) && final(buffer)@.len() == 0 && e
            == too_large(
            old(buffer).capacity(),
            offered_part(connection.headers@, body).unwrap().data.len(),
        ),
{
    let part = match body {
        Some(body) => {
            let part = parse_first_part(connection.headers.as_slice(), body);
            if part.is_none() {
                buffer.clear();
            }
            part
        },
        None => None,
    };
    let upload = match part {
        None => None,
        Some(part) => match store_part(buffer, part, policy) {
            Ok(entry) => Some(entry),
            Err(e) => {
                return Err(e);
            },
        },
    };
    Ok(
        Request::new(
            connection.url.as_str(),
            matched.params,
            upload,
            connection.headers.as_slice(),
            connection.http_version,
            output,
        ),
    )
}

/// Whether `served` is the refusal that is owed where the upload of a
/// request is rejected. Nothing is asked where the upload is not rejected.
pub open spec fn refuses_oversized(
    served: Served,
    upload: Result<Option<EntrySpec>, (usize, nat)>,
) -> bool {
    match upload {
        Ok(_) => true,
        Err((limit, size)) => is_bare(served.reply, PAYLOAD_TOO_LARGE) && served.failure == Some(
            too_large(limit, size),
        ),
    }
}

/// The outcome of a request whose upload was rejected: a bare
/// payload-too-large reply, and the rejection as the failure.
pub fn refuse(rejection: BeakError) -> (served: Served)
    ensures
        is_bare(served.reply, PAYLOAD_TOO_LARGE),
        served.failure == Some(rejection),
{
    Served { reply: Response::empty(PAYLOAD_TOO_LARGE), failure: Some(rejection) }
}

/// One worker: its handlers, its compiled route table, its upload buffer
/// and the connection in hand.
#[verifier::reject_recursive_types(C)]
pub struct Worker<'r, C: Send + Sync> {
    routes: &'r [&'r dyn Handler<C>],
    table: RouteTable,
    buffer: UploadBuffer,
    policy: OverflowPolicy,
    phase: Phase,
    current: Option<Connection>,
    pending: Option<MatchedRoute>,
}

impl<'r, C: Send + Sync> Worker<'r, C> {
    /// The state of the worker.
    pub closed spec fn phase(&self) -> Phase {
        self.phase
    }

    /// The routes of the worker's table.
    pub closed spec fn table(&self) -> Seq<RouteSpec> {
        self.table@
    }

    /// The number of handlers.
    pub closed spec fn handler_count(&self) -> nat {
        self.routes@.len()
    }

    /// The capacity of the upload buffer.
    pub closed spec fn capacity(&self) -> usize {
        self.buffer.capacity()
    }

    /// What the upload buffer holds.
    pub closed spec fn buffered(&self) -> Seq<u8> {
        self.buffer@
    }

    /// What is done with a part that does not fit the upload buffer.
    pub closed spec fn policy(&self) -> OverflowPolicy {
        self.policy
    }

    /// The connection in hand.
    pub closed spec fn connection(&self) -> Option<Connection> {
        self.current
    }

    /// The match of the connection in hand.
    pub closed spec fn matched(&self) -> Option<MatchedSpec> {
        matched_view(self.pending)
    }

    /// The invariant of a worker. Its table has one descriptor for each
    /// handler. It holds a connection and its match exactly while it is
    /// extracting or dispatching, and it extracts only for a route that
    /// wants a body part.
    pub closed spec fn wf(&self) -> bool {
        &&& self.table.wf()
        &&& self.buffer.wf()
        &&& self.table@.len() == self.routes@.len()
        &&& match self.phase {
            Phase::Idle | Phase::Flushing => self.current is None && self.pending is None,
            Phase::ExtractingBody | Phase::Dispatching => {
                &&& self.current is Some
                &&& self.pending is Some
                &&& self.pending.unwrap().route < self.routes@.len()
                &&& self.phase == Phase::ExtractingBody ==> self.pending.unwrap().needs_body_part
                &&& matched_view(self.pending) == resolution(
                    self.table@,
                    self.current.unwrap().url@,
                )
            },
            Phase::Matching => false,
        }
    }

    /// Makes an idle worker from a table, the handlers that the table was
    /// built for, the capacity of the upload buffer and the policy for
    /// oversized parts.
    pub fn with_table(
        routes: &'r [&'r dyn Handler<C>],
        table: RouteTable,
        capacity: usize,
        policy: OverflowPolicy,
    ) -> (worker: Worker<'r, C>)
        requires
            table.wf(),
            table@.len() == routes@.len(),
        ensures
            worker.wf(),
            worker.phase() == Phase::Idle,
            worker.table() == table@,
            worker.handler_count() == routes@.len(),
            worker.capacity() == capacity,
            worker.policy() == policy,
            worker.buffered().len() == 0,
    {
        Worker {
            routes,
            table,
            buffer: UploadBuffer::with_capacity(capacity),
            policy,
            phase: Phase::Idle,
            current: None,
            pending: None,
        }
    }

    /// Makes an idle worker for the given handlers. Each handler is asked
    /// for its pattern and its body requirement, once, and the table is
    /// built from the answers. The construction fails where the table
    /// cannot be built. Without handlers it succeeds.
    pub fn new(routes: &'r [&'r dyn Handler<C>], capacity: usize, policy: OverflowPolicy) -> (res:
        BeakResult<Worker<'r, C>>)
        ensures
            routes@.len() == 0 ==> res is Ok,
            res matches Ok(worker) ==> worker.wf() && worker.phase() == Phase::Idle
                && worker.handler_count() == routes@.len() && worker.table().len()
                == routes@.len() && worker.capacity() == capacity && worker.policy() == policy,
    {
        let descriptors = describe(routes);
        match RouteTable::build(descriptors.as_slice()) {
            Ok(table) => Ok(Worker::with_table(routes, table, capacity, policy)),
            Err(e) => Err(e),
        }
    }

    /// The state of the worker.
    pub fn current_phase(&self) -> (phase: Phase)
        ensures
            phase == self.phase(),
    {
        self.phase
    }

    /// Takes a connection and resolves its path.
    ///
    /// Where no route matches, the result is a bare not-found reply and the
    /// worker waits for it to be flushed; neither extraction nor a handler
    /// is reached. Else the worker keeps the connection and its match, and
    /// asks for the body where the matched route wants a body part.
    pub fn begin(&mut self, connection: Connection) -> (routing: Routing)
        requires
            old(self).wf(),
            old(self).phase() == Phase::Idle,
        ensures
            final(self).wf(),
            final(self).table() == old(self).table(),
            final(self).handler_count() == old(self).handler_count(),
            final(self).capacity() == old(self).capacity(),
            final(self).policy() == old(self).policy(),
            final(self).buffered() == old(self).buffered(),
            final(self).phase() == phase_after_routing(
                resolution(old(self).table(), connection.url@),
            ),
            answers(routing, resolution(old(self).table(), connection.url@)),
            resolution(old(self).table(), connection.url@) is Some ==> final(self).connection()
                == Some(connection) && final(self).matched() == resolution(
                old(self).table(),
                connection.url@,
            ),
    {
        let matching = advance(self.phase, Signal::Connection).unwrap();
        match self.table.resolve(connection.url.as_str()) {
            None => {
                self.phase = advance(matching, Signal::NoMatch).unwrap();
                Routing::NotFound(Response::empty(NOT_FOUND))
            },
            Some(matched) => {
                let needs_body_part = matched.needs_body_part;
                self.phase = advance(matching, Signal::Matched { needs_body_part }).unwrap();
                self.current = Some(connection);
                self.pending = Some(matched);
                if needs_body_part {
                    Routing::NeedsBody
                } else {
                    Routing::Ready
                }
            },
        }
    }

    /// Serves the connection in hand: extracts the upload where the worker
    /// waits for a body, makes the request view and calls the handler of
    /// the matched route.
    ///
    /// `body` is the body of the request, or `None` where it could not be
    /// read; it is looked at only while the worker is extracting. An upload
    /// that is rejected for its size is answered with a bare
    /// payload-too-large reply, and no handler is called. Else the reply is
    /// what [`conclude`] makes of what the handler emitted and returned.
    /// The worker then waits for the reply to be flushed.
    pub fn dispatch(&mut self, body: Option<&[u8]>, context: C) -> (served: Served)
        requires
            old(self).wf(),
            old(self).phase() == Phase::ExtractingBody || old(self).phase() == Phase::Dispatching,
        ensures
            final(self).wf(),
            final(self).phase() == Phase::Flushing,
            final(self).table() == old(self).table(),
            final(self).handler_count() == old(self).handler_count(),
            final(self).capacity() == old(self).capacity(),
            final(self).policy() == old(self).policy(),
            old(self).phase() == Phase::Dispatching ==> final(self).buffered()
                == old(self).buffered(),
            old(self).phase() == Phase::ExtractingBody ==> refuses_oversized(
                served,
                upload_for(
                    offered_part(old(self).connection().unwrap().headers@, body),
                    old(self).capacity(),
                    old(self).policy(),
                ),
            ),
    {
        let extracting = self.phase == Phase::ExtractingBody;
        let matched = self.pending.take().unwrap();
        let connection = self.current.take().unwrap();
        let handler = self.routes[matched.route];
        let offered = if extracting {
            body
        } else {
            None
        };
        let mut sink = OutputSink::new();
        match prepare(&connection, matched, &mut self.buffer, self.policy, offered, &mut sink) {
            Err(rejection) => {
                self.phase = advance(self.phase, Signal::Oversized).unwrap();
                refuse(rejection)
            },
            Ok(request) => {
                if extracting {
                    self.phase = advance(self.phase, Signal::Extracted).unwrap();
                }
                let result = handler.handle(request, context);
                self.phase = advance(self.phase, Signal::Handled).unwrap();
                conclude(sink, result)
            },
        }
    }

    /// Ends the exchange with the outcome of writing and flushing the
    /// reply. A client that closed the connection early is no failure; any
    /// other error is handed back for the caller to report. Either way the
    /// worker is idle again.
    pub fn finish(&mut self, flushed: Result<(), std::io::Error>) -> (r: Result<
        (),
        std::io::Error,
    >)
        requires
            old(self).wf(),
            old(self).phase() == Phase::Flushing,
        ensures
            final(self).wf(),
            final(self).phase() == Phase::Idle,
            final(self).table() == old(self).table(),
            final(self).handler_count() == old(self).handler_count(),
            final(self).capacity() == old(self).capacity(),
            final(self).policy() == old(self).policy(),
            r == forgiven(flushed),
            flushed matches Err(e) && io_fault_of(e).client_closed() ==> r is Ok,
    {
        self.phase = advance(self.phase, Signal::Flushed).unwrap();
        ignore_client_closing_errors(flushed)
    }
}

/// Whether `worker` is as a pool makes it: idle, with a table of the given
/// routes, one handler for each route, an empty upload buffer of the given
/// capacity, and the given policy.
pub open spec fn is_fresh<C: Send + Sync>(
    worker: Worker<'_, C>,
    routes: Seq<RouteSpec>,
    capacity: usize,
    policy: OverflowPolicy,
) -> bool {
    &&& worker.wf()
    &&& worker.phase() == Phase::Idle
    &&& worker.table() == routes
    &&& worker.handler_count() == routes.len()
    &&& worker.capacity() == capacity
    &&& worker.policy() == policy
    &&& worker.buffered().len() == 0
}

/// Makes the workers of a pool of fixed size from one list of descriptors.
///
/// Each worker gets a table of its own, built from the same descriptors,
/// and an upload buffer of its own. A pool of no workers is always made. A
/// pool of some workers is made exactly when the descriptors make a table;
/// else the error is that of the first descriptor that is refused.
pub fn staff<'r, C: Send + Sync>(
    routes: &'r [&'r dyn Handler<C>],
    descriptors: &[RouteDescriptor],
    workers: usize,
    capacity: usize,
    policy: OverflowPolicy,
) -> (res: BeakResult<Vec<Worker<'r, C>>>)
    requires
        descriptors@.len() == routes@.len(),
    ensures
        workers == 0 ==> res is Ok,
        workers > 0 ==> (res is Ok <==> admissible(specs_of(descriptors@))),
        res matches Ok(pool) ==> pool@.len() == workers && forall|i: int|
            0 <= i < workers ==> is_fresh(
                #[trigger] pool@[i],
                specs_of(descriptors@),
                capacity,
                policy,
            ),
        res matches Err(e) ==> build_outcome(descriptors@) == Err::<(), BeakError>(e),
{
    let mut pool: Vec<Worker<'r, C>> = Vec::new();
    let mut made: usize = 0;
    while made < workers
        invariant
            made <= workers,
            descriptors@.len() == routes@.len(),
            pool@.len() == made,
            made > 0 ==> admissible(specs_of(descriptors@)),
            forall|i: int|
                0 <= i < made ==> is_fresh(
                    #[trigger] pool@[i],
                    specs_of(descriptors@),
                    capacity,
                    policy,
                ),
        decreases workers - made,
    {
        match RouteTable::build(descriptors) {
            Err(e) => {
                return Err(e);
            },
            Ok(table) => {
                pool.push(Worker::with_table(routes, table, capacity, policy));
            },
        }
        made += 1;
    }
    Ok(pool)
}

/// Makes the workers of a pool of fixed size for the given handlers. Each
/// handler is asked for its pattern and its body requirement once, and
/// every worker is made from the answers.
pub fn pool<'r, C: Send + Sync>(
    routes: &'r [&'r dyn Handler<C>],
    workers: usize,
    capacity: usize,
    policy: OverflowPolicy,
) -> (res: BeakResult<Vec<Worker<'r, C>>>)
    ensures
        workers == 0 || routes@.len() == 0 ==> res is Ok,
        res matches Ok(pool) ==> pool@.len() == workers && forall|i: int|
            0 <= i < workers ==> (#[trigger] pool@[i]).wf() && pool@[i].phase() == Phase::Idle
                && pool@[i].handler_count() == routes@.len() && pool@[i].capacity() == capacity
                && pool@[i].policy() == policy && pool@[i].buffered().len() == 0,
{
    let descriptors = describe(routes);
    staff(routes, descriptors.as_slice(), workers, capacity, policy)
}

} // verus!
