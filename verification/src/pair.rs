//! One accepted client and its upstream: the upstream is opened, the two
//! directions run side by side, the first to end stops the other, and the
//! connection is over when both have ended.

use vstd::prelude::*;
use crate::event::{Direction, Event};
use crate::relay::{IoFailure, RelayResult};

verus! {

/// The signal by which one direction of a connection stops the other. It
/// is fired once; firing it again changes nothing.
pub struct Cancellation {
    fired: bool,
}

impl Cancellation {
    /// Whether the signal has been fired.
    pub closed spec fn fired(&self) -> bool {
        self.fired
    }

    /// A signal that has not been fired.
    pub fn new() -> (signal: Self)
        ensures
            !signal.fired(),
    {
        Cancellation { fired: false }
    }

    #[verifier::when_used_as_spec(fired)]
    pub fn is_fired(&self) -> (fired: bool)
        ensures
            fired == self.fired(),
    {
        self.fired
    }

    /// Fires the signal and says whether this call was the one that did.
    pub fn fire(&mut self) -> (first: bool)
        ensures
            final(self).fired(),
            first == !old(self).fired(),
    {
        let first = !self.fired;
        self.fired = true;
        first
    }
}

/// Where a connection stands.
#[derive(Debug, Clone, Copy, PartialEq, Eq, Structural)]
pub enum PairPhase {
    /// The upstream is being opened.
    Connecting,
    /// Both directions are running.
    Relaying,
    /// One direction has ended and the other has been told to stop.
    Draining,
    /// Both sockets are released.
    Closed,
}

/// The events for one direction that has ended: its error always, its
/// byte count only where the operator asked for it.
pub open spec fn direction_events(
    debug: bool,
    direction: Direction,
    client_address: String,
    result: RelayResult,
) -> Seq<Event> {
    match result {
        Ok(count) => if debug {
            seq![Event::DirectionClosed { direction, client_address, bytes_transferred: count }]
        } else {
            Seq::empty()
        },
        Err(error) => seq![Event::DirectionFailed { direction, client_address, error }],
    }
}

/// The events for a connection whose two directions have ended: first
/// what the client sent, then what the upstream sent, and last, where the
/// upstream's stream ended in good order, that the connection is closed.
pub open spec fn report_of(
    debug: bool,
    client_address: String,
    client_to_upstream: RelayResult,
    upstream_to_client: RelayResult,
) -> Seq<Event> {
    direction_events(debug, Direction::ClientToUpstream, client_address, client_to_upstream)
        + direction_events(debug, Direction::UpstreamToClient, client_address, upstream_to_client)
        + if upstream_to_client is Ok {
        seq![Event::ConnectionClosed { client_address }]
    } else {
        Seq::empty()
    }
}

fn push_direction(
    events: &mut Vec<Event>,
    debug: bool,
    direction: Direction,
    client_address: &String,
    result: RelayResult,
)
    ensures
        final(events)@ == old(events)@ + direction_events(
            debug,
            direction,
            *client_address,
            result,
        ),
{
    match result {
        Ok(count) => {
            if debug {
                events.push(
                    Event::DirectionClosed {
                        direction,
                        client_address: client_address.clone(),
                        bytes_transferred: count,
                    },
                );
            }
        },
        Err(error) => {
            events.push(
                Event::DirectionFailed {
                    direction,
                    client_address: client_address.clone(),
                    error,
                },
            );
        },
    }
    assert(final(events)@ =~= old(events)@ + direction_events(
        debug,
        direction,
        *client_address,
        result,
    ));
}

/// Builds the events for a connection whose two directions have ended.
pub fn report(
    debug: bool,
    client_address: &String,
    client_to_upstream: RelayResult,
    upstream_to_client: RelayResult,
) -> (events: Vec<Event>)
    ensures
        events@ == report_of(debug, *client_address, client_to_upstream, upstream_to_client),
{
    let mut events: Vec<Event> = Vec::new();
    let closed = upstream_to_client.is_ok();
    push_direction(
        &mut events,
        debug,
        Direction::ClientToUpstream,
        client_address,
        client_to_upstream,
    );
    push_direction(
        &mut events,
        debug,
        Direction::UpstreamToClient,
        client_address,
        upstream_to_client,
    );
    if closed {
        events.push(Event::ConnectionClosed { client_address: client_address.clone() });
    }
    assert(events@ =~= report_of(
        debug,
        *client_address,
        client_to_upstream,
        upstream_to_client,
    ));
    events
}

/// The events for a connection at the moment its second direction ends,
/// given the direction that ended first.
pub open spec fn closing_report(
    debug: bool,
    client_address: String,
    first: (Direction, RelayResult),
    second: RelayResult,
) -> Seq<Event> {
    if first.0 == Direction::ClientToUpstream {
        report_of(debug, client_address, first.1, second)
    } else {
        report_of(debug, client_address, second, first.1)
    }
}

/// What can happen to a connection.
#[derive(Debug, PartialEq, Eq)]
pub enum PairEvent {
    /// The upstream was opened.
    Connected,
    /// The upstream could not be opened.
    ConnectFailed(IoFailure),
    /// A direction has ended with this result.
    DirectionDone(Direction, RelayResult),
}

/// What the caller is to do next for a connection.
#[derive(Debug, PartialEq, Eq)]
pub enum PairAction {
    /// Start both directions, each with its own observer of the signal.
    StartRelays,
    /// Fire the signal, so that the direction still running stops.
    Cancel,
    /// Release both sockets and hand these events on.
    Finish(Vec<Event>),
}

/// A `PairAction` as a mathematical value.
pub enum PairActionView {
    StartRelays,
    Cancel,
    Finish(Seq<Event>),
}

impl View for PairAction {
    type V = PairActionView;

    open spec fn view(&self) -> PairActionView {
        match self {
            PairAction::StartRelays => PairActionView::StartRelays,
            PairAction::Cancel => PairActionView::Cancel,
            PairAction::Finish(events) => PairActionView::Finish(events@),
        }
    }
}

/// A connection as a mathematical value.
pub struct PairView {
    /// The name of the rule that the client came in on.
    pub rule_name: String,
    /// The address of the client.
    pub client_address: String,
    /// The address that the client is forwarded to.
    pub upstream_address: String,
    /// Whether byte counts are reported.
    pub debug: bool,
    /// Where the connection stands.
    pub phase: PairPhase,
    /// Whether the signal of this connection has been fired.
    pub cancelled: bool,
    /// The direction that ended first, with its result, while the other
    /// is still running.
    pub ended: Option<(Direction, RelayResult)>,
}

impl PairView {
    /// A connection whose client was just accepted.
    pub open spec fn opened(
        rule_name: String,
        client_address: String,
        upstream_address: String,
        debug: bool,
    ) -> PairView {
        PairView {
            rule_name,
            client_address,
            upstream_address,
            debug,
            phase: PairPhase::Connecting,
            cancelled: false,
            ended: None,
        }
    }

    /// The signal is fired from the moment the first direction ends, and
    /// a result is held exactly while the other direction drains.
    pub open spec fn wf(self) -> bool {
        match self.phase {
            PairPhase::Connecting => self.ended is None && !self.cancelled,
            PairPhase::Relaying => self.ended is None && !self.cancelled,
            PairPhase::Draining => self.ended is Some && self.cancelled,
            PairPhase::Closed => self.ended is None,
        }
    }

    /// Whether the result of `direction` is still to come.
    pub open spec fn pending(self, direction: Direction) -> bool {
        match self.phase {
            PairPhase::Relaying => true,
            PairPhase::Draining => self.ended matches Some(first) && first.0 != direction,
            _ => false,
        }
    }

    /// Whether `event` can happen to the connection as it stands: the
    /// upstream is opened once, and each direction ends once.
    pub open spec fn accepts(self, event: PairEvent) -> bool {
        match event {
            PairEvent::Connected => self.phase == PairPhase::Connecting,
            PairEvent::ConnectFailed(_) => self.phase == PairPhase::Connecting,
            PairEvent::DirectionDone(direction, _) => self.pending(direction),
        }
    }

    /// The connection after `event`.
    pub open spec fn after(self, event: PairEvent) -> PairView {
        match event {
            PairEvent::Connected => PairView { phase: PairPhase::Relaying, ..self },
            PairEvent::ConnectFailed(_) => PairView { phase: PairPhase::Closed, ..self },
            PairEvent::DirectionDone(direction, result) => match self.ended {
                None => PairView {
                    phase: PairPhase::Draining,
                    cancelled: true,
                    ended: Some((direction, result)),
                    ..self
                },
                Some(_) => PairView { phase: PairPhase::Closed, ended: None, ..self },
            },
        }
    }

    /// What the caller is asked to do upon `event`.
    pub open spec fn action(self, event: PairEvent) -> PairActionView {
        match event {
            PairEvent::Connected => PairActionView::StartRelays,
            PairEvent::ConnectFailed(error) => PairActionView::Finish(
                seq![
                    Event::UpstreamConnectFailed {
                        rule_name: self.rule_name,
                        client_address: self.client_address,
                        error,
                    },
                ],
            ),
            PairEvent::DirectionDone(_, result) => match self.ended {
                None => PairActionView::Cancel,
                Some(first) => PairActionView::Finish(
                    closing_report(self.debug, self.client_address, first, result),
                ),
            },
        }
    }
}

/// One accepted client, from the attempt to reach its upstream to the
/// release of both sockets.
pub struct Pair {
    rule_name: String,
    client_address: String,
    upstream_address: String,
    debug: bool,
    phase: PairPhase,
    signal: Cancellation,
    first: Option<(Direction, RelayResult)>,
}

impl View for Pair {
    type V = PairView;

    closed spec fn view(&self) -> PairView {
        PairView {
            rule_name: self.rule_name,
            client_address: self.client_address,
            upstream_address: self.upstream_address,
            debug: self.debug,
            phase: self.phase,
            cancelled: self.signal.fired(),
            ended: self.first,
        }
    }
}

impl Pair {
    /// Takes charge of a client that was just accepted, and says that it
    /// has connected. The upstream is to be opened next.
    pub fn open(
        rule_name: String,
        client_address: String,
        upstream_address: String,
        debug: bool,
    ) -> (opened: (Pair, Event))
        ensures
            opened.0@ == PairView::opened(rule_name, client_address, upstream_address, debug),
            opened.0@.wf(),
            opened.1 == (Event::ClientConnected { rule_name, client_address }),
    {
        let event = Event::ClientConnected {
            rule_name: rule_name.clone(),
            client_address: client_address.clone(),
        };
        let pair = Pair {
            rule_name,
            client_address,
            upstream_address,
            debug,
            phase: PairPhase::Connecting,
            signal: Cancellation::new(),
            first: None,
        };
        (pair, event)
    }

    /// Where the connection stands.
    pub fn phase(&self) -> (phase: PairPhase)
        ensures
            phase == self@.phase,
    {
        self.phase
    }

    /// The address to open for this client.
    pub fn upstream_address(&self) -> (address: &String)
        ensures
            *address == self@.upstream_address,
    {
        &self.upstream_address
    }

    /// The address of the client.
    pub fn client_address(&self) -> (address: &String)
        ensures
            *address == self@.client_address,
    {
        &self.client_address
    }

    /// Whether the signal has been fired.
    pub fn is_cancelled(&self) -> (cancelled: bool)
        ensures
            cancelled == self@.cancelled,
    {
        self.signal.is_fired()
    }

    /// Whether the result of `direction` is still to come.
    pub fn awaits(&self, direction: Direction) -> (pending: bool)
        ensures
            pending == self@.pending(direction),
    {
        match self.phase {
            PairPhase::Relaying => true,
            PairPhase::Draining => match &self.first {
                Some(first) => first.0 != direction,
                None => false,
            },
            _ => false,
        }
    }

    /// Whether `event` can happen to the connection as it stands.
    pub fn accepts(&self, event: &PairEvent) -> (accepted: bool)
        ensures
            accepted == self@.accepts(*event),
    {
        match event {
            PairEvent::Connected => self.phase == PairPhase::Connecting,
            PairEvent::ConnectFailed(_) => self.phase == PairPhase::Connecting,
            PairEvent::DirectionDone(direction, _) => self.awaits(*direction),
        }
    }

    /// Moves the connection on by one event and says what is to be done.
    ///
    /// An upstream that was opened starts both directions; one that was
    /// not is reported, and the client is dropped with nothing relayed.
    /// The direction that ends first fires the signal and its result is
    /// kept; with the second the connection is over and both results are
    /// reported.
    pub fn on_event(&mut self, event: PairEvent) -> (action: PairAction)
        requires
            old(self)@.wf(),
            old(self)@.accepts(event),
        ensures
            final(self)@.wf(),
            final(self)@ == old(self)@.after(event),
            action@ == old(self)@.action(event),
    {
        match event {
            PairEvent::Connected => {
                self.phase = PairPhase::Relaying;
                PairAction::StartRelays
            },
            PairEvent::ConnectFailed(error) => {
                self.phase = PairPhase::Closed;
                let mut events: Vec<Event> = Vec::new();
                events.push(
                    Event::UpstreamConnectFailed {
                        rule_name: self.rule_name.clone(),
                        client_address: self.client_address.clone(),
                        error,
                    },
                );
                PairAction::Finish(events)
            },
            PairEvent::DirectionDone(direction, result) => match self.first.take() {
                None => {
                    self.signal.fire();
                    self.first = Some((direction, result));
                    self.phase = PairPhase::Draining;
                    PairAction::Cancel
                },
                Some(first) => {
                    self.phase = PairPhase::Closed;
                    let events = match first.0 {
                        Direction::ClientToUpstream => report(
                            self.debug,
                            &self.client_address,
                            first.1,
                            result,
                        ),
                        Direction::UpstreamToClient => report(
                            self.debug,
                            &self.client_address,
                            result,
                            first.1,
                        ),
                    };
                    PairAction::Finish(events)
                },
            },
        }
    }
}

/// Every event that can happen to a well-formed connection leaves it
/// well-formed.
pub proof fn lemma_step_keeps_wf(pair: PairView, event: PairEvent)
    requires
        pair.wf(),
        pair.accepts(event),
    ensures
        pair.after(event).wf(),
{
}

/// The moment one direction ends, whether in good order or with an
/// error, the signal is fired for the other, which alone is still
/// awaited.
pub proof fn lemma_first_end_cancels_other(
    pair: PairView,
    direction: Direction,
    result: RelayResult,
)
    requires
        pair.wf(),
        pair.phase == PairPhase::Relaying,
    ensures
        pair.accepts(PairEvent::DirectionDone(direction, result)),
        pair.action(PairEvent::DirectionDone(direction, result)) == PairActionView::Cancel,
        pair.after(PairEvent::DirectionDone(direction, result)).phase == PairPhase::Draining,
        pair.after(PairEvent::DirectionDone(direction, result)).cancelled,
        pair.after(PairEvent::DirectionDone(direction, result)).pending(direction.opposite()),
        !pair.after(PairEvent::DirectionDone(direction, result)).pending(direction),
{
}

/// With the end of the second direction the connection is closed, and
/// what is handed on is the report of both results.
pub proof fn lemma_second_end_closes(pair: PairView, direction: Direction, result: RelayResult)
    requires
        pair.wf(),
        pair.phase == PairPhase::Draining,
        pair.pending(direction),
    ensures
        pair.after(PairEvent::DirectionDone(direction, result)).phase == PairPhase::Closed,
        pair.ended matches Some(first) && first.0 == direction.opposite() && pair.action(
            PairEvent::DirectionDone(direction, result),
        ) == PairActionView::Finish(
            closing_report(pair.debug, pair.client_address, first, result),
        ),
{
}

/// A report holds an error for exactly the directions that failed, each
/// with its own error: a direction that ended in good order, as one does
/// whose source was reset or aborted, is never reported as an error.
pub proof fn lemma_errors_reported_for_failures_only(
    debug: bool,
    client_address: String,
    client_to_upstream: RelayResult,
    upstream_to_client: RelayResult,
)
    ensures
        forall|i: int|
            #![trigger report_of(debug, client_address, client_to_upstream, upstream_to_client)[i]]
            0 <= i < report_of(
                debug,
                client_address,
                client_to_upstream,
                upstream_to_client,
            ).len() ==> {
                let event = report_of(
                    debug,
                    client_address,
                    client_to_upstream,
                    upstream_to_client,
                )[i];
                event.is_error() ==> {
                    ||| client_to_upstream matches Err(error) && event == (Event::DirectionFailed {
                        direction: Direction::ClientToUpstream,
                        client_address,
                        error,
                    })
                    ||| upstream_to_client matches Err(error) && event == (Event::DirectionFailed {
                        direction: Direction::UpstreamToClient,
                        client_address,
                        error,
                    })
                }
            },
        client_to_upstream matches Err(error) ==> report_of(
            debug,
            client_address,
            client_to_upstream,
            upstream_to_client,
        ).contains(
            Event::DirectionFailed {
                direction: Direction::ClientToUpstream,
                client_address,
                error,
            },
        ),
        upstream_to_client matches Err(error) ==> report_of(
            debug,
            client_address,
            client_to_upstream,
            upstream_to_client,
        ).contains(
            Event::DirectionFailed {
                direction: Direction::UpstreamToClient,
                client_address,
                error,
            },
        ),
{
    let first = direction_events(
        debug,
        Direction::ClientToUpstream,
        client_address,
        client_to_upstream,
    );
    let second = direction_events(
        debug,
        Direction::UpstreamToClient,
        client_address,
        upstream_to_client,
    );
    let report = report_of(debug, client_address, client_to_upstream, upstream_to_client);
    if client_to_upstream is Err {
        assert(report[0] == first[0]);
    }
    if upstream_to_client is Err {
        assert(report[first.len() as int] == second[0]);
    }
}

/// The connections of one listener after `event` has reached the one at
/// `index`: each connection is a value of its own, and an event reaches
/// the one it belongs to.
pub open spec fn deliver(connections: Seq<PairView>, index: int, event: PairEvent) -> Seq<
    PairView,
> {
    connections.update(index, connections[index].after(event))
}

/// What happens to one connection, be it an error, a byte count or a
/// cancellation, leaves every other connection as it was.
pub proof fn lemma_connections_are_isolated(
    connections: Seq<PairView>,
    index: int,
    event: PairEvent,
    other: int,
)
    requires
        0 <= index < connections.len(),
        0 <= other < connections.len(),
        other != index,
    ensures
        deliver(connections, index, event).len() == connections.len(),
        deliver(connections, index, event)[other] == connections[other],
        deliver(connections, index, event)[index] == connections[index].after(event),
{
}

/// Events of two connections can be taken in either order: where each
/// connection ends up depends on its own events alone.
pub proof fn lemma_connections_run_side_by_side(
    connections: Seq<PairView>,
    first: int,
    first_event: PairEvent,
    second: int,
    second_event: PairEvent,
)
    requires
        0 <= first < connections.len(),
        0 <= second < connections.len(),
        first != second,
    ensures
        deliver(deliver(connections, first, first_event), second, second_event) == deliver(
            deliver(connections, second, second_event),
            first,
            first_event,
        ),
{
    assert(deliver(deliver(connections, first, first_event), second, second_event) =~= deliver(
        deliver(connections, second, second_event),
        first,
        first_event,
    ));
}

} // verus!
