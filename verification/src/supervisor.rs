//! One listener: it is bound, announces itself, and then hands every
//! client it accepts to a connection of its own. It never waits for a
//! connection, and nothing that happens to a connection reaches it.

use vstd::prelude::*;
use crate::config::Server;
use crate::event::Event;
use crate::pair::{Pair, PairActionView, PairEvent, PairPhase, PairView};
use crate::relay::IoFailure;

verus! {

/// Where a listener stands.
#[derive(Debug, Clone, Copy, PartialEq, Eq, Structural)]
pub enum SupervisorPhase {
    /// The listening socket is being bound.
    Binding,
    /// The listener is waiting for the next client.
    Accepting,
    /// The listener has failed and accepts nothing more.
    Stopped,
}

/// What can happen to a listener.
#[derive(Debug, PartialEq, Eq)]
pub enum SupervisorEvent {
    /// The socket was bound to this address.
    Bound(String),
    /// The socket could not be bound.
    BindFailed(IoFailure),
    /// A client with this address was accepted.
    Accepted(String),
    /// Accepting failed.
    AcceptFailed(IoFailure),
}

/// What the caller is to do next for a listener.
pub enum SupervisorAction {
    /// Hand the event on, then accept.
    Announce(Event),
    /// Hand the event on, let the connection run on its own, and accept
    /// again at once.
    Spawn(Pair, Event),
    /// Give up the listener with this error.
    Fail(IoFailure),
}

/// A `SupervisorAction` as a mathematical value.
pub enum SupervisorActionView {
    Announce(Event),
    Spawn(PairView, Event),
    Fail(IoFailure),
}

impl View for SupervisorAction {
    type V = SupervisorActionView;

    open spec fn view(&self) -> SupervisorActionView {
        match self {
            SupervisorAction::Announce(event) => SupervisorActionView::Announce(*event),
            SupervisorAction::Spawn(pair, event) => SupervisorActionView::Spawn(pair@, *event),
            SupervisorAction::Fail(error) => SupervisorActionView::Fail(*error),
        }
    }
}

/// A listener as a mathematical value.
pub struct SupervisorView {
    /// The name of the rule.
    pub name: String,
    /// The address to listen on.
    pub listen_address: String,
    /// The address that clients are forwarded to.
    pub forward_address: String,
    /// Whether byte counts are reported.
    pub debug: bool,
    /// Where the listener stands.
    pub phase: SupervisorPhase,
}

impl SupervisorView {
    /// The listener for `server`, before it is bound.
    pub open spec fn starting(server: Server, debug: bool) -> SupervisorView {
        SupervisorView {
            name: server.name,
            listen_address: server.listen_address,
            forward_address: server.forward_address,
            debug,
            phase: SupervisorPhase::Binding,
        }
    }

    /// Whether `event` can happen to the listener as it stands.
    pub open spec fn accepts(self, event: SupervisorEvent) -> bool {
        match event {
            SupervisorEvent::Bound(_) => self.phase == SupervisorPhase::Binding,
            SupervisorEvent::BindFailed(_) => self.phase == SupervisorPhase::Binding,
            SupervisorEvent::Accepted(_) => self.phase == SupervisorPhase::Accepting,
            SupervisorEvent::AcceptFailed(_) => self.phase == SupervisorPhase::Accepting,
        }
    }

    /// The listener after `event`: it accepts from the moment it is bound
    /// and for as long as accepting does not fail.
    pub open spec fn after(self, event: SupervisorEvent) -> SupervisorView {
        match event {
            SupervisorEvent::Bound(_) => SupervisorView {
                phase: SupervisorPhase::Accepting,
                ..self
            },
            SupervisorEvent::Accepted(_) => self,
            SupervisorEvent::BindFailed(_) => SupervisorView {
                phase: SupervisorPhase::Stopped,
                ..self
            },
            SupervisorEvent::AcceptFailed(_) => SupervisorView {
                phase: SupervisorPhase::Stopped,
                ..self
            },
        }
    }

    /// What the caller is asked to do upon `event`.
    pub open spec fn action(self, event: SupervisorEvent) -> SupervisorActionView {
        match event {
            SupervisorEvent::Bound(bound_address) => SupervisorActionView::Announce(
                Event::ForwardStarted {
                    rule_name: self.name,
                    bound_address,
                    upstream_address: self.forward_address,
                },
            ),
            SupervisorEvent::Accepted(client_address) => SupervisorActionView::Spawn(
                PairView::opened(self.name, client_address, self.forward_address, self.debug),
                Event::ClientConnected { rule_name: self.name, client_address },
            ),
            SupervisorEvent::BindFailed(error) => SupervisorActionView::Fail(error),
            SupervisorEvent::AcceptFailed(error) => SupervisorActionView::Fail(error),
        }
    }
}

/// The accept loop of one forwarding rule.
pub struct Supervisor {
    name: String,
    listen_address: String,
    forward_address: String,
    debug: bool,
    phase: SupervisorPhase,
}

impl View for Supervisor {
    type V = SupervisorView;

    closed spec fn view(&self) -> SupervisorView {
        SupervisorView {
            name: self.name,
            listen_address: self.listen_address,
            forward_address: self.forward_address,
            debug: self.debug,
            phase: self.phase,
        }
    }
}

impl Supervisor {
    /// The listener for `server`. Its socket is to be bound next.
    pub fn new(server: &Server, debug: bool) -> (supervisor: Self)
        ensures
            supervisor@ == SupervisorView::starting(*server, debug),
    {
        Supervisor {
            name: server.name.clone(),
            listen_address: server.listen_address.clone(),
            forward_address: server.forward_address.clone(),
            debug,
            phase: SupervisorPhase::Binding,
        }
    }

    /// Where the listener stands.
    pub fn phase(&self) -> (phase: SupervisorPhase)
        ensures
            phase == self@.phase,
    {
        self.phase
    }

    /// The address to listen on.
    pub fn listen_address(&self) -> (address: &String)
        ensures
            *address == self@.listen_address,
    {
        &self.listen_address
    }

    /// Whether `event` can happen to the listener as it stands.
    pub fn accepts(&self, event: &SupervisorEvent) -> (accepted: bool)
        ensures
            accepted == self@.accepts(*event),
    {
        match event {
            SupervisorEvent::Bound(_) => self.phase == SupervisorPhase::Binding,
            SupervisorEvent::BindFailed(_) => self.phase == SupervisorPhase::Binding,
            SupervisorEvent::Accepted(_) => self.phase == SupervisorPhase::Accepting,
            SupervisorEvent::AcceptFailed(_) => self.phase == SupervisorPhase::Accepting,
        }
    }

    /// Moves the listener on by one event and says what is to be done.
    ///
    /// Once bound, the listener announces itself. Every client it accepts
    /// gets a connection of its own, to be run apart from the listener,
    /// which goes straight back to accepting. A socket that cannot be
    /// bound, or an accept that fails, stops the listener with that error.
    pub fn on_event(&mut self, event: SupervisorEvent) -> (action: SupervisorAction)
        requires
            old(self)@.accepts(event),
        ensures
            final(self)@ == old(self)@.after(event),
            action@ == old(self)@.action(event),
            action matches SupervisorAction::Spawn(pair, _) ==> pair@.wf(),
    {
        match event {
            SupervisorEvent::Bound(bound_address) => {
                self.phase = SupervisorPhase::Accepting;
                SupervisorAction::Announce(
                    Event::ForwardStarted {
                        rule_name: self.name.clone(),
                        bound_address,
                        upstream_address: self.forward_address.clone(),
                    },
                )
            },
            SupervisorEvent::Accepted(client_address) => {
                let (pair, connected) = Pair::open(
                    self.name.clone(),
                    client_address,
                    self.forward_address.clone(),
                    self.debug,
                );
                SupervisorAction::Spawn(pair, connected)
            },
            SupervisorEvent::BindFailed(error) => {
                self.phase = SupervisorPhase::Stopped;
                SupervisorAction::Fail(error)
            },
            SupervisorEvent::AcceptFailed(error) => {
                self.phase = SupervisorPhase::Stopped;
                SupervisorAction::Fail(error)
            },
        }
    }
}

/// A client whose upstream cannot be reached is dropped by itself: its
/// connection closes with the failure reported and nothing relayed, and
/// the listener, which never hears of it, accepts and pairs the next
/// client as it did the last.
pub proof fn lemma_failed_connect_leaves_listener_accepting(
    listener: SupervisorView,
    client: String,
    error: IoFailure,
    next_client: String,
)
    requires
        listener.phase == SupervisorPhase::Accepting,
    ensures
        listener.accepts(SupervisorEvent::Accepted(client)),
        listener.after(SupervisorEvent::Accepted(client)) == listener,
        listener.action(SupervisorEvent::Accepted(client)) matches SupervisorActionView::Spawn(
            pair,
            _,
        ) && {
            &&& pair.wf()
            &&& pair.accepts(PairEvent::ConnectFailed(error))
            &&& pair.after(PairEvent::ConnectFailed(error)).phase == PairPhase::Closed
            &&& pair.action(PairEvent::ConnectFailed(error)) == PairActionView::Finish(
                seq![
                    Event::UpstreamConnectFailed {
                        rule_name: listener.name,
                        client_address: client,
                        error,
                    },
                ],
            )
        },
        listener.accepts(SupervisorEvent::Accepted(next_client)),
        listener.action(SupervisorEvent::Accepted(next_client)) == SupervisorActionView::Spawn(
            PairView::opened(
                listener.name,
                next_client,
                listener.forward_address,
                listener.debug,
            ),
            Event::ClientConnected { rule_name: listener.name, client_address: next_client },
        ),
{
}

} // verus!
