use tcp_proxy::config::{Server, Settings};
use tcp_proxy::event::Event;
use tcp_proxy::forwarder::ForwarderSet;
use tcp_proxy::pair::{PairAction, PairEvent, PairPhase};
use tcp_proxy::relay::{FailureKind, IoFailure};
use tcp_proxy::supervisor::{Supervisor, SupervisorAction, SupervisorEvent, SupervisorPhase};

fn failure(detail: &str) -> IoFailure {
    IoFailure { kind: FailureKind::Other, detail: detail.to_string() }
}

fn rule(name: &str, listen: &str, forward: &str) -> Server {
    Server {
        name: name.to_string(),
        listen_address: listen.to_string(),
        forward_address: forward.to_string(),
    }
}

fn listening(server: &Server, debug: bool) -> Supervisor {
    let mut supervisor = Supervisor::new(server, debug);
    supervisor.on_event(SupervisorEvent::Bound(server.listen_address.clone()));
    supervisor
}

#[test]
fn new_listener_is_to_be_bound() {
    let supervisor = Supervisor::new(&rule("web", "127.0.0.1:19000", "127.0.0.1:9"), false);
    assert_eq!(supervisor.phase(), SupervisorPhase::Binding);
    assert_eq!(supervisor.listen_address(), "127.0.0.1:19000");
    assert!(supervisor.accepts(&SupervisorEvent::Bound("127.0.0.1:19000".to_string())));
    assert!(supervisor.accepts(&SupervisorEvent::BindFailed(failure("in use"))));
    assert!(!supervisor.accepts(&SupervisorEvent::Accepted("192.0.2.1:1".to_string())));
    assert!(!supervisor.accepts(&SupervisorEvent::AcceptFailed(failure("bad"))));
}

#[test]
fn bound_listener_announces_itself() {
    let mut supervisor = Supervisor::new(&rule("web", "127.0.0.1:0", "example.org:80"), false);
    match supervisor.on_event(SupervisorEvent::Bound("127.0.0.1:43210".to_string())) {
        SupervisorAction::Announce(event) => assert_eq!(
            event,
            Event::ForwardStarted {
                rule_name: "web".to_string(),
                bound_address: "127.0.0.1:43210".to_string(),
                upstream_address: "example.org:80".to_string(),
            }
        ),
        _ => panic!("a bound listener announces itself"),
    }
    assert_eq!(supervisor.phase(), SupervisorPhase::Accepting);
    assert!(supervisor.accepts(&SupervisorEvent::Accepted("192.0.2.1:1".to_string())));
    assert!(!supervisor.accepts(&SupervisorEvent::Bound("127.0.0.1:43210".to_string())));
}

#[test]
fn bind_failure_stops_the_listener() {
    let mut supervisor = Supervisor::new(&rule("web", "127.0.0.1:80", "example.org:80"), false);
    match supervisor.on_event(SupervisorEvent::BindFailed(failure("permission denied"))) {
        SupervisorAction::Fail(error) => assert_eq!(error, failure("permission denied")),
        _ => panic!("a listener that cannot be bound fails"),
    }
    assert_eq!(supervisor.phase(), SupervisorPhase::Stopped);
    assert!(!supervisor.accepts(&SupervisorEvent::Accepted("192.0.2.1:1".to_string())));
    assert!(!supervisor.accepts(&SupervisorEvent::Bound("127.0.0.1:80".to_string())));
}

#[test]
fn accepted_client_gets_a_connection_of_its_own() {
    let mut supervisor = listening(&rule("web", "127.0.0.1:19000", "example.org:80"), true);
    match supervisor.on_event(SupervisorEvent::Accepted("192.0.2.7:51000".to_string())) {
        SupervisorAction::Spawn(pair, event) => {
            assert_eq!(
                event,
                Event::ClientConnected {
                    rule_name: "web".to_string(),
                    client_address: "192.0.2.7:51000".to_string(),
                }
            );
            assert_eq!(pair.phase(), PairPhase::Connecting);
            assert_eq!(pair.upstream_address(), "example.org:80");
            assert_eq!(pair.client_address(), "192.0.2.7:51000");
        }
        _ => panic!("an accepted client is paired"),
    }
    assert_eq!(supervisor.phase(), SupervisorPhase::Accepting);
}

#[test]
fn accept_failure_stops_the_listener() {
    let mut supervisor = listening(&rule("web", "127.0.0.1:19000", "example.org:80"), false);
    match supervisor.on_event(SupervisorEvent::AcceptFailed(failure("too many open files"))) {
        SupervisorAction::Fail(error) => assert_eq!(error, failure("too many open files")),
        _ => panic!("a failed accept stops the listener"),
    }
    assert_eq!(supervisor.phase(), SupervisorPhase::Stopped);
    assert!(!supervisor.accepts(&SupervisorEvent::Accepted("192.0.2.1:1".to_string())));
}

#[test]
fn nothing_listening_upstream_fails_every_client_and_the_listener_goes_on() {
    let mut supervisor = listening(&rule("dead", "127.0.0.1:19000", "127.0.0.1:9"), false);
    for client in ["192.0.2.1:1000", "192.0.2.2:2000", "192.0.2.3:3000"] {
        assert!(supervisor.accepts(&SupervisorEvent::Accepted(client.to_string())));
        let mut pair = match supervisor.on_event(SupervisorEvent::Accepted(client.to_string())) {
            SupervisorAction::Spawn(pair, _) => pair,
            _ => panic!("an accepted client is paired"),
        };
        assert_eq!(pair.upstream_address(), "127.0.0.1:9");
        let action = pair.on_event(PairEvent::ConnectFailed(failure("connection refused")));
        assert_eq!(
            action,
            PairAction::Finish(vec![Event::UpstreamConnectFailed {
                rule_name: "dead".to_string(),
                client_address: client.to_string(),
                error: failure("connection refused"),
            }])
        );
        assert_eq!(pair.phase(), PairPhase::Closed);
        assert_eq!(supervisor.phase(), SupervisorPhase::Accepting);
    }
}

fn two_rules() -> Settings {
    Settings {
        debug: false,
        forward: vec![
            rule("one", "127.0.0.1:19001", "127.0.0.1:29001"),
            rule("two", "127.0.0.1:19002", "127.0.0.1:29002"),
        ],
    }
}

#[test]
fn set_starts_one_listener_for_each_rule() {
    let (set, supervisors) = ForwarderSet::start(&two_rules());
    assert_eq!(set.len(), 2);
    assert_eq!(supervisors.len(), 2);
    assert_eq!(supervisors[0].listen_address(), "127.0.0.1:19001");
    assert_eq!(supervisors[1].listen_address(), "127.0.0.1:19002");
    assert_eq!(supervisors[0].phase(), SupervisorPhase::Binding);
    assert!(set.is_running(0));
    assert!(set.is_running(1));
    assert!(!set.is_running(2));
    assert_eq!(set.outcome(), None);
}

#[test]
fn set_without_rules_is_finished_at_once() {
    let (set, supervisors) = ForwarderSet::start(&Settings { debug: true, forward: Vec::new() });
    assert_eq!(set.len(), 0);
    assert!(supervisors.is_empty());
    assert_eq!(set.outcome(), Some(Ok(())));
}

#[test]
fn one_rule_failing_to_bind_leaves_the_other_accepting() {
    let (mut set, mut supervisors) = ForwarderSet::start(&two_rules());
    let mut second = supervisors.pop().unwrap();
    let mut first = supervisors.pop().unwrap();

    let error = match first.on_event(SupervisorEvent::BindFailed(failure("address in use"))) {
        SupervisorAction::Fail(error) => error,
        _ => panic!("a listener that cannot be bound fails"),
    };
    assert_eq!(set.on_stopped(0, error), None);
    assert!(!set.is_running(0));
    assert!(set.is_running(1));

    match second.on_event(SupervisorEvent::Bound("127.0.0.1:19002".to_string())) {
        SupervisorAction::Announce(event) => assert_eq!(
            event,
            Event::ForwardStarted {
                rule_name: "two".to_string(),
                bound_address: "127.0.0.1:19002".to_string(),
                upstream_address: "127.0.0.1:29002".to_string(),
            }
        ),
        _ => panic!("a bound listener announces itself"),
    }
    match second.on_event(SupervisorEvent::Accepted("192.0.2.9:9000".to_string())) {
        SupervisorAction::Spawn(pair, _) => assert_eq!(pair.upstream_address(), "127.0.0.1:29002"),
        _ => panic!("an accepted client is paired"),
    }
    assert_eq!(second.phase(), SupervisorPhase::Accepting);
    assert_eq!(set.outcome(), None);
}

#[test]
fn set_ends_with_the_first_error_once_all_have_stopped() {
    let (mut set, _) = ForwarderSet::start(&two_rules());
    assert_eq!(set.on_stopped(1, failure("accept failed")), None);
    assert_eq!(set.outcome(), None);
    assert_eq!(set.on_stopped(0, failure("address in use")), Some(Err(failure("accept failed"))));
    assert_eq!(set.outcome(), Some(Err(failure("accept failed"))));
    assert!(!set.is_running(0));
    assert!(!set.is_running(1));
}

#[test]
fn listener_carries_the_debug_flag_to_its_connections() {
    let mut supervisor = listening(&rule("web", "127.0.0.1:19000", "example.org:80"), true);
    let mut pair = match supervisor.on_event(SupervisorEvent::Accepted("192.0.2.7:5".to_string()))
    {
        SupervisorAction::Spawn(pair, _) => pair,
        _ => panic!("an accepted client is paired"),
    };
    pair.on_event(PairEvent::Connected);
    pair.on_event(PairEvent::DirectionDone(tcp_proxy::event::Direction::ClientToUpstream, Ok(1)));
    match pair.on_event(PairEvent::DirectionDone(
        tcp_proxy::event::Direction::UpstreamToClient,
        Ok(2),
    )) {
        PairAction::Finish(events) => assert_eq!(events.len(), 3),
        _ => panic!("the connection is over"),
    }
}
