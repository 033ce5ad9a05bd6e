use rkvm_client::client::{run, Action, Error, Event, Outcome, Pending, Phase, Session};
use rkvm_client::protocol::{AuthStatus, Failure, Update, Version};

type Ev = Event<&'static str, u32, &'static str>;
type Act = Action<&'static str, u32, &'static str>;

const V: Version = Version(5);
const INTERVAL: u64 = 1000;

/// A session that has gone through the handshake at instant 100.
fn steady() -> Session {
    let mut session = Session::new(V, INTERVAL);
    assert_eq!(session.step(Ev::Connected, 0), Act::Negotiate(V));
    assert_eq!(session.step(Ev::Version(V), 50), Act::Authenticate);
    assert_eq!(
        session.step(Ev::Status(AuthStatus::Passed), 100),
        Act::Await { timeout: INTERVAL }
    );
    session
}

/// A session in steady state in which device 7 exists.
fn with_device_7() -> Session {
    let mut session = steady();
    assert_eq!(
        session.step(Ev::Update(Update::CreateDevice { id: 7, descriptor: "kbd" }), 110),
        Act::Build { id: 7, descriptor: "kbd" }
    );
    assert_eq!(session.step(Ev::Done, 120), Act::Await { timeout: 980 });
    session
}

#[test]
fn a_new_session_is_connecting_and_has_no_devices() {
    let session = Session::new(V, INTERVAL);
    assert_eq!(session.phase(), Phase::Connecting);
    assert_eq!(session.version(), V);
    assert_eq!(session.keepalive().interval, INTERVAL);
    assert_eq!(session.device_count(), 0);
    assert!(!session.is_registered(7));
}

#[test]
fn the_handshake_goes_through_its_phases_in_order() {
    let mut session = Session::new(V, INTERVAL);
    assert_eq!(session.step(Ev::Connected, 0), Act::Negotiate(V));
    assert_eq!(session.phase(), Phase::Negotiating);
    assert_eq!(session.step(Ev::Version(V), 1), Act::Authenticate);
    assert_eq!(session.phase(), Phase::Authenticating);
    assert_eq!(session.step(Ev::Status(AuthStatus::Passed), 2), Act::Await { timeout: INTERVAL });
    assert_eq!(session.phase(), Phase::Ready);
    assert_eq!(session.keepalive().since, 2);
}

#[test]
fn a_failed_connection_is_a_network_error() {
    let mut session = Session::new(V, INTERVAL);
    assert_eq!(
        session.step(Ev::Failed("connection refused"), 0),
        Act::Stop(Error::Network(Failure::Io("connection refused")))
    );
    assert_eq!(session.phase(), Phase::Closed);
}

#[test]
fn a_transport_failure_during_the_handshake_is_a_network_error() {
    let mut session = Session::new(V, INTERVAL);
    session.step(Ev::Connected, 0);
    assert_eq!(
        session.step(Ev::Failed("broken pipe"), 1),
        Act::Stop(Error::Network(Failure::Io("broken pipe")))
    );

    let mut session = Session::new(V, INTERVAL);
    session.step(Ev::Connected, 0);
    session.step(Ev::Version(V), 1);
    assert_eq!(
        session.step(Ev::Failed("reset"), 2),
        Act::Stop(Error::Network(Failure::Io("reset")))
    );
    assert_eq!(session.phase(), Phase::Closed);
}

#[test]
fn equal_versions_are_accepted() {
    let mut session = Session::new(Version(9), INTERVAL);
    session.step(Ev::Connected, 0);
    assert_eq!(session.step(Ev::Version(Version(9)), 1), Act::Authenticate);
}

#[test]
fn a_newer_server_is_refused_with_both_versions() {
    let mut session = Session::new(Version(5), INTERVAL);
    session.step(Ev::Connected, 0);
    assert_eq!(
        session.step(Ev::Version(Version(6)), 1),
        Act::Stop(Error::Version { server: Version(5), client: Version(6) })
    );
    assert_eq!(session.phase(), Phase::Closed);
}

#[test]
fn an_older_server_is_refused_with_both_versions() {
    let mut session = Session::new(Version(6), INTERVAL);
    session.step(Ev::Connected, 0);
    assert_eq!(
        session.step(Ev::Version(Version(5)), 1),
        Act::Stop(Error::Version { server: Version(6), client: Version(5) })
    );
}

#[test]
fn a_rejected_answer_is_an_authentication_error() {
    let mut session = Session::new(V, INTERVAL);
    session.step(Ev::Connected, 0);
    session.step(Ev::Version(V), 1);
    assert_eq!(session.step(Ev::Status(AuthStatus::Failed), 2), Act::Stop(Error::Auth));
    assert_eq!(session.phase(), Phase::Closed);
}

#[test]
fn after_a_rejected_answer_nothing_more_is_asked_for() {
    let mut session = Session::new(V, INTERVAL);
    session.step(Ev::Connected, 0);
    session.step(Ev::Version(V), 1);
    session.step(Ev::Status(AuthStatus::Failed), 2);
    assert_eq!(session.step(Ev::Status(AuthStatus::Passed), 3), Act::Ignored);
    assert_eq!(session.step(Ev::Update(Update::Ping), 4), Act::Ignored);
    assert_eq!(session.step(Ev::Done, 5), Act::Ignored);
    assert_eq!(session.step(Ev::Connected, 6), Act::Ignored);
    assert_eq!(session.phase(), Phase::Closed);
}

#[test]
fn an_update_before_authentication_is_ignored() {
    let mut session = Session::new(V, INTERVAL);
    assert_eq!(session.step(Ev::Update(Update::Control { active: false }), 0), Act::Ignored);
    session.step(Ev::Connected, 0);
    assert_eq!(session.step(Ev::Update(Update::Ping), 1), Act::Ignored);
    session.step(Ev::Version(V), 2);
    assert_eq!(
        session.step(Ev::Update(Update::CreateDevice { id: 1, descriptor: "mouse" }), 3),
        Act::Ignored
    );
    assert_eq!(session.phase(), Phase::Authenticating);
    assert_eq!(session.device_count(), 0);
}

#[test]
fn control_overwrites_the_active_state() {
    let mut session = steady();
    assert_eq!(
        session.step(Ev::Update(Update::Control { active: false }), 200),
        Act::SetActive(false)
    );
    assert_eq!(session.phase(), Phase::Ready);
    assert_eq!(session.step(Ev::Done, 210), Act::Await { timeout: 890 });
    assert_eq!(
        session.step(Ev::Update(Update::Control { active: true }), 220),
        Act::SetActive(true)
    );
}

#[test]
fn a_device_exists_once_it_is_built() {
    let mut session = steady();
    assert_eq!(
        session.step(Ev::Update(Update::CreateDevice { id: 7, descriptor: "kbd" }), 110),
        Act::Build { id: 7, descriptor: "kbd" }
    );
    assert_eq!(session.phase(), Phase::Busy(Pending::Build(7)));
    assert!(!session.is_registered(7));
    assert_eq!(session.step(Ev::Done, 120), Act::Await { timeout: 980 });
    assert_eq!(session.phase(), Phase::Ready);
    assert!(session.is_registered(7));
    assert_eq!(session.device_count(), 1);
}

#[test]
fn a_device_that_cannot_be_built_is_an_input_error() {
    let mut session = with_device_7();
    session.step(Ev::Update(Update::CreateDevice { id: 8, descriptor: "pad" }), 130);
    assert_eq!(
        session.step(Ev::Failed("no uinput"), 140),
        Act::Stop(Error::Input("no uinput"))
    );
    assert_eq!(session.phase(), Phase::Closed);
    assert_eq!(session.device_count(), 0);
    assert!(!session.is_registered(7));
}

#[test]
fn creating_a_device_twice_keeps_it_once() {
    let mut session = with_device_7();
    assert_eq!(
        session.step(Ev::Update(Update::CreateDevice { id: 7, descriptor: "kbd2" }), 130),
        Act::Build { id: 7, descriptor: "kbd2" }
    );
    session.step(Ev::Done, 140);
    assert!(session.is_registered(7));
    assert_eq!(session.device_count(), 1);
}

#[test]
fn every_event_for_a_device_is_written_to_it() {
    let mut session = with_device_7();
    let mut written = 0;
    for n in 0..25u32 {
        let now = 200 + u64::from(n);
        assert_eq!(
            session.step(Ev::Update(Update::Event { id: 7, event: n }), now),
            Act::Write { id: 7, event: n }
        );
        written += 1;
        assert_eq!(session.phase(), Phase::Busy(Pending::Write));
        assert_eq!(session.step(Ev::Done, now), Act::Await { timeout: INTERVAL - (now - 100) });
    }
    assert_eq!(written, 25);
    assert!(session.is_registered(7));
    assert_eq!(session.device_count(), 1);
}

#[test]
fn an_event_for_a_device_that_never_was_ends_the_session() {
    let mut session = with_device_7();
    assert_eq!(
        session.step(Ev::Update(Update::Event { id: 8, event: 1 }), 200),
        Act::Stop(Error::Network(Failure::InvalidData))
    );
    assert_eq!(session.phase(), Phase::Closed);
    assert_eq!(session.device_count(), 0);
}

#[test]
fn a_write_that_fails_is_an_input_error() {
    let mut session = with_device_7();
    session.step(Ev::Update(Update::Event { id: 7, event: 1 }), 200);
    assert_eq!(session.step(Ev::Failed("device gone"), 201), Act::Stop(Error::Input("device gone")));
    assert_eq!(session.phase(), Phase::Closed);
}

#[test]
fn destroying_a_device_releases_it() {
    let mut session = with_device_7();
    assert_eq!(
        session.step(Ev::Update(Update::DestroyDevice { id: 7 }), 200),
        Act::Release { id: 7 }
    );
    assert!(!session.is_registered(7));
    assert_eq!(session.phase(), Phase::Ready);
    assert_eq!(session.step(Ev::Done, 201), Act::Await { timeout: 899 });
}

#[test]
fn destroying_an_unknown_device_does_nothing() {
    let mut session = with_device_7();
    assert_eq!(
        session.step(Ev::Update(Update::DestroyDevice { id: 3 }), 200),
        Act::Await { timeout: 900 }
    );
    assert_eq!(session.phase(), Phase::Ready);
    assert!(session.is_registered(7));
    assert_eq!(session.device_count(), 1);

    let mut empty = steady();
    assert_eq!(
        empty.step(Ev::Update(Update::DestroyDevice { id: 3 }), 100),
        Act::Await { timeout: INTERVAL }
    );
    assert_eq!(empty.device_count(), 0);
}

#[test]
fn destroying_one_device_leaves_the_others() {
    let mut session = with_device_7();
    session.step(Ev::Update(Update::CreateDevice { id: 9, descriptor: "mouse" }), 130);
    session.step(Ev::Done, 140);
    assert_eq!(
        session.step(Ev::Update(Update::DestroyDevice { id: 7 }), 150),
        Act::Release { id: 7 }
    );
    assert!(!session.is_registered(7));
    assert!(session.is_registered(9));
    assert_eq!(
        session.step(Ev::Update(Update::Event { id: 9, event: 4 }), 160),
        Act::Write { id: 9, event: 4 }
    );
}

#[test]
fn a_ping_is_answered_by_one_pong_and_resets_the_deadline() {
    let mut session = steady();
    assert_eq!(session.step(Ev::Update(Update::Ping), 700), Act::Pong { elapsed: 600 });
    assert_eq!(session.phase(), Phase::Busy(Pending::Pong));
    assert_eq!(session.keepalive().since, 700);
    assert_eq!(session.keepalive().interval, INTERVAL);
    assert_eq!(session.keepalive().remaining(700), INTERVAL);
    // Nothing else is taken in before the pong is out.
    assert_eq!(session.step(Ev::Update(Update::Ping), 701), Act::Ignored);
    assert_eq!(session.step(Ev::Update(Update::Control { active: false }), 702), Act::Ignored);
    assert_eq!(session.step(Ev::Silence, 5000), Act::Ignored);
    assert_eq!(session.phase(), Phase::Busy(Pending::Pong));
    assert_eq!(session.step(Ev::Done, 710), Act::Await { timeout: 990 });
    assert_eq!(session.phase(), Phase::Ready);
}

#[test]
fn a_pong_that_cannot_be_sent_is_a_network_error() {
    let mut session = steady();
    session.step(Ev::Update(Update::Ping), 700);
    assert_eq!(
        session.step(Ev::Failed("broken pipe"), 701),
        Act::Stop(Error::Network(Failure::Io("broken pipe")))
    );
    assert_eq!(session.phase(), Phase::Closed);
}

#[test]
fn silence_at_the_deadline_is_a_timeout() {
    let mut session = with_device_7();
    assert_eq!(
        session.step(Ev::Silence, 1100),
        Act::Stop(Error::Network(Failure::TimedOut))
    );
    assert_eq!(session.phase(), Phase::Closed);
    assert_eq!(session.device_count(), 0);
}

#[test]
fn silence_before_the_deadline_waits_on() {
    let mut session = steady();
    assert_eq!(session.step(Ev::Silence, 1099), Act::Await { timeout: 1 });
    assert_eq!(session.phase(), Phase::Ready);
    assert_eq!(session.step(Ev::Silence, 1100), Act::Stop(Error::Network(Failure::TimedOut)));
}

#[test]
fn traffic_other_than_a_ping_does_not_move_the_deadline() {
    let mut session = steady();
    session.step(Ev::Update(Update::Control { active: false }), 500);
    session.step(Ev::Done, 501);
    session.step(Ev::Update(Update::CreateDevice { id: 1, descriptor: "kbd" }), 600);
    session.step(Ev::Done, 601);
    session.step(Ev::Update(Update::Event { id: 1, event: 3 }), 900);
    assert_eq!(session.step(Ev::Done, 901), Act::Await { timeout: 199 });
    assert_eq!(session.keepalive().since, 100);
    assert_eq!(session.step(Ev::Silence, 1100), Act::Stop(Error::Network(Failure::TimedOut)));
}

#[test]
fn a_ping_moves_the_timeout_out() {
    let mut session = steady();
    session.step(Ev::Update(Update::Ping), 900);
    session.step(Ev::Done, 901);
    assert_eq!(session.step(Ev::Silence, 1100), Act::Await { timeout: 800 });
    assert_eq!(session.step(Ev::Silence, 1899), Act::Await { timeout: 1 });
    assert_eq!(session.step(Ev::Silence, 1900), Act::Stop(Error::Network(Failure::TimedOut)));
}

#[test]
fn an_update_that_has_arrived_goes_before_the_deadline() {
    let mut session = steady();
    assert_eq!(
        session.step(Ev::Update(Update::Control { active: true }), 5000),
        Act::SetActive(true)
    );
    assert_eq!(session.phase(), Phase::Ready);
    assert_eq!(session.step(Ev::Done, 5001), Act::Await { timeout: 0 });
    assert_eq!(session.step(Ev::Update(Update::Ping), 5002), Act::Pong { elapsed: 4902 });
    assert_eq!(session.step(Ev::Done, 5003), Act::Await { timeout: 999 });
}

#[test]
fn a_read_that_fails_is_a_network_error() {
    let mut session = with_device_7();
    assert_eq!(
        session.step(Ev::Failed("unexpected end of file"), 300),
        Act::Stop(Error::Network(Failure::Io("unexpected end of file")))
    );
    assert_eq!(session.device_count(), 0);
}

#[test]
fn events_that_the_session_does_not_wait_for_are_ignored() {
    let mut session = steady();
    assert_eq!(session.step(Ev::Connected, 200), Act::Ignored);
    assert_eq!(session.step(Ev::Version(V), 200), Act::Ignored);
    assert_eq!(session.step(Ev::Status(AuthStatus::Failed), 200), Act::Ignored);
    assert_eq!(session.phase(), Phase::Ready);

    let mut connecting = Session::new(V, INTERVAL);
    assert_eq!(connecting.step(Ev::Done, 0), Act::Ignored);
    assert_eq!(connecting.step(Ev::Silence, 0), Act::Ignored);
    assert_eq!(connecting.step(Ev::Version(V), 0), Act::Ignored);
    assert_eq!(connecting.phase(), Phase::Connecting);
}

#[test]
fn a_session_from_connect_to_protocol_violation() {
    let events: Vec<(u64, Ev)> = vec![
        (0, Ev::Connected),
        (10, Ev::Version(V)),
        (20, Ev::Status(AuthStatus::Passed)),
        (30, Ev::Update(Update::CreateDevice { id: 7, descriptor: "kbd" })),
        (40, Ev::Done),
        (50, Ev::Update(Update::Event { id: 7, event: 101 })),
        (60, Ev::Done),
        (70, Ev::Update(Update::DestroyDevice { id: 7 })),
        (80, Ev::Done),
        (90, Ev::Update(Update::Event { id: 7, event: 102 })),
    ];
    let outcome = run(V, INTERVAL, events);
    assert_eq!(
        outcome,
        Outcome {
            actions: vec![
                Act::Negotiate(V),
                Act::Authenticate,
                Act::Await { timeout: 1000 },
                Act::Build { id: 7, descriptor: "kbd" },
                Act::Await { timeout: 980 },
                Act::Write { id: 7, event: 101 },
                Act::Await { timeout: 960 },
                Act::Release { id: 7 },
                Act::Await { timeout: 940 },
            ],
            result: Err(Error::Network(Failure::InvalidData)),
        }
    );
}

#[test]
fn a_run_stops_at_the_first_error() {
    let events: Vec<(u64, Ev)> = vec![
        (0, Ev::Connected),
        (1, Ev::Version(Version(4))),
        (2, Ev::Status(AuthStatus::Passed)),
        (3, Ev::Update(Update::Ping)),
    ];
    let outcome = run(V, INTERVAL, events);
    assert_eq!(outcome.actions, vec![Act::Negotiate(V)]);
    assert_eq!(outcome.result, Err(Error::Version { server: V, client: Version(4) }));
}

#[test]
fn a_run_that_outlives_its_events_is_ok() {
    let outcome = run(V, INTERVAL, Vec::<(u64, Ev)>::new());
    assert_eq!(outcome.actions, Vec::<Act>::new());
    assert_eq!(outcome.result, Ok(()));

    let events: Vec<(u64, Ev)> = vec![
        (0, Ev::Connected),
        (1, Ev::Version(V)),
        (2, Ev::Status(AuthStatus::Passed)),
        (3, Ev::Update(Update::Ping)),
        (4, Ev::Done),
    ];
    let outcome = run(V, INTERVAL, events);
    assert_eq!(
        outcome.actions,
        vec![
            Act::Negotiate(V),
            Act::Authenticate,
            Act::Await { timeout: 1000 },
            Act::Pong { elapsed: 1 },
            Act::Await { timeout: 999 },
        ]
    );
    assert_eq!(outcome.result, Ok(()));
}

#[test]
fn a_run_ends_in_a_timeout_when_the_server_falls_silent() {
    let events: Vec<(u64, Ev)> = vec![
        (0, Ev::Connected),
        (0, Ev::Version(V)),
        (0, Ev::Status(AuthStatus::Passed)),
        (1000, Ev::Silence),
    ];
    let outcome = run(V, INTERVAL, events);
    assert_eq!(outcome.result, Err(Error::Network(Failure::TimedOut)));
    assert_eq!(
        outcome.actions,
        vec![Act::Negotiate(V), Act::Authenticate, Act::Await { timeout: 1000 }]
    );
}

#[test]
fn a_created_device_takes_each_of_its_events_once() {
    let mut events: Vec<(u64, Ev)> = vec![
        (0, Ev::Connected),
        (0, Ev::Version(V)),
        (0, Ev::Status(AuthStatus::Passed)),
        (1, Ev::Update(Update::CreateDevice { id: 42, descriptor: "tablet" })),
        (2, Ev::Done),
    ];
    for n in 0..10u32 {
        events.push((3, Ev::Update(Update::Event { id: 42, event: n })));
        events.push((3, Ev::Done));
    }
    let outcome = run(V, INTERVAL, events);
    assert_eq!(outcome.result, Ok(()));
    let mut written: Vec<u32> = Vec::new();
    for action in outcome.actions.iter() {
        if let Act::Write { id, event } = action {
            assert_eq!(*id, 42);
            written.push(*event);
        }
    }
    assert_eq!(written, vec![0, 1, 2, 3, 4, 5, 6, 7, 8, 9]);
}

#[test]
fn the_failures_that_a_session_finds_say_what_they_are() {
    assert_eq!(Failure::<&str>::TimedOut.message(), Some("Ping timed out"));
    assert_eq!(
        Failure::<&str>::InvalidData.message(),
        Some("Server sent an event to a nonexistent device")
    );
    assert_eq!(Failure::Io("broken pipe").message(), None);
}
