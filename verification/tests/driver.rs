use pubsub_bench::driver::escalate;
use pubsub_bench::driver::exit_code;
use pubsub_bench::driver::is_fatal;
use pubsub_bench::driver::start;
use pubsub_bench::driver::step;
use pubsub_bench::driver::Condition;
use pubsub_bench::driver::DriverEvent;
use pubsub_bench::driver::DriverState;
use pubsub_bench::driver::Termination;

const EVENTS: [DriverEvent; 6] = [
    DriverEvent::Connected,
    DriverEvent::Subscribed,
    DriverEvent::Finished,
    DriverEvent::ConfigRejected,
    DriverEvent::TransportFailed,
    DriverEvent::DeadlineElapsed,
];

#[test]
fn a_run_connects_subscribes_and_runs() {
    let state = start();
    assert_eq!(state, DriverState::Connecting);
    let state = step(state, DriverEvent::Connected);
    assert_eq!(state, DriverState::Subscribing);
    let state = step(state, DriverEvent::Subscribed);
    assert_eq!(state, DriverState::Running);
    let state = step(state, DriverEvent::Finished);
    assert_eq!(state, DriverState::Terminated(Termination::Completed));
}

#[test]
fn events_out_of_turn_are_ignored() {
    assert_eq!(step(DriverState::Connecting, DriverEvent::Subscribed), DriverState::Connecting);
    assert_eq!(step(DriverState::Connecting, DriverEvent::Finished), DriverState::Connecting);
    assert_eq!(step(DriverState::Subscribing, DriverEvent::Connected), DriverState::Subscribing);
    assert_eq!(step(DriverState::Subscribing, DriverEvent::Finished), DriverState::Subscribing);
    assert_eq!(step(DriverState::Running, DriverEvent::Connected), DriverState::Running);
    assert_eq!(step(DriverState::Running, DriverEvent::Subscribed), DriverState::Running);
}

#[test]
fn failures_and_the_deadline_end_a_run_wherever_it_stands() {
    let live =
        [DriverState::Connecting, DriverState::Subscribing, DriverState::Running, DriverState::Draining];
    for state in live {
        assert_eq!(
            step(state, DriverEvent::TransportFailed),
            DriverState::Terminated(Termination::TransportFailed)
        );
        assert_eq!(
            step(state, DriverEvent::DeadlineElapsed),
            DriverState::Terminated(Termination::DeadlineElapsed)
        );
        assert_eq!(
            step(state, DriverEvent::ConfigRejected),
            DriverState::Terminated(Termination::ConfigRejected)
        );
    }
}

#[test]
fn a_run_that_has_ended_stays_as_it_ended() {
    let ends = [
        Termination::Completed,
        Termination::ConfigRejected,
        Termination::TransportFailed,
        Termination::DeadlineElapsed,
    ];
    for end in ends {
        for event in EVENTS {
            assert_eq!(step(DriverState::Terminated(end), event), DriverState::Terminated(end));
        }
    }
}

#[test]
fn no_run_of_three_events_drains() {
    for first in EVENTS {
        for second in EVENTS {
            for third in EVENTS {
                let state = step(step(step(start(), first), second), third);
                assert_ne!(state, DriverState::Draining);
            }
        }
    }
}

#[test]
fn exit_codes() {
    assert_eq!(exit_code(Termination::Completed), 0);
    assert_eq!(exit_code(Termination::ConfigRejected), 1);
    assert_eq!(exit_code(Termination::TransportFailed), 1);
    assert_eq!(exit_code(Termination::DeadlineElapsed), 1);
}

#[test]
fn only_configuration_and_transport_conditions_end_a_run() {
    assert!(is_fatal(Condition::Configuration));
    assert!(is_fatal(Condition::Transport));
    assert!(!is_fatal(Condition::Decode));
    assert!(!is_fatal(Condition::Correlation));
    assert!(!is_fatal(Condition::Timeout));
    assert_eq!(escalate(Condition::Configuration), Some(DriverEvent::ConfigRejected));
    assert_eq!(escalate(Condition::Transport), Some(DriverEvent::TransportFailed));
    assert_eq!(escalate(Condition::Decode), None);
    assert_eq!(escalate(Condition::Correlation), None);
    assert_eq!(escalate(Condition::Timeout), None);
}
