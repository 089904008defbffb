use now_playing::metadata::{PlaybackStatus, PlayerCommand};
use now_playing::runs::replay;
use now_playing::tracker::{
    dispatch, needs_status, Phase, TickResult, TrackerAction, TrackerEvent, TrackerState,
    TransportCall, COMMAND_TIMEOUT_MS, SETTLE_DELAY_MS, TICK_INTERVAL_MS,
};

fn tick(progress_changed: bool, player_quit: bool) -> TrackerEvent {
    TrackerEvent::Tick(TickResult { progress_changed, player_quit })
}

fn after(state: TrackerState, event: TrackerEvent) -> (TrackerState, TrackerAction) {
    let mut s = state;
    let action = s.step(event);
    (s, action)
}

fn all_states() -> Vec<TrackerState> {
    vec![
        TrackerState::Connecting,
        TrackerState::Searching,
        TrackerState::Settling,
        TrackerState::Announcing,
        TrackerState::Polling,
        TrackerState::Refreshing,
        TrackerState::Receiving,
        TrackerState::ReadingStatus,
        TrackerState::Sending(TransportCall::Play),
        TrackerState::Sending(TransportCall::Pause),
        TrackerState::Sending(TransportCall::Next),
        TrackerState::Sending(TransportCall::Previous),
        TrackerState::Failed,
    ]
}

fn all_events() -> Vec<TrackerEvent> {
    vec![
        TrackerEvent::Connected,
        TrackerEvent::BusUnavailable,
        TrackerEvent::PlayerFound,
        TrackerEvent::NoPlayer,
        TrackerEvent::Settled,
        TrackerEvent::Published,
        tick(false, false),
        tick(true, false),
        tick(false, true),
        tick(true, true),
        TrackerEvent::Received(PlayerCommand::Pause),
        TrackerEvent::Received(PlayerCommand::Next),
        TrackerEvent::Received(PlayerCommand::Prev),
        TrackerEvent::TimedOut,
        TrackerEvent::Status(None),
        TrackerEvent::Status(Some(PlaybackStatus::Playing)),
        TrackerEvent::Status(Some(PlaybackStatus::Paused)),
        TrackerEvent::Status(Some(PlaybackStatus::Stopped)),
        TrackerEvent::Sent(true),
        TrackerEvent::Sent(false),
    ]
}

#[test]
fn timing_constants() {
    assert_eq!(TICK_INTERVAL_MS, 500);
    assert_eq!(COMMAND_TIMEOUT_MS, 5);
    assert_eq!(SETTLE_DELAY_MS, 1000);
}

#[test]
fn pause_on_paused_player_resumes() {
    assert_eq!(dispatch(PlayerCommand::Pause, Some(PlaybackStatus::Paused)), TransportCall::Play);
}

#[test]
fn pause_on_playing_player_pauses() {
    assert_eq!(dispatch(PlayerCommand::Pause, Some(PlaybackStatus::Playing)), TransportCall::Pause);
}

#[test]
fn pause_on_stopped_player_pauses() {
    assert_eq!(dispatch(PlayerCommand::Pause, Some(PlaybackStatus::Stopped)), TransportCall::Pause);
}

#[test]
fn pause_with_failed_status_query_pauses() {
    assert_eq!(dispatch(PlayerCommand::Pause, None), TransportCall::Pause);
}

#[test]
fn next_and_prev_ignore_the_status() {
    for status in [
        None,
        Some(PlaybackStatus::Playing),
        Some(PlaybackStatus::Paused),
        Some(PlaybackStatus::Stopped),
    ] {
        assert_eq!(dispatch(PlayerCommand::Next, status), TransportCall::Next);
        assert_eq!(dispatch(PlayerCommand::Prev, status), TransportCall::Previous);
    }
}

#[test]
fn only_pause_needs_the_status() {
    assert!(needs_status(PlayerCommand::Pause));
    assert!(!needs_status(PlayerCommand::Next));
    assert!(!needs_status(PlayerCommand::Prev));
}

#[test]
fn loop_starts_by_connecting() {
    let s = TrackerState::new();
    assert_eq!(s, TrackerState::Connecting);
    assert_eq!(s.action(), TrackerAction::Connect);
    assert_eq!(s.phase(), Phase::Discovering);
}

#[test]
fn connection_leads_to_the_search() {
    let (s, a) = after(TrackerState::new(), TrackerEvent::Connected);
    assert_eq!((s, a), (TrackerState::Searching, TrackerAction::FindPlayer));
    assert_eq!(s.phase(), Phase::Discovering);
}

#[test]
fn unreachable_bus_is_fatal() {
    let (s, a) = after(TrackerState::new(), TrackerEvent::BusUnavailable);
    assert_eq!((s, a), (TrackerState::Failed, TrackerAction::Terminate));
    for event in all_events() {
        assert!(!s.expects(&event));
        assert_eq!(after(s, event), (TrackerState::Failed, TrackerAction::Terminate));
    }
}

#[test]
fn each_state_asks_for_its_action() {
    assert_eq!(TrackerState::Connecting.action(), TrackerAction::Connect);
    assert_eq!(TrackerState::Searching.action(), TrackerAction::FindPlayer);
    assert_eq!(TrackerState::Failed.action(), TrackerAction::Terminate);
    assert_eq!(TrackerState::Settling.action(), TrackerAction::Settle);
    assert_eq!(TrackerState::Announcing.action(), TrackerAction::Publish);
    assert_eq!(TrackerState::Polling.action(), TrackerAction::PollTick);
    assert_eq!(TrackerState::Refreshing.action(), TrackerAction::Publish);
    assert_eq!(TrackerState::Receiving.action(), TrackerAction::Receive);
    assert_eq!(TrackerState::ReadingStatus.action(), TrackerAction::ReadStatus);
    assert_eq!(
        TrackerState::Sending(TransportCall::Previous).action(),
        TrackerAction::Send(TransportCall::Previous)
    );
}

#[test]
fn discovery_retries_until_a_player_is_found() {
    let s = TrackerState::Searching;
    let (s, a) = after(s, TrackerEvent::NoPlayer);
    assert_eq!((s, a), (TrackerState::Searching, TrackerAction::FindPlayer));
    let (s, a) = after(s, TrackerEvent::NoPlayer);
    assert_eq!((s, a), (TrackerState::Searching, TrackerAction::FindPlayer));
    let (s, a) = after(s, TrackerEvent::PlayerFound);
    assert_eq!((s, a), (TrackerState::Settling, TrackerAction::Settle));
}

#[test]
fn found_player_settles_then_is_published_then_polled() {
    let (s, a) = after(TrackerState::Settling, TrackerEvent::Settled);
    assert_eq!((s, a), (TrackerState::Announcing, TrackerAction::Publish));
    assert_eq!(s.phase(), Phase::Discovering);
    let (s, a) = after(s, TrackerEvent::Published);
    assert_eq!((s, a), (TrackerState::Polling, TrackerAction::PollTick));
    assert_eq!(s.phase(), Phase::Tracking);
}

#[test]
fn quit_tick_goes_back_to_discovery_without_receiving() {
    let (s, a) = after(TrackerState::Polling, tick(false, true));
    assert_eq!((s, a), (TrackerState::Connecting, TrackerAction::Connect));
    assert_eq!(s.phase(), Phase::Discovering);
}

#[test]
fn quit_tick_with_change_publishes_nothing() {
    let (s, a) = after(TrackerState::Polling, tick(true, true));
    assert_eq!((s, a), (TrackerState::Connecting, TrackerAction::Connect));
}

#[test]
fn changed_tick_publishes_once_then_receives() {
    let (s, a) = after(TrackerState::Polling, tick(true, false));
    assert_eq!((s, a), (TrackerState::Refreshing, TrackerAction::Publish));
    let (s, a) = after(s, TrackerEvent::Published);
    assert_eq!((s, a), (TrackerState::Receiving, TrackerAction::Receive));
}

#[test]
fn unchanged_tick_receives_at_once() {
    let (s, a) = after(TrackerState::Polling, tick(false, false));
    assert_eq!((s, a), (TrackerState::Receiving, TrackerAction::Receive));
}

#[test]
fn receive_timeout_polls_again() {
    let (s, a) = after(TrackerState::Receiving, TrackerEvent::TimedOut);
    assert_eq!((s, a), (TrackerState::Polling, TrackerAction::PollTick));
}

#[test]
fn next_and_prev_are_sent_at_once() {
    let (s, a) = after(TrackerState::Receiving, TrackerEvent::Received(PlayerCommand::Next));
    assert_eq!(s, TrackerState::Sending(TransportCall::Next));
    assert_eq!(a, TrackerAction::Send(TransportCall::Next));
    let (s, a) = after(TrackerState::Receiving, TrackerEvent::Received(PlayerCommand::Prev));
    assert_eq!(s, TrackerState::Sending(TransportCall::Previous));
    assert_eq!(a, TrackerAction::Send(TransportCall::Previous));
}

#[test]
fn pause_reads_the_status_first() {
    let (s, a) = after(TrackerState::Receiving, TrackerEvent::Received(PlayerCommand::Pause));
    assert_eq!((s, a), (TrackerState::ReadingStatus, TrackerAction::ReadStatus));
    let (p, a) = after(s, TrackerEvent::Status(Some(PlaybackStatus::Paused)));
    assert_eq!(p, TrackerState::Sending(TransportCall::Play));
    assert_eq!(a, TrackerAction::Send(TransportCall::Play));
    let (p, a) = after(s, TrackerEvent::Status(Some(PlaybackStatus::Playing)));
    assert_eq!(p, TrackerState::Sending(TransportCall::Pause));
    assert_eq!(a, TrackerAction::Send(TransportCall::Pause));
    let (p, _) = after(s, TrackerEvent::Status(Some(PlaybackStatus::Stopped)));
    assert_eq!(p, TrackerState::Sending(TransportCall::Pause));
    let (p, _) = after(s, TrackerEvent::Status(None));
    assert_eq!(p, TrackerState::Sending(TransportCall::Pause));
}

#[test]
fn failed_transport_call_is_swallowed() {
    for call in
        [TransportCall::Play, TransportCall::Pause, TransportCall::Next, TransportCall::Previous]
    {
        let (s, a) = after(TrackerState::Sending(call), TrackerEvent::Sent(false));
        assert_eq!((s, a), (TrackerState::Polling, TrackerAction::PollTick));
        let (s, a) = after(TrackerState::Sending(call), TrackerEvent::Sent(true));
        assert_eq!((s, a), (TrackerState::Polling, TrackerAction::PollTick));
    }
}

#[test]
fn stray_events_change_nothing() {
    for state in all_states() {
        for event in all_events() {
            if !state.expects(&event) {
                let (s, a) = after(state, event);
                assert_eq!(s, state);
                assert_eq!(a, state.action());
            }
        }
    }
}

#[test]
fn expected_events_of_each_state() {
    let expected = |state: TrackerState| -> usize {
        all_events().iter().filter(|e| state.expects(e)).count()
    };
    assert_eq!(expected(TrackerState::Connecting), 2);
    assert_eq!(expected(TrackerState::Searching), 2);
    assert_eq!(expected(TrackerState::Failed), 0);
    assert_eq!(expected(TrackerState::Settling), 1);
    assert_eq!(expected(TrackerState::Announcing), 1);
    assert_eq!(expected(TrackerState::Polling), 4);
    assert_eq!(expected(TrackerState::Refreshing), 1);
    assert_eq!(expected(TrackerState::Receiving), 4);
    assert_eq!(expected(TrackerState::ReadingStatus), 4);
    assert_eq!(expected(TrackerState::Sending(TransportCall::Next)), 2);
    assert!(TrackerState::Polling.expects(&tick(true, true)));
    assert!(!TrackerState::Polling.expects(&TrackerEvent::TimedOut));
    assert!(TrackerState::Receiving.expects(&TrackerEvent::TimedOut));
    assert!(!TrackerState::Receiving.expects(&TrackerEvent::Published));
}

#[test]
fn tracking_is_left_only_on_a_quit_tick() {
    for state in all_states() {
        for event in all_events() {
            let (next, _) = after(state, event);
            if state.phase() == Phase::Tracking && next.phase() == Phase::Discovering {
                assert_eq!(state, TrackerState::Polling);
                assert!(event == tick(false, true) || event == tick(true, true));
            }
            if state.phase() == Phase::Discovering && next.phase() == Phase::Tracking {
                assert_eq!(state, TrackerState::Announcing);
                assert_eq!(event, TrackerEvent::Published);
            }
        }
    }
}

#[test]
fn replay_of_a_whole_session() {
    let events = vec![
        TrackerEvent::Connected,
        TrackerEvent::NoPlayer,
        TrackerEvent::PlayerFound,
        TrackerEvent::Settled,
        TrackerEvent::Published,
        tick(false, false),
        TrackerEvent::TimedOut,
        tick(true, false),
        TrackerEvent::Published,
        TrackerEvent::Received(PlayerCommand::Pause),
        TrackerEvent::Status(Some(PlaybackStatus::Paused)),
        TrackerEvent::Sent(true),
        tick(false, false),
        TrackerEvent::Received(PlayerCommand::Next),
        TrackerEvent::Sent(false),
        tick(true, true),
        TrackerEvent::Connected,
        TrackerEvent::NoPlayer,
    ];
    let (state, actions) = replay(TrackerState::new(), &events);
    assert_eq!(state, TrackerState::Searching);
    assert_eq!(
        actions,
        vec![
            TrackerAction::FindPlayer,
            TrackerAction::FindPlayer,
            TrackerAction::Settle,
            TrackerAction::Publish,
            TrackerAction::PollTick,
            TrackerAction::Receive,
            TrackerAction::PollTick,
            TrackerAction::Publish,
            TrackerAction::Receive,
            TrackerAction::ReadStatus,
            TrackerAction::Send(TransportCall::Play),
            TrackerAction::PollTick,
            TrackerAction::Receive,
            TrackerAction::Send(TransportCall::Next),
            TrackerAction::PollTick,
            TrackerAction::Connect,
            TrackerAction::FindPlayer,
            TrackerAction::FindPlayer,
        ]
    );
}

#[test]
fn replay_of_nothing_stays_put() {
    let (state, actions) = replay(TrackerState::Receiving, &vec![]);
    assert_eq!(state, TrackerState::Receiving);
    assert!(actions.is_empty());
}

#[test]
fn one_publish_per_change_in_a_run() {
    let mut events = vec![
        TrackerEvent::Connected,
        TrackerEvent::PlayerFound,
        TrackerEvent::Settled,
        TrackerEvent::Published,
    ];
    let changes = [true, false, false, true, true, false];
    for changed in changes {
        events.push(tick(changed, false));
        if changed {
            events.push(TrackerEvent::Published);
        }
        events.push(TrackerEvent::TimedOut);
    }
    let (state, actions) = replay(TrackerState::new(), &events);
    assert_eq!(state, TrackerState::Polling);
    let publishes = actions.iter().filter(|a| **a == TrackerAction::Publish).count();
    assert_eq!(publishes, 1 + 3);
    let receives = actions.iter().filter(|a| **a == TrackerAction::Receive).count();
    assert_eq!(receives, changes.len());
}

#[test]
fn every_received_command_is_sent_once() {
    let mut events = vec![
        TrackerEvent::Connected,
        TrackerEvent::PlayerFound,
        TrackerEvent::Settled,
        TrackerEvent::Published,
    ];
    let commands = [PlayerCommand::Next, PlayerCommand::Pause, PlayerCommand::Prev];
    for command in commands {
        events.push(tick(false, false));
        events.push(TrackerEvent::Received(command));
        if command == PlayerCommand::Pause {
            events.push(TrackerEvent::Status(Some(PlaybackStatus::Playing)));
        }
        events.push(TrackerEvent::Sent(true));
    }
    let (state, actions) = replay(TrackerState::new(), &events);
    assert_eq!(state, TrackerState::Polling);
    let sent: Vec<TrackerAction> =
        actions.into_iter().filter(|a| matches!(a, TrackerAction::Send(_))).collect();
    assert_eq!(
        sent,
        vec![
            TrackerAction::Send(TransportCall::Next),
            TrackerAction::Send(TransportCall::Pause),
            TrackerAction::Send(TransportCall::Previous),
        ]
    );
}
