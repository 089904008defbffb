//! Whole runs of the tracking loop, and what holds of every one of them.
//!
//! A run is a start state and the events that arrived, in order. The loop
//! answers every event with the action to perform next. A run is orderly
//! when each event is an outcome of the action that was pending when it
//! arrived, which is what a caller gets who does as the loop says.

use crate::metadata::PlaybackStatus;
use crate::metadata::PlayerCommand;
use crate::tracker::call_for;
use crate::tracker::Phase;
use crate::tracker::TickResult;
use crate::tracker::TrackerAction;
use crate::tracker::TrackerEvent;
use crate::tracker::TrackerState;
use crate::tracker::TransportCall;
use vstd::prelude::*;

verus! {

/// The state after the events.
pub open spec fn run(start: TrackerState, events: Seq<TrackerEvent>) -> TrackerState
    decreases events.len(),
{
    if events.len() == 0 {
        start
    } else {
        run(start, events.drop_last()).after(events.last())
    }
}

/// Every event is an outcome of the action pending on its arrival.
pub open spec fn orderly(start: TrackerState, events: Seq<TrackerEvent>) -> bool
    decreases events.len(),
{
    events.len() == 0 || (orderly(start, events.drop_last()) && run(
        start,
        events.drop_last(),
    ).accepts(events.last()))
}

/// The actions with which the loop answers the events, one for each.
pub open spec fn issued(start: TrackerState, events: Seq<TrackerEvent>) -> Seq<TrackerAction>
    decreases events.len(),
{
    if events.len() == 0 {
        Seq::empty()
    } else {
        issued(start, events.drop_last()).push(run(start, events).pending())
    }
}

/// How many of the actions publish a snapshot.
pub open spec fn publishes(actions: Seq<TrackerAction>) -> nat
    decreases actions.len(),
{
    if actions.len() == 0 {
        0
    } else {
        publishes(actions.drop_last()) + if actions.last() is Publish {
            1nat
        } else {
            0nat
        }
    }
}

/// How many of the actions look into the command channel.
pub open spec fn receives(actions: Seq<TrackerAction>) -> nat
    decreases actions.len(),
{
    if actions.len() == 0 {
        0
    } else {
        receives(actions.drop_last()) + if actions.last() is Receive {
            1nat
        } else {
            0nat
        }
    }
}

/// How many of the actions make a transport call.
pub open spec fn sends(actions: Seq<TrackerAction>) -> nat
    decreases actions.len(),
{
    if actions.len() == 0 {
        0
    } else {
        sends(actions.drop_last()) + if actions.last() is Send {
            1nat
        } else {
            0nat
        }
    }
}

/// Whether the event is a tick of a player that is still there.
pub open spec fn live_tick(event: TrackerEvent) -> bool {
    event matches TrackerEvent::Tick(tick) && !tick.player_quit
}

/// Whether the event is a tick of a player that is still there and whose
/// progress or metadata changed.
pub open spec fn change_tick(event: TrackerEvent) -> bool {
    event matches TrackerEvent::Tick(tick) && !tick.player_quit && tick.progress_changed
}

/// How many of the events end a settle delay.
pub open spec fn settles(events: Seq<TrackerEvent>) -> nat
    decreases events.len(),
{
    if events.len() == 0 {
        0
    } else {
        settles(events.drop_last()) + if events.last() is Settled {
            1nat
        } else {
            0nat
        }
    }
}

/// How many of the events are ticks of a player that is still there.
pub open spec fn live_ticks(events: Seq<TrackerEvent>) -> nat
    decreases events.len(),
{
    if events.len() == 0 {
        0
    } else {
        live_ticks(events.drop_last()) + if live_tick(events.last()) {
            1nat
        } else {
            0nat
        }
    }
}

/// How many of the events are ticks that report a change.
pub open spec fn change_ticks(events: Seq<TrackerEvent>) -> nat
    decreases events.len(),
{
    if events.len() == 0 {
        0
    } else {
        change_ticks(events.drop_last()) + if change_tick(events.last()) {
            1nat
        } else {
            0nat
        }
    }
}

/// How many of the events bring a command.
pub open spec fn commands(events: Seq<TrackerEvent>) -> nat
    decreases events.len(),
{
    if events.len() == 0 {
        0
    } else {
        commands(events.drop_last()) + if events.last() is Received {
            1nat
        } else {
            0nat
        }
    }
}

/// The commands that a state has taken off the channel and not yet turned
/// into a transport call.
pub open spec fn held_commands(state: TrackerState) -> nat {
    if state is ReadingStatus {
        1
    } else {
        0
    }
}

/// The looks into the command channel that a state still owes for a tick it
/// has seen.
pub open spec fn owed_receives(state: TrackerState) -> nat {
    if state is Refreshing {
        1
    } else {
        0
    }
}

/// One more event extends the run by one step and one action.
pub proof fn lemma_run_push(start: TrackerState, events: Seq<TrackerEvent>, event: TrackerEvent)
    ensures
        run(start, events.push(event)) == run(start, events).after(event),
        issued(start, events.push(event)) == issued(start, events).push(
            run(start, events).after(event).pending(),
        ),
        orderly(start, events.push(event)) == (orderly(start, events) && run(
            start,
            events,
        ).accepts(event)),
{
    assert(events.push(event).drop_last() =~= events);
}

/// An event that is no outcome of the pending action leaves the state as it
/// is, so the same action is asked for again.
pub proof fn lemma_stray_event_ignored(state: TrackerState, event: TrackerEvent)
    requires
        !state.accepts(event),
    ensures
        state.after(event) == state,
{
}

/// A bus that cannot be reached ends the loop for good: the state that
/// follows asks for the end of the process and no event leads out of it. A
/// bus without an active player is asked again, over the same connection.
pub proof fn lemma_bus_failure_is_final(event: TrackerEvent)
    ensures
        TrackerState::Connecting.after(TrackerEvent::BusUnavailable) == TrackerState::Failed,
        TrackerState::Failed.pending() == TrackerAction::Terminate,
        TrackerState::Failed.after(event) == TrackerState::Failed,
        TrackerState::Searching.after(TrackerEvent::NoPlayer) == TrackerState::Searching,
        TrackerState::Searching.pending() == TrackerAction::FindPlayer,
{
}

/// A tick that reports that the player quit ends the tracking at once: the
/// loop starts over with the bus, and neither looks into the command channel
/// nor publishes nor sends anything on the way.
pub proof fn lemma_quit_ends_tracking(tick: TickResult)
    requires
        tick.player_quit,
    ensures
        TrackerState::Polling.after(TrackerEvent::Tick(tick)) == TrackerState::Connecting,
        TrackerState::Polling.after(TrackerEvent::Tick(tick)).pending() == TrackerAction::Connect,
{
}

/// After a tick of a player that is still there the loop looks into the
/// command channel before it polls the player again: at once, or as soon as
/// the changed snapshot is published. Whatever the channel holds then, the
/// wait for it ends with the timeout at the latest, and the loop polls again.
pub proof fn lemma_tick_leads_to_receive(tick: TickResult)
    requires
        !tick.player_quit,
    ensures
        !tick.progress_changed ==> TrackerState::Polling.after(TrackerEvent::Tick(tick))
            == TrackerState::Receiving,
        tick.progress_changed ==> TrackerState::Polling.after(TrackerEvent::Tick(tick))
            == TrackerState::Refreshing,
        TrackerState::Refreshing.after(TrackerEvent::Published) == TrackerState::Receiving,
        TrackerState::Receiving.pending() == TrackerAction::Receive,
        TrackerState::Receiving.after(TrackerEvent::TimedOut) == TrackerState::Polling,
{
}

/// The loop leaves the tracking phase only on a tick that reports that the
/// player quit, and enters it only when the first snapshot of a player has
/// been published.
pub proof fn lemma_phase_changes(state: TrackerState, event: TrackerEvent)
    ensures
        (state.phase_of() == Phase::Tracking && state.after(event).phase_of() == Phase::Discovering)
            <==> (state == TrackerState::Polling && event is Tick && !live_tick(event)),
        (state.phase_of() == Phase::Discovering && state.after(event).phase_of() == Phase::Tracking)
            <==> (state == TrackerState::Announcing && event is Published),
{
}

/// A command that is taken off the channel becomes the transport call that
/// carries it out before the player is polled again: `Next` and `Prev` at
/// once, `Pause` as soon as the status has been read. Whether the call
/// succeeds or fails, the loop then goes on polling and does not repeat it.
pub proof fn lemma_command_is_sent(
    command: PlayerCommand,
    status: Option<PlaybackStatus>,
    delivered: bool,
)
    ensures
        command != PlayerCommand::Pause ==> TrackerState::Receiving.after(
            TrackerEvent::Received(command),
        ) == TrackerState::Sending(call_for(command, status)),
        command == PlayerCommand::Pause ==> TrackerState::Receiving.after(
            TrackerEvent::Received(command),
        ).after(TrackerEvent::Status(status)) == TrackerState::Sending(
            call_for(command, status),
        ),
        TrackerState::Sending(call_for(command, status)).after(
            TrackerEvent::Sent(delivered),
        ) == TrackerState::Polling,
{
}

/// In an orderly run a snapshot is published once for each player that has
/// settled and once for each tick that reports a change, and at no other
/// time: a change is published exactly once, and a tick without a change
/// publishes nothing.
pub proof fn lemma_one_publish_per_change(start: TrackerState, events: Seq<TrackerEvent>)
    requires
        orderly(start, events),
    ensures
        publishes(issued(start, events)) == settles(events) + change_ticks(events),
    decreases events.len(),
{
    if events.len() > 0 {
        let before = events.drop_last();
        lemma_one_publish_per_change(start, before);
        assert(issued(start, events).drop_last() =~= issued(start, before));
    }
}

/// In an orderly run the loop looks into the command channel once for each
/// tick of a player that is still there: at once where the tick reports no
/// change, and right after the snapshot is published where it does.
pub proof fn lemma_one_receive_per_tick(start: TrackerState, events: Seq<TrackerEvent>)
    requires
        orderly(start, events),
    ensures
        receives(issued(start, events)) + owed_receives(run(start, events)) == live_ticks(events)
            + owed_receives(start),
    decreases events.len(),
{
    if events.len() > 0 {
        let before = events.drop_last();
        lemma_one_receive_per_tick(start, before);
        assert(issued(start, events).drop_last() =~= issued(start, before));
    }
}

/// In an orderly run no command is lost and none is sent twice: every
/// command taken off the channel has been turned into one transport call,
/// but for a `Pause` whose status query is still under way.
pub proof fn lemma_no_command_lost(start: TrackerState, events: Seq<TrackerEvent>)
    requires
        orderly(start, events),
    ensures
        sends(issued(start, events)) + held_commands(run(start, events)) == commands(events)
            + held_commands(start),
    decreases events.len(),
{
    if events.len() > 0 {
        let before = events.drop_last();
        lemma_no_command_lost(start, before);
        assert(issued(start, events).drop_last() =~= issued(start, before));
    }
}

/// The command that a transport call carries out.
pub open spec fn command_of(call: TransportCall) -> PlayerCommand {
    match call {
        TransportCall::Play => PlayerCommand::Pause,
        TransportCall::Pause => PlayerCommand::Pause,
        TransportCall::Next => PlayerCommand::Next,
        TransportCall::Previous => PlayerCommand::Prev,
    }
}

/// The commands that the events bring, in the order of their arrival.
pub open spec fn received_commands(events: Seq<TrackerEvent>) -> Seq<PlayerCommand>
    decreases events.len(),
{
    if events.len() == 0 {
        Seq::empty()
    } else {
        match events.last() {
            TrackerEvent::Received(command) => received_commands(events.drop_last()).push(command),
            _ => received_commands(events.drop_last()),
        }
    }
}

/// The commands that the transport calls among the actions carry out, in the
/// order in which the calls are made.
pub open spec fn sent_commands(actions: Seq<TrackerAction>) -> Seq<PlayerCommand>
    decreases actions.len(),
{
    if actions.len() == 0 {
        Seq::empty()
    } else {
        match actions.last() {
            TrackerAction::Send(call) => sent_commands(actions.drop_last()).push(command_of(call)),
            _ => sent_commands(actions.drop_last()),
        }
    }
}

/// The command that a state has taken off the channel and not yet turned
/// into a transport call: a `Pause` while the status is being read.
pub open spec fn held_command(state: TrackerState) -> Seq<PlayerCommand> {
    if state is ReadingStatus {
        seq![PlayerCommand::Pause]
    } else {
        Seq::empty()
    }
}

/// In an orderly run the transport calls go out in the order in which the
/// commands came in: the commands carried out so far, followed by the one
/// still held, are exactly the commands received, in their order.
pub proof fn lemma_commands_sent_in_order(start: TrackerState, events: Seq<TrackerEvent>)
    requires
        orderly(start, events),
    ensures
        held_command(start) + received_commands(events) == sent_commands(issued(start, events))
            + held_command(run(start, events)),
    decreases events.len(),
{
    if events.len() == 0 {
        assert(held_command(start) + received_commands(events) =~= sent_commands(
            issued(start, events),
        ) + held_command(run(start, events)));
    } else {
        let before = events.drop_last();
        lemma_commands_sent_in_order(start, before);
        assert(issued(start, events).drop_last() =~= issued(start, before));
        assert(held_command(start) + received_commands(events) =~= sent_commands(
            issued(start, events),
        ) + held_command(run(start, events)));
    }
}

/// Replays a run: feeds the events to the loop one by one and collects the
/// actions it answers with.
pub fn replay(start: TrackerState, events: &Vec<TrackerEvent>) -> (out: (
    TrackerState,
    Vec<TrackerAction>,
))
    ensures
        out.0 == run(start, events@),
        out.1@ == issued(start, events@),
{
    let mut state: TrackerState = start;
    let mut actions: Vec<TrackerAction> = Vec::new();
    let mut i: usize = 0;
    while i < events.len()
        invariant
            i <= events.len(),
            state == run(start, events@.take(i as int)),
            actions@ == issued(start, events@.take(i as int)),
        decreases events.len() - i,
    {
        proof {
            lemma_run_push(start, events@.take(i as int), events@[i as int]);
            assert(events@.take(i as int).push(events@[i as int]) =~= events@.take(i + 1));
        }
        let action = state.step(events[i]);
        actions.push(action);
        i = i + 1;
    }
    proof {
        assert(events@.take(events.len() as int) =~= events@);
    }
    (state, actions)
}

} // verus!
