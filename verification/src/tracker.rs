//! The player tracking loop as a state machine.
//!
//! The loop connects to the media bus, finds the active player, shows what
//! it plays, and then alternates between asking the player whether anything
//! changed and asking the command channel whether the user clicked a button.
//! When the player quits it starts over. All waiting and all talking to the
//! bus happens outside: the caller performs the action that the current
//! state asks for and reports what came of it as an event.

use crate::metadata::PlaybackStatus;
use crate::metadata::PlayerCommand;
use vstd::prelude::*;

verus! {

/// Milliseconds between two polls of the player's progress.
pub const TICK_INTERVAL_MS: u32 = 500;

/// Milliseconds to wait for a command before polling the player again.
pub const COMMAND_TIMEOUT_MS: u64 = 5;

/// Milliseconds to let a player that was just found settle before its
/// metadata is read for the first time.
pub const SETTLE_DELAY_MS: u64 = 1000;

/// A call on the player's transport controls.
#[derive(Clone, Copy, Debug, PartialEq, Eq, Structural)]
pub enum TransportCall {
    Play,
    Pause,
    Next,
    Previous,
}

/// What one poll of the player's progress reports.
#[derive(Clone, Copy, Debug, PartialEq, Eq, Structural)]
pub struct TickResult {
    pub progress_changed: bool,
    pub player_quit: bool,
}

/// The transport call that carries out a command. `Pause` toggles: it resumes
/// a player whose status reads paused and pauses any other, a failed status
/// query counting as "playing". The other commands do not look at the status.
pub open spec fn call_for(command: PlayerCommand, status: Option<PlaybackStatus>) -> TransportCall {
    match command {
        PlayerCommand::Pause => if status == Some(PlaybackStatus::Paused) {
            TransportCall::Play
        } else {
            TransportCall::Pause
        },
        PlayerCommand::Next => TransportCall::Next,
        PlayerCommand::Prev => TransportCall::Previous,
    }
}

/// `Pause` resumes a player that reads paused and pauses every other one.
pub proof fn lemma_pause_toggles(status: Option<PlaybackStatus>)
    ensures
        status == Some(PlaybackStatus::Paused) ==> call_for(PlayerCommand::Pause, status)
            == TransportCall::Play,
        status != Some(PlaybackStatus::Paused) ==> call_for(PlayerCommand::Pause, status)
            == TransportCall::Pause,
{
}

/// Chooses the transport call that carries out a command, given what the
/// status query returned (`None` where it failed).
pub fn dispatch(command: PlayerCommand, status: Option<PlaybackStatus>) -> (call: TransportCall)
    ensures
        call == call_for(command, status),
{
    match command {
        PlayerCommand::Pause => match status {
            Some(PlaybackStatus::Paused) => TransportCall::Play,
            _ => TransportCall::Pause,
        },
        PlayerCommand::Next => TransportCall::Next,
        PlayerCommand::Prev => TransportCall::Previous,
    }
}

/// Whether a command has to see the playback status before it can be
/// carried out.
pub fn needs_status(command: PlayerCommand) -> (needed: bool)
    ensures
        needed == (command == PlayerCommand::Pause),
{
    match command {
        PlayerCommand::Pause => true,
        _ => false,
    }
}

/// The two phases of the loop.
#[derive(Clone, Copy, Debug, PartialEq, Eq, Structural)]
pub enum Phase {
    /// No player is being tracked.
    Discovering,
    /// A player was found and shown, and is being followed.
    Tracking,
}

/// Where the loop stands. Each state waits for the outcome of one action.
#[derive(Clone, Copy, Debug, PartialEq, Eq, Structural)]
pub enum TrackerState {
    /// Connecting to the media bus.
    Connecting,
    /// Looking for an active player on the bus.
    Searching,
    /// A player was found; it is given time to settle.
    Settling,
    /// The first snapshot of the player is being published.
    Announcing,
    /// Waiting for the next progress tick.
    Polling,
    /// A tick reported a change; the new snapshot is being published.
    Refreshing,
    /// Waiting a short while for a command.
    Receiving,
    /// A `Pause` command arrived; the playback status is being read.
    ReadingStatus,
    /// A transport call is on its way to the player.
    Sending(TransportCall),
    /// The bus cannot be reached. Nothing leads out of this state.
    Failed,
}

/// What the caller has to do next.
#[derive(Clone, Copy, Debug, PartialEq, Eq, Structural)]
pub enum TrackerAction {
    /// Open a connection to the media bus.
    Connect,
    /// Ask the bus for the active player.
    FindPlayer,
    /// Sleep for `SETTLE_DELAY_MS`.
    Settle,
    /// Query the player, build the snapshot and hand it to the window.
    Publish,
    /// Wait for the next progress tick, at most `TICK_INTERVAL_MS`.
    PollTick,
    /// Take one command off the channel, waiting at most
    /// `COMMAND_TIMEOUT_MS`.
    Receive,
    /// Query the playback status.
    ReadStatus,
    /// Make the transport call.
    Send(TransportCall),
    /// End the process: without the bus there is nothing to show.
    Terminate,
}

/// What came of an action.
#[derive(Clone, Copy, Debug, PartialEq, Eq)]
pub enum TrackerEvent {
    /// The connection to the bus stands.
    Connected,
    /// The bus cannot be reached.
    BusUnavailable,
    /// The bus named an active player.
    PlayerFound,
    /// The bus has no active player.
    NoPlayer,
    /// The settle delay is over.
    Settled,
    /// The snapshot was handed over.
    Published,
    /// A progress tick arrived.
    Tick(TickResult),
    /// A command was waiting on the channel.
    Received(PlayerCommand),
    /// No command arrived in time.
    TimedOut,
    /// The status query returned; `None` where it failed.
    Status(Option<PlaybackStatus>),
    /// The transport call returned; `false` where it failed.
    Sent(bool),
}

impl TrackerState {
    /// The action whose outcome the state waits for.
    pub open spec fn pending(self) -> TrackerAction {
        match self {
            TrackerState::Connecting => TrackerAction::Connect,
            TrackerState::Searching => TrackerAction::FindPlayer,
            TrackerState::Settling => TrackerAction::Settle,
            TrackerState::Announcing => TrackerAction::Publish,
            TrackerState::Polling => TrackerAction::PollTick,
            TrackerState::Refreshing => TrackerAction::Publish,
            TrackerState::Receiving => TrackerAction::Receive,
            TrackerState::ReadingStatus => TrackerAction::ReadStatus,
            TrackerState::Sending(call) => TrackerAction::Send(call),
            TrackerState::Failed => TrackerAction::Terminate,
        }
    }

    /// Whether the event is an outcome of the pending action.
    pub open spec fn accepts(self, event: TrackerEvent) -> bool {
        match self {
            TrackerState::Connecting => event is Connected || event is BusUnavailable,
            TrackerState::Searching => event is PlayerFound || event is NoPlayer,
            TrackerState::Settling => event is Settled,
            TrackerState::Announcing => event is Published,
            TrackerState::Polling => event is Tick,
            TrackerState::Refreshing => event is Published,
            TrackerState::Receiving => event is Received || event is TimedOut,
            TrackerState::ReadingStatus => event is Status,
            TrackerState::Sending(_) => event is Sent,
            TrackerState::Failed => false,
        }
    }

    /// The state that follows. An event that is no outcome of the pending
    /// action changes nothing.
    pub open spec fn after(self, event: TrackerEvent) -> TrackerState {
        match (self, event) {
            (TrackerState::Connecting, TrackerEvent::Connected) => TrackerState::Searching,
            (TrackerState::Connecting, TrackerEvent::BusUnavailable) => TrackerState::Failed,
            (TrackerState::Searching, TrackerEvent::PlayerFound) => TrackerState::Settling,
            (TrackerState::Searching, TrackerEvent::NoPlayer) => TrackerState::Searching,
            (TrackerState::Settling, TrackerEvent::Settled) => TrackerState::Announcing,
            (TrackerState::Announcing, TrackerEvent::Published) => TrackerState::Polling,
            (TrackerState::Polling, TrackerEvent::Tick(tick)) => if tick.player_quit {
                TrackerState::Connecting
            } else if tick.progress_changed {
                TrackerState::Refreshing
            } else {
                TrackerState::Receiving
            },
            (TrackerState::Refreshing, TrackerEvent::Published) => TrackerState::Receiving,
            (TrackerState::Receiving, TrackerEvent::TimedOut) => TrackerState::Polling,
            (TrackerState::Receiving, TrackerEvent::Received(command)) => if command
                == PlayerCommand::Pause {
                TrackerState::ReadingStatus
            } else {
                TrackerState::Sending(call_for(command, None))
            },
            (TrackerState::ReadingStatus, TrackerEvent::Status(status)) => TrackerState::Sending(
                call_for(PlayerCommand::Pause, status),
            ),
            (TrackerState::Sending(_), TrackerEvent::Sent(_)) => TrackerState::Polling,
            _ => self,
        }
    }

    /// The phase that the state belongs to.
    pub open spec fn phase_of(self) -> Phase {
        match self {
            TrackerState::Polling => Phase::Tracking,
            TrackerState::Refreshing => Phase::Tracking,
            TrackerState::Receiving => Phase::Tracking,
            TrackerState::ReadingStatus => Phase::Tracking,
            TrackerState::Sending(_) => Phase::Tracking,
            _ => Phase::Discovering,
        }
    }

    /// The state in which the loop starts.
    pub fn new() -> (state: TrackerState)
        ensures
            state == TrackerState::Connecting,
    {
        TrackerState::Connecting
    }

    /// The action that the caller has to perform now.
    pub fn action(&self) -> (action: TrackerAction)
        ensures
            action == self.pending(),
    {
        match self {
            TrackerState::Connecting => TrackerAction::Connect,
            TrackerState::Searching => TrackerAction::FindPlayer,
            TrackerState::Settling => TrackerAction::Settle,
            TrackerState::Announcing => TrackerAction::Publish,
            TrackerState::Polling => TrackerAction::PollTick,
            TrackerState::Refreshing => TrackerAction::Publish,
            TrackerState::Receiving => TrackerAction::Receive,
            TrackerState::ReadingStatus => TrackerAction::ReadStatus,
            TrackerState::Sending(call) => TrackerAction::Send(*call),
            TrackerState::Failed => TrackerAction::Terminate,
        }
    }

    /// Whether the event is an outcome of the action that the state waits
    /// for.
    pub fn expects(&self, event: &TrackerEvent) -> (expected: bool)
        ensures
            expected == self.accepts(*event),
    {
        match self {
            TrackerState::Connecting => match event {
                TrackerEvent::Connected => true,
                TrackerEvent::BusUnavailable => true,
                _ => false,
            },
            TrackerState::Searching => match event {
                TrackerEvent::PlayerFound => true,
                TrackerEvent::NoPlayer => true,
                _ => false,
            },
            TrackerState::Settling => match event {
                TrackerEvent::Settled => true,
                _ => false,
            },
            TrackerState::Announcing => match event {
                TrackerEvent::Published => true,
                _ => false,
            },
            TrackerState::Polling => match event {
                TrackerEvent::Tick(_) => true,
                _ => false,
            },
            TrackerState::Refreshing => match event {
                TrackerEvent::Published => true,
                _ => false,
            },
            TrackerState::Receiving => match event {
                TrackerEvent::Received(_) => true,
                TrackerEvent::TimedOut => true,
                _ => false,
            },
            TrackerState::ReadingStatus => match event {
                TrackerEvent::Status(_) => true,
                _ => false,
            },
            TrackerState::Sending(_) => match event {
                TrackerEvent::Sent(_) => true,
                _ => false,
            },
            TrackerState::Failed => false,
        }
    }

    /// Takes in the outcome of the pending action, moves to the state that
    /// follows and returns the action to perform next.
    pub fn step(&mut self, event: TrackerEvent) -> (action: TrackerAction)
        ensures
            *final(self) == old(self).after(event),
            action == final(self).pending(),
    {
        let current: TrackerState = *self;
        let next: TrackerState = match current {
            TrackerState::Connecting => match event {
                TrackerEvent::Connected => TrackerState::Searching,
                TrackerEvent::BusUnavailable => TrackerState::Failed,
                _ => TrackerState::Connecting,
            },
            TrackerState::Searching => match event {
                TrackerEvent::PlayerFound => TrackerState::Settling,
                _ => TrackerState::Searching,
            },
            TrackerState::Settling => match event {
                TrackerEvent::Settled => TrackerState::Announcing,
                _ => TrackerState::Settling,
            },
            TrackerState::Announcing => match event {
                TrackerEvent::Published => TrackerState::Polling,
                _ => TrackerState::Announcing,
            },
            TrackerState::Polling => match event {
                TrackerEvent::Tick(tick) => {
                    if tick.player_quit {
                        TrackerState::Connecting
                    } else if tick.progress_changed {
                        TrackerState::Refreshing
                    } else {
                        TrackerState::Receiving
                    }
                },
                _ => TrackerState::Polling,
            },
            TrackerState::Refreshing => match event {
                TrackerEvent::Published => TrackerState::Receiving,
                _ => TrackerState::Refreshing,
            },
            TrackerState::Receiving => match event {
                TrackerEvent::TimedOut => TrackerState::Polling,
                TrackerEvent::Received(command) => {
                    if needs_status(command) {
                        TrackerState::ReadingStatus
                    } else {
                        TrackerState::Sending(dispatch(command, None))
                    }
                },
                _ => TrackerState::Receiving,
            },
            TrackerState::ReadingStatus => match event {
                TrackerEvent::Status(status) => TrackerState::Sending(
                    dispatch(PlayerCommand::Pause, status),
                ),
                _ => TrackerState::ReadingStatus,
            },
            TrackerState::Sending(call) => match event {
                TrackerEvent::Sent(_) => TrackerState::Polling,
                _ => TrackerState::Sending(call),
            },
            TrackerState::Failed => TrackerState::Failed,
        };
        *self = next;
        next.action()
    }

    /// The phase that the state belongs to.
    pub fn phase(&self) -> (phase: Phase)
        ensures
            phase == self.phase_of(),
    {
        match self {
            TrackerState::Polling => Phase::Tracking,
            TrackerState::Refreshing => Phase::Tracking,
            TrackerState::Receiving => Phase::Tracking,
            TrackerState::ReadingStatus => Phase::Tracking,
            TrackerState::Sending(_) => Phase::Tracking,
            _ => Phase::Discovering,
        }
    }
}

} // verus!
