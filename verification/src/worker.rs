//! The playback worker's decisions.
//!
//! A worker loads one resource, starts a voice for it and then polls: each
//! cycle it looks whether the voice still sounds and takes at most one command
//! from its channel. What it decides is a function of its state and of the one
//! thing it observed, written here as `WorkerState::step`. The loop around it
//! sleeps, reads the channel and drives the engine; it hands `step` each
//! observation and carries out the action that comes back.
//!
//! ```text
//! Loading --Loaded--> Playing <--Play/Pause--> Paused
//!    |  |                |                        |
//!    |  |                +--- Stop, VoiceEnded, --+
//!    |  |                     Disconnected
//!    |  |                          |
//!    |  +--Stop, Disconnected--> Stopped
//!    |
//!    +--LoadFailed--> Failed
//! ```

use vstd::prelude::*;
use crate::audio_player::{toggle_command, AudioControl, InfoChannel};

verus! {

/// Title line of a dump of the first informational bank.
pub const TITLE_TED: &'static str = "----- TED";

/// Title line of a dump of the second informational bank.
pub const TITLE_SID: &'static str = "----- SID";

/// Last line of every dump.
pub const DUMP_END: &'static str = "----- FIN";

/// Where a worker stands.
#[derive(Clone, Copy, Debug, PartialEq, Eq, Structural)]
pub enum WorkerState {
    /// Decoding the resource. The channel is not read in this state.
    Loading,
    /// The voice sounds.
    Playing,
    /// The voice is paused and still allocated.
    Paused,
    /// The worker has ended: stopped, superseded, or at the track's end.
    Stopped,
    /// The worker has ended because the resource could not be loaded.
    Failed,
}

/// What a worker observed: the outcome of loading, or the outcome of one poll
/// cycle.
#[derive(Clone, Copy, Debug, PartialEq, Eq, Structural)]
pub enum WorkerEvent {
    /// The resource was decoded.
    Loaded,
    /// The resource is missing or cannot be decoded.
    LoadFailed,
    /// The engine has no sounding voice left.
    VoiceEnded,
    /// A command was taken from the channel.
    Received(AudioControl),
    /// The channel held no command.
    Empty,
    /// The channel is empty and its sending half was dropped.
    Disconnected,
}

/// What the loop around the worker has to do after a step.
#[derive(Clone, Copy, Debug, PartialEq, Eq, Structural)]
pub enum WorkerAction {
    /// Nothing.
    Nothing,
    /// Start a voice for the loaded resource.
    StartVoice,
    /// Set the voice's pause flag.
    SetPause(bool),
    /// Release the voice.
    StopVoice,
    /// Write one bank of informational registers to the diagnostic output.
    DumpInfo(InfoChannel),
    /// Tell the controller that the resource could not be loaded.
    ReportLoadFailure,
    /// Say that seeking is not supported. The position is handed back.
    RejectSeek(usize),
}

impl InfoChannel {
    /// The number of the bank's first register.
    pub open spec fn first_register(self) -> u32 {
        match self {
            InfoChannel::Ted => 0,
            InfoChannel::Sid => 64,
        }
    }

    /// The number of the bank's last register.
    pub open spec fn last_register(self) -> u32 {
        match self {
            InfoChannel::Ted => 31,
            InfoChannel::Sid => 69,
        }
    }

    /// The bank's register numbers, in the order of a dump.
    pub open spec fn register_numbers(self) -> Seq<u32> {
        Seq::new(
            (self.last_register() - self.first_register() + 1) as nat,
            |i: int| (self.first_register() + i) as u32,
        )
    }

    /// The bank's register numbers, in the order of a dump.
    pub fn registers(self) -> (keys: Vec<u32>)
        ensures
            keys@ == self.register_numbers(),
    {
        let (first, last): (u32, u32) = match self {
            InfoChannel::Ted => (0, 31),
            InfoChannel::Sid => (64, 69),
        };
        let mut keys: Vec<u32> = Vec::new();
        let mut key: u32 = first;
        while key <= last
            invariant
                first == self.first_register(),
                last == self.last_register(),
                first <= key <= last + 1,
                keys@.len() == key - first,
                forall|i: int| 0 <= i < keys@.len() ==> keys@[i] == first + i,
            decreases last + 1 - key,
        {
            keys.push(key);
            key = key + 1;
        }
        assert(keys@ =~= self.register_numbers());
        keys
    }

    /// The title line of the bank's dump.
    pub fn title(self) -> (line: &'static str)
        ensures
            line@ == (match self {
                InfoChannel::Ted => TITLE_TED@,
                InfoChannel::Sid => TITLE_SID@,
            }),
    {
        match self {
            InfoChannel::Ted => TITLE_TED,
            InfoChannel::Sid => TITLE_SID,
        }
    }
}

impl WorkerAction {
    /// Whether carrying the action out changes the engine's state.
    pub open spec fn mutates_engine(self) -> bool {
        self is StartVoice || self is SetPause || self is StopVoice
    }

    /// The voice's pause flag after the action, given the flag before it. A
    /// voice starts unpaused.
    pub open spec fn pause_flag_after(self, paused: bool) -> bool {
        match self {
            WorkerAction::StartVoice => false,
            WorkerAction::SetPause(flag) => flag,
            _ => paused,
        }
    }

    /// Whether carrying the action out changes the engine's state.
    pub fn changes_engine(self) -> (changes: bool)
        ensures
            changes == self.mutates_engine(),
    {
        match self {
            WorkerAction::StartVoice => true,
            WorkerAction::SetPause(_) => true,
            WorkerAction::StopVoice => true,
            _ => false,
        }
    }

    /// The voice's pause flag after the action, given the flag before it.
    pub fn pause_after(self, paused: bool) -> (flag: bool)
        ensures
            flag == self.pause_flag_after(paused),
    {
        match self {
            WorkerAction::StartVoice => false,
            WorkerAction::SetPause(flag) => flag,
            _ => paused,
        }
    }
}

impl WorkerState {
    /// The worker has ended: no step leaves this state or asks for anything.
    pub open spec fn is_terminal(self) -> bool {
        self is Stopped || self is Failed
    }

    /// The worker owns a voice and reads its channel.
    pub open spec fn holds_voice(self) -> bool {
        self is Playing || self is Paused
    }

    /// The pause flag that the worker has given its voice.
    pub open spec fn voice_paused(self) -> bool {
        self is Paused
    }

    /// The state after `event` was observed in this state.
    ///
    /// A worker that has ended stays as it is. Any other worker ends when it
    /// is told to stop or sees its channel disconnected. While loading, only
    /// the outcome of the load counts besides. After that a worker follows
    /// `Play` and `Pause`, ends with its voice, and is left as it is by
    /// anything else.
    pub open spec fn next_state(self, event: WorkerEvent) -> WorkerState {
        if self.is_terminal() {
            self
        } else if event is Disconnected || event == WorkerEvent::Received(AudioControl::Stop) {
            WorkerState::Stopped
        } else if self is Loading {
            match event {
                WorkerEvent::Loaded => WorkerState::Playing,
                WorkerEvent::LoadFailed => WorkerState::Failed,
                _ => WorkerState::Loading,
            }
        } else {
            match event {
                WorkerEvent::VoiceEnded => WorkerState::Stopped,
                WorkerEvent::Received(AudioControl::Play) => WorkerState::Playing,
                WorkerEvent::Received(AudioControl::Pause) => WorkerState::Paused,
                _ => self,
            }
        }
    }

    /// What is to be done when `event` was observed in this state.
    ///
    /// Only a worker that holds a voice acts on commands: `Play` clears the
    /// pause flag, `Pause` sets it, `Stop` releases the voice, the two info
    /// commands dump their bank, and `Seek` is rejected. A load that succeeded
    /// starts the voice; one that failed is reported. A worker that is still
    /// loading has no voice to act on, so a command that reaches it asks for
    /// nothing.
    pub open spec fn action_for(self, event: WorkerEvent) -> WorkerAction {
        if self is Loading {
            match event {
                WorkerEvent::Loaded => WorkerAction::StartVoice,
                WorkerEvent::LoadFailed => WorkerAction::ReportLoadFailure,
                _ => WorkerAction::Nothing,
            }
        } else if self.holds_voice() {
            match event {
                WorkerEvent::Received(AudioControl::Play) => WorkerAction::SetPause(false),
                WorkerEvent::Received(AudioControl::Pause) => WorkerAction::SetPause(true),
                WorkerEvent::Received(AudioControl::Stop) => WorkerAction::StopVoice,
                WorkerEvent::Received(AudioControl::Seek(position)) => WorkerAction::RejectSeek(
                    position,
                ),
                WorkerEvent::Received(AudioControl::InfoTED) => WorkerAction::DumpInfo(
                    InfoChannel::Ted,
                ),
                WorkerEvent::Received(AudioControl::InfoSID) => WorkerAction::DumpInfo(
                    InfoChannel::Sid,
                ),
                _ => WorkerAction::Nothing,
            }
        } else {
            WorkerAction::Nothing
        }
    }

    /// The state after the events of `events` were observed in turn.
    pub open spec fn state_after(self, events: Seq<WorkerEvent>) -> WorkerState
        decreases events.len(),
    {
        if events.len() == 0 {
            self
        } else {
            self.state_after(events.drop_last()).next_state(events.last())
        }
    }

    /// The actions that the events of `events` ask for, one for each event.
    pub open spec fn actions_for(self, events: Seq<WorkerEvent>) -> Seq<WorkerAction> {
        Seq::new(
            events.len(),
            |i: int| self.state_after(events.take(i)).action_for(events[i]),
        )
    }

    /// A fresh worker: it has its resource to load.
    pub fn new() -> (state: WorkerState)
        ensures
            state == WorkerState::Loading,
    {
        WorkerState::Loading
    }

    /// Whether the worker has ended.
    pub fn has_ended(self) -> (ended: bool)
        ensures
            ended == self.is_terminal(),
    {
        match self {
            WorkerState::Stopped => true,
            WorkerState::Failed => true,
            _ => false,
        }
    }

    /// Whether the worker is in its poll loop: it owns a voice and reads its
    /// channel.
    pub fn is_polling(self) -> (polling: bool)
        ensures
            polling == self.holds_voice(),
    {
        match self {
            WorkerState::Playing => true,
            WorkerState::Paused => true,
            _ => false,
        }
    }

    /// One decision: the state after `event`, and what is to be done.
    pub fn step(self, event: WorkerEvent) -> (out: (WorkerState, WorkerAction))
        ensures
            out.0 == self.next_state(event),
            out.1 == self.action_for(event),
    {
        match self {
            WorkerState::Stopped | WorkerState::Failed => (self, WorkerAction::Nothing),
            WorkerState::Loading => match event {
                WorkerEvent::Loaded => (WorkerState::Playing, WorkerAction::StartVoice),
                WorkerEvent::LoadFailed => (WorkerState::Failed, WorkerAction::ReportLoadFailure),
                WorkerEvent::Disconnected | WorkerEvent::Received(AudioControl::Stop) => (
                    WorkerState::Stopped,
                    WorkerAction::Nothing,
                ),
                _ => (self, WorkerAction::Nothing),
            },
            WorkerState::Playing | WorkerState::Paused => match event {
                WorkerEvent::VoiceEnded | WorkerEvent::Disconnected => (
                    WorkerState::Stopped,
                    WorkerAction::Nothing,
                ),
                WorkerEvent::Received(command) => match command {
                    AudioControl::Play => (WorkerState::Playing, WorkerAction::SetPause(false)),
                    AudioControl::Pause => (WorkerState::Paused, WorkerAction::SetPause(true)),
                    AudioControl::Stop => (WorkerState::Stopped, WorkerAction::StopVoice),
                    AudioControl::Seek(position) => (self, WorkerAction::RejectSeek(position)),
                    AudioControl::InfoTED => (self, WorkerAction::DumpInfo(InfoChannel::Ted)),
                    AudioControl::InfoSID => (self, WorkerAction::DumpInfo(InfoChannel::Sid)),
                },
                _ => (self, WorkerAction::Nothing),
            },
        }
    }

    /// Replays a record of observations: the state after all of them, and the
    /// action that each one asked for.
    pub fn run(self, events: &Vec<WorkerEvent>) -> (out: (WorkerState, Vec<WorkerAction>))
        ensures
            out.0 == self.state_after(events@),
            out.1@ == self.actions_for(events@),
    {
        let mut state = self;
        let mut actions: Vec<WorkerAction> = Vec::new();
        let mut done: usize = 0;
        while done < events.len()
            invariant
                done <= events.len(),
                state == self.state_after(events@.take(done as int)),
                actions@.len() == done,
                forall|i: int|
                    0 <= i < done ==> actions@[i] == self.state_after(events@.take(i)).action_for(
                        events@[i],
                    ),
            decreases events.len() - done,
        {
            let (next, action) = state.step(events[done]);
            proof {
                let longer = events@.take(done + 1);
                assert(longer.drop_last() =~= events@.take(done as int));
                assert(longer.last() == events@[done as int]);
            }
            actions.push(action);
            state = next;
            done = done + 1;
        }
        proof {
            assert(events@.take(events@.len() as int) =~= events@);
            assert(actions@ =~= self.actions_for(events@));
        }
        (state, actions)
    }
}

/// A worker that has ended stays as it is and asks for nothing, whatever it is
/// handed.
pub proof fn law_ended_worker_is_inert(state: WorkerState, event: WorkerEvent)
    requires
        state.is_terminal(),
    ensures
        state.next_state(event) == state,
        state.action_for(event) == WorkerAction::Nothing,
{
}

/// The two observations that end a worker: a `Stop` command, and a
/// disconnected channel.
pub open spec fn is_final_event(event: WorkerEvent) -> bool {
    event == WorkerEvent::Received(AudioControl::Stop) || event is Disconnected
}

/// `Stop` and a disconnected channel end every worker. Only `Stop` on a worker
/// that holds a voice touches the engine then, to release that voice.
pub proof fn law_stop_and_disconnection_end_the_worker(state: WorkerState, event: WorkerEvent)
    requires
        is_final_event(event),
    ensures
        state.next_state(event).is_terminal(),
        state.action_for(event).mutates_engine() <==> state.holds_voice() && event
            == WorkerEvent::Received(AudioControl::Stop),
        state.action_for(event).mutates_engine() ==> state.action_for(event)
            == WorkerAction::StopVoice,
{
}

/// After a worker has observed `Stop` or a disconnected channel, whatever it
/// observes next asks for nothing: no command is applied and the engine is not
/// touched again.
pub proof fn law_nothing_follows_stop_or_disconnection(
    start: WorkerState,
    events: Seq<WorkerEvent>,
    at: int,
)
    requires
        0 <= at < events.len(),
        is_final_event(events[at]),
    ensures
        start.state_after(events).is_terminal(),
        forall|i: int|
            at < i < events.len() ==> #[trigger] start.actions_for(events)[i]
                == WorkerAction::Nothing,
        forall|i: int|
            at < i < events.len() ==> !(#[trigger] start.actions_for(events)[i]).mutates_engine(),
{
    let upto = events.take(at + 1);
    assert(upto.drop_last() =~= events.take(at));
    assert(upto.last() == events[at]);
    law_stop_and_disconnection_end_the_worker(start.state_after(events.take(at)), events[at]);
    law_nothing_follows_the_end(start, events, at + 1);
}

/// Once a run of observations has brought the worker to an end, nothing that
/// follows moves it or asks for anything: the engine is not touched again.
pub proof fn law_nothing_follows_the_end(
    start: WorkerState,
    events: Seq<WorkerEvent>,
    ended_at: int,
)
    requires
        0 <= ended_at <= events.len(),
        start.state_after(events.take(ended_at)).is_terminal(),
    ensures
        start.state_after(events) == start.state_after(events.take(ended_at)),
        forall|i: int|
            ended_at <= i < events.len() ==> #[trigger] start.actions_for(events)[i]
                == WorkerAction::Nothing,
        forall|i: int|
            ended_at <= i < events.len() ==> !(#[trigger] start.actions_for(
                events,
            )[i]).mutates_engine(),
{
    let last = start.state_after(events.take(ended_at));
    assert forall|n: int| ended_at <= n <= events.len() implies start.state_after(
        #[trigger] events.take(n),
    ) == last by {
        lemma_state_stays_ended(start, events, ended_at, n);
    }
    assert(events.take(events.len() as int) =~= events);
}

proof fn lemma_state_stays_ended(
    start: WorkerState,
    events: Seq<WorkerEvent>,
    ended_at: int,
    n: int,
)
    requires
        0 <= ended_at <= n <= events.len(),
        start.state_after(events.take(ended_at)).is_terminal(),
    ensures
        start.state_after(events.take(n)) == start.state_after(events.take(ended_at)),
    decreases n - ended_at,
{
    if n > ended_at {
        lemma_state_stays_ended(start, events, ended_at, n - 1);
        assert(events.take(n).drop_last() =~= events.take(n - 1));
    }
}

/// `Play` on a worker that plays changes nothing: it goes on playing, and the
/// voice's pause flag is what it was.
pub proof fn law_play_while_playing_changes_nothing()
    ensures
        WorkerState::Playing.next_state(WorkerEvent::Received(AudioControl::Play))
            == WorkerState::Playing,
        WorkerState::Playing.action_for(
            WorkerEvent::Received(AudioControl::Play),
        ).pause_flag_after(WorkerState::Playing.voice_paused())
            == WorkerState::Playing.voice_paused(),
{
}

/// `Pause` and then `Play` bring a worker that plays back to where it was: it
/// plays, and the voice's pause flag is what it was before the pause.
pub proof fn law_pause_then_play_restores()
    ensures
        WorkerState::Playing.next_state(WorkerEvent::Received(AudioControl::Pause))
            == WorkerState::Paused,
        WorkerState::Paused.next_state(WorkerEvent::Received(AudioControl::Play))
            == WorkerState::Playing,
        WorkerState::Paused.action_for(WorkerEvent::Received(AudioControl::Play)).pause_flag_after(
            WorkerState::Playing.action_for(
                WorkerEvent::Received(AudioControl::Pause),
            ).pause_flag_after(WorkerState::Playing.voice_paused()),
        ) == WorkerState::Playing.voice_paused(),
{
}

/// A worker that sees its channel disconnected ends in that very step and
/// asks for nothing: the engine gets no further call from it.
pub proof fn law_disconnection_ends_without_action(state: WorkerState)
    ensures
        state.next_state(WorkerEvent::Disconnected).is_terminal(),
        state.action_for(WorkerEvent::Disconnected) == WorkerAction::Nothing,
        !state.action_for(WorkerEvent::Disconnected).mutates_engine(),
{
}

/// The worker's state keeps track of the voice's pause flag: whenever a step
/// leaves the worker with a voice, the flag after the step's action is the one
/// that the new state records.
pub proof fn law_state_tracks_pause_flag(state: WorkerState, event: WorkerEvent, paused: bool)
    requires
        state.holds_voice() ==> paused == state.voice_paused(),
        state.next_state(event).holds_voice(),
    ensures
        state.action_for(event).pause_flag_after(paused) == state.next_state(event).voice_paused(),
{
}

/// Two presses of the pause/play button cancel: when the controller's paused
/// flag agrees with a worker that holds a voice, the two commands that the
/// presses send leave the worker in its state and the voice's pause flag as it
/// was. The two agree when a session starts, since `AudioPlayer::play` clears
/// the flag and a worker that has loaded plays; they stay in agreement as long
/// as every command sent is applied.
pub proof fn law_two_toggles_cancel(state: WorkerState, paused: bool)
    requires
        state.holds_voice(),
        paused == state.voice_paused(),
    ensures
        ({
            let first = WorkerEvent::Received(toggle_command(paused));
            let second = WorkerEvent::Received(toggle_command(!paused));
            let between = state.next_state(first);
            &&& between.next_state(second) == state
            &&& between.action_for(second).pause_flag_after(
                state.action_for(first).pause_flag_after(paused),
            ) == paused
        }),
{
}

} // verus!
