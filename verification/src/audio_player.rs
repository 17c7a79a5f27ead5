//! The audio player's controller: the state that the interactive thread keeps
//! of the one playback session, and the commands it puts on the session's
//! channel.
//!
//! The controller never touches the channel or the worker itself. Each method
//! changes the cached state and returns what is to be sent, if anything; the
//! caller sends it and ignores a failed send, since a worker that has ended by
//! itself is the expected cause.

use vstd::prelude::*;

verus! {

/// What the display shows while no session exists.
pub const IDLE_NAME: &'static str = "No audio playing";

/// What the display shows after a session's resource could not be loaded.
pub const FAILED_NAME: &'static str = "Audio could not be loaded";

/// Label of the pause/play button while playback is paused.
pub const LABEL_PLAY: &'static str = "Play";

/// Label of the pause/play button while playback runs.
pub const LABEL_PAUSE: &'static str = "Pause";

/// A command from the controller to the worker, sent by value.
#[derive(Clone, Copy, Debug, PartialEq, Eq, Structural)]
pub enum AudioControl {
    /// Resume a paused voice; no change on one that plays.
    Play,
    /// Pause the voice and keep it allocated.
    Pause,
    /// Release the voice and end the worker.
    Stop,
    /// Reserved: a position to move to. No worker acts on it.
    Seek(usize),
    /// Dump the registers of the first informational bank.
    InfoTED,
    /// Dump the registers of the second informational bank.
    InfoSID,
}

/// One of the two banks of informational registers.
#[derive(Clone, Copy, Debug, PartialEq, Eq, Structural)]
pub enum InfoChannel {
    Ted,
    Sid,
}

impl InfoChannel {
    /// The command that asks the worker for this bank.
    pub open spec fn command(self) -> AudioControl {
        match self {
            InfoChannel::Ted => AudioControl::InfoTED,
            InfoChannel::Sid => AudioControl::InfoSID,
        }
    }
}

/// What the controller knows of its session.
#[derive(Clone, Copy, Debug, PartialEq, Eq, Structural)]
pub enum PlayerStatus {
    /// No session: nothing was played yet, or the last one was stopped.
    Idle,
    /// A session exists: commands are sent to its worker.
    Active,
    /// The last session's worker reported that it could not load its resource.
    Failed,
}

/// What the caller of `play` has to start: a fresh channel and a worker that
/// loads `full_path`. `session` tells this worker's reports from those of
/// workers that were superseded.
pub struct WorkerLaunch {
    pub session: u64,
    pub full_path: String,
}

/// The command that a press of the pause/play button sends, given the cached
/// paused flag.
pub open spec fn toggle_command(paused: bool) -> AudioControl {
    if paused {
        AudioControl::Play
    } else {
        AudioControl::Pause
    }
}

/// The number of the session that follows session `n`.
pub open spec fn following_session(n: u64) -> u64 {
    if n == u64::MAX {
        0
    } else {
        (n + 1) as u64
    }
}

/// The controller of the one playback session.
pub struct AudioPlayer {
    audio_file_name: String,
    is_paused: bool,
    status: PlayerStatus,
    session: u64,
}

impl AudioPlayer {
    /// The display never lags behind the status: an idle controller shows the
    /// idle name, and one whose session failed shows the failure.
    #[verifier::type_invariant]
    spec fn display_fits_status(self) -> bool {
        &&& self.status == PlayerStatus::Idle ==> self.audio_file_name@ == IDLE_NAME@
        &&& self.status == PlayerStatus::Failed ==> self.audio_file_name@ == FAILED_NAME@
    }

    /// The name on display.
    pub closed spec fn name(&self) -> Seq<char> {
        self.audio_file_name@
    }

    /// The cached paused flag. It is cleared when a session starts and flipped
    /// when a command is sent, not when the worker has applied it.
    pub closed spec fn paused(&self) -> bool {
        self.is_paused
    }

    /// What the controller knows of its session.
    pub closed spec fn status(&self) -> PlayerStatus {
        self.status
    }

    /// The number of the current session, or of the last one.
    pub closed spec fn session(&self) -> u64 {
        self.session
    }

    /// Whether commands have a worker to go to.
    pub open spec fn has_session(&self) -> bool {
        self.status() == PlayerStatus::Active
    }

    /// Starts a session for `full_path`, shown as `audio_file_name`. A session
    /// that exists is superseded: the caller drops its channel, and its worker
    /// ends when it sees that. The new session's worker starts out playing, so
    /// the paused flag is cleared, whatever the last session left it at.
    pub fn play(&mut self, full_path: String, audio_file_name: String) -> (launch: WorkerLaunch)
        ensures
            final(self).status() == PlayerStatus::Active,
            final(self).name() == audio_file_name@,
            !final(self).paused(),
            final(self).session() == following_session(old(self).session()),
            launch.session == final(self).session(),
            launch.full_path@ == full_path@,
    {
        let session: u64 = if self.session == u64::MAX {
            0
        } else {
            self.session + 1
        };
        self.status = PlayerStatus::Active;
        self.session = session;
        self.is_paused = false;
        self.audio_file_name = audio_file_name;
        WorkerLaunch { session, full_path }
    }

    /// Sends `action` and flips the paused flag, if a session exists. Without
    /// one nothing is sent and nothing changes.
    pub fn pause_play(&mut self, action: AudioControl) -> (sent: Option<AudioControl>)
        ensures
            old(self).has_session() ==> sent == Some(action),
            old(self).has_session() ==> final(self).paused() != old(self).paused(),
            !old(self).has_session() ==> sent is None,
            !old(self).has_session() ==> final(self).paused() == old(self).paused(),
            final(self).status() == old(self).status(),
            final(self).name() == old(self).name(),
            final(self).session() == old(self).session(),
    {
        match self.status {
            PlayerStatus::Active => {
                self.is_paused = !self.is_paused;
                Some(action)
            },
            _ => None,
        }
    }

    /// One press of the pause/play button: sends `Pause` if the flag says
    /// playing, `Play` if it says paused, and flips the flag. Without a session
    /// nothing is sent and nothing changes.
    pub fn toggle_pause_resume(&mut self) -> (sent: Option<AudioControl>)
        ensures
            old(self).has_session() ==> sent == Some(toggle_command(old(self).paused())),
            old(self).has_session() ==> final(self).paused() != old(self).paused(),
            !old(self).has_session() ==> sent is None,
            !old(self).has_session() ==> final(self).paused() == old(self).paused(),
            final(self).status() == old(self).status(),
            final(self).name() == old(self).name(),
            final(self).session() == old(self).session(),
    {
        let action = self.get_pause_play_action();
        self.pause_play(action)
    }

    /// Ends the session, if one exists: `Stop` is sent, the caller then drops
    /// the channel, and the display goes back to the idle name. Without a
    /// session nothing is sent and nothing changes.
    pub fn stop(&mut self) -> (sent: Option<AudioControl>)
        ensures
            old(self).has_session() ==> sent == Some(AudioControl::Stop),
            old(self).has_session() ==> final(self).status() == PlayerStatus::Idle,
            old(self).has_session() ==> final(self).name() == IDLE_NAME@,
            !old(self).has_session() ==> sent is None,
            !old(self).has_session() ==> *final(self) == *old(self),
            final(self).paused() == old(self).paused(),
            final(self).session() == old(self).session(),
    {
        match self.status {
            PlayerStatus::Active => {
                self.audio_file_name = IDLE_NAME.to_owned();
                self.status = PlayerStatus::Idle;
                Some(AudioControl::Stop)
            },
            _ => None,
        }
    }

    /// Asks the worker to dump one bank of informational registers. The dump
    /// goes to the worker's diagnostic output; nothing comes back here.
    pub fn query_info(&mut self, kind: InfoChannel) -> (sent: Option<AudioControl>)
        ensures
            old(self).has_session() ==> sent == Some(kind.command()),
            !old(self).has_session() ==> sent is None,
            *final(self) == *old(self),
    {
        match self.status {
            PlayerStatus::Active => match kind {
                InfoChannel::Ted => Some(AudioControl::InfoTED),
                InfoChannel::Sid => Some(AudioControl::InfoSID),
            },
            _ => None,
        }
    }

    /// Asks for the first bank of informational registers.
    pub fn info_ted(&mut self) -> (sent: Option<AudioControl>)
        ensures
            old(self).has_session() ==> sent == Some(AudioControl::InfoTED),
            !old(self).has_session() ==> sent is None,
            *final(self) == *old(self),
    {
        self.query_info(InfoChannel::Ted)
    }

    /// Asks for the second bank of informational registers.
    pub fn info_sid(&mut self) -> (sent: Option<AudioControl>)
        ensures
            old(self).has_session() ==> sent == Some(AudioControl::InfoSID),
            !old(self).has_session() ==> sent is None,
            *final(self) == *old(self),
    {
        self.query_info(InfoChannel::Sid)
    }

    /// Takes a worker's report that it could not load its resource. The report
    /// of the current session ends it: the status becomes `Failed` and the
    /// display shows the failure. A report of any other session, or one that
    /// arrives when no session exists, changes nothing.
    pub fn report_load_failure(&mut self, session: u64) -> (accepted: bool)
        ensures
            accepted == (old(self).has_session() && session == old(self).session()),
            accepted ==> final(self).status() == PlayerStatus::Failed,
            accepted ==> final(self).name() == FAILED_NAME@,
            !accepted ==> *final(self) == *old(self),
            final(self).paused() == old(self).paused(),
            final(self).session() == old(self).session(),
    {
        match self.status {
            PlayerStatus::Active => {
                if session == self.session {
                    self.audio_file_name = FAILED_NAME.to_owned();
                    self.status = PlayerStatus::Failed;
                    true
                } else {
                    false
                }
            },
            _ => false,
        }
    }

    /// The label of the pause/play button: what a press would do.
    pub fn get_pause_play_button_label(&self) -> (label: &'static str)
        ensures
            label@ == (if self.paused() {
                LABEL_PLAY@
            } else {
                LABEL_PAUSE@
            }),
    {
        if self.is_paused {
            LABEL_PLAY
        } else {
            LABEL_PAUSE
        }
    }

    /// The command that a press of the pause/play button sends.
    pub fn get_pause_play_action(&self) -> (action: AudioControl)
        ensures
            action == toggle_command(self.paused()),
    {
        if self.is_paused {
            AudioControl::Play
        } else {
            AudioControl::Pause
        }
    }

    /// The name on display: the idle name while no session exists, the
    /// failure notice after a failed load, else the name given to `play`.
    pub fn audio_file_name(&self) -> (name: &str)
        ensures
            name@ == self.name(),
            self.status() == PlayerStatus::Idle ==> name@ == IDLE_NAME@,
            self.status() == PlayerStatus::Failed ==> name@ == FAILED_NAME@,
    {
        proof {
            use_type_invariant(self);
        }
        self.audio_file_name.as_str()
    }

    /// The cached paused flag.
    pub fn is_paused(&self) -> (paused: bool)
        ensures
            paused == self.paused(),
    {
        self.is_paused
    }

    /// What the controller knows of its session.
    pub fn current_status(&self) -> (status: PlayerStatus)
        ensures
            status == self.status(),
    {
        self.status
    }

    /// The number of the current session, or of the last one.
    pub fn current_session(&self) -> (session: u64)
        ensures
            session == self.session(),
    {
        self.session
    }
}

impl Default for AudioPlayer {
    /// The controller before anything was played.
    fn default() -> (player: Self)
        ensures
            player.status() == PlayerStatus::Idle,
            player.name() == IDLE_NAME@,
            !player.paused(),
            player.session() == 0,
    {
        Self {
            audio_file_name: IDLE_NAME.to_owned(),
            is_paused: false,
            status: PlayerStatus::Idle,
            session: 0,
        }
    }
}

} // verus!
