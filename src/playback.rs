//! The state of the playback handle as the control plane sees it.

use vstd::prelude::*;

verus! {

/// The largest volume, in percent of full gain.
pub const MAX_VOLUME: u32 = 100;

/// A mutation of the playback handle.
#[derive(Clone, Copy, Debug, PartialEq, Eq, Structural)]
pub enum Command {
    /// Set the gain to the given percentage of full gain.
    SetVolume(u32),
    Pause,
    Resume,
}

/// The abstract state of the handle: its mode and its gain in percent.
pub struct PlaybackView {
    pub paused: bool,
    pub volume: nat,
}

impl PlaybackView {
    /// The gain never leaves `[0, 100]` percent.
    pub open spec fn wf(self) -> bool {
        self.volume <= MAX_VOLUME
    }

    /// What a command makes of a state. A volume above 100 percent changes nothing.
    pub open spec fn after(self, cmd: Command) -> PlaybackView {
        match cmd {
            Command::SetVolume(v) => if v <= MAX_VOLUME {
                PlaybackView { volume: v as nat, ..self }
            } else {
                self
            },
            Command::Pause => PlaybackView { paused: true, ..self },
            Command::Resume => PlaybackView { paused: false, ..self },
        }
    }
}

/// Whether the handle plays or is paused, and its gain in percent.
///
/// A gain of `volume` percent is the linear factor `volume / 100`.
#[derive(Clone, Copy, Debug, PartialEq, Eq)]
pub struct PlaybackState {
    paused: bool,
    volume: u32,
}

impl PlaybackState {
    #[verifier::type_invariant]
    spec fn gain_in_range(self) -> bool {
        self.volume <= MAX_VOLUME
    }
}

impl View for PlaybackState {
    type V = PlaybackView;

    closed spec fn view(&self) -> PlaybackView {
        PlaybackView { paused: self.paused, volume: self.volume as nat }
    }
}

impl PlaybackState {
    /// A fresh handle: playing, at full gain.
    pub fn new() -> (r: PlaybackState)
        ensures
            r@ == (PlaybackView { paused: false, volume: MAX_VOLUME as nat }),
            r@.wf(),
    {
        PlaybackState { paused: false, volume: MAX_VOLUME }
    }

    pub fn is_paused(&self) -> (r: bool)
        ensures
            r == self@.paused,
    {
        self.paused
    }

    /// The gain in percent of full gain.
    pub fn volume(&self) -> (r: u32)
        ensures
            r as nat == self@.volume,
            r <= MAX_VOLUME,
    {
        proof {
            use_type_invariant(self);
        }
        self.volume
    }

    /// Applies a command.
    pub fn apply(&mut self, cmd: Command)
        ensures
            final(self)@ == old(self)@.after(cmd),
            final(self)@.wf(),
    {
        proof {
            use_type_invariant(&*self);
        }
        match cmd {
            Command::SetVolume(v) => {
                if v <= MAX_VOLUME {
                    self.volume = v;
                }
            },
            Command::Pause => {
                self.paused = true;
            },
            Command::Resume => {
                self.paused = false;
            },
        }
    }
}

/// Setting the volume to `n` percent, for `n` in `[0, 100]`, and reading it
/// back gives `n`, whatever the state was.
pub proof fn lemma_volume_round_trip(s: PlaybackView, n: u32)
    requires
        n <= MAX_VOLUME,
    ensures
        s.after(Command::SetVolume(n)).volume == n,
        s.after(Command::SetVolume(n)).wf(),
        s.after(Command::SetVolume(n)).paused == s.paused,
{
}

/// Pausing twice leaves the handle paused, as pausing once does; resuming
/// twice leaves it playing, as resuming once does.
pub proof fn lemma_pause_resume_idempotent(s: PlaybackView)
    ensures
        s.after(Command::Pause).after(Command::Pause) == s.after(Command::Pause),
        s.after(Command::Pause).after(Command::Pause).paused,
        s.after(Command::Resume).after(Command::Resume) == s.after(Command::Resume),
        !s.after(Command::Resume).after(Command::Resume).paused,
{
}

/// After a pause the handle reads as paused; after a resume that follows, it
/// reads as playing again, at the same volume.
pub proof fn lemma_pause_resume_round_trip(s: PlaybackView)
    ensures
        s.after(Command::Pause).paused,
        !s.after(Command::Pause).after(Command::Resume).paused,
        s.after(Command::Pause).after(Command::Resume).volume == s.volume,
{
}

} // verus!
