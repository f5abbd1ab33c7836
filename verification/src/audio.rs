//! The rules of the sound: which volume a name selects, and when the water
//! loop and the bamboo strike may play in each audio mode.
//!
//! The playback itself (and the volumes, which are fractions) belongs to the
//! application shell; it asks `AudioGate` before it acts.

use vstd::prelude::*;

use crate::error::AppError;
use crate::settings::{AudioMode, VolumeKind};
use crate::text::str_eq;
use crate::timer_state::{Phase, TimerEvent};

verus! {

/// The name of each volume, as the front end spells it.
pub open spec fn volume_kind_name(k: VolumeKind) -> Seq<char> {
    match k {
        VolumeKind::Master => "master"@,
        VolumeKind::Water => "water"@,
        VolumeKind::Kakon => "kakon"@,
    }
}

/// The volume a name selects, if any; names are matched exactly.
pub open spec fn kind_of_name(s: Seq<char>) -> Option<VolumeKind> {
    if s == "master"@ {
        Some(VolumeKind::Master)
    } else if s == "water"@ {
        Some(VolumeKind::Water)
    } else if s == "kakon"@ {
        Some(VolumeKind::Kakon)
    } else {
        None
    }
}

/// `"master" | "water" | "kakon"` → the volume; anything else is
/// `NotFound` with the message `invalid kind: <name>`.
pub fn kind_str_to_volume_kind(s: &str) -> (r: Result<VolumeKind, AppError>)
    ensures
        match r {
            Ok(k) => kind_of_name(s@) == Some(k),
            Err(AppError::NotFound(msg)) => kind_of_name(s@) is None && msg@ == "invalid kind: "@
                + s@,
            Err(_) => false,
        },
{
    if str_eq(s, "master") {
        Ok(VolumeKind::Master)
    } else if str_eq(s, "water") {
        Ok(VolumeKind::Water)
    } else if str_eq(s, "kakon") {
        Ok(VolumeKind::Kakon)
    } else {
        let mut msg = String::from_str("invalid kind: ");
        msg.append(s);
        Err(AppError::NotFound(msg))
    }
}

/// Each volume's own name selects it.
pub proof fn law_volume_names_select_their_volume(k: VolumeKind)
    ensures
        kind_of_name(volume_kind_name(k)) == Some(k),
{
    reveal_strlit("master");
    reveal_strlit("water");
    reveal_strlit("kakon");
    assert("water"@[0] != "master"@[0]);
    assert("kakon"@[0] != "master"@[0]);
    assert("kakon"@[0] != "water"@[0]);
}

/// The audio mode and whether the water loop is playing.
pub struct AudioGate {
    mode: AudioMode,
    water_playing: bool,
}

/// The abstract state of an `AudioGate`.
pub struct AudioGateView {
    pub mode: AudioMode,
    pub water_playing: bool,
}

impl AudioGateView {
    /// The water loop only plays in `Full` mode.
    pub open spec fn inv(self) -> bool {
        self.water_playing ==> self.mode == AudioMode::Full
    }

    /// A mode switch: leaving `Full` stops the water.
    pub open spec fn after_set_mode(self, mode: AudioMode) -> AudioGateView {
        AudioGateView {
            mode,
            water_playing: self.water_playing && !(self.mode == AudioMode::Full && mode
                != AudioMode::Full),
        }
    }

    /// The water loop was started; it counts as playing only in `Full` mode.
    pub open spec fn after_water_started(self) -> AudioGateView {
        AudioGateView { water_playing: self.water_playing || self.mode == AudioMode::Full, ..self }
    }

    /// The water loop was stopped.
    pub open spec fn after_water_stopped(self) -> AudioGateView {
        AudioGateView { water_playing: false, ..self }
    }
}

impl View for AudioGate {
    type V = AudioGateView;

    closed spec fn view(&self) -> AudioGateView {
        AudioGateView { mode: self.mode, water_playing: self.water_playing }
    }
}

impl AudioGate {
    /// `Full` mode, nothing playing.
    pub fn new() -> (r: Self)
        ensures
            r@ == (AudioGateView { mode: AudioMode::Full, water_playing: false }),
            r@.inv(),
    {
        AudioGate { mode: AudioMode::Full, water_playing: false }
    }

    /// The current mode.
    pub fn mode(&self) -> (r: AudioMode)
        ensures
            r == self@.mode,
    {
        self.mode
    }

    /// Whether the water loop is playing.
    pub fn water_playing(&self) -> (r: bool)
        ensures
            r == self@.water_playing,
    {
        self.water_playing
    }

    /// Switch the mode. Leaving `Full` stops the water: the result says
    /// whether the caller must stop it.
    pub fn set_mode(&mut self, mode: AudioMode) -> (stop_water: bool)
        ensures
            stop_water == (old(self)@.mode == AudioMode::Full && mode != AudioMode::Full),
            final(self)@ == old(self)@.after_set_mode(mode),
    {
        let prev = self.mode;
        self.mode = mode;
        let stop = prev == AudioMode::Full && mode != AudioMode::Full;
        if stop {
            self.water_playing = false;
        }
        stop
    }

    /// Whether the water loop should be started now: only in `Full` mode,
    /// with an output device, and not twice.
    pub fn may_start_water(&self, output_ready: bool) -> (r: bool)
        ensures
            r == (self@.mode == AudioMode::Full && !self@.water_playing && output_ready),
    {
        self.mode == AudioMode::Full && !self.water_playing && output_ready
    }

    /// Record that the water loop was started; outside `Full` mode nothing
    /// is recorded and the result is `false`.
    pub fn water_started(&mut self) -> (recorded: bool)
        ensures
            recorded == (old(self)@.mode == AudioMode::Full),
            final(self)@ == old(self)@.after_water_started(),
    {
        if self.mode == AudioMode::Full {
            self.water_playing = true;
            true
        } else {
            false
        }
    }

    /// Record that the water loop stops; the result says whether it was
    /// playing (and so must be faded out).
    pub fn water_stopped(&mut self) -> (was_playing: bool)
        ensures
            was_playing == old(self)@.water_playing,
            final(self)@ == old(self)@.after_water_stopped(),
            !final(self)@.water_playing,
            final(self)@.mode == old(self)@.mode,
    {
        let was = self.water_playing;
        self.water_playing = false;
        was
    }

    /// Whether the bamboo strike should play: not in `Silent` mode, and only
    /// with an output device and the sound loaded.
    pub fn may_play_kakon(&self, output_ready: bool, kakon_loaded: bool) -> (r: bool)
        ensures
            r == (self@.mode != AudioMode::Silent && output_ready && kakon_loaded),
    {
        self.mode != AudioMode::Silent && output_ready && kakon_loaded
    }
}

/// Whatever the sequence of mode switches, starts and stops, the water loop
/// never plays outside `Full` mode.
pub proof fn law_water_only_in_full_mode(g: AudioGateView, mode: AudioMode)
    requires
        g.inv(),
    ensures
        g.after_set_mode(mode).inv(),
        g.after_water_started().inv(),
        g.after_water_stopped().inv(),
{
}

/// Stopping the water always leaves it recorded as stopped, in the same
/// mode, so in `Full` mode it may be started again; and starting then
/// stopping it leaves nothing playing.
pub proof fn law_water_can_start_again_after_stop(g: AudioGateView)
    ensures
        !g.after_water_stopped().water_playing,
        g.after_water_stopped().mode == g.mode,
        g.mode == AudioMode::Full ==> g.after_water_stopped().after_water_started().water_playing,
        g.after_water_started().after_water_stopped() == (AudioGateView {
            water_playing: false,
            ..g
        }),
{
}

/// What the sound does in answer to a timer event.
#[derive(Clone, Copy, Debug, PartialEq, Eq, Structural)]
pub enum SoundCue {
    StartWater,
    StopWater,
    StrikeKakon,
}

/// The water runs while working and stops on any other phase; the strike
/// answers the sound request; ticks and `Completed` make no sound.
pub open spec fn cue_of(event: TimerEvent) -> Option<SoundCue> {
    match event {
        TimerEvent::StateChanged { phase, .. } => if phase == Phase::Work {
            Some(SoundCue::StartWater)
        } else {
            Some(SoundCue::StopWater)
        },
        TimerEvent::PlayKakonAudio => Some(SoundCue::StrikeKakon),
        _ => None,
    }
}

/// The water follows the phase: every state change has a water cue, and
/// it starts the water exactly when the new phase is `Work` (so a session
/// that ends, is paused, skipped or reset stops it).
pub proof fn law_water_follows_phase(phase: Phase, count: u32)
    ensures
        cue_of(TimerEvent::StateChanged { phase, count }) == Some(SoundCue::StartWater) <==> phase
            == Phase::Work,
        phase != Phase::Work ==> cue_of(TimerEvent::StateChanged { phase, count }) == Some(
            SoundCue::StopWater,
        ),
{
}

/// Timer event → sound cue.
pub fn sound_cue(event: &TimerEvent) -> (r: Option<SoundCue>)
    ensures
        r == cue_of(*event),
{
    match event {
        TimerEvent::StateChanged { phase: Phase::Work, .. } => Some(SoundCue::StartWater),
        TimerEvent::StateChanged { .. } => Some(SoundCue::StopWater),
        TimerEvent::PlayKakonAudio => Some(SoundCue::StrikeKakon),
        _ => None,
    }
}

} // verus!
