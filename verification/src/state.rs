//! Per-channel mixing state and per-instance bookkeeping.
//!
//! Mixing parameters (volume, panning, playback rate) are real numbers to the
//! audio engine. The library never computes with them, it only stores and
//! forwards them, so it carries each one as the 64-bit IEEE 754 bit pattern of
//! the value. The host layer converts with `f64::to_bits` / `f64::from_bits`.

use vstd::prelude::*;

use crate::channel::AudioChannel;
use crate::audio::PlayAudioSettings;

verus! {

/// Bit pattern of the default volume, `1.0`.
pub const DEFAULT_VOLUME_BITS: u64 = 0x3FF0_0000_0000_0000;

/// Bit pattern of the default playback rate, `1.0`.
pub const DEFAULT_PLAYBACK_RATE_BITS: u64 = 0x3FF0_0000_0000_0000;

/// Bit pattern of the default panning, `0.5` (centered).
pub const DEFAULT_PANNING_BITS: u64 = 0x3FE0_0000_0000_0000;

/// Which mixing parameter a command or an engine call addresses.
#[derive(Clone, Copy, Debug, PartialEq, Eq, Structural)]
pub enum ParamKind {
    /// The volume of an instance or a channel.
    Volume,
    /// The stereo panning of an instance or a channel.
    Panning,
    /// The playback rate of an instance or a channel.
    PlaybackRate,
}

/// The cached mixing parameters of one channel.
///
/// Created lazily by the first parameter-changing command on the channel and
/// never removed; every instance started on the channel afterwards inherits
/// these values.
#[derive(Clone, Copy, Debug, PartialEq, Eq, Structural)]
pub struct ChannelState {
    /// Volume, as an IEEE 754 bit pattern.
    pub volume: u64,
    /// Playback rate, as an IEEE 754 bit pattern.
    pub playback_rate: u64,
    /// Panning, as an IEEE 754 bit pattern.
    pub panning: u64,
}

/// The channel state a channel has before any parameter command touched it:
/// volume `1.0`, playback rate `1.0`, panning `0.5`.
pub open spec fn default_channel_state() -> ChannelState {
    ChannelState {
        volume: DEFAULT_VOLUME_BITS,
        playback_rate: DEFAULT_PLAYBACK_RATE_BITS,
        panning: DEFAULT_PANNING_BITS,
    }
}

impl ChannelState {
    /// Reads one parameter by kind.
    pub open spec fn param(self, kind: ParamKind) -> u64 {
        match kind {
            ParamKind::Volume => self.volume,
            ParamKind::Panning => self.panning,
            ParamKind::PlaybackRate => self.playback_rate,
        }
    }

    /// Replaces one parameter by kind.
    pub open spec fn with_param(self, kind: ParamKind, value: u64) -> ChannelState {
        match kind {
            ParamKind::Volume => ChannelState { volume: value, ..self },
            ParamKind::Panning => ChannelState { panning: value, ..self },
            ParamKind::PlaybackRate => ChannelState { playback_rate: value, ..self },
        }
    }

    /// Replaces one parameter by kind.
    pub fn apply_param(self, kind: ParamKind, value: u64) -> (r: ChannelState)
        ensures
            r == self.with_param(kind, value),
    {
        match kind {
            ParamKind::Volume => ChannelState { volume: value, ..self },
            ParamKind::Panning => ChannelState { panning: value, ..self },
            ParamKind::PlaybackRate => ChannelState { playback_rate: value, ..self },
        }
    }
}

impl Default for ChannelState {
    /// The defaults a fresh channel starts with.
    fn default() -> (r: ChannelState)
        ensures
            r == default_channel_state(),
    {
        ChannelState {
            volume: DEFAULT_VOLUME_BITS,
            playback_rate: DEFAULT_PLAYBACK_RATE_BITS,
            panning: DEFAULT_PANNING_BITS,
        }
    }
}

/// One in-flight playback of a playable unit on a channel.
///
/// The `id` is the token under which the host layer knows the engine's
/// instance handle. The mixing fields record the parameters the instance was
/// last told to use, so that channel-level parameter commands can be shown to
/// reach every active instance.
#[derive(Clone, Copy, Debug, PartialEq, Eq, Structural)]
pub struct Instance {
    /// Token identifying this instance towards the host layer.
    pub id: u64,
    /// The playback request this instance was started from.
    pub settings: PlayAudioSettings,
    /// The channel the instance plays on.
    pub channel: AudioChannel,
    /// Current volume, as an IEEE 754 bit pattern.
    pub volume: u64,
    /// Current playback rate, as an IEEE 754 bit pattern.
    pub playback_rate: u64,
    /// Current panning, as an IEEE 754 bit pattern.
    pub panning: u64,
}

impl Instance {
    /// Reads one mixing parameter by kind.
    pub open spec fn param(self, kind: ParamKind) -> u64 {
        match kind {
            ParamKind::Volume => self.volume,
            ParamKind::Panning => self.panning,
            ParamKind::PlaybackRate => self.playback_rate,
        }
    }

    /// Replaces one mixing parameter by kind.
    pub open spec fn with_param(self, kind: ParamKind, value: u64) -> Instance {
        match kind {
            ParamKind::Volume => Instance { volume: value, ..self },
            ParamKind::Panning => Instance { panning: value, ..self },
            ParamKind::PlaybackRate => Instance { playback_rate: value, ..self },
        }
    }

    /// Replaces one mixing parameter by kind.
    pub fn apply_param(self, kind: ParamKind, value: u64) -> (r: Instance)
        ensures
            r == self.with_param(kind, value),
    {
        match kind {
            ParamKind::Volume => Instance { volume: value, ..self },
            ParamKind::Panning => Instance { panning: value, ..self },
            ParamKind::PlaybackRate => Instance { playback_rate: value, ..self },
        }
    }
}

} // verus!
