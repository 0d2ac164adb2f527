//! The mathematical model of the reconciliation engine.
//!
//! [`AudioModel`] is the abstract state of [`crate::AudioOutput`]; `spec_step`
//! and `spec_run` say, as functions, what one drained command and one whole
//! drain do to that state, which engine calls ([`AudioAction`]) they decide
//! on, and which entries they put back on the queue. The executable code is
//! proved equal to these functions.

use vstd::prelude::*;

use crate::audio::AudioCommands;
use crate::audio::PlayAudioSettings;
use crate::channel::AudioChannel;
use crate::state::default_channel_state;
use crate::state::ChannelState;
use crate::state::Instance;
use crate::state::ParamKind;

verus! {

/// One call into the audio engine, decided on by a reconciliation pass and
/// performed by the host layer, in order.
///
/// Sounds are identified by their asset token, playable units (arrangements)
/// by the playback request they were built from, instances by the token the
/// pass allocated for them.
#[derive(Clone, Copy, Debug, PartialEq, Eq, Structural)]
pub enum AudioAction {
    /// Register the decoded asset with the engine; happens at most once per
    /// asset.
    RegisterSound { asset: u64 },
    /// Build the one-shot or looped playable unit for this request; happens
    /// at most once per distinct request.
    CreateArrangement { settings: PlayAudioSettings },
    /// Start a fresh instance of the unit built for `settings`, then apply
    /// `params` (the channel's current mixing state) to it.
    StartInstance {
        settings: PlayAudioSettings,
        instance: u64,
        channel: AudioChannel,
        params: ChannelState,
    },
    /// Stop the instance; it left the registry.
    StopInstance { instance: u64 },
    /// Pause the instance; it stays in the registry.
    PauseInstance { instance: u64 },
    /// Resume the instance.
    ResumeInstance { instance: u64 },
    /// Set one mixing parameter of the instance; `value` is an IEEE 754 bit
    /// pattern.
    SetParameter { instance: u64, kind: ParamKind, value: u64 },
}

/// The abstract state of the reconciliation engine.
#[verifier::ext_equal]
pub ghost struct AudioModel {
    /// Asset tokens whose sound has been registered with the engine.
    pub sounds: Seq<u64>,
    /// Playback requests for which a playable unit has been built.
    pub arrangements: Seq<PlayAudioSettings>,
    /// Every active instance, in the order it was started; an instance leaves
    /// only through `Stop` on its channel or a start failure reported by the
    /// host.
    pub instances: Seq<Instance>,
    /// The cached mixing state of each channel that a parameter command has
    /// touched, keyed by channel; entries are never removed.
    pub channels: Seq<(AudioChannel, ChannelState)>,
    /// The token the next started instance will get.
    pub next_instance: u64,
}

/// What one command, or one whole drain, did: the state afterwards, the
/// engine calls decided on (in order), and the entries put back on the queue
/// (in order).
#[verifier::ext_equal]
pub ghost struct DrainOutcome {
    /// The reconciliation state after the step or pass.
    pub state: AudioModel,
    /// The engine calls to perform, in order.
    pub actions: Seq<AudioAction>,
    /// The deferred entries, appended to the queue in this order.
    pub requeued: Seq<(AudioCommands, AudioChannel)>,
}

/// The state before any command was processed.
pub open spec fn empty_model() -> AudioModel {
    AudioModel {
        sounds: Seq::empty(),
        arrangements: Seq::empty(),
        instances: Seq::empty(),
        channels: Seq::empty(),
        next_instance: 0,
    }
}

impl AudioModel {
    /// Well-formedness: the caches and the channel table have no duplicate
    /// keys, instance tokens are unique, and every issued token is below the
    /// allocation counter.
    pub open spec fn wf(self) -> bool {
        &&& forall|i: int, j: int|
            0 <= i < j < self.sounds.len() ==> self.sounds[i] != self.sounds[j]
        &&& forall|i: int, j: int|
            0 <= i < j < self.arrangements.len() ==> self.arrangements[i] != self.arrangements[j]
        &&& forall|i: int, j: int|
            0 <= i < j < self.channels.len() ==> self.channels[i].0 != self.channels[j].0
        &&& forall|i: int, j: int|
            0 <= i < j < self.instances.len()
                ==> self.instances[i].id != self.instances[j].id
        &&& forall|i: int|
            0 <= i < self.instances.len() ==> self.instances[i].id < self.next_instance
    }
}

/// The position of channel `c` in the channel table, or `-1` if the table has
/// no entry for it (first match, front first).
pub open spec fn channel_index(channels: Seq<(AudioChannel, ChannelState)>, c: AudioChannel) -> int
    decreases channels.len(),
{
    if channels.len() == 0 {
        -1
    } else if channels[0].0 == c {
        0
    } else {
        let r = channel_index(channels.drop_first(), c);
        if r < 0 {
            -1
        } else {
            r + 1
        }
    }
}

/// What `channel_index` returns: a valid position holding `c` with no earlier
/// match, or `-1` when no position holds `c`.
pub proof fn lemma_channel_index(channels: Seq<(AudioChannel, ChannelState)>, c: AudioChannel)
    ensures
        channel_index(channels, c) == -1 ==> forall|j: int|
            0 <= j < channels.len() ==> channels[j].0 != c,
        channel_index(channels, c) != -1 ==> {
            let i = channel_index(channels, c);
            &&& 0 <= i < channels.len()
            &&& channels[i].0 == c
            &&& forall|j: int| 0 <= j < i ==> channels[j].0 != c
        },
    decreases channels.len(),
{
    if channels.len() > 0 && channels[0].0 != c {
        lemma_channel_index(channels.drop_first(), c);
        assert forall|j: int| 1 <= j < channels.len() implies channels.drop_first()[j - 1]
            == channels[j] by {}
    }
}

/// The cached mixing state of channel `c`, if a parameter command has touched
/// the channel.
pub open spec fn lookup_channel(
    channels: Seq<(AudioChannel, ChannelState)>,
    c: AudioChannel,
) -> Option<ChannelState> {
    let i = channel_index(channels, c);
    if i < 0 {
        None
    } else {
        Some(channels[i].1)
    }
}

/// The mixing state a new instance on channel `c` starts with: the cached
/// state if there is one, the defaults otherwise.
pub open spec fn channel_state_or_default(
    channels: Seq<(AudioChannel, ChannelState)>,
    c: AudioChannel,
) -> ChannelState {
    match lookup_channel(channels, c) {
        Some(s) => s,
        None => default_channel_state(),
    }
}

/// The channel table after a parameter command: the entry for `c` gets the
/// new value, and is created with defaults for the other two parameters if it
/// did not exist.
pub open spec fn upsert_channel(
    channels: Seq<(AudioChannel, ChannelState)>,
    c: AudioChannel,
    kind: ParamKind,
    value: u64,
) -> Seq<(AudioChannel, ChannelState)> {
    let i = channel_index(channels, c);
    if i < 0 {
        channels.push((c, default_channel_state().with_param(kind, value)))
    } else {
        channels.update(i, (c, channels[i].1.with_param(kind, value)))
    }
}

/// The instances that play on channel `c`, in registry order.
pub open spec fn instances_on(instances: Seq<Instance>, c: AudioChannel) -> Seq<Instance>
    decreases instances.len(),
{
    if instances.len() == 0 {
        Seq::empty()
    } else {
        let rest = instances_on(instances.drop_last(), c);
        if instances.last().channel == c {
            rest.push(instances.last())
        } else {
            rest
        }
    }
}

/// The registry after `Stop` on channel `c`: every instance of other channels,
/// in order.
pub open spec fn retain_off_channel(instances: Seq<Instance>, c: AudioChannel) -> Seq<Instance>
    decreases instances.len(),
{
    if instances.len() == 0 {
        Seq::empty()
    } else {
        let rest = retain_off_channel(instances.drop_last(), c);
        if instances.last().channel == c {
            rest
        } else {
            rest.push(instances.last())
        }
    }
}

/// The stop calls `Stop` on channel `c` decides on: one per instance on `c`,
/// in registry order.
pub open spec fn stop_actions(instances: Seq<Instance>, c: AudioChannel) -> Seq<AudioAction>
    decreases instances.len(),
{
    if instances.len() == 0 {
        Seq::empty()
    } else {
        let rest = stop_actions(instances.drop_last(), c);
        if instances.last().channel == c {
            rest.push(AudioAction::StopInstance { instance: instances.last().id })
        } else {
            rest
        }
    }
}

/// The pause calls `Pause` on channel `c` decides on.
pub open spec fn pause_actions(instances: Seq<Instance>, c: AudioChannel) -> Seq<AudioAction>
    decreases instances.len(),
{
    if instances.len() == 0 {
        Seq::empty()
    } else {
        let rest = pause_actions(instances.drop_last(), c);
        if instances.last().channel == c {
            rest.push(AudioAction::PauseInstance { instance: instances.last().id })
        } else {
            rest
        }
    }
}

/// The resume calls `Resume` on channel `c` decides on.
pub open spec fn resume_actions(instances: Seq<Instance>, c: AudioChannel) -> Seq<AudioAction>
    decreases instances.len(),
{
    if instances.len() == 0 {
        Seq::empty()
    } else {
        let rest = resume_actions(instances.drop_last(), c);
        if instances.last().channel == c {
            rest.push(AudioAction::ResumeInstance { instance: instances.last().id })
        } else {
            rest
        }
    }
}

/// The parameter calls a `SetVolume`, `SetPanning` or `SetPlaybackRate`
/// command on channel `c` decides on: one per instance on `c`.
pub open spec fn set_actions(
    instances: Seq<Instance>,
    c: AudioChannel,
    kind: ParamKind,
    value: u64,
) -> Seq<AudioAction>
    decreases instances.len(),
{
    if instances.len() == 0 {
        Seq::empty()
    } else {
        let rest = set_actions(instances.drop_last(), c, kind, value);
        if instances.last().channel == c {
            rest.push(
                AudioAction::SetParameter { instance: instances.last().id, kind, value },
            )
        } else {
            rest
        }
    }
}

/// The registry after a parameter command: every instance on `c` carries the
/// new value, every other instance is unchanged.
pub open spec fn set_param_on_channel(
    instances: Seq<Instance>,
    c: AudioChannel,
    kind: ParamKind,
    value: u64,
) -> Seq<Instance> {
    instances.map_values(
        |inst: Instance|
            if inst.channel == c {
                inst.with_param(kind, value)
            } else {
                inst
            },
    )
}

/// The registry after the host reported that starting instance `token`
/// failed: the instance is dropped, everything else is untouched.
pub open spec fn remove_instance(instances: Seq<Instance>, token: u64) -> Seq<Instance>
    decreases instances.len(),
{
    if instances.len() == 0 {
        Seq::empty()
    } else {
        let rest = remove_instance(instances.drop_last(), token);
        if instances.last().id == token {
            rest
        } else {
            rest.push(instances.last())
        }
    }
}

/// What processing a `Play` command does. If the asset is not among the
/// loaded ones the entry is deferred unchanged and nothing else happens.
/// Otherwise the sound is registered unless cached, the playable unit is
/// built unless cached, and a fresh instance of the unit is started with the
/// channel's current mixing state.
pub open spec fn spec_step_play(
    st: AudioModel,
    settings: PlayAudioSettings,
    channel: AudioChannel,
    loaded: Seq<u64>,
) -> DrainOutcome {
    if !loaded.contains(settings.source) {
        DrainOutcome {
            state: st,
            actions: Seq::empty(),
            requeued: seq![(AudioCommands::Play(settings), channel)],
        }
    } else {
        let sound_cached = st.sounds.contains(settings.source);
        let unit_cached = st.arrangements.contains(settings);
        let params = channel_state_or_default(st.channels, channel);
        let inst = (Instance {
            id: st.next_instance,
            settings,
            channel,
            volume: params.volume,
            playback_rate: params.playback_rate,
            panning: params.panning,
        });
        let register = (if sound_cached {
            Seq::<AudioAction>::empty()
        } else {
            seq![AudioAction::RegisterSound { asset: settings.source }]
        });
        let build = (if unit_cached {
            Seq::<AudioAction>::empty()
        } else {
            seq![AudioAction::CreateArrangement { settings }]
        });
        DrainOutcome {
            state: AudioModel {
                sounds: if sound_cached {
                    st.sounds
                } else {
                    st.sounds.push(settings.source)
                },
                arrangements: if unit_cached {
                    st.arrangements
                } else {
                    st.arrangements.push(settings)
                },
                instances: st.instances.push(inst),
                channels: st.channels,
                next_instance: (st.next_instance + 1) as u64,
            },
            actions: register + build + seq![
                AudioAction::StartInstance {
                    settings,
                    instance: st.next_instance,
                    channel,
                    params,
                },
            ],
            requeued: Seq::empty(),
        }
    }
}

/// What processing a `SetVolume`, `SetPanning` or `SetPlaybackRate` command
/// does: the value reaches every active instance on the channel, then the
/// channel table is updated (created with defaults if absent).
pub open spec fn spec_step_set(
    st: AudioModel,
    channel: AudioChannel,
    kind: ParamKind,
    value: u64,
) -> DrainOutcome {
    DrainOutcome {
        state: AudioModel {
            instances: set_param_on_channel(st.instances, channel, kind, value),
            channels: upsert_channel(st.channels, channel, kind, value),
            ..st
        },
        actions: set_actions(st.instances, channel, kind, value),
        requeued: Seq::empty(),
    }
}

/// Every instance that survives `Stop` on `c` plays on another channel, stood
/// in the registry before, and keeps a unique token below the allocation
/// counter.
pub proof fn lemma_retain_off_wf(s: Seq<Instance>, c: AudioChannel, bound: u64)
    requires
        forall|i: int, j: int| 0 <= i < j < s.len() ==> s[i].id != s[j].id,
        forall|i: int| 0 <= i < s.len() ==> s[i].id < bound,
    ensures
        forall|k: int|
            0 <= k < retain_off_channel(s, c).len() ==> s.contains(
                #[trigger] retain_off_channel(s, c)[k],
            ),
        forall|k: int|
            0 <= k < retain_off_channel(s, c).len() ==> (#[trigger] retain_off_channel(s, c)[k]).channel
                != c,
        forall|i: int, j: int|
            0 <= i < j < retain_off_channel(s, c).len() ==> retain_off_channel(s, c)[i].id
                != retain_off_channel(s, c)[j].id,
        forall|k: int|
            0 <= k < retain_off_channel(s, c).len() ==> (#[trigger] retain_off_channel(s, c)[k]).id
                < bound,
    decreases s.len(),
{
    if s.len() > 0 {
        lemma_retain_off_wf(s.drop_last(), c, bound);
        let rest = retain_off_channel(s.drop_last(), c);
        assert forall|x: Instance| s.drop_last().contains(x) implies s.contains(x) by {
            let m = choose|m: int| 0 <= m < s.drop_last().len() && s.drop_last()[m] == x;
            assert(s[m] == x);
        }
        if s.last().channel != c {
            let r = retain_off_channel(s, c);
            assert(r =~= rest.push(s.last()));
            assert forall|i: int, j: int| 0 <= i < j < r.len() implies r[i].id != r[j].id by {
                if j == r.len() - 1 {
                    let m = choose|m: int|
                        0 <= m < s.drop_last().len() && s.drop_last()[m] == rest[i];
                    assert(s[m] == rest[i]);
                    assert(s.last() == s[s.len() - 1]);
                }
            }
        }
    }
}

/// Every instance that survives discarding token `t` stood in the registry
/// before, has another token, and keeps a unique token below the counter.
pub proof fn lemma_remove_instance_wf(s: Seq<Instance>, t: u64, bound: u64)
    requires
        forall|i: int, j: int| 0 <= i < j < s.len() ==> s[i].id != s[j].id,
        forall|i: int| 0 <= i < s.len() ==> s[i].id < bound,
    ensures
        forall|k: int|
            0 <= k < remove_instance(s, t).len() ==> s.contains(#[trigger] remove_instance(s, t)[k]),
        forall|i: int, j: int|
            0 <= i < j < remove_instance(s, t).len() ==> remove_instance(s, t)[i].id
                != remove_instance(s, t)[j].id,
        forall|k: int|
            0 <= k < remove_instance(s, t).len() ==> (#[trigger] remove_instance(s, t)[k]).id
                < bound,
    decreases s.len(),
{
    if s.len() > 0 {
        lemma_remove_instance_wf(s.drop_last(), t, bound);
        let rest = remove_instance(s.drop_last(), t);
        assert forall|x: Instance| s.drop_last().contains(x) implies s.contains(x) by {
            let m = choose|m: int| 0 <= m < s.drop_last().len() && s.drop_last()[m] == x;
            assert(s[m] == x);
        }
        if s.last().id != t {
            let r = remove_instance(s, t);
            assert(r =~= rest.push(s.last()));
            assert forall|i: int, j: int| 0 <= i < j < r.len() implies r[i].id != r[j].id by {
                if j == r.len() - 1 {
                    let m = choose|m: int|
                        0 <= m < s.drop_last().len() && s.drop_last()[m] == rest[i];
                    assert(s[m] == rest[i]);
                    assert(s.last() == s[s.len() - 1]);
                }
            }
        }
    }
}

/// Well-formedness survives one processed command, and the instance counter
/// grows by at most one.
pub proof fn lemma_step_preserves_wf(
    st: AudioModel,
    cmd: AudioCommands,
    channel: AudioChannel,
    loaded: Seq<u64>,
)
    requires
        st.wf(),
        st.next_instance < u64::MAX,
    ensures
        spec_step(st, cmd, channel, loaded).state.wf(),
        st.next_instance <= spec_step(st, cmd, channel, loaded).state.next_instance,
        spec_step(st, cmd, channel, loaded).state.next_instance <= st.next_instance + 1,
{
    let o = spec_step(st, cmd, channel, loaded);
    match cmd {
        AudioCommands::Play(settings) => {
            if loaded.contains(settings.source) {
                if !st.sounds.contains(settings.source) {
                    assert forall|i: int, j: int|
                        0 <= i < j < o.state.sounds.len() implies o.state.sounds[i]
                        != o.state.sounds[j] by {
                        if j == o.state.sounds.len() - 1 {
                            assert(st.sounds[i] == o.state.sounds[i]);
                        }
                    }
                }
                if !st.arrangements.contains(settings) {
                    assert forall|i: int, j: int|
                        0 <= i < j < o.state.arrangements.len() implies o.state.arrangements[i]
                        != o.state.arrangements[j] by {
                        if j == o.state.arrangements.len() - 1 {
                            assert(st.arrangements[i] == o.state.arrangements[i]);
                        }
                    }
                }
            }
        },
        AudioCommands::Stop => {
            lemma_retain_off_wf(st.instances, channel, st.next_instance);
        },
        AudioCommands::Pause => {},
        AudioCommands::Resume => {},
        AudioCommands::SetVolume(v) => {
            lemma_set_preserves_wf(st, channel, ParamKind::Volume, v);
        },
        AudioCommands::SetPanning(v) => {
            lemma_set_preserves_wf(st, channel, ParamKind::Panning, v);
        },
        AudioCommands::SetPlaybackRate(v) => {
            lemma_set_preserves_wf(st, channel, ParamKind::PlaybackRate, v);
        },
    }
}

/// Well-formedness survives one parameter command: the registry keeps its
/// tokens, the channel table keeps its keys (one value changes, or one fresh
/// key is appended).
pub proof fn lemma_set_preserves_wf(st: AudioModel, channel: AudioChannel, kind: ParamKind, value: u64)
    requires
        st.wf(),
    ensures
        spec_step_set(st, channel, kind, value).state.wf(),
        spec_step_set(st, channel, kind, value).state.next_instance == st.next_instance,
{
    let o = spec_step_set(st, channel, kind, value);
    assert forall|k: int| 0 <= k < o.state.instances.len() implies (#[trigger] o.state.instances[k]).id
        == st.instances[k].id by {}
    lemma_channel_index(st.channels, channel);
    let ci = channel_index(st.channels, channel);
    if ci >= 0 {
        assert forall|k: int| 0 <= k < o.state.channels.len() implies (#[trigger] o.state.channels[k]).0
            == st.channels[k].0 by {}
    }
}

/// Well-formedness survives a whole drain, and the instance counter grows by
/// at most one per drained command.
pub proof fn lemma_run_preserves_wf(
    st: AudioModel,
    cmds: Seq<(AudioCommands, AudioChannel)>,
    loaded: Seq<u64>,
)
    requires
        st.wf(),
        st.next_instance + cmds.len() <= u64::MAX,
    ensures
        spec_run(st, cmds, loaded).state.wf(),
        st.next_instance <= spec_run(st, cmds, loaded).state.next_instance,
        spec_run(st, cmds, loaded).state.next_instance <= st.next_instance + cmds.len(),
    decreases cmds.len(),
{
    if cmds.len() > 0 {
        lemma_run_preserves_wf(st, cmds.drop_last(), loaded);
        let prev = spec_run(st, cmds.drop_last(), loaded);
        lemma_step_preserves_wf(prev.state, cmds.last().0, cmds.last().1, loaded);
    }
}

/// What processing one drained `(command, channel)` entry does.
pub open spec fn spec_step(
    st: AudioModel,
    cmd: AudioCommands,
    channel: AudioChannel,
    loaded: Seq<u64>,
) -> DrainOutcome {
    match cmd {
        AudioCommands::Play(settings) => spec_step_play(st, settings, channel, loaded),
        AudioCommands::Stop => DrainOutcome {
            state: AudioModel { instances: retain_off_channel(st.instances, channel), ..st },
            actions: stop_actions(st.instances, channel),
            requeued: Seq::empty(),
        },
        AudioCommands::Pause => DrainOutcome {
            state: st,
            actions: pause_actions(st.instances, channel),
            requeued: Seq::empty(),
        },
        AudioCommands::Resume => DrainOutcome {
            state: st,
            actions: resume_actions(st.instances, channel),
            requeued: Seq::empty(),
        },
        AudioCommands::SetVolume(v) => spec_step_set(st, channel, ParamKind::Volume, v),
        AudioCommands::SetPanning(v) => spec_step_set(st, channel, ParamKind::Panning, v),
        AudioCommands::SetPlaybackRate(v) => spec_step_set(
            st,
            channel,
            ParamKind::PlaybackRate,
            v,
        ),
    }
}

/// What one whole drain does: the entries are processed front to back, each
/// exactly once; the engine calls and the deferred entries are concatenated
/// in processing order.
pub open spec fn spec_run(
    st: AudioModel,
    cmds: Seq<(AudioCommands, AudioChannel)>,
    loaded: Seq<u64>,
) -> DrainOutcome
    decreases cmds.len(),
{
    if cmds.len() == 0 {
        DrainOutcome { state: st, actions: Seq::empty(), requeued: Seq::empty() }
    } else {
        let prev = spec_run(st, cmds.drop_last(), loaded);
        let step = spec_step(prev.state, cmds.last().0, cmds.last().1, loaded);
        DrainOutcome {
            state: step.state,
            actions: prev.actions + step.actions,
            requeued: prev.requeued + step.requeued,
        }
    }
}

} // verus!
