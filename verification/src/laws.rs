//! Laws of the reconciliation engine, each proved from the model.

use vstd::prelude::*;

use crate::audio::AudioCommands;
use crate::audio::PlayAudioSettings;
use crate::channel::AudioChannel;
use crate::model::channel_index;
use crate::model::channel_state_or_default;
use crate::model::instances_on;
use crate::model::lookup_channel;
use crate::model::pause_actions;
use crate::model::resume_actions;
use crate::model::spec_run;
use crate::model::spec_step_play;
use crate::model::spec_step;
use crate::model::spec_step_set;
use crate::model::upsert_channel;
use crate::model::AudioAction;
use crate::model::AudioModel;
use crate::state::default_channel_state;
use crate::state::ChannelState;
use crate::state::Instance;
use crate::state::ParamKind;

verus! {

/// Whether a drained entry is deferred: it is a `Play` whose asset is not
/// among the loaded ones.
pub open spec fn is_deferred(entry: (AudioCommands, AudioChannel), loaded: Seq<u64>) -> bool {
    match entry.0 {
        AudioCommands::Play(settings) => !loaded.contains(settings.source),
        _ => false,
    }
}

/// The entries of a drain that are deferred, in order.
pub open spec fn deferred_entries(
    cmds: Seq<(AudioCommands, AudioChannel)>,
    loaded: Seq<u64>,
) -> Seq<(AudioCommands, AudioChannel)>
    decreases cmds.len(),
{
    if cmds.len() == 0 {
        Seq::empty()
    } else {
        let rest = deferred_entries(cmds.drop_last(), loaded);
        if is_deferred(cmds.last(), loaded) {
            rest.push(cmds.last())
        } else {
            rest
        }
    }
}

/// Law: a drain never loses and never duplicates a command. Each entry is
/// processed exactly once; what comes back on the queue is exactly the `Play`
/// entries whose asset is not loaded, unchanged and in order, so each of them
/// reappears in exactly one later drain's input.
pub proof fn lemma_drain_defers_exactly_the_unresolved(
    st: AudioModel,
    cmds: Seq<(AudioCommands, AudioChannel)>,
    loaded: Seq<u64>,
)
    ensures
        spec_run(st, cmds, loaded).requeued == deferred_entries(cmds, loaded),
    decreases cmds.len(),
{
    if cmds.len() > 0 {
        lemma_drain_defers_exactly_the_unresolved(st, cmds.drop_last(), loaded);
        let prev = spec_run(st, cmds.drop_last(), loaded);
        let step = spec_step(prev.state, cmds.last().0, cmds.last().1, loaded);
        assert(prev.requeued + step.requeued =~= deferred_entries(cmds, loaded));
    }
}

/// Law: a `Play` whose asset never resolves is a pure retry. The step leaves
/// the whole state untouched, decides on no engine call, and puts exactly the
/// one entry back, so nothing grows anywhere but the single queue entry that
/// persists.
pub proof fn lemma_unresolved_play_is_pure_retry(
    st: AudioModel,
    settings: PlayAudioSettings,
    channel: AudioChannel,
    loaded: Seq<u64>,
)
    requires
        !loaded.contains(settings.source),
    ensures
        ({
            let o = spec_step(st, AudioCommands::Play(settings), channel, loaded);
            &&& o.state == st
            &&& o.actions == Seq::<AudioAction>::empty()
            &&& o.requeued == seq![(AudioCommands::Play(settings), channel)]
        }),
{
}

/// Law: two structurally identical `Play` requests on one channel, with the
/// asset resolved, produce at most one new registered sound and at most one
/// new playable unit (one in all, counting what was cached before), but two
/// distinct instances of that unit, and defer nothing.
pub proof fn lemma_duplicate_play_shares_unit(
    st: AudioModel,
    settings: PlayAudioSettings,
    channel: AudioChannel,
    loaded: Seq<u64>,
)
    requires
        st.wf(),
        loaded.contains(settings.source),
        st.next_instance + 2 <= u64::MAX,
    ensures
        ({
            let cmds = seq![
                (AudioCommands::Play(settings), channel),
                (AudioCommands::Play(settings), channel),
            ];
            let o = spec_run(st, cmds, loaded);
            let n = o.state.instances.len();
            &&& o.state.wf()
            &&& o.state.sounds == (if st.sounds.contains(settings.source) {
                st.sounds
            } else {
                st.sounds.push(settings.source)
            })
            &&& o.state.arrangements == (if st.arrangements.contains(settings) {
                st.arrangements
            } else {
                st.arrangements.push(settings)
            })
            &&& n == st.instances.len() + 2
            &&& o.state.instances[n - 2].settings == settings
            &&& o.state.instances[n - 1].settings == settings
            &&& o.state.instances[n - 2].id != o.state.instances[n - 1].id
            &&& o.requeued == Seq::<(AudioCommands, AudioChannel)>::empty()
            &&& (!st.sounds.contains(settings.source) && !st.arrangements.contains(settings)
                ==> o.actions == seq![
                AudioAction::RegisterSound { asset: settings.source },
                AudioAction::CreateArrangement { settings },
                AudioAction::StartInstance {
                    settings,
                    instance: st.next_instance,
                    channel,
                    params: channel_state_or_default(st.channels, channel),
                },
                AudioAction::StartInstance {
                    settings,
                    instance: (st.next_instance + 1) as u64,
                    channel,
                    params: channel_state_or_default(st.channels, channel),
                },
            ])
        }),
{
    reveal_with_fuel(spec_run, 3);
    let cmds = seq![
        (AudioCommands::Play(settings), channel),
        (AudioCommands::Play(settings), channel),
    ];
    assert(cmds.drop_last() =~= seq![(AudioCommands::Play(settings), channel)]);
    assert(cmds.last() == (AudioCommands::Play(settings), channel));
    assert(cmds.drop_last().last() == (AudioCommands::Play(settings), channel));
    assert(cmds.drop_last().drop_last() =~= Seq::<(AudioCommands, AudioChannel)>::empty());
    let o1 = spec_run(st, cmds.drop_last(), loaded);
    let s1 = spec_step(st, AudioCommands::Play(settings), channel, loaded);
    assert(o1.state == s1.state);
    if !st.sounds.contains(settings.source) {
        assert(s1.state.sounds[st.sounds.len() as int] == settings.source);
    }
    assert(s1.state.sounds.contains(settings.source));
    if !st.arrangements.contains(settings) {
        assert(s1.state.arrangements[st.arrangements.len() as int] == settings);
    }
    assert(s1.state.arrangements.contains(settings));
    crate::model::lemma_run_preserves_wf(st, cmds, loaded);
    let o = spec_run(st, cmds, loaded);
    assert(o.requeued =~= Seq::<(AudioCommands, AudioChannel)>::empty());
    if !st.sounds.contains(settings.source) && !st.arrangements.contains(settings) {
        let params = channel_state_or_default(st.channels, channel);
        assert(o.actions =~= seq![
            AudioAction::RegisterSound { asset: settings.source },
            AudioAction::CreateArrangement { settings },
            AudioAction::StartInstance { settings, instance: st.next_instance, channel, params },
            AudioAction::StartInstance {
                settings,
                instance: (st.next_instance + 1) as u64,
                channel,
                params,
            },
        ]);
    }
}

/// No instance plays on a channel none of the given instances belongs to:
/// the per-channel selection is empty and pause and resume decide on nothing.
proof fn lemma_no_instance_on_channel(s: Seq<Instance>, c: AudioChannel)
    requires
        forall|k: int| 0 <= k < s.len() ==> (#[trigger] s[k]).channel != c,
    ensures
        instances_on(s, c) == Seq::<Instance>::empty(),
        pause_actions(s, c) == Seq::<AudioAction>::empty(),
        resume_actions(s, c) == Seq::<AudioAction>::empty(),
    decreases s.len(),
{
    if s.len() > 0 {
        lemma_no_instance_on_channel(s.drop_last(), c);
    }
}

/// Law: `Stop` empties the channel's slice of the registry, and a `Pause` or
/// `Resume` that follows is a no-op: it changes nothing, decides on no engine
/// call, and defers nothing.
pub proof fn lemma_stop_then_pause_resume_are_noops(
    st: AudioModel,
    channel: AudioChannel,
    loaded: Seq<u64>,
)
    requires
        st.wf(),
    ensures
        ({
            let stopped = spec_step(st, AudioCommands::Stop, channel, loaded).state;
            let paused = spec_step(stopped, AudioCommands::Pause, channel, loaded);
            let resumed = spec_step(stopped, AudioCommands::Resume, channel, loaded);
            &&& instances_on(stopped.instances, channel) == Seq::<Instance>::empty()
            &&& paused.state == stopped
            &&& paused.actions == Seq::<AudioAction>::empty()
            &&& paused.requeued == Seq::<(AudioCommands, AudioChannel)>::empty()
            &&& resumed.state == stopped
            &&& resumed.actions == Seq::<AudioAction>::empty()
            &&& resumed.requeued == Seq::<(AudioCommands, AudioChannel)>::empty()
        }),
{
    crate::model::lemma_retain_off_wf(st.instances, channel, st.next_instance);
    let stopped = spec_step(st, AudioCommands::Stop, channel, loaded).state;
    lemma_no_instance_on_channel(stopped.instances, channel);
}

/// Looking a channel up right after a parameter change on it finds the new
/// value, on top of the old state if the channel was known and on top of the
/// defaults otherwise.
pub proof fn lemma_lookup_upsert(
    channels: Seq<(AudioChannel, ChannelState)>,
    c: AudioChannel,
    kind: ParamKind,
    value: u64,
)
    ensures
        lookup_channel(upsert_channel(channels, c, kind, value), c) == Some(
            channel_state_or_default(channels, c).with_param(kind, value),
        ),
    decreases channels.len(),
{
    let u = upsert_channel(channels, c, kind, value);
    if channels.len() == 0 {
        assert(u[0].0 == c);
        assert(channel_index(u, c) == 0);
    } else if channels[0].0 == c {
        assert(channel_index(channels, c) == 0);
        assert(u[0].0 == c);
        assert(channel_index(u, c) == 0);
    } else {
        lemma_lookup_upsert(channels.drop_first(), c, kind, value);
        crate::model::lemma_channel_index(channels, c);
        crate::model::lemma_channel_index(channels.drop_first(), c);
        let ur = upsert_channel(channels.drop_first(), c, kind, value);
        let ci = channel_index(channels, c);
        let ci_rest = channel_index(channels.drop_first(), c);
        if ci_rest < 0 {
            assert(ci == -1);
            assert(u == channels.push((c, default_channel_state().with_param(kind, value))));
            assert(u.drop_first() =~= channels.drop_first().push(
                (c, default_channel_state().with_param(kind, value)),
            ));
        } else {
            assert(ci == ci_rest + 1);
            assert forall|k: int| 0 <= k < u.len() - 1 implies u.drop_first()[k] == ur[k] by {
                assert(u.drop_first()[k] == u[k + 1]);
            }
            assert(u.drop_first() =~= ur);
        }
        assert(u[0].0 != c);
        assert(u.drop_first() =~= ur);
        let ui = channel_index(ur, c);
        crate::model::lemma_channel_index(ur, c);
        assert(ui >= 0);
        assert(channel_index(u, c) == ui + 1);
        assert(u[ui + 1] == ur[ui]);
    }
}

/// Law: a parameter command reaches every instance active on the channel
/// (retroactively), leaves every other instance untouched, and is cached on
/// the channel, so the state a later instance inherits carries the value.
pub proof fn lemma_set_parameter_retroactive(
    st: AudioModel,
    channel: AudioChannel,
    kind: ParamKind,
    value: u64,
)
    ensures
        ({
            let o = spec_step_set(st, channel, kind, value);
            &&& o.state.instances.len() == st.instances.len()
            &&& forall|k: int|
                0 <= k < st.instances.len() && st.instances[k].channel == channel ==> (
                #[trigger] o.state.instances[k]).param(kind) == value
            &&& forall|k: int|
                0 <= k < st.instances.len() && st.instances[k].channel != channel ==> (
                #[trigger] o.state.instances[k]) == st.instances[k]
            &&& channel_state_or_default(o.state.channels, channel).param(kind) == value
        }),
{
    lemma_lookup_upsert(st.channels, channel, kind, value);
}

/// Law: the instance a resolved `Play` starts inherits the channel's current
/// mixing state — the cached state when a parameter command has touched the
/// channel, the defaults otherwise.
pub proof fn lemma_play_inherits_channel_state(
    st: AudioModel,
    settings: PlayAudioSettings,
    channel: AudioChannel,
    loaded: Seq<u64>,
)
    requires
        loaded.contains(settings.source),
    ensures
        ({
            let o = spec_step_play(st, settings, channel, loaded);
            let inst = o.state.instances.last();
            &&& o.state.instances.len() == st.instances.len() + 1
            &&& o.state.instances.drop_last() == st.instances
            &&& inst.volume == channel_state_or_default(st.channels, channel).volume
            &&& inst.panning == channel_state_or_default(st.channels, channel).panning
            &&& inst.playback_rate == channel_state_or_default(st.channels, channel).playback_rate
            &&& inst.settings == settings
            &&& inst.channel == channel
            &&& inst.id == st.next_instance
        }),
{
    let o = spec_step_play(st, settings, channel, loaded);
    assert(o.state.instances.drop_last() =~= st.instances);
}

/// Law: `SetVolume(v)` on a channel followed by `Play` on the same channel,
/// drained together, leaves every instance on the channel at volume `v`: the
/// instances that played before reflect it retroactively and the new one
/// inherits it. Where the earlier instance stood relative to the volume
/// change makes no difference: `st` holds the instances started before, and
/// [`lemma_play_then_set_volume`] covers a play that comes between.
pub proof fn lemma_set_volume_then_play(
    st: AudioModel,
    v: u64,
    settings: PlayAudioSettings,
    channel: AudioChannel,
    loaded: Seq<u64>,
)
    requires
        loaded.contains(settings.source),
    ensures
        ({
            let cmds = seq![
                (AudioCommands::SetVolume(v), channel),
                (AudioCommands::Play(settings), channel),
            ];
            let o = spec_run(st, cmds, loaded);
            forall|k: int|
                0 <= k < o.state.instances.len() && (#[trigger] o.state.instances[k]).channel
                    == channel ==> o.state.instances[k].volume == v
        }),
{
    reveal_with_fuel(spec_run, 3);
    let cmds = seq![
        (AudioCommands::SetVolume(v), channel),
        (AudioCommands::Play(settings), channel),
    ];
    assert(cmds.drop_last() =~= seq![(AudioCommands::SetVolume(v), channel)]);
    assert(cmds.drop_last().drop_last() =~= Seq::<(AudioCommands, AudioChannel)>::empty());
    let s1 = spec_step_set(st, channel, ParamKind::Volume, v);
    lemma_set_parameter_retroactive(st, channel, ParamKind::Volume, v);
    lemma_play_inherits_channel_state(s1.state, settings, channel, loaded);
    let o = spec_run(st, cmds, loaded);
    assert(o.state == spec_step_play(s1.state, settings, channel, loaded).state);
    assert forall|k: int|
        0 <= k < o.state.instances.len() && (#[trigger] o.state.instances[k]).channel
            == channel implies o.state.instances[k].volume == v by {
        if k < st.instances.len() {
            assert(o.state.instances[k] == s1.state.instances[k]);
            if st.instances[k].channel == channel {
                assert(s1.state.instances[k].param(ParamKind::Volume) == v);
            } else {
                assert(s1.state.instances[k] == st.instances[k]);
            }
        } else {
            assert(o.state.instances[k] == o.state.instances.last());
        }
    }
}

/// Law: a `Play` followed by `SetVolume(v)` on the same channel, drained
/// together, also leaves every instance on the channel at volume `v`: the
/// volume change reaches the instance the play just started like any other.
pub proof fn lemma_play_then_set_volume(
    st: AudioModel,
    v: u64,
    settings: PlayAudioSettings,
    channel: AudioChannel,
    loaded: Seq<u64>,
)
    ensures
        ({
            let cmds = seq![
                (AudioCommands::Play(settings), channel),
                (AudioCommands::SetVolume(v), channel),
            ];
            let o = spec_run(st, cmds, loaded);
            forall|k: int|
                0 <= k < o.state.instances.len() && (#[trigger] o.state.instances[k]).channel
                    == channel ==> o.state.instances[k].volume == v
        }),
{
    reveal_with_fuel(spec_run, 3);
    let cmds = seq![
        (AudioCommands::Play(settings), channel),
        (AudioCommands::SetVolume(v), channel),
    ];
    assert(cmds.drop_last() =~= seq![(AudioCommands::Play(settings), channel)]);
    assert(cmds.drop_last().drop_last() =~= Seq::<(AudioCommands, AudioChannel)>::empty());
    let s1 = spec_step(st, AudioCommands::Play(settings), channel, loaded);
    lemma_set_parameter_retroactive(s1.state, channel, ParamKind::Volume, v);
    let o = spec_run(st, cmds, loaded);
    assert(o.state == spec_step_set(s1.state, channel, ParamKind::Volume, v).state);
    assert forall|k: int|
        0 <= k < o.state.instances.len() && (#[trigger] o.state.instances[k]).channel
            == channel implies o.state.instances[k].volume == v by {
        assert(o.state.instances[k].channel == s1.state.instances[k].channel);
        if s1.state.instances[k].channel == channel {
            assert(o.state.instances[k].param(ParamKind::Volume) == v);
        }
    }
}

} // verus!
