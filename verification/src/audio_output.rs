//! The reconciliation engine: per-tick drain and dispatch.

use vstd::prelude::*;

use crate::audio::Audio;
use crate::audio::AudioCommands;
use crate::audio::PlayAudioSettings;
use crate::channel::AudioChannel;
use crate::model::channel_state_or_default;
use crate::model::empty_model;
use crate::model::lemma_channel_index;
use crate::model::pause_actions;
use crate::model::resume_actions;
use crate::model::retain_off_channel;
use crate::model::set_actions;
use crate::model::set_param_on_channel;
use crate::model::stop_actions;
use crate::model::upsert_channel;
use crate::model::AudioAction;
use crate::model::AudioModel;
use crate::state::ChannelState;
use crate::state::Instance;
use crate::state::ParamKind;

verus! {

/// Whether `x` occurs in `v`.
fn contains_u64(v: &Vec<u64>, x: u64) -> (r: bool)
    ensures
        r == v@.contains(x),
{
    let n = v.len();
    let mut i: usize = 0;
    while i < n
        invariant
            i <= n,
            n == v@.len(),
            forall|j: int| 0 <= j < i ==> v@[j] != x,
        decreases n - i,
    {
        if v[i] == x {
            return true;
        }
        i = i + 1;
    }
    false
}

/// The state the reconciliation engine keeps between ticks: which sounds and
/// playable units the engine already has, which instances play on which
/// channel, and the cached mixing state of each channel.
///
/// The engine itself is a collaborator: a pass returns the engine calls it
/// decided on as a sequence of [`AudioAction`] values, and the host layer
/// performs them.
pub struct AudioOutput {
    sounds: Vec<u64>,
    arrangements: Vec<PlayAudioSettings>,
    instances: Vec<Instance>,
    channels: Vec<(AudioChannel, ChannelState)>,
    next_instance: u64,
}

impl View for AudioOutput {
    type V = AudioModel;

    closed spec fn view(&self) -> AudioModel {
        AudioModel {
            sounds: self.sounds@,
            arrangements: self.arrangements@,
            instances: self.instances@,
            channels: self.channels@,
            next_instance: self.next_instance,
        }
    }
}

impl AudioOutput {
    /// A fresh engine state: nothing registered, nothing playing, no channel
    /// touched.
    pub fn new() -> (r: AudioOutput)
        ensures
            r@ == empty_model(),
            r@.wf(),
    {
        let r = AudioOutput {
            sounds: Vec::new(),
            arrangements: Vec::new(),
            instances: Vec::new(),
            channels: Vec::new(),
            next_instance: 0,
        };
        proof {
            assert(r@ =~= empty_model());
        }
        r
    }

    /// How many instances are active on `channel`.
    pub fn active_instances_on(&self, channel: AudioChannel) -> (r: usize)
        ensures
            r == crate::model::instances_on(self@.instances, channel).len(),
    {
        let mut count: usize = 0;
        let mut i: usize = 0;
        let n = self.instances.len();
        while i < n
            invariant
                i <= n,
                n == self@.instances.len(),
                count == crate::model::instances_on(self@.instances.take(i as int), channel).len(),
                count <= i,
            decreases n - i,
        {
            proof {
                assert(self@.instances.take(i as int + 1).drop_last() =~= self@.instances.take(
                    i as int,
                ));
            }
            if self.instances[i].channel == channel {
                count = count + 1;
            }
            i = i + 1;
        }
        proof {
            assert(self@.instances.take(n as int) =~= self@.instances);
        }
        count
    }

    /// How many instances are active in all.
    pub fn instance_count(&self) -> (r: usize)
        ensures
            r == self@.instances.len(),
    {
        self.instances.len()
    }

    /// The active instance at registry position `i`, oldest first.
    pub fn instance_at(&self, i: usize) -> (r: Instance)
        requires
            i < self@.instances.len(),
        ensures
            r == self@.instances[i as int],
    {
        self.instances[i]
    }

    /// The token the next started instance will get.
    pub fn next_instance_token(&self) -> (r: u64)
        ensures
            r == self@.next_instance,
    {
        self.next_instance
    }

    /// Whether the sound for `asset` has been registered with the engine.
    pub fn sound_cached(&self, asset: u64) -> (r: bool)
        ensures
            r == self@.sounds.contains(asset),
    {
        contains_u64(&self.sounds, asset)
    }

    /// Whether a playable unit has been built for this exact request.
    pub fn arrangement_cached(&self, settings: &PlayAudioSettings) -> (r: bool)
        ensures
            r == self@.arrangements.contains(*settings),
    {
        let n = self.arrangements.len();
        let mut i: usize = 0;
        while i < n
            invariant
                i <= n,
                n == self@.arrangements.len(),
                forall|j: int| 0 <= j < i ==> self@.arrangements[j] != *settings,
            decreases n - i,
        {
            if self.arrangements[i] == *settings {
                return true;
            }
            i = i + 1;
        }
        false
    }

    /// The mixing state a new instance on `channel` starts with: the cached
    /// channel state if a parameter command has touched the channel, the
    /// defaults otherwise.
    pub fn channel_state(&self, channel: AudioChannel) -> (r: ChannelState)
        ensures
            r == channel_state_or_default(self@.channels, channel),
    {
        let n = self.channels.len();
        let mut i: usize = 0;
        while i < n
            invariant
                i <= n,
                n == self@.channels.len(),
                forall|j: int| 0 <= j < i ==> self@.channels[j].0 != channel,
            decreases n - i,
        {
            if self.channels[i].0 == channel {
                proof {
                    lemma_channel_index(self@.channels, channel);
                }
                return self.channels[i].1;
            }
            i = i + 1;
        }
        proof {
            lemma_channel_index(self@.channels, channel);
        }
        ChannelState::default()
    }

    /// Stops the channel: every instance on it leaves the registry and gets a
    /// stop call; instances of other channels are untouched.
    fn stop(&mut self, channel: AudioChannel, actions: &mut Vec<AudioAction>)
        ensures
            final(self)@ == (AudioModel {
                instances: retain_off_channel(old(self)@.instances, channel),
                ..old(self)@
            }),
            final(actions)@ == old(actions)@ + stop_actions(old(self)@.instances, channel),
    {
        let ghost insts0 = self.instances@;
        let ghost actions0 = actions@;
        let n = self.instances.len();
        let mut retained: Vec<Instance> = Vec::new();
        let mut i: usize = 0;
        proof {
            assert(actions@ =~= actions0 + stop_actions(insts0.take(0), channel));
        }
        while i < n
            invariant
                i <= n,
                n == self.instances@.len(),
                self.instances@ == insts0,
                retained@ == retain_off_channel(insts0.take(i as int), channel),
                actions@ == actions0 + stop_actions(insts0.take(i as int), channel),
            decreases n - i,
        {
            proof {
                assert(insts0.take(i as int + 1).drop_last() =~= insts0.take(i as int));
            }
            let inst = self.instances[i];
            if inst.channel == channel {
                actions.push(AudioAction::StopInstance { instance: inst.id });
                proof {
                    assert(actions@ =~= actions0 + stop_actions(
                        insts0.take(i as int + 1),
                        channel,
                    ));
                }
            } else {
                retained.push(inst);
            }
            i = i + 1;
        }
        proof {
            assert(insts0.take(n as int) =~= insts0);
        }
        self.instances = retained;
    }

    /// Pauses the channel: one pause call per instance on it; nothing changes
    /// in the registry.
    fn pause(&self, channel: AudioChannel, actions: &mut Vec<AudioAction>)
        ensures
            final(actions)@ == old(actions)@ + pause_actions(self@.instances, channel),
    {
        let ghost insts0 = self.instances@;
        let ghost actions0 = actions@;
        let n = self.instances.len();
        let mut i: usize = 0;
        proof {
            assert(actions@ =~= actions0 + pause_actions(insts0.take(0), channel));
        }
        while i < n
            invariant
                i <= n,
                n == self.instances@.len(),
                self.instances@ == insts0,
                actions@ == actions0 + pause_actions(insts0.take(i as int), channel),
            decreases n - i,
        {
            proof {
                assert(insts0.take(i as int + 1).drop_last() =~= insts0.take(i as int));
            }
            let inst = self.instances[i];
            if inst.channel == channel {
                actions.push(AudioAction::PauseInstance { instance: inst.id });
                proof {
                    assert(actions@ =~= actions0 + pause_actions(
                        insts0.take(i as int + 1),
                        channel,
                    ));
                }
            }
            i = i + 1;
        }
        proof {
            assert(insts0.take(n as int) =~= insts0);
        }
    }

    /// Resumes the channel: one resume call per instance on it.
    fn resume(&self, channel: AudioChannel, actions: &mut Vec<AudioAction>)
        ensures
            final(actions)@ == old(actions)@ + resume_actions(self@.instances, channel),
    {
        let ghost insts0 = self.instances@;
        let ghost actions0 = actions@;
        let n = self.instances.len();
        let mut i: usize = 0;
        proof {
            assert(actions@ =~= actions0 + resume_actions(insts0.take(0), channel));
        }
        while i < n
            invariant
                i <= n,
                n == self.instances@.len(),
                self.instances@ == insts0,
                actions@ == actions0 + resume_actions(insts0.take(i as int), channel),
            decreases n - i,
        {
            proof {
                assert(insts0.take(i as int + 1).drop_last() =~= insts0.take(i as int));
            }
            let inst = self.instances[i];
            if inst.channel == channel {
                actions.push(AudioAction::ResumeInstance { instance: inst.id });
                proof {
                    assert(actions@ =~= actions0 + resume_actions(
                        insts0.take(i as int + 1),
                        channel,
                    ));
                }
            }
            i = i + 1;
        }
        proof {
            assert(insts0.take(n as int) =~= insts0);
        }
    }

    /// Applies one parameter change to every instance on the channel: each
    /// such instance gets an engine call and carries the new value afterwards.
    fn set_param_instances(
        &mut self,
        channel: AudioChannel,
        kind: ParamKind,
        value: u64,
        actions: &mut Vec<AudioAction>,
    )
        ensures
            final(self)@ == (AudioModel {
                instances: set_param_on_channel(old(self)@.instances, channel, kind, value),
                ..old(self)@
            }),
            final(actions)@ == old(actions)@ + set_actions(
                old(self)@.instances,
                channel,
                kind,
                value,
            ),
    {
        let ghost insts0 = self.instances@;
        let ghost actions0 = actions@;
        let n = self.instances.len();
        let mut updated: Vec<Instance> = Vec::new();
        let mut i: usize = 0;
        proof {
            assert(actions@ =~= actions0 + set_actions(insts0.take(0), channel, kind, value));
            assert(updated@ =~= set_param_on_channel(insts0.take(0), channel, kind, value));
        }
        while i < n
            invariant
                i <= n,
                n == self.instances@.len(),
                self.instances@ == insts0,
                updated@ == set_param_on_channel(insts0.take(i as int), channel, kind, value),
                actions@ == actions0 + set_actions(insts0.take(i as int), channel, kind, value),
            decreases n - i,
        {
            proof {
                assert(insts0.take(i as int + 1).drop_last() =~= insts0.take(i as int));
            }
            let inst = self.instances[i];
            if inst.channel == channel {
                updated.push(inst.apply_param(kind, value));
                actions.push(AudioAction::SetParameter { instance: inst.id, kind, value });
                proof {
                    assert(actions@ =~= actions0 + set_actions(
                        insts0.take(i as int + 1),
                        channel,
                        kind,
                        value,
                    ));
                }
            } else {
                updated.push(inst);
            }
            proof {
                assert(updated@ =~= set_param_on_channel(
                    insts0.take(i as int + 1),
                    channel,
                    kind,
                    value,
                ));
            }
            i = i + 1;
        }
        proof {
            assert(insts0.take(n as int) =~= insts0);
        }
        self.instances = updated;
    }

    /// The position of `channel` in the channel table, or the table's length
    /// if the channel has no entry.
    fn channel_position(&self, channel: AudioChannel) -> (r: usize)
        ensures
            ({
                let ci = crate::model::channel_index(self@.channels, channel);
                if ci < 0 {
                    r == self@.channels.len()
                } else {
                    r == ci
                }
            }),
    {
        let n = self.channels.len();
        let mut i: usize = 0;
        while i < n
            invariant
                i <= n,
                n == self@.channels.len(),
                forall|j: int| 0 <= j < i ==> self@.channels[j].0 != channel,
            decreases n - i,
        {
            if self.channels[i].0 == channel {
                proof {
                    lemma_channel_index(self@.channels, channel);
                }
                return i;
            }
            i = i + 1;
        }
        proof {
            lemma_channel_index(self@.channels, channel);
        }
        n
    }

    /// Updates the channel table with one parameter value, creating the entry
    /// with defaults for the other two parameters if the channel had none.
    fn upsert_channel_state(&mut self, channel: AudioChannel, kind: ParamKind, value: u64)
        ensures
            final(self)@ == (AudioModel {
                channels: upsert_channel(old(self)@.channels, channel, kind, value),
                ..old(self)@
            }),
    {
        let i = self.channel_position(channel);
        if i < self.channels.len() {
            let st = self.channels[i].1;
            self.channels[i] = (channel, st.apply_param(kind, value));
            proof {
                assert(self@ =~= (AudioModel {
                    channels: upsert_channel(old(self)@.channels, channel, kind, value),
                    ..old(self)@
                }));
            }
        } else {
            let base = ChannelState::default();
            self.channels.push((channel, base.apply_param(kind, value)));
            proof {
                lemma_channel_index(old(self)@.channels, channel);
                assert(self@ =~= (AudioModel {
                    channels: upsert_channel(old(self)@.channels, channel, kind, value),
                    ..old(self)@
                }));
            }
        }
    }

    /// Processes one parameter command: the value reaches every active
    /// instance on the channel, then the channel table is updated.
    fn set_parameter(
        &mut self,
        channel: AudioChannel,
        kind: ParamKind,
        value: u64,
        actions: &mut Vec<AudioAction>,
    )
        ensures
            final(self)@ == (AudioModel {
                instances: set_param_on_channel(old(self)@.instances, channel, kind, value),
                channels: upsert_channel(old(self)@.channels, channel, kind, value),
                ..old(self)@
            }),
            final(actions)@ == old(actions)@ + set_actions(
                old(self)@.instances,
                channel,
                kind,
                value,
            ),
    {
        self.set_param_instances(channel, kind, value, actions);
        self.upsert_channel_state(channel, kind, value);
    }

    /// Processes `SetVolume`: see [`AudioOutput::set_parameter`].
    fn set_volume(&mut self, channel: AudioChannel, volume: u64, actions: &mut Vec<AudioAction>)
        ensures
            final(self)@ == (AudioModel {
                instances: set_param_on_channel(
                    old(self)@.instances,
                    channel,
                    ParamKind::Volume,
                    volume,
                ),
                channels: upsert_channel(old(self)@.channels, channel, ParamKind::Volume, volume),
                ..old(self)@
            }),
            final(actions)@ == old(actions)@ + set_actions(
                old(self)@.instances,
                channel,
                ParamKind::Volume,
                volume,
            ),
    {
        self.set_parameter(channel, ParamKind::Volume, volume, actions);
    }

    /// Processes `SetPanning`: see [`AudioOutput::set_parameter`].
    fn set_panning(&mut self, channel: AudioChannel, panning: u64, actions: &mut Vec<AudioAction>)
        ensures
            final(self)@ == (AudioModel {
                instances: set_param_on_channel(
                    old(self)@.instances,
                    channel,
                    ParamKind::Panning,
                    panning,
                ),
                channels: upsert_channel(old(self)@.channels, channel, ParamKind::Panning, panning),
                ..old(self)@
            }),
            final(actions)@ == old(actions)@ + set_actions(
                old(self)@.instances,
                channel,
                ParamKind::Panning,
                panning,
            ),
    {
        self.set_parameter(channel, ParamKind::Panning, panning, actions);
    }

    /// Processes `SetPlaybackRate`: see [`AudioOutput::set_parameter`].
    fn set_playback_rate(
        &mut self,
        channel: AudioChannel,
        rate: u64,
        actions: &mut Vec<AudioAction>,
    )
        ensures
            final(self)@ == (AudioModel {
                instances: set_param_on_channel(
                    old(self)@.instances,
                    channel,
                    ParamKind::PlaybackRate,
                    rate,
                ),
                channels: upsert_channel(
                    old(self)@.channels,
                    channel,
                    ParamKind::PlaybackRate,
                    rate,
                ),
                ..old(self)@
            }),
            final(actions)@ == old(actions)@ + set_actions(
                old(self)@.instances,
                channel,
                ParamKind::PlaybackRate,
                rate,
            ),
    {
        self.set_parameter(channel, ParamKind::PlaybackRate, rate, actions);
    }

    /// Processes a `Play` whose asset is loaded: registers the sound unless
    /// cached, builds the playable unit unless cached, and starts a fresh
    /// instance of the unit with the channel's current mixing state.
    fn start_play(
        &mut self,
        settings: PlayAudioSettings,
        channel: AudioChannel,
        loaded: &Vec<u64>,
        actions: &mut Vec<AudioAction>,
    )
        requires
            old(self)@.next_instance < u64::MAX,
            loaded@.contains(settings.source),
        ensures
            ({
                let o = crate::model::spec_step_play(old(self)@, settings, channel, loaded@);
                &&& final(self)@ == o.state
                &&& final(actions)@ == old(actions)@ + o.actions
            }),
    {
        let sound_is_cached = self.sound_cached(settings.source);
        if !sound_is_cached {
            self.sounds.push(settings.source);
            actions.push(AudioAction::RegisterSound { asset: settings.source });
        }
        let unit_is_cached = self.arrangement_cached(&settings);
        if !unit_is_cached {
            self.arrangements.push(settings);
            actions.push(AudioAction::CreateArrangement { settings });
        }
        let params = self.channel_state(channel);
        let token = self.next_instance;
        let inst = Instance {
            id: token,
            settings,
            channel,
            volume: params.volume,
            playback_rate: params.playback_rate,
            panning: params.panning,
        };
        self.instances.push(inst);
        self.next_instance = self.next_instance + 1;
        actions.push(AudioAction::StartInstance { settings, instance: token, channel, params });
        proof {
            let o = crate::model::spec_step_play(old(self)@, settings, channel, loaded@);
            assert(self@ =~= o.state);
            assert(actions@ =~= old(actions)@ + o.actions);
        }
    }

    /// Processes one drained `(command, channel)` entry: dispatches by command
    /// kind, appends the engine calls it decided on to `actions`, and defers a
    /// `Play` whose asset is not among `loaded` back onto the queue.
    fn process_command(
        &mut self,
        cmd: AudioCommands,
        channel: AudioChannel,
        loaded: &Vec<u64>,
        actions: &mut Vec<AudioAction>,
        audio: &mut Audio,
    )
        requires
            old(self)@.next_instance < u64::MAX,
        ensures
            ({
                let o = crate::model::spec_step(old(self)@, cmd, channel, loaded@);
                &&& final(self)@ == o.state
                &&& final(actions)@ == old(actions)@ + o.actions
                &&& final(audio)@ == old(audio)@ + o.requeued
            }),
    {
        let ghost o = crate::model::spec_step(old(self)@, cmd, channel, loaded@);
        match cmd {
            AudioCommands::Play(settings) => {
                if contains_u64(loaded, settings.source) {
                    self.start_play(settings, channel, loaded, actions);
                    proof {
                        assert(audio@ =~= old(audio)@ + o.requeued);
                    }
                } else {
                    audio.push_back((AudioCommands::Play(settings), channel));
                    proof {
                        assert(actions@ =~= old(actions)@ + o.actions);
                        assert(audio@ =~= old(audio)@ + o.requeued);
                    }
                }
            },
            AudioCommands::Stop => {
                self.stop(channel, actions);
                proof {
                    assert(audio@ =~= old(audio)@ + o.requeued);
                }
            },
            AudioCommands::Pause => {
                self.pause(channel, actions);
                proof {
                    assert(audio@ =~= old(audio)@ + o.requeued);
                }
            },
            AudioCommands::Resume => {
                self.resume(channel, actions);
                proof {
                    assert(audio@ =~= old(audio)@ + o.requeued);
                }
            },
            AudioCommands::SetVolume(v) => {
                self.set_volume(channel, v, actions);
                proof {
                    assert(audio@ =~= old(audio)@ + o.requeued);
                }
            },
            AudioCommands::SetPanning(v) => {
                self.set_panning(channel, v, actions);
                proof {
                    assert(audio@ =~= old(audio)@ + o.requeued);
                }
            },
            AudioCommands::SetPlaybackRate(v) => {
                self.set_playback_rate(channel, v, actions);
                proof {
                    assert(audio@ =~= old(audio)@ + o.requeued);
                }
            },
        }
    }

    /// The reconciliation pass: drains exactly the commands present when the
    /// pass starts, processes them front to back, and returns the engine calls
    /// it decided on, in order. `loaded` holds the asset tokens whose decoded
    /// data is available this tick. A `Play` whose asset is not among them is
    /// appended back onto the queue, so it is retried by the next pass and
    /// never reprocessed within this one; afterwards the queue holds exactly
    /// the deferred entries.
    pub fn run_queued_audio_commands(
        &mut self,
        loaded: &Vec<u64>,
        audio: &mut Audio,
    ) -> (actions: Vec<AudioAction>)
        requires
            old(self)@.next_instance + old(audio)@.len() <= u64::MAX,
        ensures
            ({
                let o = crate::model::spec_run(old(self)@, old(audio)@, loaded@);
                &&& final(self)@ == o.state
                &&& actions@ == o.actions
                &&& final(audio)@ == o.requeued
            }),
            old(self)@.wf() ==> final(self)@.wf(),
    {
        proof {
            if self@.wf() {
                crate::model::lemma_run_preserves_wf(self@, audio@, loaded@);
            }
        }
        let ghost st0 = self@;
        let ghost orig = audio@;
        let n = audio.len();
        let mut actions: Vec<AudioAction> = Vec::new();
        let mut i: usize = 0;
        proof {
            assert(orig.take(0) =~= Seq::<(AudioCommands, AudioChannel)>::empty());
            assert(audio@ =~= orig.skip(0) + crate::model::spec_run(st0, orig.take(0), loaded@).requeued);
        }
        while i < n
            invariant
                i <= n,
                n == orig.len(),
                st0.next_instance + n <= u64::MAX,
                self@ == crate::model::spec_run(st0, orig.take(i as int), loaded@).state,
                actions@ == crate::model::spec_run(st0, orig.take(i as int), loaded@).actions,
                audio@ == orig.skip(i as int) + crate::model::spec_run(
                    st0,
                    orig.take(i as int),
                    loaded@,
                ).requeued,
                self@.next_instance <= st0.next_instance + i,
            decreases n - i,
        {
            let ghost prev = crate::model::spec_run(st0, orig.take(i as int), loaded@);
            proof {
                assert(audio@[0] == orig[i as int]);
            }
            let entry = audio.pop_front();
            proof {
                assert(audio@ =~= orig.skip(i as int + 1) + prev.requeued);
            }
            self.process_command(entry.0, entry.1, loaded, &mut actions, audio);
            proof {
                let stepped = crate::model::spec_step(prev.state, entry.0, entry.1, loaded@);
                assert(orig.take(i as int + 1).drop_last() =~= orig.take(i as int));
                assert(orig.take(i as int + 1).last() == orig[i as int]);
                let next = crate::model::spec_run(st0, orig.take(i as int + 1), loaded@);
                assert(next.state == stepped.state);
                assert(actions@ =~= next.actions);
                assert(audio@ =~= orig.skip(i as int + 1) + next.requeued);
            }
            i = i + 1;
        }
        proof {
            assert(orig.take(n as int) =~= orig);
            assert(orig.skip(n as int) =~= Seq::<(AudioCommands, AudioChannel)>::empty());
            assert(audio@ =~= crate::model::spec_run(st0, orig, loaded@).requeued);
        }
        actions
    }

    /// Drops one instance from the registry after the host reported that
    /// starting it failed; the failure stays isolated to that instance.
    pub fn discard_failed_instance(&mut self, instance: u64)
        ensures
            final(self)@ == (AudioModel {
                instances: crate::model::remove_instance(old(self)@.instances, instance),
                ..old(self)@
            }),
            old(self)@.wf() ==> final(self)@.wf(),
    {
        proof {
            if self@.wf() {
                crate::model::lemma_remove_instance_wf(
                    self@.instances,
                    instance,
                    self@.next_instance,
                );
            }
        }
        let ghost insts0 = self.instances@;
        let n = self.instances.len();
        let mut retained: Vec<Instance> = Vec::new();
        let mut i: usize = 0;
        proof {
            assert(retained@ =~= crate::model::remove_instance(insts0.take(0), instance));
        }
        while i < n
            invariant
                i <= n,
                n == self.instances@.len(),
                self.instances@ == insts0,
                retained@ == crate::model::remove_instance(insts0.take(i as int), instance),
            decreases n - i,
        {
            proof {
                assert(insts0.take(i as int + 1).drop_last() =~= insts0.take(i as int));
            }
            let inst = self.instances[i];
            if inst.id != instance {
                retained.push(inst);
            }
            i = i + 1;
        }
        proof {
            assert(insts0.take(n as int) =~= insts0);
        }
        self.instances = retained;
    }
}

impl Default for AudioOutput {
    /// A fresh engine state.
    fn default() -> (r: AudioOutput)
        ensures
            r@ == empty_model(),
            r@.wf(),
    {
        AudioOutput::new()
    }
}

} // verus!
