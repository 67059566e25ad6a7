//! How a stream is brought up for a device.
//!
//! Every step outside, such as a question to the device, is named by an [`InitPhase`];
//! [`StreamInit::step`] takes its outcome as an [`InitEvent`] and decides how to go on.

use vstd::prelude::*;

use crate::error::InitStage;
use crate::stream_config::{effective_channel, ConfigCache, StreamConfig};
#[allow(unused_imports)]
use crate::stream_config::usable_channel;

verus! {

/// What is needed next.
#[derive(Clone, Copy, Debug, PartialEq, Eq, Structural)]
pub enum InitPhase {
    /// The configuration that the device is to be opened with.
    Fetch,
    /// The name of a sample format that cannot be captured.
    NameFormat,
    /// The input stream, built for a configuration. Without a channel all are averaged.
    Build { config: StreamConfig, channel: Option<usize>, cached: bool },
    /// The stream, playing.
    Play { config: StreamConfig, cached: bool },
    /// Nothing: the stream is up.
    Up { config: StreamConfig },
    /// Nothing: the stream could not be brought up.
    Failed,
}

/// The outcome of what was needed. Errors carry the backend's own words.
#[derive(Debug)]
pub enum InitEvent {
    Config(Result<StreamConfig, String>),
    FormatName(String),
    Built(Result<(), String>),
    Playing(Result<(), String>),
}

/// The characters of a failure's message.
pub open spec fn text_of(failure: Option<String>) -> Option<Seq<char>> {
    match failure {
        Some(message) => Some(message@),
        None => None,
    }
}

impl InitPhase {
    /// What a known configuration leads to.
    pub open spec fn planned(
        config: StreamConfig,
        selected_channel: Option<usize>,
        cached: bool,
    ) -> Self {
        if config.sample_format.capturable() {
            InitPhase::Build {
                config,
                channel: usable_channel(selected_channel, config.channels as usize),
                cached,
            }
        } else {
            InitPhase::NameFormat
        }
    }

    /// What comes first. A configuration that the device accepted before is not asked for again.
    pub open spec fn first(found: Option<StreamConfig>, selected_channel: Option<usize>) -> Self {
        match found {
            Some(config) => Self::planned(config, selected_channel, true),
            None => InitPhase::Fetch,
        }
    }

    /// The end of an opening, and the report of it.
    pub open spec fn given_up(stage: InitStage, detail: Seq<char>) -> (Self, Option<Seq<char>>) {
        (InitPhase::Failed, Some(stage.prefix_text() + detail))
    }

    /// What an outcome leads to, and the report of a failure. An outcome that was not needed
    /// changes nothing.
    pub open spec fn next(self, selected_channel: Option<usize>, event: InitEvent) -> (
        Self,
        Option<Seq<char>>,
    ) {
        match (self, event) {
            (InitPhase::Fetch, InitEvent::Config(Ok(config))) => (
                Self::planned(config, selected_channel, false),
                None,
            ),
            (InitPhase::Fetch, InitEvent::Config(Err(error))) => Self::given_up(
                InitStage::Config,
                error@,
            ),
            (InitPhase::NameFormat, InitEvent::FormatName(name)) => Self::given_up(
                InitStage::Format,
                name@,
            ),
            (InitPhase::Build { config, cached, .. }, InitEvent::Built(Ok(_))) => (
                InitPhase::Play { config, cached },
                None,
            ),
            (InitPhase::Build { .. }, InitEvent::Built(Err(error))) => Self::given_up(
                InitStage::Build,
                error@,
            ),
            (InitPhase::Play { config, .. }, InitEvent::Playing(Ok(_))) => (
                InitPhase::Up { config },
                None,
            ),
            (InitPhase::Play { .. }, InitEvent::Playing(Err(error))) => Self::given_up(
                InitStage::Play,
                error@,
            ),
            _ => (self, None),
        }
    }

    /// The cache after an outcome. A configuration that a device with a name has accepted is
    /// remembered, unless it came from the cache; a failure forgets whatever is there, since the
    /// device may have changed.
    pub open spec fn cache_after(
        self,
        selected_channel: Option<usize>,
        event: InitEvent,
        device_name: Seq<char>,
        cache: Option<(Seq<char>, StreamConfig)>,
    ) -> Option<(Seq<char>, StreamConfig)> {
        let (after, failure) = self.next(selected_channel, event);
        if failure is Some {
            None
        } else {
            match self {
                InitPhase::Play { config, cached } if after is Up && !cached && device_name.len()
                    > 0 => Some((device_name, config)),
                _ => cache,
            }
        }
    }
}

/// An opening under way.
#[derive(Debug)]
pub struct StreamInit {
    /// The name of the device; empty where it has none.
    pub device_name: String,
    /// The input channel to use, where one is selected.
    pub selected_channel: Option<usize>,
    pub phase: InitPhase,
}

impl StreamInit {
    /// Begins to bring up a stream.
    pub fn begin(
        cache: &ConfigCache,
        device_name: String,
        selected_channel: Option<usize>,
    ) -> (init: Self)
        ensures
            init.device_name == device_name,
            init.selected_channel == selected_channel,
            init.phase == InitPhase::first(cache.found(device_name@), selected_channel),
    {
        let phase: InitPhase = match cache.lookup(&device_name) {
            Some(config) => Self::plan(config, selected_channel, true),
            None => InitPhase::Fetch,
        };
        StreamInit { device_name, selected_channel, phase }
    }

    /// What a known configuration leads to.
    fn plan(config: StreamConfig, selected_channel: Option<usize>, cached: bool) -> (phase:
        InitPhase)
        ensures
            phase == InitPhase::planned(config, selected_channel, cached),
    {
        if config.sample_format.is_supported() {
            let channel: Option<usize> = effective_channel(
                selected_channel,
                config.channels as usize,
            );
            InitPhase::Build { config, channel, cached }
        } else {
            InitPhase::NameFormat
        }
    }

    /// Takes the outcome of what was needed. Returns the report of a failure.
    pub fn step(&mut self, event: InitEvent, cache: &mut ConfigCache) -> (failure: Option<String>)
        ensures
            (final(self).phase, text_of(failure)) == old(self).phase.next(
                old(self).selected_channel,
                event,
            ),
            final(self).device_name == old(self).device_name,
            final(self).selected_channel == old(self).selected_channel,
            final(cache)@ == old(self).phase.cache_after(
                old(self).selected_channel,
                event,
                old(self).device_name@,
                old(cache)@,
            ),
    {
        match (self.phase, event) {
            (InitPhase::Fetch, InitEvent::Config(Ok(config))) => {
                self.phase = Self::plan(config, self.selected_channel, false);
                None
            },
            (InitPhase::Fetch, InitEvent::Config(Err(error))) => Some(
                self.give_up(InitStage::Config, &error, cache),
            ),
            (InitPhase::NameFormat, InitEvent::FormatName(name)) => Some(
                self.give_up(InitStage::Format, &name, cache),
            ),
            (InitPhase::Build { config, cached, .. }, InitEvent::Built(Ok(_))) => {
                self.phase = InitPhase::Play { config, cached };
                None
            },
            (InitPhase::Build { .. }, InitEvent::Built(Err(error))) => Some(
                self.give_up(InitStage::Build, &error, cache),
            ),
            (InitPhase::Play { config, cached }, InitEvent::Playing(Ok(_))) => {
                cache.remember(self.device_name.clone(), config, cached);
                self.phase = InitPhase::Up { config };
                None
            },
            (InitPhase::Play { .. }, InitEvent::Playing(Err(error))) => Some(
                self.give_up(InitStage::Play, &error, cache),
            ),
            _ => None,
        }
    }

    /// Ends an opening that failed.
    fn give_up(&mut self, stage: InitStage, detail: &String, cache: &mut ConfigCache) -> (message:
        String)
        ensures
            (final(self).phase, Some(message@)) == InitPhase::given_up(stage, detail@),
            final(self).device_name == old(self).device_name,
            final(self).selected_channel == old(self).selected_channel,
            final(cache)@ is None,
    {
        cache.forget();
        self.phase = InitPhase::Failed;
        stage.report(detail.as_str())
    }
}

/// A device that accepted a configuration is opened with it the next time, without being asked;
/// a device of another name is asked.
pub proof fn an_accepted_configuration_is_not_asked_for_again(
    phase: InitPhase,
    selected_channel: Option<usize>,
    event: InitEvent,
    device_name: Seq<char>,
    before: ConfigCache,
    after: ConfigCache,
    other_name: Seq<char>,
)
    requires
        phase matches InitPhase::Play { cached, .. } && !cached,
        device_name.len() > 0,
        phase.next(selected_channel, event).0 is Up,
        after@ == phase.cache_after(selected_channel, event, device_name, before@),
    ensures
        phase.next(selected_channel, event).0 matches InitPhase::Up { config } && after.found(
            device_name,
        ) == Some(config),
        InitPhase::first(after.found(device_name), selected_channel) != InitPhase::Fetch,
        other_name != device_name ==> InitPhase::first(after.found(other_name), selected_channel)
            == InitPhase::Fetch,
{
}

/// After a failure the device is asked anew, so that a configuration that went stale is not
/// tried twice.
pub proof fn a_failed_opening_asks_the_device_anew(
    phase: InitPhase,
    selected_channel: Option<usize>,
    event: InitEvent,
    device_name: Seq<char>,
    before: ConfigCache,
    after: ConfigCache,
    next_name: Seq<char>,
    next_channel: Option<usize>,
)
    requires
        phase.next(selected_channel, event).1 is Some,
        after@ == phase.cache_after(selected_channel, event, device_name, before@),
    ensures
        phase.next(selected_channel, event).0 == InitPhase::Failed,
        InitPhase::first(after.found(next_name), next_channel) == InitPhase::Fetch,
{
}

/// After an attempt to open a recorder that failed at any point, before or behind the steps here,
/// the device is asked anew, whatever was remembered and whichever device comes next.
pub proof fn every_failed_open_asks_the_device_anew(
    before: ConfigCache,
    after: ConfigCache,
    next_name: Seq<char>,
    next_channel: Option<usize>,
)
    requires
        after@ == ConfigCache::settled(before@, false),
    ensures
        after@ is None,
        InitPhase::first(after.found(next_name), next_channel) == InitPhase::Fetch,
{
}

/// A stream whose every step succeeds comes up with the configuration that was planned, cached or
/// not; nothing else than a success of each step brings it up.
pub proof fn a_stream_comes_up_step_by_step(
    phase: InitPhase,
    selected_channel: Option<usize>,
    event: InitEvent,
)
    ensures
        phase matches InitPhase::Build { config, channel, cached } ==> {
            let built = phase.next(selected_channel, InitEvent::Built(Ok(()))).0;
            &&& built == (InitPhase::Play { config, cached })
            &&& built.next(selected_channel, InitEvent::Playing(Ok(()))).0 == (InitPhase::Up {
                config,
            })
        },
        phase.next(selected_channel, event).0 is Up && !(phase is Up) ==> phase is Play
            && event is Playing,
        phase.next(selected_channel, event).0 is Play && !(phase is Play) ==> phase is Build
            && event is Built,
        phase.next(selected_channel, event).0 is Build && !(phase is Build) ==> phase is Fetch
            && event is Config,
        phase.next(selected_channel, event).1 is Some <==> phase.next(selected_channel, event).0
            is Failed && !(phase is Failed),
{
}

/// A stream is built for the selected channel where its configuration has that channel, and for
/// the average of all channels otherwise; it makes no difference whether the configuration came
/// from the cache or from the device.
pub proof fn a_stream_is_built_for_the_selected_channel(
    config: StreamConfig,
    selected_channel: Option<usize>,
    phase: InitPhase,
    found: Option<StreamConfig>,
    event: InitEvent,
)
    ensures
        ({
            let cached = InitPhase::first(Some(config), selected_channel);
            let fetched = InitPhase::Fetch.next(selected_channel, InitEvent::Config(Ok(config))).0;
            &&& cached is Build <==> fetched is Build
            &&& cached matches InitPhase::Build { channel, .. } ==> fetched->Build_channel == channel
            &&& cached is Build ==> cached->Build_cached && !fetched->Build_cached
            &&& cached is Build ==> cached->Build_config == config && fetched->Build_config
                == config
        }),
        InitPhase::first(found, selected_channel) matches InitPhase::Build {
            config: built,
            channel,
            ..
        } ==> match selected_channel {
            Some(index) => channel == if index < built.channels {
                Some(index)
            } else {
                None
            },
            None => channel is None,
        },
        phase.next(selected_channel, event).0 matches InitPhase::Build {
            config: built,
            channel,
            ..
        } ==> phase is Build || match selected_channel {
            Some(index) => channel == if index < built.channels {
                Some(index)
            } else {
                None
            },
            None => channel is None,
        },
{
}

/// The device is asked exactly where nothing is remembered for it. A configuration is built for
/// if samples of its format can be captured, and refused otherwise.
pub proof fn a_configuration_is_built_for_or_refused(
    found: Option<StreamConfig>,
    selected_channel: Option<usize>,
    config: StreamConfig,
)
    ensures
        InitPhase::first(found, selected_channel) == InitPhase::Fetch <==> found is None,
        found matches Some(known) ==> (InitPhase::first(found, selected_channel) is Build <==> (
        known.sample_format is U8 || known.sample_format is I8 || known.sample_format is I16
            || known.sample_format is I32 || known.sample_format is F32)),
        found is Some && !(InitPhase::first(found, selected_channel) is Build) ==> InitPhase::first(
            found,
            selected_channel,
        ) == InitPhase::NameFormat,
        ({
            let next = InitPhase::Fetch.next(selected_channel, InitEvent::Config(Ok(config)));
            &&& next.1 is None
            &&& next.0 is Build || next.0 is NameFormat
            &&& next.0 is Build <==> (config.sample_format is U8 || config.sample_format is I8
                || config.sample_format is I16 || config.sample_format is I32
                || config.sample_format is F32)
        }),
{
}

/// Every step that fails ends the opening, and its report names the step and repeats the words of
/// the backend; an outcome that is not awaited changes nothing.
pub proof fn a_failure_names_its_step(
    phase: InitPhase,
    selected_channel: Option<usize>,
    words: String,
    event: InitEvent,
)
    ensures
        phase is Fetch ==> phase.next(selected_channel, InitEvent::Config(Err(words))) == (
            InitPhase::Failed,
            Some("Failed to fetch preferred config: "@ + words@),
        ),
        phase is NameFormat ==> phase.next(selected_channel, InitEvent::FormatName(words)) == (
            InitPhase::Failed,
            Some("Unsupported sample format: "@ + words@),
        ),
        phase is Build ==> phase.next(selected_channel, InitEvent::Built(Err(words))) == (
            InitPhase::Failed,
            Some("Failed to build input stream: "@ + words@),
        ),
        phase is Play ==> phase.next(selected_channel, InitEvent::Playing(Err(words))) == (
            InitPhase::Failed,
            Some("Failed to start microphone stream: "@ + words@),
        ),
        !(phase is Fetch && event is Config || phase is NameFormat && event is FormatName || phase
            is Build && event is Built || phase is Play && event is Playing) ==> phase.next(
            selected_channel,
            event,
        ) == (phase, None::<Seq<char>>),
        text_of(Some(words)) == Some(words@),
        text_of(None) is None,
{
}

/// Only a stream that has come up is remembered, under the name of its device and with the very
/// configuration it came up with, and only if that was not remembered already; a failure clears
/// the cache, and nothing else touches it.
pub proof fn only_what_came_up_is_remembered(
    phase: InitPhase,
    selected_channel: Option<usize>,
    event: InitEvent,
    device_name: Seq<char>,
    cache: Option<(Seq<char>, StreamConfig)>,
)
    ensures
        ({
            let (next, failure) = phase.next(selected_channel, event);
            let after = phase.cache_after(selected_channel, event, device_name, cache);
            let came_up = next is Up && phase is Play;
            &&& failure is Some ==> after is None
            &&& failure is None && !came_up ==> after == cache
            &&& came_up && phase->Play_cached ==> after == cache
            &&& came_up && !phase->Play_cached && device_name.len() == 0 ==> after == cache
            &&& came_up && !phase->Play_cached && device_name.len() > 0 ==> after == Some(
                (device_name, next->Up_config),
            )
            &&& came_up ==> next->Up_config == phase->Play_config
        }),
{
}

} // verus!
