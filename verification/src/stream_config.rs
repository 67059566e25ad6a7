//! Which configuration a stream is opened with.

use vstd::prelude::*;

verus! {

/// The form in which a device delivers samples.
#[derive(Clone, Copy, Debug, PartialEq, Eq, Structural)]
pub enum SampleFormat {
    I8,
    I16,
    I24,
    I32,
    I64,
    U8,
    U16,
    U32,
    U64,
    F32,
    F64,
    Unknown,
}

impl SampleFormat {
    /// How well a format suits the capture path.
    pub open spec fn rank(self) -> int {
        match self {
            SampleFormat::F32 => 4,
            SampleFormat::I16 => 3,
            SampleFormat::I32 => 2,
            _ => 1,
        }
    }

    /// How well a format suits the capture path: single precision best, then 16 bits, then 32
    /// bits, then the rest.
    pub fn score(&self) -> (score: u8)
        ensures
            score == self.rank(),
    {
        match self {
            SampleFormat::F32 => 4,
            SampleFormat::I16 => 3,
            SampleFormat::I32 => 2,
            _ => 1,
        }
    }

    /// Samples of this form can be captured.
    pub open spec fn capturable(self) -> bool {
        self == SampleFormat::U8 || self == SampleFormat::I8 || self == SampleFormat::I16 || self
            == SampleFormat::I32 || self == SampleFormat::F32
    }

    /// Whether samples of this form can be captured.
    pub fn is_supported(&self) -> (supported: bool)
        ensures
            supported == self.capturable(),
    {
        match self {
            SampleFormat::U8
            | SampleFormat::I8
            | SampleFormat::I16
            | SampleFormat::I32
            | SampleFormat::F32 => true,
            _ => false,
        }
    }
}

/// The buffer sizes that a device offers, in frames.
#[derive(Clone, Copy, Debug, PartialEq, Eq, Structural)]
pub enum BufferSizes {
    Range { min: u32, max: u32 },
    Unknown,
}

/// A configuration that a device can be opened with.
#[derive(Clone, Copy, Debug, PartialEq, Eq, Structural)]
pub struct StreamConfig {
    pub channels: u16,
    pub sample_rate: u32,
    pub buffer_sizes: BufferSizes,
    pub sample_format: SampleFormat,
}

/// The configurations that a device offers over a range of sample rates.
#[derive(Clone, Copy, Debug, PartialEq, Eq, Structural)]
pub struct StreamConfigRange {
    pub channels: u16,
    pub min_sample_rate: u32,
    pub max_sample_rate: u32,
    pub buffer_sizes: BufferSizes,
    pub sample_format: SampleFormat,
}

impl StreamConfigRange {
    /// The range holds the rate.
    pub open spec fn offers(self, sample_rate: u32) -> bool {
        self.min_sample_rate <= sample_rate <= self.max_sample_rate
    }

    /// The configuration at a rate of the range.
    pub open spec fn at_rate(self, sample_rate: u32) -> StreamConfig {
        StreamConfig {
            channels: self.channels,
            sample_rate,
            buffer_sizes: self.buffer_sizes,
            sample_format: self.sample_format,
        }
    }

    /// The configuration at a rate of the range.
    pub fn with_sample_rate(&self, sample_rate: u32) -> (config: StreamConfig)
        requires
            self.offers(sample_rate),
        ensures
            config == self.at_rate(sample_rate),
    {
        StreamConfig {
            channels: self.channels,
            sample_rate,
            buffer_sizes: self.buffer_sizes,
            sample_format: self.sample_format,
        }
    }
}

/// Of the first `count` ranges, the one at `index` offers the rate in the best format, and is the
/// first to do so.
pub open spec fn leads(
    ranges: Seq<StreamConfigRange>,
    count: int,
    sample_rate: u32,
    index: int,
) -> bool {
    &&& 0 <= index < count
    &&& ranges[index].offers(sample_rate)
    &&& forall|other: int|
        0 <= other < count && (#[trigger] ranges[other]).offers(sample_rate)
            ==> ranges[other].sample_format.rank() <= ranges[index].sample_format.rank()
    &&& forall|other: int|
        0 <= other < index && (#[trigger] ranges[other]).offers(sample_rate)
            ==> ranges[other].sample_format.rank() < ranges[index].sample_format.rank()
}

/// None of the first `count` ranges offers the rate.
pub open spec fn none_offers(ranges: Seq<StreamConfigRange>, count: int, sample_rate: u32) -> bool {
    forall|index: int| 0 <= index < count ==> !(#[trigger] ranges[index]).offers(sample_rate)
}

/// The first range that offers the rate in the best format.
pub fn best_range(ranges: &[StreamConfigRange], sample_rate: u32) -> (best: Option<usize>)
    ensures
        best matches Some(index) ==> leads(
            ranges@,
            ranges@.len() as int,
            sample_rate,
            index as int,
        ),
        best is None ==> none_offers(ranges@, ranges@.len() as int, sample_rate),
{
    let mut best: Option<usize> = None;
    for index in 0..ranges.len()
        invariant
            best is None ==> none_offers(ranges@, index as int, sample_rate),
            best matches Some(chosen) ==> leads(ranges@, index as int, sample_rate, chosen as int),
    {
        let range: StreamConfigRange = ranges[index];
        if range.min_sample_rate <= sample_rate && range.max_sample_rate >= sample_rate {
            match best {
                None => {
                    best = Some(index);
                },
                Some(chosen) => {
                    if range.sample_format.score() > ranges[chosen].sample_format.score() {
                        best = Some(index);
                    }
                },
            }
        }
    }
    best
}

/// What a device offers, where it tells.
pub open spec fn offered(supported: Option<&[StreamConfigRange]>) -> Option<
    Seq<StreamConfigRange>,
> {
    match supported {
        Some(ranges) => Some(ranges@),
        None => None,
    }
}

/// `config` is what a device is opened with that prefers `default` and offers `ranges`, or does
/// not tell what it offers: at the preferred rate, the first of the best formats; the preferred
/// configuration where the device offers nothing at that rate.
pub open spec fn is_preferred(
    default: StreamConfig,
    ranges: Option<Seq<StreamConfigRange>>,
    config: StreamConfig,
) -> bool {
    match ranges {
        Some(ranges) => {
            ||| none_offers(ranges, ranges.len() as int, default.sample_rate) && config == default
            ||| exists|index: int|
                #[trigger] leads(ranges, ranges.len() as int, default.sample_rate, index) && config
                    == ranges[index].at_rate(default.sample_rate)
        },
        None => config == default,
    }
}

/// There is exactly one configuration that a device is opened with.
pub proof fn the_preferred_configuration_is_unique(
    default: StreamConfig,
    ranges: Option<Seq<StreamConfigRange>>,
    one: StreamConfig,
    other: StreamConfig,
)
    requires
        is_preferred(default, ranges, one),
        is_preferred(default, ranges, other),
    ensures
        one == other,
        one.sample_rate == default.sample_rate,
{
    if let Some(ranges) = ranges {
        let count = ranges.len() as int;
        assert forall|i: int, j: int|
            leads(ranges, count, default.sample_rate, i) && leads(
                ranges,
                count,
                default.sample_rate,
                j,
            ) implies i == j by {
            assert(ranges[i].offers(default.sample_rate));
            assert(ranges[j].offers(default.sample_rate));
        }
    }
}

/// The selected channel where the device has it.
pub open spec fn usable_channel(selected: Option<usize>, channels: usize) -> Option<usize> {
    match selected {
        Some(index) if index < channels => Some(index),
        _ => None,
    }
}

/// The channel to capture: the selected one where the device has it. Without one, all channels
/// are averaged.
pub fn effective_channel(selected: Option<usize>, channels: usize) -> (channel: Option<usize>)
    ensures
        channel == usable_channel(selected, channels),
{
    match selected {
        Some(index) => if index < channels {
            Some(index)
        } else {
            None
        },
        None => None,
    }
}

/// The distance of two numbers.
pub open spec fn distance(one: int, other: int) -> int {
    if one <= other {
        other - one
    } else {
        one - other
    }
}

/// `size` is an analysis window to choose from.
pub open spec fn is_window_size(size: int) -> bool {
    size == 256 || size == 512 || size == 1024 || size == 2048
}

/// A thirtieth of a second of samples, rounded to the nearest whole number, halves upwards.
pub open spec fn window_target(sample_rate: u32) -> int {
    (sample_rate + 15) / 30
}

/// Of the sizes to choose from, `size` is the one nearest to a thirtieth of a second, and of two
/// equally near the smaller.
pub open spec fn is_nearest_window(sample_rate: u32, size: int) -> bool {
    &&& is_window_size(size)
    &&& forall|other: int|
        #![trigger is_window_size(other)]
        is_window_size(other) ==> distance(size, window_target(sample_rate)) <= distance(
            other,
            window_target(sample_rate),
        )
    &&& forall|other: int|
        #![trigger is_window_size(other)]
        is_window_size(other) && other < size ==> distance(size, window_target(sample_rate))
            < distance(other, window_target(sample_rate))
}

/// The analysis window of the level meter: of the sizes to choose from the one nearest to a
/// thirtieth of a second, and of two equally near the smaller.
pub fn window_size(sample_rate: u32) -> (size: usize)
    ensures
        is_nearest_window(sample_rate, size as int),
{
    let target: u64 = (sample_rate as u64 + 15) / 30;
    if target <= 384 {
        256
    } else if target <= 768 {
        512
    } else if target <= 1536 {
        1024
    } else {
        2048
    }
}

/// The audio system to use.
#[derive(Clone, Copy, Debug, PartialEq, Eq, Structural)]
pub enum AudioHost {
    PipeWire,
    Alsa,
    Default,
}

/// The audio system to use, by which of them can be had.
pub open spec fn chosen_host(linux: bool, pipewire: bool, alsa: bool) -> AudioHost {
    if linux && pipewire {
        AudioHost::PipeWire
    } else if linux && alsa {
        AudioHost::Alsa
    } else {
        AudioHost::Default
    }
}

/// The audio system to use, by which of them can be had: on Linux PipeWire before ALSA, and
/// elsewhere, or where neither can, the platform's own.
pub fn get_cpal_host(linux: bool, pipewire: bool, alsa: bool) -> (host: AudioHost)
    ensures
        host == chosen_host(linux, pipewire, alsa),
{
    if !linux {
        AudioHost::Default
    } else if pipewire {
        AudioHost::PipeWire
    } else if alsa {
        AudioHost::Alsa
    } else {
        AudioHost::Default
    }
}

/// The configuration that the last opened device accepted, under the device's name. Asking the
/// device again takes time that a recording would begin late by.
#[derive(Debug)]
pub struct ConfigCache {
    pub entry: Option<(String, StreamConfig)>,
}

impl View for ConfigCache {
    type V = Option<(Seq<char>, StreamConfig)>;

    open spec fn view(&self) -> Self::V {
        match self.entry {
            Some((name, config)) => Some((name@, config)),
            None => None,
        }
    }
}

impl ConfigCache {
    /// A cache that holds nothing.
    pub fn new() -> (cache: Self)
        ensures
            cache@ is None,
    {
        ConfigCache { entry: None }
    }

    /// What the cache gives for a device. A device without a name has no entry.
    pub open spec fn found(self, device_name: Seq<char>) -> Option<StreamConfig> {
        match self@ {
            Some((name, config)) if name == device_name && device_name.len() > 0 => Some(config),
            _ => None,
        }
    }

    /// The configuration that the device accepted last time.
    pub fn lookup(&self, device_name: &String) -> (config: Option<StreamConfig>)
        ensures
            config == self.found(device_name@),
    {
        match &self.entry {
            Some((name, config)) => if !device_name.as_str().is_empty() && *name == *device_name {
                Some(*config)
            } else {
                None
            },
            None => None,
        }
    }

    /// Remembers the configuration that a device has accepted, unless it came from here.
    pub fn remember(&mut self, device_name: String, config: StreamConfig, was_cached: bool)
        ensures
            final(self)@ == if !was_cached && device_name@.len() > 0 {
                Some((device_name@, config))
            } else {
                old(self)@
            },
    {
        if !was_cached && !device_name.as_str().is_empty() {
            self.entry = Some((device_name, config));
        }
    }

    /// The cache after an attempt to open a recorder. One that failed leaves nothing behind.
    pub open spec fn settled(cache: Option<(Seq<char>, StreamConfig)>, opened: bool) -> Option<
        (Seq<char>, StreamConfig),
    > {
        if opened {
            cache
        } else {
            None
        }
    }

    /// Takes note of an attempt to open a recorder: whenever one fails, for whatever reason, the
    /// next one asks the device again.
    pub fn settle(&mut self, opened: bool)
        ensures
            final(self)@ == Self::settled(old(self)@, opened),
    {
        if !opened {
            self.forget();
        }
    }

    /// Forgets the configuration: a device that could not be opened may have changed.
    pub fn forget(&mut self)
        ensures
            final(self)@ is None,
    {
        self.entry = None;
    }
}

/// What a device accepted is found under its name, and under no other.
pub proof fn a_remembered_configuration_is_found(
    cache: ConfigCache,
    name: Seq<char>,
    config: StreamConfig,
    asked: Seq<char>,
)
    requires
        name.len() > 0,
        cache@ == Some((name, config)),
    ensures
        asked == name ==> cache.found(asked) == Some(config),
        asked != name ==> cache.found(asked) is None,
{
}

/// `one` is preferred to `other`: single precision to anything else, then 16 bits, then 32 bits.
pub open spec fn preferred_format(one: SampleFormat, other: SampleFormat) -> bool {
    ||| one == SampleFormat::F32 && other != SampleFormat::F32
    ||| one == SampleFormat::I16 && other != SampleFormat::F32 && other != SampleFormat::I16
    ||| one == SampleFormat::I32 && other != SampleFormat::F32 && other != SampleFormat::I16
        && other != SampleFormat::I32
}

/// A device that offers its default rate is opened with one of its own offers at that rate, in a
/// format to which no other offer at the rate is preferred, and which is preferred to that of
/// every earlier one. A device that offers nothing there, or does not tell, is opened with its
/// default.
pub proof fn the_best_offer_at_the_default_rate_is_taken(
    default: StreamConfig,
    ranges: Seq<StreamConfigRange>,
    config: StreamConfig,
    offer: int,
)
    requires
        is_preferred(default, Some(ranges), config),
        0 <= offer < ranges.len(),
        ranges[offer].min_sample_rate <= default.sample_rate <= ranges[offer].max_sample_rate,
    ensures
        config.sample_rate == default.sample_rate,
        !preferred_format(ranges[offer].sample_format, config.sample_format),
        exists|taken: int|
            {
                &&& 0 <= taken < ranges.len()
                &&& (#[trigger] ranges[taken]).min_sample_rate <= default.sample_rate
                    <= ranges[taken].max_sample_rate
                &&& config.channels == ranges[taken].channels
                &&& config.buffer_sizes == ranges[taken].buffer_sizes
                &&& config.sample_format == ranges[taken].sample_format
                &&& offer < taken ==> preferred_format(
                    config.sample_format,
                    ranges[offer].sample_format,
                )
            },
{
    assert(ranges[offer].offers(default.sample_rate));
    let taken = choose|taken: int|
        #[trigger] leads(ranges, ranges.len() as int, default.sample_rate, taken) && config
            == ranges[taken].at_rate(default.sample_rate);
    assert(ranges[taken].offers(default.sample_rate));
}

/// Where no offer holds the default rate, or the device does not tell, the default is taken.
pub proof fn the_default_is_the_last_resort(
    default: StreamConfig,
    ranges: Seq<StreamConfigRange>,
    config: StreamConfig,
)
    requires
        is_preferred(default, Some(ranges), config) || is_preferred(default, None, config),
        forall|offer: int|
            0 <= offer < ranges.len() ==> !((#[trigger] ranges[offer]).min_sample_rate
                <= default.sample_rate <= ranges[offer].max_sample_rate),
    ensures
        config == default,
{
}

/// What a device tells is taken as it tells it.
pub proof fn offers_are_taken_as_told(ranges: &[StreamConfigRange])
    ensures
        offered(Some(ranges)) == Some(ranges@),
        offered(None) is None,
{
}

/// The formats that can be captured.
pub proof fn five_formats_can_be_captured(format: SampleFormat)
    ensures
        format.capturable() <==> {
            ||| format == SampleFormat::U8
            ||| format == SampleFormat::I8
            ||| format == SampleFormat::I16
            ||| format == SampleFormat::I32
            ||| format == SampleFormat::F32
        },
{
}

/// The scores put the formats in the order of preference.
pub proof fn scores_follow_the_preference(one: SampleFormat, other: SampleFormat)
    ensures
        one.rank() > other.rank() <==> preferred_format(one, other),
        1 <= one.rank() <= 4,
{
}

/// A range at one of its rates keeps everything but the rate.
pub proof fn a_range_at_a_rate_keeps_the_rest(range: StreamConfigRange, sample_rate: u32)
    ensures
        range.offers(sample_rate) <==> range.min_sample_rate <= sample_rate
            <= range.max_sample_rate,
        ({
            let config = range.at_rate(sample_rate);
            &&& config.sample_rate == sample_rate
            &&& config.channels == range.channels
            &&& config.buffer_sizes == range.buffer_sizes
            &&& config.sample_format == range.sample_format
        }),
{
}

/// A selected channel is used exactly where the device has it, and never another one.
pub proof fn the_selected_channel_or_none(selected: Option<usize>, channels: usize)
    ensures
        usable_channel(selected, channels) is Some <==> selected is Some && selected->0 < channels,
        usable_channel(selected, channels) is Some ==> usable_channel(selected, channels)
            == selected,
{
}

/// The target of the window is the whole number nearest to a thirtieth of the rate, the upper one
/// of two; the sizes to choose from are four powers of two, and their distances are absolute.
pub proof fn the_window_is_measured_rightly(sample_rate: u32, one: int, other: int)
    ensures
        sample_rate - 15 < 30 * window_target(sample_rate) <= sample_rate + 15,
        is_window_size(one) <==> one == 256 || one == 512 || one == 1024 || one == 2048,
        distance(one, other) >= 0,
        distance(one, other) == one - other || distance(one, other) == other - one,
{
}

/// What is found for a device is what is remembered under its very name; a device without a name
/// has nothing remembered.
pub proof fn only_the_device_itself_is_found(cache: ConfigCache, device_name: Seq<char>)
    ensures
        cache.entry is None ==> cache.found(device_name) is None,
        device_name.len() == 0 ==> cache.found(device_name) is None,
        cache.entry is Some && device_name.len() > 0 ==> cache.found(device_name) == if (
        cache.entry->0).0@ == device_name {
            Some((cache.entry->0).1)
        } else {
            None
        },
{
}

/// A failed attempt leaves nothing remembered, and a success leaves what is.
pub proof fn failures_forget(cache: Option<(Seq<char>, StreamConfig)>)
    ensures
        ConfigCache::settled(cache, false) is None,
        ConfigCache::settled(cache, true) == cache,
{
}

/// Where one window gives way to the next: there is exactly one nearest window at each rate, and
/// it grows with the rate.
pub proof fn windows_grow_with_the_rate(sample_rate: u32, size: int)
    requires
        is_nearest_window(sample_rate, size),
    ensures
        size == 256 <==> sample_rate < 11_535,
        size == 512 <==> 11_535 <= sample_rate < 23_055,
        size == 1024 <==> 23_055 <= sample_rate < 46_095,
        size == 2048 <==> 46_095 <= sample_rate,
{
    assert(is_window_size(256) && is_window_size(512) && is_window_size(1024) && is_window_size(
        2048,
    ));
}

/// PipeWire is used wherever Linux has it, ALSA only where Linux has no PipeWire, and another
/// platform never uses either.
pub proof fn linux_prefers_pipewire(linux: bool, pipewire: bool, alsa: bool)
    ensures
        chosen_host(linux, pipewire, alsa) == AudioHost::PipeWire <==> linux && pipewire,
        chosen_host(linux, pipewire, alsa) == AudioHost::Alsa <==> linux && alsa && !pipewire,
        chosen_host(linux, pipewire, alsa) == AudioHost::Default <==> !linux || !pipewire && !alsa,
{
}

} // verus!
