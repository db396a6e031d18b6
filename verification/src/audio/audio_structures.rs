use vstd::prelude::*;

use crate::network::connection::Enum;

verus! {

/// An error of the audio server, in a few words.
#[derive(Debug)]
pub struct PulseError(pub &'static str);

pub enum Status {
    RUNNING,
    SUSPENDED,
    IDLE,
}

pub enum Channel {
    MONO,
    STEREO,
}

/// A loudness in percent: never below 0, never above 100.
#[derive(PartialEq, Eq, Debug)]
pub struct Volume {
    value: u32,
}

/// `number`, held to the range from 0 to 100.
pub open spec fn held_to_percent(number: int) -> int {
    if number > 100 {
        100
    } else if number < 0 {
        0
    } else {
        number
    }
}

impl Volume {
    #[verifier::type_invariant]
    spec fn in_range(&self) -> bool {
        self.value <= 100
    }

    /// The loudness in percent.
    pub closed spec fn percent(&self) -> int {
        self.value as int
    }

    /// The loudness of `value` percent, where that is a percentage.
    pub fn from_i32(value: i32) -> (volume: Option<Self>)
        ensures
            0 <= value <= 100 <==> volume is Some,
            volume matches Some(made) ==> made.percent() == value,
    {
        if value < 0 {
            None
        } else if value > 100 {
            None
        } else {
            Some(Volume { value: value as u32 })
        }
    }

    /// Turns the loudness up or down by `value` percent, and stops at 0
    /// and at 100.
    pub fn add(&mut self, value: i32)
        ensures
            final(self).percent() == held_to_percent(old(self).percent() + value),
    {
        proof {
            use_type_invariant(&*self);
        }
        let temporary: i64 = self.value as i64 + value as i64;
        if temporary > 100 {
            self.value = 100;
        } else if temporary < 0 {
            self.value = 0;
        } else {
            self.value = temporary as u32;
        }
    }

    /// The loudness in percent, as a number.
    pub fn value(&self) -> (percent: u32)
        ensures
            percent == self.percent(),
            percent <= 100,
    {
        proof {
            use_type_invariant(self);
        }
        self.value
    }
}

/// The state of an audio device, as the audio server numbers it.
#[derive(Debug, Clone, Copy, PartialEq, Eq)]
pub enum DeviceState {
    Idle,
    Invalid,
    Suspended,
    Running,
}

impl Enum for DeviceState {
    /// Every number that names no other state stands for `Running`.
    open spec fn of_number(num: int) -> Self {
        if num == 0 {
            DeviceState::Idle
        } else if num == 1 {
            DeviceState::Invalid
        } else if num == 2 {
            DeviceState::Suspended
        } else {
            DeviceState::Running
        }
    }

    open spec fn number(&self) -> int {
        match self {
            DeviceState::Idle => 0,
            DeviceState::Invalid => 1,
            DeviceState::Suspended => 2,
            DeviceState::Running => 3,
        }
    }

    proof fn number_round_trip(&self) {
    }

    fn from_i32(num: i32) -> (state: Self) {
        match num {
            0 => DeviceState::Idle,
            1 => DeviceState::Invalid,
            2 => DeviceState::Suspended,
            _ => DeviceState::Running,
        }
    }

    fn to_i32(&self) -> (num: i32) {
        match self {
            DeviceState::Idle => 0,
            DeviceState::Invalid => 1,
            DeviceState::Suspended => 2,
            DeviceState::Running => 3,
        }
    }
}

impl Default for DeviceState {
    fn default() -> (state: Self)
        ensures
            state is Idle,
    {
        DeviceState::Idle
    }
}

/// The text, or `otherwise` where there is none.
pub open spec fn text_or(text: Option<String>, otherwise: Seq<char>) -> Seq<char> {
    match text {
        Some(given) => given@,
        None => otherwise,
    }
}

/// Takes the text where there is one, and `otherwise` where there is none.
pub fn given_or(text: Option<String>, otherwise: &str) -> (taken: String)
    ensures
        taken@ == text_or(text, otherwise@),
{
    match text {
        Some(given) => given,
        None => String::from_str(otherwise),
    }
}

/// The loudness of each channel of a device: as many entries of what the
/// audio server reports as the device has channels.
pub fn channel_volumes(channels: u8, volumes: &Vec<u32>) -> (volume: Vec<u32>)
    requires
        channels <= volumes@.len(),
    ensures
        volume@ == volumes@.subrange(0, channels as int),
{
    let mut volume: Vec<u32> = Vec::new();
    let mut i: usize = 0;
    while i < channels as usize
        invariant
            i <= channels,
            channels <= volumes@.len(),
            volume@ == volumes@.subrange(0, i as int),
        decreases channels - i,
    {
        volume.push(volumes[i]);
        proof {
            assert(volume@ =~= volumes@.subrange(0, i + 1));
        }
        i += 1;
    }
    volume
}

/// An audio input device.
#[derive(Debug, Clone, Default)]
pub struct Source {
    pub index: u32,
    pub name: String,
    pub alias: String,
    pub channels: u16,
    pub volume: Vec<u32>,
    pub muted: bool,
    pub active: i32,
}

/// An audio output device.
#[derive(Debug, Clone, Default)]
pub struct Sink {
    pub index: u32,
    pub name: String,
    pub alias: String,
    pub channels: u16,
    pub volume: Vec<u32>,
    pub muted: bool,
    pub active: i32,
}

/// A stream that an application plays into a sink.
#[derive(Debug, Clone, Default)]
pub struct InputStream {
    pub index: u32,
    pub name: String,
    pub application_name: String,
    pub sink_index: u32,
    pub channels: u16,
    pub volume: Vec<u32>,
    pub muted: bool,
    pub corked: bool,
}

/// A stream that an application records from a source.
#[derive(Debug, Clone, Default)]
pub struct OutputStream {
    pub index: u32,
    pub name: String,
    pub application_name: String,
    pub source_index: u32,
    pub channels: u16,
    pub volume: Vec<u32>,
    pub muted: bool,
    pub corked: bool,
}

/// A sound card and the profiles it offers.
#[derive(Debug, Clone, Default)]
pub struct Card {
    pub index: u32,
    pub name: String,
    pub profiles: Vec<CardProfile>,
    pub active_profile: String,
}

/// One profile of a sound card.
#[derive(Debug, Clone, Default)]
pub struct CardProfile {
    pub name: String,
    pub description: String,
    pub available: bool,
}

impl Source {
    /// The input device that the audio server describes. A name that the
    /// server does not give is empty.
    pub fn from_info(
        index: u32,
        name: Option<String>,
        description: Option<String>,
        channels: u8,
        volumes: &Vec<u32>,
        mute: bool,
        state: i32,
    ) -> (device: Self)
        requires
            channels <= volumes@.len(),
        ensures
            device.index == index,
            device.name@ == text_or(name, ""@),
            device.alias@ == text_or(description, ""@),
            device.channels == channels,
            device.volume@ == volumes@.subrange(0, channels as int),
            device.muted == mute,
            device.active == state,
    {
        Source {
            index,
            name: given_or(name, ""),
            alias: given_or(description, ""),
            channels: channels as u16,
            volume: channel_volumes(channels, volumes),
            muted: mute,
            active: state,
        }
    }
}

impl Sink {
    /// The output device that the audio server describes. A name that the
    /// server does not give is empty.
    pub fn from_info(
        index: u32,
        name: Option<String>,
        description: Option<String>,
        channels: u8,
        volumes: &Vec<u32>,
        mute: bool,
        state: i32,
    ) -> (device: Self)
        requires
            channels <= volumes@.len(),
        ensures
            device.index == index,
            device.name@ == text_or(name, ""@),
            device.alias@ == text_or(description, ""@),
            device.channels == channels,
            device.volume@ == volumes@.subrange(0, channels as int),
            device.muted == mute,
            device.active == state,
    {
        Sink {
            index,
            name: given_or(name, ""),
            alias: given_or(description, ""),
            channels: channels as u16,
            volume: channel_volumes(channels, volumes),
            muted: mute,
            active: state,
        }
    }
}

impl InputStream {
    /// The playing stream that the audio server describes. A name that the
    /// server does not give is empty.
    pub fn from_info(
        index: u32,
        name: Option<String>,
        application_name: Option<String>,
        sink: u32,
        channels: u8,
        volumes: &Vec<u32>,
        mute: bool,
        corked: bool,
    ) -> (stream: Self)
        requires
            channels <= volumes@.len(),
        ensures
            stream.index == index,
            stream.name@ == text_or(name, ""@),
            stream.application_name@ == text_or(application_name, ""@),
            stream.sink_index == sink,
            stream.channels == channels,
            stream.volume@ == volumes@.subrange(0, channels as int),
            stream.muted == mute,
            stream.corked == corked,
    {
        InputStream {
            index,
            name: given_or(name, ""),
            application_name: given_or(application_name, ""),
            sink_index: sink,
            channels: channels as u16,
            volume: channel_volumes(channels, volumes),
            muted: mute,
            corked,
        }
    }
}

impl OutputStream {
    /// The recording stream that the audio server describes. A name that the
    /// server does not give is empty.
    pub fn from_info(
        index: u32,
        name: Option<String>,
        application_name: Option<String>,
        source: u32,
        channels: u8,
        volumes: &Vec<u32>,
        mute: bool,
        corked: bool,
    ) -> (stream: Self)
        requires
            channels <= volumes@.len(),
        ensures
            stream.index == index,
            stream.name@ == text_or(name, ""@),
            stream.application_name@ == text_or(application_name, ""@),
            stream.source_index == source,
            stream.channels == channels,
            stream.volume@ == volumes@.subrange(0, channels as int),
            stream.muted == mute,
            stream.corked == corked,
    {
        OutputStream {
            index,
            name: given_or(name, ""),
            application_name: given_or(application_name, ""),
            source_index: source,
            channels: channels as u16,
            volume: channel_volumes(channels, volumes),
            muted: mute,
            corked,
        }
    }
}

impl Card {
    /// The sound card that the audio server describes. A card without a
    /// name is called `Unnamed`, and one without an active profile is `Off`.
    pub fn from_info(
        index: u32,
        card_name: Option<String>,
        profiles: Vec<CardProfile>,
        active_profile: Option<String>,
    ) -> (card: Self)
        ensures
            card.index == index,
            card.name@ == text_or(card_name, "Unnamed"@),
            card.profiles == profiles,
            card.active_profile@ == text_or(active_profile, "Off"@),
    {
        Card {
            index,
            name: given_or(card_name, "Unnamed"),
            profiles,
            active_profile: given_or(active_profile, "Off"),
        }
    }
}

impl CardProfile {
    /// The profile that the audio server describes. A text that the server
    /// does not give is empty.
    pub fn from_info(
        name: Option<String>,
        description: Option<String>,
        available: bool,
    ) -> (profile: Self)
        ensures
            profile.name@ == text_or(name, ""@),
            profile.description@ == text_or(description, ""@),
            profile.available == available,
    {
        CardProfile {
            name: given_or(name, ""),
            description: given_or(description, ""),
            available,
        }
    }
}

} // verus!
