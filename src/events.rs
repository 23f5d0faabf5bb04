use vstd::prelude::*;

use crate::playback::PlaybackEvent;
use crate::tracks::{partition_tracks, text_is, Track, is_audio, is_subtitle};

verus! {

/// The form in which the engine reports an observed property.
#[derive(Clone, Copy, Debug, PartialEq, Eq, Structural)]
pub enum ValueFormat {
    Flag,
    Text,
    Int64,
    Double,
}

/// A property value as the engine reports it. A floating-point value is
/// carried as its IEEE 754 bit pattern; it is passed on, never read.
#[derive(Debug)]
pub enum PropertyValue {
    Flag(bool),
    Text(String),
    Int64(i64),
    Double(u64),
    /// A form that no subscription asks for.
    Unsupported,
}

/// An event taken from the engine's own event queue.
#[derive(Debug)]
pub enum EngineEvent {
    /// A file has been loaded and playback can start.
    FileLoaded,
    /// Playback of a file ended, with the engine's reason code.
    EndFile(u32),
    /// An observed property changed; `reply_id` is the subscription's tag.
    PropertyChange { name: String, reply_id: u64, value: PropertyValue },
    /// Any other event.
    Other,
}

/// A topic on which the user interface is notified.
#[derive(Clone, Copy, Debug, PartialEq, Eq, Structural)]
pub enum Topic {
    Pause,
    PlaybackTime,
    Duration,
    AudioList,
    SubtitleList,
    ActiveAudio,
    ActiveSubtitle,
    Speed,
    CacheTime,
    BufferingState,
    PausedForCache,
    EndOfFile,
    FileLoaded,
}

/// The name under which the user interface listens to a topic.
pub open spec fn topic_name(t: Topic) -> Seq<char> {
    match t {
        Topic::Pause => "pause"@,
        Topic::PlaybackTime => "playback-time"@,
        Topic::Duration => "duration"@,
        Topic::AudioList => "audio-list"@,
        Topic::SubtitleList => "subtitle-list"@,
        Topic::ActiveAudio => "aid"@,
        Topic::ActiveSubtitle => "sid"@,
        Topic::Speed => "speed"@,
        Topic::CacheTime => "cache-time"@,
        Topic::BufferingState => "buffering-state"@,
        Topic::PausedForCache => "paused-for-cache"@,
        Topic::EndOfFile => "end-of-file"@,
        Topic::FileLoaded => "file-loaded"@,
    }
}

impl Topic {
    /// The name under which the user interface listens to this topic.
    pub fn name(&self) -> (r: &'static str)
        ensures
            r@ == topic_name(*self),
    {
        match self {
            Topic::Pause => "pause",
            Topic::PlaybackTime => "playback-time",
            Topic::Duration => "duration",
            Topic::AudioList => "audio-list",
            Topic::SubtitleList => "subtitle-list",
            Topic::ActiveAudio => "aid",
            Topic::ActiveSubtitle => "sid",
            Topic::Speed => "speed",
            Topic::CacheTime => "cache-time",
            Topic::BufferingState => "buffering-state",
            Topic::PausedForCache => "paused-for-cache",
            Topic::EndOfFile => "end-of-file",
            Topic::FileLoaded => "file-loaded",
        }
    }
}

/// What a notification carries.
#[derive(Debug)]
pub enum Payload {
    Flag(bool),
    Text(String),
    Int64(i64),
    Double(u64),
    Tracks(Vec<Track>),
}

/// One outward notification.
#[derive(Debug)]
pub struct Notification {
    pub topic: Topic,
    pub payload: Payload,
}

/// What becomes of one engine event.
#[derive(Debug)]
pub enum Routed {
    /// Send this notification to the user interface.
    Publish(Notification),
    /// Decode this track-list text, then hand the result to
    /// [`publish_track_list`].
    DecodeTrackList(String),
    /// Send the notification, and put `follow_up` on the coordinator's queue.
    EndOfStream { notice: Notification, follow_up: PlaybackEvent },
    /// Read the current position and duration and send them as
    /// [`Topic::FileLoaded`].
    FileLoaded,
    /// Nothing to do.
    Dropped,
}

/// A property subscription: the property's name, the form it is reported
/// in, and the tag that identifies its change events.
#[derive(Debug)]
pub struct Subscription {
    pub name: String,
    pub format: ValueFormat,
    pub id: u64,
}

/// Number of observed properties; their tags are `1..=OBSERVED_COUNT`.
pub const OBSERVED_COUNT: u64 = 11;

/// The observed property behind each tag, and its form.
pub open spec fn observed(id: u64) -> Option<(Seq<char>, ValueFormat)> {
    if id == 1 {
        Some(("pause"@, ValueFormat::Flag))
    } else if id == 2 {
        Some(("time-pos"@, ValueFormat::Text))
    } else if id == 3 {
        Some(("track-list"@, ValueFormat::Text))
    } else if id == 4 {
        Some(("duration"@, ValueFormat::Double))
    } else if id == 5 {
        Some(("aid"@, ValueFormat::Text))
    } else if id == 6 {
        Some(("sid"@, ValueFormat::Text))
    } else if id == 7 {
        Some(("speed"@, ValueFormat::Double))
    } else if id == 8 {
        Some(("demuxer-cache-time"@, ValueFormat::Double))
    } else if id == 9 {
        Some(("cache-buffering-state"@, ValueFormat::Int64))
    } else if id == 10 {
        Some(("paused-for-cache"@, ValueFormat::Flag))
    } else if id == 11 {
        Some(("eof-reached"@, ValueFormat::Flag))
    } else {
        None
    }
}

/// The topic that a change of the property tagged `id` is republished on.
pub open spec fn topic_of(id: u64) -> Topic {
    if id == 1 {
        Topic::Pause
    } else if id == 2 {
        Topic::PlaybackTime
    } else if id == 4 {
        Topic::Duration
    } else if id == 5 {
        Topic::ActiveAudio
    } else if id == 6 {
        Topic::ActiveSubtitle
    } else if id == 7 {
        Topic::Speed
    } else if id == 8 {
        Topic::CacheTime
    } else if id == 9 {
        Topic::BufferingState
    } else if id == 10 {
        Topic::PausedForCache
    } else {
        Topic::EndOfFile
    }
}

/// The form of a reported value.
pub open spec fn format_of(v: PropertyValue) -> Option<ValueFormat> {
    match v {
        PropertyValue::Flag(_) => Some(ValueFormat::Flag),
        PropertyValue::Text(_) => Some(ValueFormat::Text),
        PropertyValue::Int64(_) => Some(ValueFormat::Int64),
        PropertyValue::Double(_) => Some(ValueFormat::Double),
        PropertyValue::Unsupported => None,
    }
}

/// The payload that republishes a reported value verbatim.
pub open spec fn payload_of(v: PropertyValue) -> Payload {
    match v {
        PropertyValue::Flag(b) => Payload::Flag(b),
        PropertyValue::Text(s) => Payload::Text(s),
        PropertyValue::Int64(n) => Payload::Int64(n),
        PropertyValue::Double(bits) => Payload::Double(bits),
        PropertyValue::Unsupported => Payload::Int64(0),
    }
}

/// Whether a property change matches a subscription: a known tag, the name
/// subscribed under that tag, and the form asked for.
pub open spec fn subscribed(name: Seq<char>, reply_id: u64, value: PropertyValue) -> bool {
    &&& observed(reply_id) is Some
    &&& observed(reply_id)->Some_0.0 == name
    &&& format_of(value) == Some(observed(reply_id)->Some_0.1)
}

/// How an engine event is routed.
pub open spec fn route(event: EngineEvent) -> Routed {
    match event {
        EngineEvent::FileLoaded => Routed::FileLoaded,
        EngineEvent::EndFile(reason) => Routed::EndOfStream {
            notice: Notification { topic: Topic::EndOfFile, payload: Payload::Int64(reason as i64) },
            follow_up: PlaybackEvent::EndOfFile,
        },
        EngineEvent::PropertyChange { name, reply_id, value } => if !subscribed(
            name@,
            reply_id,
            value,
        ) {
            Routed::Dropped
        } else if reply_id == 3 {
            match value {
                PropertyValue::Text(data) => Routed::DecodeTrackList(data),
                _ => Routed::Dropped,
            }
        } else if reply_id == 11 {
            Routed::Publish(Notification { topic: Topic::EndOfFile, payload: Payload::Int64(0) })
        } else {
            Routed::Publish(Notification { topic: topic_of(reply_id), payload: payload_of(value) })
        },
        EngineEvent::Other => Routed::Dropped,
    }
}

/// Every change of an observed property that comes in the form subscribed
/// reaches the user interface: the track list as text to decode, every other
/// property as a notification on its topic.
pub proof fn lemma_subscribed_changes_routed(name: String, reply_id: u64, value: PropertyValue)
    requires
        subscribed(name@, reply_id, value),
    ensures
        ({
            let r = route(EngineEvent::PropertyChange { name, reply_id, value });
            if reply_id == 3 {
                r is DecodeTrackList
            } else {
                r is Publish
            }
        }),
{
}

/// The name and form of the property observed under tag `id`.
fn observed_property(id: u64) -> (r: Option<(&'static str, ValueFormat)>)
    ensures
        match r {
            Some(p) => observed(id) == Some((p.0@, p.1)),
            None => observed(id) is None,
        },
{
    if id == 1 {
        Some(("pause", ValueFormat::Flag))
    } else if id == 2 {
        Some(("time-pos", ValueFormat::Text))
    } else if id == 3 {
        Some(("track-list", ValueFormat::Text))
    } else if id == 4 {
        Some(("duration", ValueFormat::Double))
    } else if id == 5 {
        Some(("aid", ValueFormat::Text))
    } else if id == 6 {
        Some(("sid", ValueFormat::Text))
    } else if id == 7 {
        Some(("speed", ValueFormat::Double))
    } else if id == 8 {
        Some(("demuxer-cache-time", ValueFormat::Double))
    } else if id == 9 {
        Some(("cache-buffering-state", ValueFormat::Int64))
    } else if id == 10 {
        Some(("paused-for-cache", ValueFormat::Flag))
    } else if id == 11 {
        Some(("eof-reached", ValueFormat::Flag))
    } else {
        None
    }
}

/// The properties the engine session subscribes to, tagged `1` to
/// [`OBSERVED_COUNT`] in order.
pub fn observed_properties() -> (r: Vec<Subscription>)
    ensures
        r@.len() == OBSERVED_COUNT,
        forall|i: int|
            0 <= i < r@.len() ==> {
                &&& (#[trigger] r@[i]).id == i + 1
                &&& observed(r@[i].id) == Some((r@[i].name@, r@[i].format))
            },
{
    let mut r: Vec<Subscription> = Vec::new();
    let mut id: u64 = 1;
    while id <= OBSERVED_COUNT
        invariant
            1 <= id <= OBSERVED_COUNT + 1,
            r@.len() == id - 1,
            forall|i: int|
                0 <= i < r@.len() ==> {
                    &&& (#[trigger] r@[i]).id == i + 1
                    &&& observed(r@[i].id) == Some((r@[i].name@, r@[i].format))
                },
        decreases OBSERVED_COUNT + 1 - id,
    {
        match observed_property(id) {
            Some((name, format)) => {
                r.push(Subscription { name: name.to_owned(), format, id });
            },
            None => {},
        }
        id += 1;
    }
    r
}

/// The form of a reported value.
fn value_format(v: &PropertyValue) -> (r: Option<ValueFormat>)
    ensures
        r == format_of(*v),
{
    match v {
        PropertyValue::Flag(_) => Some(ValueFormat::Flag),
        PropertyValue::Text(_) => Some(ValueFormat::Text),
        PropertyValue::Int64(_) => Some(ValueFormat::Int64),
        PropertyValue::Double(_) => Some(ValueFormat::Double),
        PropertyValue::Unsupported => None,
    }
}

/// The payload that republishes a reported value verbatim.
fn into_payload(v: PropertyValue) -> (r: Payload)
    ensures
        r == payload_of(v),
{
    match v {
        PropertyValue::Flag(b) => Payload::Flag(b),
        PropertyValue::Text(s) => Payload::Text(s),
        PropertyValue::Int64(n) => Payload::Int64(n),
        PropertyValue::Double(bits) => Payload::Double(bits),
        PropertyValue::Unsupported => Payload::Int64(0),
    }
}

/// The topic that a change of the property tagged `id` is republished on.
fn property_topic(id: u64) -> (r: Topic)
    ensures
        r == topic_of(id),
{
    if id == 1 {
        Topic::Pause
    } else if id == 2 {
        Topic::PlaybackTime
    } else if id == 4 {
        Topic::Duration
    } else if id == 5 {
        Topic::ActiveAudio
    } else if id == 6 {
        Topic::ActiveSubtitle
    } else if id == 7 {
        Topic::Speed
    } else if id == 8 {
        Topic::CacheTime
    } else if id == 9 {
        Topic::BufferingState
    } else if id == 10 {
        Topic::PausedForCache
    } else {
        Topic::EndOfFile
    }
}

/// Classifies engine events and decides how each is republished.
#[derive(Debug)]
pub struct EventHandler;

impl EventHandler {
    /// Routes one engine event: a subscribed property change is republished
    /// on its topic, the track list goes to decoding, the end of a file is
    /// both republished and queued as [`PlaybackEvent::EndOfFile`], a loaded
    /// file asks for a position snapshot; anything else is dropped.
    pub fn handle_mpv_events(event: EngineEvent) -> (r: Routed)
        ensures
            r == route(event),
    {
        match event {
            EngineEvent::FileLoaded => Routed::FileLoaded,
            EngineEvent::EndFile(reason) => Routed::EndOfStream {
                notice: Notification {
                    topic: Topic::EndOfFile,
                    payload: Payload::Int64(reason as i64),
                },
                follow_up: PlaybackEvent::EndOfFile,
            },
            EngineEvent::PropertyChange { name, reply_id, value } => {
                let matches = match observed_property(reply_id) {
                    Some((expected, format)) => text_is(&name, expected) && match value_format(
                        &value,
                    ) {
                        Some(f) => f == format,
                        None => false,
                    },
                    None => false,
                };
                if !matches {
                    Routed::Dropped
                } else if reply_id == 3 {
                    match value {
                        PropertyValue::Text(data) => Routed::DecodeTrackList(data),
                        _ => Routed::Dropped,
                    }
                } else if reply_id == 11 {
                    Routed::Publish(
                        Notification { topic: Topic::EndOfFile, payload: Payload::Int64(0) },
                    )
                } else {
                    Routed::Publish(
                        Notification {
                            topic: property_topic(reply_id),
                            payload: into_payload(value),
                        },
                    )
                }
            },
            EngineEvent::Other => Routed::Dropped,
        }
    }
}

/// The two notifications for a decoded track list: its audio tracks, then its
/// subtitle tracks. A list that could not be decoded (`None`) counts as
/// empty, so both lists are still sent, empty.
pub fn publish_track_list(decoded: Option<Vec<Track>>) -> (r: (Notification, Notification))
    ensures
        r.0.topic == Topic::AudioList,
        r.1.topic == Topic::SubtitleList,
        r.0.payload is Tracks,
        r.1.payload is Tracks,
        match decoded {
            Some(list) => {
                &&& r.0.payload->Tracks_0@ == list@.filter(|t: Track| is_audio(t))
                &&& r.1.payload->Tracks_0@ == list@.filter(|t: Track| is_subtitle(t))
            },
            None => {
                &&& r.0.payload->Tracks_0@ == Seq::<Track>::empty()
                &&& r.1.payload->Tracks_0@ == Seq::<Track>::empty()
            },
        },
{
    let (audio, subtitles) = match decoded {
        Some(list) => partition_tracks(list),
        None => (Vec::new(), Vec::new()),
    };
    (
        Notification { topic: Topic::AudioList, payload: Payload::Tracks(audio) },
        Notification { topic: Topic::SubtitleList, payload: Payload::Tracks(subtitles) },
    )
}

} // verus!
