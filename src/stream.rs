use crate::ring::{ring_capacity, SampleRing, MAX_RING_CAPACITY};
use vstd::prelude::*;

verus! {

/// Samples per analysis window.
pub const WINDOW_SIZE: usize = 1024;

/// Magnitudes per spectral frame: the lower half of the window's bins.
pub const SPECTRUM_BINS: usize = 512;

/// The sample encodings a device may negotiate; only the first three can be
/// captured.
#[derive(Debug, Clone, Copy, PartialEq, Eq, Structural)]
pub enum SampleEncoding {
    F32,
    I16,
    U16,
    Unsupported,
}

/// Why audio could not be set up.
#[derive(Debug, Clone, Copy, PartialEq, Eq, Structural)]
pub enum AudioInitError {
    /// The platform audio subsystem could not be queried.
    DeviceEnumeration,
    /// No input device is available or selected.
    NoInputDevice,
    /// The negotiated sample encoding is outside the supported set.
    UnsupportedFormat,
    /// The platform rejected the stream configuration.
    StreamBuild,
}

/// The format a capture stream runs with, fixed once negotiated.
#[derive(Debug, Clone, Copy, PartialEq, Eq, Structural)]
pub struct StreamSettings {
    /// Samples per second.
    pub sample_rate: u32,
    /// Interleaved channels per frame.
    pub channels: u16,
    /// How each sample is encoded.
    pub encoding: SampleEncoding,
}

impl StreamSettings {
    /// A usable format: a positive rate, at least one channel, and a supported
    /// encoding.
    pub open spec fn wf(self) -> bool {
        &&& self.sample_rate > 0
        &&& self.channels >= 1
        &&& self.encoding != SampleEncoding::Unsupported
    }
}

/// Checks the format a device offers by default.  An unsupported encoding is
/// `UnsupportedFormat`; a zero rate or channel count, which no stream can be
/// built with, is `StreamBuild`.
pub fn negotiate(sample_rate: u32, channels: u16, encoding: SampleEncoding) -> (r: Result<
    StreamSettings,
    AudioInitError,
>)
    ensures
        encoding == SampleEncoding::Unsupported ==> r == Err::<StreamSettings, AudioInitError>(
            AudioInitError::UnsupportedFormat,
        ),
        encoding != SampleEncoding::Unsupported && (sample_rate == 0 || channels == 0) ==> r
            == Err::<StreamSettings, AudioInitError>(AudioInitError::StreamBuild),
        encoding != SampleEncoding::Unsupported && sample_rate > 0 && channels > 0 ==> r == Ok::<
            StreamSettings,
            AudioInitError,
        >(StreamSettings { sample_rate, channels, encoding }),
        r.is_ok() ==> r.unwrap().wf(),
{
    match encoding {
        SampleEncoding::Unsupported => Err(AudioInitError::UnsupportedFormat),
        _ => {
            if sample_rate == 0 || channels == 0 {
                Err(AudioInitError::StreamBuild)
            } else {
                Ok(StreamSettings { sample_rate, channels, encoding })
            }
        },
    }
}

/// The sample ring for a stream: empty, holding one second of mono audio.
pub fn ring_for(settings: &StreamSettings) -> (r: SampleRing)
    requires
        settings.wf(),
        settings.sample_rate as nat <= MAX_RING_CAPACITY,
    ensures
        r.wf(),
        r.view() == Seq::<u32>::empty(),
        ring_capacity(r) == settings.sample_rate as nat,
{
    SampleRing::new(settings.sample_rate as usize)
}

/// Picks the audio backend: the first whose probe qualified (it initialised and
/// reported at least one input device), or `None` for the platform default.
pub fn select_host(qualified: &[bool]) -> (r: Option<usize>)
    ensures
        r.is_none() ==> forall|j: int| 0 <= j < qualified@.len() ==> !qualified@[j],
        r.is_some() ==> r.unwrap() < qualified@.len() && qualified@[r.unwrap() as int] && forall|
            j: int,
        | 0 <= j < r.unwrap() ==> !qualified@[j],
{
    let mut i: usize = 0;
    while i < qualified.len()
        invariant
            0 <= i <= qualified@.len(),
            forall|j: int| 0 <= j < i ==> !qualified@[j],
        decreases qualified.len() - i,
    {
        if qualified[i] {
            return Some(i);
        }
        i = i + 1;
    }
    None
}

/// `pat` occurs in `s` as a contiguous run.
pub open spec fn has_infix(s: Seq<char>, pat: Seq<char>) -> bool {
    exists|i: int| 0 <= i && i + pat.len() <= s.len() && #[trigger] s.subrange(i, i + pat.len()) == pat
}

/// Relies on `str::contains` with a string pattern: true exactly when `pat`
/// matches a sub-slice of `s`.
#[verifier::external_body]
fn str_contains(s: &str, pat: &str) -> (r: bool)
    ensures
        r == has_infix(s@, pat@),
{
    s.contains(pat)
}

/// The stream error messages that stand for known, harmless timing and trigger
/// glitches of the audio backend.
pub open spec fn is_benign_message(m: Seq<char>) -> bool {
    ||| has_infix(m, "htstamp"@)
    ||| has_infix(m, "timestamp"@)
    ||| has_infix(m, "trigger"@)
    ||| has_infix(m, "spuriously returned"@)
    ||| has_infix(m, "poll()"@)
}

/// Whether a runtime stream error is a benign glitch to suppress rather than
/// report.
pub fn is_benign_stream_error(message: &str) -> (r: bool)
    ensures
        r == is_benign_message(message@),
{
    str_contains(message, "htstamp") || str_contains(message, "timestamp") || str_contains(
        message,
        "trigger",
    ) || str_contains(message, "spuriously returned") || str_contains(message, "poll()")
}

} // verus!
