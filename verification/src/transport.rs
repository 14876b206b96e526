//! Musical transport state and the fixed-point clock arithmetic behind it.
//!
//! CLAP expresses song positions as signed 64-bit fixed-point numbers: beat
//! time and seconds time are both scaled by `1 << 31`. The validator drives a
//! deterministic transport: from a sample position, a sample rate and a tempo
//! it recomputes both positions with round-to-nearest integer arithmetic, so
//! that a test that advances the transport twice by the same amounts sees the
//! same positions twice.

use vstd::prelude::*;

verus! {

/// The fixed-point scale for beat positions, as an integer.
pub open spec fn spec_beattime_factor() -> int {
    0x8000_0000
}

/// The fixed-point scale for seconds positions, as an integer.
pub open spec fn spec_sectime_factor() -> int {
    0x8000_0000
}

/// Relies on `clap_sys::fixedpoint::CLAP_BEATTIME_FACTOR`, the scale factor
/// for fixed-point beat time, whose value is `1 << 31`.
#[verifier::external_body]
pub fn beattime_factor() -> (r: i64)
    ensures
        r == spec_beattime_factor(),
{
    clap_sys::fixedpoint::CLAP_BEATTIME_FACTOR
}

/// Relies on `clap_sys::fixedpoint::CLAP_SECTIME_FACTOR`, the scale factor
/// for fixed-point seconds time, whose value is `1 << 31`.
#[verifier::external_body]
pub fn sectime_factor() -> (r: i64)
    ensures
        r == spec_sectime_factor(),
{
    clap_sys::fixedpoint::CLAP_SECTIME_FACTOR
}

/// Relies on `clap_sys::events::CLAP_TRANSPORT_HAS_TEMPO`, whose value is
/// `1 << 0`.
#[verifier::external_body]
pub fn transport_has_tempo() -> (r: u32)
    ensures
        r == 1u32,
{
    clap_sys::events::CLAP_TRANSPORT_HAS_TEMPO
}

/// Relies on `clap_sys::events::CLAP_TRANSPORT_HAS_BEATS_TIMELINE`, whose
/// value is `1 << 1`.
#[verifier::external_body]
pub fn transport_has_beats_timeline() -> (r: u32)
    ensures
        r == 2u32,
{
    clap_sys::events::CLAP_TRANSPORT_HAS_BEATS_TIMELINE
}

/// Relies on `clap_sys::events::CLAP_TRANSPORT_HAS_SECONDS_TIMELINE`, whose
/// value is `1 << 2`.
#[verifier::external_body]
pub fn transport_has_seconds_timeline() -> (r: u32)
    ensures
        r == 4u32,
{
    clap_sys::events::CLAP_TRANSPORT_HAS_SECONDS_TIMELINE
}

/// Relies on `clap_sys::events::CLAP_TRANSPORT_HAS_TIME_SIGNATURE`, whose
/// value is `1 << 3`.
#[verifier::external_body]
pub fn transport_has_time_signature() -> (r: u32)
    ensures
        r == 8u32,
{
    clap_sys::events::CLAP_TRANSPORT_HAS_TIME_SIGNATURE
}

/// Relies on `clap_sys::events::CLAP_TRANSPORT_IS_PLAYING`, whose value is
/// `1 << 4`.
#[verifier::external_body]
pub fn transport_is_playing() -> (r: u32)
    ensures
        r == 16u32,
{
    clap_sys::events::CLAP_TRANSPORT_IS_PLAYING
}

/// Relies on `clap_sys::events::CLAP_CORE_EVENT_SPACE_ID`, the event
/// namespace of the core CLAP events, whose value is `0`.
#[verifier::external_body]
pub fn core_event_space_id() -> (r: u16)
    ensures
        r == 0u16,
{
    clap_sys::events::CLAP_CORE_EVENT_SPACE_ID
}

/// Relies on `clap_sys::events::CLAP_EVENT_TRANSPORT`, the event type id of a
/// transport event, whose value is `9`.
#[verifier::external_body]
pub fn transport_event_type() -> (r: u16)
    ensures
        r == 9u16,
{
    clap_sys::events::CLAP_EVENT_TRANSPORT
}

/// Integer division of `num` by `den`, rounded to the nearest integer
/// (half away rounds up), for non-negative operands.
pub open spec fn rounded_div(num: int, den: int) -> int
    recommends
        num >= 0,
        den > 0,
{
    (num + den / 2) / den
}

/// The fixed-point beat position after `sample_pos` samples at `sample_rate`
/// samples per second and `tempo` beats per minute:
/// `round(sample_pos / sample_rate / 60 * tempo * (1 << 31))`.
pub open spec fn beats_fixed(sample_pos: int, sample_rate: int, tempo: int) -> int
    recommends
        sample_pos >= 0,
        sample_rate > 0,
        tempo >= 0,
{
    rounded_div(sample_pos * tempo * spec_beattime_factor(), sample_rate * 60)
}

/// The fixed-point seconds position after `sample_pos` samples at
/// `sample_rate` samples per second: `round(sample_pos / sample_rate * (1 << 31))`.
pub open spec fn seconds_fixed(sample_pos: int, sample_rate: int) -> int
    recommends
        sample_pos >= 0,
        sample_rate > 0,
{
    rounded_div(sample_pos * spec_sectime_factor(), sample_rate)
}

/// The transport state handed to the plugin with each block: the host-side
/// image of a CLAP transport event, with musical time in fixed point.
///
/// Tempo is held in whole beats per minute and the sample rate in whole
/// samples per second; both are exact for the rates and tempos the validator
/// drives.
#[derive(Clone, Copy, PartialEq, Eq, Structural)]
pub struct TransportInfo {
    /// Transport flags, an OR of the `CLAP_TRANSPORT_*` bits.
    pub flags: u32,
    /// Song position in fixed-point beats, scaled by the beat-time factor.
    pub song_pos_beats: i64,
    /// Song position in fixed-point seconds, scaled by the seconds-time factor.
    pub song_pos_seconds: i64,
    /// Tempo in beats per minute.
    pub tempo: u32,
    /// Time signature numerator.
    pub tsig_num: u16,
    /// Time signature denominator.
    pub tsig_denom: u16,
    /// Start of the current bar, in fixed-point beats.
    pub bar_start: i64,
    /// Number of the current bar.
    pub bar_number: i32,
}

/// The flags a freshly constructed transport carries: tempo, beat and seconds
/// timelines, a time signature, and playback running.
pub open spec fn initial_transport_flags() -> u32 {
    31u32
}

impl TransportInfo {
    /// A transport at the start of the song, playing, with the given tempo
    /// and time signature.
    pub fn new(tempo: u32, tsig_num: u16, tsig_denom: u16) -> (r: TransportInfo)
        ensures
            r.flags == initial_transport_flags(),
            r.song_pos_beats == 0,
            r.song_pos_seconds == 0,
            r.tempo == tempo,
            r.tsig_num == tsig_num,
            r.tsig_denom == tsig_denom,
            r.bar_start == 0,
            r.bar_number == 0,
    {
        let flags = transport_has_tempo() | transport_has_beats_timeline()
            | transport_has_seconds_timeline() | transport_has_time_signature()
            | transport_is_playing();
        assert(1u32 | 2u32 | 4u32 | 8u32 | 16u32 == 31u32) by (bit_vector);
        TransportInfo {
            flags,
            song_pos_beats: 0,
            song_pos_seconds: 0,
            tempo,
            tsig_num,
            tsig_denom,
            bar_start: 0,
            bar_number: 0,
        }
    }
}

/// Transport determinism: the musical position reached after a number of
/// samples depends on nothing but the sample position, the sample rate and
/// the tempo. Two transports driven with the same rate and tempo through the
/// same sample positions therefore report identical position sequences.
pub proof fn lemma_transport_determinism(
    pos1: int,
    pos2: int,
    sample_rate: int,
    tempo: int,
    n: int,
)
    requires
        pos1 == pos2,
    ensures
        beats_fixed(pos1 + n, sample_rate, tempo) == beats_fixed(pos2 + n, sample_rate, tempo),
        seconds_fixed(pos1 + n, sample_rate) == seconds_fixed(pos2 + n, sample_rate),
{
}

} // verus!
