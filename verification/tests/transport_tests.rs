use clap_validator::buffers::AudioBuffers;
use clap_validator::buffers::OutOfPlaceAudioBuffers;
use clap_validator::process::ProcessData;
use clap_validator::transport::TransportInfo;
use clap_validator::transport::beattime_factor;
use clap_validator::transport::core_event_space_id;
use clap_validator::transport::sectime_factor;
use clap_validator::transport::transport_event_type;
use clap_validator::transport::transport_has_beats_timeline;
use clap_validator::transport::transport_has_seconds_timeline;
use clap_validator::transport::transport_has_tempo;
use clap_validator::transport::transport_has_time_signature;
use clap_validator::transport::transport_is_playing;

fn empty_data(sample_rate: u32, tempo: u32) -> ProcessData<f32> {
    let buffers = OutOfPlaceAudioBuffers::<f32>::new(Vec::new(), Vec::new()).unwrap();
    ProcessData::new(AudioBuffers::OutOfPlace(buffers), sample_rate, tempo, 4, 4)
}

#[test]
fn factor_wrappers_match_the_abi_constants() {
    assert_eq!(beattime_factor(), clap_sys::fixedpoint::CLAP_BEATTIME_FACTOR);
    assert_eq!(sectime_factor(), clap_sys::fixedpoint::CLAP_SECTIME_FACTOR);
    assert_eq!(beattime_factor(), 1i64 << 31);
    assert_eq!(sectime_factor(), 1i64 << 31);
    assert_eq!(core_event_space_id(), clap_sys::events::CLAP_CORE_EVENT_SPACE_ID);
    assert_eq!(transport_event_type(), clap_sys::events::CLAP_EVENT_TRANSPORT);
}

#[test]
fn flag_wrappers_match_the_abi_constants() {
    assert_eq!(transport_has_tempo(), clap_sys::events::CLAP_TRANSPORT_HAS_TEMPO);
    assert_eq!(
        transport_has_beats_timeline(),
        clap_sys::events::CLAP_TRANSPORT_HAS_BEATS_TIMELINE
    );
    assert_eq!(
        transport_has_seconds_timeline(),
        clap_sys::events::CLAP_TRANSPORT_HAS_SECONDS_TIMELINE
    );
    assert_eq!(
        transport_has_time_signature(),
        clap_sys::events::CLAP_TRANSPORT_HAS_TIME_SIGNATURE
    );
    assert_eq!(transport_is_playing(), clap_sys::events::CLAP_TRANSPORT_IS_PLAYING);
}

#[test]
fn new_transport_sets_all_five_flags() {
    let info = TransportInfo::new(120, 4, 4);
    let expected = clap_sys::events::CLAP_TRANSPORT_HAS_TEMPO
        | clap_sys::events::CLAP_TRANSPORT_HAS_BEATS_TIMELINE
        | clap_sys::events::CLAP_TRANSPORT_HAS_SECONDS_TIMELINE
        | clap_sys::events::CLAP_TRANSPORT_HAS_TIME_SIGNATURE
        | clap_sys::events::CLAP_TRANSPORT_IS_PLAYING;
    assert_eq!(info.flags, expected);
    assert_eq!(info.song_pos_beats, 0);
    assert_eq!(info.song_pos_seconds, 0);
    assert_eq!(info.tempo, 120);
}

#[test]
fn advancing_half_a_second_at_120_bpm_is_one_beat() {
    let mut data = empty_data(48000, 120);
    data.advance_transport(24000);
    let info = data.transport_info();
    assert_eq!(info.song_pos_beats, clap_sys::fixedpoint::CLAP_BEATTIME_FACTOR);
    assert_eq!(info.song_pos_seconds, clap_sys::fixedpoint::CLAP_SECTIME_FACTOR / 2);
}

#[test]
fn transport_positions_round_to_nearest() {
    // One sample at 48 kHz: 1/48000 s, times 2^31, rounds to 44739.
    let mut data = empty_data(48000, 120);
    data.advance_transport(1);
    let info = data.transport_info();
    let exact_seconds = (1u64 << 31) as f64 / 48000.0;
    assert_eq!(info.song_pos_seconds, exact_seconds.round() as i64);
}

#[test]
fn repeated_advances_are_deterministic() {
    let mut first = empty_data(44100, 97);
    let mut second = empty_data(44100, 97);
    let mut first_positions = Vec::new();
    let mut second_positions = Vec::new();
    for _ in 0..16 {
        first.advance_transport(512);
        let info = first.transport_info();
        first_positions.push((info.song_pos_beats, info.song_pos_seconds));
    }
    for _ in 0..16 {
        second.advance_transport(512);
        let info = second.transport_info();
        second_positions.push((info.song_pos_beats, info.song_pos_seconds));
    }
    assert_eq!(first_positions, second_positions);
}

#[test]
fn steady_time_grows_by_block_size() {
    let mut data = empty_data(48000, 120);
    assert_eq!(data.steady_time, 0);
    data.bump_steady_time(512);
    data.bump_steady_time(512);
    assert_eq!(data.steady_time, 1024);
}

#[test]
fn finish_block_advances_and_clears_outputs() {
    let mut data = empty_data(48000, 120);
    data.output_events.push(clap_validator::events::Event {
        time: 3,
        space_id: 0,
        flags: 0,
        payload: clap_validator::events::EventPayload::NoteOn {
            port_index: 0,
            channel: 0,
            key: 60,
            note_id: -1,
            velocity_bits: 0,
        },
    });
    data.finish_block(24000);
    assert_eq!(data.sample_pos, 24000);
    assert_eq!(data.steady_time, 24000);
    assert_eq!(data.output_events.len(), 0);
    assert_eq!(
        data.transport_info().song_pos_beats,
        clap_sys::fixedpoint::CLAP_BEATTIME_FACTOR
    );
}
