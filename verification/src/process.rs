//! The input and output data for one process call, and the transport drive.
//!
//! `ProcessData` bundles the audio buffers, the input and output event
//! queues, the transport snapshot and the running sample position. Advancing
//! the transport recomputes the fixed-point song positions exactly as the
//! published formulas state them, in integer arithmetic, so that the whole
//! drive is deterministic.

use crate::buffers::AudioBuffers;
use crate::events::EventQueue;
use crate::transport::TransportInfo;
use crate::transport::beats_fixed;
use crate::transport::initial_transport_flags;
use crate::transport::seconds_fixed;
use vstd::prelude::*;

verus! {

/// Everything a single `process()` call consumes and produces, together
/// with the state that carries across blocks.
pub struct ProcessData<S> {
    /// The input and output audio buffers.
    pub buffers: AudioBuffers<S>,
    /// Events handed to the plugin with the block, sorted before each call.
    pub input_events: EventQueue,
    /// Events the plugin emitted during the block, in call order.
    pub output_events: EventQueue,
    /// The current transport snapshot.
    pub transport_info: TransportInfo,
    /// The sample position the transport is at.
    pub sample_pos: u32,
    /// The sample rate, in samples per second.
    pub sample_rate: u32,
    /// A steady clock in samples, grown by the block size per block.
    pub steady_time: u64,
}

impl<S> ProcessData<S> {
    /// The structure's invariant: a usable sample rate.
    pub open spec fn wf(self) -> bool {
        self.sample_rate >= 1
    }

    /// Process data at the start of the song: transport at zero and playing,
    /// both event queues empty, steady time zero.
    pub fn new(
        buffers: AudioBuffers<S>,
        sample_rate: u32,
        tempo: u32,
        time_sig_numerator: u16,
        time_sig_denominator: u16,
    ) -> (r: ProcessData<S>)
        requires
            sample_rate >= 1,
        ensures
            r.wf(),
            r.buffers == buffers,
            r.input_events.events@.len() == 0,
            r.output_events.events@.len() == 0,
            r.transport_info.flags == initial_transport_flags(),
            r.transport_info.song_pos_beats == 0,
            r.transport_info.song_pos_seconds == 0,
            r.transport_info.tempo == tempo,
            r.transport_info.tsig_num == time_sig_numerator,
            r.transport_info.tsig_denom == time_sig_denominator,
            r.transport_info.bar_start == 0,
            r.transport_info.bar_number == 0,
            r.sample_pos == 0,
            r.sample_rate == sample_rate,
            r.steady_time == 0,
    {
        ProcessData {
            buffers,
            input_events: EventQueue::new(),
            output_events: EventQueue::new(),
            transport_info: TransportInfo::new(tempo, time_sig_numerator, time_sig_denominator),
            sample_pos: 0,
            sample_rate,
            steady_time: 0,
        }
    }

    /// The current transport snapshot.
    pub fn transport_info(&self) -> (r: TransportInfo)
        ensures
            r == self.transport_info,
    {
        self.transport_info
    }

    /// Advance the transport by `samples` samples: grow the sample position
    /// and recompute both fixed-point song positions from it, the sample
    /// rate and the tempo, rounding to nearest.
    pub fn advance_transport(&mut self, samples: u32)
        requires
            old(self).wf(),
            old(self).sample_pos + samples <= u32::MAX,
            beats_fixed(
                old(self).sample_pos + samples,
                old(self).sample_rate as int,
                old(self).transport_info.tempo as int,
            ) <= i64::MAX,
            seconds_fixed(old(self).sample_pos + samples, old(self).sample_rate as int)
                <= i64::MAX,
        ensures
            final(self).sample_pos == old(self).sample_pos + samples,
            final(self).transport_info.song_pos_beats == beats_fixed(
                final(self).sample_pos as int,
                old(self).sample_rate as int,
                old(self).transport_info.tempo as int,
            ),
            final(self).transport_info.song_pos_seconds == seconds_fixed(
                final(self).sample_pos as int,
                old(self).sample_rate as int,
            ),
            final(self).transport_info.flags == old(self).transport_info.flags,
            final(self).transport_info.tempo == old(self).transport_info.tempo,
            final(self).transport_info.tsig_num == old(self).transport_info.tsig_num,
            final(self).transport_info.tsig_denom == old(self).transport_info.tsig_denom,
            final(self).transport_info.bar_start == old(self).transport_info.bar_start,
            final(self).transport_info.bar_number == old(self).transport_info.bar_number,
            final(self).buffers == old(self).buffers,
            final(self).input_events == old(self).input_events,
            final(self).output_events == old(self).output_events,
            final(self).sample_rate == old(self).sample_rate,
            final(self).steady_time == old(self).steady_time,
            final(self).wf(),
    {
        let pos = self.sample_pos + samples;
        self.sample_pos = pos;
        let tempo = self.transport_info.tempo;
        let rate = self.sample_rate;

        proof {
            assert((pos as int) * (tempo as int) <= 0xFFFF_FFFF * 0xFFFF_FFFF) by (nonlinear_arith)
                requires
                    pos <= 0xFFFF_FFFFu32,
                    tempo <= 0xFFFF_FFFFu32,
            ;
        }
        let beat_num: u128 = (pos as u128) * (tempo as u128) * 0x8000_0000u128;
        let beat_den: u128 = (rate as u128) * 60;
        let beats: u128 = (beat_num + beat_den / 2) / beat_den;
        self.transport_info.song_pos_beats = beats as i64;

        let sec_num: u128 = (pos as u128) * 0x8000_0000u128;
        let sec_den: u128 = rate as u128;
        let seconds: u128 = (sec_num + sec_den / 2) / sec_den;
        self.transport_info.song_pos_seconds = seconds as i64;
    }

    /// The bookkeeping that ends one processed block: advance the transport
    /// by the block, grow the steady clock by it, and clear the output
    /// events the caller has inspected. The input queue is left alone; the
    /// driver resets and refills it for the next block.
    pub fn finish_block(&mut self, block_size: u32)
        requires
            old(self).wf(),
            old(self).sample_pos + block_size <= u32::MAX,
            old(self).steady_time + block_size <= u64::MAX,
            beats_fixed(
                old(self).sample_pos + block_size,
                old(self).sample_rate as int,
                old(self).transport_info.tempo as int,
            ) <= i64::MAX,
            seconds_fixed(old(self).sample_pos + block_size, old(self).sample_rate as int)
                <= i64::MAX,
        ensures
            final(self).sample_pos == old(self).sample_pos + block_size,
            final(self).steady_time == old(self).steady_time + block_size,
            final(self).transport_info.song_pos_beats == beats_fixed(
                final(self).sample_pos as int,
                old(self).sample_rate as int,
                old(self).transport_info.tempo as int,
            ),
            final(self).transport_info.song_pos_seconds == seconds_fixed(
                final(self).sample_pos as int,
                old(self).sample_rate as int,
            ),
            final(self).transport_info.tempo == old(self).transport_info.tempo,
            final(self).transport_info.flags == old(self).transport_info.flags,
            final(self).output_events.events@.len() == 0,
            final(self).input_events == old(self).input_events,
            final(self).buffers == old(self).buffers,
            final(self).sample_rate == old(self).sample_rate,
            final(self).wf(),
    {
        self.advance_transport(block_size);
        self.bump_steady_time(block_size);
        self.output_events.clear();
    }

    /// Grow the steady clock by one block of `samples` samples.
    pub fn bump_steady_time(&mut self, samples: u32)
        requires
            old(self).steady_time + samples <= u64::MAX,
        ensures
            final(self).steady_time == old(self).steady_time + samples,
            final(self).buffers == old(self).buffers,
            final(self).input_events == old(self).input_events,
            final(self).output_events == old(self).output_events,
            final(self).transport_info == old(self).transport_info,
            final(self).sample_pos == old(self).sample_pos,
            final(self).sample_rate == old(self).sample_rate,
    {
        self.steady_time = self.steady_time + samples as u64;
    }
}

} // verus!
