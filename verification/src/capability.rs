//! The capabilities the core requires from its external collaborators: the
//! Decoder Library that demuxes and decodes a container file, and the
//! Analysis Engine that estimates tempo and key.
//!
//! Both are abstract interfaces over plain values, so the verified core can
//! be driven by the real libraries at the unverified rim or by deterministic
//! doubles under test. Nothing is assumed of an implementation: the core is
//! verified against every value a method may return. Every method receives
//! the shared [`CancellationToken`], because an external call is the only
//! point at which other callers run; while control is outside the core they
//! may start or cancel runs, so after any of these calls the live generation
//! may have moved.

use vstd::prelude::*;

use crate::keys::RawKey;
use crate::token::CancellationToken;

verus! {

/// What the Decoder Library reports of the container's default decodable
/// track. A missing field means the container carried no such metadata.
pub struct TrackInfo {
    /// The track's identifier; packets carry the identifier of the track
    /// they belong to.
    pub id: u32,
    /// Samples per second, if the track's metadata states it.
    pub sample_rate: Option<u32>,
    /// Interleaved channels per frame, if the track's metadata states it.
    pub channel_count: Option<usize>,
}

/// One demux step: a packet of the given track, the end of the stream, or a
/// fatal transport failure.
pub enum PacketEvent {
    /// One compressed packet was demuxed; it belongs to the track with this
    /// identifier and is held by the Decoder Library until the next step.
    Packet { track_id: u32 },
    /// The stream ended normally; nothing further will arrive.
    EndOfStream,
    /// The stream is corrupt beyond recovery.
    Fatal,
}

/// One decode step on the most recently demuxed packet.
pub enum FrameEvent {
    /// The packet decoded into interleaved samples, each carried as the bit
    /// pattern of its 32-bit float.
    Frames { samples: Vec<u32> },
    /// The packet alone was bad; decoding may continue with the next one.
    Recoverable,
    /// The stream is corrupt or unsupported beyond this point.
    Fatal,
}

/// The raw result of the Analysis Engine: tempo and key estimates with
/// confidence scores. The tempo and the confidences are carried as the bit
/// patterns of their 32-bit floats; the core hands them through untouched.
pub struct RawAnalysis {
    /// Estimated tempo in beats per minute (an `f32` bit pattern).
    pub bpm: u32,
    /// Confidence in the tempo estimate (an `f32` bit pattern in [0, 1]).
    pub bpm_confidence: u32,
    /// The estimated musical key.
    pub key: RawKey,
    /// Confidence in the key estimate (an `f32` bit pattern in [0, 1]).
    pub key_confidence: u32,
}

/// The Decoder Library capability: opens a byte stream, probes its
/// container, exposes its default track, and yields packets and decoded
/// frames until exhaustion.
///
/// The methods mirror the stages of a decode run and are called in order:
/// `open_stream`, `probe_format`, `default_track`, `make_decoder`, then
/// alternately `next_packet` and — for packets of the selected track —
/// `decode_packet`.
pub trait DecoderLibrary {
    /// Open the file the path names as a byte stream. Returns false when
    /// the file cannot be opened.
    fn open_stream(&mut self, path: &str, token: &mut CancellationToken) -> bool;

    /// Identify the container and codec of the opened stream. Returns
    /// false for an unrecognized or corrupt container.
    fn probe_format(&mut self, token: &mut CancellationToken) -> bool;

    /// The probed container's default decodable track, if it has one.
    fn default_track(&mut self, token: &mut CancellationToken) -> Option<TrackInfo>;

    /// Construct a decoder matching the default track's codec parameters.
    /// Returns false when no decoder can be built.
    fn make_decoder(&mut self, token: &mut CancellationToken) -> bool;

    /// Demux the next packet, or report the end of the stream.
    fn next_packet(&mut self, token: &mut CancellationToken) -> PacketEvent;

    /// Decode the packet most recently returned by `next_packet`.
    fn decode_packet(&mut self, token: &mut CancellationToken) -> FrameEvent;
}

/// The Analysis Engine capability: estimate tempo and key of a mono sample
/// buffer at the given sample rate, or report failure with `None`.
pub trait AnalysisEngine {
    /// Analyze `samples` (mono, `f32` bit patterns) recorded at
    /// `sample_rate` Hz.
    fn analyze_audio(
        &mut self,
        samples: &Vec<u32>,
        sample_rate: u32,
        token: &mut CancellationToken,
    ) -> Option<RawAnalysis>;
}

} // verus!
