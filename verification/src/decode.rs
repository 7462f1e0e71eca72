//! The decode stage: drive the Decoder Library from an opened path to a
//! complete mono sample buffer, under the cancellation protocol.
//!
//! The stage opens the stream, probes its container, validates the default
//! track's metadata, builds a decoder, and then consumes packets. Before
//! each packet it compares the live generation to the run's captured
//! identity and stops with the superseded outcome on a mismatch — packet
//! consumption is the only phase where meaningful CPU time elapses, so it is
//! the required cancellation checkpoint. Packets of other tracks and
//! recoverably bad packets are skipped; every decoded frame batch is
//! downmixed to mono and appended to the accumulating buffer.

use vstd::prelude::*;

use crate::capability::{DecoderLibrary, FrameEvent, PacketEvent, TrackInfo};
use crate::downmix::{downmix, downmix_spec};
use crate::token::CancellationToken;

verus! {

/// Which stage of a run failed fatally. Supersession is not an error and
/// has no kind here: it is a distinct empty outcome.
#[derive(Clone, Copy, Debug, PartialEq, Eq, Structural)]
pub enum ErrorKind {
    /// The file could not be opened.
    OpenError,
    /// The container was unrecognized or corrupt.
    ProbeError,
    /// The container holds no decodable track.
    NoTrackError,
    /// The default track states no usable sample rate.
    MissingSampleRateError,
    /// No decoder could be built for the track's codec parameters.
    DecoderInitError,
    /// A fatal mid-stream decode failure, or a stream past the packet
    /// budget.
    DecodeError,
    /// The Analysis Engine failed.
    AnalysisError,
}

/// A complete decoded run: the mono samples (`f32` bit patterns) and the
/// track's sample rate.
pub struct AudioBuffer {
    /// The accumulated mono stream, one bit pattern per sample.
    pub samples: Vec<u32>,
    /// Samples per second; positive for every buffer the decode stage
    /// returns.
    pub sample_rate: u32,
}

impl AudioBuffer {
    /// Well-formedness: the rate is usable, so even a non-empty buffer
    /// carries a positive sample rate.
    pub open spec fn wf(&self) -> bool {
        self.sample_rate >= 1
    }
}

/// The validated default track: its identifier, its stated sample rate, and
/// its channel count with absent or zero channel metadata defaulted to mono.
pub struct SelectedTrack {
    /// The track identifier packets are matched against.
    pub id: u32,
    /// Samples per second, at least 1.
    pub sample_rate: u32,
    /// Interleaved channels per frame, at least 1.
    pub channel_count: usize,
}

/// Whether the track states a usable (positive) sample rate.
pub open spec fn track_has_rate(track: TrackInfo) -> bool {
    match track.sample_rate {
        Some(rate) => rate >= 1,
        None => false,
    }
}

/// The selection a track with a usable rate validates to: its identifier
/// and rate, the channel count defaulted to 1 when the metadata is absent
/// or states no channel.
pub open spec fn spec_selected(track: TrackInfo) -> SelectedTrack {
    SelectedTrack {
        id: track.id,
        sample_rate: match track.sample_rate {
            Some(rate) => rate,
            None => 0,
        },
        channel_count: match track.channel_count {
            Some(count) => if count >= 1 {
                count
            } else {
                1
            },
            None => 1,
        },
    }
}

/// Validate what the Decoder Library reports of the default track: no track
/// at all is `NoTrackError`; a track without a usable sample rate is
/// `MissingSampleRateError`; otherwise the track is selected, its channel
/// count defaulting to mono when the metadata says nothing usable.
pub fn select_track(track: Option<TrackInfo>) -> (selection: Result<SelectedTrack, ErrorKind>)
    ensures
        match track {
            None => selection == Err::<SelectedTrack, ErrorKind>(ErrorKind::NoTrackError),
            Some(info) => if track_has_rate(info) {
                selection == Ok::<SelectedTrack, ErrorKind>(spec_selected(info))
            } else {
                selection == Err::<SelectedTrack, ErrorKind>(ErrorKind::MissingSampleRateError)
            },
        },
{
    match track {
        None => Err(ErrorKind::NoTrackError),
        Some(info) => {
            let sample_rate = match info.sample_rate {
                Some(rate) => rate,
                None => 0,
            };
            if sample_rate == 0 {
                return Err(ErrorKind::MissingSampleRateError);
            }
            let channel_count = match info.channel_count {
                Some(count) => if count >= 1 {
                    count
                } else {
                    1
                },
                None => 1,
            };
            Ok(SelectedTrack { id: info.id, sample_rate, channel_count })
        },
    }
}

/// Classify the outcome of opening the byte stream: a file that cannot be
/// opened is a fatal `OpenError` for this run, not a cancellation.
pub fn open_outcome(opened: bool) -> (outcome: Result<(), ErrorKind>)
    ensures
        outcome == if opened {
            Ok::<(), ErrorKind>(())
        } else {
            Err::<(), ErrorKind>(ErrorKind::OpenError)
        },
{
    if opened {
        Ok(())
    } else {
        Err(ErrorKind::OpenError)
    }
}

/// Classify the outcome of probing the container: an unrecognized or
/// corrupt container is a fatal `ProbeError`.
pub fn probe_outcome(probed: bool) -> (outcome: Result<(), ErrorKind>)
    ensures
        outcome == if probed {
            Ok::<(), ErrorKind>(())
        } else {
            Err::<(), ErrorKind>(ErrorKind::ProbeError)
        },
{
    if probed {
        Ok(())
    } else {
        Err(ErrorKind::ProbeError)
    }
}

/// Classify the outcome of constructing the track's decoder: failure to
/// build one is a fatal `DecoderInitError`.
pub fn decoder_init_outcome(built: bool) -> (outcome: Result<(), ErrorKind>)
    ensures
        outcome == if built {
            Ok::<(), ErrorKind>(())
        } else {
            Err::<(), ErrorKind>(ErrorKind::DecoderInitError)
        },
{
    if built {
        Ok(())
    } else {
        Err(ErrorKind::DecoderInitError)
    }
}

/// What the packet loop does with one demux event.
#[derive(Clone, Copy, Debug, PartialEq, Eq, Structural)]
pub enum PacketStep {
    /// The packet belongs to the selected track: decode it.
    Decode,
    /// The packet belongs to another track: skip it without decoding and
    /// without touching any state.
    Skip,
    /// The stream ended normally: finish with whatever has accumulated.
    Finish,
    /// The transport failed fatally: abort with `DecodeError`.
    Abort,
}

/// The decision the packet loop owes each demux event: decode a packet of
/// the selected track, skip one of any other track, finish on the normal
/// end of the stream, abort on a fatal transport failure.
pub open spec fn spec_packet_step(event: PacketEvent, selected_id: u32) -> PacketStep {
    match event {
        PacketEvent::Packet { track_id } => if track_id == selected_id {
            PacketStep::Decode
        } else {
            PacketStep::Skip
        },
        PacketEvent::EndOfStream => PacketStep::Finish,
        PacketEvent::Fatal => PacketStep::Abort,
    }
}

/// Decide what one demux event leads to, exactly as [`spec_packet_step`]
/// says.
pub fn packet_step(event: &PacketEvent, selected_id: u32) -> (step: PacketStep)
    ensures
        step == spec_packet_step(*event, selected_id),
{
    match event {
        PacketEvent::Packet { track_id } => {
            if *track_id == selected_id {
                PacketStep::Decode
            } else {
                PacketStep::Skip
            }
        },
        PacketEvent::EndOfStream => PacketStep::Finish,
        PacketEvent::Fatal => PacketStep::Abort,
    }
}

/// Apply one decode event to the accumulating mono buffer: decoded frames
/// are downmixed and appended in order; a recoverable per-packet failure
/// leaves the buffer unchanged, so iteration continues past it; any other
/// decode failure leaves the buffer unchanged and is fatal.
pub fn frame_step(buffer: &mut Vec<u32>, event: &FrameEvent, channels: usize) -> (fatal: bool)
    requires
        1 <= channels,
    ensures
        match *event {
            FrameEvent::Frames { samples: frame } => !fatal && final(buffer)@ == old(buffer)@
                + downmix_spec(frame@, channels),
            FrameEvent::Recoverable => !fatal && final(buffer)@ == old(buffer)@,
            FrameEvent::Fatal => fatal && final(buffer)@ == old(buffer)@,
        },
{
    match event {
        FrameEvent::Frames { samples: frame } => {
            let mut mono = downmix(frame, channels);
            buffer.append(&mut mono);
            false
        },
        FrameEvent::Recoverable => false,
        FrameEvent::Fatal => true,
    }
}

/// The most packets one run will consume. A stream still yielding packets
/// beyond this is treated as pathological and aborts the run fatally; the
/// bound keeps the packet loop finite without ever being reachable for real
/// streams, whose sample buffers exhaust memory first.
pub const PACKET_BUDGET: u64 = 0xffff_ffff_ffff_ffff;

/// Consume the demuxed stream for the selected track, accumulating the
/// downmixed mono samples.
///
/// The live generation is compared against `identity` before every packet;
/// the empty outcome comes only from an observed mismatch there. Each
/// demux event is handled as [`spec_packet_step`] says and each decode
/// event as [`frame_step`]'s contract says. A successful buffer carries
/// the selected track's sample rate; the only fatal kind here is
/// `DecodeError`.
pub fn consume_packets<D: DecoderLibrary>(
    decoder: &mut D,
    selected: &SelectedTrack,
    identity: u64,
    token: &mut CancellationToken,
) -> (outcome: Result<Option<AudioBuffer>, ErrorKind>)
    requires
        selected.sample_rate >= 1,
        selected.channel_count >= 1,
    ensures
        match outcome {
            Ok(Some(buffer)) => buffer.sample_rate == selected.sample_rate,
            Ok(None) => final(token)@ != identity,
            Err(kind) => kind == ErrorKind::DecodeError,
        },
{
    let mut samples: Vec<u32> = Vec::new();
    let mut budget: u64 = PACKET_BUDGET;
    while budget > 0
        invariant
            selected.sample_rate >= 1,
            selected.channel_count >= 1,
        decreases budget,
    {
        budget = budget - 1;
        if !token.is_current(identity) {
            return Ok(None);
        }
        let event = decoder.next_packet(token);
        match packet_step(&event, selected.id) {
            PacketStep::Finish => {
                return Ok(Some(AudioBuffer { samples, sample_rate: selected.sample_rate }));
            },
            PacketStep::Abort => {
                return Err(ErrorKind::DecodeError);
            },
            PacketStep::Decode => {
                let frame = decoder.decode_packet(token);
                if frame_step(&mut samples, &frame, selected.channel_count) {
                    return Err(ErrorKind::DecodeError);
                }
            },
            PacketStep::Skip => {},
        }
    }
    Err(ErrorKind::DecodeError)
}

/// Turn an opened path into a complete mono [`AudioBuffer`], `None` if the
/// run was superseded mid-decode, or the kind of the first fatal failure.
///
/// The stage drives the Decoder Library through its phases, each outcome
/// classified by an exact step function: [`open_outcome`],
/// [`probe_outcome`], [`select_track`], [`decoder_init_outcome`], then the
/// packet loop of [`consume_packets`], whose per-event decisions are
/// pinned by [`spec_packet_step`] and [`frame_step`]. The empty outcome
/// comes only from an observed generation mismatch: when it is returned,
/// the live generation no longer equals the run's identity.
pub fn decode_stage<D: DecoderLibrary>(
    decoder: &mut D,
    path: &str,
    identity: u64,
    token: &mut CancellationToken,
) -> (outcome: Result<Option<AudioBuffer>, ErrorKind>)
    ensures
        match outcome {
            Ok(Some(buffer)) => buffer.wf(),
            Ok(None) => final(token)@ != identity,
            Err(kind) => kind != ErrorKind::AnalysisError,
        },
{
    let opened = decoder.open_stream(path, token);
    match open_outcome(opened) {
        Ok(()) => {},
        Err(kind) => {
            return Err(kind);
        },
    }
    let probed = decoder.probe_format(token);
    match probe_outcome(probed) {
        Ok(()) => {},
        Err(kind) => {
            return Err(kind);
        },
    }
    let track = decoder.default_track(token);
    let selected = match select_track(track) {
        Ok(selected) => selected,
        Err(kind) => {
            return Err(kind);
        },
    };
    let built = decoder.make_decoder(token);
    match decoder_init_outcome(built) {
        Ok(()) => {},
        Err(kind) => {
            return Err(kind);
        },
    }
    consume_packets(decoder, &selected, identity, token)
}

} // verus!
