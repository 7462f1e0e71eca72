//! The analysis pipeline: the public entry point that sequences the Decode
//! Stage and the Analysis Engine under the cancellation protocol, and maps
//! the engine's raw output into a presentation-ready result.
//!
//! Every invocation yields exactly one of: a successful [`AnalysisResult`],
//! the empty outcome meaning the run was superseded and nothing went wrong,
//! or a [`PipelineError`] naming the failed phase and the path.

use vstd::prelude::*;
use vstd::string::StringExecFns;

use crate::capability::{AnalysisEngine, DecoderLibrary, RawAnalysis};
use crate::decode::{decode_stage, ErrorKind};
use crate::keys::{key_label, key_to_string, RawKey};
use crate::token::CancellationToken;

verus! {

/// The presentation-ready result of one analysis run. Tempo and the
/// confidence scores are carried as the bit patterns of their 32-bit
/// floats; the key is a display label such as `"C Major"`.
pub struct AnalysisResult {
    /// Estimated tempo in beats per minute (an `f32` bit pattern).
    pub bpm: u32,
    /// Confidence in the tempo estimate (an `f32` bit pattern).
    pub bpm_confidence: u32,
    /// The estimated key's display label.
    pub key: String,
    /// Confidence in the key estimate (an `f32` bit pattern).
    pub key_confidence: u32,
}

/// A fatal failure of one run, annotated with the phase in which it
/// occurred and the path it was working on.
#[derive(Debug)]
pub struct PipelineError {
    /// Which stage failed.
    pub kind: ErrorKind,
    /// The path of the file the run was analyzing.
    pub path: String,
}

/// The context line that introduces a failure of the given kind, naming
/// the phase it belongs to: open, probe, decode, or analyze.
pub open spec fn phase_text(kind: ErrorKind) -> Seq<char> {
    if kind == ErrorKind::OpenError {
        "failed to open audio file: "@
    } else if kind == ErrorKind::ProbeError {
        "failed to probe audio format: "@
    } else if kind == ErrorKind::AnalysisError {
        "failed to analyze audio: "@
    } else {
        "failed to decode audio: "@
    }
}

impl PipelineError {
    /// A caller-facing line naming the failed phase and the path, so a log
    /// line is self-explanatory without a stack trace.
    pub fn describe(&self) -> (message: String)
        ensures
            message@ == phase_text(self.kind) + self.path@,
    {
        let mut message = match self.kind {
            ErrorKind::OpenError => "failed to open audio file: ".to_owned(),
            ErrorKind::ProbeError => "failed to probe audio format: ".to_owned(),
            ErrorKind::AnalysisError => "failed to analyze audio: ".to_owned(),
            _ => "failed to decode audio: ".to_owned(),
        };
        message.append(self.path.as_str());
        message
    }
}

/// Wrap a decode-stage failure with the path context it occurred on: the
/// kind passes through unchanged, so the phase is preserved.
pub fn wrap_failure(kind: ErrorKind, path_str: &str) -> (error: PipelineError)
    ensures
        error.kind == kind,
        error.path@ == path_str@,
{
    PipelineError { kind, path: path_str.to_owned() }
}

/// Classify the Analysis Engine's outcome: a missing result is the
/// engine's failure — an `AnalysisError` naming the path, and nothing
/// else — while a raw result passes through unchanged.
pub fn engine_outcome(outcome: Option<RawAnalysis>, path_str: &str) -> (classified: Result<
    RawAnalysis,
    PipelineError,
>)
    ensures
        match outcome {
            Some(raw) => classified == Ok::<RawAnalysis, PipelineError>(raw),
            None => match classified {
                Ok(_) => false,
                Err(error) => error.kind == ErrorKind::AnalysisError && error.path@
                    == path_str@,
            },
        },
{
    match outcome {
        Some(raw) => Ok(raw),
        None => Err(wrap_failure(ErrorKind::AnalysisError, path_str)),
    }
}

/// Map the engine's raw output to the presentation-ready result: the
/// numbers pass through untouched and the raw key becomes its display
/// label.
pub fn to_analysis_result(raw: &RawAnalysis) -> (result: AnalysisResult)
    ensures
        result.bpm == raw.bpm,
        result.bpm_confidence == raw.bpm_confidence,
        result.key_confidence == raw.key_confidence,
        result.key@ == key_label(raw.key),
{
    AnalysisResult {
        bpm: raw.bpm,
        bpm_confidence: raw.bpm_confidence,
        key: key_to_string(raw.key),
        key_confidence: raw.key_confidence,
    }
}

/// Analyze the file at `path_str`: obtain a fresh run identity, decode the
/// file to mono under that identity, recheck the identity at each stage
/// boundary, run the Analysis Engine, and map its raw result.
///
/// Returns the empty outcome as soon as the run is superseded — after the
/// final recheck a freshly computed result is discarded rather than handed
/// out stale. The contract pins the supersession protocol to the counter:
/// a populated result is handed out only while the live generation still
/// equals this run's identity (the value one past the counter at entry),
/// and the empty outcome comes only when it no longer does. A fatal
/// failure is annotated with the phase and the path.
pub fn analyze<D: DecoderLibrary, E: AnalysisEngine>(
    decoder: &mut D,
    engine: &mut E,
    token: &mut CancellationToken,
    path_str: &str,
) -> (outcome: Result<Option<AnalysisResult>, PipelineError>)
    requires
        old(token)@ < u64::MAX,
    ensures
        match outcome {
            Ok(Some(result)) => (exists|key: RawKey| result.key@ == key_label(key))
                && final(token)@ == old(token)@ + 1,
            Ok(None) => final(token)@ != old(token)@ + 1,
            Err(error) => error.path@ == path_str@,
        },
{
    let identity = token.begin_run();
    let audio = match decode_stage(decoder, path_str, identity, token) {
        Ok(Some(audio)) => audio,
        Ok(None) => {
            return Ok(None);
        },
        Err(kind) => {
            return Err(wrap_failure(kind, path_str));
        },
    };
    if !token.is_current(identity) {
        return Ok(None);
    }
    let estimates = engine.analyze_audio(&audio.samples, audio.sample_rate, token);
    let raw = match engine_outcome(estimates, path_str) {
        Ok(raw) => raw,
        Err(error) => {
            return Err(error);
        },
    };
    if !token.is_current(identity) {
        return Ok(None);
    }
    let result = to_analysis_result(&raw);
    assert(result.key@ == key_label(raw.key));
    Ok(Some(result))
}

/// Request cancellation of whatever analysis runs are in flight: move the
/// live generation, superseding every identity captured before this call.
/// Fire-and-forget; no run is waited for.
pub fn cancel_analyze(token: &mut CancellationToken)
    requires
        old(token)@ < u64::MAX,
    ensures
        final(token)@ == old(token)@ + 1,
{
    token.cancel();
}

} // verus!
