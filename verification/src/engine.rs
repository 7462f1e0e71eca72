//! The real Analysis Engine: stratum-dsp's tempo and key estimation, run
//! with its fixed default configuration.

use vstd::prelude::*;

use crate::capability::{AnalysisEngine, RawAnalysis};
use crate::keys::RawKey;
use crate::token::CancellationToken;

verus! {

/// The [`AnalysisEngine`] backed by `stratum_dsp::analyze_audio`.
pub struct StratumAnalyzer;

/// Relies on `stratum_dsp::analyze_audio` with `AnalysisConfig::default()`
/// for the estimates, and on `bytemuck::cast_slice` to reinterpret the
/// sample bit patterns as the 32-bit floats they spell. Nothing is assumed
/// of the estimates themselves; stratum-dsp's source returns an error — here
/// `None` — for an empty sample buffer and for a zero sample rate.
#[verifier::external_body]
fn stratum_analyze(samples: &Vec<u32>, sample_rate: u32) -> (outcome: Option<RawAnalysis>)
    ensures
        samples@.len() == 0 ==> outcome is None,
        sample_rate == 0 ==> outcome is None,
{
    let floats = bytemuck::cast_slice(samples.as_slice());
    match stratum_dsp::analyze_audio(floats, sample_rate, stratum_dsp::AnalysisConfig::default()) {
        Ok(estimate) => Some(
            RawAnalysis {
                bpm: estimate.bpm.to_bits(),
                bpm_confidence: estimate.bpm_confidence.to_bits(),
                key: match estimate.key {
                    stratum_dsp::Key::Major(pc) => RawKey::Major(pc),
                    stratum_dsp::Key::Minor(pc) => RawKey::Minor(pc),
                },
                key_confidence: estimate.key_confidence.to_bits(),
            },
        ),
        Err(_) => None,
    }
}

impl AnalysisEngine for StratumAnalyzer {
    fn analyze_audio(
        &mut self,
        samples: &Vec<u32>,
        sample_rate: u32,
        _token: &mut CancellationToken,
    ) -> Option<RawAnalysis> {
        stratum_analyze(samples, sample_rate)
    }
}

} // verus!
