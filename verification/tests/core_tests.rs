//! Tests of the downmixer, the key label mapping, and the cancellation
//! token.

use audio_analysis::downmix::downmix;
use audio_analysis::keys::{key_to_string, RawKey};
use audio_analysis::token::CancellationToken;

fn bits(values: &[f32]) -> Vec<u32> {
    values.iter().map(|v| v.to_bits()).collect()
}

#[test]
fn downmix_mono_is_identity() {
    let samples = bits(&[0.25, -1.5, 3.0, 0.0, -0.125]);
    let mono = downmix(&samples, 1);
    assert_eq!(mono, samples);
}

#[test]
fn downmix_mono_identity_empty() {
    let samples: Vec<u32> = Vec::new();
    let mono = downmix(&samples, 1);
    assert!(mono.is_empty());
}

#[test]
fn downmix_stereo_means() {
    let samples = bits(&[1.0, 3.0, -2.0, 2.0]);
    let mono = downmix(&samples, 2);
    assert_eq!(mono, bits(&[2.0, 0.0]));
    assert_eq!(mono.len() * 2, samples.len());
}

#[test]
fn downmix_three_channels_mean() {
    let samples = bits(&[1.0, 2.0, 3.0, -1.0, -2.0, -3.0]);
    let mono = downmix(&samples, 3);
    assert_eq!(mono, bits(&[2.0, -2.0]));
}

#[test]
fn downmix_trailing_partial_group_divides_by_channel_count() {
    // The trailing group [5.0] is still divided by the channel count, as a
    // full group would be.
    let samples = bits(&[1.0, 3.0, 5.0]);
    let mono = downmix(&samples, 2);
    assert_eq!(mono, bits(&[2.0, 2.5]));
}

#[test]
fn downmix_empty_multichannel() {
    let samples: Vec<u32> = Vec::new();
    let mono = downmix(&samples, 2);
    assert!(mono.is_empty());
}

#[test]
fn key_label_c_major() {
    assert_eq!(key_to_string(RawKey::Major(0)).as_str(), "C Major");
}

#[test]
fn key_label_b_minor() {
    assert_eq!(key_to_string(RawKey::Minor(11)).as_str(), "B Minor");
}

#[test]
fn key_label_f_sharp_major() {
    assert_eq!(key_to_string(RawKey::Major(6)).as_str(), "F# Major");
}

#[test]
fn key_label_all_twelve_notes() {
    let names = ["C", "C#", "D", "D#", "E", "F", "F#", "G", "G#", "A", "A#", "B"];
    for (pc, name) in names.iter().enumerate() {
        let expected = format!("{} Major", name);
        assert_eq!(key_to_string(RawKey::Major(pc as u32)), expected);
        let expected = format!("{} Minor", name);
        assert_eq!(key_to_string(RawKey::Minor(pc as u32)), expected);
    }
}

#[test]
fn key_label_out_of_range_is_unknown() {
    assert_eq!(key_to_string(RawKey::Major(12)).as_str(), "Unknown Major");
    assert_eq!(key_to_string(RawKey::Minor(255)).as_str(), "Unknown Minor");
}

#[test]
fn begin_run_identities_strictly_increase() {
    let mut token = CancellationToken::new();
    let a = token.begin_run();
    let b = token.begin_run();
    let c = token.begin_run();
    assert!(a < b && b < c);
    assert_ne!(a, b);
    assert_ne!(b, c);
    assert_ne!(a, c);
}

#[test]
fn only_the_newest_identity_is_current() {
    let mut token = CancellationToken::new();
    let a = token.begin_run();
    assert!(token.is_current(a));
    let b = token.begin_run();
    assert!(!token.is_current(a));
    assert!(token.is_current(b));
}

#[test]
fn cancel_invalidates_earlier_identities_not_later_ones() {
    let mut token = CancellationToken::new();
    let before1 = token.begin_run();
    let before2 = token.begin_run();
    token.cancel();
    assert!(!token.is_current(before1));
    assert!(!token.is_current(before2));
    let after = token.begin_run();
    assert!(token.is_current(after));
}
