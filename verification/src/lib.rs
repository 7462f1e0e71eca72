//! A cancellable audio decode-and-downmix pipeline.
//!
//! The library decodes an audio file into a normalized mono sample stream and
//! feeds it to a musical-feature analyzer (tempo and key), while letting an
//! in-flight analysis be superseded cooperatively by a newer request. The
//! container demuxing and the feature mathematics are external collaborators,
//! reached through the capability traits in [`capability`]; everything the
//! core decides — the generation-based supersession protocol, the downmix,
//! track selection, the packet loop, and result mapping — is verified here.

pub mod capability;
pub mod decode;
pub mod downmix;
pub mod engine;
pub mod keys;
pub mod pipeline;
pub mod token;
