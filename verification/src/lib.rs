//! Lifetime-safe metadata access over opened media files.
//!
//! The crate models an opened file as a session that owns a seekable byte
//! stream and, when the container format was recognized, a root file handle.
//! Format dispatch re-types that handle into one of several codec views, and
//! tag views extract host-native values (strings, byte buffers, lists) that a
//! metadata builder aggregates into one record.

pub mod audioproperties;
pub mod builder;
pub mod file;
pub mod flac;
pub mod id3v1;
pub mod id3v2;
pub mod iostream;
pub mod mp4;
pub mod mpeg;
pub mod ogg;
pub mod riff;
pub mod session;
pub mod tagmap;
pub mod text;
pub mod xiph;
