//! Indexing, tag reading and PCM decoding of FLAC audio files.
//!
//! The library works on values: file names and the bytes of a file. Parsing
//! the FLAC container and its comment block is left to `claxon` and
//! `metaflac`, behind the trusted items of `outside`; everything that is
//! decided around those calls is verified here.
pub mod error;
pub mod extension;
pub mod framing;
pub mod outside;
pub mod tags;
pub mod stream;
pub mod scan;
