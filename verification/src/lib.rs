//! The decisions of a recorder of live audio streams, with their proofs.
//!
//! Such a recorder polls the manifest of a stream, fetches the segments
//! that it has not seen, and keeps the audio that a fingerprint service
//! does not know yet, together with a log of what the service recognised.
//! The requests, the fingerprint service and the stores are the caller's
//! business. This crate holds what is decided in between:
//!
//! - `poll`: what the answer to a request for the manifest leads to, and
//!   how long to rest before the next one;
//! - `filter`: which listed segments are new;
//! - `info`: what the title text of a segment says, and what kind of
//!   content that suggests;
//! - `download`: which segments are fetched, and under which label;
//! - `ingest`: whether fetched audio is recorded as new or logged as heard
//!   again;
//! - `records`: the values that are stored, and how a recording is written
//!   to a row and read back.
//!
//! `text` holds the routines on text that the others share, `segment` the
//! entries of a manifest, `kind` the kinds of content, and `outside` the
//! calls into other crates, whose results are taken on trust.

pub mod download;
pub mod filter;
pub mod info;
pub mod ingest;
pub mod kind;
pub mod outside;
pub mod poll;
pub mod records;
pub mod segment;
pub mod text;
