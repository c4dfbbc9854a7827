//! The record schema: named widths for every part of a persisted record.
//!
//! Storage for a record is reserved up front at its worst-case size, so the
//! budget is a build-time sum of these constants. Raising a character cap
//! means changing exactly one constant here; the derived byte caps and the
//! total follow.

use vstd::prelude::*;

verus! {

/// Width of the record-type tag stored ahead of every record.
pub const DISCRIMINATOR_LENGTH: usize = 8;

/// Width of the author's public identity.
pub const PUBKEY_LENGTH: usize = 32;

/// Width of the signed seconds-since-epoch timestamp.
pub const TIMESTAMP_LENGTH: usize = 8;

/// Width of the length prefix stored ahead of each variable-length text field.
pub const STRING_LENGTH_PREFIX: usize = 4;

/// Worst-case storage per character of text under a multi-byte encoding.
pub const BYTES_PER_CHAR: usize = 4;

/// Logical cap on a topic, counted in characters.
pub const MAX_TOPIC_LENGTH_CHARS: usize = 50;

/// Physical storage reserved for a topic's body.
pub const MAX_TOPIC_LENGTH_BYTES: usize = MAX_TOPIC_LENGTH_CHARS * BYTES_PER_CHAR;

/// Logical cap on a content field, counted in characters.
pub const MAX_CONTENT_LENGTH_CHARS: usize = 280;

/// Physical storage reserved for a content field's body.
pub const MAX_CONTENT_LENGTH_BYTES: usize = MAX_CONTENT_LENGTH_CHARS * BYTES_PER_CHAR;

} // verus!
