//! A fixed-layout record store: a topic and a content string are validated
//! against character-count limits, stamped with the caller's identity and a
//! clock reading, and materialized as an immutable record whose storage
//! footprint is a fixed budget derived from named layout constants.

mod error;
mod schema;
mod tweet;

pub use error::ErrorCode;
pub use tweet::SendTweet;
pub use tweet::Tweet;
pub use tweet::content_fits;
pub use tweet::lemma_record_space;
pub use tweet::send_tweet;
pub use tweet::topic_fits;
pub use tweet::validate;
pub use schema::DISCRIMINATOR_LENGTH;
pub use schema::PUBKEY_LENGTH;
pub use schema::TIMESTAMP_LENGTH;
pub use schema::STRING_LENGTH_PREFIX;
pub use schema::BYTES_PER_CHAR;
pub use schema::MAX_TOPIC_LENGTH_CHARS;
pub use schema::MAX_TOPIC_LENGTH_BYTES;
pub use schema::MAX_CONTENT_LENGTH_CHARS;
pub use schema::MAX_CONTENT_LENGTH_BYTES;
