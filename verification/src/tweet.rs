//! The record type, its fixed storage budget, and the create operation:
//! validate the two text fields by character count, then populate a fresh
//! record with the ambient identity and clock reading.

use vstd::prelude::*;
use vstd::string::StrSliceExecFns;

use crate::error::ErrorCode;
use crate::schema::DISCRIMINATOR_LENGTH;
use crate::schema::MAX_CONTENT_LENGTH_BYTES;
use crate::schema::MAX_CONTENT_LENGTH_CHARS;
use crate::schema::MAX_TOPIC_LENGTH_BYTES;
use crate::schema::MAX_TOPIC_LENGTH_CHARS;
use crate::schema::PUBKEY_LENGTH;
use crate::schema::STRING_LENGTH_PREFIX;
use crate::schema::TIMESTAMP_LENGTH;

verus! {

/// A persisted record. One is created at most once per `send_tweet` call and
/// no operation of this crate mutates an existing one: `author` and
/// `timestamp` keep the values stamped at creation.
#[derive(Debug)]
pub struct Tweet {
    /// The caller's public identity, stamped once at creation.
    pub author: [u8; 32],
    /// Seconds since epoch from the trusted clock, stamped once at creation.
    pub timestamp: i64,
    /// At most `MAX_TOPIC_LENGTH_CHARS` characters, stored verbatim.
    pub topic: String,
    /// At most `MAX_CONTENT_LENGTH_CHARS` characters, stored verbatim.
    pub content: String,
}

impl Tweet {
    /// The layout budget: total bytes reserved for a record, whatever the
    /// actual field lengths — type tag, author, timestamp, then each text
    /// field as a length prefix plus its worst-case body.
    pub const LEN: usize = DISCRIMINATOR_LENGTH + PUBKEY_LENGTH + TIMESTAMP_LENGTH
        + STRING_LENGTH_PREFIX + MAX_TOPIC_LENGTH_BYTES
        + STRING_LENGTH_PREFIX + MAX_CONTENT_LENGTH_BYTES;
}

/// The storage budget law: the allocation reserved for a record is the sum of
/// the named layout widths — 1376 bytes in all — and is a constant of the
/// schema, independent of how long the stored topic and content actually are.
pub proof fn lemma_record_space()
    ensures
        Tweet::LEN == DISCRIMINATOR_LENGTH + PUBKEY_LENGTH + TIMESTAMP_LENGTH
            + STRING_LENGTH_PREFIX + MAX_TOPIC_LENGTH_BYTES + STRING_LENGTH_PREFIX
            + MAX_CONTENT_LENGTH_BYTES,
        Tweet::LEN == 1376,
{
}

/// The ambient context the host runtime supplies to the create operation:
/// the authenticated caller's identity and one reading of the trusted clock.
pub struct SendTweet {
    /// The signing caller's public identity.
    pub author: [u8; 32],
    /// The current time, read once per invocation, as signed seconds since epoch.
    pub unix_timestamp: i64,
}

/// A topic is acceptable when its character count is within the cap.
pub open spec fn topic_fits(topic: Seq<char>) -> bool {
    topic.len() <= MAX_TOPIC_LENGTH_CHARS
}

/// A content field is acceptable when its character count is within the cap.
pub open spec fn content_fits(content: Seq<char>) -> bool {
    content.len() <= MAX_CONTENT_LENGTH_CHARS
}

/// Checks both fields against the schema's caps, in order: a too-long topic
/// wins over a too-long content field. Counts characters, never bytes.
pub fn validate(topic: &str, content: &str) -> (r: Result<(), ErrorCode>)
    ensures
        r is Ok <==> topic_fits(topic@) && content_fits(content@),
        r == Err::<(), ErrorCode>(ErrorCode::TopicTooLong) <==> !topic_fits(topic@),
        r == Err::<(), ErrorCode>(ErrorCode::ContentTooLong) <==> topic_fits(topic@)
            && !content_fits(content@),
{
    if topic.unicode_len() > MAX_TOPIC_LENGTH_CHARS {
        return Err(ErrorCode::TopicTooLong);
    }
    if content.unicode_len() > MAX_CONTENT_LENGTH_CHARS {
        return Err(ErrorCode::ContentTooLong);
    }
    Ok(())
}

/// Creates one record, or fails without creating anything.
///
/// Succeeds exactly when the topic has at most `MAX_TOPIC_LENGTH_CHARS`
/// characters and the content at most `MAX_CONTENT_LENGTH_CHARS`; the record
/// then carries the context's identity and clock reading and both text fields
/// verbatim. A too-long topic fails with `TopicTooLong` whatever the content
/// is; a too-long content field with a valid topic fails with
/// `ContentTooLong`. No other outcome exists.
pub fn send_tweet(ctx: SendTweet, topic: String, content: String) -> (r: Result<
    Tweet,
    ErrorCode,
>)
    ensures
        r is Ok <==> topic_fits(topic@) && content_fits(content@),
        r matches Ok(t) ==> t.author == ctx.author && t.timestamp == ctx.unix_timestamp
            && t.topic@ == topic@ && t.content@ == content@,
        r matches Err(e) ==> (e == ErrorCode::TopicTooLong <==> !topic_fits(topic@)),
        r matches Err(e) ==> (e == ErrorCode::ContentTooLong <==> topic_fits(topic@)
            && !content_fits(content@)),
{
    match validate(topic.as_str(), content.as_str()) {
        Ok(()) => Ok(
            Tweet {
                author: ctx.author,
                timestamp: ctx.unix_timestamp,
                topic,
                content,
            },
        ),
        Err(e) => Err(e),
    }
}

} // verus!
