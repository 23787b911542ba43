//! The data messages that are sent: text to a contact or a group, and reactions.

use vstd::prelude::*;
use vstd::utf8::{encode_utf8, is_ascii_chars, is_ascii_chars_encode_utf8};
use crate::errors::SignalError;
use crate::hexcodec::{
    hex_decode, hex_decode_spec, hex_value, lemma_hex_decode_digits, lemma_hex_decode_refuses_non_digit,
    lemma_hex_round_trip, HexDecodeError,
};
use crate::message::{data_message_converted, DataMessageInfo, IncomingMessage};
use crate::records::{group_converted, GroupRecord, JsGroup};

verus! {

/// The reaction part of an outgoing data message.
pub struct OutgoingReaction {
    pub emoji: Option<String>,
    pub target_sent_timestamp: Option<u64>,
}

/// An outgoing data message; the fields left out are empty.
pub struct OutgoingMessage {
    pub body: Option<String>,
    pub timestamp: Option<u64>,
    pub reaction: Option<OutgoingReaction>,
}

/// A text message stamped with `timestamp` (milliseconds since the epoch).
pub fn text_message(text: String, timestamp: u64) -> (message: OutgoingMessage)
    ensures
        message.body == Some(text),
        message.timestamp == Some(timestamp),
        message.reaction is None,
{
    OutgoingMessage { body: Some(text), timestamp: Some(timestamp), reaction: None }
}

/// A reaction with `emoji` to the message sent at `target_sent_timestamp`,
/// stamped with `timestamp`.
pub fn reaction_message(emoji: String, target_sent_timestamp: u64, timestamp: u64) -> (message: OutgoingMessage)
    ensures
        message.body is None,
        message.timestamp == Some(timestamp),
        message.reaction == Some(
            OutgoingReaction { emoji: Some(emoji), target_sent_timestamp: Some(target_sent_timestamp) },
        ),
{
    OutgoingMessage {
        body: None,
        timestamp: Some(timestamp),
        reaction: Some(OutgoingReaction { emoji: Some(emoji), target_sent_timestamp: Some(target_sent_timestamp) }),
    }
}

/// What the hex text of a group master key decodes to (its UTF-8 bytes are decoded).
pub open spec fn group_key_outcome(text: Seq<char>) -> Result<Seq<u8>, HexDecodeError> {
    hex_decode_spec(encode_utf8(text))
}

/// Decodes the hex text of a group master key; text that is not hex is
/// refused with the decoder's reason.
pub fn decode_group_key(group_master_key_hex: &str) -> (key: Result<Vec<u8>, SignalError>)
    ensures
        match group_key_outcome(group_master_key_hex@) {
            Ok(bytes) => key is Ok && key->Ok_0@ == bytes,
            Err(e) => key == Err::<Vec<u8>, SignalError>(SignalError::InvalidHexGroupKey(e)),
        },
{
    match hex_decode(group_master_key_hex.as_bytes()) {
        Ok(bytes) => Ok(bytes),
        Err(e) => Err(SignalError::InvalidHexGroupKey(e)),
    }
}

/// `c` is a hex digit: `0-9`, `a-f` or `A-F`.
pub open spec fn is_hex_digit_char(c: char) -> bool {
    ('0' <= c && c <= '9') || ('a' <= c && c <= 'f') || ('A' <= c && c <= 'F')
}

/// The value of a hex digit of either case: `a` and `A` are ten, `f` and `F` fifteen.
pub open spec fn hex_digit_char_value(c: char) -> int {
    if '0' <= c && c <= '9' {
        c as int - '0' as int
    } else if 'a' <= c && c <= 'f' {
        c as int - 'a' as int + 10
    } else {
        c as int - 'A' as int + 10
    }
}

/// A group key written with hex digits of either case, two per byte, is
/// accepted, and each byte is the value of its first digit times sixteen plus
/// that of its second: upper-case text gives the same key as lower-case text.
pub proof fn law_group_key_reads_digits_of_either_case(text: Seq<char>)
    requires
        text.len() % 2 == 0,
        forall|i: int| 0 <= i < text.len() ==> is_hex_digit_char(#[trigger] text[i]),
    ensures
        group_key_outcome(text) is Ok,
        group_key_outcome(text)->Ok_0.len() * 2 == text.len(),
        forall|m: int|
            #![trigger group_key_outcome(text)->Ok_0[m]]
            0 <= m < text.len() / 2 ==> group_key_outcome(text)->Ok_0[m] == hex_digit_char_value(
                text[2 * m],
            ) * 16 + hex_digit_char_value(text[2 * m + 1]),
{
    assert(is_ascii_chars(text));
    is_ascii_chars_encode_utf8(text);
    let bytes = encode_utf8(text);
    assert forall|j: int| 0 <= j < bytes.len() implies hex_value(#[trigger] bytes[j]) is Some
        && hex_value(bytes[j]).unwrap() == hex_digit_char_value(text[j]) by {
        assert(text[j] as u8 == bytes[j]);
        assert(is_hex_digit_char(text[j]));
    }
    lemma_hex_decode_digits(bytes);
    let r = group_key_outcome(text)->Ok_0;
    assert forall|m: int| 0 <= m < text.len() / 2 implies #[trigger] r[m] == hex_digit_char_value(
        text[2 * m],
    ) * 16 + hex_digit_char_value(text[2 * m + 1]) by {
        assert(hex_value(bytes[2 * m]).unwrap() == hex_digit_char_value(text[2 * m]));
        assert(hex_value(bytes[2 * m + 1]).unwrap() == hex_digit_char_value(text[2 * m + 1]));
    }
}

/// An ASCII group key of odd length is refused as such, and one of even length
/// holding a character that is not a hex digit is refused.
pub proof fn law_group_key_refuses_what_is_not_hex(text: Seq<char>, p: int)
    requires
        is_ascii_chars(text),
    ensures
        text.len() % 2 == 1 ==> group_key_outcome(text) == Err::<Seq<u8>, HexDecodeError>(
            HexDecodeError::OddLength,
        ),
        text.len() % 2 == 0 && 0 <= p < text.len() && !is_hex_digit_char(text[p])
            ==> group_key_outcome(text) is Err,
{
    is_ascii_chars_encode_utf8(text);
    let bytes = encode_utf8(text);
    if text.len() % 2 == 0 && 0 <= p < text.len() && !is_hex_digit_char(text[p]) {
        assert(text[p] as u8 == bytes[p]);
        lemma_hex_decode_refuses_non_digit(bytes, p);
    }
}

/// The id under which a group is listed is accepted as its group key, and
/// names that group: decoding it gives back the group's master key.
pub proof fn law_listed_group_id_decodes_to_master_key(group: GroupRecord, js: JsGroup)
    requires
        group_converted(group, js),
    ensures
        group_key_outcome(js.id@) == Ok::<Seq<u8>, HexDecodeError>(group.master_key@),
{
    lemma_hex_round_trip(group.master_key@);
}

/// The group id of a received group message, sent back as a group key,
/// names the group the message came from.
pub proof fn law_received_group_id_decodes_to_master_key(
    sender: String,
    dm: DataMessageInfo,
    m: IncomingMessage,
)
    requires
        data_message_converted(sender, dm, m),
        m.group_id is Some,
    ensures
        dm.group_v2 is Some && dm.group_v2->Some_0.master_key is Some,
        group_key_outcome(m.group_id->Some_0@) == Ok::<Seq<u8>, HexDecodeError>(
            dm.group_v2->Some_0.master_key->Some_0@,
        ),
{
    lemma_hex_round_trip(dm.group_v2->Some_0.master_key->Some_0@);
}

/// `dm` is the data message that arrives when `sent` is delivered unchanged.
pub open spec fn delivered_as(sent: OutgoingMessage, dm: DataMessageInfo) -> bool {
    &&& dm.body == sent.body
    &&& dm.timestamp == sent.timestamp
    &&& match sent.reaction {
        Some(r) => dm.reaction is Some && dm.reaction->Some_0.emoji == r.emoji
            && dm.reaction->Some_0.target_sent_timestamp == r.target_sent_timestamp,
        None => dm.reaction is None,
    }
    &&& dm.group_v2 is None
    &&& dm.attachments.len() == 0
}

/// A text message, once delivered, reaches JavaScript with the text and
/// timestamp it was sent with, as a plain message of no group.
pub proof fn law_sent_text_is_received(
    text: String,
    timestamp: u64,
    sent: OutgoingMessage,
    sender: String,
    dm: DataMessageInfo,
    m: IncomingMessage,
)
    requires
        sent.body == Some(text),
        sent.timestamp == Some(timestamp),
        sent.reaction is None,
        delivered_as(sent, dm),
        data_message_converted(sender, dm, m),
    ensures
        m.text == Some(text),
        m.timestamp == timestamp,
        !m.is_reaction,
        m.group_id is None,
        m.attachments.len() == 0,
{
}

/// A reaction, once delivered, reaches JavaScript as a reaction with its
/// emoji, aimed at the timestamp of the message it reacts to.
pub proof fn law_sent_reaction_is_received(
    emoji: String,
    target_sent_timestamp: u64,
    timestamp: u64,
    sent: OutgoingMessage,
    sender: String,
    dm: DataMessageInfo,
    m: IncomingMessage,
)
    requires
        sent.body is None,
        sent.timestamp == Some(timestamp),
        sent.reaction == Some(
            OutgoingReaction { emoji: Some(emoji), target_sent_timestamp: Some(target_sent_timestamp) },
        ),
        delivered_as(sent, dm),
        data_message_converted(sender, dm, m),
    ensures
        m.is_reaction,
        m.reaction_emoji == Some(emoji),
        m.reaction_target_timestamp == Some(target_sent_timestamp),
        m.timestamp == timestamp,
        m.text is None,
{
}

} // verus!
