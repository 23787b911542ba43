//! Received contents and the messages handed to JavaScript for them.

use vstd::prelude::*;
use crate::hexcodec::{hex_decode_spec, hex_encode, hex_lower, is_lower_hex_digit, lemma_hex_lower_digits, lemma_hex_round_trip, HexDecodeError};
use vstd::utf8::encode_utf8;

verus! {

/// A reaction carried by a data message.
pub struct ReactionInfo {
    pub emoji: Option<String>,
    pub target_sent_timestamp: Option<u64>,
}

/// The group context of a data message.
pub struct GroupContextInfo {
    pub master_key: Option<Vec<u8>>,
}

/// An attachment pointer of a data message.
pub struct AttachmentInfo {
    pub content_type: Option<String>,
    pub file_name: Option<String>,
    pub size: Option<u32>,
}

/// The parts of a data message that a received message is built from.
pub struct DataMessageInfo {
    pub body: Option<String>,
    pub timestamp: Option<u64>,
    pub reaction: Option<ReactionInfo>,
    pub group_v2: Option<GroupContextInfo>,
    pub attachments: Vec<AttachmentInfo>,
}

/// The body of a received content: a data message, or any other kind
/// (receipts, typing notices, sync messages, calls, ...).
pub enum ContentBodyInfo {
    DataMessage(DataMessageInfo),
    Other,
}

/// A received content: its sender's service id in text form and its body.
pub struct ContentInfo {
    pub sender: String,
    pub body: ContentBodyInfo,
}

/// An attachment as JavaScript sees it; a missing content type is the empty string.
pub struct IncomingAttachment {
    pub content_type: String,
    pub file_name: Option<String>,
    pub size: Option<u32>,
}

/// A received message as JavaScript sees it. `is_queue_empty` marks the
/// notice that the server queue has been drained, which carries nothing else.
pub struct IncomingMessage {
    pub sender_uuid: String,
    pub timestamp: u64,
    pub text: Option<String>,
    pub group_id: Option<String>,
    pub is_reaction: bool,
    pub reaction_emoji: Option<String>,
    pub reaction_target_timestamp: Option<u64>,
    pub attachments: Vec<IncomingAttachment>,
    pub is_queue_empty: bool,
}

/// `js` is what the attachment pointer `a` becomes.
pub open spec fn attachment_converted(a: AttachmentInfo, js: IncomingAttachment) -> bool {
    &&& match a.content_type {
        Some(t) => js.content_type == t,
        None => js.content_type@ == Seq::<char>::empty(),
    }
    &&& js.file_name == a.file_name
    &&& js.size == a.size
}

/// The hex text of the group master key of a data message, if it has one.
pub open spec fn group_id_text(dm: DataMessageInfo) -> Option<Seq<char>> {
    match dm.group_v2 {
        Some(g) => match g.master_key {
            Some(k) => Some(hex_lower(k@)),
            None => None,
        },
        None => None,
    }
}

/// `m` is the message that a data message `dm` from `sender` becomes.
pub open spec fn data_message_converted(sender: String, dm: DataMessageInfo, m: IncomingMessage) -> bool {
    &&& m.sender_uuid == sender
    &&& m.timestamp == match dm.timestamp {
        Some(t) => t,
        None => 0u64,
    }
    &&& m.text == dm.body
    &&& match group_id_text(dm) {
        Some(id) => m.group_id is Some && m.group_id->Some_0@ == id,
        None => m.group_id is None,
    }
    &&& m.is_reaction == dm.reaction is Some
    &&& m.reaction_emoji == match dm.reaction {
        Some(r) => r.emoji,
        None => None,
    }
    &&& m.reaction_target_timestamp == match dm.reaction {
        Some(r) => r.target_sent_timestamp,
        None => None,
    }
    &&& m.attachments.len() == dm.attachments.len()
    &&& forall|i: int|
        0 <= i < m.attachments.len() ==> attachment_converted(
            dm.attachments[i],
            #[trigger] m.attachments[i],
        )
    &&& !m.is_queue_empty
}

/// What a received content becomes: data messages become messages, every
/// other kind of content gives nothing.
pub open spec fn content_converted(content: ContentInfo, result: Option<IncomingMessage>) -> bool {
    match content.body {
        ContentBodyInfo::DataMessage(dm) => result is Some && data_message_converted(
            content.sender,
            dm,
            result->Some_0,
        ),
        ContentBodyInfo::Other => result is None,
    }
}

/// `m` is the notice that the server queue is empty.
pub open spec fn is_queue_empty_notice(m: IncomingMessage) -> bool {
    &&& m.sender_uuid@ == Seq::<char>::empty()
    &&& m.timestamp == 0
    &&& m.text is None
    &&& m.group_id is None
    &&& !m.is_reaction
    &&& m.reaction_emoji is None
    &&& m.reaction_target_timestamp is None
    &&& m.attachments.len() == 0
    &&& m.is_queue_empty
}

/// Converts one attachment pointer.
pub fn attachment_to_js(a: AttachmentInfo) -> (js: IncomingAttachment)
    ensures
        attachment_converted(a, js),
{
    let AttachmentInfo { content_type, file_name, size } = a;
    let content_type = match content_type {
        Some(t) => t,
        None => String::new(),
    };
    IncomingAttachment { content_type, file_name, size }
}

/// Converts the attachment pointers of a data message, in order.
pub fn attachments_to_js(attachments: Vec<AttachmentInfo>) -> (list: Vec<IncomingAttachment>)
    ensures
        list.len() == attachments.len(),
        forall|i: int|
            0 <= i < list.len() ==> attachment_converted(attachments[i], #[trigger] list[i]),
{
    let ghost all = attachments@;
    let mut list: Vec<IncomingAttachment> = Vec::new();
    for a in it: attachments.into_iter()
        invariant
            it.seq() == all,
            list.len() == it.index(),
            forall|i: int| 0 <= i < list.len() ==> attachment_converted(all[i], #[trigger] list[i]),
    {
        list.push(attachment_to_js(a));
    }
    list
}

/// The hex text of the group master key of a data message, if it has one.
fn group_id_of(group_v2: &Option<GroupContextInfo>) -> (id: Option<String>)
    ensures
        match group_v2 {
            Some(g) => match g.master_key {
                Some(k) => id is Some && id->Some_0@ == hex_lower(k@),
                None => id is None,
            },
            None => id is None,
        },
{
    match group_v2 {
        Some(g) => match &g.master_key {
            Some(k) => Some(hex_encode(k.as_slice())),
            None => None,
        },
        None => None,
    }
}

/// The message handed to JavaScript for a received content: `Some` for a data
/// message, `None` for every other kind of content.
pub fn content_to_js_message(content: ContentInfo) -> (message: Option<IncomingMessage>)
    ensures
        content_converted(content, message),
{
    let ContentInfo { sender, body } = content;
    match body {
        ContentBodyInfo::DataMessage(dm) => {
            let group_id = group_id_of(&dm.group_v2);
            let DataMessageInfo { body, timestamp, reaction, group_v2: _, attachments } = dm;
            let is_reaction = reaction.is_some();
            let (reaction_emoji, reaction_target_timestamp) = match reaction {
                Some(r) => (r.emoji, r.target_sent_timestamp),
                None => (None, None),
            };
            let timestamp = match timestamp {
                Some(t) => t,
                None => 0,
            };
            let attachments = attachments_to_js(attachments);
            let message = IncomingMessage {
                sender_uuid: sender,
                timestamp,
                text: body,
                group_id,
                is_reaction,
                reaction_emoji,
                reaction_target_timestamp,
                attachments,
                is_queue_empty: false,
            };
            Some(message)
        },
        ContentBodyInfo::Other => None,
    }
}

/// The notice handed to JavaScript when the server queue has been drained.
pub fn queue_empty_notice() -> (m: IncomingMessage)
    ensures
        is_queue_empty_notice(m),
{
    IncomingMessage {
        sender_uuid: String::new(),
        timestamp: 0,
        text: None,
        group_id: None,
        is_reaction: false,
        reaction_emoji: None,
        reaction_target_timestamp: None,
        attachments: Vec::new(),
        is_queue_empty: true,
    }
}

/// A data message posted in a group whose context carries a master key `k`
/// reaches JavaScript with a group id, whatever its body, reaction or
/// attachments: the id is the lower-case hex of `k`, two digits per byte, and
/// decodes back to `k`. A data message without such a key has no group id.
pub proof fn law_group_message_carries_its_group_id(content: ContentInfo, result: Option<IncomingMessage>)
    requires
        content_converted(content, result),
        content.body is DataMessage,
    ensures
        result is Some,
        ({
            let dm = content.body->DataMessage_0;
            let m = result->Some_0;
            if dm.group_v2 is Some && dm.group_v2->Some_0.master_key is Some {
                let k = dm.group_v2->Some_0.master_key->Some_0@;
                &&& m.group_id is Some
                &&& m.group_id->Some_0@ == hex_lower(k)
                &&& m.group_id->Some_0@.len() == 2 * k.len()
                &&& forall|i: int|
                    0 <= i < m.group_id->Some_0@.len() ==> is_lower_hex_digit(
                        #[trigger] m.group_id->Some_0@[i],
                    )
                &&& hex_decode_spec(encode_utf8(m.group_id->Some_0@)) == Ok::<Seq<u8>, HexDecodeError>(k)
            } else {
                m.group_id is None
            }
        }),
{
    let dm = content.body->DataMessage_0;
    if dm.group_v2 is Some && dm.group_v2->Some_0.master_key is Some {
        let k = dm.group_v2->Some_0.master_key->Some_0@;
        lemma_hex_lower_digits(k);
        lemma_hex_round_trip(k);
    }
}

/// A received data message keeps its sender, its text (or its lack of one)
/// and its timestamp (zero when it carries none), is flagged as a reaction
/// exactly when it carries one, with that reaction's emoji and target, and is
/// never the queue-empty notice.
pub proof fn law_data_message_keeps_its_fields(content: ContentInfo, result: Option<IncomingMessage>)
    requires
        content_converted(content, result),
        content.body is DataMessage,
    ensures
        result is Some,
        ({
            let dm = content.body->DataMessage_0;
            let m = result->Some_0;
            &&& m.sender_uuid == content.sender
            &&& m.text == dm.body
            &&& dm.timestamp is Some ==> m.timestamp == dm.timestamp->Some_0
            &&& dm.timestamp is None ==> m.timestamp == 0
            &&& m.is_reaction <==> dm.reaction is Some
            &&& dm.reaction is Some ==> m.reaction_emoji == dm.reaction->Some_0.emoji
                && m.reaction_target_timestamp == dm.reaction->Some_0.target_sent_timestamp
            &&& dm.reaction is None ==> m.reaction_emoji is None && m.reaction_target_timestamp is None
            &&& !m.is_queue_empty
        }),
{
}

/// The attachments of a received data message are kept one for one, in
/// order: each keeps its file name and size, and its content type, the empty
/// text standing for a missing one.
pub proof fn law_attachments_are_kept_in_order(content: ContentInfo, result: Option<IncomingMessage>)
    requires
        content_converted(content, result),
        content.body is DataMessage,
    ensures
        result is Some,
        ({
            let dm = content.body->DataMessage_0;
            let m = result->Some_0;
            &&& m.attachments.len() == dm.attachments.len()
            &&& forall|i: int|
                #![trigger m.attachments[i]]
                0 <= i < m.attachments.len() ==> {
                    let a = dm.attachments[i];
                    let js = m.attachments[i];
                    &&& js.file_name == a.file_name
                    &&& js.size == a.size
                    &&& a.content_type is Some ==> js.content_type == a.content_type->Some_0
                    &&& a.content_type is None ==> js.content_type@.len() == 0
                }
        }),
{
    let m = result->Some_0;
    let dm = content.body->DataMessage_0;
    assert forall|i: int| 0 <= i < m.attachments.len() implies {
        let a = dm.attachments[i];
        let js = #[trigger] m.attachments[i];
        &&& js.file_name == a.file_name
        &&& js.size == a.size
        &&& a.content_type is Some ==> js.content_type == a.content_type->Some_0
        &&& a.content_type is None ==> js.content_type@.len() == 0
    } by {
        assert(attachment_converted(dm.attachments[i], m.attachments[i]));
    }
}

/// Only data messages reach JavaScript: every other kind of content gives nothing.
pub proof fn law_only_data_messages_are_converted(content: ContentInfo, result: Option<IncomingMessage>)
    requires
        content_converted(content, result),
    ensures
        result is Some <==> content.body is DataMessage,
{
}

} // verus!
