use signal_native::clock::{elapsed_millis, millis_to_timestamp, now_millis, timestamp_from_elapsed};
use signal_native::errors::{error_message, hex_error_message, SignalError};
use signal_native::hexcodec::HexDecodeError;
use signal_native::message::{
    content_to_js_message, queue_empty_notice, AttachmentInfo, ContentBodyInfo, ContentInfo,
    DataMessageInfo, GroupContextInfo, ReactionInfo,
};
use signal_native::outgoing::{decode_group_key, reaction_message, text_message};
use signal_native::receive::{receive_step, ReceiveAction, ReceiveEvent};
use signal_native::records::{
    contact_to_js, list_contacts, group_to_js, list_groups, get_profile, ContactRecord,
    GroupRecord,
};
use signal_native::registry::Registry;
use signal_native::session::{confirm_registration, register, take_link_session, ManagerEntry};

fn group(key: &[u8], title: &str, members: usize) -> GroupRecord {
    GroupRecord {
        master_key: key.to_vec(),
        title: title.to_string(),
        description: None,
        member_count: members,
    }
}

fn data_message(body: Option<&str>, timestamp: Option<u64>) -> DataMessageInfo {
    DataMessageInfo {
        body: body.map(|b| b.to_string()),
        timestamp,
        reaction: None,
        group_v2: None,
        attachments: vec![],
    }
}

#[test]
fn group_id_is_lower_case_hex_of_master_key() {
    let js = group_to_js(group(&[0x0a, 0xff, 0x00, 0x7b], "Friends", 3));
    assert_eq!(js.id, "0aff007b");
    assert_eq!(js.name, "Friends");
    assert_eq!(js.description, None);
    assert_eq!(js.members_count, 3);
}

#[test]
fn group_member_count_is_cut_to_32_bits() {
    let js = group_to_js(group(&[], "Big", (1usize << 32) + 5));
    assert_eq!(js.id, "");
    assert_eq!(js.members_count, 5);
}

#[test]
fn listed_group_id_decodes_to_its_master_key() {
    let key: Vec<u8> = (0u8..32).map(|i| i.wrapping_mul(37)).collect();
    let js = group_to_js(group(&key, "G", 1));
    assert_eq!(js.id.len(), 64);
    assert!(js.id.chars().all(|c| c.is_ascii_digit() || ('a'..='f').contains(&c)));
    assert_eq!(decode_group_key(&js.id).unwrap(), key);
}

#[test]
fn group_key_accepts_upper_and_mixed_case() {
    assert_eq!(decode_group_key("F9b4CA").unwrap(), vec![0xf9, 0xb4, 0xca]);
    assert_eq!(decode_group_key("").unwrap(), Vec::<u8>::new());
}

#[test]
fn group_key_of_odd_length_is_refused() {
    assert_eq!(
        decode_group_key("abc"),
        Err(SignalError::InvalidHexGroupKey(HexDecodeError::OddLength))
    );
}

#[test]
fn group_key_reports_first_bad_character() {
    assert_eq!(
        decode_group_key("00zg"),
        Err(SignalError::InvalidHexGroupKey(HexDecodeError::InvalidHexCharacter { c: 'z', index: 2 }))
    );
    assert_eq!(
        decode_group_key("0g"),
        Err(SignalError::InvalidHexGroupKey(HexDecodeError::InvalidHexCharacter { c: 'g', index: 1 }))
    );
}

#[test]
fn contact_with_empty_name_has_no_name() {
    let js = contact_to_js(ContactRecord {
        uuid: "u-1".to_string(),
        phone_number: Some("+15550001".to_string()),
        name: String::new(),
    });
    assert_eq!(js.uuid, "u-1");
    assert_eq!(js.phone_number.as_deref(), Some("+15550001"));
    assert_eq!(js.name, None);
}

#[test]
fn contact_list_skips_failed_reads_and_keeps_order() {
    let reads = vec![
        Some(ContactRecord { uuid: "a".to_string(), phone_number: None, name: "Ann".to_string() }),
        None,
        Some(ContactRecord { uuid: "b".to_string(), phone_number: None, name: String::new() }),
    ];
    let list = list_contacts(reads);
    assert_eq!(list.len(), 2);
    assert_eq!(list[0].uuid, "a");
    assert_eq!(list[0].name.as_deref(), Some("Ann"));
    assert_eq!(list[1].uuid, "b");
    assert_eq!(list[1].name, None);
}

#[test]
fn group_list_skips_failed_reads() {
    let list = list_groups(vec![None, Some(group(&[1], "One", 2)), None]);
    assert_eq!(list.len(), 1);
    assert_eq!(list[0].id, "01");
    assert_eq!(list[0].members_count, 2);
}

#[test]
fn profile_has_phone_number() {
    let p = get_profile("aci-1".to_string(), "+4911".to_string());
    assert_eq!(p.uuid, "aci-1");
    assert_eq!(p.phone_number.as_deref(), Some("+4911"));
}

#[test]
fn data_message_is_converted() {
    let mut dm = data_message(Some("hello"), Some(1700000000123));
    dm.group_v2 = Some(GroupContextInfo { master_key: Some(vec![0xab, 0x01]) });
    dm.attachments = vec![
        AttachmentInfo { content_type: Some("image/png".to_string()), file_name: Some("a.png".to_string()), size: Some(10) },
        AttachmentInfo { content_type: None, file_name: None, size: None },
    ];
    let m = content_to_js_message(ContentInfo {
        sender: "sender-uuid".to_string(),
        body: ContentBodyInfo::DataMessage(dm),
    })
    .unwrap();
    assert_eq!(m.sender_uuid, "sender-uuid");
    assert_eq!(m.timestamp, 1700000000123);
    assert_eq!(m.text.as_deref(), Some("hello"));
    assert_eq!(m.group_id.as_deref(), Some("ab01"));
    assert!(!m.is_reaction);
    assert_eq!(m.reaction_emoji, None);
    assert_eq!(m.reaction_target_timestamp, None);
    assert_eq!(m.attachments.len(), 2);
    assert_eq!(m.attachments[0].content_type, "image/png");
    assert_eq!(m.attachments[0].file_name.as_deref(), Some("a.png"));
    assert_eq!(m.attachments[0].size, Some(10));
    assert_eq!(m.attachments[1].content_type, "");
    assert_eq!(m.attachments[1].size, None);
    assert!(!m.is_queue_empty);
}

#[test]
fn missing_timestamp_is_zero_and_group_without_key_has_no_id() {
    let mut dm = data_message(None, None);
    dm.group_v2 = Some(GroupContextInfo { master_key: None });
    let m = content_to_js_message(ContentInfo { sender: "s".to_string(), body: ContentBodyInfo::DataMessage(dm) }).unwrap();
    assert_eq!(m.timestamp, 0);
    assert_eq!(m.text, None);
    assert_eq!(m.group_id, None);
}

#[test]
fn reaction_is_converted() {
    let mut dm = data_message(None, Some(5));
    dm.reaction = Some(ReactionInfo { emoji: Some("👍".to_string()), target_sent_timestamp: Some(42) });
    let m = content_to_js_message(ContentInfo { sender: "s".to_string(), body: ContentBodyInfo::DataMessage(dm) }).unwrap();
    assert!(m.is_reaction);
    assert_eq!(m.reaction_emoji.as_deref(), Some("👍"));
    assert_eq!(m.reaction_target_timestamp, Some(42));
}

#[test]
fn other_content_gives_no_message() {
    let m = content_to_js_message(ContentInfo { sender: "s".to_string(), body: ContentBodyInfo::Other });
    assert!(m.is_none());
}

#[test]
fn queue_empty_notice_carries_nothing() {
    let m = queue_empty_notice();
    assert!(m.is_queue_empty);
    assert_eq!(m.sender_uuid, "");
    assert_eq!(m.timestamp, 0);
    assert!(m.text.is_none() && m.group_id.is_none() && m.attachments.is_empty());
    assert!(!m.is_reaction);
}

#[test]
fn receive_loop_decisions() {
    assert!(matches!(receive_step(ReceiveEvent::StopSignal { requested: true }), ReceiveAction::Stop));
    assert!(matches!(receive_step(ReceiveEvent::StopSignal { requested: false }), ReceiveAction::Continue));
    assert!(matches!(receive_step(ReceiveEvent::ContactsSynchronized), ReceiveAction::Continue));
    assert!(matches!(receive_step(ReceiveEvent::StreamEnded), ReceiveAction::Stop));
    match receive_step(ReceiveEvent::QueueEmpty) {
        ReceiveAction::Deliver(m) => assert!(m.is_queue_empty),
        _ => panic!("queue empty must be delivered"),
    }
    let content = ContentInfo { sender: "x".to_string(), body: ContentBodyInfo::DataMessage(data_message(Some("hi"), Some(9))) };
    match receive_step(ReceiveEvent::Content(content)) {
        ReceiveAction::Deliver(m) => {
            assert_eq!(m.text.as_deref(), Some("hi"));
            assert_eq!(m.sender_uuid, "x");
        }
        _ => panic!("data message must be delivered"),
    }
    let other = ContentInfo { sender: "x".to_string(), body: ContentBodyInfo::Other };
    assert!(matches!(receive_step(ReceiveEvent::Content(other)), ReceiveAction::Continue));
}

#[test]
fn sent_text_message_round_trips() {
    let out = text_message("hey".to_string(), 77);
    assert_eq!(out.body.as_deref(), Some("hey"));
    assert_eq!(out.timestamp, Some(77));
    assert!(out.reaction.is_none());
    let dm = DataMessageInfo { body: out.body, timestamp: out.timestamp, reaction: None, group_v2: None, attachments: vec![] };
    let m = content_to_js_message(ContentInfo { sender: "me".to_string(), body: ContentBodyInfo::DataMessage(dm) }).unwrap();
    assert_eq!(m.text.as_deref(), Some("hey"));
    assert_eq!(m.timestamp, 77);
}

#[test]
fn sent_reaction_round_trips() {
    let out = reaction_message("❤".to_string(), 1234, 99);
    assert!(out.body.is_none());
    assert_eq!(out.timestamp, Some(99));
    let r = out.reaction.unwrap();
    assert_eq!(r.emoji.as_deref(), Some("❤"));
    assert_eq!(r.target_sent_timestamp, Some(1234));
    let dm = DataMessageInfo {
        body: None,
        timestamp: Some(99),
        reaction: Some(ReactionInfo { emoji: r.emoji, target_sent_timestamp: r.target_sent_timestamp }),
        group_v2: None,
        attachments: vec![],
    };
    let m = content_to_js_message(ContentInfo { sender: "me".to_string(), body: ContentBodyInfo::DataMessage(dm) }).unwrap();
    assert!(m.is_reaction);
    assert_eq!(m.reaction_emoji.as_deref(), Some("❤"));
    assert_eq!(m.reaction_target_timestamp, Some(1234));
}

#[test]
fn registry_keeps_one_value_per_path() {
    let mut r: Registry<u32> = Registry::new();
    let a = "/data/a".to_string();
    let b = "/data/b".to_string();
    assert_eq!(r.insert(a.clone(), 1), None);
    assert_eq!(r.insert(b.clone(), 2), None);
    assert_eq!(r.get(&a), Some(&1));
    assert_eq!(r.insert(a.clone(), 3), Some(1));
    assert_eq!(r.get(&a), Some(&3));
    assert_eq!(r.get(&b), Some(&2));
    assert!(r.contains(&b));
    assert_eq!(r.remove(&b), Some(2));
    assert!(!r.contains(&b));
    assert_eq!(r.remove(&b), None);
    assert_eq!(r.get(&"/other".to_string()), None);
}

#[test]
fn link_session_is_finished_once() {
    let mut sessions: Registry<&str> = Registry::new();
    let path = "/store".to_string();
    assert_eq!(take_link_session(&mut sessions, &path), Err(SignalError::NoActiveLinkingSession));
    sessions.insert(path.clone(), "handle");
    assert_eq!(take_link_session(&mut sessions, &path), Ok("handle"));
    assert_eq!(take_link_session(&mut sessions, &path), Err(SignalError::NoActiveLinkingSession));
}

#[test]
fn stop_switch_is_taken_once() {
    let mut entry: ManagerEntry<&str, u8> = ManagerEntry::new("manager");
    assert_eq!(entry.take_cancel(), None);
    entry.install_cancel(1);
    entry.install_cancel(2);
    assert_eq!(entry.take_cancel(), Some(2));
    assert_eq!(entry.take_cancel(), None);
    assert_eq!(entry.manager, "manager");
}

#[test]
fn registration_is_refused() {
    assert_eq!(register("/d".to_string(), "+1".to_string(), false), Err(SignalError::RegistrationUnsupported));
    assert_eq!(confirm_registration("/d".to_string(), "123".to_string()), Err(SignalError::RegistrationUnsupported));
}

#[test]
fn timestamp_is_cut_to_64_bits() {
    assert_eq!(millis_to_timestamp(1_700_000_000_000), 1_700_000_000_000);
    assert_eq!(millis_to_timestamp((1u128 << 64) + 7), 7);
}

#[test]
fn clock_reads_after_2020() {
    let now = now_millis().unwrap();
    assert!(now > 1_577_836_800_000);
}

#[test]
fn refusals_are_answered_with_their_text() {
    assert_eq!(
        error_message(&SignalError::InvalidHexGroupKey(HexDecodeError::InvalidHexCharacter { c: 'z', index: 12 })),
        "Invalid hex group key: Invalid character 'z' at position 12"
    );
    assert_eq!(
        error_message(&SignalError::InvalidHexGroupKey(HexDecodeError::OddLength)),
        "Invalid hex group key: Odd number of digits"
    );
    assert_eq!(hex_error_message(HexDecodeError::InvalidHexCharacter { c: '\n', index: 0 }), "Invalid character '\\n' at position 0");
    assert_eq!(hex_error_message(HexDecodeError::InvalidStringLength), "Invalid string length");
    assert_eq!(error_message(&SignalError::NoActiveLinkingSession), "No active linking session");
    assert_eq!(
        error_message(&SignalError::RegistrationUnsupported),
        "Primary registration not yet supported. Use linkDevice() to link as secondary device."
    );
    assert_eq!(
        error_message(&SignalError::InvalidRecipientServiceId("bob".to_string())),
        "Invalid recipient ServiceId: bob"
    );
    assert_eq!(error_message(&SignalError::InvalidRecipient("x".to_string())), "Invalid recipient: x");
}

#[test]
fn elapsed_time_is_cut_to_whole_milliseconds() {
    assert_eq!(elapsed_millis(1_700_000_000, 999_999_999), 1_700_000_000_999);
    assert_eq!(elapsed_millis(0, 999_999), 0);
    assert_eq!(elapsed_millis(u64::MAX, 0), u64::MAX as u128 * 1000);
    assert_eq!(timestamp_from_elapsed(Some((2, 5_000_000))), Some(2005));
    assert_eq!(timestamp_from_elapsed(None), None);
}

#[test]
fn long_positions_are_written_in_decimal() {
    assert_eq!(
        hex_error_message(HexDecodeError::InvalidHexCharacter { c: 'q', index: 1234567 }),
        "Invalid character 'q' at position 1234567"
    );
    assert_eq!(
        hex_error_message(HexDecodeError::InvalidHexCharacter { c: 'q', index: 10 }),
        "Invalid character 'q' at position 10"
    );
}
