use weixin_agent::types::{
    build_base_info, MessageItemType, MessageState, MessageType, TypingStatus, UploadMediaType,
};

#[test]
fn wire_values_round_trip() {
    for v in 0u8..=10 {
        if let Some(t) = UploadMediaType::from_wire(v) {
            assert_eq!(t.wire_value(), v);
        }
        if let Some(t) = MessageType::from_wire(v) {
            assert_eq!(t.wire_value(), v);
        }
        if let Some(t) = MessageItemType::from_wire(v) {
            assert_eq!(t.wire_value(), v);
        }
        if let Some(t) = MessageState::from_wire(v) {
            assert_eq!(t.wire_value(), v);
        }
        if let Some(t) = TypingStatus::from_wire(v) {
            assert_eq!(t.wire_value(), v);
        }
    }
}

#[test]
fn wire_value_examples() {
    assert_eq!(UploadMediaType::Image.wire_value(), 1);
    assert_eq!(UploadMediaType::Voice.wire_value(), 4);
    assert_eq!(UploadMediaType::from_wire(0), None);
    assert_eq!(MessageType::from_wire(0), Some(MessageType::Unset));
    assert_eq!(MessageType::Bot.wire_value(), 2);
    assert_eq!(MessageItemType::Video.wire_value(), 5);
    assert_eq!(MessageItemType::from_wire(6), None);
    assert_eq!(MessageState::Finish.wire_value(), 2);
    assert_eq!(TypingStatus::Cancel.wire_value(), 2);
    assert_eq!(TypingStatus::from_wire(0), None);
}

#[test]
fn base_info_carries_channel_version() {
    assert_eq!(build_base_info().channel_version.as_deref(), Some("2.1.1"));
}
