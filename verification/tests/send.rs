use weixin_agent::messaging::send::{build_text_message, build_text_message_with_id, generate_client_id};
use weixin_agent::types::{MessageItemType, MessageState, MessageType};

#[test]
fn build_text_message_structure() {
    let req = build_text_message("user123", "hi", None);
    let msg = &req.msg;
    assert_eq!(msg.to_user_id.as_deref(), Some("user123"));
    assert_eq!(msg.message_type, Some(MessageType::Bot));
    assert_eq!(msg.message_state, Some(MessageState::Finish));
    let items = msg.item_list.as_ref().unwrap();
    assert_eq!(items.len(), 1);
    assert_eq!(items[0].item_type, Some(MessageItemType::Text));
    assert_eq!(items[0].text_item.as_ref().unwrap().text.as_deref(), Some("hi"));
}

#[test]
fn build_text_message_empty_text() {
    let req = build_text_message("user123", "", None);
    assert!(req.msg.item_list.is_none());
}

#[test]
fn build_text_message_with_context_token() {
    let req = build_text_message("u", "t", Some("ctx_tok"));
    assert_eq!(req.msg.context_token.as_deref(), Some("ctx_tok"));
}

#[test]
fn generate_client_id_format() {
    let id = generate_client_id();
    assert!(id.starts_with("weixin-agent:"));
}

#[test]
fn text_message_envelope_exact() {
    let req = build_text_message_with_id("bob", "yo", None, "cid-1".to_string());
    assert_eq!(req.msg.client_id.as_deref(), Some("cid-1"));
    assert_eq!(req.msg.from_user_id.as_deref(), Some(""));
    assert!(req.msg.context_token.is_none());
    assert!(req.msg.seq.is_none());
    assert_eq!(req.base_info.channel_version.as_deref(), Some("2.1.1"));
    let req2 = build_text_message("bob", "yo", None);
    assert!(req2.msg.client_id.unwrap().starts_with("weixin-agent:"));
}
