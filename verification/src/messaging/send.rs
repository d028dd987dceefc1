//! Text message construction.
use vstd::prelude::*;
use vstd::string::StringExecFns;
use crate::types::{
    build_base_info, is_current_base_info, MessageItem, MessageItemType, MessageState,
    MessageType, SendMessageRequest, TextItem, WeixinMessage,
};
use crate::util::random::{generate_id, is_generated_id};
use crate::util::text::{opt_str_view, opt_view};

verus! {

/// Prefix of the IDs of outbound messages.
pub const CLIENT_ID_PREFIX: &'static str = "weixin-agent";

/// Generate a client ID for outbound messages.
pub fn generate_client_id() -> (s: String)
    ensures
        is_generated_id(CLIENT_ID_PREFIX@, s@),
{
    generate_id(CLIENT_ID_PREFIX)
}

/// True when `item` is a text item holding exactly `text`, with nothing else set.
pub open spec fn is_text_item(item: MessageItem, text: Seq<char>) -> bool {
    &&& item.item_type == Some(MessageItemType::Text)
    &&& item.text_item matches Some(t) && opt_view(t.text) == Some(text)
    &&& item.create_time_ms is None
    &&& item.update_time_ms is None
    &&& item.is_completed is None
    &&& item.msg_id is None
    &&& item.ref_msg is None
    &&& item.image_item is None
    &&& item.voice_item is None
    &&& item.file_item is None
    &&& item.video_item is None
}

/// True when `msg` is an outbound bot message to `to` with ID `client_id`,
/// the given items and context token, and nothing else set.
pub open spec fn is_outbound_message(
    msg: WeixinMessage,
    to: Seq<char>,
    client_id: Seq<char>,
    context_token: Option<Seq<char>>,
) -> bool {
    &&& opt_view(msg.from_user_id) == Some(Seq::<char>::empty())
    &&& opt_view(msg.to_user_id) == Some(to)
    &&& opt_view(msg.client_id) == Some(client_id)
    &&& msg.message_type == Some(MessageType::Bot)
    &&& msg.message_state == Some(MessageState::Finish)
    &&& opt_view(msg.context_token) == context_token
    &&& msg.seq is None
    &&& msg.message_id is None
    &&& msg.create_time_ms is None
    &&& msg.update_time_ms is None
    &&& msg.delete_time_ms is None
    &&& msg.session_id is None
    &&& msg.group_id is None
}

/// True when `req` is the text message [`build_text_message`] builds: no items
/// for empty text, else one text item.
pub open spec fn is_text_message(
    req: SendMessageRequest,
    to: Seq<char>,
    text: Seq<char>,
    context_token: Option<Seq<char>>,
    client_id: Seq<char>,
) -> bool {
    &&& is_outbound_message(req.msg, to, client_id, context_token)
    &&& if text.len() == 0 {
        req.msg.item_list is None
    } else {
        req.msg.item_list matches Some(items) && items@.len() == 1 && is_text_item(items@[0], text)
    }
    &&& is_current_base_info(req.base_info)
}

/// Copies an optional string slice.
pub fn opt_to_string(s: Option<&str>) -> (r: Option<String>)
    ensures
        opt_view(r) == opt_str_view(s),
{
    match s {
        Some(x) => Some(String::from_str(x)),
        None => None,
    }
}

/// The outbound message envelope around `items`.
pub fn outbound_message(
    to: &str,
    client_id: String,
    items: Option<Vec<MessageItem>>,
    context_token: Option<&str>,
) -> (m: WeixinMessage)
    ensures
        is_outbound_message(m, to@, client_id@, opt_str_view(context_token)),
        m.item_list == items,
{
    WeixinMessage {
        seq: None,
        message_id: None,
        from_user_id: Some(String::new()),
        to_user_id: Some(String::from_str(to)),
        client_id: Some(client_id),
        create_time_ms: None,
        update_time_ms: None,
        delete_time_ms: None,
        session_id: None,
        group_id: None,
        message_type: Some(MessageType::Bot),
        message_state: Some(MessageState::Finish),
        item_list: items,
        context_token: opt_to_string(context_token),
    }
}

/// Build a text `SendMessageRequest` with the given client ID.
pub fn build_text_message_with_id(
    to: &str,
    text: &str,
    context_token: Option<&str>,
    client_id: String,
) -> (req: SendMessageRequest)
    ensures
        is_text_message(req, to@, text@, opt_str_view(context_token), client_id@),
{
    let item_list = if text.is_empty() {
        None
    } else {
        let mut items: Vec<MessageItem> = Vec::new();
        items.push(
            MessageItem {
                item_type: Some(MessageItemType::Text),
                create_time_ms: None,
                update_time_ms: None,
                is_completed: None,
                msg_id: None,
                ref_msg: None,
                text_item: Some(TextItem { text: Some(String::from_str(text)) }),
                image_item: None,
                voice_item: None,
                file_item: None,
                video_item: None,
            },
        );
        Some(items)
    };
    SendMessageRequest {
        msg: outbound_message(to, client_id, item_list, context_token),
        base_info: build_base_info(),
    }
}

/// Build a `SendMessageRequest` for a text message.
pub fn build_text_message(to: &str, text: &str, context_token: Option<&str>) -> (req: SendMessageRequest)
    ensures
        req.msg.client_id matches Some(id) && is_generated_id(CLIENT_ID_PREFIX@, id@)
            && is_text_message(req, to@, text@, opt_str_view(context_token), id@),
{
    let id = generate_client_id();
    build_text_message_with_id(to, text, context_token, id)
}

} // verus!
