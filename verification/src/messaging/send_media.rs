//! Media message construction, routed by MIME type.
//!
//! Uploading the file and sending the requests are the caller's; this module
//! decides the upload type and builds the message items and requests.
use vstd::prelude::*;
use vstd::utf8::*;
use vstd::string::StringExecFns;
use crate::cdn::upload::CdnUploadResult;
use crate::messaging::send::{
    build_text_message_with_id, is_outbound_message, is_text_message, outbound_message,
};
use crate::types::{
    build_base_info, is_current_base_info, CdnMedia, FileItem, ImageItem, MessageItem,
    MessageItemType, SendMessageRequest, UploadMediaType, VideoItem,
};
use crate::util::b64::{base64_encode, base64_encode_bytes};
use crate::util::text::{chars_of, decimal, opt_str_view, opt_view, push_decimal, string_from_chars};

verus! {

/// Whether `s` starts with `prefix`.
pub open spec fn has_prefix(s: Seq<char>, prefix: Seq<char>) -> bool {
    prefix.len() <= s.len() && s.take(prefix.len() as int) == prefix
}

/// The upload type for a MIME type: video, image, or a generic file.
pub open spec fn spec_media_route(mime: Seq<char>) -> UploadMediaType {
    if has_prefix(mime, "video/"@) {
        UploadMediaType::Video
    } else if has_prefix(mime, "image/"@) {
        UploadMediaType::Image
    } else {
        UploadMediaType::File
    }
}

fn starts_with(s: &str, prefix: &str) -> (r: bool)
    ensures
        r == has_prefix(s@, prefix@),
{
    let v = chars_of(s);
    let p = chars_of(prefix);
    if p.len() > v.len() {
        return false;
    }
    let mut i: usize = 0;
    while i < p.len()
        invariant
            p@.len() <= v@.len(),
            v@ == s@,
            p@ == prefix@,
            i <= p@.len(),
            forall|j: int| 0 <= j < i ==> v@[j] == p@[j],
        decreases p@.len() - i,
    {
        if v[i] != p[i] {
            assert(v@.take(p@.len() as int)[i as int] != p@[i as int]);
            return false;
        }
        i = i + 1;
    }
    assert(v@.take(p@.len() as int) =~= p@);
    true
}

/// The upload type for a file of MIME type `mime`.
pub fn media_route(mime: &str) -> (t: UploadMediaType)
    ensures
        t == spec_media_route(mime@),
{
    if starts_with(mime, "video/") {
        UploadMediaType::Video
    } else if starts_with(mime, "image/") {
        UploadMediaType::Image
    } else {
        UploadMediaType::File
    }
}

/// True when `m` references the uploaded file: its download parameter, its key
/// (base64 of the hex key), packed encryption, no full URL.
pub open spec fn is_uploaded_media(m: CdnMedia, uploaded: CdnUploadResult) -> bool {
    &&& opt_view(m.encrypt_query_param) == Some(uploaded.encrypt_query_param@)
    &&& opt_view(m.aes_key) == Some(base64_encode(encode_utf8(uploaded.aes_key_hex@)))
    &&& m.encrypt_type == Some(1i32)
    &&& m.full_url is None
}

fn uploaded_media(uploaded: &CdnUploadResult) -> (m: CdnMedia)
    ensures
        is_uploaded_media(m, *uploaded),
{
    CdnMedia {
        encrypt_query_param: Some(uploaded.encrypt_query_param.clone()),
        aes_key: Some(base64_encode_bytes(uploaded.aes_key_hex.as_str().as_bytes())),
        encrypt_type: Some(1),
        full_url: None,
    }
}

/// True when `item` carries only the given content kind.
pub open spec fn item_frame(item: MessageItem, t: MessageItemType) -> bool {
    &&& item.item_type == Some(t)
    &&& item.create_time_ms is None
    &&& item.update_time_ms is None
    &&& item.is_completed is None
    &&& item.msg_id is None
    &&& item.ref_msg is None
    &&& item.text_item is None
    &&& item.voice_item is None
    &&& (t != MessageItemType::Image ==> item.image_item is None)
    &&& (t != MessageItemType::File ==> item.file_item is None)
    &&& (t != MessageItemType::Video ==> item.video_item is None)
}

/// True when `item` is the image item for `uploaded`.
pub open spec fn is_image_item(item: MessageItem, uploaded: CdnUploadResult) -> bool {
    &&& item_frame(item, MessageItemType::Image)
    &&& item.image_item matches Some(img) && {
        &&& img.media matches Some(m) && is_uploaded_media(m, uploaded)
        &&& img.mid_size == Some(uploaded.file_size_ciphertext as i64)
        &&& img.thumb_media is None
        &&& img.aeskey is None
        &&& img.url is None
        &&& img.thumb_size is None
        &&& img.thumb_height is None
        &&& img.thumb_width is None
        &&& img.hd_size is None
    }
}

/// True when `item` is the video item for `uploaded`.
pub open spec fn is_video_item(item: MessageItem, uploaded: CdnUploadResult) -> bool {
    &&& item_frame(item, MessageItemType::Video)
    &&& item.video_item matches Some(v) && {
        &&& v.media matches Some(m) && is_uploaded_media(m, uploaded)
        &&& v.video_size == Some(uploaded.file_size_ciphertext as i64)
        &&& v.play_length is None
        &&& v.video_md5 is None
        &&& v.thumb_media is None
        &&& v.thumb_size is None
        &&& v.thumb_height is None
        &&& v.thumb_width is None
    }
}

/// True when `item` is the file item for `uploaded` named `filename`.
pub open spec fn is_file_item(item: MessageItem, filename: Seq<char>, uploaded: CdnUploadResult) -> bool {
    &&& item_frame(item, MessageItemType::File)
    &&& item.file_item matches Some(f) && {
        &&& f.media matches Some(m) && is_uploaded_media(m, uploaded)
        &&& opt_view(f.file_name) == Some(filename)
        &&& opt_view(f.len) == Some(decimal(uploaded.file_size as nat))
        &&& f.md5 is None
    }
}

/// Image message item for an uploaded file.
pub fn build_image_item(_filename: &str, uploaded: &CdnUploadResult) -> (item: MessageItem)
    ensures
        is_image_item(item, *uploaded),
{
    #[verifier::truncate]
    let mid_size = uploaded.file_size_ciphertext as i64;
    MessageItem {
        item_type: Some(MessageItemType::Image),
        create_time_ms: None,
        update_time_ms: None,
        is_completed: None,
        msg_id: None,
        ref_msg: None,
        text_item: None,
        image_item: Some(
            ImageItem {
                media: Some(uploaded_media(uploaded)),
                thumb_media: None,
                aeskey: None,
                url: None,
                mid_size: Some(mid_size),
                thumb_size: None,
                thumb_height: None,
                thumb_width: None,
                hd_size: None,
            },
        ),
        voice_item: None,
        file_item: None,
        video_item: None,
    }
}

/// Video message item for an uploaded file.
pub fn build_video_item(_filename: &str, uploaded: &CdnUploadResult) -> (item: MessageItem)
    ensures
        is_video_item(item, *uploaded),
{
    #[verifier::truncate]
    let video_size = uploaded.file_size_ciphertext as i64;
    MessageItem {
        item_type: Some(MessageItemType::Video),
        create_time_ms: None,
        update_time_ms: None,
        is_completed: None,
        msg_id: None,
        ref_msg: None,
        text_item: None,
        image_item: None,
        voice_item: None,
        file_item: None,
        video_item: Some(
            VideoItem {
                media: Some(uploaded_media(uploaded)),
                video_size: Some(video_size),
                play_length: None,
                video_md5: None,
                thumb_media: None,
                thumb_size: None,
                thumb_height: None,
                thumb_width: None,
            },
        ),
    }
}

/// File message item for an uploaded file named `filename`.
pub fn build_file_item(filename: &str, uploaded: &CdnUploadResult) -> (item: MessageItem)
    ensures
        is_file_item(item, filename@, *uploaded),
{
    let mut len: Vec<char> = Vec::new();
    push_decimal(&mut len, uploaded.file_size as u128);
    assert(len@ =~= decimal(uploaded.file_size as nat));
    MessageItem {
        item_type: Some(MessageItemType::File),
        create_time_ms: None,
        update_time_ms: None,
        is_completed: None,
        msg_id: None,
        ref_msg: None,
        text_item: None,
        image_item: None,
        voice_item: None,
        file_item: Some(
            FileItem {
                media: Some(uploaded_media(uploaded)),
                file_name: Some(String::from_str(filename)),
                md5: None,
                len: Some(string_from_chars(&len)),
            },
        ),
        video_item: None,
    }
}

/// True when `item` is the media item [`build_media_item`] builds for `t`.
pub open spec fn is_media_item(
    item: MessageItem,
    t: UploadMediaType,
    filename: Seq<char>,
    uploaded: CdnUploadResult,
) -> bool {
    match t {
        UploadMediaType::Video => is_video_item(item, uploaded),
        UploadMediaType::Image => is_image_item(item, uploaded),
        _ => is_file_item(item, filename, uploaded),
    }
}

/// The message item for an upload of type `t`: video and image items for
/// those types, a file item otherwise.
pub fn build_media_item(t: UploadMediaType, filename: &str, uploaded: &CdnUploadResult) -> (item: MessageItem)
    ensures
        is_media_item(item, t, filename@, *uploaded),
{
    match t {
        UploadMediaType::Video => build_video_item(filename, uploaded),
        UploadMediaType::Image => build_image_item(filename, uploaded),
        _ => build_file_item(filename, uploaded),
    }
}

/// The request that sends one media item.
pub fn build_media_message(
    to: &str,
    item: MessageItem,
    context_token: Option<&str>,
    client_id: String,
) -> (req: SendMessageRequest)
    ensures
        is_outbound_message(req.msg, to@, client_id@, opt_str_view(context_token)),
        req.msg.item_list matches Some(items) && items@.len() == 1 && items@[0] == item,
        is_current_base_info(req.base_info),
{
    let mut items: Vec<MessageItem> = Vec::new();
    items.push(item);
    SendMessageRequest {
        msg: outbound_message(to, client_id, Some(items), context_token),
        base_info: build_base_info(),
    }
}

/// The requests that send a media item with an optional caption, in the order
/// they are sent: the caption's text message first when `text` is not empty,
/// then the media message. Sending stops at the first failure.
pub fn media_send_requests(
    to: &str,
    text: &str,
    context_token: Option<&str>,
    text_client_id: String,
    item: MessageItem,
    media_client_id: String,
) -> (reqs: Vec<SendMessageRequest>)
    ensures
        reqs@.len() == if text@.len() == 0 {
            1int
        } else {
            2int
        },
        text@.len() > 0 ==> is_text_message(
            reqs@[0],
            to@,
            text@,
            opt_str_view(context_token),
            text_client_id@,
        ),
        is_outbound_message(
            reqs@.last().msg,
            to@,
            media_client_id@,
            opt_str_view(context_token),
        ),
        reqs@.last().msg.item_list matches Some(items) && items@.len() == 1 && items@[0] == item,
        is_current_base_info(reqs@.last().base_info),
{
    let mut reqs: Vec<SendMessageRequest> = Vec::new();
    if !text.is_empty() {
        reqs.push(build_text_message_with_id(to, text, context_token, text_client_id));
    }
    reqs.push(build_media_message(to, item, context_token, media_client_id));
    reqs
}

/// Whether `m` begins with the six characters of `prefix`.
pub open spec fn begins_with6(m: Seq<char>, prefix: Seq<char>) -> bool {
    m.len() >= 6 && m.subrange(0, 6) == prefix
}

/// Every `video/*` type is sent as a video, every `image/*` type as an image,
/// and every other type as a file.
pub proof fn law_media_route(m: Seq<char>)
    ensures
        begins_with6(m, "video/"@) ==> spec_media_route(m) == UploadMediaType::Video,
        begins_with6(m, "image/"@) ==> spec_media_route(m) == UploadMediaType::Image,
        !begins_with6(m, "video/"@) && !begins_with6(m, "image/"@) ==> spec_media_route(m)
            == UploadMediaType::File,
{
    reveal_strlit("video/");
    reveal_strlit("image/");
    assert("video/"@.len() == 6);
    assert("image/"@.len() == 6);
    if m.len() >= 6 {
        assert(m.take(6) =~= m.subrange(0, 6));
        if begins_with6(m, "image/"@) {
            assert(m.subrange(0, 6)[0] == 'i');
            assert("video/"@[0] == 'v');
        }
    }
}

} // verus!
