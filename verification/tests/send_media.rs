use weixin_agent::cdn::upload::CdnUploadResult;
use weixin_agent::media::mime::{get_mime_from_filename, media_file_name};
use weixin_agent::messaging::send_media::{
    build_file_item, build_image_item, build_media_item, build_media_message, build_video_item,
    media_route,
};
use weixin_agent::types::{MessageItemType, MessageState, MessageType, UploadMediaType};

fn uploaded() -> CdnUploadResult {
    CdnUploadResult {
        encrypt_query_param: "dl-param".into(),
        aes_key_base64: "unused".into(),
        aes_key_hex: "00112233445566778899aabbccddeeff".into(),
        file_size: 1234,
        file_size_ciphertext: 1248,
        filekey: "fk".into(),
    }
}

// base64 of the ASCII bytes of the hex key above.
const KEY_B64: &str = "MDAxMTIyMzM0NDU1NjY3Nzg4OTlhYWJiY2NkZGVlZmY=";

#[test]
fn routes_by_mime_prefix() {
    assert_eq!(media_route("video/mp4"), UploadMediaType::Video);
    assert_eq!(media_route("image/png"), UploadMediaType::Image);
    assert_eq!(media_route("application/pdf"), UploadMediaType::File);
    assert_eq!(media_route("audio/mpeg"), UploadMediaType::File);
    assert_eq!(media_route(get_mime_from_filename("clip.MOV")), UploadMediaType::Video);
}

#[test]
fn file_name_of_a_path() {
    assert_eq!(media_file_name("/tmp/dir/report.pdf"), "report.pdf");
    assert_eq!(media_file_name("photo.jpg"), "photo.jpg");
    assert_eq!(media_file_name("/"), "file.bin");
    assert_eq!(media_file_name(".."), "file.bin");
}

#[test]
fn image_item_references_the_upload() {
    let item = build_image_item("a.png", &uploaded());
    assert_eq!(item.item_type, Some(MessageItemType::Image));
    let img = item.image_item.unwrap();
    let media = img.media.unwrap();
    assert_eq!(media.encrypt_query_param.as_deref(), Some("dl-param"));
    assert_eq!(media.aes_key.as_deref(), Some(KEY_B64));
    assert_eq!(media.encrypt_type, Some(1));
    assert_eq!(img.mid_size, Some(1248));
    assert!(item.file_item.is_none() && item.video_item.is_none() && item.text_item.is_none());
}

#[test]
fn video_item_references_the_upload() {
    let item = build_video_item("a.mp4", &uploaded());
    assert_eq!(item.item_type, Some(MessageItemType::Video));
    let v = item.video_item.unwrap();
    assert_eq!(v.video_size, Some(1248));
    assert_eq!(v.media.unwrap().aes_key.as_deref(), Some(KEY_B64));
}

#[test]
fn file_item_carries_name_and_plain_size() {
    let item = build_file_item("report.pdf", &uploaded());
    assert_eq!(item.item_type, Some(MessageItemType::File));
    let f = item.file_item.unwrap();
    assert_eq!(f.file_name.as_deref(), Some("report.pdf"));
    assert_eq!(f.len.as_deref(), Some("1234"));
    assert_eq!(f.media.unwrap().encrypt_query_param.as_deref(), Some("dl-param"));
}

#[test]
fn media_item_by_type_and_message_envelope() {
    let item = build_media_item(UploadMediaType::Voice, "v.amr", &uploaded());
    assert_eq!(item.item_type, Some(MessageItemType::File));
    let req = build_media_message("user9", item, Some("ctx"), "cid-1".to_string());
    assert_eq!(req.msg.to_user_id.as_deref(), Some("user9"));
    assert_eq!(req.msg.from_user_id.as_deref(), Some(""));
    assert_eq!(req.msg.client_id.as_deref(), Some("cid-1"));
    assert_eq!(req.msg.context_token.as_deref(), Some("ctx"));
    assert_eq!(req.msg.message_type, Some(MessageType::Bot));
    assert_eq!(req.msg.message_state, Some(MessageState::Finish));
    assert_eq!(req.msg.item_list.as_ref().unwrap().len(), 1);
    assert_eq!(req.base_info.channel_version.as_deref(), Some("2.1.1"));
}

#[test]
fn caption_goes_before_media() {
    let reqs = weixin_agent::messaging::send_media::media_send_requests(
        "u1",
        "look",
        Some("ctx"),
        "cid-text".to_string(),
        build_image_item("a.png", &uploaded()),
        "cid-media".to_string(),
    );
    assert_eq!(reqs.len(), 2);
    assert_eq!(reqs[0].msg.client_id.as_deref(), Some("cid-text"));
    let items = reqs[0].msg.item_list.as_ref().unwrap();
    assert_eq!(items[0].text_item.as_ref().unwrap().text.as_deref(), Some("look"));
    assert_eq!(reqs[1].msg.client_id.as_deref(), Some("cid-media"));
    assert_eq!(reqs[1].msg.item_list.as_ref().unwrap()[0].item_type, Some(MessageItemType::Image));
    assert_eq!(reqs[1].msg.context_token.as_deref(), Some("ctx"));

    let reqs = weixin_agent::messaging::send_media::media_send_requests(
        "u1",
        "",
        None,
        "cid-text".to_string(),
        build_file_item("r.pdf", &uploaded()),
        "cid-media".to_string(),
    );
    assert_eq!(reqs.len(), 1);
    assert_eq!(reqs[0].msg.client_id.as_deref(), Some("cid-media"));
}
