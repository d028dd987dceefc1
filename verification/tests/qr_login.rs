use weixin_agent::qr_login::login::{LoginStatus, QrLoginApi, QrLoginSession};
use weixin_agent::types::{QrCodeResponse, QrStatusResponse};

fn status(s: &str) -> QrStatusResponse {
    QrStatusResponse {
        status: s.to_string(),
        bot_token: Some("tok".into()),
        ilink_bot_id: None,
        baseurl: Some("https://b/".into()),
        ilink_user_id: Some("u".into()),
        redirect_host: Some("h.example".into()),
    }
}

#[test]
fn endpoints_encode_their_parameters() {
    let api = QrLoginApi::new("https://ilinkai.weixin.qq.com/");
    assert_eq!(api.base_url(), "https://ilinkai.weixin.qq.com/");
    assert_eq!(api.start_endpoint(None), "ilink/bot/get_bot_qrcode?bot_type=3");
    assert_eq!(api.start_endpoint(Some("a b")), "ilink/bot/get_bot_qrcode?bot_type=a%20b");
    let session = QrLoginSession { qrcode: "q/1=".into(), qrcode_img_content: String::new() };
    assert_eq!(api.poll_status_endpoint(&session), "ilink/bot/get_qrcode_status?qrcode=q%2F1%3D");
}

#[test]
fn session_copies_the_response() {
    let s = QrLoginApi::session_from_response(QrCodeResponse {
        qrcode: "abc".into(),
        qrcode_img_content: "https://img".into(),
    });
    assert_eq!(s.qrcode, "abc");
    assert_eq!(s.qrcode_img_content, "https://img");
}

#[test]
fn statuses_by_name() {
    assert!(matches!(QrLoginApi::status_from_response(status("scaned")), LoginStatus::Scanned));
    assert!(matches!(QrLoginApi::status_from_response(status("expired")), LoginStatus::Expired));
    assert!(matches!(QrLoginApi::status_from_response(status("wait")), LoginStatus::Wait));
    assert!(matches!(QrLoginApi::status_from_response(status("CONFIRMED")), LoginStatus::Wait));
    match QrLoginApi::status_from_response(status("scaned_but_redirect")) {
        LoginStatus::ScannedButRedirect { redirect_host } => assert_eq!(redirect_host, "h.example"),
        other => panic!("unexpected {other:?}"),
    }
    match QrLoginApi::status_from_response(status("confirmed")) {
        LoginStatus::Confirmed { bot_token, ilink_bot_id, base_url, ilink_user_id } => {
            assert_eq!(bot_token, "tok");
            assert_eq!(ilink_bot_id, "");
            assert_eq!(base_url, "https://b/");
            assert_eq!(ilink_user_id, "u");
        }
        other => panic!("unexpected {other:?}"),
    }
}

#[test]
fn timed_out_poll_is_waiting() {
    assert!(matches!(QrLoginApi::status_from_poll(None), LoginStatus::Wait));
    assert!(matches!(QrLoginApi::status_from_poll(Some(status("expired"))), LoginStatus::Expired));
}
