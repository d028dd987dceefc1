use weixin_agent::media::mime::{
    get_extension_from_content_type_or_url, get_extension_from_mime, get_mime_from_filename,
    mime_from_extension,
};

#[test]
fn mime_from_known_extensions() {
    assert_eq!(get_mime_from_filename("photo.png"), "image/png");
    assert_eq!(get_mime_from_filename("doc.PDF"), "application/pdf");
    assert_eq!(get_mime_from_filename("video.mp4"), "video/mp4");
    assert_eq!(get_mime_from_filename("song.mp3"), "audio/mpeg");
}

#[test]
fn mime_from_unknown_extension() {
    assert_eq!(get_mime_from_filename("file.xyz"), "application/octet-stream");
    assert_eq!(get_mime_from_filename("noext"), "application/octet-stream");
}

#[test]
fn extension_from_known_mime() {
    assert_eq!(get_extension_from_mime("image/png"), ".png");
    assert_eq!(get_extension_from_mime("video/mp4"), ".mp4");
    assert_eq!(get_extension_from_mime("image/jpeg; charset=utf-8"), ".jpg");
}

#[test]
fn extension_from_unknown_mime() {
    assert_eq!(get_extension_from_mime("application/x-custom"), ".bin");
}

#[test]
fn extension_from_content_type_or_url() {
    assert_eq!(
        get_extension_from_content_type_or_url(Some("image/png"), "https://x.com/f.jpg"),
        ".png"
    );
    assert_eq!(get_extension_from_content_type_or_url(None, "https://x.com/file.mp4"), ".mp4");
    assert_eq!(get_extension_from_content_type_or_url(None, "https://x.com/file"), ".bin");
    assert_eq!(
        get_extension_from_content_type_or_url(Some("application/x-custom"), "https://x.com/f.pdf"),
        ".pdf"
    );
}

#[test]
fn mime_lookup_ignores_case_and_path() {
    assert_eq!(get_mime_from_filename("/tmp/dir.v2/IMG.JPEG"), "image/jpeg");
    assert_eq!(get_mime_from_filename(".bashrc"), "application/octet-stream");
    assert_eq!(mime_from_extension("DocX"), "application/vnd.openxmlformats-officedocument.wordprocessingml.document");
}

#[test]
fn extension_from_mime_trims_and_lowercases() {
    assert_eq!(get_extension_from_mime("  Video/QuickTime ;x=y"), ".mov");
    assert_eq!(get_extension_from_mime(""), ".bin");
}

#[test]
fn extension_from_url_dot_in_directory() {
    // The last dot lies in a directory name: "test.d/file" has no extension.
    assert_eq!(get_extension_from_content_type_or_url(None, "https://x.com/a.d/file"), ".bin");
    assert_eq!(get_extension_from_content_type_or_url(None, "not a url"), ".bin");
}

#[test]
fn extension_round_trips_through_its_mime() {
    for e in [
        "pdf", "txt", "csv", "zip", "tar", "gz", "mp3", "ogg", "wav", "mp4", "mov", "webm", "mkv",
        "avi", "png", "jpg", "gif", "webp", "bmp",
    ] {
        assert_eq!(get_extension_from_mime(mime_from_extension(e)), format!(".{e}"));
    }
    assert_eq!(get_extension_from_mime(mime_from_extension("jpeg")), ".jpg");
    assert_eq!(get_extension_from_mime(mime_from_extension("docx")), ".bin");
    assert_eq!(mime_from_extension("xyz"), "application/octet-stream");
}

#[test]
fn file_extension_round_trips_through_mime() {
    for e in [
        "pdf", "txt", "csv", "zip", "tar", "gz", "mp3", "ogg", "wav", "mp4", "mov", "webm", "mkv",
        "avi", "png", "jpg", "gif", "webp", "bmp",
    ] {
        assert_eq!(get_extension_from_mime(get_mime_from_filename(&format!("f.{e}"))), format!(".{e}"));
    }
    assert_eq!(get_extension_from_mime(get_mime_from_filename("f.jpeg")), ".jpg");
    assert_eq!(get_extension_from_mime(get_mime_from_filename("f.xlsx")), ".bin");
    assert_eq!(get_extension_from_mime(" IMAGE/PNG ; q=1"), ".png");
}
