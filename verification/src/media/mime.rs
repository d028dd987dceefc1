//! Extension <-> MIME type mappings.
use vstd::prelude::*;
use crate::util::text::{
    ascii_lower, before_first, is_whitespace, opt_str_view, before_first_chars, chars_eq_str, chars_of, last_index_of,
    last_index_of_chars, push_str, slice_chars, str_eq, string_from_chars, to_ascii_lower, trim,
    trim_chars,
};
use crate::util::urls::{parse_url, parsed_view, url_parts, ParsedUrl};

verus! {

/// The MIME type for an extension fallback.
pub open spec fn octet_stream() -> Seq<char> {
    "application/octet-stream"@
}

/// MIME type for a lower-case file extension (without the dot).
pub open spec fn mime_for_extension(ext: Seq<char>) -> Seq<char> {
    if ext == "pdf"@ {
        "application/pdf"@
    } else if ext == "doc"@ {
        "application/msword"@
    } else if ext == "docx"@ {
        "application/vnd.openxmlformats-officedocument.wordprocessingml.document"@
    } else if ext == "xls"@ {
        "application/vnd.ms-excel"@
    } else if ext == "xlsx"@ {
        "application/vnd.openxmlformats-officedocument.spreadsheetml.sheet"@
    } else if ext == "ppt"@ {
        "application/vnd.ms-powerpoint"@
    } else if ext == "pptx"@ {
        "application/vnd.openxmlformats-officedocument.presentationml.presentation"@
    } else if ext == "txt"@ {
        "text/plain"@
    } else if ext == "csv"@ {
        "text/csv"@
    } else if ext == "zip"@ {
        "application/zip"@
    } else if ext == "tar"@ {
        "application/x-tar"@
    } else if ext == "gz"@ {
        "application/gzip"@
    } else if ext == "mp3"@ {
        "audio/mpeg"@
    } else if ext == "ogg"@ {
        "audio/ogg"@
    } else if ext == "wav"@ {
        "audio/wav"@
    } else if ext == "mp4"@ {
        "video/mp4"@
    } else if ext == "mov"@ {
        "video/quicktime"@
    } else if ext == "webm"@ {
        "video/webm"@
    } else if ext == "mkv"@ {
        "video/x-matroska"@
    } else if ext == "avi"@ {
        "video/x-msvideo"@
    } else if ext == "png"@ {
        "image/png"@
    } else if ext == "jpg"@ {
        "image/jpeg"@
    } else if ext == "jpeg"@ {
        "image/jpeg"@
    } else if ext == "gif"@ {
        "image/gif"@
    } else if ext == "webp"@ {
        "image/webp"@
    } else if ext == "bmp"@ {
        "image/bmp"@
    } else {
        "application/octet-stream"@
    }
}

/// The extensions the MIME table knows.
pub open spec fn known_extension(e: Seq<char>) -> bool {
    ||| e == "pdf"@
    ||| e == "doc"@
    ||| e == "docx"@
    ||| e == "xls"@
    ||| e == "xlsx"@
    ||| e == "ppt"@
    ||| e == "pptx"@
    ||| e == "txt"@
    ||| e == "csv"@
    ||| e == "zip"@
    ||| e == "tar"@
    ||| e == "gz"@
    ||| e == "mp3"@
    ||| e == "ogg"@
    ||| e == "wav"@
    ||| e == "mp4"@
    ||| e == "mov"@
    ||| e == "webm"@
    ||| e == "mkv"@
    ||| e == "avi"@
    ||| e == "png"@
    ||| e == "jpg"@
    ||| e == "jpeg"@
    ||| e == "gif"@
    ||| e == "webp"@
    ||| e == "bmp"@
}

/// An extension gets a MIME type other than `application/octet-stream` exactly
/// when the table knows it.
pub proof fn law_known_extensions(e: Seq<char>)
    ensures
        (mime_for_extension(e) != octet_stream()) <==> known_extension(e),
{
    reveal_strlit("application/octet-stream");
    reveal_strlit("application/gzip");
    assert("application/gzip"@.len() != octet_stream().len());
    reveal_strlit("application/msword");
    assert("application/msword"@.len() != octet_stream().len());
    reveal_strlit("application/pdf");
    assert("application/pdf"@.len() != octet_stream().len());
    reveal_strlit("application/vnd.ms-excel");
    assert("application/vnd.ms-excel"@[12] != octet_stream()[12]);
    reveal_strlit("application/vnd.ms-powerpoint");
    assert("application/vnd.ms-powerpoint"@.len() != octet_stream().len());
    reveal_strlit("application/vnd.openxmlformats-officedocument.presentationml.presentation");
    assert("application/vnd.openxmlformats-officedocument.presentationml.presentation"@.len() != octet_stream().len());
    reveal_strlit("application/vnd.openxmlformats-officedocument.spreadsheetml.sheet");
    assert("application/vnd.openxmlformats-officedocument.spreadsheetml.sheet"@.len() != octet_stream().len());
    reveal_strlit("application/vnd.openxmlformats-officedocument.wordprocessingml.document");
    assert("application/vnd.openxmlformats-officedocument.wordprocessingml.document"@.len() != octet_stream().len());
    reveal_strlit("application/x-tar");
    assert("application/x-tar"@.len() != octet_stream().len());
    reveal_strlit("application/zip");
    assert("application/zip"@.len() != octet_stream().len());
    reveal_strlit("audio/mpeg");
    assert("audio/mpeg"@.len() != octet_stream().len());
    reveal_strlit("audio/ogg");
    assert("audio/ogg"@.len() != octet_stream().len());
    reveal_strlit("audio/wav");
    assert("audio/wav"@.len() != octet_stream().len());
    reveal_strlit("image/bmp");
    assert("image/bmp"@.len() != octet_stream().len());
    reveal_strlit("image/gif");
    assert("image/gif"@.len() != octet_stream().len());
    reveal_strlit("image/jpeg");
    assert("image/jpeg"@.len() != octet_stream().len());
    reveal_strlit("image/png");
    assert("image/png"@.len() != octet_stream().len());
    reveal_strlit("image/webp");
    assert("image/webp"@.len() != octet_stream().len());
    reveal_strlit("text/csv");
    assert("text/csv"@.len() != octet_stream().len());
    reveal_strlit("text/plain");
    assert("text/plain"@.len() != octet_stream().len());
    reveal_strlit("video/mp4");
    assert("video/mp4"@.len() != octet_stream().len());
    reveal_strlit("video/quicktime");
    assert("video/quicktime"@.len() != octet_stream().len());
    reveal_strlit("video/webm");
    assert("video/webm"@.len() != octet_stream().len());
    reveal_strlit("video/x-matroska");
    assert("video/x-matroska"@.len() != octet_stream().len());
    reveal_strlit("video/x-msvideo");
    assert("video/x-msvideo"@.len() != octet_stream().len());
}

/// The extension a known MIME type is named by, read back from the type
/// (`image/jpeg` as `jpg`); empty for any other text.
spec fn extension_named_by(m: Seq<char>) -> Seq<char> {
    if m == "application/pdf"@ {
        "pdf"@
    } else if m == "application/msword"@ {
        "doc"@
    } else if m == "application/vnd.openxmlformats-officedocument.wordprocessingml.document"@ {
        "docx"@
    } else if m == "application/vnd.ms-excel"@ {
        "xls"@
    } else if m == "application/vnd.openxmlformats-officedocument.spreadsheetml.sheet"@ {
        "xlsx"@
    } else if m == "application/vnd.ms-powerpoint"@ {
        "ppt"@
    } else if m == "application/vnd.openxmlformats-officedocument.presentationml.presentation"@ {
        "pptx"@
    } else if m == "text/plain"@ {
        "txt"@
    } else if m == "text/csv"@ {
        "csv"@
    } else if m == "application/zip"@ {
        "zip"@
    } else if m == "application/x-tar"@ {
        "tar"@
    } else if m == "application/gzip"@ {
        "gz"@
    } else if m == "audio/mpeg"@ {
        "mp3"@
    } else if m == "audio/ogg"@ {
        "ogg"@
    } else if m == "audio/wav"@ {
        "wav"@
    } else if m == "video/mp4"@ {
        "mp4"@
    } else if m == "video/quicktime"@ {
        "mov"@
    } else if m == "video/webm"@ {
        "webm"@
    } else if m == "video/x-matroska"@ {
        "mkv"@
    } else if m == "video/x-msvideo"@ {
        "avi"@
    } else if m == "image/png"@ {
        "png"@
    } else if m == "image/jpeg"@ {
        "jpg"@
    } else if m == "image/gif"@ {
        "gif"@
    } else if m == "image/webp"@ {
        "webp"@
    } else if m == "image/bmp"@ {
        "bmp"@
    } else {
        Seq::<char>::empty()
    }
}

/// Each known extension's MIME type names it back.
proof fn lemma_mime_names_extension(e: Seq<char>)
    requires
        known_extension(e),
    ensures
        extension_named_by(mime_for_extension(e)) == (if e == "jpeg"@ {
            "jpg"@
        } else {
            e
        }),
{
    reveal_strlit("application/gzip");
    reveal_strlit("application/msword");
    reveal_strlit("application/pdf");
    reveal_strlit("application/vnd.ms-excel");
    reveal_strlit("application/vnd.ms-powerpoint");
    reveal_strlit("application/vnd.openxmlformats-officedocument.presentationml.presentation");
    reveal_strlit("application/vnd.openxmlformats-officedocument.spreadsheetml.sheet");
    reveal_strlit("application/vnd.openxmlformats-officedocument.wordprocessingml.document");
    reveal_strlit("application/x-tar");
    reveal_strlit("application/zip");
    reveal_strlit("audio/mpeg");
    reveal_strlit("audio/ogg");
    reveal_strlit("audio/wav");
    reveal_strlit("avi");
    reveal_strlit("bmp");
    reveal_strlit("csv");
    reveal_strlit("doc");
    reveal_strlit("docx");
    reveal_strlit("gif");
    reveal_strlit("gz");
    reveal_strlit("image/bmp");
    reveal_strlit("image/gif");
    reveal_strlit("image/jpeg");
    reveal_strlit("image/png");
    reveal_strlit("image/webp");
    reveal_strlit("jpeg");
    reveal_strlit("jpg");
    reveal_strlit("mkv");
    reveal_strlit("mov");
    reveal_strlit("mp3");
    reveal_strlit("mp4");
    reveal_strlit("ogg");
    reveal_strlit("pdf");
    reveal_strlit("png");
    reveal_strlit("ppt");
    reveal_strlit("pptx");
    reveal_strlit("tar");
    reveal_strlit("text/csv");
    reveal_strlit("text/plain");
    reveal_strlit("txt");
    reveal_strlit("video/mp4");
    reveal_strlit("video/quicktime");
    reveal_strlit("video/webm");
    reveal_strlit("video/x-matroska");
    reveal_strlit("video/x-msvideo");
    reveal_strlit("wav");
    reveal_strlit("webm");
    reveal_strlit("webp");
    reveal_strlit("xls");
    reveal_strlit("xlsx");
    reveal_strlit("zip");
    if e == "pdf"@ {

    }
    if e == "doc"@ {
        assert("doc"@[0] != "pdf"@[0]);
        assert("application/msword"@.len() != "application/pdf"@.len());
    }
    if e == "docx"@ {
        assert("docx"@.len() != "pdf"@.len());
        assert("docx"@.len() != "doc"@.len());
        assert("application/vnd.openxmlformats-officedocument.wordprocessingml.document"@.len() != "application/pdf"@.len());
        assert("application/vnd.openxmlformats-officedocument.wordprocessingml.document"@.len() != "application/msword"@.len());
    }
    if e == "xls"@ {
        assert("xls"@[0] != "pdf"@[0]);
        assert("xls"@[0] != "doc"@[0]);
        assert("xls"@.len() != "docx"@.len());
        assert("application/vnd.ms-excel"@.len() != "application/pdf"@.len());
        assert("application/vnd.ms-excel"@.len() != "application/msword"@.len());
        assert("application/vnd.ms-excel"@.len() != "application/vnd.openxmlformats-officedocument.wordprocessingml.document"@.len());
    }
    if e == "xlsx"@ {
        assert("xlsx"@.len() != "pdf"@.len());
        assert("xlsx"@.len() != "doc"@.len());
        assert("xlsx"@[0] != "docx"@[0]);
        assert("xlsx"@.len() != "xls"@.len());
        assert("application/vnd.openxmlformats-officedocument.spreadsheetml.sheet"@.len() != "application/pdf"@.len());
        assert("application/vnd.openxmlformats-officedocument.spreadsheetml.sheet"@.len() != "application/msword"@.len());
        assert("application/vnd.openxmlformats-officedocument.spreadsheetml.sheet"@.len() != "application/vnd.openxmlformats-officedocument.wordprocessingml.document"@.len());
        assert("application/vnd.openxmlformats-officedocument.spreadsheetml.sheet"@.len() != "application/vnd.ms-excel"@.len());
    }
    if e == "ppt"@ {
        assert("ppt"@[1] != "pdf"@[1]);
        assert("ppt"@[0] != "doc"@[0]);
        assert("ppt"@.len() != "docx"@.len());
        assert("ppt"@[0] != "xls"@[0]);
        assert("ppt"@.len() != "xlsx"@.len());
        assert("application/vnd.ms-powerpoint"@.len() != "application/pdf"@.len());
        assert("application/vnd.ms-powerpoint"@.len() != "application/msword"@.len());
        assert("application/vnd.ms-powerpoint"@.len() != "application/vnd.openxmlformats-officedocument.wordprocessingml.document"@.len());
        assert("application/vnd.ms-powerpoint"@.len() != "application/vnd.ms-excel"@.len());
        assert("application/vnd.ms-powerpoint"@.len() != "application/vnd.openxmlformats-officedocument.spreadsheetml.sheet"@.len());
    }
    if e == "pptx"@ {
        assert("pptx"@.len() != "pdf"@.len());
        assert("pptx"@.len() != "doc"@.len());
        assert("pptx"@[0] != "docx"@[0]);
        assert("pptx"@.len() != "xls"@.len());
        assert("pptx"@[0] != "xlsx"@[0]);
        assert("pptx"@.len() != "ppt"@.len());
        assert("application/vnd.openxmlformats-officedocument.presentationml.presentation"@.len() != "application/pdf"@.len());
        assert("application/vnd.openxmlformats-officedocument.presentationml.presentation"@.len() != "application/msword"@.len());
        assert("application/vnd.openxmlformats-officedocument.presentationml.presentation"@.len() != "application/vnd.openxmlformats-officedocument.wordprocessingml.document"@.len());
        assert("application/vnd.openxmlformats-officedocument.presentationml.presentation"@.len() != "application/vnd.ms-excel"@.len());
        assert("application/vnd.openxmlformats-officedocument.presentationml.presentation"@.len() != "application/vnd.openxmlformats-officedocument.spreadsheetml.sheet"@.len());
        assert("application/vnd.openxmlformats-officedocument.presentationml.presentation"@.len() != "application/vnd.ms-powerpoint"@.len());
    }
    if e == "txt"@ {
        assert("txt"@[0] != "pdf"@[0]);
        assert("txt"@[0] != "doc"@[0]);
        assert("txt"@.len() != "docx"@.len());
        assert("txt"@[0] != "xls"@[0]);
        assert("txt"@.len() != "xlsx"@.len());
        assert("txt"@[0] != "ppt"@[0]);
        assert("txt"@.len() != "pptx"@.len());
        assert("text/plain"@.len() != "application/pdf"@.len());
        assert("text/plain"@.len() != "application/msword"@.len());
        assert("text/plain"@.len() != "application/vnd.openxmlformats-officedocument.wordprocessingml.document"@.len());
        assert("text/plain"@.len() != "application/vnd.ms-excel"@.len());
        assert("text/plain"@.len() != "application/vnd.openxmlformats-officedocument.spreadsheetml.sheet"@.len());
        assert("text/plain"@.len() != "application/vnd.ms-powerpoint"@.len());
        assert("text/plain"@.len() != "application/vnd.openxmlformats-officedocument.presentationml.presentation"@.len());
    }
    if e == "csv"@ {
        assert("csv"@[0] != "pdf"@[0]);
        assert("csv"@[0] != "doc"@[0]);
        assert("csv"@.len() != "docx"@.len());
        assert("csv"@[0] != "xls"@[0]);
        assert("csv"@.len() != "xlsx"@.len());
        assert("csv"@[0] != "ppt"@[0]);
        assert("csv"@.len() != "pptx"@.len());
        assert("csv"@[0] != "txt"@[0]);
        assert("text/csv"@.len() != "application/pdf"@.len());
        assert("text/csv"@.len() != "application/msword"@.len());
        assert("text/csv"@.len() != "application/vnd.openxmlformats-officedocument.wordprocessingml.document"@.len());
        assert("text/csv"@.len() != "application/vnd.ms-excel"@.len());
        assert("text/csv"@.len() != "application/vnd.openxmlformats-officedocument.spreadsheetml.sheet"@.len());
        assert("text/csv"@.len() != "application/vnd.ms-powerpoint"@.len());
        assert("text/csv"@.len() != "application/vnd.openxmlformats-officedocument.presentationml.presentation"@.len());
        assert("text/csv"@.len() != "text/plain"@.len());
    }
    if e == "zip"@ {
        assert("zip"@[0] != "pdf"@[0]);
        assert("zip"@[0] != "doc"@[0]);
        assert("zip"@.len() != "docx"@.len());
        assert("zip"@[0] != "xls"@[0]);
        assert("zip"@.len() != "xlsx"@.len());
        assert("zip"@[0] != "ppt"@[0]);
        assert("zip"@.len() != "pptx"@.len());
        assert("zip"@[0] != "txt"@[0]);
        assert("zip"@[0] != "csv"@[0]);
        assert("application/zip"@[12] != "application/pdf"@[12]);
        assert("application/zip"@.len() != "application/msword"@.len());
        assert("application/zip"@.len() != "application/vnd.openxmlformats-officedocument.wordprocessingml.document"@.len());
        assert("application/zip"@.len() != "application/vnd.ms-excel"@.len());
        assert("application/zip"@.len() != "application/vnd.openxmlformats-officedocument.spreadsheetml.sheet"@.len());
        assert("application/zip"@.len() != "application/vnd.ms-powerpoint"@.len());
        assert("application/zip"@.len() != "application/vnd.openxmlformats-officedocument.presentationml.presentation"@.len());
        assert("application/zip"@.len() != "text/plain"@.len());
        assert("application/zip"@.len() != "text/csv"@.len());
    }
    if e == "tar"@ {
        assert("tar"@[0] != "pdf"@[0]);
        assert("tar"@[0] != "doc"@[0]);
        assert("tar"@.len() != "docx"@.len());
        assert("tar"@[0] != "xls"@[0]);
        assert("tar"@.len() != "xlsx"@.len());
        assert("tar"@[0] != "ppt"@[0]);
        assert("tar"@.len() != "pptx"@.len());
        assert("tar"@[1] != "txt"@[1]);
        assert("tar"@[0] != "csv"@[0]);
        assert("tar"@[0] != "zip"@[0]);
        assert("application/x-tar"@.len() != "application/pdf"@.len());
        assert("application/x-tar"@.len() != "application/msword"@.len());
        assert("application/x-tar"@.len() != "application/vnd.openxmlformats-officedocument.wordprocessingml.document"@.len());
        assert("application/x-tar"@.len() != "application/vnd.ms-excel"@.len());
        assert("application/x-tar"@.len() != "application/vnd.openxmlformats-officedocument.spreadsheetml.sheet"@.len());
        assert("application/x-tar"@.len() != "application/vnd.ms-powerpoint"@.len());
        assert("application/x-tar"@.len() != "application/vnd.openxmlformats-officedocument.presentationml.presentation"@.len());
        assert("application/x-tar"@.len() != "text/plain"@.len());
        assert("application/x-tar"@.len() != "text/csv"@.len());
        assert("application/x-tar"@.len() != "application/zip"@.len());
    }
    if e == "gz"@ {
        assert("gz"@.len() != "pdf"@.len());
        assert("gz"@.len() != "doc"@.len());
        assert("gz"@.len() != "docx"@.len());
        assert("gz"@.len() != "xls"@.len());
        assert("gz"@.len() != "xlsx"@.len());
        assert("gz"@.len() != "ppt"@.len());
        assert("gz"@.len() != "pptx"@.len());
        assert("gz"@.len() != "txt"@.len());
        assert("gz"@.len() != "csv"@.len());
        assert("gz"@.len() != "zip"@.len());
        assert("gz"@.len() != "tar"@.len());
        assert("application/gzip"@.len() != "application/pdf"@.len());
        assert("application/gzip"@.len() != "application/msword"@.len());
        assert("application/gzip"@.len() != "application/vnd.openxmlformats-officedocument.wordprocessingml.document"@.len());
        assert("application/gzip"@.len() != "application/vnd.ms-excel"@.len());
        assert("application/gzip"@.len() != "application/vnd.openxmlformats-officedocument.spreadsheetml.sheet"@.len());
        assert("application/gzip"@.len() != "application/vnd.ms-powerpoint"@.len());
        assert("application/gzip"@.len() != "application/vnd.openxmlformats-officedocument.presentationml.presentation"@.len());
        assert("application/gzip"@.len() != "text/plain"@.len());
        assert("application/gzip"@.len() != "text/csv"@.len());
        assert("application/gzip"@.len() != "application/zip"@.len());
        assert("application/gzip"@.len() != "application/x-tar"@.len());
    }
    if e == "mp3"@ {
        assert("mp3"@[0] != "pdf"@[0]);
        assert("mp3"@[0] != "doc"@[0]);
        assert("mp3"@.len() != "docx"@.len());
        assert("mp3"@[0] != "xls"@[0]);
        assert("mp3"@.len() != "xlsx"@.len());
        assert("mp3"@[0] != "ppt"@[0]);
        assert("mp3"@.len() != "pptx"@.len());
        assert("mp3"@[0] != "txt"@[0]);
        assert("mp3"@[0] != "csv"@[0]);
        assert("mp3"@[0] != "zip"@[0]);
        assert("mp3"@[0] != "tar"@[0]);
        assert("mp3"@.len() != "gz"@.len());
        assert("audio/mpeg"@.len() != "application/pdf"@.len());
        assert("audio/mpeg"@.len() != "application/msword"@.len());
        assert("audio/mpeg"@.len() != "application/vnd.openxmlformats-officedocument.wordprocessingml.document"@.len());
        assert("audio/mpeg"@.len() != "application/vnd.ms-excel"@.len());
        assert("audio/mpeg"@.len() != "application/vnd.openxmlformats-officedocument.spreadsheetml.sheet"@.len());
        assert("audio/mpeg"@.len() != "application/vnd.ms-powerpoint"@.len());
        assert("audio/mpeg"@.len() != "application/vnd.openxmlformats-officedocument.presentationml.presentation"@.len());
        assert("audio/mpeg"@[0] != "text/plain"@[0]);
        assert("audio/mpeg"@.len() != "text/csv"@.len());
        assert("audio/mpeg"@.len() != "application/zip"@.len());
        assert("audio/mpeg"@.len() != "application/x-tar"@.len());
        assert("audio/mpeg"@.len() != "application/gzip"@.len());
    }
    if e == "ogg"@ {
        assert("ogg"@[0] != "pdf"@[0]);
        assert("ogg"@[0] != "doc"@[0]);
        assert("ogg"@.len() != "docx"@.len());
        assert("ogg"@[0] != "xls"@[0]);
        assert("ogg"@.len() != "xlsx"@.len());
        assert("ogg"@[0] != "ppt"@[0]);
        assert("ogg"@.len() != "pptx"@.len());
        assert("ogg"@[0] != "txt"@[0]);
        assert("ogg"@[0] != "csv"@[0]);
        assert("ogg"@[0] != "zip"@[0]);
        assert("ogg"@[0] != "tar"@[0]);
        assert("ogg"@.len() != "gz"@.len());
        assert("ogg"@[0] != "mp3"@[0]);
        assert("audio/ogg"@.len() != "application/pdf"@.len());
        assert("audio/ogg"@.len() != "application/msword"@.len());
        assert("audio/ogg"@.len() != "application/vnd.openxmlformats-officedocument.wordprocessingml.document"@.len());
        assert("audio/ogg"@.len() != "application/vnd.ms-excel"@.len());
        assert("audio/ogg"@.len() != "application/vnd.openxmlformats-officedocument.spreadsheetml.sheet"@.len());
        assert("audio/ogg"@.len() != "application/vnd.ms-powerpoint"@.len());
        assert("audio/ogg"@.len() != "application/vnd.openxmlformats-officedocument.presentationml.presentation"@.len());
        assert("audio/ogg"@.len() != "text/plain"@.len());
        assert("audio/ogg"@.len() != "text/csv"@.len());
        assert("audio/ogg"@.len() != "application/zip"@.len());
        assert("audio/ogg"@.len() != "application/x-tar"@.len());
        assert("audio/ogg"@.len() != "application/gzip"@.len());
        assert("audio/ogg"@.len() != "audio/mpeg"@.len());
    }
    if e == "wav"@ {
        assert("wav"@[0] != "pdf"@[0]);
        assert("wav"@[0] != "doc"@[0]);
        assert("wav"@.len() != "docx"@.len());
        assert("wav"@[0] != "xls"@[0]);
        assert("wav"@.len() != "xlsx"@.len());
        assert("wav"@[0] != "ppt"@[0]);
        assert("wav"@.len() != "pptx"@.len());
        assert("wav"@[0] != "txt"@[0]);
        assert("wav"@[0] != "csv"@[0]);
        assert("wav"@[0] != "zip"@[0]);
        assert("wav"@[0] != "tar"@[0]);
        assert("wav"@.len() != "gz"@.len());
        assert("wav"@[0] != "mp3"@[0]);
        assert("wav"@[0] != "ogg"@[0]);
        assert("audio/wav"@.len() != "application/pdf"@.len());
        assert("audio/wav"@.len() != "application/msword"@.len());
        assert("audio/wav"@.len() != "application/vnd.openxmlformats-officedocument.wordprocessingml.document"@.len());
        assert("audio/wav"@.len() != "application/vnd.ms-excel"@.len());
        assert("audio/wav"@.len() != "application/vnd.openxmlformats-officedocument.spreadsheetml.sheet"@.len());
        assert("audio/wav"@.len() != "application/vnd.ms-powerpoint"@.len());
        assert("audio/wav"@.len() != "application/vnd.openxmlformats-officedocument.presentationml.presentation"@.len());
        assert("audio/wav"@.len() != "text/plain"@.len());
        assert("audio/wav"@.len() != "text/csv"@.len());
        assert("audio/wav"@.len() != "application/zip"@.len());
        assert("audio/wav"@.len() != "application/x-tar"@.len());
        assert("audio/wav"@.len() != "application/gzip"@.len());
        assert("audio/wav"@.len() != "audio/mpeg"@.len());
        assert("audio/wav"@[6] != "audio/ogg"@[6]);
    }
    if e == "mp4"@ {
        assert("mp4"@[0] != "pdf"@[0]);
        assert("mp4"@[0] != "doc"@[0]);
        assert("mp4"@.len() != "docx"@.len());
        assert("mp4"@[0] != "xls"@[0]);
        assert("mp4"@.len() != "xlsx"@.len());
        assert("mp4"@[0] != "ppt"@[0]);
        assert("mp4"@.len() != "pptx"@.len());
        assert("mp4"@[0] != "txt"@[0]);
        assert("mp4"@[0] != "csv"@[0]);
        assert("mp4"@[0] != "zip"@[0]);
        assert("mp4"@[0] != "tar"@[0]);
        assert("mp4"@.len() != "gz"@.len());
        assert("mp4"@[2] != "mp3"@[2]);
        assert("mp4"@[0] != "ogg"@[0]);
        assert("mp4"@[0] != "wav"@[0]);
        assert("video/mp4"@.len() != "application/pdf"@.len());
        assert("video/mp4"@.len() != "application/msword"@.len());
        assert("video/mp4"@.len() != "application/vnd.openxmlformats-officedocument.wordprocessingml.document"@.len());
        assert("video/mp4"@.len() != "application/vnd.ms-excel"@.len());
        assert("video/mp4"@.len() != "application/vnd.openxmlformats-officedocument.spreadsheetml.sheet"@.len());
        assert("video/mp4"@.len() != "application/vnd.ms-powerpoint"@.len());
        assert("video/mp4"@.len() != "application/vnd.openxmlformats-officedocument.presentationml.presentation"@.len());
        assert("video/mp4"@.len() != "text/plain"@.len());
        assert("video/mp4"@.len() != "text/csv"@.len());
        assert("video/mp4"@.len() != "application/zip"@.len());
        assert("video/mp4"@.len() != "application/x-tar"@.len());
        assert("video/mp4"@.len() != "application/gzip"@.len());
        assert("video/mp4"@.len() != "audio/mpeg"@.len());
        assert("video/mp4"@[0] != "audio/ogg"@[0]);
        assert("video/mp4"@[0] != "audio/wav"@[0]);
    }
    if e == "mov"@ {
        assert("mov"@[0] != "pdf"@[0]);
        assert("mov"@[0] != "doc"@[0]);
        assert("mov"@.len() != "docx"@.len());
        assert("mov"@[0] != "xls"@[0]);
        assert("mov"@.len() != "xlsx"@.len());
        assert("mov"@[0] != "ppt"@[0]);
        assert("mov"@.len() != "pptx"@.len());
        assert("mov"@[0] != "txt"@[0]);
        assert("mov"@[0] != "csv"@[0]);
        assert("mov"@[0] != "zip"@[0]);
        assert("mov"@[0] != "tar"@[0]);
        assert("mov"@.len() != "gz"@.len());
        assert("mov"@[1] != "mp3"@[1]);
        assert("mov"@[0] != "ogg"@[0]);
        assert("mov"@[0] != "wav"@[0]);
        assert("mov"@[1] != "mp4"@[1]);
        assert("video/quicktime"@[0] != "application/pdf"@[0]);
        assert("video/quicktime"@.len() != "application/msword"@.len());
        assert("video/quicktime"@.len() != "application/vnd.openxmlformats-officedocument.wordprocessingml.document"@.len());
        assert("video/quicktime"@.len() != "application/vnd.ms-excel"@.len());
        assert("video/quicktime"@.len() != "application/vnd.openxmlformats-officedocument.spreadsheetml.sheet"@.len());
        assert("video/quicktime"@.len() != "application/vnd.ms-powerpoint"@.len());
        assert("video/quicktime"@.len() != "application/vnd.openxmlformats-officedocument.presentationml.presentation"@.len());
        assert("video/quicktime"@.len() != "text/plain"@.len());
        assert("video/quicktime"@.len() != "text/csv"@.len());
        assert("video/quicktime"@[0] != "application/zip"@[0]);
        assert("video/quicktime"@.len() != "application/x-tar"@.len());
        assert("video/quicktime"@.len() != "application/gzip"@.len());
        assert("video/quicktime"@.len() != "audio/mpeg"@.len());
        assert("video/quicktime"@.len() != "audio/ogg"@.len());
        assert("video/quicktime"@.len() != "audio/wav"@.len());
        assert("video/quicktime"@.len() != "video/mp4"@.len());
    }
    if e == "webm"@ {
        assert("webm"@.len() != "pdf"@.len());
        assert("webm"@.len() != "doc"@.len());
        assert("webm"@[0] != "docx"@[0]);
        assert("webm"@.len() != "xls"@.len());
        assert("webm"@[0] != "xlsx"@[0]);
        assert("webm"@.len() != "ppt"@.len());
        assert("webm"@[0] != "pptx"@[0]);
        assert("webm"@.len() != "txt"@.len());
        assert("webm"@.len() != "csv"@.len());
        assert("webm"@.len() != "zip"@.len());
        assert("webm"@.len() != "tar"@.len());
        assert("webm"@.len() != "gz"@.len());
        assert("webm"@.len() != "mp3"@.len());
        assert("webm"@.len() != "ogg"@.len());
        assert("webm"@.len() != "wav"@.len());
        assert("webm"@.len() != "mp4"@.len());
        assert("webm"@.len() != "mov"@.len());
        assert("video/webm"@.len() != "application/pdf"@.len());
        assert("video/webm"@.len() != "application/msword"@.len());
        assert("video/webm"@.len() != "application/vnd.openxmlformats-officedocument.wordprocessingml.document"@.len());
        assert("video/webm"@.len() != "application/vnd.ms-excel"@.len());
        assert("video/webm"@.len() != "application/vnd.openxmlformats-officedocument.spreadsheetml.sheet"@.len());
        assert("video/webm"@.len() != "application/vnd.ms-powerpoint"@.len());
        assert("video/webm"@.len() != "application/vnd.openxmlformats-officedocument.presentationml.presentation"@.len());
        assert("video/webm"@[0] != "text/plain"@[0]);
        assert("video/webm"@.len() != "text/csv"@.len());
        assert("video/webm"@.len() != "application/zip"@.len());
        assert("video/webm"@.len() != "application/x-tar"@.len());
        assert("video/webm"@.len() != "application/gzip"@.len());
        assert("video/webm"@[0] != "audio/mpeg"@[0]);
        assert("video/webm"@.len() != "audio/ogg"@.len());
        assert("video/webm"@.len() != "audio/wav"@.len());
        assert("video/webm"@.len() != "video/mp4"@.len());
        assert("video/webm"@.len() != "video/quicktime"@.len());
    }
    if e == "mkv"@ {
        assert("mkv"@[0] != "pdf"@[0]);
        assert("mkv"@[0] != "doc"@[0]);
        assert("mkv"@.len() != "docx"@.len());
        assert("mkv"@[0] != "xls"@[0]);
        assert("mkv"@.len() != "xlsx"@.len());
        assert("mkv"@[0] != "ppt"@[0]);
        assert("mkv"@.len() != "pptx"@.len());
        assert("mkv"@[0] != "txt"@[0]);
        assert("mkv"@[0] != "csv"@[0]);
        assert("mkv"@[0] != "zip"@[0]);
        assert("mkv"@[0] != "tar"@[0]);
        assert("mkv"@.len() != "gz"@.len());
        assert("mkv"@[1] != "mp3"@[1]);
        assert("mkv"@[0] != "ogg"@[0]);
        assert("mkv"@[0] != "wav"@[0]);
        assert("mkv"@[1] != "mp4"@[1]);
        assert("mkv"@[1] != "mov"@[1]);
        assert("mkv"@.len() != "webm"@.len());
        assert("video/x-matroska"@.len() != "application/pdf"@.len());
        assert("video/x-matroska"@.len() != "application/msword"@.len());
        assert("video/x-matroska"@.len() != "application/vnd.openxmlformats-officedocument.wordprocessingml.document"@.len());
        assert("video/x-matroska"@.len() != "application/vnd.ms-excel"@.len());
        assert("video/x-matroska"@.len() != "application/vnd.openxmlformats-officedocument.spreadsheetml.sheet"@.len());
        assert("video/x-matroska"@.len() != "application/vnd.ms-powerpoint"@.len());
        assert("video/x-matroska"@.len() != "application/vnd.openxmlformats-officedocument.presentationml.presentation"@.len());
        assert("video/x-matroska"@.len() != "text/plain"@.len());
        assert("video/x-matroska"@.len() != "text/csv"@.len());
        assert("video/x-matroska"@.len() != "application/zip"@.len());
        assert("video/x-matroska"@.len() != "application/x-tar"@.len());
        assert("video/x-matroska"@[0] != "application/gzip"@[0]);
        assert("video/x-matroska"@.len() != "audio/mpeg"@.len());
        assert("video/x-matroska"@.len() != "audio/ogg"@.len());
        assert("video/x-matroska"@.len() != "audio/wav"@.len());
        assert("video/x-matroska"@.len() != "video/mp4"@.len());
        assert("video/x-matroska"@.len() != "video/quicktime"@.len());
        assert("video/x-matroska"@.len() != "video/webm"@.len());
    }
    if e == "avi"@ {
        assert("avi"@[0] != "pdf"@[0]);
        assert("avi"@[0] != "doc"@[0]);
        assert("avi"@.len() != "docx"@.len());
        assert("avi"@[0] != "xls"@[0]);
        assert("avi"@.len() != "xlsx"@.len());
        assert("avi"@[0] != "ppt"@[0]);
        assert("avi"@.len() != "pptx"@.len());
        assert("avi"@[0] != "txt"@[0]);
        assert("avi"@[0] != "csv"@[0]);
        assert("avi"@[0] != "zip"@[0]);
        assert("avi"@[0] != "tar"@[0]);
        assert("avi"@.len() != "gz"@.len());
        assert("avi"@[0] != "mp3"@[0]);
        assert("avi"@[0] != "ogg"@[0]);
        assert("avi"@[0] != "wav"@[0]);
        assert("avi"@[0] != "mp4"@[0]);
        assert("avi"@[0] != "mov"@[0]);
        assert("avi"@.len() != "webm"@.len());
        assert("avi"@[0] != "mkv"@[0]);
        assert("video/x-msvideo"@[0] != "application/pdf"@[0]);
        assert("video/x-msvideo"@.len() != "application/msword"@.len());
        assert("video/x-msvideo"@.len() != "application/vnd.openxmlformats-officedocument.wordprocessingml.document"@.len());
        assert("video/x-msvideo"@.len() != "application/vnd.ms-excel"@.len());
        assert("video/x-msvideo"@.len() != "application/vnd.openxmlformats-officedocument.spreadsheetml.sheet"@.len());
        assert("video/x-msvideo"@.len() != "application/vnd.ms-powerpoint"@.len());
        assert("video/x-msvideo"@.len() != "application/vnd.openxmlformats-officedocument.presentationml.presentation"@.len());
        assert("video/x-msvideo"@.len() != "text/plain"@.len());
        assert("video/x-msvideo"@.len() != "text/csv"@.len());
        assert("video/x-msvideo"@[0] != "application/zip"@[0]);
        assert("video/x-msvideo"@.len() != "application/x-tar"@.len());
        assert("video/x-msvideo"@.len() != "application/gzip"@.len());
        assert("video/x-msvideo"@.len() != "audio/mpeg"@.len());
        assert("video/x-msvideo"@.len() != "audio/ogg"@.len());
        assert("video/x-msvideo"@.len() != "audio/wav"@.len());
        assert("video/x-msvideo"@.len() != "video/mp4"@.len());
        assert("video/x-msvideo"@[6] != "video/quicktime"@[6]);
        assert("video/x-msvideo"@.len() != "video/webm"@.len());
        assert("video/x-msvideo"@.len() != "video/x-matroska"@.len());
    }
    if e == "png"@ {
        assert("png"@[1] != "pdf"@[1]);
        assert("png"@[0] != "doc"@[0]);
        assert("png"@.len() != "docx"@.len());
        assert("png"@[0] != "xls"@[0]);
        assert("png"@.len() != "xlsx"@.len());
        assert("png"@[1] != "ppt"@[1]);
        assert("png"@.len() != "pptx"@.len());
        assert("png"@[0] != "txt"@[0]);
        assert("png"@[0] != "csv"@[0]);
        assert("png"@[0] != "zip"@[0]);
        assert("png"@[0] != "tar"@[0]);
        assert("png"@.len() != "gz"@.len());
        assert("png"@[0] != "mp3"@[0]);
        assert("png"@[0] != "ogg"@[0]);
        assert("png"@[0] != "wav"@[0]);
        assert("png"@[0] != "mp4"@[0]);
        assert("png"@[0] != "mov"@[0]);
        assert("png"@.len() != "webm"@.len());
        assert("png"@[0] != "mkv"@[0]);
        assert("png"@[0] != "avi"@[0]);
        assert("image/png"@.len() != "application/pdf"@.len());
        assert("image/png"@.len() != "application/msword"@.len());
        assert("image/png"@.len() != "application/vnd.openxmlformats-officedocument.wordprocessingml.document"@.len());
        assert("image/png"@.len() != "application/vnd.ms-excel"@.len());
        assert("image/png"@.len() != "application/vnd.openxmlformats-officedocument.spreadsheetml.sheet"@.len());
        assert("image/png"@.len() != "application/vnd.ms-powerpoint"@.len());
        assert("image/png"@.len() != "application/vnd.openxmlformats-officedocument.presentationml.presentation"@.len());
        assert("image/png"@.len() != "text/plain"@.len());
        assert("image/png"@.len() != "text/csv"@.len());
        assert("image/png"@.len() != "application/zip"@.len());
        assert("image/png"@.len() != "application/x-tar"@.len());
        assert("image/png"@.len() != "application/gzip"@.len());
        assert("image/png"@.len() != "audio/mpeg"@.len());
        assert("image/png"@[0] != "audio/ogg"@[0]);
        assert("image/png"@[0] != "audio/wav"@[0]);
        assert("image/png"@[0] != "video/mp4"@[0]);
        assert("image/png"@.len() != "video/quicktime"@.len());
        assert("image/png"@.len() != "video/webm"@.len());
        assert("image/png"@.len() != "video/x-matroska"@.len());
        assert("image/png"@.len() != "video/x-msvideo"@.len());
    }
    if e == "jpg"@ {
        assert("jpg"@[0] != "pdf"@[0]);
        assert("jpg"@[0] != "doc"@[0]);
        assert("jpg"@.len() != "docx"@.len());
        assert("jpg"@[0] != "xls"@[0]);
        assert("jpg"@.len() != "xlsx"@.len());
        assert("jpg"@[0] != "ppt"@[0]);
        assert("jpg"@.len() != "pptx"@.len());
        assert("jpg"@[0] != "txt"@[0]);
        assert("jpg"@[0] != "csv"@[0]);
        assert("jpg"@[0] != "zip"@[0]);
        assert("jpg"@[0] != "tar"@[0]);
        assert("jpg"@.len() != "gz"@.len());
        assert("jpg"@[0] != "mp3"@[0]);
        assert("jpg"@[0] != "ogg"@[0]);
        assert("jpg"@[0] != "wav"@[0]);
        assert("jpg"@[0] != "mp4"@[0]);
        assert("jpg"@[0] != "mov"@[0]);
        assert("jpg"@.len() != "webm"@.len());
        assert("jpg"@[0] != "mkv"@[0]);
        assert("jpg"@[0] != "avi"@[0]);
        assert("jpg"@[0] != "png"@[0]);
        assert("image/jpeg"@.len() != "application/pdf"@.len());
        assert("image/jpeg"@.len() != "application/msword"@.len());
        assert("image/jpeg"@.len() != "application/vnd.openxmlformats-officedocument.wordprocessingml.document"@.len());
        assert("image/jpeg"@.len() != "application/vnd.ms-excel"@.len());
        assert("image/jpeg"@.len() != "application/vnd.openxmlformats-officedocument.spreadsheetml.sheet"@.len());
        assert("image/jpeg"@.len() != "application/vnd.ms-powerpoint"@.len());
        assert("image/jpeg"@.len() != "application/vnd.openxmlformats-officedocument.presentationml.presentation"@.len());
        assert("image/jpeg"@[0] != "text/plain"@[0]);
        assert("image/jpeg"@.len() != "text/csv"@.len());
        assert("image/jpeg"@.len() != "application/zip"@.len());
        assert("image/jpeg"@.len() != "application/x-tar"@.len());
        assert("image/jpeg"@.len() != "application/gzip"@.len());
        assert("image/jpeg"@[0] != "audio/mpeg"@[0]);
        assert("image/jpeg"@.len() != "audio/ogg"@.len());
        assert("image/jpeg"@.len() != "audio/wav"@.len());
        assert("image/jpeg"@.len() != "video/mp4"@.len());
        assert("image/jpeg"@.len() != "video/quicktime"@.len());
        assert("image/jpeg"@[0] != "video/webm"@[0]);
        assert("image/jpeg"@.len() != "video/x-matroska"@.len());
        assert("image/jpeg"@.len() != "video/x-msvideo"@.len());
        assert("image/jpeg"@.len() != "image/png"@.len());
    }
    if e == "jpeg"@ {
        assert("jpeg"@.len() != "pdf"@.len());
        assert("jpeg"@.len() != "doc"@.len());
        assert("jpeg"@[0] != "docx"@[0]);
        assert("jpeg"@.len() != "xls"@.len());
        assert("jpeg"@[0] != "xlsx"@[0]);
        assert("jpeg"@.len() != "ppt"@.len());
        assert("jpeg"@[0] != "pptx"@[0]);
        assert("jpeg"@.len() != "txt"@.len());
        assert("jpeg"@.len() != "csv"@.len());
        assert("jpeg"@.len() != "zip"@.len());
        assert("jpeg"@.len() != "tar"@.len());
        assert("jpeg"@.len() != "gz"@.len());
        assert("jpeg"@.len() != "mp3"@.len());
        assert("jpeg"@.len() != "ogg"@.len());
        assert("jpeg"@.len() != "wav"@.len());
        assert("jpeg"@.len() != "mp4"@.len());
        assert("jpeg"@.len() != "mov"@.len());
        assert("jpeg"@[0] != "webm"@[0]);
        assert("jpeg"@.len() != "mkv"@.len());
        assert("jpeg"@.len() != "avi"@.len());
        assert("jpeg"@.len() != "png"@.len());
        assert("jpeg"@.len() != "jpg"@.len());
        assert("image/jpeg"@.len() != "application/pdf"@.len());
        assert("image/jpeg"@.len() != "application/msword"@.len());
        assert("image/jpeg"@.len() != "application/vnd.openxmlformats-officedocument.wordprocessingml.document"@.len());
        assert("image/jpeg"@.len() != "application/vnd.ms-excel"@.len());
        assert("image/jpeg"@.len() != "application/vnd.openxmlformats-officedocument.spreadsheetml.sheet"@.len());
        assert("image/jpeg"@.len() != "application/vnd.ms-powerpoint"@.len());
        assert("image/jpeg"@.len() != "application/vnd.openxmlformats-officedocument.presentationml.presentation"@.len());
        assert("image/jpeg"@[0] != "text/plain"@[0]);
        assert("image/jpeg"@.len() != "text/csv"@.len());
        assert("image/jpeg"@.len() != "application/zip"@.len());
        assert("image/jpeg"@.len() != "application/x-tar"@.len());
        assert("image/jpeg"@.len() != "application/gzip"@.len());
        assert("image/jpeg"@[0] != "audio/mpeg"@[0]);
        assert("image/jpeg"@.len() != "audio/ogg"@.len());
        assert("image/jpeg"@.len() != "audio/wav"@.len());
        assert("image/jpeg"@.len() != "video/mp4"@.len());
        assert("image/jpeg"@.len() != "video/quicktime"@.len());
        assert("image/jpeg"@[0] != "video/webm"@[0]);
        assert("image/jpeg"@.len() != "video/x-matroska"@.len());
        assert("image/jpeg"@.len() != "video/x-msvideo"@.len());
        assert("image/jpeg"@.len() != "image/png"@.len());
    }
    if e == "gif"@ {
        assert("gif"@[0] != "pdf"@[0]);
        assert("gif"@[0] != "doc"@[0]);
        assert("gif"@.len() != "docx"@.len());
        assert("gif"@[0] != "xls"@[0]);
        assert("gif"@.len() != "xlsx"@.len());
        assert("gif"@[0] != "ppt"@[0]);
        assert("gif"@.len() != "pptx"@.len());
        assert("gif"@[0] != "txt"@[0]);
        assert("gif"@[0] != "csv"@[0]);
        assert("gif"@[0] != "zip"@[0]);
        assert("gif"@[0] != "tar"@[0]);
        assert("gif"@.len() != "gz"@.len());
        assert("gif"@[0] != "mp3"@[0]);
        assert("gif"@[0] != "ogg"@[0]);
        assert("gif"@[0] != "wav"@[0]);
        assert("gif"@[0] != "mp4"@[0]);
        assert("gif"@[0] != "mov"@[0]);
        assert("gif"@.len() != "webm"@.len());
        assert("gif"@[0] != "mkv"@[0]);
        assert("gif"@[0] != "avi"@[0]);
        assert("gif"@[0] != "png"@[0]);
        assert("gif"@[0] != "jpg"@[0]);
        assert("gif"@.len() != "jpeg"@.len());
        assert("image/gif"@.len() != "application/pdf"@.len());
        assert("image/gif"@.len() != "application/msword"@.len());
        assert("image/gif"@.len() != "application/vnd.openxmlformats-officedocument.wordprocessingml.document"@.len());
        assert("image/gif"@.len() != "application/vnd.ms-excel"@.len());
        assert("image/gif"@.len() != "application/vnd.openxmlformats-officedocument.spreadsheetml.sheet"@.len());
        assert("image/gif"@.len() != "application/vnd.ms-powerpoint"@.len());
        assert("image/gif"@.len() != "application/vnd.openxmlformats-officedocument.presentationml.presentation"@.len());
        assert("image/gif"@.len() != "text/plain"@.len());
        assert("image/gif"@.len() != "text/csv"@.len());
        assert("image/gif"@.len() != "application/zip"@.len());
        assert("image/gif"@.len() != "application/x-tar"@.len());
        assert("image/gif"@.len() != "application/gzip"@.len());
        assert("image/gif"@.len() != "audio/mpeg"@.len());
        assert("image/gif"@[0] != "audio/ogg"@[0]);
        assert("image/gif"@[0] != "audio/wav"@[0]);
        assert("image/gif"@[0] != "video/mp4"@[0]);
        assert("image/gif"@.len() != "video/quicktime"@.len());
        assert("image/gif"@.len() != "video/webm"@.len());
        assert("image/gif"@.len() != "video/x-matroska"@.len());
        assert("image/gif"@.len() != "video/x-msvideo"@.len());
        assert("image/gif"@[6] != "image/png"@[6]);
        assert("image/gif"@.len() != "image/jpeg"@.len());
    }
    if e == "webp"@ {
        assert("webp"@.len() != "pdf"@.len());
        assert("webp"@.len() != "doc"@.len());
        assert("webp"@[0] != "docx"@[0]);
        assert("webp"@.len() != "xls"@.len());
        assert("webp"@[0] != "xlsx"@[0]);
        assert("webp"@.len() != "ppt"@.len());
        assert("webp"@[0] != "pptx"@[0]);
        assert("webp"@.len() != "txt"@.len());
        assert("webp"@.len() != "csv"@.len());
        assert("webp"@.len() != "zip"@.len());
        assert("webp"@.len() != "tar"@.len());
        assert("webp"@.len() != "gz"@.len());
        assert("webp"@.len() != "mp3"@.len());
        assert("webp"@.len() != "ogg"@.len());
        assert("webp"@.len() != "wav"@.len());
        assert("webp"@.len() != "mp4"@.len());
        assert("webp"@.len() != "mov"@.len());
        assert("webp"@[3] != "webm"@[3]);
        assert("webp"@.len() != "mkv"@.len());
        assert("webp"@.len() != "avi"@.len());
        assert("webp"@.len() != "png"@.len());
        assert("webp"@.len() != "jpg"@.len());
        assert("webp"@[0] != "jpeg"@[0]);
        assert("webp"@.len() != "gif"@.len());
        assert("image/webp"@.len() != "application/pdf"@.len());
        assert("image/webp"@.len() != "application/msword"@.len());
        assert("image/webp"@.len() != "application/vnd.openxmlformats-officedocument.wordprocessingml.document"@.len());
        assert("image/webp"@.len() != "application/vnd.ms-excel"@.len());
        assert("image/webp"@.len() != "application/vnd.openxmlformats-officedocument.spreadsheetml.sheet"@.len());
        assert("image/webp"@.len() != "application/vnd.ms-powerpoint"@.len());
        assert("image/webp"@.len() != "application/vnd.openxmlformats-officedocument.presentationml.presentation"@.len());
        assert("image/webp"@[0] != "text/plain"@[0]);
        assert("image/webp"@.len() != "text/csv"@.len());
        assert("image/webp"@.len() != "application/zip"@.len());
        assert("image/webp"@.len() != "application/x-tar"@.len());
        assert("image/webp"@.len() != "application/gzip"@.len());
        assert("image/webp"@[0] != "audio/mpeg"@[0]);
        assert("image/webp"@.len() != "audio/ogg"@.len());
        assert("image/webp"@.len() != "audio/wav"@.len());
        assert("image/webp"@.len() != "video/mp4"@.len());
        assert("image/webp"@.len() != "video/quicktime"@.len());
        assert("image/webp"@[0] != "video/webm"@[0]);
        assert("image/webp"@.len() != "video/x-matroska"@.len());
        assert("image/webp"@.len() != "video/x-msvideo"@.len());
        assert("image/webp"@.len() != "image/png"@.len());
        assert("image/webp"@[6] != "image/jpeg"@[6]);
        assert("image/webp"@.len() != "image/gif"@.len());
    }
    if e == "bmp"@ {
        assert("bmp"@[0] != "pdf"@[0]);
        assert("bmp"@[0] != "doc"@[0]);
        assert("bmp"@.len() != "docx"@.len());
        assert("bmp"@[0] != "xls"@[0]);
        assert("bmp"@.len() != "xlsx"@.len());
        assert("bmp"@[0] != "ppt"@[0]);
        assert("bmp"@.len() != "pptx"@.len());
        assert("bmp"@[0] != "txt"@[0]);
        assert("bmp"@[0] != "csv"@[0]);
        assert("bmp"@[0] != "zip"@[0]);
        assert("bmp"@[0] != "tar"@[0]);
        assert("bmp"@.len() != "gz"@.len());
        assert("bmp"@[0] != "mp3"@[0]);
        assert("bmp"@[0] != "ogg"@[0]);
        assert("bmp"@[0] != "wav"@[0]);
        assert("bmp"@[0] != "mp4"@[0]);
        assert("bmp"@[0] != "mov"@[0]);
        assert("bmp"@.len() != "webm"@.len());
        assert("bmp"@[0] != "mkv"@[0]);
        assert("bmp"@[0] != "avi"@[0]);
        assert("bmp"@[0] != "png"@[0]);
        assert("bmp"@[0] != "jpg"@[0]);
        assert("bmp"@.len() != "jpeg"@.len());
        assert("bmp"@[0] != "gif"@[0]);
        assert("bmp"@.len() != "webp"@.len());
        assert("image/bmp"@.len() != "application/pdf"@.len());
        assert("image/bmp"@.len() != "application/msword"@.len());
        assert("image/bmp"@.len() != "application/vnd.openxmlformats-officedocument.wordprocessingml.document"@.len());
        assert("image/bmp"@.len() != "application/vnd.ms-excel"@.len());
        assert("image/bmp"@.len() != "application/vnd.openxmlformats-officedocument.spreadsheetml.sheet"@.len());
        assert("image/bmp"@.len() != "application/vnd.ms-powerpoint"@.len());
        assert("image/bmp"@.len() != "application/vnd.openxmlformats-officedocument.presentationml.presentation"@.len());
        assert("image/bmp"@.len() != "text/plain"@.len());
        assert("image/bmp"@.len() != "text/csv"@.len());
        assert("image/bmp"@.len() != "application/zip"@.len());
        assert("image/bmp"@.len() != "application/x-tar"@.len());
        assert("image/bmp"@.len() != "application/gzip"@.len());
        assert("image/bmp"@.len() != "audio/mpeg"@.len());
        assert("image/bmp"@[0] != "audio/ogg"@[0]);
        assert("image/bmp"@[0] != "audio/wav"@[0]);
        assert("image/bmp"@[0] != "video/mp4"@[0]);
        assert("image/bmp"@.len() != "video/quicktime"@.len());
        assert("image/bmp"@.len() != "video/webm"@.len());
        assert("image/bmp"@.len() != "video/x-matroska"@.len());
        assert("image/bmp"@.len() != "video/x-msvideo"@.len());
        assert("image/bmp"@[6] != "image/png"@[6]);
        assert("image/bmp"@.len() != "image/jpeg"@.len());
        assert("image/bmp"@[6] != "image/gif"@[6]);
        assert("image/bmp"@.len() != "image/webp"@.len());
    }
}

/// Distinct known extensions get distinct MIME types; the one pair that shares
/// a type is `jpg` and `jpeg`.
pub proof fn law_mime_types_distinct(e1: Seq<char>, e2: Seq<char>)
    requires
        known_extension(e1),
        known_extension(e2),
        e1 != e2,
        !((e1 == "jpg"@ || e1 == "jpeg"@) && (e2 == "jpg"@ || e2 == "jpeg"@)),
    ensures
        mime_for_extension(e1) != mime_for_extension(e2),
{
    lemma_mime_names_extension(e1);
    lemma_mime_names_extension(e2);
}

/// File extension (with the dot) for a lower-case MIME essence.
pub open spec fn extension_for_mime(ct: Seq<char>) -> Seq<char> {
    if ct == "image/jpeg"@ {
        ".jpg"@
    } else if ct == "image/jpg"@ {
        ".jpg"@
    } else if ct == "image/png"@ {
        ".png"@
    } else if ct == "image/gif"@ {
        ".gif"@
    } else if ct == "image/webp"@ {
        ".webp"@
    } else if ct == "image/bmp"@ {
        ".bmp"@
    } else if ct == "video/mp4"@ {
        ".mp4"@
    } else if ct == "video/quicktime"@ {
        ".mov"@
    } else if ct == "video/webm"@ {
        ".webm"@
    } else if ct == "video/x-matroska"@ {
        ".mkv"@
    } else if ct == "video/x-msvideo"@ {
        ".avi"@
    } else if ct == "audio/mpeg"@ {
        ".mp3"@
    } else if ct == "audio/ogg"@ {
        ".ogg"@
    } else if ct == "audio/wav"@ {
        ".wav"@
    } else if ct == "application/pdf"@ {
        ".pdf"@
    } else if ct == "application/zip"@ {
        ".zip"@
    } else if ct == "application/x-tar"@ {
        ".tar"@
    } else if ct == "application/gzip"@ {
        ".gz"@
    } else if ct == "text/plain"@ {
        ".txt"@
    } else if ct == "text/csv"@ {
        ".csv"@
    } else {
        ".bin"@
    }
}

/// The extensions whose MIME type has an extension of its own.
pub open spec fn round_trip_extension(e: Seq<char>) -> bool {
    ||| e == "pdf"@
    ||| e == "txt"@
    ||| e == "csv"@
    ||| e == "zip"@
    ||| e == "tar"@
    ||| e == "gz"@
    ||| e == "mp3"@
    ||| e == "ogg"@
    ||| e == "wav"@
    ||| e == "mp4"@
    ||| e == "mov"@
    ||| e == "webm"@
    ||| e == "mkv"@
    ||| e == "avi"@
    ||| e == "png"@
    ||| e == "jpg"@
    ||| e == "jpeg"@
    ||| e == "gif"@
    ||| e == "webp"@
    ||| e == "bmp"@
}

/// A file saved under the extension chosen for the MIME type of its own
/// extension keeps that extension (`jpeg` becomes the canonical `jpg`), for
/// every extension whose type has an extension of its own.
pub proof fn law_extension_round_trip(e: Seq<char>)
    requires
        round_trip_extension(e),
    ensures
        extension_for_mime(mime_for_extension(e)) == "."@ + (if e == "jpeg"@ {
            "jpg"@
        } else {
            e
        }),
{
    reveal_strlit(".");
    reveal_strlit(".avi");
    reveal_strlit(".bmp");
    reveal_strlit(".csv");
    reveal_strlit(".gif");
    reveal_strlit(".gz");
    reveal_strlit(".jpg");
    reveal_strlit(".mkv");
    reveal_strlit(".mov");
    reveal_strlit(".mp3");
    reveal_strlit(".mp4");
    reveal_strlit(".ogg");
    reveal_strlit(".pdf");
    reveal_strlit(".png");
    reveal_strlit(".tar");
    reveal_strlit(".txt");
    reveal_strlit(".wav");
    reveal_strlit(".webm");
    reveal_strlit(".webp");
    reveal_strlit(".zip");
    reveal_strlit("application/gzip");
    reveal_strlit("application/pdf");
    reveal_strlit("application/x-tar");
    reveal_strlit("application/zip");
    reveal_strlit("audio/mpeg");
    reveal_strlit("audio/ogg");
    reveal_strlit("audio/wav");
    reveal_strlit("avi");
    reveal_strlit("bmp");
    reveal_strlit("csv");
    reveal_strlit("doc");
    reveal_strlit("docx");
    reveal_strlit("gif");
    reveal_strlit("gz");
    reveal_strlit("image/bmp");
    reveal_strlit("image/gif");
    reveal_strlit("image/jpeg");
    reveal_strlit("image/jpg");
    reveal_strlit("image/png");
    reveal_strlit("image/webp");
    reveal_strlit("jpeg");
    reveal_strlit("jpg");
    reveal_strlit("mkv");
    reveal_strlit("mov");
    reveal_strlit("mp3");
    reveal_strlit("mp4");
    reveal_strlit("ogg");
    reveal_strlit("pdf");
    reveal_strlit("png");
    reveal_strlit("ppt");
    reveal_strlit("pptx");
    reveal_strlit("tar");
    reveal_strlit("text/csv");
    reveal_strlit("text/plain");
    reveal_strlit("txt");
    reveal_strlit("video/mp4");
    reveal_strlit("video/quicktime");
    reveal_strlit("video/webm");
    reveal_strlit("video/x-matroska");
    reveal_strlit("video/x-msvideo");
    reveal_strlit("wav");
    reveal_strlit("webm");
    reveal_strlit("webp");
    reveal_strlit("xls");
    reveal_strlit("xlsx");
    reveal_strlit("zip");
    if e == "pdf"@ {
        assert("application/pdf"@.len() != "image/jpeg"@.len());
        assert("application/pdf"@.len() != "image/jpg"@.len());
        assert("application/pdf"@.len() != "image/png"@.len());
        assert("application/pdf"@.len() != "image/gif"@.len());
        assert("application/pdf"@.len() != "image/webp"@.len());
        assert("application/pdf"@.len() != "image/bmp"@.len());
        assert("application/pdf"@.len() != "video/mp4"@.len());
        assert("application/pdf"@[0] != "video/quicktime"@[0]);
        assert("application/pdf"@.len() != "video/webm"@.len());
        assert("application/pdf"@.len() != "video/x-matroska"@.len());
        assert("application/pdf"@[0] != "video/x-msvideo"@[0]);
        assert("application/pdf"@.len() != "audio/mpeg"@.len());
        assert("application/pdf"@.len() != "audio/ogg"@.len());
        assert("application/pdf"@.len() != "audio/wav"@.len());
        assert(".pdf"@ =~= "."@ + "pdf"@);
    }
    if e == "txt"@ {
        assert("txt"@[0] != "pdf"@[0]);
        assert("txt"@[0] != "doc"@[0]);
        assert("txt"@.len() != "docx"@.len());
        assert("txt"@[0] != "xls"@[0]);
        assert("txt"@.len() != "xlsx"@.len());
        assert("txt"@[0] != "ppt"@[0]);
        assert("txt"@.len() != "pptx"@.len());
        assert("text/plain"@[0] != "image/jpeg"@[0]);
        assert("text/plain"@.len() != "image/jpg"@.len());
        assert("text/plain"@.len() != "image/png"@.len());
        assert("text/plain"@.len() != "image/gif"@.len());
        assert("text/plain"@[0] != "image/webp"@[0]);
        assert("text/plain"@.len() != "image/bmp"@.len());
        assert("text/plain"@.len() != "video/mp4"@.len());
        assert("text/plain"@.len() != "video/quicktime"@.len());
        assert("text/plain"@[0] != "video/webm"@[0]);
        assert("text/plain"@.len() != "video/x-matroska"@.len());
        assert("text/plain"@.len() != "video/x-msvideo"@.len());
        assert("text/plain"@[0] != "audio/mpeg"@[0]);
        assert("text/plain"@.len() != "audio/ogg"@.len());
        assert("text/plain"@.len() != "audio/wav"@.len());
        assert("text/plain"@.len() != "application/pdf"@.len());
        assert("text/plain"@.len() != "application/zip"@.len());
        assert("text/plain"@.len() != "application/x-tar"@.len());
        assert("text/plain"@.len() != "application/gzip"@.len());
        assert(".txt"@ =~= "."@ + "txt"@);
    }
    if e == "csv"@ {
        assert("csv"@[0] != "pdf"@[0]);
        assert("csv"@[0] != "doc"@[0]);
        assert("csv"@.len() != "docx"@.len());
        assert("csv"@[0] != "xls"@[0]);
        assert("csv"@.len() != "xlsx"@.len());
        assert("csv"@[0] != "ppt"@[0]);
        assert("csv"@.len() != "pptx"@.len());
        assert("csv"@[0] != "txt"@[0]);
        assert("text/csv"@.len() != "image/jpeg"@.len());
        assert("text/csv"@.len() != "image/jpg"@.len());
        assert("text/csv"@.len() != "image/png"@.len());
        assert("text/csv"@.len() != "image/gif"@.len());
        assert("text/csv"@.len() != "image/webp"@.len());
        assert("text/csv"@.len() != "image/bmp"@.len());
        assert("text/csv"@.len() != "video/mp4"@.len());
        assert("text/csv"@.len() != "video/quicktime"@.len());
        assert("text/csv"@.len() != "video/webm"@.len());
        assert("text/csv"@.len() != "video/x-matroska"@.len());
        assert("text/csv"@.len() != "video/x-msvideo"@.len());
        assert("text/csv"@.len() != "audio/mpeg"@.len());
        assert("text/csv"@.len() != "audio/ogg"@.len());
        assert("text/csv"@.len() != "audio/wav"@.len());
        assert("text/csv"@.len() != "application/pdf"@.len());
        assert("text/csv"@.len() != "application/zip"@.len());
        assert("text/csv"@.len() != "application/x-tar"@.len());
        assert("text/csv"@.len() != "application/gzip"@.len());
        assert("text/csv"@.len() != "text/plain"@.len());
        assert(".csv"@ =~= "."@ + "csv"@);
    }
    if e == "zip"@ {
        assert("zip"@[0] != "pdf"@[0]);
        assert("zip"@[0] != "doc"@[0]);
        assert("zip"@.len() != "docx"@.len());
        assert("zip"@[0] != "xls"@[0]);
        assert("zip"@.len() != "xlsx"@.len());
        assert("zip"@[0] != "ppt"@[0]);
        assert("zip"@.len() != "pptx"@.len());
        assert("zip"@[0] != "txt"@[0]);
        assert("zip"@[0] != "csv"@[0]);
        assert("application/zip"@.len() != "image/jpeg"@.len());
        assert("application/zip"@.len() != "image/jpg"@.len());
        assert("application/zip"@.len() != "image/png"@.len());
        assert("application/zip"@.len() != "image/gif"@.len());
        assert("application/zip"@.len() != "image/webp"@.len());
        assert("application/zip"@.len() != "image/bmp"@.len());
        assert("application/zip"@.len() != "video/mp4"@.len());
        assert("application/zip"@[0] != "video/quicktime"@[0]);
        assert("application/zip"@.len() != "video/webm"@.len());
        assert("application/zip"@.len() != "video/x-matroska"@.len());
        assert("application/zip"@[0] != "video/x-msvideo"@[0]);
        assert("application/zip"@.len() != "audio/mpeg"@.len());
        assert("application/zip"@.len() != "audio/ogg"@.len());
        assert("application/zip"@.len() != "audio/wav"@.len());
        assert("application/zip"@[12] != "application/pdf"@[12]);
        assert(".zip"@ =~= "."@ + "zip"@);
    }
    if e == "tar"@ {
        assert("tar"@[0] != "pdf"@[0]);
        assert("tar"@[0] != "doc"@[0]);
        assert("tar"@.len() != "docx"@.len());
        assert("tar"@[0] != "xls"@[0]);
        assert("tar"@.len() != "xlsx"@.len());
        assert("tar"@[0] != "ppt"@[0]);
        assert("tar"@.len() != "pptx"@.len());
        assert("tar"@[1] != "txt"@[1]);
        assert("tar"@[0] != "csv"@[0]);
        assert("tar"@[0] != "zip"@[0]);
        assert("application/x-tar"@.len() != "image/jpeg"@.len());
        assert("application/x-tar"@.len() != "image/jpg"@.len());
        assert("application/x-tar"@.len() != "image/png"@.len());
        assert("application/x-tar"@.len() != "image/gif"@.len());
        assert("application/x-tar"@.len() != "image/webp"@.len());
        assert("application/x-tar"@.len() != "image/bmp"@.len());
        assert("application/x-tar"@.len() != "video/mp4"@.len());
        assert("application/x-tar"@.len() != "video/quicktime"@.len());
        assert("application/x-tar"@.len() != "video/webm"@.len());
        assert("application/x-tar"@.len() != "video/x-matroska"@.len());
        assert("application/x-tar"@.len() != "video/x-msvideo"@.len());
        assert("application/x-tar"@.len() != "audio/mpeg"@.len());
        assert("application/x-tar"@.len() != "audio/ogg"@.len());
        assert("application/x-tar"@.len() != "audio/wav"@.len());
        assert("application/x-tar"@.len() != "application/pdf"@.len());
        assert("application/x-tar"@.len() != "application/zip"@.len());
        assert(".tar"@ =~= "."@ + "tar"@);
    }
    if e == "gz"@ {
        assert("gz"@.len() != "pdf"@.len());
        assert("gz"@.len() != "doc"@.len());
        assert("gz"@.len() != "docx"@.len());
        assert("gz"@.len() != "xls"@.len());
        assert("gz"@.len() != "xlsx"@.len());
        assert("gz"@.len() != "ppt"@.len());
        assert("gz"@.len() != "pptx"@.len());
        assert("gz"@.len() != "txt"@.len());
        assert("gz"@.len() != "csv"@.len());
        assert("gz"@.len() != "zip"@.len());
        assert("gz"@.len() != "tar"@.len());
        assert("application/gzip"@.len() != "image/jpeg"@.len());
        assert("application/gzip"@.len() != "image/jpg"@.len());
        assert("application/gzip"@.len() != "image/png"@.len());
        assert("application/gzip"@.len() != "image/gif"@.len());
        assert("application/gzip"@.len() != "image/webp"@.len());
        assert("application/gzip"@.len() != "image/bmp"@.len());
        assert("application/gzip"@.len() != "video/mp4"@.len());
        assert("application/gzip"@.len() != "video/quicktime"@.len());
        assert("application/gzip"@.len() != "video/webm"@.len());
        assert("application/gzip"@[0] != "video/x-matroska"@[0]);
        assert("application/gzip"@.len() != "video/x-msvideo"@.len());
        assert("application/gzip"@.len() != "audio/mpeg"@.len());
        assert("application/gzip"@.len() != "audio/ogg"@.len());
        assert("application/gzip"@.len() != "audio/wav"@.len());
        assert("application/gzip"@.len() != "application/pdf"@.len());
        assert("application/gzip"@.len() != "application/zip"@.len());
        assert("application/gzip"@.len() != "application/x-tar"@.len());
        assert(".gz"@ =~= "."@ + "gz"@);
    }
    if e == "mp3"@ {
        assert("mp3"@[0] != "pdf"@[0]);
        assert("mp3"@[0] != "doc"@[0]);
        assert("mp3"@.len() != "docx"@.len());
        assert("mp3"@[0] != "xls"@[0]);
        assert("mp3"@.len() != "xlsx"@.len());
        assert("mp3"@[0] != "ppt"@[0]);
        assert("mp3"@.len() != "pptx"@.len());
        assert("mp3"@[0] != "txt"@[0]);
        assert("mp3"@[0] != "csv"@[0]);
        assert("mp3"@[0] != "zip"@[0]);
        assert("mp3"@[0] != "tar"@[0]);
        assert("mp3"@.len() != "gz"@.len());
        assert("audio/mpeg"@[0] != "image/jpeg"@[0]);
        assert("audio/mpeg"@.len() != "image/jpg"@.len());
        assert("audio/mpeg"@.len() != "image/png"@.len());
        assert("audio/mpeg"@.len() != "image/gif"@.len());
        assert("audio/mpeg"@[0] != "image/webp"@[0]);
        assert("audio/mpeg"@.len() != "image/bmp"@.len());
        assert("audio/mpeg"@.len() != "video/mp4"@.len());
        assert("audio/mpeg"@.len() != "video/quicktime"@.len());
        assert("audio/mpeg"@[0] != "video/webm"@[0]);
        assert("audio/mpeg"@.len() != "video/x-matroska"@.len());
        assert("audio/mpeg"@.len() != "video/x-msvideo"@.len());
        assert(".mp3"@ =~= "."@ + "mp3"@);
    }
    if e == "ogg"@ {
        assert("ogg"@[0] != "pdf"@[0]);
        assert("ogg"@[0] != "doc"@[0]);
        assert("ogg"@.len() != "docx"@.len());
        assert("ogg"@[0] != "xls"@[0]);
        assert("ogg"@.len() != "xlsx"@.len());
        assert("ogg"@[0] != "ppt"@[0]);
        assert("ogg"@.len() != "pptx"@.len());
        assert("ogg"@[0] != "txt"@[0]);
        assert("ogg"@[0] != "csv"@[0]);
        assert("ogg"@[0] != "zip"@[0]);
        assert("ogg"@[0] != "tar"@[0]);
        assert("ogg"@.len() != "gz"@.len());
        assert("ogg"@[0] != "mp3"@[0]);
        assert("audio/ogg"@.len() != "image/jpeg"@.len());
        assert("audio/ogg"@[0] != "image/jpg"@[0]);
        assert("audio/ogg"@[0] != "image/png"@[0]);
        assert("audio/ogg"@[0] != "image/gif"@[0]);
        assert("audio/ogg"@.len() != "image/webp"@.len());
        assert("audio/ogg"@[0] != "image/bmp"@[0]);
        assert("audio/ogg"@[0] != "video/mp4"@[0]);
        assert("audio/ogg"@.len() != "video/quicktime"@.len());
        assert("audio/ogg"@.len() != "video/webm"@.len());
        assert("audio/ogg"@.len() != "video/x-matroska"@.len());
        assert("audio/ogg"@.len() != "video/x-msvideo"@.len());
        assert("audio/ogg"@.len() != "audio/mpeg"@.len());
        assert(".ogg"@ =~= "."@ + "ogg"@);
    }
    if e == "wav"@ {
        assert("wav"@[0] != "pdf"@[0]);
        assert("wav"@[0] != "doc"@[0]);
        assert("wav"@.len() != "docx"@.len());
        assert("wav"@[0] != "xls"@[0]);
        assert("wav"@.len() != "xlsx"@.len());
        assert("wav"@[0] != "ppt"@[0]);
        assert("wav"@.len() != "pptx"@.len());
        assert("wav"@[0] != "txt"@[0]);
        assert("wav"@[0] != "csv"@[0]);
        assert("wav"@[0] != "zip"@[0]);
        assert("wav"@[0] != "tar"@[0]);
        assert("wav"@.len() != "gz"@.len());
        assert("wav"@[0] != "mp3"@[0]);
        assert("wav"@[0] != "ogg"@[0]);
        assert("audio/wav"@.len() != "image/jpeg"@.len());
        assert("audio/wav"@[0] != "image/jpg"@[0]);
        assert("audio/wav"@[0] != "image/png"@[0]);
        assert("audio/wav"@[0] != "image/gif"@[0]);
        assert("audio/wav"@.len() != "image/webp"@.len());
        assert("audio/wav"@[0] != "image/bmp"@[0]);
        assert("audio/wav"@[0] != "video/mp4"@[0]);
        assert("audio/wav"@.len() != "video/quicktime"@.len());
        assert("audio/wav"@.len() != "video/webm"@.len());
        assert("audio/wav"@.len() != "video/x-matroska"@.len());
        assert("audio/wav"@.len() != "video/x-msvideo"@.len());
        assert("audio/wav"@.len() != "audio/mpeg"@.len());
        assert("audio/wav"@[6] != "audio/ogg"@[6]);
        assert(".wav"@ =~= "."@ + "wav"@);
    }
    if e == "mp4"@ {
        assert("mp4"@[0] != "pdf"@[0]);
        assert("mp4"@[0] != "doc"@[0]);
        assert("mp4"@.len() != "docx"@.len());
        assert("mp4"@[0] != "xls"@[0]);
        assert("mp4"@.len() != "xlsx"@.len());
        assert("mp4"@[0] != "ppt"@[0]);
        assert("mp4"@.len() != "pptx"@.len());
        assert("mp4"@[0] != "txt"@[0]);
        assert("mp4"@[0] != "csv"@[0]);
        assert("mp4"@[0] != "zip"@[0]);
        assert("mp4"@[0] != "tar"@[0]);
        assert("mp4"@.len() != "gz"@.len());
        assert("mp4"@[2] != "mp3"@[2]);
        assert("mp4"@[0] != "ogg"@[0]);
        assert("mp4"@[0] != "wav"@[0]);
        assert("video/mp4"@.len() != "image/jpeg"@.len());
        assert("video/mp4"@[0] != "image/jpg"@[0]);
        assert("video/mp4"@[0] != "image/png"@[0]);
        assert("video/mp4"@[0] != "image/gif"@[0]);
        assert("video/mp4"@.len() != "image/webp"@.len());
        assert("video/mp4"@[0] != "image/bmp"@[0]);
        assert(".mp4"@ =~= "."@ + "mp4"@);
    }
    if e == "mov"@ {
        assert("mov"@[0] != "pdf"@[0]);
        assert("mov"@[0] != "doc"@[0]);
        assert("mov"@.len() != "docx"@.len());
        assert("mov"@[0] != "xls"@[0]);
        assert("mov"@.len() != "xlsx"@.len());
        assert("mov"@[0] != "ppt"@[0]);
        assert("mov"@.len() != "pptx"@.len());
        assert("mov"@[0] != "txt"@[0]);
        assert("mov"@[0] != "csv"@[0]);
        assert("mov"@[0] != "zip"@[0]);
        assert("mov"@[0] != "tar"@[0]);
        assert("mov"@.len() != "gz"@.len());
        assert("mov"@[1] != "mp3"@[1]);
        assert("mov"@[0] != "ogg"@[0]);
        assert("mov"@[0] != "wav"@[0]);
        assert("mov"@[1] != "mp4"@[1]);
        assert("video/quicktime"@.len() != "image/jpeg"@.len());
        assert("video/quicktime"@.len() != "image/jpg"@.len());
        assert("video/quicktime"@.len() != "image/png"@.len());
        assert("video/quicktime"@.len() != "image/gif"@.len());
        assert("video/quicktime"@.len() != "image/webp"@.len());
        assert("video/quicktime"@.len() != "image/bmp"@.len());
        assert("video/quicktime"@.len() != "video/mp4"@.len());
        assert(".mov"@ =~= "."@ + "mov"@);
    }
    if e == "webm"@ {
        assert("webm"@.len() != "pdf"@.len());
        assert("webm"@.len() != "doc"@.len());
        assert("webm"@[0] != "docx"@[0]);
        assert("webm"@.len() != "xls"@.len());
        assert("webm"@[0] != "xlsx"@[0]);
        assert("webm"@.len() != "ppt"@.len());
        assert("webm"@[0] != "pptx"@[0]);
        assert("webm"@.len() != "txt"@.len());
        assert("webm"@.len() != "csv"@.len());
        assert("webm"@.len() != "zip"@.len());
        assert("webm"@.len() != "tar"@.len());
        assert("webm"@.len() != "gz"@.len());
        assert("webm"@.len() != "mp3"@.len());
        assert("webm"@.len() != "ogg"@.len());
        assert("webm"@.len() != "wav"@.len());
        assert("webm"@.len() != "mp4"@.len());
        assert("webm"@.len() != "mov"@.len());
        assert("video/webm"@[0] != "image/jpeg"@[0]);
        assert("video/webm"@.len() != "image/jpg"@.len());
        assert("video/webm"@.len() != "image/png"@.len());
        assert("video/webm"@.len() != "image/gif"@.len());
        assert("video/webm"@[0] != "image/webp"@[0]);
        assert("video/webm"@.len() != "image/bmp"@.len());
        assert("video/webm"@.len() != "video/mp4"@.len());
        assert("video/webm"@.len() != "video/quicktime"@.len());
        assert(".webm"@ =~= "."@ + "webm"@);
    }
    if e == "mkv"@ {
        assert("mkv"@[0] != "pdf"@[0]);
        assert("mkv"@[0] != "doc"@[0]);
        assert("mkv"@.len() != "docx"@.len());
        assert("mkv"@[0] != "xls"@[0]);
        assert("mkv"@.len() != "xlsx"@.len());
        assert("mkv"@[0] != "ppt"@[0]);
        assert("mkv"@.len() != "pptx"@.len());
        assert("mkv"@[0] != "txt"@[0]);
        assert("mkv"@[0] != "csv"@[0]);
        assert("mkv"@[0] != "zip"@[0]);
        assert("mkv"@[0] != "tar"@[0]);
        assert("mkv"@.len() != "gz"@.len());
        assert("mkv"@[1] != "mp3"@[1]);
        assert("mkv"@[0] != "ogg"@[0]);
        assert("mkv"@[0] != "wav"@[0]);
        assert("mkv"@[1] != "mp4"@[1]);
        assert("mkv"@[1] != "mov"@[1]);
        assert("mkv"@.len() != "webm"@.len());
        assert("video/x-matroska"@.len() != "image/jpeg"@.len());
        assert("video/x-matroska"@.len() != "image/jpg"@.len());
        assert("video/x-matroska"@.len() != "image/png"@.len());
        assert("video/x-matroska"@.len() != "image/gif"@.len());
        assert("video/x-matroska"@.len() != "image/webp"@.len());
        assert("video/x-matroska"@.len() != "image/bmp"@.len());
        assert("video/x-matroska"@.len() != "video/mp4"@.len());
        assert("video/x-matroska"@.len() != "video/quicktime"@.len());
        assert("video/x-matroska"@.len() != "video/webm"@.len());
        assert(".mkv"@ =~= "."@ + "mkv"@);
    }
    if e == "avi"@ {
        assert("avi"@[0] != "pdf"@[0]);
        assert("avi"@[0] != "doc"@[0]);
        assert("avi"@.len() != "docx"@.len());
        assert("avi"@[0] != "xls"@[0]);
        assert("avi"@.len() != "xlsx"@.len());
        assert("avi"@[0] != "ppt"@[0]);
        assert("avi"@.len() != "pptx"@.len());
        assert("avi"@[0] != "txt"@[0]);
        assert("avi"@[0] != "csv"@[0]);
        assert("avi"@[0] != "zip"@[0]);
        assert("avi"@[0] != "tar"@[0]);
        assert("avi"@.len() != "gz"@.len());
        assert("avi"@[0] != "mp3"@[0]);
        assert("avi"@[0] != "ogg"@[0]);
        assert("avi"@[0] != "wav"@[0]);
        assert("avi"@[0] != "mp4"@[0]);
        assert("avi"@[0] != "mov"@[0]);
        assert("avi"@.len() != "webm"@.len());
        assert("avi"@[0] != "mkv"@[0]);
        assert("video/x-msvideo"@.len() != "image/jpeg"@.len());
        assert("video/x-msvideo"@.len() != "image/jpg"@.len());
        assert("video/x-msvideo"@.len() != "image/png"@.len());
        assert("video/x-msvideo"@.len() != "image/gif"@.len());
        assert("video/x-msvideo"@.len() != "image/webp"@.len());
        assert("video/x-msvideo"@.len() != "image/bmp"@.len());
        assert("video/x-msvideo"@.len() != "video/mp4"@.len());
        assert("video/x-msvideo"@[6] != "video/quicktime"@[6]);
        assert("video/x-msvideo"@.len() != "video/webm"@.len());
        assert("video/x-msvideo"@.len() != "video/x-matroska"@.len());
        assert(".avi"@ =~= "."@ + "avi"@);
    }
    if e == "png"@ {
        assert("png"@[1] != "pdf"@[1]);
        assert("png"@[0] != "doc"@[0]);
        assert("png"@.len() != "docx"@.len());
        assert("png"@[0] != "xls"@[0]);
        assert("png"@.len() != "xlsx"@.len());
        assert("png"@[1] != "ppt"@[1]);
        assert("png"@.len() != "pptx"@.len());
        assert("png"@[0] != "txt"@[0]);
        assert("png"@[0] != "csv"@[0]);
        assert("png"@[0] != "zip"@[0]);
        assert("png"@[0] != "tar"@[0]);
        assert("png"@.len() != "gz"@.len());
        assert("png"@[0] != "mp3"@[0]);
        assert("png"@[0] != "ogg"@[0]);
        assert("png"@[0] != "wav"@[0]);
        assert("png"@[0] != "mp4"@[0]);
        assert("png"@[0] != "mov"@[0]);
        assert("png"@.len() != "webm"@.len());
        assert("png"@[0] != "mkv"@[0]);
        assert("png"@[0] != "avi"@[0]);
        assert("image/png"@.len() != "image/jpeg"@.len());
        assert("image/png"@[6] != "image/jpg"@[6]);
        assert(".png"@ =~= "."@ + "png"@);
    }
    if e == "jpg"@ {
        assert("jpg"@[0] != "pdf"@[0]);
        assert("jpg"@[0] != "doc"@[0]);
        assert("jpg"@.len() != "docx"@.len());
        assert("jpg"@[0] != "xls"@[0]);
        assert("jpg"@.len() != "xlsx"@.len());
        assert("jpg"@[0] != "ppt"@[0]);
        assert("jpg"@.len() != "pptx"@.len());
        assert("jpg"@[0] != "txt"@[0]);
        assert("jpg"@[0] != "csv"@[0]);
        assert("jpg"@[0] != "zip"@[0]);
        assert("jpg"@[0] != "tar"@[0]);
        assert("jpg"@.len() != "gz"@.len());
        assert("jpg"@[0] != "mp3"@[0]);
        assert("jpg"@[0] != "ogg"@[0]);
        assert("jpg"@[0] != "wav"@[0]);
        assert("jpg"@[0] != "mp4"@[0]);
        assert("jpg"@[0] != "mov"@[0]);
        assert("jpg"@.len() != "webm"@.len());
        assert("jpg"@[0] != "mkv"@[0]);
        assert("jpg"@[0] != "avi"@[0]);
        assert("jpg"@[0] != "png"@[0]);
        assert(".jpg"@ =~= "."@ + "jpg"@);
    }
    if e == "jpeg"@ {
        assert("jpeg"@.len() != "pdf"@.len());
        assert("jpeg"@.len() != "doc"@.len());
        assert("jpeg"@[0] != "docx"@[0]);
        assert("jpeg"@.len() != "xls"@.len());
        assert("jpeg"@[0] != "xlsx"@[0]);
        assert("jpeg"@.len() != "ppt"@.len());
        assert("jpeg"@[0] != "pptx"@[0]);
        assert("jpeg"@.len() != "txt"@.len());
        assert("jpeg"@.len() != "csv"@.len());
        assert("jpeg"@.len() != "zip"@.len());
        assert("jpeg"@.len() != "tar"@.len());
        assert("jpeg"@.len() != "gz"@.len());
        assert("jpeg"@.len() != "mp3"@.len());
        assert("jpeg"@.len() != "ogg"@.len());
        assert("jpeg"@.len() != "wav"@.len());
        assert("jpeg"@.len() != "mp4"@.len());
        assert("jpeg"@.len() != "mov"@.len());
        assert("jpeg"@[0] != "webm"@[0]);
        assert("jpeg"@.len() != "mkv"@.len());
        assert("jpeg"@.len() != "avi"@.len());
        assert("jpeg"@.len() != "png"@.len());
        assert("jpeg"@.len() != "jpg"@.len());
        assert(".jpg"@ =~= "."@ + "jpg"@);
    }
    if e == "gif"@ {
        assert("gif"@[0] != "pdf"@[0]);
        assert("gif"@[0] != "doc"@[0]);
        assert("gif"@.len() != "docx"@.len());
        assert("gif"@[0] != "xls"@[0]);
        assert("gif"@.len() != "xlsx"@.len());
        assert("gif"@[0] != "ppt"@[0]);
        assert("gif"@.len() != "pptx"@.len());
        assert("gif"@[0] != "txt"@[0]);
        assert("gif"@[0] != "csv"@[0]);
        assert("gif"@[0] != "zip"@[0]);
        assert("gif"@[0] != "tar"@[0]);
        assert("gif"@.len() != "gz"@.len());
        assert("gif"@[0] != "mp3"@[0]);
        assert("gif"@[0] != "ogg"@[0]);
        assert("gif"@[0] != "wav"@[0]);
        assert("gif"@[0] != "mp4"@[0]);
        assert("gif"@[0] != "mov"@[0]);
        assert("gif"@.len() != "webm"@.len());
        assert("gif"@[0] != "mkv"@[0]);
        assert("gif"@[0] != "avi"@[0]);
        assert("gif"@[0] != "png"@[0]);
        assert("gif"@[0] != "jpg"@[0]);
        assert("gif"@.len() != "jpeg"@.len());
        assert("image/gif"@.len() != "image/jpeg"@.len());
        assert("image/gif"@[6] != "image/jpg"@[6]);
        assert("image/gif"@[6] != "image/png"@[6]);
        assert(".gif"@ =~= "."@ + "gif"@);
    }
    if e == "webp"@ {
        assert("webp"@.len() != "pdf"@.len());
        assert("webp"@.len() != "doc"@.len());
        assert("webp"@[0] != "docx"@[0]);
        assert("webp"@.len() != "xls"@.len());
        assert("webp"@[0] != "xlsx"@[0]);
        assert("webp"@.len() != "ppt"@.len());
        assert("webp"@[0] != "pptx"@[0]);
        assert("webp"@.len() != "txt"@.len());
        assert("webp"@.len() != "csv"@.len());
        assert("webp"@.len() != "zip"@.len());
        assert("webp"@.len() != "tar"@.len());
        assert("webp"@.len() != "gz"@.len());
        assert("webp"@.len() != "mp3"@.len());
        assert("webp"@.len() != "ogg"@.len());
        assert("webp"@.len() != "wav"@.len());
        assert("webp"@.len() != "mp4"@.len());
        assert("webp"@.len() != "mov"@.len());
        assert("webp"@[3] != "webm"@[3]);
        assert("webp"@.len() != "mkv"@.len());
        assert("webp"@.len() != "avi"@.len());
        assert("webp"@.len() != "png"@.len());
        assert("webp"@.len() != "jpg"@.len());
        assert("webp"@[0] != "jpeg"@[0]);
        assert("webp"@.len() != "gif"@.len());
        assert("image/webp"@[6] != "image/jpeg"@[6]);
        assert("image/webp"@.len() != "image/jpg"@.len());
        assert("image/webp"@.len() != "image/png"@.len());
        assert("image/webp"@.len() != "image/gif"@.len());
        assert(".webp"@ =~= "."@ + "webp"@);
    }
    if e == "bmp"@ {
        assert("bmp"@[0] != "pdf"@[0]);
        assert("bmp"@[0] != "doc"@[0]);
        assert("bmp"@.len() != "docx"@.len());
        assert("bmp"@[0] != "xls"@[0]);
        assert("bmp"@.len() != "xlsx"@.len());
        assert("bmp"@[0] != "ppt"@[0]);
        assert("bmp"@.len() != "pptx"@.len());
        assert("bmp"@[0] != "txt"@[0]);
        assert("bmp"@[0] != "csv"@[0]);
        assert("bmp"@[0] != "zip"@[0]);
        assert("bmp"@[0] != "tar"@[0]);
        assert("bmp"@.len() != "gz"@.len());
        assert("bmp"@[0] != "mp3"@[0]);
        assert("bmp"@[0] != "ogg"@[0]);
        assert("bmp"@[0] != "wav"@[0]);
        assert("bmp"@[0] != "mp4"@[0]);
        assert("bmp"@[0] != "mov"@[0]);
        assert("bmp"@.len() != "webm"@.len());
        assert("bmp"@[0] != "mkv"@[0]);
        assert("bmp"@[0] != "avi"@[0]);
        assert("bmp"@[0] != "png"@[0]);
        assert("bmp"@[0] != "jpg"@[0]);
        assert("bmp"@.len() != "jpeg"@.len());
        assert("bmp"@[0] != "gif"@[0]);
        assert("bmp"@.len() != "webp"@.len());
        assert("image/bmp"@.len() != "image/jpeg"@.len());
        assert("image/bmp"@[6] != "image/jpg"@[6]);
        assert("image/bmp"@[6] != "image/png"@[6]);
        assert("image/bmp"@[6] != "image/gif"@[6]);
        assert("image/bmp"@.len() != "image/webp"@.len());
        assert(".bmp"@ =~= "."@ + "bmp"@);
    }
}

/// Characters of lower-case tokens such as extensions and MIME essences.
pub open spec fn plain_token(s: Seq<char>) -> bool {
    &&& s.len() > 0
    &&& forall|i: int|
        0 <= i < s.len() ==> ('a' <= #[trigger] s[i] <= 'z') || ('0' <= s[i] <= '9') || s[i]
            == '/' || s[i] == '-' || s[i] == '.'
}

proof fn lemma_before_first_absent(s: Seq<char>, c: char)
    requires
        forall|i: int| 0 <= i < s.len() ==> s[i] != c,
    ensures
        before_first(s, c) == s,
    decreases s.len(),
{
    if s.len() > 0 {
        assert forall|i: int| 0 <= i < s.drop_first().len() implies s.drop_first()[i] != c by {
            assert(s.drop_first()[i] == s[i + 1]);
        }
        lemma_before_first_absent(s.drop_first(), c);
        assert(seq![s[0]] + s.drop_first() =~= s);
    }
}

/// A plain token is its own MIME essence: nothing before a `;` to cut, no
/// whitespace to trim, nothing to lower-case.
proof fn lemma_plain_token(s: Seq<char>)
    requires
        plain_token(s),
    ensures
        before_first(s, ';') == s,
        trim(s) == s,
        ascii_lower(s) == s,
{
    lemma_before_first_absent(s, ';');
    assert(!is_whitespace(s[0]) && !is_whitespace(s.last()));
    assert(ascii_lower(s) =~= s);
}

/// A bare file name whose extension has a MIME type with an extension of its
/// own gets that extension back from [`get_extension_from_mime`] applied to
/// [`get_mime_from_filename`] (`jpeg` as the canonical `jpg`).
pub proof fn law_file_extension_round_trip(name: Seq<char>)
    requires
        simple_file_name(name),
        simple_extension(name) matches Some(e) && round_trip_extension(e),
    ensures
        ({
            let e = simple_extension(name)->0;
            spec_extension_from_mime(mime_for_extension(ascii_lower(e))) == "."@ + (if e
                == "jpeg"@ {
                "jpg"@
            } else {
                e
            })
        }),
{
    let e = simple_extension(name)->0;
    reveal_strlit("application/gzip");
    reveal_strlit("application/msword");
    reveal_strlit("application/octet-stream");
    reveal_strlit("application/pdf");
    reveal_strlit("application/vnd.ms-excel");
    reveal_strlit("application/vnd.ms-powerpoint");
    reveal_strlit("application/vnd.openxmlformats-officedocument.presentationml.presentation");
    reveal_strlit("application/vnd.openxmlformats-officedocument.spreadsheetml.sheet");
    reveal_strlit("application/vnd.openxmlformats-officedocument.wordprocessingml.document");
    reveal_strlit("application/x-tar");
    reveal_strlit("application/zip");
    reveal_strlit("audio/mpeg");
    reveal_strlit("audio/ogg");
    reveal_strlit("audio/wav");
    reveal_strlit("avi");
    reveal_strlit("bmp");
    reveal_strlit("csv");
    reveal_strlit("gif");
    reveal_strlit("gz");
    reveal_strlit("image/bmp");
    reveal_strlit("image/gif");
    reveal_strlit("image/jpeg");
    reveal_strlit("image/png");
    reveal_strlit("image/webp");
    reveal_strlit("jpeg");
    reveal_strlit("jpg");
    reveal_strlit("mkv");
    reveal_strlit("mov");
    reveal_strlit("mp3");
    reveal_strlit("mp4");
    reveal_strlit("ogg");
    reveal_strlit("pdf");
    reveal_strlit("png");
    reveal_strlit("tar");
    reveal_strlit("text/csv");
    reveal_strlit("text/plain");
    reveal_strlit("txt");
    reveal_strlit("video/mp4");
    reveal_strlit("video/quicktime");
    reveal_strlit("video/webm");
    reveal_strlit("video/x-matroska");
    reveal_strlit("video/x-msvideo");
    reveal_strlit("wav");
    reveal_strlit("webm");
    reveal_strlit("webp");
    reveal_strlit("zip");
    assert(plain_token("application/gzip"@));
    assert(plain_token("application/msword"@));
    assert(plain_token("application/octet-stream"@));
    assert(plain_token("application/pdf"@));
    assert(plain_token("application/vnd.ms-excel"@));
    assert(plain_token("application/vnd.ms-powerpoint"@));
    assert(plain_token("application/vnd.openxmlformats-officedocument.presentationml.presentation"@));
    assert(plain_token("application/vnd.openxmlformats-officedocument.spreadsheetml.sheet"@));
    assert(plain_token("application/vnd.openxmlformats-officedocument.wordprocessingml.document"@));
    assert(plain_token("application/x-tar"@));
    assert(plain_token("application/zip"@));
    assert(plain_token("audio/mpeg"@));
    assert(plain_token("audio/ogg"@));
    assert(plain_token("audio/wav"@));
    assert(plain_token("avi"@));
    assert(plain_token("bmp"@));
    assert(plain_token("csv"@));
    assert(plain_token("gif"@));
    assert(plain_token("gz"@));
    assert(plain_token("image/bmp"@));
    assert(plain_token("image/gif"@));
    assert(plain_token("image/jpeg"@));
    assert(plain_token("image/png"@));
    assert(plain_token("image/webp"@));
    assert(plain_token("jpeg"@));
    assert(plain_token("jpg"@));
    assert(plain_token("mkv"@));
    assert(plain_token("mov"@));
    assert(plain_token("mp3"@));
    assert(plain_token("mp4"@));
    assert(plain_token("ogg"@));
    assert(plain_token("pdf"@));
    assert(plain_token("png"@));
    assert(plain_token("tar"@));
    assert(plain_token("text/csv"@));
    assert(plain_token("text/plain"@));
    assert(plain_token("txt"@));
    assert(plain_token("video/mp4"@));
    assert(plain_token("video/quicktime"@));
    assert(plain_token("video/webm"@));
    assert(plain_token("video/x-matroska"@));
    assert(plain_token("video/x-msvideo"@));
    assert(plain_token("wav"@));
    assert(plain_token("webm"@));
    assert(plain_token("webp"@));
    assert(plain_token("zip"@));
    lemma_plain_token(e);
    lemma_plain_token(mime_for_extension(e));
    law_extension_round_trip(e);
}

/// What `std::path::Path::extension` gives for `path` (read as UTF-8):
/// `None` when the final component has no extension.
pub uninterp spec fn path_extension(path: Seq<char>) -> Option<Seq<char>>;

/// A bare file name: non-empty, not starting with `.`, and free of `/`, `\` and
/// `:`, so that on every platform the path is this one component.
pub open spec fn simple_file_name(name: Seq<char>) -> bool {
    &&& name.len() > 0
    &&& name[0] != '.'
    &&& forall|i: int| 0 <= i < name.len() ==> name[i] != '/' && name[i] != '\\' && name[i] != ':'
}

/// The extension of a bare file name: the text after its last `.`, none without a `.`.
pub open spec fn simple_extension(name: Seq<char>) -> Option<Seq<char>> {
    match last_index_of(name, '.') {
        Some(i) => Some(name.skip(i + 1)),
        None => None,
    }
}

/// Extension of the final component of `filename`, through `Path::extension`.
/// Trusted: the result is what std computes, which is named; for a bare file
/// name it is, as std documents, the text after the last `.` (none without one).
#[verifier::external_body]
fn file_extension(filename: &str) -> (r: Option<&str>)
    ensures
        match r {
            Some(e) => path_extension(filename@) == Some(e@),
            None => path_extension(filename@) is None,
        },
        simple_file_name(filename@) ==> opt_str_view(r) == simple_extension(filename@),
{
    std::path::Path::new(filename).extension().and_then(|e| e.to_str())
}

/// What `std::path::Path::file_name` gives for `path` (read as UTF-8):
/// `None` when the path ends in `..` or has no final component.
pub uninterp spec fn path_file_name(path: Seq<char>) -> Option<Seq<char>>;

/// Final component of `path`, through `Path::file_name`.
/// Trusted: the result is what std computes, which is named, not described.
#[verifier::external_body]
fn file_name_of(path: &str) -> (r: Option<&str>)
    ensures
        match r {
            Some(n) => path_file_name(path@) == Some(n@),
            None => path_file_name(path@) is None,
        },
{
    std::path::Path::new(path).file_name().and_then(|n| n.to_str())
}

/// The name a file is sent under: its final path component, else `file.bin`.
pub open spec fn spec_media_file_name(path: Seq<char>) -> Seq<char> {
    match path_file_name(path) {
        Some(n) => n,
        None => "file.bin"@,
    }
}

/// The name a file is sent under: its final path component, else `file.bin`.
pub fn media_file_name(path: &str) -> (r: &str)
    ensures
        r@ == spec_media_file_name(path@),
{
    match file_name_of(path) {
        Some(n) => n,
        None => "file.bin",
    }
}

/// The extension `get_mime_from_filename` looks up: the path extension, or empty.
pub open spec fn extension_or_empty(filename: Seq<char>) -> Seq<char> {
    match path_extension(filename) {
        Some(e) => e,
        None => seq![],
    }
}

/// What [`get_mime_from_filename`] returns.
pub open spec fn spec_mime_from_filename(filename: Seq<char>) -> Seq<char> {
    mime_for_extension(ascii_lower(extension_or_empty(filename)))
}

/// Table lookup for an already lower-cased extension.
fn lookup_mime(ext: Vec<char>) -> (r: &'static str)
    ensures
        r@ == mime_for_extension(ext@),
{
    if chars_eq_str(&ext, "pdf") {
        return "application/pdf";
    }
    if chars_eq_str(&ext, "doc") {
        return "application/msword";
    }
    if chars_eq_str(&ext, "docx") {
        return "application/vnd.openxmlformats-officedocument.wordprocessingml.document";
    }
    if chars_eq_str(&ext, "xls") {
        return "application/vnd.ms-excel";
    }
    if chars_eq_str(&ext, "xlsx") {
        return "application/vnd.openxmlformats-officedocument.spreadsheetml.sheet";
    }
    if chars_eq_str(&ext, "ppt") {
        return "application/vnd.ms-powerpoint";
    }
    if chars_eq_str(&ext, "pptx") {
        return "application/vnd.openxmlformats-officedocument.presentationml.presentation";
    }
    if chars_eq_str(&ext, "txt") {
        return "text/plain";
    }
    if chars_eq_str(&ext, "csv") {
        return "text/csv";
    }
    if chars_eq_str(&ext, "zip") {
        return "application/zip";
    }
    if chars_eq_str(&ext, "tar") {
        return "application/x-tar";
    }
    if chars_eq_str(&ext, "gz") {
        return "application/gzip";
    }
    if chars_eq_str(&ext, "mp3") {
        return "audio/mpeg";
    }
    if chars_eq_str(&ext, "ogg") {
        return "audio/ogg";
    }
    if chars_eq_str(&ext, "wav") {
        return "audio/wav";
    }
    if chars_eq_str(&ext, "mp4") {
        return "video/mp4";
    }
    if chars_eq_str(&ext, "mov") {
        return "video/quicktime";
    }
    if chars_eq_str(&ext, "webm") {
        return "video/webm";
    }
    if chars_eq_str(&ext, "mkv") {
        return "video/x-matroska";
    }
    if chars_eq_str(&ext, "avi") {
        return "video/x-msvideo";
    }
    if chars_eq_str(&ext, "png") {
        return "image/png";
    }
    if chars_eq_str(&ext, "jpg") {
        return "image/jpeg";
    }
    if chars_eq_str(&ext, "jpeg") {
        return "image/jpeg";
    }
    if chars_eq_str(&ext, "gif") {
        return "image/gif";
    }
    if chars_eq_str(&ext, "webp") {
        return "image/webp";
    }
    if chars_eq_str(&ext, "bmp") {
        return "image/bmp";
    }
    "application/octet-stream"
}

/// Table lookup for an already lower-cased MIME essence.
fn lookup_extension(ct: Vec<char>) -> (r: &'static str)
    ensures
        r@ == extension_for_mime(ct@),
{
    if chars_eq_str(&ct, "image/jpeg") {
        return ".jpg";
    }
    if chars_eq_str(&ct, "image/jpg") {
        return ".jpg";
    }
    if chars_eq_str(&ct, "image/png") {
        return ".png";
    }
    if chars_eq_str(&ct, "image/gif") {
        return ".gif";
    }
    if chars_eq_str(&ct, "image/webp") {
        return ".webp";
    }
    if chars_eq_str(&ct, "image/bmp") {
        return ".bmp";
    }
    if chars_eq_str(&ct, "video/mp4") {
        return ".mp4";
    }
    if chars_eq_str(&ct, "video/quicktime") {
        return ".mov";
    }
    if chars_eq_str(&ct, "video/webm") {
        return ".webm";
    }
    if chars_eq_str(&ct, "video/x-matroska") {
        return ".mkv";
    }
    if chars_eq_str(&ct, "video/x-msvideo") {
        return ".avi";
    }
    if chars_eq_str(&ct, "audio/mpeg") {
        return ".mp3";
    }
    if chars_eq_str(&ct, "audio/ogg") {
        return ".ogg";
    }
    if chars_eq_str(&ct, "audio/wav") {
        return ".wav";
    }
    if chars_eq_str(&ct, "application/pdf") {
        return ".pdf";
    }
    if chars_eq_str(&ct, "application/zip") {
        return ".zip";
    }
    if chars_eq_str(&ct, "application/x-tar") {
        return ".tar";
    }
    if chars_eq_str(&ct, "application/gzip") {
        return ".gz";
    }
    if chars_eq_str(&ct, "text/plain") {
        return ".txt";
    }
    if chars_eq_str(&ct, "text/csv") {
        return ".csv";
    }
    ".bin"
}

/// MIME type for an extension, ignoring ASCII case (`"application/octet-stream"` for unknown).
pub fn mime_from_extension(ext: &str) -> (r: &'static str)
    ensures
        r@ == mime_for_extension(ascii_lower(ext@)),
{
    let v = chars_of(ext);
    lookup_mime(to_ascii_lower(&v))
}

/// Get MIME type from a filename extension. Returns `"application/octet-stream"` for unknown.
pub fn get_mime_from_filename(filename: &str) -> (r: &'static str)
    ensures
        r@ == spec_mime_from_filename(filename@),
        simple_file_name(filename@) ==> r@ == mime_for_extension(
            ascii_lower(
                match simple_extension(filename@) {
                    Some(e) => e,
                    None => Seq::<char>::empty(),
                },
            ),
        ),
{
    match file_extension(filename) {
        Some(e) => mime_from_extension(e),
        None => {
            let empty: Vec<char> = Vec::new();
            proof {
                assert(ascii_lower(seq![]) =~= seq![]);
            }
            lookup_mime(empty)
        },
    }
}

/// What [`get_extension_from_mime`] returns: the essence before any `;`,
/// trimmed and ASCII lower-cased, looked up in the table.
pub open spec fn spec_extension_from_mime(mime_type: Seq<char>) -> Seq<char> {
    extension_for_mime(ascii_lower(trim(before_first(mime_type, ';'))))
}

/// Get file extension from MIME type. Returns `".bin"` for unknown.
pub fn get_extension_from_mime(mime_type: &str) -> (r: &'static str)
    ensures
        r@ == spec_extension_from_mime(mime_type@),
{
    let v = chars_of(mime_type);
    let essence = before_first_chars(&v, ';');
    let trimmed = trim_chars(&essence);
    lookup_extension(to_ascii_lower(&trimmed))
}

/// The extension [`get_extension_from_content_type_or_url`] derives from a URL
/// path: `".bin"` unless the text from its last `.` names a known file type.
pub open spec fn extension_from_path(path: Seq<char>) -> Seq<char> {
    match last_index_of(path, '.') {
        Some(i) => {
            let mime = spec_mime_from_filename("test"@ + path.skip(i));
            if mime != octet_stream() {
                spec_extension_from_mime(mime)
            } else {
                ".bin"@
            }
        },
        None => ".bin"@,
    }
}

/// What [`get_extension_from_content_type_or_url`] returns, given the URL's parse result.
pub open spec fn spec_extension_from_parts(
    content_type: Option<Seq<char>>,
    parsed: Option<(Seq<char>, Seq<char>, bool)>,
) -> Seq<char> {
    if content_type is Some && spec_extension_from_mime(content_type->0) != ".bin"@ {
        spec_extension_from_mime(content_type->0)
    } else {
        match parsed {
            Some((_, path, _)) => extension_from_path(path),
            None => ".bin"@,
        }
    }
}

/// Extension from a Content-Type header, else from the path of an already parsed URL.
pub fn extension_from_content_type_or_parsed(
    content_type: Option<&str>,
    parsed: Option<ParsedUrl>,
) -> (r: &'static str)
    ensures
        r@ == spec_extension_from_parts(opt_str_view(content_type), parsed_view(parsed)),
{
    if let Some(ct) = content_type {
        let ext = get_extension_from_mime(ct);
        if !str_eq(ext, ".bin") {
            return ext;
        }
    }
    if let Some(u) = parsed {
        let path = chars_of(u.path.as_str());
        if let Some(dot) = last_index_of_chars(&path, '.') {
            let mut name: Vec<char> = Vec::new();
            push_str(&mut name, "test");
            let tail = slice_chars(&path, dot, path.len());
            let ghost before = name@;
            let mut k: usize = 0;
            while k < tail.len()
                invariant
                    k <= tail@.len(),
                    name@ == before + tail@.take(k as int),
                decreases tail@.len() - k,
            {
                name.push(tail[k]);
                assert(tail@.take(k + 1) =~= tail@.take(k as int).push(tail@[k as int]));
                k = k + 1;
            }
            proof {
                assert(tail@.take(tail@.len() as int) =~= tail@);
                assert(tail@ =~= path@.skip(dot as int));
            }
            let test_name = string_from_chars(&name);
            let mime = get_mime_from_filename(test_name.as_str());
            if !str_eq(mime, "application/octet-stream") {
                return get_extension_from_mime(mime);
            }
        }
    }
    ".bin"
}

/// Get extension from Content-Type header or URL path. Returns `".bin"` for unknown.
pub fn get_extension_from_content_type_or_url(content_type: Option<&str>, url: &str) -> (r: &'static str)
    ensures
        r@ == spec_extension_from_parts(opt_str_view(content_type), url_parts(url@)),
{
    let parsed = parse_url(url);
    extension_from_content_type_or_parsed(content_type, parsed)
}

} // verus!
