//! Protocol types mirroring the Weixin iLink Bot API.
use vstd::prelude::*;
use vstd::string::StringExecFns;

verus! {

// ── Protocol constants ──────────────────────────────────────────────

/// iLink-App-Id header value.
pub const ILINK_APP_ID: &'static str = "bot";
/// Channel version sent in `base_info`.
pub const CHANNEL_VERSION: &'static str = "2.1.1";
/// Fixed QR code base URL.
pub const QR_CODE_BASE_URL: &'static str = "https://ilinkai.weixin.qq.com/";
/// Default bot type for QR login.
pub const DEFAULT_ILINK_BOT_TYPE: &'static str = "3";
/// Session-expired error code from server.
pub const SESSION_EXPIRED_ERRCODE: i32 = -14;
/// Text chunk limit (characters).
pub const TEXT_CHUNK_LIMIT: usize = 4000;

// ── Timing constants (ms) ───────────────────────────────────────────

/// Long-poll timeout.
pub const DEFAULT_LONG_POLL_TIMEOUT_MS: u64 = 35_000;
/// Regular API timeout.
pub const DEFAULT_API_TIMEOUT_MS: u64 = 15_000;
/// Config/typing API timeout.
pub const DEFAULT_CONFIG_TIMEOUT_MS: u64 = 10_000;
/// Session pause after expiry.
pub const SESSION_PAUSE_DURATION_MS: u64 = 3_600_000;
/// Max consecutive poll failures before backoff.
pub const MAX_CONSECUTIVE_FAILURES: u32 = 3;
/// Backoff delay after max failures.
pub const BACKOFF_DELAY_MS: u64 = 30_000;
/// Normal retry delay.
pub const RETRY_DELAY_MS: u64 = 2_000;
/// CDN upload max retries.
pub const UPLOAD_MAX_RETRIES: u32 = 3;
/// Config cache TTL.
pub const CONFIG_CACHE_TTL_MS: u64 = 86_400_000;
/// Max QR refresh count.
pub const MAX_QR_REFRESH_COUNT: u32 = 3;
/// QR get timeout.
pub const DEFAULT_QR_GET_TIMEOUT_MS: u64 = 5_000;
/// QR poll timeout.
pub const DEFAULT_QR_POLL_TIMEOUT_MS: u64 = 35_000;

// ── Enums ───────────────────────────────────────────────────────────

/// CDN upload media type (wire values 1–4).
#[derive(Debug, Clone, Copy, PartialEq, Eq, Structural)]
pub enum UploadMediaType {
    /// Image upload.
    Image,
    /// Video upload.
    Video,
    /// Generic file upload.
    File,
    /// Voice upload.
    Voice,
}

impl UploadMediaType {
    /// The number this type has on the wire.
    pub open spec fn spec_wire(self) -> u8 {
        match self {
            UploadMediaType::Image => 1,
            UploadMediaType::Video => 2,
            UploadMediaType::File => 3,
            UploadMediaType::Voice => 4,
        }
    }

    /// The number this type has on the wire.
    pub fn wire_value(&self) -> (v: u8)
        ensures
            v == self.spec_wire(),
    {
        match self {
            UploadMediaType::Image => 1,
            UploadMediaType::Video => 2,
            UploadMediaType::File => 3,
            UploadMediaType::Voice => 4,
        }
    }

    /// The type with wire number `v`, if any.
    pub fn from_wire(v: u8) -> (r: Option<Self>)
        ensures
            match r {
                Some(t) => t.spec_wire() == v,
                None => !(1 <= v <= 4),
            },
    {
        match v {
            1 => Some(UploadMediaType::Image),
            2 => Some(UploadMediaType::Video),
            3 => Some(UploadMediaType::File),
            4 => Some(UploadMediaType::Voice),
            _ => None,
        }
    }
}

/// Message sender type (wire values 0–2).
#[derive(Debug, Clone, Copy, PartialEq, Eq, Structural)]
pub enum MessageType {
    /// Unset.
    Unset,
    /// From a human user.
    User,
    /// From a bot.
    Bot,
}

impl MessageType {
    /// The number this type has on the wire.
    pub open spec fn spec_wire(self) -> u8 {
        match self {
            MessageType::Unset => 0,
            MessageType::User => 1,
            MessageType::Bot => 2,
        }
    }

    /// The number this type has on the wire.
    pub fn wire_value(&self) -> (v: u8)
        ensures
            v == self.spec_wire(),
    {
        match self {
            MessageType::Unset => 0,
            MessageType::User => 1,
            MessageType::Bot => 2,
        }
    }

    /// The type with wire number `v`, if any.
    pub fn from_wire(v: u8) -> (r: Option<Self>)
        ensures
            match r {
                Some(t) => t.spec_wire() == v,
                None => v > 2,
            },
    {
        match v {
            0 => Some(MessageType::Unset),
            1 => Some(MessageType::User),
            2 => Some(MessageType::Bot),
            _ => None,
        }
    }
}

impl Default for MessageType {
    fn default() -> (r: Self)
        ensures
            r == MessageType::Unset,
    {
        MessageType::Unset
    }
}

/// Message item content type (wire values 0–5).
#[derive(Debug, Clone, Copy, PartialEq, Eq, Structural)]
pub enum MessageItemType {
    /// Unset.
    Unset,
    /// Text content.
    Text,
    /// Image content.
    Image,
    /// Voice content.
    Voice,
    /// File attachment.
    File,
    /// Video content.
    Video,
}

impl MessageItemType {
    /// The number this type has on the wire.
    pub open spec fn spec_wire(self) -> u8 {
        match self {
            MessageItemType::Unset => 0,
            MessageItemType::Text => 1,
            MessageItemType::Image => 2,
            MessageItemType::Voice => 3,
            MessageItemType::File => 4,
            MessageItemType::Video => 5,
        }
    }

    /// The number this type has on the wire.
    pub fn wire_value(&self) -> (v: u8)
        ensures
            v == self.spec_wire(),
    {
        match self {
            MessageItemType::Unset => 0,
            MessageItemType::Text => 1,
            MessageItemType::Image => 2,
            MessageItemType::Voice => 3,
            MessageItemType::File => 4,
            MessageItemType::Video => 5,
        }
    }

    /// The type with wire number `v`, if any.
    pub fn from_wire(v: u8) -> (r: Option<Self>)
        ensures
            match r {
                Some(t) => t.spec_wire() == v,
                None => v > 5,
            },
    {
        match v {
            0 => Some(MessageItemType::Unset),
            1 => Some(MessageItemType::Text),
            2 => Some(MessageItemType::Image),
            3 => Some(MessageItemType::Voice),
            4 => Some(MessageItemType::File),
            5 => Some(MessageItemType::Video),
            _ => None,
        }
    }
}

impl Default for MessageItemType {
    fn default() -> (r: Self)
        ensures
            r == MessageItemType::Unset,
    {
        MessageItemType::Unset
    }
}

/// Message generation state (wire values 0–2).
#[derive(Debug, Clone, Copy, PartialEq, Eq, Structural)]
pub enum MessageState {
    /// New / finished.
    New,
    /// Still generating (streaming).
    Generating,
    /// Generation complete.
    Finish,
}

impl MessageState {
    /// The number this state has on the wire.
    pub open spec fn spec_wire(self) -> u8 {
        match self {
            MessageState::New => 0,
            MessageState::Generating => 1,
            MessageState::Finish => 2,
        }
    }

    /// The number this state has on the wire.
    pub fn wire_value(&self) -> (v: u8)
        ensures
            v == self.spec_wire(),
    {
        match self {
            MessageState::New => 0,
            MessageState::Generating => 1,
            MessageState::Finish => 2,
        }
    }

    /// The state with wire number `v`, if any.
    pub fn from_wire(v: u8) -> (r: Option<Self>)
        ensures
            match r {
                Some(t) => t.spec_wire() == v,
                None => v > 2,
            },
    {
        match v {
            0 => Some(MessageState::New),
            1 => Some(MessageState::Generating),
            2 => Some(MessageState::Finish),
            _ => None,
        }
    }
}

impl Default for MessageState {
    fn default() -> (r: Self)
        ensures
            r == MessageState::New,
    {
        MessageState::New
    }
}

/// Typing indicator status (wire values 1–2).
#[derive(Debug, Clone, Copy, PartialEq, Eq, Structural)]
pub enum TypingStatus {
    /// Currently typing.
    Typing,
    /// Cancel typing indicator.
    Cancel,
}

impl TypingStatus {
    /// The number this status has on the wire.
    pub open spec fn spec_wire(self) -> u8 {
        match self {
            TypingStatus::Typing => 1,
            TypingStatus::Cancel => 2,
        }
    }

    /// The number this status has on the wire.
    pub fn wire_value(&self) -> (v: u8)
        ensures
            v == self.spec_wire(),
    {
        match self {
            TypingStatus::Typing => 1,
            TypingStatus::Cancel => 2,
        }
    }

    /// The status with wire number `v`, if any.
    pub fn from_wire(v: u8) -> (r: Option<Self>)
        ensures
            match r {
                Some(t) => t.spec_wire() == v,
                None => !(1 <= v <= 2),
            },
    {
        match v {
            1 => Some(TypingStatus::Typing),
            2 => Some(TypingStatus::Cancel),
            _ => None,
        }
    }
}

/// High-level media type for inbound messages.
#[derive(Debug, Clone, Copy, PartialEq, Eq, Structural)]
pub enum MediaType {
    /// Image media.
    Image,
    /// Video media.
    Video,
    /// Voice media.
    Voice,
    /// Generic file.
    File,
}

// ── BaseInfo ────────────────────────────────────────────────────────

/// Metadata attached to every outgoing API request.
#[derive(Debug, Clone)]
pub struct BaseInfo {
    /// Channel version string.
    pub channel_version: Option<String>,
}

/// True when `b` carries the current channel version.
pub open spec fn is_current_base_info(b: BaseInfo) -> bool {
    b.channel_version matches Some(v) && v@ == CHANNEL_VERSION@
}

/// Build a `BaseInfo` with the current channel version.
pub fn build_base_info() -> (b: BaseInfo)
    ensures
        is_current_base_info(b),
{
    BaseInfo { channel_version: Some(String::from_str(CHANNEL_VERSION)) }
}

// ── CDN / Media sub-structures ──────────────────────────────────────

/// CDN media reference.
#[derive(Debug, Clone)]
pub struct CdnMedia {
    /// Encrypted query parameter for CDN download.
    pub encrypt_query_param: Option<String>,
    /// AES key (base64-encoded).
    pub aes_key: Option<String>,
    /// Encrypt type: 0 = fileid only, 1 = packed.
    pub encrypt_type: Option<i32>,
    /// Full download URL from server.
    pub full_url: Option<String>,
}

/// Text item.
#[derive(Debug, Clone)]
pub struct TextItem {
    /// Text content.
    pub text: Option<String>,
}

/// Image item.
#[derive(Debug, Clone)]
pub struct ImageItem {
    /// Original image CDN reference.
    pub media: Option<CdnMedia>,
    /// Thumbnail CDN reference.
    pub thumb_media: Option<CdnMedia>,
    /// Raw AES key as hex string (preferred for inbound decryption).
    pub aeskey: Option<String>,
    /// Image URL.
    pub url: Option<String>,
    /// Mid-size ciphertext bytes.
    pub mid_size: Option<i64>,
    /// Thumbnail size.
    pub thumb_size: Option<i64>,
    /// Thumbnail height.
    pub thumb_height: Option<i64>,
    /// Thumbnail width.
    pub thumb_width: Option<i64>,
    /// HD size.
    pub hd_size: Option<i64>,
}

/// Voice item.
#[derive(Debug, Clone)]
pub struct VoiceItem {
    /// Voice CDN reference.
    pub media: Option<CdnMedia>,
    /// Encoding type.
    pub encode_type: Option<i32>,
    /// Bits per sample.
    pub bits_per_sample: Option<i32>,
    /// Sample rate (Hz).
    pub sample_rate: Option<i32>,
    /// Duration in milliseconds.
    pub playtime: Option<i64>,
    /// Speech-to-text result.
    pub text: Option<String>,
}

/// File item.
#[derive(Debug, Clone)]
pub struct FileItem {
    /// File CDN reference.
    pub media: Option<CdnMedia>,
    /// Original file name.
    pub file_name: Option<String>,
    /// File MD5.
    pub md5: Option<String>,
    /// Plaintext file size as string.
    pub len: Option<String>,
}

/// Video item.
#[derive(Debug, Clone)]
pub struct VideoItem {
    /// Video CDN reference.
    pub media: Option<CdnMedia>,
    /// Video ciphertext size.
    pub video_size: Option<i64>,
    /// Play length in seconds.
    pub play_length: Option<i64>,
    /// Video MD5.
    pub video_md5: Option<String>,
    /// Thumbnail CDN reference.
    pub thumb_media: Option<CdnMedia>,
    /// Thumbnail size.
    pub thumb_size: Option<i64>,
    /// Thumbnail height.
    pub thumb_height: Option<i64>,
    /// Thumbnail width.
    pub thumb_width: Option<i64>,
}

/// Reference (quoted) message.
#[derive(Debug)]
pub struct RefMessage {
    /// Quoted message item.
    pub message_item: Option<Box<MessageItem>>,
    /// Summary title.
    pub title: Option<String>,
}

/// A single content item within a message.
#[derive(Debug)]
pub struct MessageItem {
    /// Item type (`type` on the wire).
    pub item_type: Option<MessageItemType>,
    /// Creation timestamp (ms).
    pub create_time_ms: Option<i64>,
    /// Update timestamp (ms).
    pub update_time_ms: Option<i64>,
    /// Whether generation is complete.
    pub is_completed: Option<bool>,
    /// Item-level message ID.
    pub msg_id: Option<String>,
    /// Referenced (quoted) message.
    pub ref_msg: Option<RefMessage>,
    /// Text content.
    pub text_item: Option<TextItem>,
    /// Image content.
    pub image_item: Option<ImageItem>,
    /// Voice content.
    pub voice_item: Option<VoiceItem>,
    /// File content.
    pub file_item: Option<FileItem>,
    /// Video content.
    pub video_item: Option<VideoItem>,
}

// ── WeixinMessage ───────────────────────────────────────────────────

/// Unified message from `getUpdates`.
#[derive(Debug)]
pub struct WeixinMessage {
    /// Sequence number.
    pub seq: Option<i64>,
    /// Server-assigned message ID.
    pub message_id: Option<i64>,
    /// Sender user ID.
    pub from_user_id: Option<String>,
    /// Recipient user ID.
    pub to_user_id: Option<String>,
    /// Client-generated message ID.
    pub client_id: Option<String>,
    /// Creation timestamp (ms).
    pub create_time_ms: Option<i64>,
    /// Update timestamp (ms).
    pub update_time_ms: Option<i64>,
    /// Deletion timestamp (ms); >0 means recalled.
    pub delete_time_ms: Option<i64>,
    /// Session ID.
    pub session_id: Option<String>,
    /// Group ID.
    pub group_id: Option<String>,
    /// Sender type (user / bot).
    pub message_type: Option<MessageType>,
    /// Generation state.
    pub message_state: Option<MessageState>,
    /// Content items.
    pub item_list: Option<Vec<MessageItem>>,
    /// Context token for replies.
    pub context_token: Option<String>,
}

// ── API request / response types ────────────────────────────────────

/// `getUpdates` request body.
#[derive(Debug, Clone)]
pub struct GetUpdatesRequest {
    /// Full context buf from previous response.
    pub get_updates_buf: String,
    /// Metadata.
    pub base_info: BaseInfo,
}

/// `getUpdates` response body.
#[derive(Debug)]
pub struct GetUpdatesResponse {
    /// Return code (0 = success).
    pub ret: Option<i32>,
    /// Error code.
    pub errcode: Option<i32>,
    /// Error message.
    pub errmsg: Option<String>,
    /// Inbound messages.
    pub msgs: Option<Vec<WeixinMessage>>,
    /// Legacy sync buf (compat).
    pub sync_buf: Option<String>,
    /// New context buf to cache.
    pub get_updates_buf: Option<String>,
    /// Server-suggested next poll timeout (ms).
    pub longpolling_timeout_ms: Option<u64>,
}

/// `sendMessage` request body.
#[derive(Debug)]
pub struct SendMessageRequest {
    /// The message to send.
    pub msg: WeixinMessage,
    /// Metadata.
    pub base_info: BaseInfo,
}

/// `getUploadUrl` request body.
#[derive(Debug, Clone)]
pub struct GetUploadUrlRequest {
    /// Random file key (32 hex chars).
    pub filekey: String,
    /// Upload media type.
    pub media_type: UploadMediaType,
    /// Recipient user ID.
    pub to_user_id: String,
    /// Plaintext file size.
    pub rawsize: u64,
    /// Plaintext file MD5 hex.
    pub rawfilemd5: String,
    /// Ciphertext file size.
    pub filesize: u64,
    /// Whether thumbnail is not needed.
    pub no_need_thumb: Option<bool>,
    /// Thumbnail plaintext size.
    pub thumb_rawsize: Option<u64>,
    /// Thumbnail plaintext MD5 hex.
    pub thumb_rawfilemd5: Option<String>,
    /// Thumbnail ciphertext size.
    pub thumb_filesize: Option<u64>,
    /// AES key hex string.
    pub aeskey: String,
    /// Metadata.
    pub base_info: BaseInfo,
}

/// `getUploadUrl` response body.
#[derive(Debug, Clone)]
pub struct GetUploadUrlResponse {
    /// Upload encrypted parameter.
    pub upload_param: Option<String>,
    /// Thumbnail upload parameter.
    pub thumb_upload_param: Option<String>,
    /// Full upload URL from server.
    pub upload_full_url: Option<String>,
}

/// `getConfig` request body.
#[derive(Debug, Clone)]
pub struct GetConfigRequest {
    /// User ID to get config for.
    pub ilink_user_id: String,
    /// Optional context token.
    pub context_token: Option<String>,
    /// Metadata.
    pub base_info: BaseInfo,
}

/// `getConfig` response body.
#[derive(Debug, Clone)]
pub struct GetConfigResponse {
    /// Return code.
    pub ret: Option<i32>,
    /// Error message.
    pub errmsg: Option<String>,
    /// Typing ticket (base64).
    pub typing_ticket: Option<String>,
}

/// `sendTyping` request body.
#[derive(Debug, Clone)]
pub struct SendTypingRequest {
    /// Target user ID.
    pub ilink_user_id: String,
    /// Typing ticket from `getConfig`.
    pub typing_ticket: Option<String>,
    /// Typing status.
    pub status: TypingStatus,
    /// Metadata.
    pub base_info: BaseInfo,
}

// ── QR login types ──────────────────────────────────────────────────

/// QR code response from server.
#[derive(Debug, Clone)]
pub struct QrCodeResponse {
    /// QR code token string.
    pub qrcode: String,
    /// QR code image URL.
    pub qrcode_img_content: String,
}

/// QR status response from server.
#[derive(Debug, Clone)]
pub struct QrStatusResponse {
    /// Current status.
    pub status: String,
    /// Bot token (on confirmed).
    pub bot_token: Option<String>,
    /// Bot ID (on confirmed).
    pub ilink_bot_id: Option<String>,
    /// Base URL (on confirmed).
    pub baseurl: Option<String>,
    /// User ID who scanned.
    pub ilink_user_id: Option<String>,
    /// Redirect host for IDC redirect.
    pub redirect_host: Option<String>,
}

} // verus!
