//! The iLink bot protocol of the WeChat gateway: its constants and messages.
use vstd::prelude::*;

verus! {

/// The iLink endpoint that serves logins and bots without a base URL of their own.
pub const DEFAULT_BASE_URL: &'static str = "https://ilinkai.weixin.qq.com";

/// The bot type asked for when requesting a login QR code.
pub const BOT_TYPE: &'static str = "3";

/// The channel version that every request reports.
pub const CHANNEL_VERSION: &'static str = "1.0.2";

/// The message type of a message that a user sent.
pub const MESSAGE_TYPE_USER: i32 = 1;

/// The message type of a message that the bot sends.
pub const MESSAGE_TYPE_BOT: i32 = 2;

/// The message state of a message that is complete.
pub const MESSAGE_STATE_FINISH: i32 = 2;

/// The item type of a text item.
pub const ITEM_TYPE_TEXT: i32 = 1;

// ── Login ──────────────────────────────────────────────────────────────────────

/// A login QR code: its handle and the content to show.
#[derive(Debug, Clone, PartialEq, Eq)]
pub struct QrcodeResponse {
    pub qrcode: String,
    pub qrcode_img_content: String,
}

/// The state of a login QR code; a confirmed one carries the bot's credentials.
#[derive(Debug, Clone, PartialEq, Eq)]
pub struct QrcodeStatusResponse {
    pub status: String,
    pub bot_token: Option<String>,
    pub baseurl: Option<String>,
    pub ilink_bot_id: Option<String>,
    pub ilink_user_id: Option<String>,
}

// ── Token session ──────────────────────────────────────────────────────────────

/// The credentials of a logged-in bot, as saved in the configuration.
#[derive(Debug, Clone, PartialEq, Eq)]
pub struct TokenSession {
    pub token: String,
    pub base_url: String,
    pub bot_id: String,
    pub user_id: String,
    pub saved_at: String,
}

// ── Messages ───────────────────────────────────────────────────────────────────

/// A long-poll for new messages from the cursor `get_updates_buf`.
#[derive(Debug, Clone, PartialEq, Eq)]
pub struct GetUpdatesRequest {
    pub get_updates_buf: String,
    pub base_info: BaseInfo,
}

/// What every request reports about the client.
#[derive(Debug, Clone, PartialEq, Eq)]
pub struct BaseInfo {
    pub channel_version: String,
}

/// The answer to a long-poll: new messages and, possibly, the next cursor.
#[derive(Debug, Clone, PartialEq, Eq)]
pub struct GetUpdatesResponse {
    pub msgs: Vec<WeixinMessage>,
    pub get_updates_buf: Option<String>,
    pub sync_buf: Option<String>,
}

/// One message of the protocol.
#[derive(Debug, Clone, PartialEq, Eq)]
pub struct WeixinMessage {
    pub seq: Option<i64>,
    pub message_id: Option<i64>,
    pub from_user_id: String,
    pub to_user_id: String,
    pub client_id: Option<String>,
    pub create_time_ms: Option<i64>,
    pub session_id: Option<String>,
    pub group_id: Option<String>,
    pub message_type: i32,
    pub message_state: Option<i32>,
    pub context_token: Option<String>,
    pub item_list: Option<Vec<MessageItem>>,
}

/// One item of a message: text, image, voice, file or video.
#[derive(Debug, Clone, PartialEq, Eq)]
pub struct MessageItem {
    pub item_type: i32,
    pub create_time_ms: Option<i64>,
    pub is_completed: Option<bool>,
    pub text_item: Option<TextItem>,
    pub voice_item: Option<VoiceItem>,
    pub file_item: Option<FileItem>,
}

/// The text of a text item.
#[derive(Debug, Clone, PartialEq, Eq)]
pub struct TextItem {
    pub text: Option<String>,
}

/// The transcript of a voice item.
#[derive(Debug, Clone, PartialEq, Eq)]
pub struct VoiceItem {
    pub text: Option<String>,
}

/// The name of a file item.
#[derive(Debug, Clone, PartialEq, Eq)]
pub struct FileItem {
    pub file_name: Option<String>,
}

// ── Send message ───────────────────────────────────────────────────────────────

/// A request to send one message.
#[derive(Debug, Clone, PartialEq, Eq)]
pub struct SendMessageRequest {
    pub msg: OutgoingMsg,
    pub base_info: BaseInfo,
}

/// A message that the bot sends.
#[derive(Debug, Clone, PartialEq, Eq)]
pub struct OutgoingMsg {
    pub from_user_id: String,
    pub to_user_id: String,
    pub client_id: String,
    pub message_type: i32,
    pub message_state: i32,
    pub context_token: String,
    pub item_list: Vec<MessageItem>,
}

} // verus!
