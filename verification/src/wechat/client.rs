//! The WeChat iLink client: where it sends, what it sends, and what it makes of the answers.
use vstd::prelude::*;
use crate::deps::{base64_encode, random_u32, random_u64};
use crate::encoding::{b64_decode, b64_encode, lemma_b64_roundtrip};
use crate::numeric::{
    all_digits, decimal, decimal_string, digits_value, hex_fixed, lemma_decimal_shape, push_hex_fixed,
};
use crate::text::{ascii_bytes, ascii_bytes_of, concat_str, trim_end_char, trim_end_matches_char};
use crate::wechat::types::{
    BaseInfo, GetUpdatesRequest, GetUpdatesResponse, MessageItem, OutgoingMsg, SendMessageRequest,
    TextItem, BOT_TYPE, CHANNEL_VERSION, ITEM_TYPE_TEXT, MESSAGE_STATE_FINISH, MESSAGE_TYPE_BOT,
};

verus! {

/// The value of the `X-WECHAT-UIN` header for the number `v`: its decimal text in base64.
pub open spec fn uin_text(v: u32) -> Seq<char> {
    b64_encode(ascii_bytes(decimal(v as nat)))
}

/// Whether `d` is the decimal text of a `u32`: one to ten digits, no leading zero but in `0`
/// itself, and a value that fits.
pub open spec fn is_u32_decimal(d: Seq<char>) -> bool {
    &&& 1 <= d.len() <= 10
    &&& all_digits(d)
    &&& (d.len() > 1 ==> d[0] != '0')
    &&& 0 <= digits_value(d) <= 4294967295
    &&& decimal(digits_value(d) as nat) == d
}

/// The `X-WECHAT-UIN` value of `v` decodes, as standard base64, to the decimal text of `v`.
pub proof fn lemma_uin_decodes(v: u32)
    ensures
        b64_decode(uin_text(v)) == ascii_bytes(decimal(v as nat)),
        is_u32_decimal(decimal(v as nat)),
        digits_value(decimal(v as nat)) == v,
{
    lemma_b64_roundtrip(ascii_bytes(decimal(v as nat)));
    lemma_decimal_shape(v as nat);
}

/// The `X-WECHAT-UIN` value for the number `v`.
pub fn uin_for(v: u32) -> (r: String)
    ensures
        r@ == uin_text(v),
{
    let dec = decimal_string(v as u64);
    let bytes = ascii_bytes_of(dec.as_str());
    base64_encode(bytes.as_slice())
}

/// X-WECHAT-UIN: random uint32 → decimal string → base64
pub fn random_uin() -> (r: String)
    ensures
        exists|v: u32| r@ == #[trigger] uin_text(v),
        exists|d: Seq<char>| #[trigger] is_u32_decimal(d) && b64_decode(r@) == ascii_bytes(d),
{
    let val = random_u32();
    let r = uin_for(val);
    proof {
        lemma_uin_decodes(val);
        assert(is_u32_decimal(decimal(val as nat)));
    }
    r
}

/// A client id suffix: a random `u64` as sixteen lower-case hexadecimal digits.
pub fn uuid_simple() -> (r: String)
    ensures
        exists|id: u64| r@ == #[trigger] hex_fixed(id as nat, 16),
{
    let id = random_u64();
    let mut s = String::new();
    push_hex_fixed(&mut s, id, 16);
    assert(Seq::<char>::empty() + hex_fixed(id as nat, 16) =~= hex_fixed(id as nat, 16));
    s
}

/// What a WeChat client is: where it sends, and the bot token it sends with, if any.
pub struct WechatClientView {
    pub base_url: Seq<char>,
    pub token: Option<Seq<char>>,
}

/// A client of the iLink bot API.
#[derive(Debug, Clone)]
pub struct WechatClient {
    base_url: String,
    token: Option<String>,
}

impl View for WechatClient {
    type V = WechatClientView;

    closed spec fn view(&self) -> WechatClientView {
        WechatClientView {
            base_url: self.base_url@,
            token: match self.token {
                Some(t) => Some(t@),
                None => None,
            },
        }
    }
}

/// The headers of every request of a client whose `X-WECHAT-UIN` is `uin`.
pub open spec fn header_views(c: WechatClientView, uin: Seq<char>) -> Seq<(Seq<char>, Seq<char>)> {
    let base = seq![
        ("Content-Type"@, "application/json"@),
        ("AuthorizationType"@, "ilink_bot_token"@),
        ("X-WECHAT-UIN"@, uin),
    ];
    match c.token {
        Some(t) => base.push(("Authorization"@, "Bearer "@ + t)),
        None => base,
    }
}

/// The views of pairs of strings.
pub open spec fn pair_views(v: Seq<(String, String)>) -> Seq<(Seq<char>, Seq<char>)> {
    v.map_values(|p: (String, String)| (p.0@, p.1@))
}

impl WechatClient {
    /// A client of the API at `base_url`, without its trailing slashes, with no token yet.
    pub fn new(base_url: &str) -> (r: Self)
        ensures
            r@.base_url == trim_end_char(base_url@, '/'),
            r@.token is None,
    {
        WechatClient { base_url: trim_end_matches_char(base_url, '/'), token: None }
    }

    /// The same client, sending with `token`.
    pub fn with_token(self, token: &str) -> (r: Self)
        ensures
            r@.base_url == self@.base_url,
            r@.token == Some(token@),
    {
        WechatClient { base_url: self.base_url, token: Some(token.to_string()) }
    }

    /// The headers of a request whose `X-WECHAT-UIN` is `uin`.
    pub fn headers_with_uin(&self, uin: String) -> (r: Vec<(String, String)>)
        ensures
            pair_views(r@) == header_views(self@, uin@),
    {
        let mut h: Vec<(String, String)> = Vec::new();
        h.push(("Content-Type".to_string(), "application/json".to_string()));
        h.push(("AuthorizationType".to_string(), "ilink_bot_token".to_string()));
        let ghost u = uin@;
        h.push(("X-WECHAT-UIN".to_string(), uin));
        match &self.token {
            Some(t) => {
                h.push(("Authorization".to_string(), concat_str("Bearer ", t.as_str())));
            },
            None => {},
        }
        assert(pair_views(h@) =~= header_views(self@, u));
        h
    }

    /// The headers of a request, with a fresh random `X-WECHAT-UIN`.
    pub fn build_headers(&self) -> (r: Vec<(String, String)>)
        ensures
            exists|v: u32| pair_views(r@) == #[trigger] header_views(self@, uin_text(v)),
    {
        let uin = random_uin();
        let ghost v = choose|v: u32| uin@ == uin_text(v);
        let r = self.headers_with_uin(uin);
        assert(pair_views(r@) == header_views(self@, uin_text(v)));
        r
    }

    /// Where a login QR code is asked for.
    pub fn qrcode_url(&self) -> (r: String)
        ensures
            r@ == self@.base_url + "/ilink/bot/get_bot_qrcode?bot_type="@ + BOT_TYPE@,
    {
        let mut s = self.base_url.clone();
        s.append("/ilink/bot/get_bot_qrcode?bot_type=");
        s.append(BOT_TYPE);
        s
    }

    /// Where the state of the login QR code `qrcode` is asked for.
    pub fn qrcode_status_url(&self, qrcode: &str) -> (r: String)
        ensures
            r@ == self@.base_url + "/ilink/bot/get_qrcode_status?qrcode="@ + qrcode@,
    {
        let mut s = self.base_url.clone();
        s.append("/ilink/bot/get_qrcode_status?qrcode=");
        s.append(qrcode);
        s
    }

    /// Where new messages are polled for.
    pub fn updates_url(&self) -> (r: String)
        ensures
            r@ == self@.base_url + "/ilink/bot/getupdates"@,
    {
        let mut s = self.base_url.clone();
        s.append("/ilink/bot/getupdates");
        s
    }

    /// Where messages are sent.
    pub fn send_message_url(&self) -> (r: String)
        ensures
            r@ == self@.base_url + "/ilink/bot/sendmessage"@,
    {
        let mut s = self.base_url.clone();
        s.append("/ilink/bot/sendmessage");
        s
    }
}

/// What every request reports about the client.
pub fn base_info() -> (r: BaseInfo)
    ensures
        r.channel_version@ == CHANNEL_VERSION@,
{
    BaseInfo { channel_version: CHANNEL_VERSION.to_string() }
}

/// The long-poll for the messages after the cursor `buf`.
pub fn updates_request(buf: &str) -> (r: GetUpdatesRequest)
    ensures
        r.get_updates_buf@ == buf@,
        r.base_info.channel_version@ == CHANNEL_VERSION@,
{
    GetUpdatesRequest { get_updates_buf: buf.to_string(), base_info: base_info() }
}

/// Whether `r` is the request that sends `text` to `to_user_id` in the thread of
/// `context_token`, as the message `client_id`.
pub open spec fn is_send_request(
    r: SendMessageRequest,
    to_user_id: Seq<char>,
    text: Seq<char>,
    context_token: Seq<char>,
    client_id: Seq<char>,
) -> bool {
    &&& r.msg.from_user_id@ == Seq::<char>::empty()
    &&& r.msg.to_user_id@ == to_user_id
    &&& r.msg.client_id@ == client_id
    &&& r.msg.message_type == MESSAGE_TYPE_BOT
    &&& r.msg.message_state == MESSAGE_STATE_FINISH
    &&& r.msg.context_token@ == context_token
    &&& r.msg.item_list@.len() == 1
    &&& r.msg.item_list@[0].item_type == ITEM_TYPE_TEXT
    &&& r.msg.item_list@[0].create_time_ms is None
    &&& r.msg.item_list@[0].is_completed is None
    &&& r.msg.item_list@[0].text_item matches Some(t) && t.text matches Some(x) && x@ == text
    &&& r.msg.item_list@[0].voice_item is None
    &&& r.msg.item_list@[0].file_item is None
    &&& r.base_info.channel_version@ == CHANNEL_VERSION@
}

/// The request that sends `text` to `to_user_id` in the thread of `context_token`.
pub fn send_message_request(
    to_user_id: &str,
    text: &str,
    context_token: &str,
    client_id: String,
) -> (r: SendMessageRequest)
    ensures
        is_send_request(r, to_user_id@, text@, context_token@, client_id@),
{
    let item = MessageItem {
        item_type: ITEM_TYPE_TEXT,
        create_time_ms: None,
        is_completed: None,
        text_item: Some(TextItem { text: Some(text.to_string()) }),
        voice_item: None,
        file_item: None,
    };
    let mut items: Vec<MessageItem> = Vec::new();
    items.push(item);
    SendMessageRequest {
        msg: OutgoingMsg {
            from_user_id: String::new(),
            to_user_id: to_user_id.to_string(),
            client_id,
            message_type: MESSAGE_TYPE_BOT,
            message_state: MESSAGE_STATE_FINISH,
            context_token: context_token.to_string(),
            item_list: items,
        },
        base_info: base_info(),
    }
}

/// The request that sends `text`, with a fresh client id `mnemo-` and sixteen hexadecimal digits.
pub fn new_send_message_request(to_user_id: &str, text: &str, context_token: &str) -> (r:
    SendMessageRequest)
    ensures
        exists|id: u64|
            is_send_request(
                r,
                to_user_id@,
                text@,
                context_token@,
                #[trigger] client_id_text(id),
            ),
{
    let suffix = uuid_simple();
    let ghost id = choose|id: u64| suffix@ == hex_fixed(id as nat, 16);
    let client_id = concat_str("mnemo-", suffix.as_str());
    let r = send_message_request(to_user_id, text, context_token, client_id);
    assert(is_send_request(r, to_user_id@, text@, context_token@, client_id_text(id)));
    r
}

/// The client id of a sent message whose random number was `id`.
pub open spec fn client_id_text(id: u64) -> Seq<char> {
    "mnemo-"@ + hex_fixed(id as nat, 16)
}

/// Whether `r` is the answer of a poll that brought nothing and leaves the cursor at `buf`.
pub open spec fn is_empty_response(r: GetUpdatesResponse, buf: Seq<char>) -> bool {
    &&& r.msgs@.len() == 0
    &&& r.get_updates_buf matches Some(b) && b@ == buf
    &&& r.sync_buf is None
}

/// The answer of a poll that brought nothing: no messages, the cursor left at `buf`.
pub fn empty_response(buf: &str) -> (r: GetUpdatesResponse)
    ensures
        is_empty_response(r, buf@),
{
    GetUpdatesResponse { msgs: Vec::new(), get_updates_buf: Some(buf.to_string()), sync_buf: None }
}

/// What a poll from the cursor `buf` yields, given the body of the answer and what it parsed to:
/// an empty body, or one that is not a valid answer, yields nothing and keeps the cursor.
pub fn updates_from_body(buf: &str, body: &str, parsed: Option<GetUpdatesResponse>) -> (r:
    GetUpdatesResponse)
    ensures
        body@.len() == 0 ==> is_empty_response(r, buf@),
        body@.len() > 0 ==> match parsed {
            Some(d) => r == d,
            None => is_empty_response(r, buf@),
        },
{
    if body.is_empty() {
        return empty_response(buf);
    }
    match parsed {
        Some(d) => d,
        None => empty_response(buf),
    }
}

/// The error text of a request `op` that the server answered with `status` and `body`.
pub fn http_failure(op: &str, status: &str, body: &str) -> (r: String)
    ensures
        r@ == op@ + " HTTP "@ + status@ + ": "@ + body@,
{
    let mut s = op.to_string();
    s.append(" HTTP ");
    s.append(status);
    s.append(": ");
    s.append(body);
    s
}

} // verus!
