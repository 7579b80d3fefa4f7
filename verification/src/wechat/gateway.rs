//! The decisions of the WeChat gateway: what a message says, what a poll yields, how a login goes.
use vstd::prelude::*;
use crate::deps::{is_utc_rfc3339, utc_now_rfc3339, utc_now_timestamp};
use crate::message::{opt_view, string_or, view_or, IncomingMessage, MessageContext};
use crate::text::{concat_str, contains, str_contains, str_eq, trim_end_char};
use crate::wechat::client::{is_empty_response, WechatClient};
use crate::wechat::types::{
    GetUpdatesResponse, MessageItem, QrcodeResponse, QrcodeStatusResponse, TokenSession, WeixinMessage,
    DEFAULT_BASE_URL, MESSAGE_TYPE_USER,
};

verus! {

/// The text that stands for one item, or `None` for an item that says nothing.
pub open spec fn item_text(item: MessageItem) -> Option<Seq<char>> {
    if item.item_type == 1 {
        match item.text_item {
            Some(t) => match t.text {
                Some(x) => Some(x@),
                None => None,
            },
            None => None,
        }
    } else if item.item_type == 2 {
        Some("[图片]"@)
    } else if item.item_type == 3 {
        match item.voice_item {
            Some(v) => match v.text {
                Some(x) => Some("[语音] "@ + x@),
                None => Some("[语音]"@),
            },
            None => Some("[语音]"@),
        }
    } else if item.item_type == 4 {
        match item.file_item {
            Some(f) => Some("[文件] "@ + view_or(f.file_name, "unknown"@)),
            None => Some("[文件]"@),
        }
    } else if item.item_type == 5 {
        Some("[视频]"@)
    } else {
        None
    }
}

/// The text of the first item that says something, or the mark of an empty message.
pub open spec fn items_text(items: Seq<MessageItem>) -> Seq<char>
    decreases items.len(),
{
    if items.len() == 0 {
        "[空消息]"@
    } else {
        match item_text(items[0]) {
            Some(t) => t,
            None => items_text(items.drop_first()),
        }
    }
}

/// The items of a message; none where it has no list.
pub open spec fn message_items(msg: WeixinMessage) -> Seq<MessageItem> {
    match msg.item_list {
        Some(v) => v@,
        None => Seq::empty(),
    }
}

/// The plain text of a message.
pub open spec fn message_text(msg: WeixinMessage) -> Seq<char> {
    items_text(message_items(msg))
}

/// What a voice item reads as: `[语音] ` and its transcript, or `[语音]` where it has none.
pub open spec fn voice_text(item: MessageItem) -> Seq<char> {
    match item.voice_item {
        Some(v) => match v.text {
            Some(x) => "[语音] "@ + x@,
            None => "[语音]"@,
        },
        None => "[语音]"@,
    }
}

/// Every voice item says something, with or without a transcript, and so does every picture,
/// file and video item.
pub proof fn lemma_voice_item_says_something(item: MessageItem)
    ensures
        item.item_type == 3 ==> item_text(item) == Some(voice_text(item)),
        (item.item_type == 2 || item.item_type == 4 || item.item_type == 5) ==> item_text(item) is Some,
{
}

/// A message whose first item is a voice item reads as that voice item, never as an empty
/// message.
pub proof fn lemma_voice_message_text(msg: WeixinMessage)
    requires
        message_items(msg).len() > 0,
        message_items(msg)[0].item_type == 3,
    ensures
        message_text(msg) == voice_text(message_items(msg)[0]),
        message_text(msg).take(4) == "[语音]"@,
        message_text(msg) != "[空消息]"@,
{
    lemma_voice_item_says_something(message_items(msg)[0]);
    reveal_strlit("[语音] ");
    reveal_strlit("[语音]");
    reveal_strlit("[空消息]");
    let t = message_text(msg);
    assert(t.take(4) =~= "[语音]"@);
    assert(t[1] != "[空消息]"@[1]);
}

/// The text that stands for `item`, or `None`.
pub fn item_text_of(item: &MessageItem) -> (r: Option<String>)
    ensures
        opt_view(r) == item_text(*item),
        item.item_type == 3 ==> (r matches Some(t) && t@ == voice_text(*item)),
        (item.item_type == 2 || item.item_type == 4 || item.item_type == 5) ==> r is Some,
{
    proof {
        lemma_voice_item_says_something(*item);
    }
    if item.item_type == 1 {
        match &item.text_item {
            Some(t) => match &t.text {
                Some(x) => Some(x.clone()),
                None => None,
            },
            None => None,
        }
    } else if item.item_type == 2 {
        Some("[图片]".to_string())
    } else if item.item_type == 3 {
        match &item.voice_item {
            Some(v) => match &v.text {
                Some(x) => Some(concat_str("[语音] ", x.as_str())),
                None => Some("[语音]".to_string()),
            },
            None => Some("[语音]".to_string()),
        }
    } else if item.item_type == 4 {
        match &item.file_item {
            Some(f) => {
                let name = string_or(&f.file_name, "unknown");
                Some(concat_str("[文件] ", name.as_str()))
            },
            None => Some("[文件]".to_string()),
        }
    } else if item.item_type == 5 {
        Some("[视频]".to_string())
    } else {
        None
    }
}

/// Extract plain text from a WeixinMessage.
pub fn extract_text(msg: &WeixinMessage) -> (r: String)
    ensures
        r@ == message_text(*msg),
        message_items(*msg).len() > 0 && message_items(*msg)[0].item_type == 3 ==> r@.take(4)
            == "[语音]"@ && r@ != "[空消息]"@,
{
    proof {
        if message_items(*msg).len() > 0 && message_items(*msg)[0].item_type == 3 {
            lemma_voice_message_text(*msg);
        }
    }
    match &msg.item_list {
        None => "[空消息]".to_string(),
        Some(items) => {
            let mut i: usize = 0;
            assert(items@.skip(0) =~= items@);
            assert(message_text(*msg) == items_text(items@));
            while i < items.len()
                invariant
                    i <= items.len(),
                    message_text(*msg) == items_text(items@),
                    message_items(*msg) == items@,
                    items_text(items@) == items_text(items@.skip(i as int)),
                decreases items.len() - i,
            {
                assert(items@.skip(i as int)[0] == items@[i as int]);
                assert(items@.skip(i as int).drop_first() =~= items@.skip(i + 1));
                let r = item_text_of(&items[i]);
                if let Some(t) = r {
                    assert(item_text(items@[i as int]) == Some(t@));
                    assert(items_text(items@.skip(i as int)) == t@);
                    proof {
                        if message_items(*msg).len() > 0 && message_items(*msg)[0].item_type == 3 {
                            lemma_voice_message_text(*msg);
                        }
                    }
                    return t;
                }
                i = i + 1;
            }
            assert(items@.skip(i as int) =~= Seq::<MessageItem>::empty());
            "[空消息]".to_string()
        },
    }
}

/// Whether `m` is what the gateway passes on for the WeChat message `msg`, received at `ts`.
pub open spec fn is_incoming_from(m: IncomingMessage, msg: WeixinMessage, ts: i64) -> bool {
    &&& m.session_id@ == msg.from_user_id@
    &&& m.sender_id@ == msg.from_user_id@
    &&& m.sender_name@ == Seq::<char>::empty()
    &&& m.content@ == message_text(msg)
    &&& m.platform@ == "wechat"@
    &&& m.timestamp == ts
    &&& opt_view(m.context.context_token) == opt_view(msg.context_token)
    &&& m.context.msg_type is None
    &&& m.context.msg_id is None
    &&& m.context.channel_id is None
    &&& m.context.group_openid is None
    &&& m.context.guild_id is None
}

/// The message that the gateway passes on for the WeChat message `msg`, received at `timestamp`.
pub fn incoming_from_weixin(msg: &WeixinMessage, timestamp: i64) -> (r: IncomingMessage)
    ensures
        is_incoming_from(r, *msg, timestamp),
{
    let mut context = MessageContext::empty();
    context.context_token = msg.context_token.clone();
    IncomingMessage {
        session_id: msg.from_user_id.clone(),
        sender_id: msg.from_user_id.clone(),
        sender_name: String::new(),
        content: extract_text(msg),
        platform: "wechat".to_string(),
        timestamp,
        context,
    }
}

/// The messages of a poll that reach the agent: those that users sent, in order.
pub open spec fn forwarded(msgs: Seq<WeixinMessage>) -> Seq<WeixinMessage>
    decreases msgs.len(),
{
    if msgs.len() == 0 {
        Seq::empty()
    } else {
        let r = forwarded(msgs.drop_last());
        if msgs.last().message_type == MESSAGE_TYPE_USER {
            r.push(msgs.last())
        } else {
            r
        }
    }
}

/// Every message that a user sent is passed on, in order, whoever sent it and whatever came
/// before it: the messages passed on for a poll are exactly its messages of the user type.
pub proof fn lemma_forwarded_user_messages(msgs: Seq<WeixinMessage>)
    ensures
        forwarded(msgs) == msgs.filter(|m: WeixinMessage| m.message_type == MESSAGE_TYPE_USER),
    decreases msgs.len(),
{
    reveal(Seq::filter);
    if msgs.len() > 0 {
        lemma_forwarded_user_messages(msgs.drop_last());
    }
}

/// The cursor after a poll from `buf` that was answered with `resp`.
pub open spec fn next_cursor(buf: Seq<char>, resp: GetUpdatesResponse) -> Seq<char> {
    view_or(resp.get_updates_buf, buf)
}

/// One poll of the gateway from the cursor `buf`, answered with `resp`: the next cursor, and the
/// messages to pass on, each stamped with the time at which it was passed on.
pub fn poll_step(buf: &str, resp: GetUpdatesResponse) -> (r: (String, Vec<IncomingMessage>))
    ensures
        r.0@ == next_cursor(buf@, resp),
        r.1@.len() == forwarded(resp.msgs@).len(),
        forall|i: int|
            0 <= i < r.1@.len() ==> is_incoming_from(
                #[trigger] r.1@[i],
                forwarded(resp.msgs@)[i],
                r.1@[i].timestamp,
            ),
        r.1@.len() == resp.msgs@.filter(|m: WeixinMessage| m.message_type == MESSAGE_TYPE_USER).len(),
        forall|i: int|
            0 <= i < r.1@.len() ==> is_incoming_from(
                #[trigger] r.1@[i],
                resp.msgs@.filter(|m: WeixinMessage| m.message_type == MESSAGE_TYPE_USER)[i],
                r.1@[i].timestamp,
            ),
{
    let next = string_or(&resp.get_updates_buf, buf);
    let mut out: Vec<IncomingMessage> = Vec::new();
    let msgs = &resp.msgs;
    for i in 0..msgs.len()
        invariant
            msgs@ == resp.msgs@,
            out@.len() == forwarded(msgs@.take(i as int)).len(),
            forall|j: int|
                0 <= j < out@.len() ==> is_incoming_from(
                    #[trigger] out@[j],
                    forwarded(msgs@.take(i as int))[j],
                    out@[j].timestamp,
                ),
    {
        assert(msgs@.take(i + 1).drop_last() =~= msgs@.take(i as int));
        assert(msgs@.take(i + 1).last() == msgs@[i as int]);
        if msgs[i].message_type == MESSAGE_TYPE_USER {
            let m = incoming_from_weixin(&msgs[i], utc_now_timestamp());
            out.push(m);
        }
    }
    assert(msgs@.take(msgs@.len() as int) =~= msgs@);
    proof {
        lemma_forwarded_user_messages(resp.msgs@);
    }
    (next, out)
}

/// Whether a polling error means that the session is over and the bot must log in again.
pub open spec fn poll_error_is_fatal_spec(err: Seq<char>) -> bool {
    contains(err, "session timeout"@) || contains(err, "-14"@)
}

/// Whether the polling error whose text is `err` means that the session is over.
pub fn poll_error_is_fatal(err: &str) -> (r: bool)
    ensures
        r == poll_error_is_fatal_spec(err@),
{
    str_contains(err, "session timeout") || str_contains(err, "-14")
}

/// What a login does next, given the state of its QR code.
#[derive(Debug, Clone, PartialEq, Eq)]
pub enum LoginStep {
    /// Not scanned yet: ask again in a second.
    Wait,
    /// Scanned, not confirmed yet: ask again in a second.
    Scanned,
    /// The code expired: show a new one.
    Expired,
    /// Confirmed: the session to keep.
    Confirmed(TokenSession),
    /// The login cannot go on, for the reason given.
    Failed(String),
    /// A state that the protocol does not name: ask again in a second.
    Unknown(String),
}

/// Whether `r` is the next step of a login whose QR code is in the state `status`, where a
/// session made now is stamped `saved_at`.
pub open spec fn is_login_step(r: LoginStep, status: QrcodeStatusResponse, saved_at: Seq<char>) -> bool {
    if status.status@ == "wait"@ {
        r is Wait
    } else if status.status@ == "scaned"@ {
        r is Scanned
    } else if status.status@ == "expired"@ {
        r is Expired
    } else if status.status@ == "confirmed"@ {
        match status.bot_token {
            None => r matches LoginStep::Failed(m) && m@ == "no token in response"@,
            Some(t) => r matches LoginStep::Confirmed(s) && {
                &&& s.token@ == t@
                &&& s.base_url@ == view_or(status.baseurl, DEFAULT_BASE_URL@)
                &&& s.bot_id@ == view_or(status.ilink_bot_id, Seq::<char>::empty())
                &&& s.user_id@ == view_or(status.ilink_user_id, Seq::<char>::empty())
                &&& s.saved_at@ == saved_at
            },
        }
    } else {
        r matches LoginStep::Unknown(s) && s@ == status.status@
    }
}

/// Whether `r` confirms a login with the session that the confirmed status `status` carries:
/// its token, the bot and the user who scanned the code (empty text where the status names
/// none), its endpoint (the default one where it names none), stamped `saved_at`.
pub open spec fn confirmed_session_of(r: LoginStep, status: QrcodeStatusResponse, saved_at: Seq<char>) -> bool {
    r matches LoginStep::Confirmed(s) && {
        &&& status.bot_token matches Some(t) && s.token@ == t@
        &&& status.ilink_user_id matches Some(u) ==> s.user_id@ == u@
        &&& status.ilink_user_id is None ==> s.user_id@.len() == 0
        &&& status.ilink_bot_id matches Some(b) ==> s.bot_id@ == b@
        &&& status.ilink_bot_id is None ==> s.bot_id@.len() == 0
        &&& status.baseurl matches Some(u) ==> s.base_url@ == u@
        &&& status.baseurl is None ==> s.base_url@ == DEFAULT_BASE_URL@
        &&& s.saved_at@ == saved_at
    }
}

/// A confirmed login keeps what the status says of it: the session holds the status's token,
/// the id of the user who scanned the code (empty only where the status has none), the bot's id
/// and the endpoint, and the time at which it was saved.
pub proof fn lemma_confirmed_login_keeps_scanner(
    r: LoginStep,
    status: QrcodeStatusResponse,
    saved_at: Seq<char>,
)
    requires
        is_login_step(r, status, saved_at),
        status.status@ == "confirmed"@,
        status.bot_token is Some,
    ensures
        confirmed_session_of(r, status, saved_at),
{
    reveal_strlit("wait");
    reveal_strlit("scaned");
    reveal_strlit("expired");
    reveal_strlit("confirmed");
    assert("confirmed"@.len() != "wait"@.len() && "confirmed"@.len() != "scaned"@.len());
    assert("confirmed"@.len() != "expired"@.len());
}

/// The next step of a login whose QR code is in the state `status`; a session made now is
/// stamped `saved_at`.
pub fn login_step(status: &QrcodeStatusResponse, saved_at: &str) -> (r: LoginStep)
    ensures
        is_login_step(r, *status, saved_at@),
        status.status@ == "confirmed"@ && status.bot_token is Some ==> confirmed_session_of(
            r,
            *status,
            saved_at@,
        ),
{
    let st = status.status.as_str();
    proof {
        reveal_strlit("");
        assert(""@ =~= Seq::<char>::empty());
    }
    let r = if str_eq(st, "wait") {
        LoginStep::Wait
    } else if str_eq(st, "scaned") {
        LoginStep::Scanned
    } else if str_eq(st, "expired") {
        LoginStep::Expired
    } else if str_eq(st, "confirmed") {
        match &status.bot_token {
            None => LoginStep::Failed("no token in response".to_string()),
            Some(t) => LoginStep::Confirmed(
                TokenSession {
                    token: t.clone(),
                    base_url: string_or(&status.baseurl, DEFAULT_BASE_URL),
                    bot_id: string_or(&status.ilink_bot_id, ""),
                    user_id: string_or(&status.ilink_user_id, ""),
                    saved_at: saved_at.to_string(),
                },
            ),
        }
    } else {
        LoginStep::Unknown(status.status.clone())
    };
    proof {
        if status.status@ == "confirmed"@ && status.bot_token is Some {
            lemma_confirmed_login_keeps_scanner(r, *status, saved_at@);
        }
    }
    r
}

/// The next step of a login whose QR code is in the state `status`, a new session stamped with
/// the time now.
pub fn login_step_now(status: &QrcodeStatusResponse) -> (r: LoginStep)
    ensures
        exists|t: Seq<char>| #[trigger] is_login_step(r, *status, t) && is_utc_rfc3339(t),
{
    let now = utc_now_rfc3339();
    let r = login_step(status, now.as_str());
    assert(is_login_step(r, *status, now@));
    r
}

/// The client of a gateway: the one of the saved session, or one of the default endpoint.
pub fn client_for_saved(saved: &Option<TokenSession>) -> (r: WechatClient)
    ensures
        match saved {
            Some(s) => r@.base_url == trim_end_char(s.base_url@, '/') && r@.token == Some(s.token@),
            None => r@.base_url == trim_end_char(DEFAULT_BASE_URL@, '/') && r@.token is None,
        },
{
    match saved {
        Some(s) => WechatClient::new(s.base_url.as_str()).with_token(s.token.as_str()),
        None => WechatClient::new(DEFAULT_BASE_URL),
    }
}

/// A poll whose answer was empty or could not be read passes nothing on and polls again from the
/// same cursor.
pub proof fn lemma_empty_poll_keeps_cursor(buf: Seq<char>, resp: GetUpdatesResponse)
    requires
        is_empty_response(resp, buf),
    ensures
        next_cursor(buf, resp) == buf,
        forwarded(resp.msgs@).len() == 0,
{
}

/// What one poll of the gateway came to, as far as its cursor goes.
pub enum PollOutcome {
    /// The server answered, with the next cursor or without one.
    Answered(Option<Seq<char>>),
    /// The poll failed.
    Failed,
}

/// The cursor of the next poll after the polls `outcomes`: the cursor of the latest answer that
/// carried one, or the empty cursor of the first poll.
pub open spec fn cursor_after(outcomes: Seq<PollOutcome>) -> Seq<char>
    decreases outcomes.len(),
{
    if outcomes.len() == 0 {
        Seq::empty()
    } else {
        match outcomes.last() {
            PollOutcome::Answered(Some(b)) => b,
            _ => cursor_after(outcomes.drop_last()),
        }
    }
}

/// The cursor of a polling gateway, with the outcomes of its polls so far.
pub struct PollCursor {
    buf: String,
    outcomes: Ghost<Seq<PollOutcome>>,
}

impl PollCursor {
    #[verifier::type_invariant]
    spec fn cursor_matches_history(self) -> bool {
        self.buf@ == cursor_after(self.outcomes@)
    }

    /// The outcomes of the polls so far, oldest first.
    pub closed spec fn history(self) -> Seq<PollOutcome> {
        self.outcomes@
    }

    /// The cursor before the first poll: empty.
    pub fn new() -> (r: Self)
        ensures
            r.history() == Seq::<PollOutcome>::empty(),
    {
        PollCursor { buf: String::new(), outcomes: Ghost(Seq::empty()) }
    }

    /// The cursor of the next poll.
    pub fn buf(&self) -> (r: &str)
        ensures
            r@ == cursor_after(self.history()),
    {
        proof {
            use_type_invariant(self);
        }
        self.buf.as_str()
    }

    /// Takes in the answer `resp` to a poll: moves to its cursor, if it carries one, and gives
    /// the messages to pass on, each stamped with the time at which it was passed on.
    pub fn answered(&mut self, resp: GetUpdatesResponse) -> (r: Vec<IncomingMessage>)
        ensures
            final(self).history() == old(self).history().push(
                PollOutcome::Answered(opt_view(resp.get_updates_buf)),
            ),
            r@.len() == forwarded(resp.msgs@).len(),
            forall|i: int|
                0 <= i < r@.len() ==> is_incoming_from(
                    #[trigger] r@[i],
                    forwarded(resp.msgs@)[i],
                    r@[i].timestamp,
                ),
    {
        proof {
            use_type_invariant(&*self);
        }
        let ghost h = self.outcomes@.push(PollOutcome::Answered(opt_view(resp.get_updates_buf)));
        let ghost prev = self.outcomes@;
        assert(h.drop_last() =~= prev);
        let (next, msgs) = poll_step(self.buf.as_str(), resp);
        assert(next@ == cursor_after(h));
        *self = PollCursor { buf: next, outcomes: Ghost(h) };
        msgs
    }

    /// Takes in a poll that failed with the error text `err`: the cursor stays. Gives whether
    /// the error means that the session is over.
    pub fn failed(&mut self, err: &str) -> (r: bool)
        ensures
            final(self).history() == old(self).history().push(PollOutcome::Failed),
            r == poll_error_is_fatal_spec(err@),
    {
        proof {
            use_type_invariant(&*self);
        }
        let ghost h = self.outcomes@.push(PollOutcome::Failed);
        assert(h.drop_last() =~= self.outcomes@);
        let buf = self.buf.clone();
        assert(buf@ == cursor_after(h));
        *self = PollCursor { buf, outcomes: Ghost(h) };
        poll_error_is_fatal(err)
    }
}

/// The cursor of the polls: the first poll goes from the empty cursor; after an answer with a
/// cursor the next poll goes from that cursor; after an answer without one, or after a failed
/// poll, from the same cursor as before.
pub proof fn lemma_poll_cursor(h: Seq<PollOutcome>, b: Seq<char>)
    ensures
        cursor_after(Seq::<PollOutcome>::empty()) == Seq::<char>::empty(),
        cursor_after(h.push(PollOutcome::Answered(Some(b)))) == b,
        cursor_after(h.push(PollOutcome::Answered(None))) == cursor_after(h),
        cursor_after(h.push(PollOutcome::Failed)) == cursor_after(h),
{
    assert(h.push(PollOutcome::Answered(None)).drop_last() =~= h);
    assert(h.push(PollOutcome::Failed).drop_last() =~= h);
}

/// How a gateway logs in.
#[derive(Debug, Clone, PartialEq, Eq)]
pub enum LoginPlan {
    /// With the saved session, without scanning a QR code.
    Reuse(TokenSession),
    /// By scanning a QR code.
    Scan,
}

/// How a gateway that was given the saved session `saved` logs in: a saved session is reused.
pub fn login_plan(saved: Option<TokenSession>) -> (r: LoginPlan)
    ensures
        match saved {
            Some(s) => r == LoginPlan::Reuse(s),
            None => r == LoginPlan::Scan,
        },
{
    match saved {
        Some(s) => LoginPlan::Reuse(s),
        None => LoginPlan::Scan,
    }
}

/// How long an interactive login may take, in nanoseconds: five minutes.
pub const LOGIN_TIMEOUT_NANOS: u128 = 300_000_000_000;

/// Whether a login that has run `elapsed_nanos` nanoseconds is out of time: it is once more
/// than five minutes have passed.
pub fn login_timed_out(elapsed_nanos: u128) -> (r: bool)
    ensures
        r == (elapsed_nanos > LOGIN_TIMEOUT_NANOS),
{
    elapsed_nanos > LOGIN_TIMEOUT_NANOS
}

/// An interactive login in progress: the QR code whose state it asks for.
pub struct QrLogin {
    qrcode: String,
}

impl View for QrLogin {
    type V = Seq<char>;

    closed spec fn view(&self) -> Seq<char> {
        self.qrcode@
    }
}

impl QrLogin {
    /// A login that asks for the state of the first code shown, `qrcode`.
    pub fn new(qrcode: String) -> (r: Self)
        ensures
            r@ == qrcode@,
    {
        QrLogin { qrcode }
    }

    /// The code whose state the login asks for next.
    pub fn qrcode(&self) -> (r: &str)
        ensures
            r@ == self@,
    {
        self.qrcode.as_str()
    }

    /// Takes in the new code shown after the old one expired: later states are asked for it.
    pub fn on_new_code(&mut self, qr: &QrcodeResponse)
        ensures
            final(self)@ == qr.qrcode@,
    {
        self.qrcode = qr.qrcode.clone();
    }
}

} // verus!
