use base64::Engine;
use mnemo::wechat::client::uin_for;
use mnemo::wechat::gateway::{login_plan, LoginPlan, PollCursor};
use mnemo::message::MessageContext;
use mnemo::wechat::client::{
    empty_response, http_failure, new_send_message_request, random_uin, send_message_request,
    updates_from_body, updates_request, uuid_simple, WechatClient,
};
use mnemo::wechat::gateway::{
    client_for_saved, extract_text, incoming_from_weixin, login_step, poll_error_is_fatal,
    poll_step, LoginStep,
};
use mnemo::wechat::types::{
    FileItem, GetUpdatesResponse, MessageItem, QrcodeStatusResponse, TextItem, TokenSession,
    VoiceItem, WeixinMessage, CHANNEL_VERSION,
};

fn item(item_type: i32) -> MessageItem {
    MessageItem { item_type, create_time_ms: None, is_completed: None, text_item: None, voice_item: None, file_item: None }
}

fn message(message_type: i32, from: &str, items: Option<Vec<MessageItem>>) -> WeixinMessage {
    WeixinMessage {
        seq: None,
        message_id: None,
        from_user_id: from.to_string(),
        to_user_id: "bot".to_string(),
        client_id: None,
        create_time_ms: None,
        session_id: None,
        group_id: None,
        message_type,
        message_state: None,
        context_token: Some(format!("ctx-{}", from)),
        item_list: items,
    }
}

#[test]
fn extract_text_takes_the_first_item_that_says_something() {
    let mut text = item(1);
    text.text_item = Some(TextItem { text: Some("你好".to_string()) });
    assert_eq!(extract_text(&message(1, "u", Some(vec![text.clone()]))), "你好");
    // a text item without text says nothing: the next item speaks
    let mut empty_text = item(1);
    empty_text.text_item = Some(TextItem { text: None });
    assert_eq!(extract_text(&message(1, "u", Some(vec![empty_text, item(2), text]))), "[图片]");
    assert_eq!(extract_text(&message(1, "u", Some(vec![item(9), item(5)]))), "[视频]");
    assert_eq!(extract_text(&message(1, "u", Some(vec![item(9)]))), "[空消息]");
    assert_eq!(extract_text(&message(1, "u", None)), "[空消息]");
    assert_eq!(extract_text(&message(1, "u", Some(vec![]))), "[空消息]");
}

#[test]
fn extract_text_of_voice_and_file() {
    let mut voice = item(3);
    assert_eq!(extract_text(&message(1, "u", Some(vec![voice.clone()]))), "[语音]");
    voice.voice_item = Some(VoiceItem { text: Some("明天见".to_string()) });
    assert_eq!(extract_text(&message(1, "u", Some(vec![voice]))), "[语音] 明天见");
    let mut file = item(4);
    assert_eq!(extract_text(&message(1, "u", Some(vec![file.clone()]))), "[文件]");
    file.file_item = Some(FileItem { file_name: None });
    assert_eq!(extract_text(&message(1, "u", Some(vec![file.clone()]))), "[文件] unknown");
    file.file_item = Some(FileItem { file_name: Some("a.pdf".to_string()) });
    assert_eq!(extract_text(&message(1, "u", Some(vec![file]))), "[文件] a.pdf");
}

#[test]
fn client_urls_and_headers() {
    let c = WechatClient::new("https://h.example//");
    assert_eq!(c.qrcode_url(), "https://h.example/ilink/bot/get_bot_qrcode?bot_type=3");
    assert_eq!(c.qrcode_status_url("Q1"), "https://h.example/ilink/bot/get_qrcode_status?qrcode=Q1");
    assert_eq!(c.updates_url(), "https://h.example/ilink/bot/getupdates");
    assert_eq!(c.send_message_url(), "https://h.example/ilink/bot/sendmessage");
    let h = c.headers_with_uin("MTIz".to_string());
    assert_eq!(h.len(), 3);
    assert_eq!(h[0], ("Content-Type".to_string(), "application/json".to_string()));
    assert_eq!(h[1], ("AuthorizationType".to_string(), "ilink_bot_token".to_string()));
    assert_eq!(h[2], ("X-WECHAT-UIN".to_string(), "MTIz".to_string()));
    let c = c.with_token("tok");
    let h = c.build_headers();
    assert_eq!(h.len(), 4);
    assert_eq!(h[3], ("Authorization".to_string(), "Bearer tok".to_string()));
    assert_eq!(h[2].0, "X-WECHAT-UIN");
}

#[test]
fn random_uin_is_a_base64_decimal_u32() {
    for _ in 0..20 {
        let uin = random_uin();
        let bytes = base64::engine::general_purpose::STANDARD.decode(uin.as_bytes()).expect("base64");
        let text = String::from_utf8(bytes).expect("utf8");
        let v: u32 = text.parse().expect("decimal u32");
        assert_eq!(v.to_string(), text);
    }
}

#[test]
fn uuid_simple_is_sixteen_hex_digits() {
    let id = uuid_simple();
    assert_eq!(id.len(), 16);
    assert!(id.chars().all(|c| c.is_ascii_hexdigit() && !c.is_ascii_uppercase()));
}

#[test]
fn requests_carry_the_channel_version() {
    let r = updates_request("cursor");
    assert_eq!(r.get_updates_buf, "cursor");
    assert_eq!(r.base_info.channel_version, CHANNEL_VERSION);
    let s = send_message_request("to", "hi", "ctx", "mnemo-1".to_string());
    assert_eq!(s.msg.from_user_id, "");
    assert_eq!(s.msg.to_user_id, "to");
    assert_eq!(s.msg.client_id, "mnemo-1");
    assert_eq!(s.msg.message_type, 2);
    assert_eq!(s.msg.message_state, 2);
    assert_eq!(s.msg.context_token, "ctx");
    assert_eq!(s.msg.item_list.len(), 1);
    assert_eq!(s.msg.item_list[0].item_type, 1);
    assert_eq!(s.msg.item_list[0].text_item, Some(TextItem { text: Some("hi".to_string()) }));
    assert_eq!(s.base_info.channel_version, "1.0.2");
    let n = new_send_message_request("to", "hi", "");
    assert!(n.msg.client_id.starts_with("mnemo-"));
    assert_eq!(n.msg.client_id.len(), 22);
}

#[test]
fn unusable_answers_keep_the_cursor() {
    let e = empty_response("buf-1");
    assert!(e.msgs.is_empty());
    assert_eq!(e.get_updates_buf.as_deref(), Some("buf-1"));
    assert_eq!(e.sync_buf, None);
    assert_eq!(updates_from_body("buf-1", "", None), e);
    assert_eq!(updates_from_body("buf-1", "{not json", None), e);
    let parsed = GetUpdatesResponse { msgs: vec![], get_updates_buf: Some("next".to_string()), sync_buf: None };
    assert_eq!(updates_from_body("buf-1", "{}", Some(parsed.clone())), parsed);
    let (cursor, msgs) = poll_step("buf-1", e);
    assert_eq!(cursor, "buf-1");
    assert!(msgs.is_empty());
}

#[test]
fn poll_passes_on_user_messages_in_order() {
    let mut t = item(1);
    t.text_item = Some(TextItem { text: Some("hello".to_string()) });
    let resp = GetUpdatesResponse {
        msgs: vec![message(1, "alice", Some(vec![t.clone()])), message(2, "bot", None), message(1, "bob", None)],
        get_updates_buf: None,
        sync_buf: None,
    };
    let (cursor, out) = poll_step("old", resp);
    assert_eq!(cursor, "old");
    assert_eq!(out.len(), 2);
    assert_eq!(out[0].sender_id, "alice");
    assert_eq!(out[0].session_id, "alice");
    assert_eq!(out[0].content, "hello");
    assert_eq!(out[0].platform, "wechat");
    assert_eq!(out[0].sender_name, "");
    assert_eq!(out[0].context.context_token.as_deref(), Some("ctx-alice"));
    assert_eq!(out[1].sender_id, "bob");
    assert_eq!(out[1].content, "[空消息]");
    let resp = GetUpdatesResponse { msgs: vec![], get_updates_buf: Some("new".to_string()), sync_buf: None };
    assert_eq!(poll_step("old", resp).0, "new");
}

#[test]
fn incoming_from_weixin_keeps_the_context_token() {
    let m = incoming_from_weixin(&message(1, "carol", None), 1700000000);
    let mut ctx = MessageContext::empty();
    ctx.context_token = Some("ctx-carol".to_string());
    assert_eq!(m.context, ctx);
    assert_eq!(m.timestamp, 1700000000);
}

#[test]
fn fatal_poll_errors() {
    assert!(poll_error_is_fatal("connection error: session timeout"));
    assert!(poll_error_is_fatal("getupdates HTTP 200: {\"ret\":-14}"));
    assert!(!poll_error_is_fatal("getupdates HTTP 502: bad gateway"));
    assert_eq!(http_failure("getupdates", "502 Bad Gateway", "x"), "getupdates HTTP 502 Bad Gateway: x");
}

fn status(s: &str, token: Option<&str>) -> QrcodeStatusResponse {
    QrcodeStatusResponse {
        status: s.to_string(),
        bot_token: token.map(|t| t.to_string()),
        baseurl: None,
        ilink_bot_id: Some("bot-1".to_string()),
        ilink_user_id: None,
    }
}

#[test]
fn login_steps() {
    assert_eq!(login_step(&status("wait", None), "t"), LoginStep::Wait);
    assert_eq!(login_step(&status("scaned", None), "t"), LoginStep::Scanned);
    assert_eq!(login_step(&status("expired", None), "t"), LoginStep::Expired);
    assert_eq!(login_step(&status("weird", None), "t"), LoginStep::Unknown("weird".to_string()));
    assert_eq!(login_step(&status("confirmed", None), "t"), LoginStep::Failed("no token in response".to_string()));
    let s = TokenSession {
        token: "tok".to_string(),
        base_url: "https://ilinkai.weixin.qq.com".to_string(),
        bot_id: "bot-1".to_string(),
        user_id: "".to_string(),
        saved_at: "2024-01-01T00:00:00+00:00".to_string(),
    };
    assert_eq!(login_step(&status("confirmed", Some("tok")), "2024-01-01T00:00:00+00:00"), LoginStep::Confirmed(s));
}

#[test]
fn saved_sessions_are_reused() {
    let saved = TokenSession {
        token: "tok".to_string(),
        base_url: "https://other.example/".to_string(),
        bot_id: "b".to_string(),
        user_id: "u".to_string(),
        saved_at: "now".to_string(),
    };
    let c = client_for_saved(&Some(saved));
    assert_eq!(c.updates_url(), "https://other.example/ilink/bot/getupdates");
    assert_eq!(c.build_headers().len(), 4);
    let d = client_for_saved(&None);
    assert_eq!(d.updates_url(), "https://ilinkai.weixin.qq.com/ilink/bot/getupdates");
    assert_eq!(d.build_headers().len(), 3);
}

#[test]
fn uin_for_is_standard_base64_of_the_decimal() {
    assert_eq!(uin_for(123), "MTIz");
    assert_eq!(uin_for(0), "MA==");
    assert_eq!(uin_for(45), "NDU=");
    assert_eq!(uin_for(u32::MAX), base64::engine::general_purpose::STANDARD.encode(u32::MAX.to_string()));
}

#[test]
fn poll_cursor_follows_the_answers() {
    let mut c = PollCursor::new();
    assert_eq!(c.buf(), "");
    let answer = |b: Option<&str>| GetUpdatesResponse { msgs: vec![message(1, "u", None)], get_updates_buf: b.map(|s| s.to_string()), sync_buf: None };
    assert_eq!(c.answered(answer(Some("b1"))).len(), 1);
    assert_eq!(c.buf(), "b1");
    assert!(!c.failed("getupdates HTTP 502 Bad Gateway: x"));
    assert_eq!(c.buf(), "b1");
    c.answered(answer(None));
    assert_eq!(c.buf(), "b1");
    c.answered(answer(Some("b2")));
    assert_eq!(c.buf(), "b2");
    assert!(c.failed("session timeout"));
    assert_eq!(c.buf(), "b2");
}

#[test]
fn a_saved_session_is_reused() {
    let s = TokenSession { token: "t".into(), base_url: "b".into(), bot_id: "".into(), user_id: "".into(), saved_at: "".into() };
    assert_eq!(login_plan(Some(s.clone())), LoginPlan::Reuse(s));
    assert_eq!(login_plan(None), LoginPlan::Scan);
}

#[test]
fn login_stamps_and_codes() {
    match mnemo::wechat::gateway::login_step_now(&status("confirmed", Some("tok"))) {
        LoginStep::Confirmed(s) => {
            assert!(s.saved_at.ends_with("+00:00"));
            assert_eq!(&s.saved_at[10..11], "T");
            assert!(s.saved_at.len() >= 25);
        }
        other => panic!("{:?}", other),
    }
    let mut login = mnemo::wechat::gateway::QrLogin::new("q1".to_string());
    assert_eq!(login.qrcode(), "q1");
    login.on_new_code(&mnemo::wechat::types::QrcodeResponse { qrcode: "q2".into(), qrcode_img_content: "img".into() });
    assert_eq!(login.qrcode(), "q2");
    assert!(!mnemo::wechat::gateway::login_timed_out(300_000_000_000));
    assert!(mnemo::wechat::gateway::login_timed_out(300_000_000_001));
}
