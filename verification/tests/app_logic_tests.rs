use mnemo::agent::{
    assistant_entry, assistant_entry_now, build_llm_messages, completion, context_query,
    llm_request, user_entry, user_entry_now, AgentConfig, AgentEvent, EntryMetadata, LlmResponse,
    TokenUsage, CONTEXT_LIMIT,
};
use mnemo::config::{
    default_select_model, join_path, parse_model_list, parse_port, pg_config_from, prompt_answer,
    prompt_hint, prompt_label, set_channel, AppConfig, ChannelConfig, PgConfig,
};
use mnemo::db::{build_conversation_id, oldest_first, postgres_url};
use mnemo::llm::{reply_text, ChatMessage, ChatResponse, Choice, LlmClient};
use mnemo::message::{IncomingMessage, MessageContext, OutgoingMessage};
use mnemo::qq::{qq_incoming, reply_kind, reply_target, QQChannelConfig, QqAuthor, QqKind, QqMessageInfo};
use mnemo::run::{check_run_config, plan_reply};
use mnemo::wechat::types::TokenSession;

fn incoming(platform: &str, sender: &str, context: MessageContext) -> IncomingMessage {
    IncomingMessage {
        session_id: sender.to_string(),
        sender_id: sender.to_string(),
        sender_name: String::new(),
        content: "hi".to_string(),
        platform: platform.to_string(),
        timestamp: 0,
        context,
    }
}

#[test]
fn conversation_ids() {
    assert_eq!(build_conversation_id(&incoming("wechat", "wx1", MessageContext::empty())), "wechat:wx1");
    let mut g = MessageContext::empty();
    g.group_openid = Some("G".to_string());
    g.channel_id = Some("C".to_string());
    assert_eq!(build_conversation_id(&incoming("qq", "s", g)), "qq:group:G");
    let mut c = MessageContext::empty();
    c.channel_id = Some("C".to_string());
    assert_eq!(build_conversation_id(&incoming("qq", "s", c)), "qq:guild:C");
    let mut d = MessageContext::empty();
    d.msg_type = Some("dm".to_string());
    assert_eq!(build_conversation_id(&incoming("qq", "s", d.clone())), "qq:dm:unknown");
    d.guild_id = Some("GU".to_string());
    assert_eq!(build_conversation_id(&incoming("qq", "s", d)), "qq:dm:GU");
    assert_eq!(build_conversation_id(&incoming("qq", "s", MessageContext::empty())), "qq:c2c:s");
    assert_eq!(build_conversation_id(&incoming("slack", "s", MessageContext::empty())), "slack:s");
}

#[test]
fn postgres_urls_and_rows() {
    let cfg = PgConfig { host: "localhost".into(), port: 5432, user: "postgres".into(), password: "pw".into(), database: "mnemo".into() };
    assert_eq!(postgres_url(&cfg), "postgres://postgres:pw@localhost:5432/mnemo");
    let rows = vec![("assistant".to_string(), "3".to_string()), ("user".to_string(), "2".to_string()), ("user".to_string(), "1".to_string())];
    let r = oldest_first(rows);
    assert_eq!(r.iter().map(|x| x.1.as_str()).collect::<Vec<_>>(), vec!["1", "2", "3"]);
    assert!(oldest_first(vec![]).is_empty());
}

#[test]
fn llm_base_urls() {
    assert_eq!(LlmClient::new("https://api.example.com", "k", "m").completions_url(), "https://api.example.com/v1/chat/completions");
    assert_eq!(LlmClient::new("https://api.example.com/", "k", "m").completions_url(), "https://api.example.com/v1/chat/completions");
    assert_eq!(LlmClient::new("https://api.example.com/v1/", "k", "m").completions_url(), "https://api.example.com/v1/chat/completions");
    let c = LlmClient::new("https://x/v1", "sk-1", "mimo");
    assert_eq!(c.authorization(), "Bearer sk-1");
    assert_eq!(c.model(), "mimo");
    let req = c.chat_request("hello");
    assert_eq!(req.model, "mimo");
    assert_eq!(req.max_tokens, 4096);
    assert_eq!(req.messages, vec![ChatMessage { role: "user".into(), content: "hello".into() }]);
}

#[test]
fn llm_replies() {
    let m = |s: &str| Choice { message: ChatMessage { role: "assistant".into(), content: s.into() } };
    assert_eq!(reply_text(ChatResponse { choices: vec![m("a"), m("b")] }), "a");
    assert_eq!(reply_text(ChatResponse { choices: vec![] }), "(empty response)");
}

#[test]
fn agent_turn() {
    let e = user_entry("id1".into(), "s1", "hello", 7);
    assert_eq!(e.role, "user");
    assert_eq!(e.metadata, EntryMetadata::Null);
    assert_eq!(e.created_at, 7);
    let now = user_entry_now("s1", "hello");
    assert_eq!(now.session_id, "s1");
    assert_eq!(now.content, "hello");
    assert_eq!(now.id.len(), 36);
    let q = context_query("s1");
    assert_eq!(q.limit, Some(CONTEXT_LIMIT));
    assert_eq!(CONTEXT_LIMIT, 50);
    assert_eq!(q.before, None);
    let config = AgentConfig { system_prompt: "be kind".into() };
    let ctx = vec![e.clone(), user_entry("id2".into(), "s1", "again", 8)];
    let msgs = build_llm_messages("be kind", &ctx);
    assert_eq!(msgs.len(), 3);
    assert_eq!((msgs[0].role.as_str(), msgs[0].content.as_str()), ("system", "be kind"));
    assert_eq!((msgs[2].role.as_str(), msgs[2].content.as_str()), ("user", "again"));
    let req = llm_request(&config, &ctx);
    assert_eq!(req.config, config);
    assert_eq!(req.messages, msgs);
    let usage = TokenUsage { input_tokens: 10, output_tokens: 3 };
    let resp = LlmResponse { content: "hi there".into(), usage };
    let a = assistant_entry("id3".into(), "s1", &resp, 9);
    assert_eq!(a.role, "assistant");
    assert_eq!(a.content, "hi there");
    assert_eq!(a.metadata, EntryMetadata::Usage(usage));
    assert_eq!(assistant_entry_now("s1", &resp).metadata, EntryMetadata::Usage(usage));
    assert_eq!(completion("s1", &resp), ("hi there".to_string(), AgentEvent::Completed { session_id: "s1".into() }));
}

fn token(t: &str) -> TokenSession {
    TokenSession { token: t.into(), base_url: "b".into(), bot_id: "".into(), user_id: "".into(), saved_at: "".into() }
}

#[test]
fn channels_are_replaced_by_kind() {
    let mut chans = vec![
        ChannelConfig::Wechat { token: token("old") },
        ChannelConfig::QQ(QQChannelConfig { app_id: "a".into(), secret: "s".into() }),
    ];
    set_channel(&mut chans, ChannelConfig::Wechat { token: token("new") });
    assert_eq!(chans, vec![
        ChannelConfig::QQ(QQChannelConfig { app_id: "a".into(), secret: "s".into() }),
        ChannelConfig::Wechat { token: token("new") },
    ]);
    set_channel(&mut chans, ChannelConfig::QQ(QQChannelConfig { app_id: "b".into(), secret: "t".into() }));
    assert_eq!(chans, vec![
        ChannelConfig::Wechat { token: token("new") },
        ChannelConfig::QQ(QQChannelConfig { app_id: "b".into(), secret: "t".into() }),
    ]);
    let mut empty = vec![];
    set_channel(&mut empty, ChannelConfig::Wechat { token: token("x") });
    assert_eq!(empty.len(), 1);
}

#[test]
fn setup_answers() {
    assert_eq!(parse_model_list("gpt-4o-mini, gpt-4o ,,"), vec!["gpt-4o-mini", "gpt-4o"]);
    assert_eq!(default_select_model(&vec!["a".into(), "b".into()]), "a");
    assert_eq!(default_select_model(&vec![]), "");
    assert_eq!(prompt_hint(Some("cur"), "def"), "cur");
    assert_eq!(prompt_hint(None, "def"), "def");
    assert_eq!(prompt_label("API Key", ""), "API Key: ");
    assert_eq!(prompt_label("Host", "localhost"), "Host [localhost]: ");
    assert_eq!(prompt_answer("  \n", "localhost"), "localhost");
    assert_eq!(prompt_answer(" db1 \n", "localhost"), "db1");
    assert_eq!(parse_port("6543"), 6543);
    assert_eq!(parse_port("abc"), 5432);
    assert_eq!(parse_port("70000"), 5432);
    assert_eq!(pg_config_from("h".into(), "1", "u".into(), "".into(), "d".into()), None);
    assert_eq!(
        pg_config_from("h".into(), "x", "u".into(), "p".into(), "d".into()),
        Some(PgConfig { host: "h".into(), port: 5432, user: "u".into(), password: "p".into(), database: "d".into() })
    );
}

#[test]
fn config_paths() {
    let j = |a: &[u8], b: &[u8]| join_path(&a.to_vec(), &b.to_vec());
    assert_eq!(j(b"/home/a", b".mnemo"), b"/home/a/.mnemo".to_vec());
    assert_eq!(j(b"/home/a/", b".mnemo"), b"/home/a/.mnemo".to_vec());
    assert_eq!(j(b"", b".mnemo"), b".mnemo".to_vec());
    // a home directory that is not UTF-8 keeps its bytes
    assert_eq!(j(b"/home/\xff", b".mnemo"), b"/home/\xff/.mnemo".to_vec());
    assert_eq!(mnemo::config::config_path_for(Some(b"/h".to_vec())), b"/h/.mnemo/config.json".to_vec());
    assert_eq!(mnemo::config::config_path_for(None), b"./.mnemo/config.json".to_vec());
    let p = AppConfig::config_path();
    assert!(p.ends_with(b"/.mnemo/config.json"));
    let d = AppConfig::default();
    assert_eq!(d.wechat_token, None);
    assert!(d.channels.is_empty());
}

#[test]
fn run_needs_login_and_model() {
    let mut c = AppConfig::default();
    assert_eq!(check_run_config(&c), Err("wechat_token not configured, run `mnemo setup` first".to_string()));
    c.wechat_token = Some(token("t"));
    assert_eq!(check_run_config(&c), Err("model not configured, run `mnemo setup` first".to_string()));
    let m = mnemo::config::ModelConfig { base_url: "b".into(), api_key: "k".into(), model_list: vec![], select_model: "m".into() };
    c.model = Some(m.clone());
    assert_eq!(check_run_config(&c), Ok(&m));
}

#[test]
fn replies_to_the_sender_in_the_thread() {
    let mut ctx = MessageContext::empty();
    ctx.context_token = Some("T".into());
    let msg = incoming("wechat", "u1", ctx);
    let ok = plan_reply(&msg, Ok("answer".into()));
    assert_eq!((ok.to.as_str(), ok.text.as_str(), ok.context_token.as_str()), ("u1", "answer", "T"));
    let err = plan_reply(&incoming("wechat", "u2", MessageContext::empty()), Err("boom".into()));
    assert_eq!(err.text, "抱歉，处理出错了: boom");
    assert_eq!(err.context_token, "");
}

fn info(from_bot: bool, content: Option<&str>, author: Option<&str>) -> QqMessageInfo {
    QqMessageInfo {
        from_bot,
        id: Some("m1".into()),
        content: content.map(|s| s.into()),
        author: author.map(|a| QqAuthor { id: Some(a.into()), username: Some("nick".into()) }),
        place: Some("P".into()),
    }
}

#[test]
fn qq_events() {
    assert_eq!(qq_incoming(QqKind::Guild, &info(true, Some("x"), Some("a")), 1), None);
    assert_eq!(qq_incoming(QqKind::Group, &info(false, Some(""), Some("a")), 1), None);
    assert_eq!(qq_incoming(QqKind::C2c, &info(false, Some("x"), None), 1), None);
    let g = qq_incoming(QqKind::Guild, &info(false, Some("x"), Some("a")), 1).unwrap();
    assert_eq!((g.sender_id.as_str(), g.sender_name.as_str(), g.platform.as_str()), ("a", "nick", "qq"));
    assert_eq!(g.context.msg_type.as_deref(), Some("guild"));
    assert_eq!(g.context.channel_id.as_deref(), Some("P"));
    assert_eq!(build_conversation_id(&g), "qq:guild:P");
    let gr = qq_incoming(QqKind::Group, &info(false, Some("x"), Some("a")), 1).unwrap();
    assert_eq!(gr.sender_name, "");
    assert_eq!(build_conversation_id(&gr), "qq:group:P");
    let d = qq_incoming(QqKind::Dm, &info(true, Some("x"), None), 1).unwrap();
    assert_eq!(d.sender_id, "dm");
    assert_eq!(build_conversation_id(&d), "qq:dm:P");
    let c = qq_incoming(QqKind::C2c, &info(false, Some("x"), Some("open1")), 1).unwrap();
    assert_eq!(build_conversation_id(&c), "qq:c2c:open1");
    assert_eq!(reply_kind("guild"), Some(QqKind::Guild));
    assert_eq!(reply_kind("dm"), Some(QqKind::Dm));
    assert_eq!(reply_kind("other"), None);
    let out = OutgoingMessage { session_id: "s".into(), content: "c".into(), context: c.context.clone() };
    assert_eq!(reply_target(&out), ("c2c".to_string(), "m1".to_string()));
    let bare = OutgoingMessage { session_id: "s".into(), content: "c".into(), context: MessageContext::empty() };
    assert_eq!(reply_target(&bare), ("".to_string(), "".to_string()));
}

#[test]
fn qq_events_now_are_stamped() {
    let before = std::time::SystemTime::now().duration_since(std::time::UNIX_EPOCH).unwrap().as_secs() as i64;
    let m = mnemo::qq::qq_incoming_now(QqKind::C2c, &info(false, Some("x"), Some("o"))).unwrap();
    assert!(m.timestamp >= before - 1 && m.timestamp <= before + 60);
    assert_eq!(mnemo::qq::qq_incoming_now(QqKind::C2c, &info(false, None, Some("o"))), None);
}

#[test]
fn a_port_offered_back_is_kept() {
    for p in [0u16, 1, 80, 5432, 65535] {
        assert_eq!(parse_port(&mnemo::numeric::decimal_string(p as u64)), p);
    }
}

#[test]
fn normalizing_twice_changes_nothing() {
    for url in ["https://a", "https://a/", "https://a/v1", "https://a/v1//", "", "/"] {
        let once = LlmClient::new(url, "k", "m").completions_url();
        let root = once.trim_end_matches("/chat/completions").to_string();
        assert_eq!(LlmClient::new(&root, "k", "m").completions_url(), once);
    }
    let t = mnemo::text::trim_end_matches_char("x//", '/');
    assert_eq!(mnemo::text::trim_end_matches_char(&t, '/'), t);
}

#[test]
fn replies_go_back_through_the_kind_received() {
    for kind in [QqKind::Guild, QqKind::Group, QqKind::C2c, QqKind::Dm] {
        let m = qq_incoming(kind, &info(false, Some("x"), Some("a")), 1).unwrap();
        let out = OutgoingMessage { session_id: m.session_id.clone(), content: "r".into(), context: m.context.clone() };
        assert_eq!(reply_kind(&reply_target(&out).0), Some(kind));
    }
}

#[test]
fn run_loop_answers_each_message_once_in_order() {
    let mut idle = mnemo::run::RunLoop::new();
    let mut sent = vec![];
    let answers = vec![Ok("a1".to_string()), Err("down".to_string())];
    let mut ctx = MessageContext::empty();
    ctx.context_token = Some("T1".into());
    let msgs = vec![incoming("wechat", "u1", ctx), incoming("wechat", "u2", MessageContext::empty())];
    for (msg, answer) in msgs.into_iter().zip(answers) {
        let (waiting, question) = idle.receive(msg);
        assert_eq!(question, "hi");
        let (next, plan) = waiting.answer(answer);
        idle = next;
        sent.push((plan.to, plan.text, plan.context_token));
    }
    assert_eq!(sent, vec![
        ("u1".to_string(), "a1".to_string(), "T1".to_string()),
        ("u2".to_string(), "抱歉，处理出错了: down".to_string(), "".to_string()),
    ]);
}

#[test]
fn memory_entries_have_v4_uuid_ids() {
    for e in [user_entry_now("s", "m"), assistant_entry_now("s", &LlmResponse { content: "c".into(), usage: TokenUsage { input_tokens: 1, output_tokens: 2 } })] {
        let id: Vec<char> = e.id.chars().collect();
        assert_eq!(id.len(), 36);
        for (i, c) in id.iter().enumerate() {
            if [8, 13, 18, 23].contains(&i) {
                assert_eq!(*c, '-');
            } else {
                assert!(c.is_ascii_hexdigit() && !c.is_ascii_uppercase());
            }
        }
        assert_eq!(id[14], '4');
        assert!("89ab".contains(id[19]));
    }
}
