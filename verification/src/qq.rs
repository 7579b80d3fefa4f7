//! The decisions of the QQ gateway: which events reach the agent, and how a reply is sent.
use vstd::prelude::*;
use crate::message::{opt_view, string_or, view_or, IncomingMessage, MessageContext, OutgoingMessage};
use crate::deps::utc_now_timestamp;
use crate::text::str_eq;

verus! {

/// The credentials of a QQ bot.
#[derive(Debug, Clone, PartialEq, Eq)]
pub struct QQChannelConfig {
    pub app_id: String,
    pub secret: String,
}

/// The author of a QQ message: the id by which to answer, and a name where the platform gives one.
#[derive(Debug, Clone, PartialEq, Eq)]
pub struct QqAuthor {
    pub id: Option<String>,
    pub username: Option<String>,
}

/// What the gateway reads of a QQ message event.
#[derive(Debug, Clone, PartialEq, Eq)]
pub struct QqMessageInfo {
    /// Whether a bot sent the message.
    pub from_bot: bool,
    pub id: Option<String>,
    pub content: Option<String>,
    pub author: Option<QqAuthor>,
    /// The channel of a guild message, the group of a group message, the guild of a direct one.
    pub place: Option<String>,
}

/// The kinds of QQ messages, each answered through its own API.
#[derive(Debug, Clone, Copy, PartialEq, Eq, Structural)]
pub enum QqKind {
    Guild,
    Group,
    C2c,
    Dm,
}

/// The name of a kind in a message's context.
pub open spec fn kind_name(k: QqKind) -> Seq<char> {
    match k {
        QqKind::Guild => "guild"@,
        QqKind::Group => "group"@,
        QqKind::C2c => "c2c"@,
        QqKind::Dm => "dm"@,
    }
}

/// The sender of a message of kind `k` with author `a`.
pub open spec fn sender_of(k: QqKind, a: QqAuthor) -> Seq<char> {
    match k {
        QqKind::Dm => "dm"@,
        _ => view_or(a.id, ""@),
    }
}

/// Whether a message event of kind `k` reaches the agent: a guild message that no bot sent,
/// with an author and text, or a group or one-to-one message with an author and text, or a
/// direct message with text.
pub open spec fn qq_accepts(k: QqKind, m: QqMessageInfo) -> bool {
    &&& !(k == QqKind::Guild && m.from_bot)
    &&& m.content matches Some(c) && c@.len() > 0
    &&& (k == QqKind::Dm || m.author is Some)
}

/// Whether `r` is the message that the gateway passes on for the event `m` of kind `k`, at `ts`.
pub open spec fn is_qq_incoming(r: IncomingMessage, k: QqKind, m: QqMessageInfo, ts: i64) -> bool {
    let a = match m.author {
        Some(a) => a,
        None => QqAuthor { id: None, username: None },
    };
    &&& r.session_id@ == sender_of(k, a)
    &&& r.sender_id@ == sender_of(k, a)
    &&& r.sender_name@ == (if k == QqKind::Guild {
        view_or(a.username, ""@)
    } else {
        ""@
    })
    &&& r.content@ == view_or(m.content, ""@)
    &&& r.platform@ == "qq"@
    &&& r.timestamp == ts
    &&& r.context.context_token is None
    &&& opt_view(r.context.msg_type) == Some(kind_name(k))
    &&& opt_view(r.context.msg_id) == opt_view(m.id)
    &&& opt_view(r.context.channel_id) == (if k == QqKind::Guild {
        Some(view_or(m.place, ""@))
    } else {
        None
    })
    &&& opt_view(r.context.group_openid) == (if k == QqKind::Group {
        Some(view_or(m.place, ""@))
    } else {
        None
    })
    &&& opt_view(r.context.guild_id) == (if k == QqKind::Dm {
        Some(view_or(m.place, ""@))
    } else {
        None
    })
}

/// Whether `r` names as its sender, and as the session to answer, the author of an event of
/// kind `k`: the author's own id (empty text where the author has none) for guild, group and
/// one-to-one messages, and `dm` for direct ones.
pub open spec fn sent_by_author(r: IncomingMessage, k: QqKind, m: QqMessageInfo) -> bool {
    if k == QqKind::Dm {
        r.sender_id@ == "dm"@ && r.session_id@ == "dm"@
    } else {
        m.author matches Some(a) && {
            &&& a.id matches Some(id) ==> r.sender_id@ == id@ && r.session_id@ == id@
            &&& a.id is None ==> r.sender_id@.len() == 0 && r.session_id@.len() == 0
        }
    }
}

/// A message passed on from a guild, group or one-to-one event is sent by, and answered to, the
/// member or user who wrote it; only direct messages share the sender `dm`.
pub proof fn lemma_qq_sender_is_author(r: IncomingMessage, k: QqKind, m: QqMessageInfo, ts: i64)
    requires
        qq_accepts(k, m),
        is_qq_incoming(r, k, m, ts),
    ensures
        sent_by_author(r, k, m),
{
    reveal_strlit("");
}

/// Two members who write in the same group (or channel, or one-to-one chat) are told apart:
/// events passed on from authors with different ids have different senders.
pub proof fn lemma_qq_authors_told_apart(
    r1: IncomingMessage,
    r2: IncomingMessage,
    k: QqKind,
    m1: QqMessageInfo,
    m2: QqMessageInfo,
    ts1: i64,
    ts2: i64,
)
    requires
        k != QqKind::Dm,
        qq_accepts(k, m1),
        qq_accepts(k, m2),
        is_qq_incoming(r1, k, m1, ts1),
        is_qq_incoming(r2, k, m2, ts2),
        m1.author matches Some(a1) && a1.id is Some,
        m2.author matches Some(a2) && a2.id is Some,
        opt_view(m1.author->0.id) != opt_view(m2.author->0.id),
    ensures
        r1.sender_id@ != r2.sender_id@,
        r1.session_id@ != r2.session_id@,
{
    lemma_qq_sender_is_author(r1, k, m1, ts1);
    lemma_qq_sender_is_author(r2, k, m2, ts2);
}

/// The name of a kind, as the context records it.
pub fn kind_text(k: QqKind) -> (r: String)
    ensures
        r@ == kind_name(k),
{
    match k {
        QqKind::Guild => "guild".to_string(),
        QqKind::Group => "group".to_string(),
        QqKind::C2c => "c2c".to_string(),
        QqKind::Dm => "dm".to_string(),
    }
}

/// The message that the gateway passes on for the event `m` of kind `k`, received at
/// `timestamp`, or `None` for an event that it drops.
pub fn qq_incoming(k: QqKind, m: &QqMessageInfo, timestamp: i64) -> (r: Option<IncomingMessage>)
    ensures
        r is Some <==> qq_accepts(k, *m),
        r matches Some(x) ==> is_qq_incoming(x, k, *m, timestamp),
        r matches Some(x) ==> sent_by_author(x, k, *m),
{
    if k == QqKind::Guild && m.from_bot {
        return None;
    }
    let content = match &m.content {
        Some(c) => c,
        None => return None,
    };
    if content.as_str().unicode_len() == 0 {
        return None;
    }
    let (sender, name) = match &m.author {
        Some(a) => {
            let sender = if k == QqKind::Dm {
                "dm".to_string()
            } else {
                string_or(&a.id, "")
            };
            let name = if k == QqKind::Guild {
                string_or(&a.username, "")
            } else {
                "".to_string()
            };
            (sender, name)
        },
        None => {
            if k != QqKind::Dm {
                return None;
            }
            ("dm".to_string(), "".to_string())
        },
    };
    let mut context = MessageContext::empty();
    context.msg_type = Some(kind_text(k));
    context.msg_id = m.id.clone();
    let place = string_or(&m.place, "");
    match k {
        QqKind::Guild => {
            context.channel_id = Some(place);
        },
        QqKind::Group => {
            context.group_openid = Some(place);
        },
        QqKind::Dm => {
            context.guild_id = Some(place);
        },
        QqKind::C2c => {},
    }
    let r = IncomingMessage {
        session_id: sender.clone(),
        sender_id: sender,
        sender_name: name,
        content: content.clone(),
        platform: "qq".to_string(),
        timestamp,
        context,
    };
    proof {
        lemma_qq_sender_is_author(r, k, *m, timestamp);
    }
    Some(r)
}

/// The message that the gateway passes on for the event `m` of kind `k`, stamped with the time
/// now, or `None` for an event that it drops.
pub fn qq_incoming_now(k: QqKind, m: &QqMessageInfo) -> (r: Option<IncomingMessage>)
    ensures
        r is Some <==> qq_accepts(k, *m),
        r matches Some(x) ==> is_qq_incoming(x, k, *m, x.timestamp),
        r matches Some(x) ==> sent_by_author(x, k, *m),
{
    qq_incoming(k, m, utc_now_timestamp())
}

/// The kind named `msg_type`, or `None` for a name that no kind has.
pub open spec fn kind_named(msg_type: Seq<char>) -> Option<QqKind> {
    if msg_type == "guild"@ {
        Some(QqKind::Guild)
    } else if msg_type == "group"@ {
        Some(QqKind::Group)
    } else if msg_type == "c2c"@ {
        Some(QqKind::C2c)
    } else if msg_type == "dm"@ {
        Some(QqKind::Dm)
    } else {
        None
    }
}

/// The API through which to answer a message of type `msg_type`; `None` for an unknown type,
/// which is not answered.
pub fn reply_kind(msg_type: &str) -> (r: Option<QqKind>)
    ensures
        r == kind_named(msg_type@),
{
    if str_eq(msg_type, "guild") {
        Some(QqKind::Guild)
    } else if str_eq(msg_type, "group") {
        Some(QqKind::Group)
    } else if str_eq(msg_type, "c2c") {
        Some(QqKind::C2c)
    } else if str_eq(msg_type, "dm") {
        Some(QqKind::Dm)
    } else {
        None
    }
}

/// Naming a kind and reading the name back gives the kind.
pub proof fn lemma_kind_name_roundtrip(k: QqKind)
    ensures
        kind_named(kind_name(k)) == Some(k),
{
    reveal_strlit("guild");
    reveal_strlit("group");
    reveal_strlit("c2c");
    reveal_strlit("dm");
    assert("guild"@[1] != "group"@[1]);
    assert("guild"@.len() != "c2c"@.len() && "group"@.len() != "c2c"@.len());
    assert("guild"@.len() != "dm"@.len() && "group"@.len() != "dm"@.len());
    assert("c2c"@.len() != "dm"@.len());
}

/// Where a reply goes: the message type and the message id of its context, or empty text where
/// the context has none.
pub fn reply_target(message: &OutgoingMessage) -> (r: (String, String))
    ensures
        r.0@ == view_or(message.context.msg_type, ""@),
        r.1@ == view_or(message.context.msg_id, ""@),
{
    (string_or(&message.context.msg_type, ""), string_or(&message.context.msg_id, ""))
}

/// A reply to a message goes back through the API of the message's kind: the context that the
/// gateway records names that kind.
pub proof fn lemma_reply_goes_back_by_kind(r: IncomingMessage, k: QqKind, m: QqMessageInfo, ts: i64)
    requires
        is_qq_incoming(r, k, m, ts),
    ensures
        kind_named(view_or(r.context.msg_type, ""@)) == Some(k),
{
    lemma_kind_name_roundtrip(k);
}

} // verus!
