//! The configuration of the agent: what it holds, where it lives, and how setup fills it.
use vstd::prelude::*;
use crate::deps::home_dir;
use crate::numeric::{decimal, parse_u16, parse_u16_str, lemma_parse_decimal_roundtrip};
use crate::qq::QQChannelConfig;
use crate::text::{
    ascii_bytes, ascii_bytes_of, concat_str, is_ws, lemma_trim_ws_blank, split_char,
    split_trim_nonempty, trim, trim_end_ws, trim_start_ws, trim_ws, trimmed_nonempty, views,
};
use crate::wechat::types::TokenSession;

verus! {

/// The directory, under the home directory, that holds the configuration.
pub const CONFIG_DIR: &'static str = ".mnemo";

/// The file, in that directory, that holds the configuration.
pub const CONFIG_FILE: &'static str = "config.json";

/// The port of PostgreSQL where setup is given none that parses.
pub const DEFAULT_PG_PORT: u16 = 5432;

/// The language model to talk to.
#[derive(Debug, Clone, PartialEq, Eq)]
pub struct ModelConfig {
    pub base_url: String,
    pub api_key: String,
    pub model_list: Vec<String>,
    pub select_model: String,
}

/// The PostgreSQL database that keeps the conversations.
#[derive(Debug, Clone, PartialEq, Eq)]
pub struct PgConfig {
    pub host: String,
    pub port: u16,
    pub user: String,
    pub password: String,
    pub database: String,
}

/// A messaging channel that setup configured.
#[derive(Debug, Clone, PartialEq, Eq)]
pub enum ChannelConfig {
    Wechat { token: TokenSession },
    QQ(QQChannelConfig),
}

/// The configuration of the agent, as `~/.mnemo/config.json` holds it.
#[derive(Debug, Clone, PartialEq, Eq)]
pub struct AppConfig {
    pub wechat_token: Option<TokenSession>,
    pub model: Option<ModelConfig>,
    pub channels: Vec<ChannelConfig>,
    pub pg: Option<PgConfig>,
}

impl Default for AppConfig {
    /// The configuration before setup: nothing configured.
    fn default() -> (r: AppConfig)
        ensures
            r.wechat_token is None,
            r.model is None,
            r.channels@.len() == 0,
            r.pg is None,
    {
        AppConfig { wechat_token: None, model: None, channels: Vec::new(), pg: None }
    }
}

/// The bytes of an optional path.
pub open spec fn opt_bytes(o: Option<Vec<u8>>) -> Option<Seq<u8>> {
    match o {
        Some(v) => Some(v@),
        None => None,
    }
}

/// `base` with `part` appended as a path component, as `PathBuf::join` does on Unix for a
/// relative `part`: a separator `/` goes between them unless `base` is empty or ends with one.
/// Paths are the bytes that the operating system gives.
pub open spec fn path_join(base: Seq<u8>, part: Seq<u8>) -> Seq<u8> {
    if base.len() == 0 || base.last() == 47u8 {
        base + part
    } else {
        base + seq![47u8] + part
    }
}

/// `base` joined with `part`.
pub fn join_path(base: &Vec<u8>, part: &Vec<u8>) -> (r: Vec<u8>)
    ensures
        r@ == path_join(base@, part@),
{
    let mut r: Vec<u8> = Vec::new();
    for i in 0..base.len()
        invariant
            r@ == base@.take(i as int),
    {
        r.push(base[i]);
        assert(base@.take(i + 1) =~= base@.take(i as int).push(base@[i as int]));
    }
    assert(base@.take(base@.len() as int) =~= base@);
    if base.len() > 0 && base[base.len() - 1] != 47u8 {
        r.push(47u8);
    }
    let ghost mid = r@;
    for i in 0..part.len()
        invariant
            r@ == mid + part@.take(i as int),
    {
        r.push(part[i]);
        assert(mid + part@.take(i + 1) =~= (mid + part@.take(i as int)).push(part@[i as int]));
    }
    assert(part@.take(part@.len() as int) =~= part@);
    r
}

/// The directory of the configuration for the home directory `home`, or the current one.
pub open spec fn config_dir_in(home: Option<Seq<u8>>) -> Seq<u8> {
    let base = match home {
        Some(h) => h,
        None => ascii_bytes("."@),
    };
    path_join(base, ascii_bytes(CONFIG_DIR@))
}

/// The file of the configuration for the home directory `home`, or the current one.
pub open spec fn config_path_in(home: Option<Seq<u8>>) -> Seq<u8> {
    path_join(config_dir_in(home), ascii_bytes(CONFIG_FILE@))
}

/// The directory of the configuration in the home directory `home`, or in the current one.
pub fn config_dir(home: Option<Vec<u8>>) -> (r: Vec<u8>)
    ensures
        r@ == config_dir_in(opt_bytes(home)),
{
    let base = match home {
        Some(h) => h,
        None => ascii_bytes_of("."),
    };
    join_path(&base, &ascii_bytes_of(CONFIG_DIR))
}

/// The file of the configuration in the home directory `home`, or in the current one.
pub fn config_path_for(home: Option<Vec<u8>>) -> (r: Vec<u8>)
    ensures
        r@ == config_path_in(opt_bytes(home)),
{
    let dir = config_dir(home);
    join_path(&dir, &ascii_bytes_of(CONFIG_FILE))
}

/// The directory of the configuration: `.mnemo` in the home directory, or in the current one.
pub fn dirs_or_default() -> (r: Vec<u8>)
    ensures
        exists|home: Option<Seq<u8>>| r@ == #[trigger] config_dir_in(home),
{
    let home = home_dir();
    let ghost h = opt_bytes(home);
    let r = config_dir(home);
    assert(r@ == config_dir_in(h));
    r
}

impl AppConfig {
    /// The file of the configuration: `.mnemo/config.json` in the home directory, or in the
    /// current one, as the bytes of a path.
    pub fn config_path() -> (r: Vec<u8>)
        ensures
            exists|home: Option<Seq<u8>>| r@ == #[trigger] config_path_in(home),
    {
        let home = home_dir();
        let ghost h = opt_bytes(home);
        let r = config_path_for(home);
        assert(r@ == config_path_in(h));
        r
    }
}

/// Whether two channels are of the same kind.
pub open spec fn same_kind(a: ChannelConfig, b: ChannelConfig) -> bool {
    (a is Wechat) == (b is Wechat)
}

/// `s` without its channels of the kind of `c`, the others in order.
pub open spec fn without_kind(s: Seq<ChannelConfig>, c: ChannelConfig) -> Seq<ChannelConfig>
    decreases s.len(),
{
    if s.len() == 0 {
        Seq::empty()
    } else {
        let r = without_kind(s.drop_last(), c);
        if same_kind(s.last(), c) {
            r
        } else {
            r.push(s.last())
        }
    }
}

/// The channels after `c` was set up: the others in order, then `c`.
pub open spec fn with_channel(s: Seq<ChannelConfig>, c: ChannelConfig) -> Seq<ChannelConfig> {
    without_kind(s, c).push(c)
}

fn is_same_kind(a: &ChannelConfig, b: &ChannelConfig) -> (r: bool)
    ensures
        r == same_kind(*a, *b),
{
    let aw = match a {
        ChannelConfig::Wechat { .. } => true,
        ChannelConfig::QQ(_) => false,
    };
    let bw = match b {
        ChannelConfig::Wechat { .. } => true,
        ChannelConfig::QQ(_) => false,
    };
    aw == bw
}

/// Sets up the channel `c`: removes the channels of its kind, if any, and adds it at the end.
pub fn set_channel(channels: &mut Vec<ChannelConfig>, c: ChannelConfig)
    ensures
        final(channels)@ == with_channel(old(channels)@, c),
{
    let ghost orig = channels@;
    let ghost mut k: int = 0;
    let mut i: usize = 0;
    assert(orig.take(0) =~= Seq::<ChannelConfig>::empty());
    assert(orig.skip(0) =~= orig);
    while i < channels.len()
        invariant
            0 <= k <= orig.len(),
            i <= channels@.len(),
            channels@.len() - i == orig.len() - k,
            orig == old(channels)@,
            channels@.take(i as int) == without_kind(orig.take(k), c),
            channels@.skip(i as int) == orig.skip(k),
        decreases channels@.len() - i,
    {
        assert(orig.skip(k)[0] == orig[k]);
        assert(orig.take(k + 1).drop_last() =~= orig.take(k));
        assert(orig.take(k + 1).last() == orig[k]);
        if is_same_kind(&channels[i], &c) {
            let ghost before = channels@;
            channels.remove(i);
            assert(channels@.take(i as int) =~= before.take(i as int));
            assert(channels@.skip(i as int) =~= before.skip(i + 1));
            assert(before.skip(i + 1) =~= before.skip(i as int).drop_first());
            assert(orig.skip(k + 1) =~= orig.skip(k).drop_first());
        } else {
            assert(channels@.take(i + 1) =~= channels@.take(i as int).push(channels@[i as int]));
            assert(channels@.skip(i + 1) =~= channels@.skip(i as int).drop_first());
            assert(orig.skip(k + 1) =~= orig.skip(k).drop_first());
            i = i + 1;
        }
        proof {
            k = k + 1;
        }
    }
    assert(channels@.skip(i as int).len() == 0);
    assert(k == orig.len());
    assert(orig.take(k) =~= orig);
    assert(channels@.take(i as int) =~= channels@);
    channels.push(c);
}

/// No channel that is left has the kind of `c`, and all of them come from `s`.
pub proof fn lemma_without_kind(s: Seq<ChannelConfig>, c: ChannelConfig)
    ensures
        forall|i: int| 0 <= i < without_kind(s, c).len() ==> !same_kind(#[trigger] without_kind(s, c)[i], c),
        without_kind(s, c).len() <= s.len(),
    decreases s.len(),
{
    if s.len() > 0 {
        lemma_without_kind(s.drop_last(), c);
    }
}

/// Removing a kind leaves alone a sequence that has no channel of that kind.
pub proof fn lemma_without_kind_absent(s: Seq<ChannelConfig>, c: ChannelConfig)
    requires
        forall|i: int| 0 <= i < s.len() ==> !same_kind(#[trigger] s[i], c),
    ensures
        without_kind(s, c) == s,
    decreases s.len(),
{
    if s.len() > 0 {
        lemma_without_kind_absent(s.drop_last(), c);
        assert(s.drop_last().push(s.last()) =~= s);
    }
}

/// Removing a kind gives the same result for channels of the same kind.
pub proof fn lemma_without_same_kind(s: Seq<ChannelConfig>, c1: ChannelConfig, c2: ChannelConfig)
    requires
        same_kind(c1, c2),
    ensures
        without_kind(s, c1) == without_kind(s, c2),
    decreases s.len(),
{
    if s.len() > 0 {
        lemma_without_same_kind(s.drop_last(), c1, c2);
    }
}

/// After a channel is set up it is the last one, and the only one of its kind.
pub proof fn lemma_set_channel_unique(s: Seq<ChannelConfig>, c: ChannelConfig)
    ensures
        with_channel(s, c).last() == c,
        forall|i: int|
            0 <= i < with_channel(s, c).len() - 1 ==> !same_kind(#[trigger] with_channel(s, c)[i], c),
{
    lemma_without_kind(s, c);
}

/// Setting up a channel again replaces the one of its kind that was set up before: setting up
/// `c1` then `c2` of the same kind leaves what setting up `c2` alone leaves.
pub proof fn lemma_set_channel_replaces(s: Seq<ChannelConfig>, c1: ChannelConfig, c2: ChannelConfig)
    requires
        same_kind(c1, c2),
    ensures
        with_channel(with_channel(s, c1), c2) == with_channel(s, c2),
{
    lemma_without_kind(s, c1);
    let w = without_kind(s, c1);
    assert(with_channel(s, c1).drop_last() =~= w);
    lemma_without_kind_absent(w, c1);
    lemma_without_same_kind(w, c1, c2);
    lemma_without_same_kind(s, c1, c2);
}

/// Setting up a channel leaves the channels of the other kind as they were, in order.
pub proof fn lemma_set_channel_keeps_other(s: Seq<ChannelConfig>, c: ChannelConfig)
    ensures
        without_kind(with_channel(s, c), c) == without_kind(s, c),
{
    lemma_without_kind(s, c);
    assert(with_channel(s, c).drop_last() =~= without_kind(s, c));
    lemma_without_kind_absent(without_kind(s, c), c);
}

/// The models of a comma-separated list: each trimmed, the empty ones left out.
pub open spec fn model_list_of(s: Seq<char>) -> Seq<Seq<char>> {
    trimmed_nonempty(split_char(s, ','))
}

/// The models of the comma-separated list `s`.
pub fn parse_model_list(s: &str) -> (r: Vec<String>)
    ensures
        views(r@) == model_list_of(s@),
{
    split_trim_nonempty(s, ',')
}

/// Every model of a list is non-empty and has no white space around it.
pub proof fn lemma_model_list_entries_clean(s: Seq<char>)
    ensures
        forall|i: int|
            0 <= i < model_list_of(s).len() ==> (#[trigger] model_list_of(s)[i]).len() > 0 && trim_ws(
                model_list_of(s)[i],
            ) == model_list_of(s)[i],
{
    crate::text::lemma_trimmed_nonempty_entries(split_char(s, ','));
}

/// The model that setup proposes for a list: its first, or none.
pub fn default_select_model(model_list: &Vec<String>) -> (r: String)
    ensures
        model_list@.len() > 0 ==> r@ == model_list@[0]@,
        model_list@.len() == 0 ==> r@ == ""@,
{
    if model_list.len() > 0 {
        model_list[0].clone()
    } else {
        "".to_string()
    }
}

/// What a prompt offers: the current value where there is one, else the default.
pub fn prompt_hint(current: Option<&str>, default: &str) -> (r: String)
    ensures
        r@ == (match current {
            Some(c) => c@,
            None => default@,
        }),
{
    match current {
        Some(c) => c.to_string(),
        None => default.to_string(),
    }
}

/// The text of a prompt for `label` that offers `hint`.
pub open spec fn prompt_label_text(label: Seq<char>, hint: Seq<char>) -> Seq<char> {
    if hint.len() == 0 {
        label + ": "@
    } else {
        label + " ["@ + hint + "]: "@
    }
}

/// The text of a prompt for `label` that offers `hint`.
pub fn prompt_label(label: &str, hint: &str) -> (r: String)
    ensures
        r@ == prompt_label_text(label@, hint@),
{
    if hint.unicode_len() == 0 {
        concat_str(label, ": ")
    } else {
        let mut s = label.to_string();
        s.append(" [");
        s.append(hint);
        s.append("]: ");
        s
    }
}

/// The answer to a prompt that offered `hint`, given the line typed: the line trimmed, or the
/// hint where the line is blank.
pub open spec fn prompt_answer_text(input: Seq<char>, hint: Seq<char>) -> Seq<char> {
    if trim_ws(input).len() == 0 {
        hint
    } else {
        trim_ws(input)
    }
}

/// What is typed is the answer: where the line holds anything other than white space, the
/// answer is the line trimmed, which is not blank; the hint comes back only for a blank line.
pub proof fn lemma_prompt_answer_typed(input: Seq<char>, hint: Seq<char>)
    ensures
        (exists|i: int| 0 <= i < input.len() && !is_ws(#[trigger] input[i])) ==> prompt_answer_text(
            input,
            hint,
        ) == trim_ws(input) && trim_ws(input).len() > 0,
        (forall|i: int| 0 <= i < input.len() ==> is_ws(#[trigger] input[i])) ==> prompt_answer_text(
            input,
            hint,
        ) == hint,
{
    lemma_trim_ws_blank(input);
}

/// A one-character answer is kept: the line `c` and a newline answers `c`, for every character
/// `c` that is not white space.
pub proof fn lemma_prompt_answer_one_char(c: char, hint: Seq<char>)
    requires
        !is_ws(c),
    ensures
        prompt_answer_text(seq![c, '\n'], hint) == seq![c],
{
    let line = seq![c, '\n'];
    assert(trim_start_ws(line) == line);
    assert(line.drop_last() =~= seq![c]);
    assert(trim_end_ws(seq![c]) == seq![c]);
    assert(trim_ws(line) == seq![c]);
}

/// The answer to a prompt that offered `hint`, given the line typed.
pub fn prompt_answer(input: &str, hint: &str) -> (r: String)
    ensures
        r@ == prompt_answer_text(input@, hint@),
        trim_ws(input@).len() > 0 ==> r@ == trim_ws(input@),
        trim_ws(input@).len() == 0 ==> r@ == hint@,
{
    let t = trim(input);
    if t.as_str().unicode_len() == 0 {
        hint.to_string()
    } else {
        t
    }
}

/// The port that setup takes from `s`: its value where it parses as a port, else 5432.
pub open spec fn port_of(s: Seq<char>) -> u16 {
    match parse_u16(s) {
        Some(p) => p,
        None => DEFAULT_PG_PORT,
    }
}

/// The port that setup takes from `s`.
pub fn parse_port(s: &str) -> (r: u16)
    ensures
        r == port_of(s@),
{
    match parse_u16_str(s) {
        Some(p) => p,
        None => DEFAULT_PG_PORT,
    }
}

/// Setup offers the current port as its decimal text; accepting it keeps the port.
pub proof fn lemma_port_hint_roundtrip(p: u16)
    ensures
        port_of(decimal(p as nat)) == p,
{
    lemma_parse_decimal_roundtrip(p);
}

/// The database that setup configures from its answers: none where no password was given.
pub fn pg_config_from(
    host: String,
    port: &str,
    user: String,
    password: String,
    database: String,
) -> (r: Option<PgConfig>)
    ensures
        password@.len() == 0 ==> r is None,
        password@.len() > 0 ==> (r matches Some(c) && c.host == host && c.port == port_of(port@)
            && c.user == user && c.password == password && c.database == database),
{
    if password.as_str().unicode_len() == 0 {
        None
    } else {
        Some(PgConfig { host, port: parse_port(port), user, password, database })
    }
}

} // verus!
