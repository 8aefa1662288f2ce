//! The bot's configuration: its token and the chats that may command it.
use vstd::prelude::*;
use crate::text::{
    decimal, is_digit, lacks, lemma_decimal_digits, lemma_split_append, lemma_split_single,
    lemma_trim_unchanged, parse_i64, parse_i64_str, split, split_str, trim, trim_str,
    unsigned_body, views,
};

verus! {

/// What the program needs to run the bot.
pub struct Config {
    /// The Telegram bot token.
    pub bot_token: String,
    /// The chats whose commands the bot carries out.
    pub allowed_chat_ids: Vec<i64>,
}

/// Why a configuration was refused.
#[derive(Debug, Clone, Copy, PartialEq, Eq)]
pub enum ConfigError {
    /// `TELEGRAM_BOT_TOKEN` is not set.
    MissingToken,
    /// `ALLOWED_CHAT_IDS` is not set.
    MissingChatIds,
    /// `ALLOWED_CHAT_IDS` holds something that is not an `i64`.
    InvalidChatIds,
}

impl ConfigError {
    /// The text shown to the user for this error.
    pub open spec fn spec_message(self) -> Seq<char> {
        match self {
            ConfigError::MissingToken => "Переменная TELEGRAM_BOT_TOKEN не задана в .env"@,
            ConfigError::MissingChatIds => "Переменная ALLOWED_CHAT_IDS не задана в .env"@,
            ConfigError::InvalidChatIds =>
                "Неверный формат ALLOWED_CHAT_IDS (ожидаются числа через запятую)"@,
        }
    }

    /// The text shown to the user for this error.
    pub fn message(&self) -> (s: String)
        ensures
            s@ == self.spec_message(),
    {
        match self {
            ConfigError::MissingToken => "Переменная TELEGRAM_BOT_TOKEN не задана в .env".to_owned(),
            ConfigError::MissingChatIds => "Переменная ALLOWED_CHAT_IDS не задана в .env".to_owned(),
            ConfigError::InvalidChatIds =>
                "Неверный формат ALLOWED_CHAT_IDS (ожидаются числа через запятую)".to_owned(),
        }
    }
}

/// The chat ids of the comma-separated pieces: a piece that is blank
/// once trimmed is skipped, every other one must be an `i64`.
pub open spec fn parse_id_pieces(pieces: Seq<Seq<char>>) -> Option<Seq<i64>>
    decreases pieces.len(),
{
    if pieces.len() == 0 {
        Some(Seq::empty())
    } else {
        match parse_id_pieces(pieces.drop_last()) {
            None => None,
            Some(ids) => {
                let t = trim(pieces.last());
                if t.len() == 0 {
                    Some(ids)
                } else {
                    match parse_i64(t) {
                        Some(id) => Some(ids.push(id)),
                        None => None,
                    }
                }
            },
        }
    }
}

/// The chat ids that the value of `ALLOWED_CHAT_IDS` lists, if it is well formed.
pub open spec fn parse_chat_ids(s: Seq<char>) -> Option<Seq<i64>> {
    parse_id_pieces(split(s, ','))
}

/// Reads the value of `ALLOWED_CHAT_IDS`: numbers separated by commas,
/// with blank entries skipped.
pub fn parse_allowed_chat_ids(s: &str) -> (r: Result<Vec<i64>, ConfigError>)
    ensures
        match parse_chat_ids(s@) {
            Some(ids) => r matches Ok(v) && v@ == ids,
            None => r == Err::<Vec<i64>, ConfigError>(ConfigError::InvalidChatIds),
        },
{
    let pieces = split_str(s, ',');
    let ghost ps = views(pieces@);
    let mut ids: Vec<i64> = Vec::new();
    let mut i: usize = 0;
    assert(ps.subrange(0, 0) =~= Seq::<Seq<char>>::empty());
    while i < pieces.len()
        invariant
            ps == views(pieces@),
            ps == split(s@, ','),
            i <= pieces@.len(),
            parse_id_pieces(ps.subrange(0, i as int)) == Some(ids@),
        decreases pieces.len() - i,
    {
        let ghost prev = ps.subrange(0, i as int);
        let ghost next = ps.subrange(0, i + 1);
        assert(next.drop_last() =~= prev);
        assert(next.last() == pieces@[i as int]@);
        let t = trim_str(pieces[i].as_str());
        if t.as_str().unicode_len() > 0 {
            match parse_i64_str(t.as_str()) {
                Some(id) => {
                    ids.push(id);
                },
                None => {
                    assert(parse_id_pieces(next) is None);
                    assert(ps =~= ps.subrange(0, i + 1) + ps.subrange(i + 1, ps.len() as int));
                    proof {
                        lemma_parse_id_pieces_fails_on(ps, i + 1);
                    }
                    return Err(ConfigError::InvalidChatIds);
                },
            }
        }
        i = i + 1;
    }
    assert(ps.subrange(0, i as int) =~= ps);
    Ok(ids)
}

/// Once a prefix of the pieces fails to parse, all of them fail.
proof fn lemma_parse_id_pieces_fails_on(ps: Seq<Seq<char>>, k: int)
    requires
        0 <= k <= ps.len(),
        parse_id_pieces(ps.subrange(0, k)) is None,
    ensures
        parse_id_pieces(ps) is None,
    decreases ps.len() - k,
{
    if k < ps.len() {
        assert(ps.subrange(0, k + 1).drop_last() =~= ps.subrange(0, k));
        lemma_parse_id_pieces_fails_on(ps, k + 1);
    } else {
        assert(ps.subrange(0, k) =~= ps);
    }
}

impl Config {
    /// The configuration that the values of `TELEGRAM_BOT_TOKEN` and
    /// `ALLOWED_CHAT_IDS` describe, each `None` where it is not set.
    pub fn from_vars(bot_token: Option<String>, allowed_chat_ids: Option<String>) -> (r: Result<
        Config,
        ConfigError,
    >)
        ensures
            bot_token is None ==> r == Err::<Config, ConfigError>(ConfigError::MissingToken),
            bot_token is Some && allowed_chat_ids is None ==> r == Err::<Config, ConfigError>(
                ConfigError::MissingChatIds,
            ),
            bot_token is Some && allowed_chat_ids is Some ==> match parse_chat_ids(
                allowed_chat_ids->0@,
            ) {
                Some(ids) => r matches Ok(c) && c.bot_token@ == bot_token->0@
                    && c.allowed_chat_ids@ == ids,
                None => r == Err::<Config, ConfigError>(ConfigError::InvalidChatIds),
            },
    {
        let token = match bot_token {
            Some(t) => t,
            None => return Err(ConfigError::MissingToken),
        };
        let ids_str = match allowed_chat_ids {
            Some(s) => s,
            None => return Err(ConfigError::MissingChatIds),
        };
        let ids = parse_allowed_chat_ids(ids_str.as_str())?;
        Ok(Config { bot_token: token, allowed_chat_ids: ids })
    }
}


/// `x` written in decimal, with a `-` before a negative value.
pub open spec fn id_text(x: i64) -> Seq<char> {
    if x < 0 {
        seq!['-'] + decimal((-x) as nat)
    } else {
        decimal(x as nat)
    }
}

/// The chat ids `ids` written as `ALLOWED_CHAT_IDS` lists them: in decimal,
/// separated by commas.
pub open spec fn ids_text(ids: Seq<i64>) -> Seq<char>
    decreases ids.len(),
{
    if ids.len() == 0 {
        Seq::empty()
    } else if ids.len() == 1 {
        id_text(ids[0])
    } else {
        ids_text(ids.drop_last()) + seq![','] + id_text(ids.last())
    }
}

proof fn lemma_id_text(x: i64)
    ensures
        parse_i64(id_text(x)) == Some(x),
        trim(id_text(x)) == id_text(x),
        lacks(id_text(x), ','),
        id_text(x).len() > 0,
{
    let t = id_text(x);
    if x < 0 {
        let d = decimal((-x) as nat);
        lemma_decimal_digits((-x) as nat);
        assert(unsigned_body(t, true) =~= d);
        assert(is_digit(d.last()));
        assert(t.last() == d.last());
        lemma_trim_unchanged(t);
        assert forall|i: int| 0 <= i < t.len() implies t[i] != ',' by {
            if i > 0 {
                assert(t[i] == d[i - 1]);
                assert(is_digit(d[i - 1]));
            }
        }
    } else {
        lemma_decimal_digits(x as nat);
        assert(is_digit(t[0]));
        assert(unsigned_body(t, true) =~= t);
        assert(is_digit(t.last()));
        lemma_trim_unchanged(t);
        assert forall|i: int| 0 <= i < t.len() implies t[i] != ',' by {
            assert(is_digit(t[i]));
        }
    }
}

/// Any list of chat ids, written in decimal and separated by commas, is
/// read back as the same list.
pub proof fn law_chat_ids_round_trip(ids: Seq<i64>)
    ensures
        parse_chat_ids(ids_text(ids)) == Some(ids),
    decreases ids.len(),
{
    if ids.len() == 0 {
        let e = Seq::<char>::empty();
        let ps = seq![e];
        assert(ids_text(ids) == e);
        assert(split(e, ',') == ps);
        assert(ps.drop_last() =~= Seq::<Seq<char>>::empty());
        assert(parse_id_pieces(ps.drop_last()) == Some(Seq::<i64>::empty()));
        assert(trim(e) =~= e);
        assert(ids =~= Seq::<i64>::empty());
        assert(parse_id_pieces(ps) == Some(ids));
    } else if ids.len() == 1 {
        let t = id_text(ids[0]);
        lemma_id_text(ids[0]);
        lemma_split_single(t, ',');
        let ps = seq![t];
        assert(ids_text(ids) == t);
        assert(ps.drop_last() =~= Seq::<Seq<char>>::empty());
        assert(parse_id_pieces(ps.drop_last()) == Some(Seq::<i64>::empty()));
        assert(ps.last() == t);
        assert(Seq::<i64>::empty().push(ids[0]) =~= ids);
        assert(parse_id_pieces(ps) == Some(ids));
    } else {
        let rest = ids.drop_last();
        let t = id_text(ids.last());
        law_chat_ids_round_trip(rest);
        lemma_id_text(ids.last());
        lemma_split_append(ids_text(rest), t, ',');
        assert(ids_text(ids) == ids_text(rest) + seq![','] + t);
        let ps = split(ids_text(rest), ',').push(t);
        assert(split(ids_text(ids), ',') == ps);
        assert(ps.drop_last() =~= split(ids_text(rest), ','));
        assert(parse_id_pieces(ps.drop_last()) == Some(rest));
        assert(ps.last() == t);
        assert(rest.push(ids.last()) =~= ids);
        assert(parse_id_pieces(ps) == Some(ids));
    }
}

} // verus!
