//! SQL text for the subscription store.
//!
//! The store's tables and helper functions are addressed through a small
//! set of identifier types, and every statement the engine may send is
//! built here as text, with a contract giving the exact characters
//! produced.  Values are embedded as decimal numerals
//! ([`crate::decimal`]); string values are quoted with doubled embedded
//! quotes.

use vstd::prelude::*;

use crate::decimal::{dec_i64, dec_u64, spec_dec_of, spec_dec_of_signed};

verus! {

/// The SQL `EXISTS` function.
pub struct Exists;

impl Exists {
    /// The identifier, unquoted.
    pub fn unquoted(&self) -> (r: String)
        ensures
            r@ == "EXISTS"@,
    {
        "EXISTS".to_owned()
    }
}

/// The stored procedure that records a user's display name.
pub struct UpdateMapping;

impl UpdateMapping {
    /// The identifier, unquoted.
    pub fn unquoted(&self) -> (r: String)
        ensures
            r@ == "update_mapping"@,
    {
        "update_mapping".to_owned()
    }
}

/// The stored procedure that bumps a usage counter.
pub struct UpdateStatistics;

impl UpdateStatistics {
    /// The identifier, unquoted.
    pub fn unquoted(&self) -> (r: String)
        ensures
            r@ == "update_statistics"@,
    {
        "update_statistics".to_owned()
    }
}

/// Identifiers of the digest-subscriber table.
#[derive(Clone, Copy, PartialEq, Eq, Structural, Debug)]
pub enum ActiveChats {
    Table,
    ChatId,
}

/// Identifiers of the rate-alert-subscriber table.
#[derive(Clone, Copy, PartialEq, Eq, Structural, Debug)]
pub enum ActiveCryptoChats {
    Table,
    ChatId,
}

/// A subscriber table: its table identifier and its id column.
pub trait ActiveT where Self: core::marker::Sized {
    fn table() -> Self;

    fn field() -> Self;
}

impl ActiveT for ActiveChats {
    fn table() -> Self {
        ActiveChats::Table
    }

    fn field() -> Self {
        ActiveChats::ChatId
    }
}

impl ActiveT for ActiveCryptoChats {
    fn table() -> Self {
        ActiveCryptoChats::Table
    }

    fn field() -> Self {
        ActiveCryptoChats::ChatId
    }
}

impl ActiveChats {
    /// The identifier, unquoted.
    pub fn unquoted(&self) -> (r: String)
        ensures
            *self is Table ==> r@ == "active_chats"@,
            *self is ChatId ==> r@ == "chat_id"@,
    {
        match self {
            ActiveChats::Table => "active_chats".to_owned(),
            ActiveChats::ChatId => "chat_id".to_owned(),
        }
    }

    /// Statement testing whether a chat is subscribed.
    pub fn build_is_active_chat_query(chat_id: i64) -> (r: String)
        ensures
            r@ == spec_is_active_query("active_chats"@, "chat_id"@, chat_id as int),
    {
        build_is_active_query("active_chats", "chat_id", chat_id)
    }

    /// Statement subscribing a chat.
    pub fn build_add_chat_query(chat_id: i64) -> (r: String)
        ensures
            r@ == spec_add_chat_query("active_chats"@, "chat_id"@, chat_id as int),
    {
        build_add_query("active_chats", "chat_id", chat_id)
    }

    /// Statement unsubscribing a chat.
    pub fn build_remove_active_chat_query(chat_id: i64) -> (r: String)
        ensures
            r@ == spec_remove_chat_query("active_chats"@, "chat_id"@, chat_id as int),
    {
        build_remove_query("active_chats", "chat_id", chat_id)
    }

    /// Statement listing every subscribed chat.
    pub fn build_get_active_chats() -> (r: String)
        ensures
            r@ == spec_get_chats_query("active_chats"@, "chat_id"@),
    {
        build_get_query("active_chats", "chat_id")
    }

    /// Statement creating the table.
    pub fn build_create_table_query() -> (r: String)
        ensures
            r@ == spec_create_chats_table("active_chats"@, "chat_id"@),
    {
        build_create_chats_table("active_chats", "chat_id")
    }
}

impl ActiveCryptoChats {
    /// The identifier, unquoted.
    pub fn unquoted(&self) -> (r: String)
        ensures
            *self is Table ==> r@ == "active_crypto_chats"@,
            *self is ChatId ==> r@ == "chat_id"@,
    {
        match self {
            ActiveCryptoChats::Table => "active_crypto_chats".to_owned(),
            ActiveCryptoChats::ChatId => "chat_id".to_owned(),
        }
    }

    /// Statement testing whether a chat is subscribed.
    pub fn build_is_active_chat_query(chat_id: i64) -> (r: String)
        ensures
            r@ == spec_is_active_query("active_crypto_chats"@, "chat_id"@, chat_id as int),
    {
        build_is_active_query("active_crypto_chats", "chat_id", chat_id)
    }

    /// Statement subscribing a chat.
    pub fn build_add_chat_query(chat_id: i64) -> (r: String)
        ensures
            r@ == spec_add_chat_query("active_crypto_chats"@, "chat_id"@, chat_id as int),
    {
        build_add_query("active_crypto_chats", "chat_id", chat_id)
    }

    /// Statement unsubscribing a chat.
    pub fn build_remove_active_chat_query(chat_id: i64) -> (r: String)
        ensures
            r@ == spec_remove_chat_query("active_crypto_chats"@, "chat_id"@, chat_id as int),
    {
        build_remove_query("active_crypto_chats", "chat_id", chat_id)
    }

    /// Statement listing every subscribed chat.
    pub fn build_get_active_chats() -> (r: String)
        ensures
            r@ == spec_get_chats_query("active_crypto_chats"@, "chat_id"@),
    {
        build_get_query("active_crypto_chats", "chat_id")
    }

    /// Statement creating the table.
    pub fn build_create_table_query() -> (r: String)
        ensures
            r@ == spec_create_chats_table("active_crypto_chats"@, "chat_id"@),
    {
        build_create_chats_table("active_crypto_chats", "chat_id")
    }
}

/// The text of the subscription test.
pub open spec fn spec_is_active_query(table: Seq<char>, field: Seq<char>, chat_id: int) -> Seq<
    char,
> {
    "SELECT EXISTS(SELECT 1 FROM \""@ + table + "\" WHERE \""@ + field + "\" = "@
        + spec_dec_of_signed(chat_id) + ") LIMIT 1"@
}

/// The text of the subscribe statement.
pub open spec fn spec_add_chat_query(table: Seq<char>, field: Seq<char>, chat_id: int) -> Seq<
    char,
> {
    "INSERT INTO \""@ + table + "\" (\""@ + field + "\") VALUES ("@ + spec_dec_of_signed(chat_id)
        + ")"@
}

/// The text of the unsubscribe statement.
pub open spec fn spec_remove_chat_query(table: Seq<char>, field: Seq<char>, chat_id: int) -> Seq<
    char,
> {
    "DELETE FROM \""@ + table + "\" WHERE \""@ + field + "\" = "@ + spec_dec_of_signed(chat_id)
}

/// The text of the listing statement.
pub open spec fn spec_get_chats_query(table: Seq<char>, field: Seq<char>) -> Seq<char> {
    "SELECT \""@ + field + "\" FROM \""@ + table + "\""@
}

/// The text of the table-creation statement.
pub open spec fn spec_create_chats_table(table: Seq<char>, field: Seq<char>) -> Seq<char> {
    "CREATE TABLE IF NOT EXISTS \""@ + table + "\" (\""@ + field
        + "\" bigint UNIQUE PRIMARY KEY NOT NULL)"@
}

fn build_is_active_query(table: &str, field: &str, chat_id: i64) -> (r: String)
    ensures
        r@ == spec_is_active_query(table@, field@, chat_id as int),
{
    let mut out = "SELECT EXISTS(SELECT 1 FROM \"".to_owned();
    out.append(table);
    out.append("\" WHERE \"");
    out.append(field);
    out.append("\" = ");
    let num = dec_i64(chat_id);
    out.append(num.as_str());
    out.append(") LIMIT 1");
    out
}

fn build_add_query(table: &str, field: &str, chat_id: i64) -> (r: String)
    ensures
        r@ == spec_add_chat_query(table@, field@, chat_id as int),
{
    let mut out = "INSERT INTO \"".to_owned();
    out.append(table);
    out.append("\" (\"");
    out.append(field);
    out.append("\") VALUES (");
    let num = dec_i64(chat_id);
    out.append(num.as_str());
    out.append(")");
    out
}

fn build_remove_query(table: &str, field: &str, chat_id: i64) -> (r: String)
    ensures
        r@ == spec_remove_chat_query(table@, field@, chat_id as int),
{
    let mut out = "DELETE FROM \"".to_owned();
    out.append(table);
    out.append("\" WHERE \"");
    out.append(field);
    out.append("\" = ");
    let num = dec_i64(chat_id);
    out.append(num.as_str());
    out
}

fn build_get_query(table: &str, field: &str) -> (r: String)
    ensures
        r@ == spec_get_chats_query(table@, field@),
{
    let mut out = "SELECT \"".to_owned();
    out.append(field);
    out.append("\" FROM \"");
    out.append(table);
    out.append("\"");
    out
}

fn build_create_chats_table(table: &str, field: &str) -> (r: String)
    ensures
        r@ == spec_create_chats_table(table@, field@),
{
    let mut out = "CREATE TABLE IF NOT EXISTS \"".to_owned();
    out.append(table);
    out.append("\" (\"");
    out.append(field);
    out.append("\" bigint UNIQUE PRIMARY KEY NOT NULL)");
    out
}

/// Identifiers of the display-name table.
#[derive(Clone, Copy, PartialEq, Eq, Structural, Debug)]
pub enum Mapping {
    Table,
    UserId,
    Username,
}

/// A string value quoted for SQL: embedded quotes doubled.
pub open spec fn spec_quoted(s: Seq<char>) -> Seq<char>
    decreases s.len(),
{
    if s.len() == 0 {
        s
    } else {
        spec_quoted(s.drop_last()) + (if s.last() == '\'' {
            seq!['\'', '\'']
        } else {
            seq![s.last()]
        })
    }
}

/// Relies on String::push: appends exactly one character.
#[verifier::external_body]
fn push_char(s: &mut String, c: char)
    ensures
        final(s)@ == old(s)@.push(c),
{
    s.push(c);
}

/// Double every quote of a string value.
fn quote_value(s: &str) -> (r: String)
    ensures
        r@ == spec_quoted(s@),
{
    let n = s.unicode_len();
    let mut out = String::new();
    let mut i: usize = 0;
    proof {
        assert(s@.take(0) =~= Seq::<char>::empty());
    }
    while i < n
        invariant
            i <= n,
            n == s@.len(),
            out@ == spec_quoted(s@.take(i as int)),
        decreases n - i,
    {
        let c = s.get_char(i);
        proof {
            assert(s@.take(i as int + 1).drop_last() =~= s@.take(i as int));
            assert(s@.take(i as int + 1).last() == s@[i as int]);
        }
        if c == '\'' {
            push_char(&mut out, '\'');
            push_char(&mut out, '\'');
            proof {
                assert(out@ =~= spec_quoted(s@.take(i as int)) + seq!['\'', '\'']);
            }
        } else {
            push_char(&mut out, c);
            proof {
                assert(out@ =~= spec_quoted(s@.take(i as int)) + seq![s@[i as int]]);
            }
        }
        i = i + 1;
    }
    proof {
        assert(s@.take(n as int) =~= s@);
    }
    out
}

/// The text of the display-name upsert call.
pub open spec fn spec_set_mapping_query(user_id: int, username: Seq<char>) -> Seq<char> {
    "SELECT update_mapping("@ + spec_dec_of(user_id) + ", '"@ + spec_quoted(username) + "')"@
}

impl Mapping {
    /// The identifier, unquoted.
    pub fn unquoted(&self) -> (r: String)
        ensures
            *self is Table ==> r@ == "mapping"@,
            *self is UserId ==> r@ == "user_id"@,
            *self is Username ==> r@ == "username"@,
    {
        match self {
            Mapping::Table => "mapping".to_owned(),
            Mapping::UserId => "user_id".to_owned(),
            Mapping::Username => "username".to_owned(),
        }
    }

    /// Statement creating the table.
    pub fn build_create_table_query() -> (r: String)
        ensures
            r@
                == "CREATE TABLE IF NOT EXISTS \"mapping\" (\"user_id\" bigint UNIQUE NOT NULL, \"username\" varchar NOT NULL)"@,
    {
        "CREATE TABLE IF NOT EXISTS \"mapping\" (\"user_id\" bigint UNIQUE NOT NULL, \"username\" varchar NOT NULL)".to_owned()
    }

    /// Statement recording one display name.
    pub fn build_set_query(user_id: u64, username: &str) -> (r: String)
        ensures
            r@ == spec_set_mapping_query(user_id as int, username@),
    {
        let mut out = "SELECT update_mapping(".to_owned();
        let num = dec_u64(user_id);
        out.append(num.as_str());
        out.append(", '");
        let quoted = quote_value(username);
        out.append(quoted.as_str());
        out.append("')");
        out
    }
}

/// Identifiers of the usage-statistics table.
#[derive(Clone, Copy, PartialEq, Eq, Structural, Debug)]
pub enum Statistics {
    Table,
    Chat,
    User,
    Count,
    Date,
    Kind,
}

impl Statistics {
    /// The identifier, unquoted.
    pub fn unquoted(&self) -> (r: String)
        ensures
            *self is Table ==> r@ == "statistics"@,
            *self is Chat ==> r@ == "chat"@,
            *self is User ==> r@ == "user"@,
            *self is Count ==> r@ == "count"@,
            *self is Date ==> r@ == "date"@,
            *self is Kind ==> r@ == "kind"@,
    {
        match self {
            Statistics::Table => "statistics".to_owned(),
            Statistics::Chat => "chat".to_owned(),
            Statistics::User => "user".to_owned(),
            Statistics::Count => "count".to_owned(),
            Statistics::Date => "date".to_owned(),
            Statistics::Kind => "kind".to_owned(),
        }
    }

    /// Statement creating the table.
    pub fn build_create_table_query() -> (r: String)
        ensures
            r@
                == "CREATE TABLE IF NOT EXISTS \"statistics\" (\"chat\" bigint NOT NULL, \"user\" bigint NOT NULL, \"count\" bigint DEFAULT 0, \"date\" date NOT NULL, \"kind\" integer NOT NULL)"@,
    {
        "CREATE TABLE IF NOT EXISTS \"statistics\" (\"chat\" bigint NOT NULL, \"user\" bigint NOT NULL, \"count\" bigint DEFAULT 0, \"date\" date NOT NULL, \"kind\" integer NOT NULL)".to_owned()
    }
}

/// What kind of chat activity a statistics row counts.
#[derive(Clone, Copy, PartialEq, Eq, Structural, Debug)]
pub enum UpdateKind {
    TextMessage,
    Sticker,
    ForwardedMeme,
}

/// The stable integer code of an activity kind.
pub open spec fn spec_kind_code(k: UpdateKind) -> int {
    match k {
        UpdateKind::TextMessage => 0,
        UpdateKind::Sticker => 1,
        UpdateKind::ForwardedMeme => 2,
    }
}

/// The kind a code in range denotes.
pub fn kind_of_code(value: i32) -> (r: UpdateKind)
    requires
        0 <= value <= 2,
    ensures
        spec_kind_code(r) == value,
{
    if value == 0 {
        UpdateKind::TextMessage
    } else if value == 1 {
        UpdateKind::Sticker
    } else {
        UpdateKind::ForwardedMeme
    }
}

impl UpdateKind {
    /// The stable integer code stored in the `kind` column.
    pub fn code(&self) -> (r: i32)
        ensures
            r == spec_kind_code(*self),
            0 <= r <= 2,
    {
        match self {
            UpdateKind::TextMessage => 0,
            UpdateKind::Sticker => 1,
            UpdateKind::ForwardedMeme => 2,
        }
    }

    /// The kind a stored code denotes, if any.
    pub fn try_from_code(value: i32) -> (r: Option<UpdateKind>)
        ensures
            value == 0 ==> r == Some(UpdateKind::TextMessage),
            value == 1 ==> r == Some(UpdateKind::Sticker),
            value == 2 ==> r == Some(UpdateKind::ForwardedMeme),
            !(0 <= value <= 2) ==> r is None,
    {
        if value == 0 {
            Some(UpdateKind::TextMessage)
        } else if value == 1 {
            Some(UpdateKind::Sticker)
        } else if value == 2 {
            Some(UpdateKind::ForwardedMeme)
        } else {
            None
        }
    }
}

} // verus!
