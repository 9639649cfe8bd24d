use wednesday::queries::{
    ActiveChats, ActiveCryptoChats, ActiveT, Exists, Mapping, Statistics, UpdateKind,
    UpdateMapping, UpdateStatistics,
};

#[test]
fn identifier_names() {
    assert_eq!(Exists.unquoted(), "EXISTS");
    assert_eq!(UpdateMapping.unquoted(), "update_mapping");
    assert_eq!(UpdateStatistics.unquoted(), "update_statistics");
    assert_eq!(ActiveChats::Table.unquoted(), "active_chats");
    assert_eq!(ActiveChats::ChatId.unquoted(), "chat_id");
    assert_eq!(ActiveCryptoChats::Table.unquoted(), "active_crypto_chats");
    assert_eq!(Mapping::Username.unquoted(), "username");
    assert_eq!(Statistics::Kind.unquoted(), "kind");
}

#[test]
fn active_trait_picks_table_and_field() {
    assert_eq!(<ActiveChats as ActiveT>::table(), ActiveChats::Table);
    assert_eq!(<ActiveChats as ActiveT>::field(), ActiveChats::ChatId);
    assert_eq!(
        <ActiveCryptoChats as ActiveT>::table(),
        ActiveCryptoChats::Table
    );
}

#[test]
fn subscription_queries() {
    assert_eq!(
        ActiveChats::build_is_active_chat_query(5),
        "SELECT EXISTS(SELECT 1 FROM \"active_chats\" WHERE \"chat_id\" = 5) LIMIT 1"
    );
    assert_eq!(
        ActiveChats::build_add_chat_query(5),
        "INSERT INTO \"active_chats\" (\"chat_id\") VALUES (5)"
    );
    assert_eq!(
        ActiveChats::build_remove_active_chat_query(-100500),
        "DELETE FROM \"active_chats\" WHERE \"chat_id\" = -100500"
    );
    assert_eq!(
        ActiveChats::build_get_active_chats(),
        "SELECT \"chat_id\" FROM \"active_chats\""
    );
    assert_eq!(
        ActiveCryptoChats::build_add_chat_query(7),
        "INSERT INTO \"active_crypto_chats\" (\"chat_id\") VALUES (7)"
    );
}

#[test]
fn create_table_queries() {
    assert_eq!(
        ActiveChats::build_create_table_query(),
        "CREATE TABLE IF NOT EXISTS \"active_chats\" (\"chat_id\" bigint UNIQUE PRIMARY KEY NOT NULL)"
    );
    assert!(Mapping::build_create_table_query().starts_with("CREATE TABLE IF NOT EXISTS \"mapping\""));
    assert!(Statistics::build_create_table_query().starts_with("CREATE TABLE IF NOT EXISTS \"statistics\""));
}

#[test]
fn mapping_set_query_quotes_values() {
    assert_eq!(
        Mapping::build_set_query(42, "alice"),
        "SELECT update_mapping(42, 'alice')"
    );
    assert_eq!(
        Mapping::build_set_query(7, "O'Brien"),
        "SELECT update_mapping(7, 'O''Brien')"
    );
}

#[test]
fn update_kind_codes_roundtrip() {
    assert_eq!(UpdateKind::TextMessage.code(), 0);
    assert_eq!(UpdateKind::Sticker.code(), 1);
    assert_eq!(UpdateKind::ForwardedMeme.code(), 2);
    assert_eq!(UpdateKind::try_from_code(0), Some(UpdateKind::TextMessage));
    assert_eq!(UpdateKind::try_from_code(1), Some(UpdateKind::Sticker));
    assert_eq!(UpdateKind::try_from_code(2), Some(UpdateKind::ForwardedMeme));
    assert_eq!(UpdateKind::try_from_code(3), None);
    assert_eq!(UpdateKind::try_from_code(-1), None);
}
