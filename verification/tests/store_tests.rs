use wednesday::queries::UpdateKind;
use wednesday::store::Database;

#[test]
fn subscribe_and_unsubscribe() {
    let mut db = Database::new();
    assert!(!db.is_active(1));
    db.add(1);
    db.add(2);
    db.add(1);
    assert!(db.is_active(1));
    assert!(db.is_active(2));
    assert_eq!(db.get_all_active_chats(), vec![1i64, 2]);
    db.remove(1);
    assert!(!db.is_active(1));
    assert_eq!(db.get_all_active_chats(), vec![2i64]);
}

#[test]
fn crypto_list_is_independent() {
    let mut db = Database::new();
    db.add(1);
    db.add_crypto(7);
    assert!(db.is_active_crypto(7));
    assert!(!db.is_active_crypto(1));
    assert!(!db.is_active(7));
    db.remove_crypto(7);
    assert!(!db.is_active_crypto(7));
    assert!(db.is_active(1));
}

#[test]
fn removing_absent_chat_is_a_noop() {
    let mut db = Database::new();
    db.add(4);
    db.remove(9);
    assert_eq!(db.get_all_active_chats(), vec![4i64]);
}

#[test]
fn mapping_upserts_names() {
    let mut db = Database::new();
    db.update_mapping(&vec![(10, "alice".to_owned()), (20, "bob".to_owned())]);
    db.update_mapping(&vec![(10, "alice2".to_owned())]);
    let mapping = db.get_mapping();
    assert_eq!(mapping.len(), 2);
    assert_eq!(mapping[0], (10, "alice2".to_owned()));
    assert_eq!(mapping[1], (20, "bob".to_owned()));
}

#[test]
fn statistics_count_per_chat_user_and_kind() {
    let mut db = Database::new();
    db.update_statistics(1, 10, UpdateKind::TextMessage);
    db.update_statistics(1, 10, UpdateKind::TextMessage);
    db.update_statistics(1, 10, UpdateKind::Sticker);
    db.update_statistics(2, 10, UpdateKind::TextMessage);
    db.update_statistics(1, 11, UpdateKind::ForwardedMeme);
    assert_eq!(
        db.get_statistics(1, 10),
        vec![(UpdateKind::TextMessage, 2i64), (UpdateKind::Sticker, 1)]
    );
    assert_eq!(db.get_statistics(2, 10), vec![(UpdateKind::TextMessage, 1i64)]);
    assert_eq!(db.get_statistics(1, 11), vec![(UpdateKind::ForwardedMeme, 1i64)]);
    assert_eq!(db.get_statistics(3, 10), Vec::new());
}
