use datacollector::certificate::{Certificate, Securite};
use datacollector::data_mongodb::{DataCollectorFilesRow, DataCollectorRow, EncryptedDocument};
use datacollector::messages::{Contenu, MessageKind, MessageValide};
use datacollector::store::Store;
use datacollector::transactions::{
    consume_transaction, transaction_create_feed, transaction_update_feed_view, ApplyError,
};
use datacollector::transactions_struct::{
    CreateFeedTransaction, CreateFeedViewTransaction, DeleteFeedTransaction,
    FeedViewGroupedDatedItem, FileItem, RestoreFeedTransaction, SaveDataItemTransaction,
    SaveDataItemTransactionV2, UpdateFeedTransaction, UpdateFeedViewTransaction,
};

const NOW: i64 = 1_700_000_000_000;

fn text(s: &str) -> String {
    String::from(s)
}

fn user(id: &str) -> Certificate {
    Certificate {
        user_id: Some(text(id)),
        private_user_account: true,
        roles: vec![],
        exchanges: vec![],
        global_owner: false,
        chaine_pem: vec![],
    }
}

fn admin(id: &str) -> Certificate {
    Certificate { global_owner: true, ..user(id) }
}

fn scraper() -> Certificate {
    Certificate {
        user_id: None,
        private_user_account: false,
        roles: vec![text("web_scraper")],
        exchanges: vec![Securite::L1Public],
        global_owner: false,
        chaine_pem: vec![],
    }
}

fn document(cle_id: &str) -> EncryptedDocument {
    EncryptedDocument { cle_id: Some(text(cle_id)), content: text("ciphertext") }
}

fn transaction(id: &str, action: &str, certificat: Certificate, contenu: Contenu) -> MessageValide {
    MessageValide {
        id: text(id),
        estampille: NOW - 1_000,
        kind: MessageKind::Transaction,
        action: text(action),
        certificat,
        contenu,
        attached_key: None,
    }
}

fn create_feed_content() -> CreateFeedTransaction {
    CreateFeedTransaction {
        feed_type: text("rss"),
        security_level: text("2.prive"),
        domain: text("News"),
        poll_rate: None,
        active: None,
        decrypt_in_database: None,
        encrypted_feed_information: document("k1"),
    }
}

fn create_feed(id: &str, certificat: Certificate) -> MessageValide {
    transaction(id, "createFeed", certificat, Contenu::CreateFeed(create_feed_content()))
}

fn delete_feed(feed_id: &str, certificat: Certificate) -> MessageValide {
    transaction(
        "d",
        "deleteFeed",
        certificat,
        Contenu::DeleteFeed(DeleteFeedTransaction { feed_id: text(feed_id), purge: None }),
    )
}

fn restore_feed(feed_id: &str, certificat: Certificate) -> MessageValide {
    transaction(
        "r",
        "restoreFeed",
        certificat,
        Contenu::RestoreFeed(RestoreFeedTransaction { feed_id: text(feed_id) }),
    )
}

fn save_item(feed_id: &str, data_id: &str) -> SaveDataItemTransaction {
    SaveDataItemTransaction {
        data_id: text(data_id),
        feed_id: text(feed_id),
        pub_date: NOW,
        encrypted_data: document("k2"),
        files: Some(vec![FileItem { fuuid: text("f1"), decryption: None }]),
    }
}

fn save_file(feed_id: &str, data_id: &str) -> SaveDataItemTransactionV2 {
    SaveDataItemTransactionV2 {
        data_id: text(data_id),
        feed_id: text(feed_id),
        save_date: NOW,
        data_fuuid: text("fd"),
        key_ids: vec![text("k3"), text("k4")],
        pub_date_start: Some(NOW - 10),
        pub_date_end: Some(NOW + 10),
        attached_fuuids: Some(vec![text("a1")]),
    }
}

#[test]
fn create_feed_twice_fails_on_uniqueness_and_changes_nothing() {
    let mut store = Store::new();
    assert_eq!(consume_transaction(&mut store, &create_feed("E", user("alice")), NOW), Ok(()));
    let once = format!("{:?}", store);
    assert_eq!(
        consume_transaction(&mut store, &create_feed("E", user("alice")), NOW + 50),
        Err(ApplyError::Duplicate)
    );
    assert_eq!(format!("{:?}", store), once);
    assert_eq!(store.feeds.len(), 1);
    assert_eq!(store.feeds[0].modified_at, NOW);
}

#[test]
fn feed_takes_the_id_and_the_date_of_its_transaction() {
    let mut store = Store::new();
    consume_transaction(&mut store, &create_feed("E", user("alice")), NOW).unwrap();
    assert_eq!(store.feeds[0].feed_id, "E");
    assert_eq!(store.feeds[0].created_at, NOW - 1_000);
    assert_eq!(store.feeds[0].modified_at, NOW);
    assert_eq!(store.feeds[0].user_id, Some(text("alice")));
    assert!(!store.feeds[0].deleted);
}

#[test]
fn feed_of_the_global_owner_is_a_system_feed() {
    let mut store = Store::new();
    consume_transaction(&mut store, &create_feed("E", admin("root")), NOW).unwrap();
    assert_eq!(store.feeds[0].user_id, None);
}

#[test]
fn create_feed_needs_a_user_id() {
    let mut store = Store::new();
    let message = create_feed("E", scraper());
    assert_eq!(
        transaction_create_feed(&mut store, &message, &create_feed_content(), NOW),
        Err(ApplyError::MissingUserId)
    );
    assert_eq!(consume_transaction(&mut store, &message, NOW), Err(ApplyError::MissingUserId));
    assert!(store.feeds.is_empty());
}

#[test]
fn delete_then_restore_leaves_no_trace_of_the_deletion() {
    let mut store = Store::new();
    consume_transaction(&mut store, &create_feed("E", user("alice")), NOW).unwrap();
    let before = store.feeds[0].clone();
    consume_transaction(&mut store, &delete_feed("E", user("alice")), NOW + 1).unwrap();
    assert!(store.feeds[0].deleted);
    assert_eq!(store.feeds[0].deleted_at, Some(NOW + 1));
    consume_transaction(&mut store, &restore_feed("E", user("alice")), NOW + 2).unwrap();
    assert!(!store.feeds[0].deleted);
    assert_eq!(store.feeds[0].deleted_at, None);
    assert_eq!(store.feeds[0], before);
}

#[test]
fn feed_of_another_user_is_out_of_reach_of_a_transaction() {
    let mut store = Store::new();
    consume_transaction(&mut store, &create_feed("E", user("bob")), NOW).unwrap();
    let before = store.feeds[0].clone();
    assert_eq!(consume_transaction(&mut store, &delete_feed("E", user("alice")), NOW), Ok(()));
    assert_eq!(store.feeds[0], before);
    let update = transaction(
        "u",
        "updateFeed",
        user("alice"),
        Contenu::UpdateFeed(UpdateFeedTransaction {
            feed_id: text("E"),
            security_level: Some(text("1.public")),
            poll_rate: Some(1),
            active: Some(true),
            decrypt_in_database: Some(true),
            encrypted_feed_information: Some(document("other")),
        }),
    );
    assert_eq!(consume_transaction(&mut store, &update, NOW + 5), Ok(()));
    assert_eq!(store.feeds[0], before);
}

#[test]
fn global_owner_reaches_the_feeds_of_the_system_only() {
    let mut store = Store::new();
    consume_transaction(&mut store, &create_feed("U", user("bob")), NOW).unwrap();
    consume_transaction(&mut store, &create_feed("S", admin("root")), NOW).unwrap();
    consume_transaction(&mut store, &delete_feed("U", admin("root")), NOW + 1).unwrap();
    consume_transaction(&mut store, &delete_feed("S", admin("root")), NOW + 1).unwrap();
    assert!(!store.feeds[0].deleted);
    assert!(store.feeds[1].deleted);
    consume_transaction(&mut store, &delete_feed("S", user("root")), NOW + 1).unwrap();
    consume_transaction(&mut store, &restore_feed("S", user("bob")), NOW + 2).unwrap();
    assert!(store.feeds[1].deleted);
    consume_transaction(&mut store, &restore_feed("S", admin("other")), NOW + 2).unwrap();
    assert!(!store.feeds[1].deleted);
}

#[test]
fn update_feed_replaces_what_it_brings() {
    let mut store = Store::new();
    consume_transaction(&mut store, &create_feed("E", user("alice")), NOW).unwrap();
    let update = transaction(
        "u",
        "updateFeed",
        user("alice"),
        Contenu::UpdateFeed(UpdateFeedTransaction {
            feed_id: text("E"),
            security_level: None,
            poll_rate: Some(60),
            active: None,
            decrypt_in_database: Some(false),
            encrypted_feed_information: Some(document("k9")),
        }),
    );
    consume_transaction(&mut store, &update, NOW + 5).unwrap();
    let feed = &store.feeds[0];
    assert_eq!(feed.security_level, "2.prive");
    assert_eq!(feed.poll_rate, Some(60));
    assert_eq!(feed.active, None);
    assert_eq!(feed.decrypt_in_database, Some(false));
    assert_eq!(feed.encrypted_feed_information, document("k9"));
    assert_eq!(feed.modified_at, NOW + 5);
    assert_eq!(feed.feed_type, "rss");
}

#[test]
fn data_item_is_saved_once_per_feed() {
    let mut store = Store::new();
    let save = |feed: &str, data: &str| {
        transaction("s", "saveDataItem", scraper(), Contenu::SaveDataItem(save_item(feed, data)))
    };
    assert_eq!(consume_transaction(&mut store, &save("F", "D"), NOW), Ok(()));
    assert_eq!(consume_transaction(&mut store, &save("F", "D"), NOW), Err(ApplyError::Duplicate));
    assert_eq!(consume_transaction(&mut store, &save("G", "D"), NOW), Ok(()));
    assert_eq!(consume_transaction(&mut store, &save("F", "E"), NOW), Ok(()));
    assert_eq!(store.data_items.len(), 3);
    let expected: DataCollectorRow = save_item("F", "D").into();
    assert_eq!(store.data_items[0], expected);
    assert!(store.is_well_formed());
}

#[test]
fn data_file_id_is_unique_across_feeds() {
    let mut store = Store::new();
    let save = |feed: &str, data: &str| {
        transaction(
            "s",
            "saveDataItemV2",
            scraper(),
            Contenu::SaveDataItemV2(save_file(feed, data)),
        )
    };
    assert_eq!(consume_transaction(&mut store, &save("F", "D"), NOW), Ok(()));
    assert_eq!(consume_transaction(&mut store, &save("G", "D"), NOW), Err(ApplyError::Duplicate));
    assert_eq!(consume_transaction(&mut store, &save("F", "E"), NOW), Ok(()));
    assert_eq!(store.data_files.len(), 2);
    let expected: DataCollectorFilesRow = save_file("F", "D").into();
    assert_eq!(store.data_files[0], expected);
    assert_eq!(store.data_files[0].key_ids, vec![text("k3"), text("k4")]);
}

#[test]
fn data_is_saved_by_scrapers_only() {
    let mut store = Store::new();
    let by = |certificat: Certificate| {
        transaction("s", "saveDataItem", certificat, Contenu::SaveDataItem(save_item("F", "D")))
    };
    assert_eq!(
        consume_transaction(&mut store, &by(user("alice")), NOW),
        Err(ApplyError::InvalidRole)
    );
    let private = Certificate { exchanges: vec![Securite::L2Prive], ..scraper() };
    assert_eq!(
        consume_transaction(&mut store, &by(private.clone()), NOW),
        Err(ApplyError::InvalidSecurity)
    );
    let v2 = transaction("s", "saveDataItemV2", private, Contenu::SaveDataItemV2(save_file("F", "D")));
    assert_eq!(consume_transaction(&mut store, &v2, NOW), Err(ApplyError::InvalidSecurity));
    assert!(store.data_items.is_empty());
    assert!(store.data_files.is_empty());
}

fn create_view(id: &str, feed_id: &str) -> MessageValide {
    transaction(
        id,
        "createFeedView",
        user("alice"),
        Contenu::CreateFeedView(CreateFeedViewTransaction {
            feed_id: text(feed_id),
            encrypted_data: document("kv"),
            name: None,
            active: false,
            decrypted: true,
            mapping_code: text("m"),
        }),
    )
}

fn update_view(feed_id: &str, feed_view_id: &str) -> UpdateFeedViewTransaction {
    UpdateFeedViewTransaction {
        feed_id: text(feed_id),
        feed_view_id: text(feed_view_id),
        encrypted_data: document("kw"),
        name: Some(text("n")),
        active: true,
        decrypted: false,
        mapping_code: text("m2"),
    }
}

#[test]
fn view_is_created_not_ready_and_not_deleted() {
    let mut store = Store::new();
    assert_eq!(consume_transaction(&mut store, &create_view("V", "F"), NOW), Ok(()));
    let view = &store.feed_views[0];
    assert_eq!(view.feed_view_id, "V");
    assert_eq!(view.feed_id, "F");
    assert!(!view.ready);
    assert!(!view.deleted);
    assert!(!view.active);
    assert!(view.decrypted);
    assert_eq!(view.data_type, None);
    assert_eq!(view.creation_date, NOW - 1_000);
    assert_eq!(view.modification_date, NOW);
    assert_eq!(
        consume_transaction(&mut store, &create_view("V", "G"), NOW),
        Err(ApplyError::Duplicate)
    );
    assert_eq!(store.feed_views.len(), 1);
}

#[test]
fn update_view_must_match_one_view() {
    let mut store = Store::new();
    consume_transaction(&mut store, &create_view("V", "F"), NOW).unwrap();
    assert_eq!(
        transaction_update_feed_view(&mut store, &update_view("F", "W"), NOW),
        Err(ApplyError::NoMatch)
    );
    assert_eq!(
        transaction_update_feed_view(&mut store, &update_view("G", "V"), NOW),
        Err(ApplyError::NoMatch)
    );
    assert_eq!(store.feed_views[0].mapping_code, "m");
    let update = transaction(
        "u",
        "updateFeedView",
        user("anyone"),
        Contenu::UpdateFeedView(update_view("F", "V")),
    );
    assert_eq!(consume_transaction(&mut store, &update, NOW + 3), Ok(()));
    let view = &store.feed_views[0];
    assert_eq!(view.encrypted_data, document("kw"));
    assert_eq!(view.name, Some(text("n")));
    assert!(view.active);
    assert!(!view.decrypted);
    assert_eq!(view.mapping_code, "m2");
    assert_eq!(view.modification_date, NOW + 3);
    assert_eq!(view.creation_date, NOW - 1_000);
}

#[test]
fn action_that_is_no_transaction_is_not_applied() {
    let mut store = Store::new();
    let message = transaction("x", "processView", user("alice"), Contenu::Empty);
    assert_eq!(consume_transaction(&mut store, &message, NOW), Err(ApplyError::UnknownAction));
}

#[test]
fn content_must_be_what_the_action_calls_for() {
    let mut store = Store::new();
    for action in [
        "createFeed",
        "updateFeed",
        "deleteFeed",
        "restoreFeed",
        "saveDataItem",
        "saveDataItemV2",
        "createFeedView",
        "updateFeedView",
    ] {
        let message = transaction("x", action, user("alice"), Contenu::Empty);
        assert_eq!(consume_transaction(&mut store, &message, NOW), Err(ApplyError::Malformed));
    }
    let crossed = transaction(
        "x",
        "deleteFeed",
        user("alice"),
        Contenu::RestoreFeed(RestoreFeedTransaction { feed_id: text("F") }),
    );
    assert_eq!(consume_transaction(&mut store, &crossed, NOW), Err(ApplyError::Malformed));
}

#[test]
fn errors_say_what_went_wrong() {
    assert_eq!(ApplyError::UnknownAction.to_text(), "Transaction of a type that is not handled");
    assert_eq!(ApplyError::Malformed.to_text(), "Transaction content does not match its action");
    assert_eq!(ApplyError::MissingUserId.to_text(), "User_id missing from certificate");
    assert_eq!(ApplyError::InvalidRole.to_text(), "Invalid role");
    assert_eq!(ApplyError::InvalidSecurity.to_text(), "Invalid security");
    assert_eq!(ApplyError::Duplicate.to_text(), "Duplicate key");
    assert_eq!(ApplyError::NoMatch.to_text(), "Update had no effect (no match)");
}

#[test]
fn item_of_a_view_becomes_its_row() {
    let item = FeedViewGroupedDatedItem {
        data_id: text("d"),
        feed_view_id: text("V"),
        feed_id: text("F"),
        pub_date: Some(NOW),
        encrypted_data: document("k"),
        group_id: Some(text("g")),
        files: Some(vec![FileItem { fuuid: text("f"), decryption: None }]),
    };
    let row = item.clone().into();
    assert_eq!(row.data_id, item.data_id);
    assert_eq!(row.feed_view_id, item.feed_view_id);
    assert_eq!(row.feed_id, item.feed_id);
    assert_eq!(row.pub_date, item.pub_date);
    assert_eq!(row.encrypted_data, item.encrypted_data);
    assert_eq!(row.group_id, item.group_id);
    assert_eq!(row.files, item.files);
}
