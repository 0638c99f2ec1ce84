use datacollector::certificate::{Certificate, Securite};
use datacollector::data_mongodb::{
    EncryptedDocument, FeedViewGroupedDatedRow, FeedViewRow, VolatileFileRow,
};
use datacollector::keymaster::EscrowOutcome;
use datacollector::messages::{
    Contenu, Failure, Handled, MapperOutcome, MessageKind, MessageValide, Outside, SideEffect,
};
use datacollector::messages_commands::{
    command_add_fuuids_volatile, command_create_feed, consume_command, save_transaction,
    CommandAddFuuidsVolatile, FuuidVolatile, InsertFeedViewGroupedDatedRequest,
    ProcessViewRequest, VOLATILE_LIFETIME,
};
use datacollector::reply::Reply;
use datacollector::store::Store;
use datacollector::transactions::ApplyError;
use datacollector::transactions_struct::{
    CreateFeedTransaction, CreateFeedViewTransaction, DeleteFeedTransaction,
    FeedViewGroupedDatedItem, FileItem, RestoreFeedTransaction, SaveDataItemTransaction,
    SaveDataItemTransactionV2, UpdateFeedTransaction, UpdateFeedViewTransaction,
};

const NOW: i64 = 1_700_000_000_000;

fn text(s: &str) -> String {
    String::from(s)
}

fn user(id: &str) -> Certificate {
    Certificate {
        user_id: Some(text(id)),
        private_user_account: true,
        roles: vec![],
        exchanges: vec![],
        global_owner: false,
        chaine_pem: vec![text("pem")],
    }
}

fn admin(id: &str) -> Certificate {
    Certificate { global_owner: true, ..user(id) }
}

fn scraper() -> Certificate {
    Certificate {
        user_id: None,
        private_user_account: false,
        roles: vec![text("web_scraper")],
        exchanges: vec![Securite::L1Public],
        global_owner: false,
        chaine_pem: vec![],
    }
}

fn mapper() -> Certificate {
    Certificate {
        user_id: None,
        private_user_account: false,
        roles: vec![text("datasource_mapper")],
        exchanges: vec![Securite::L3Protege],
        global_owner: false,
        chaine_pem: vec![],
    }
}

fn document(cle_id: &str) -> EncryptedDocument {
    EncryptedDocument { cle_id: Some(text(cle_id)), content: text("ciphertext") }
}

fn command(id: &str, action: &str, certificat: Certificate, contenu: Contenu) -> MessageValide {
    MessageValide {
        id: text(id),
        estampille: NOW - 1_000,
        kind: MessageKind::Commande,
        action: text(action),
        certificat,
        contenu,
        attached_key: None,
    }
}

fn with_key(mut message: MessageValide) -> MessageValide {
    message.attached_key = Some(text("{\"id\":\"k1\"}"));
    message
}

fn outside() -> Outside {
    Outside {
        key_escrow: EscrowOutcome::Saved,
        key_bundle: Some(text("bundle")),
        mapper: MapperOutcome::Confirmation { ok: Some(true), code: None, err: None },
    }
}

fn create_feed(level: &str) -> Contenu {
    Contenu::CreateFeed(CreateFeedTransaction {
        feed_type: text("rss"),
        security_level: text(level),
        domain: text("News"),
        poll_rate: Some(300),
        active: Some(true),
        decrypt_in_database: None,
        encrypted_feed_information: document("k1"),
    })
}

fn seed_feed(store: &mut Store, feed_id: &str, owner: Certificate, level: &str) {
    let message = with_key(command(feed_id, "createFeed", owner, create_feed(level)));
    let handled = consume_command(store, false, message, &outside(), NOW).unwrap();
    assert_eq!(handled.reply, Reply::ok());
}

fn data_item(feed_id: &str, data_id: &str, files: Option<Vec<FileItem>>) -> Contenu {
    Contenu::SaveDataItem(SaveDataItemTransaction {
        data_id: text(data_id),
        feed_id: text(feed_id),
        pub_date: NOW - 5_000,
        encrypted_data: document("k2"),
        files,
    })
}

fn data_file(feed_id: &str, data_id: &str, attached: Option<Vec<String>>) -> Contenu {
    Contenu::SaveDataItemV2(SaveDataItemTransactionV2 {
        data_id: text(data_id),
        feed_id: text(feed_id),
        save_date: NOW - 5_000,
        data_fuuid: text("fuuid-data"),
        key_ids: vec![text("k3")],
        pub_date_start: None,
        pub_date_end: None,
        attached_fuuids: attached,
    })
}

fn create_view(feed_id: &str) -> Contenu {
    Contenu::CreateFeedView(CreateFeedViewTransaction {
        feed_id: text(feed_id),
        encrypted_data: document("kv"),
        name: Some(text("view")),
        active: true,
        decrypted: false,
        mapping_code: text("code"),
    })
}

fn seed_view(store: &mut Store, feed_view_id: &str, feed_id: &str, owner: Certificate) {
    let message = with_key(command(feed_view_id, "createFeedView", owner, create_view(feed_id)));
    let handled = consume_command(store, false, message, &outside(), NOW).unwrap();
    assert_eq!(handled.reply, Reply::ok());
}

fn view_item(feed_id: &str, feed_view_id: &str, data_id: &str, cle_id: &str) -> FeedViewGroupedDatedItem {
    FeedViewGroupedDatedItem {
        data_id: text(data_id),
        feed_view_id: text(feed_view_id),
        feed_id: text(feed_id),
        pub_date: Some(NOW),
        encrypted_data: document(cle_id),
        group_id: Some(text("g")),
        files: None,
    }
}

fn insert_rows(
    feed_id: &str,
    feed_view_id: &str,
    data: Vec<FeedViewGroupedDatedItem>,
    truncate: Option<bool>,
    deduplicate: Option<bool>,
) -> MessageValide {
    command(
        "m1",
        "insertViewData",
        mapper(),
        Contenu::InsertViewData(InsertFeedViewGroupedDatedRequest {
            feed_view_id: text(feed_view_id),
            feed_id: text(feed_id),
            data,
            truncate,
            deduplicate,
        }),
    )
}

fn refused(handled: &Handled, code: i64, err: &str) {
    assert_eq!(handled.reply, Reply::error(code, err));
    assert!(handled.effects.is_empty());
}

#[test]
fn feed_create_happy_path() {
    let mut store = Store::new();
    let message = with_key(command("tx-1", "createFeed", user("alice"), create_feed("2.prive")));
    let handled = consume_command(&mut store, false, message, &outside(), NOW).unwrap();
    assert_eq!(handled.reply, Reply { ok: true, code: None, err: None, message: None });
    assert!(handled.effects.is_empty());
    assert_eq!(store.feeds.len(), 1);
    let feed = &store.feeds[0];
    assert_eq!(feed.feed_id, "tx-1");
    assert_eq!(feed.user_id, Some(text("alice")));
    assert!(!feed.deleted);
    assert_eq!(feed.deleted_at, None);
    assert_eq!(feed.feed_type, "rss");
    assert_eq!(feed.security_level, "2.prive");
    assert_eq!(feed.domain, "News");
    assert_eq!(feed.poll_rate, Some(300));
    assert_eq!(feed.encrypted_feed_information, document("k1"));
    assert_eq!(feed.created_at, NOW - 1_000);
    assert_eq!(feed.modified_at, NOW);
    assert_eq!(store.transactions.len(), 1);
    assert_eq!(store.transactions[0].id, "tx-1");
    assert!(store.is_well_formed());
}

#[test]
fn feed_created_by_the_global_owner_belongs_to_no_user() {
    let mut store = Store::new();
    seed_feed(&mut store, "tx-1", admin("root"), "1.public");
    assert_eq!(store.feeds[0].user_id, None);
}

#[test]
fn create_feed_without_user_id_is_unauthorised() {
    let mut store = Store::new();
    let message = with_key(command("tx-1", "createFeed", scraper(), create_feed("2.prive")));
    let handled = consume_command(&mut store, false, message, &outside(), NOW).unwrap();
    refused(&handled, 401, "Invalid certificate");
    assert!(store.feeds.is_empty());
}

#[test]
fn create_feed_without_key_is_refused() {
    let mut store = Store::new();
    let message = command("tx-1", "createFeed", user("alice"), create_feed("2.prive"));
    let handled = consume_command(&mut store, false, message, &outside(), NOW).unwrap();
    refused(&handled, 1, "Encryption key is missing");
    assert!(store.feeds.is_empty());
    assert!(store.transactions.is_empty());
}

#[test]
fn keymaster_timeout_on_create() {
    let mut store = Store::new();
    let message = with_key(command("tx-1", "createFeed", user("alice"), create_feed("2.prive")));
    let silent = Outside { key_escrow: EscrowOutcome::Timeout, ..outside() };
    let handled = consume_command(&mut store, false, message, &silent, NOW).unwrap();
    assert_eq!(
        handled.reply,
        Reply { ok: false, code: Some(1), err: Some(text("Timeout")), message: None }
    );
    assert!(store.feeds.is_empty());
    assert!(store.transactions.is_empty());
}

#[test]
fn key_escrow_outcomes_have_their_codes() {
    let cases = vec![
        (
            EscrowOutcome::Refused { message: Some(text("no")), err: Some(text("bad key")) },
            Reply { ok: false, code: Some(3), err: Some(text("bad key")), message: Some(text("no")) },
        ),
        (EscrowOutcome::UnexpectedReply, Reply::error(2, "Error saving key")),
        (EscrowOutcome::Transport(text("down")), Reply::error(4, "Error: down")),
        (EscrowOutcome::Unreadable(text("json")), Reply::error(1, "Error: json")),
    ];
    for (key_escrow, expected) in cases {
        let mut store = Store::new();
        let message =
            with_key(command("tx-1", "createFeed", user("alice"), create_feed("2.prive")));
        let handled = command_create_feed(
            &mut store,
            message,
            &Outside { key_escrow, ..outside() },
            NOW,
        )
        .unwrap();
        assert_eq!(handled.reply, expected);
        assert!(store.feeds.is_empty());
    }
}

#[test]
fn malformed_command_fails() {
    let mut store = Store::new();
    let message = with_key(command("tx-1", "createFeed", user("alice"), Contenu::Empty));
    assert_eq!(
        consume_command(&mut store, false, message, &outside(), NOW),
        Err(Failure::Malformed)
    );
}

#[test]
fn commands_are_turned_away_during_a_rebuild() {
    let mut store = Store::new();
    let message = with_key(command("tx-1", "createFeed", user("alice"), create_feed("2.prive")));
    let handled = consume_command(&mut store, true, message, &outside(), NOW).unwrap();
    refused(&handled, 503, "System rebuild in progress");
    assert!(store.feeds.is_empty());
}

#[test]
fn unknown_command_is_code_99() {
    let mut store = Store::new();
    let message = command("c", "purgeEverything", user("alice"), Contenu::Empty);
    let handled = consume_command(&mut store, false, message, &outside(), NOW).unwrap();
    refused(&handled, 99, "Unknown command");
}

#[test]
fn caller_that_is_not_admitted_fails() {
    let mut store = Store::new();
    let nobody = Certificate { private_user_account: false, ..user("alice") };
    let message = with_key(command("tx-1", "createFeed", nobody, create_feed("2.prive")));
    assert_eq!(
        consume_command(&mut store, false, message, &outside(), NOW),
        Err(Failure::AccessDenied)
    );
    let no_user = Certificate { user_id: None, ..user("alice") };
    let message = with_key(command("tx-1", "createFeed", no_user, create_feed("2.prive")));
    assert_eq!(
        consume_command(&mut store, false, message, &outside(), NOW),
        Err(Failure::AccessDenied)
    );
}

#[test]
fn message_that_is_no_command_fails() {
    let mut store = Store::new();
    let mut message = command("tx-1", "createFeed", user("alice"), create_feed("2.prive"));
    message.kind = MessageKind::Requete;
    assert_eq!(
        consume_command(&mut store, false, message, &outside(), NOW),
        Err(Failure::BadMessageType)
    );
}

#[test]
fn owner_updates_deletes_and_restores_a_feed() {
    let mut store = Store::new();
    seed_feed(&mut store, "F", user("alice"), "2.prive");
    let update = Contenu::UpdateFeed(UpdateFeedTransaction {
        feed_id: text("F"),
        security_level: Some(text("3.protege")),
        poll_rate: None,
        active: Some(false),
        decrypt_in_database: Some(true),
        encrypted_feed_information: None,
    });
    let handled = consume_command(
        &mut store,
        false,
        command("u1", "updateFeed", user("alice"), update),
        &outside(),
        NOW + 10,
    )
    .unwrap();
    assert_eq!(handled.reply, Reply::ok());
    assert_eq!(store.feeds[0].security_level, "3.protege");
    assert_eq!(store.feeds[0].poll_rate, None);
    assert_eq!(store.feeds[0].active, Some(false));
    assert_eq!(store.feeds[0].decrypt_in_database, Some(true));
    assert_eq!(store.feeds[0].encrypted_feed_information, document("k1"));
    assert_eq!(store.feeds[0].modified_at, NOW + 10);
    assert_eq!(store.feeds[0].created_at, NOW - 1_000);

    let delete = Contenu::DeleteFeed(DeleteFeedTransaction { feed_id: text("F"), purge: None });
    let handled = consume_command(
        &mut store,
        false,
        command("d1", "deleteFeed", user("alice"), delete),
        &outside(),
        NOW + 20,
    )
    .unwrap();
    assert_eq!(handled.reply, Reply::ok());
    assert!(store.feeds[0].deleted);
    assert_eq!(store.feeds[0].deleted_at, Some(NOW + 20));
    assert_eq!(store.feeds.len(), 1);

    let restore = Contenu::RestoreFeed(RestoreFeedTransaction { feed_id: text("F") });
    let handled = consume_command(
        &mut store,
        false,
        command("r1", "restoreFeed", user("alice"), restore),
        &outside(),
        NOW + 30,
    )
    .unwrap();
    assert_eq!(handled.reply, Reply::ok());
    assert!(!store.feeds[0].deleted);
    assert_eq!(store.feeds[0].deleted_at, None);
    assert_eq!(store.feeds[0].security_level, "3.protege");
    assert_eq!(store.transactions.len(), 4);
    assert!(store.is_well_formed());
}

#[test]
fn user_cannot_change_the_feed_of_another_user() {
    let mut store = Store::new();
    seed_feed(&mut store, "F", user("bob"), "2.prive");
    let attempts = vec![
        (
            "updateFeed",
            Contenu::UpdateFeed(UpdateFeedTransaction {
                feed_id: text("F"),
                security_level: Some(text("1.public")),
                poll_rate: None,
                active: None,
                decrypt_in_database: None,
                encrypted_feed_information: None,
            }),
        ),
        ("deleteFeed", Contenu::DeleteFeed(DeleteFeedTransaction { feed_id: text("F"), purge: None })),
        ("restoreFeed", Contenu::RestoreFeed(RestoreFeedTransaction { feed_id: text("F") })),
    ];
    for (action, contenu) in attempts {
        let handled = consume_command(
            &mut store,
            false,
            command("x", action, user("alice"), contenu),
            &outside(),
            NOW + 10,
        )
        .unwrap();
        refused(&handled, 404, "Feed not found / access refused");
    }
    assert_eq!(store.feeds[0].security_level, "2.prive");
    assert!(!store.feeds[0].deleted);
    assert_eq!(store.transactions.len(), 1);
}

#[test]
fn global_owner_cannot_change_the_feed_of_a_user() {
    let mut store = Store::new();
    seed_feed(&mut store, "F", user("bob"), "2.prive");
    let delete = Contenu::DeleteFeed(DeleteFeedTransaction { feed_id: text("F"), purge: None });
    let handled = consume_command(
        &mut store,
        false,
        command("d1", "deleteFeed", admin("root"), delete),
        &outside(),
        NOW,
    )
    .unwrap();
    refused(&handled, 404, "Feed not found / access refused");
    assert!(!store.feeds[0].deleted);
}

#[test]
fn command_on_a_feed_that_is_not_there_is_not_found() {
    let mut store = Store::new();
    let delete = Contenu::DeleteFeed(DeleteFeedTransaction { feed_id: text("F"), purge: None });
    let handled = consume_command(
        &mut store,
        false,
        command("d1", "deleteFeed", user("alice"), delete),
        &outside(),
        NOW,
    )
    .unwrap();
    refused(&handled, 404, "Feed not found / access refused");
}

#[test]
fn data_item_is_saved_and_its_files_are_claimed() {
    let mut store = Store::new();
    let files = vec![
        FileItem { fuuid: text("f1"), decryption: None },
        FileItem { fuuid: text("f2"), decryption: None },
    ];
    let message = command("s1", "saveDataItem", scraper(), data_item("F", "D", Some(files)));
    let handled = consume_command(&mut store, false, message, &outside(), NOW).unwrap();
    assert_eq!(handled.reply, Reply::ok());
    assert_eq!(
        handled.effects,
        vec![SideEffect::ClaimAndVisit { fuuids: vec![text("f1"), text("f2")] }]
    );
    assert_eq!(store.data_items.len(), 1);
    assert_eq!(store.data_items[0].data_id, "D");
    assert_eq!(store.data_items[0].feed_id, "F");
    assert_eq!(store.data_items[0].pub_date, NOW - 5_000);
    assert_eq!(store.transactions.len(), 1);
}

#[test]
fn data_item_without_files_claims_nothing() {
    let mut store = Store::new();
    let message = command("s1", "saveDataItem", scraper(), data_item("F", "D", None));
    let handled = consume_command(&mut store, false, message, &outside(), NOW).unwrap();
    assert_eq!(handled.reply, Reply::ok());
    assert!(handled.effects.is_empty());
}

#[test]
fn data_item_duplicate_rejected() {
    let mut store = Store::new();
    let first = command("s1", "saveDataItem", scraper(), data_item("F", "D", None));
    consume_command(&mut store, false, first, &outside(), NOW).unwrap();
    let files = vec![FileItem { fuuid: text("f1"), decryption: None }];
    let second = command("s2", "saveDataItem", scraper(), data_item("F", "D", Some(files)));
    let handled = consume_command(&mut store, false, second, &outside(), NOW).unwrap();
    assert_eq!(
        handled.reply,
        Reply {
            ok: false,
            code: Some(409),
            err: Some(text("Data item already exists")),
            message: None
        }
    );
    assert!(handled.effects.is_empty());
    assert_eq!(store.data_items.len(), 1);
    assert_eq!(store.transactions.len(), 1);
}

#[test]
fn same_data_id_in_another_feed_is_another_item() {
    let mut store = Store::new();
    let first = command("s1", "saveDataItem", scraper(), data_item("F", "D", None));
    consume_command(&mut store, false, first, &outside(), NOW).unwrap();
    let second = command("s2", "saveDataItem", scraper(), data_item("G", "D", None));
    let handled = consume_command(&mut store, false, second, &outside(), NOW).unwrap();
    assert_eq!(handled.reply, Reply::ok());
    assert_eq!(store.data_items.len(), 2);
}

#[test]
fn scraper_without_public_exchange_is_unauthorised() {
    let mut store = Store::new();
    let elsewhere = Certificate { exchanges: vec![Securite::L2Prive], ..scraper() };
    for (action, contenu) in vec![
        ("saveDataItem", data_item("F", "D", None)),
        ("saveDataItemV2", data_file("F", "D", None)),
        (
            "addFuuidsVolatile",
            Contenu::AddFuuidsVolatile(CommandAddFuuidsVolatile { files: vec![], expiration: None }),
        ),
    ] {
        let message = command("s1", action, elsewhere.clone(), contenu);
        let handled = consume_command(&mut store, false, message, &outside(), NOW).unwrap();
        refused(&handled, 401, "Access denied - invalid security level");
    }
    assert!(store.data_items.is_empty());
    assert!(store.data_files.is_empty());
}

#[test]
fn caller_without_scraper_role_is_unauthorised() {
    let mut store = Store::new();
    let message = command("s1", "saveDataItem", user("alice"), data_item("F", "D", None));
    let handled = consume_command(&mut store, false, message, &outside(), NOW).unwrap();
    refused(&handled, 401, "Access denied - invalid role");
}

#[test]
fn data_item_key_is_put_in_safekeeping_first() {
    let mut store = Store::new();
    let message = with_key(command("s1", "saveDataItem", scraper(), data_item("F", "D", None)));
    let silent = Outside { key_escrow: EscrowOutcome::Timeout, ..outside() };
    let handled = consume_command(&mut store, false, message, &silent, NOW).unwrap();
    refused(&handled, 1, "Timeout");
    assert!(store.data_items.is_empty());
}

#[test]
fn data_file_is_saved_claimed_and_announced() {
    let mut store = Store::new();
    let message = command(
        "s1",
        "saveDataItemV2",
        scraper(),
        data_file("F", "D", Some(vec![text("a1"), text("a2")])),
    );
    let handled = consume_command(&mut store, false, message, &outside(), NOW).unwrap();
    assert_eq!(handled.reply, Reply::ok());
    assert_eq!(
        handled.effects,
        vec![
            SideEffect::ClaimAndVisit { fuuids: vec![text("fuuid-data"), text("a1"), text("a2")] },
            SideEffect::FeedDataUpdated { feed_id: text("F") },
        ]
    );
    assert_eq!(store.data_files.len(), 1);
    assert_eq!(store.data_files[0].data_fuuid, "fuuid-data");
    assert_eq!(store.data_files[0].key_ids, vec![text("k3")]);
}

#[test]
fn data_file_without_attachments_claims_its_own_file() {
    let mut store = Store::new();
    let message = command("s1", "saveDataItemV2", scraper(), data_file("F", "D", None));
    let handled = consume_command(&mut store, false, message, &outside(), NOW).unwrap();
    assert_eq!(
        handled.effects,
        vec![
            SideEffect::ClaimAndVisit { fuuids: vec![text("fuuid-data")] },
            SideEffect::FeedDataUpdated { feed_id: text("F") },
        ]
    );
}

#[test]
fn data_file_duplicate_in_its_feed_is_a_conflict() {
    let mut store = Store::new();
    let first = command("s1", "saveDataItemV2", scraper(), data_file("F", "D", None));
    consume_command(&mut store, false, first, &outside(), NOW).unwrap();
    let second = command("s2", "saveDataItemV2", scraper(), data_file("F", "D", None));
    let handled = consume_command(&mut store, false, second, &outside(), NOW).unwrap();
    refused(&handled, 409, "Data item already exists");
    assert_eq!(store.data_files.len(), 1);
}

#[test]
fn data_file_id_taken_in_another_feed_is_not_saved() {
    let mut store = Store::new();
    let first = command("s1", "saveDataItemV2", scraper(), data_file("F", "D", None));
    consume_command(&mut store, false, first, &outside(), NOW).unwrap();
    let second = command("s2", "saveDataItemV2", scraper(), data_file("G", "D", None));
    let handled = consume_command(&mut store, false, second, &outside(), NOW).unwrap();
    refused(&handled, 409, "Data item already exists");
    assert_eq!(store.data_files.len(), 1);
    assert_eq!(store.transactions.len(), 1);
}

#[test]
fn volatile_files_expire_a_week_after_they_are_published() {
    let mut store = Store::new();
    let file = FuuidVolatile {
        correlation: text("c1"),
        fuuid: text("f1"),
        format: text("mgs4"),
        cle_id: text("k"),
        nonce: Some(text("n")),
        compression: None,
    };
    let message = command(
        "v1",
        "addFuuidsVolatile",
        scraper(),
        Contenu::AddFuuidsVolatile(CommandAddFuuidsVolatile { files: vec![file], expiration: None }),
    );
    let handled = consume_command(&mut store, false, message, &outside(), NOW).unwrap();
    assert_eq!(handled.reply, Reply::ok());
    assert_eq!(VOLATILE_LIFETIME, 7 * 24 * 3600 * 1000);
    assert_eq!(
        store.volatile_files,
        vec![VolatileFileRow {
            correlation: text("c1"),
            fuuid: text("f1"),
            format: text("mgs4"),
            cle_id: text("k"),
            nonce: Some(text("n")),
            compression: None,
            expiration: NOW + 604_800_000,
            created: NOW,
            modified: NOW,
        }]
    );
    assert!(store.transactions.is_empty());
}

#[test]
fn volatile_file_published_again_only_changes_its_date_of_modification() {
    let mut store = Store::new();
    let file = |fuuid: &str| FuuidVolatile {
        correlation: text("c1"),
        fuuid: text(fuuid),
        format: text("mgs4"),
        cle_id: text("k"),
        nonce: None,
        compression: None,
    };
    let first = command(
        "v1",
        "addFuuidsVolatile",
        scraper(),
        Contenu::AddFuuidsVolatile(CommandAddFuuidsVolatile {
            files: vec![file("f1")],
            expiration: Some(NOW + 60_000),
        }),
    );
    command_add_fuuids_volatile(&mut store, first, NOW).unwrap();
    let second = command(
        "v2",
        "addFuuidsVolatile",
        scraper(),
        Contenu::AddFuuidsVolatile(CommandAddFuuidsVolatile {
            files: vec![file("f2"), FuuidVolatile { correlation: text("c2"), ..file("f3") }],
            expiration: None,
        }),
    );
    command_add_fuuids_volatile(&mut store, second, NOW + 500).unwrap();
    assert_eq!(store.volatile_files.len(), 2);
    assert_eq!(store.volatile_files[0].fuuid, "f1");
    assert_eq!(store.volatile_files[0].expiration, NOW + 60_000);
    assert_eq!(store.volatile_files[0].created, NOW);
    assert_eq!(store.volatile_files[0].modified, NOW + 500);
    assert_eq!(store.volatile_files[1].correlation, "c2");
    assert_eq!(store.volatile_files[1].created, NOW + 500);
    assert_eq!(store.volatile_files[1].expiration, NOW + 500 + 604_800_000);
    assert!(store.is_well_formed());
}

#[test]
fn view_is_created_over_a_feed_of_the_caller() {
    let mut store = Store::new();
    seed_feed(&mut store, "F", user("alice"), "2.prive");
    seed_view(&mut store, "V", "F", user("alice"));
    assert_eq!(
        store.feed_views,
        vec![FeedViewRow {
            feed_view_id: text("V"),
            feed_id: text("F"),
            encrypted_data: document("kv"),
            name: Some(text("view")),
            active: true,
            decrypted: false,
            data_type: None,
            mapping_code: text("code"),
            creation_date: NOW - 1_000,
            modification_date: NOW,
            deleted: false,
            ready: false,
            processing_start_date: None,
        }]
    );
}

#[test]
fn view_is_not_created_over_the_feed_of_another() {
    let mut store = Store::new();
    seed_feed(&mut store, "F", user("bob"), "2.prive");
    let message = with_key(command("V", "createFeedView", user("alice"), create_view("F")));
    let handled = consume_command(&mut store, false, message, &outside(), NOW).unwrap();
    refused(&handled, 404, "Feed not found / access refused");
    let message = with_key(command("V", "createFeedView", user("alice"), create_view("nowhere")));
    let handled = consume_command(&mut store, false, message, &outside(), NOW).unwrap();
    refused(&handled, 404, "Feed not found / access refused");
    assert!(store.feed_views.is_empty());
}

#[test]
fn view_needs_its_key() {
    let mut store = Store::new();
    seed_feed(&mut store, "F", user("alice"), "2.prive");
    let message = command("V", "createFeedView", user("alice"), create_view("F"));
    let handled = consume_command(&mut store, false, message, &outside(), NOW).unwrap();
    refused(&handled, 1, "Encryption key is missing");
}

#[test]
fn view_created_twice_is_answered_with_the_error() {
    let mut store = Store::new();
    seed_feed(&mut store, "F", user("alice"), "2.prive");
    seed_view(&mut store, "V", "F", user("alice"));
    let message = with_key(command("V", "createFeedView", user("alice"), create_view("F")));
    let handled = consume_command(&mut store, false, message, &outside(), NOW).unwrap();
    refused(&handled, 409, "Duplicate key");
    assert_eq!(store.feed_views.len(), 1);
    assert_eq!(store.transactions.len(), 2);
}

fn update_view(feed_id: &str, feed_view_id: &str, name: &str) -> Contenu {
    Contenu::UpdateFeedView(UpdateFeedViewTransaction {
        feed_id: text(feed_id),
        feed_view_id: text(feed_view_id),
        encrypted_data: document("kv"),
        name: Some(text(name)),
        active: true,
        decrypted: false,
        mapping_code: text("code"),
    })
}

#[test]
fn view_update_with_unchanged_fields_only_moves_the_date() {
    let mut store = Store::new();
    seed_feed(&mut store, "F", user("alice"), "2.prive");
    seed_view(&mut store, "V", "F", user("alice"));
    let before = store.feed_views[0].clone();
    let message = command("u", "updateFeedView", user("alice"), update_view("F", "V", "view"));
    let handled = consume_command(&mut store, false, message, &outside(), NOW + 77).unwrap();
    assert_eq!(handled.reply, Reply::ok());
    assert_eq!(store.feed_views, vec![FeedViewRow { modification_date: NOW + 77, ..before }]);
}

#[test]
fn view_update_changes_the_view() {
    let mut store = Store::new();
    seed_feed(&mut store, "F", user("alice"), "2.prive");
    seed_view(&mut store, "V", "F", user("alice"));
    let message = command("u", "updateFeedView", user("alice"), update_view("F", "V", "renamed"));
    consume_command(&mut store, false, message, &outside(), NOW + 1).unwrap();
    assert_eq!(store.feed_views[0].name, Some(text("renamed")));
    assert_eq!(store.feed_views[0].creation_date, NOW - 1_000);
}

#[test]
fn view_update_that_matches_no_view_is_answered_with_the_error() {
    let mut store = Store::new();
    seed_feed(&mut store, "F", user("alice"), "2.prive");
    seed_view(&mut store, "V", "F", user("alice"));
    let message = command("u", "updateFeedView", user("alice"), update_view("F", "W", "x"));
    let handled = consume_command(&mut store, false, message, &outside(), NOW).unwrap();
    refused(&handled, 1, "Update had no effect (no match)");
    assert_eq!(store.transactions.len(), 2);
}

fn process(feed_view_id: &str, certificat: Certificate) -> MessageValide {
    command(
        "proc-1",
        "processView",
        certificat,
        Contenu::ProcessView(ProcessViewRequest { feed_view_id: text(feed_view_id) }),
    )
}

#[test]
fn process_view_dispatch() {
    let mut store = Store::new();
    seed_feed(&mut store, "F", user("U"), "2.prive");
    seed_view(&mut store, "V", "F", user("U"));
    store.feed_views[0].ready = true;
    let handled =
        consume_command(&mut store, false, process("V", user("U")), &outside(), NOW + 9).unwrap();
    assert_eq!(handled.reply, Reply { ok: true, code: None, err: None, message: None });
    assert_eq!(
        handled.effects,
        vec![SideEffect::ProcessFeedView { feed_id: text("F"), feed_view_id: text("V") }]
    );
    assert!(!store.feed_views[0].ready);
    assert_eq!(store.feed_views[0].processing_start_date, Some(NOW + 9));
    assert_eq!(store.feed_views[0].modification_date, NOW + 9);
    assert_eq!(store.transactions.len(), 2);
}

#[test]
fn process_view_relays_what_the_mapper_says() {
    let cases = vec![
        (
            MapperOutcome::Confirmation { ok: Some(false), code: Some(42), err: Some(text("busy")) },
            Reply { ok: false, code: Some(42), err: Some(text("busy")), message: None },
        ),
        (
            MapperOutcome::Confirmation { ok: None, code: None, err: None },
            Reply { ok: false, code: None, err: None, message: None },
        ),
        (MapperOutcome::Unreadable, Reply::error(500, "Error in response")),
        (MapperOutcome::NoReply, Reply::error(500, "No response when starting process")),
    ];
    for (mapper, expected) in cases {
        let mut store = Store::new();
        seed_feed(&mut store, "F", user("U"), "2.prive");
        seed_view(&mut store, "V", "F", user("U"));
        store.feed_views[0].ready = true;
        let handled = consume_command(
            &mut store,
            false,
            process("V", user("U")),
            &Outside { mapper, ..outside() },
            NOW,
        )
        .unwrap();
        assert_eq!(handled.reply, expected);
        assert!(!store.feed_views[0].ready);
        assert_eq!(handled.effects.len(), 1);
    }
}

#[test]
fn process_view_that_cannot_be_sent_changes_nothing() {
    let mut store = Store::new();
    seed_feed(&mut store, "F", user("U"), "2.prive");
    seed_view(&mut store, "V", "F", user("U"));
    store.feed_views[0].ready = true;
    let result = consume_command(
        &mut store,
        false,
        process("V", user("U")),
        &Outside { mapper: MapperOutcome::Transport, ..outside() },
        NOW,
    );
    assert_eq!(result, Err(Failure::Transport));
    assert!(store.feed_views[0].ready);
    assert_eq!(store.feed_views[0].processing_start_date, None);
}

#[test]
fn process_view_of_an_unknown_view_or_of_the_feed_of_another() {
    let mut store = Store::new();
    seed_feed(&mut store, "F", user("U"), "2.prive");
    seed_view(&mut store, "V", "F", user("U"));
    let handled =
        consume_command(&mut store, false, process("W", user("U")), &outside(), NOW).unwrap();
    refused(&handled, 404, "No such feed view");
    let handled =
        consume_command(&mut store, false, process("V", user("X")), &outside(), NOW).unwrap();
    refused(&handled, 404, "Feed not found / access refused");
    let handled =
        consume_command(&mut store, false, process("V", scraper()), &outside(), NOW).unwrap();
    refused(&handled, 401, "Invalid certificate");
    assert_eq!(store.feed_views[0].processing_start_date, None);
}

#[test]
fn mapper_writes_rows_back_to_the_grouped_collection_by_default() {
    let mut store = Store::new();
    seed_feed(&mut store, "F", user("U"), "2.prive");
    seed_view(&mut store, "V", "F", user("U"));
    let message = insert_rows(
        "F",
        "V",
        vec![view_item("F", "V", "d1", "a"), view_item("F", "V", "d2", "b")],
        None,
        None,
    );
    let handled = consume_command(&mut store, false, message, &outside(), NOW).unwrap();
    assert_eq!(handled.reply, Reply::ok());
    assert!(store.view_dated.is_empty());
    assert_eq!(store.view_grouped_dated.len(), 2);
    assert_eq!(store.view_grouped_dated[0].data_id, "d1");
    assert_eq!(store.view_grouped_dated[1].data_id, "d2");
    assert_eq!(store.view_grouped_dated[1].group_id, Some(text("g")));
    assert!(store.transactions.len() == 2);
}

#[test]
fn mapper_writes_rows_back_to_the_dated_collection_of_a_dated_view() {
    let mut store = Store::new();
    seed_feed(&mut store, "F", user("U"), "2.prive");
    seed_view(&mut store, "V", "F", user("U"));
    store.feed_views[0].data_type = Some(text("Dated"));
    let message = insert_rows("F", "V", vec![view_item("F", "V", "d1", "a")], None, None);
    consume_command(&mut store, false, message, &outside(), NOW).unwrap();
    assert_eq!(store.view_dated.len(), 1);
    assert!(store.view_grouped_dated.is_empty());
}

#[test]
fn view_of_an_unknown_kind_of_data_takes_no_rows() {
    let mut store = Store::new();
    seed_feed(&mut store, "F", user("U"), "2.prive");
    seed_view(&mut store, "V", "F", user("U"));
    for unknown in ["Sparse", "GrouepdDated", "dated", ""] {
        store.feed_views[0].data_type = Some(text(unknown));
        let message =
            insert_rows("F", "V", vec![view_item("F", "V", "d1", "a")], Some(true), None);
        assert_eq!(
            consume_command(&mut store, false, message, &outside(), NOW),
            Err(Failure::UnsupportedDataType)
        );
    }
    assert!(store.view_grouped_dated.is_empty());
    assert!(store.view_dated.is_empty());
}

#[test]
fn mapper_writes_rows_back_to_the_grouped_collection_of_a_grouped_view() {
    let mut store = Store::new();
    seed_feed(&mut store, "F", user("U"), "2.prive");
    seed_view(&mut store, "V", "F", user("U"));
    store.feed_views[0].data_type = Some(text("GroupedDated"));
    let first = insert_rows(
        "F",
        "V",
        vec![view_item("F", "V", "d1", "old1"), view_item("F", "V", "d2", "old2")],
        None,
        Some(true),
    );
    let handled = consume_command(&mut store, false, first, &outside(), NOW).unwrap();
    assert_eq!(handled.reply, Reply::ok());
    let second = insert_rows(
        "F",
        "V",
        vec![view_item("F", "V", "d2", "new2"), view_item("F", "V", "d3", "new3")],
        None,
        Some(true),
    );
    consume_command(&mut store, false, second, &outside(), NOW).unwrap();
    assert!(store.view_dated.is_empty());
    let kept: Vec<(&str, &EncryptedDocument)> = store
        .view_grouped_dated
        .iter()
        .map(|row| (row.data_id.as_str(), &row.encrypted_data))
        .collect();
    assert_eq!(
        kept,
        vec![("d1", &document("old1")), ("d2", &document("old2")), ("d3", &document("new3"))]
    );
    let third = insert_rows("F", "V", vec![view_item("F", "V", "d9", "only")], Some(true), None);
    consume_command(&mut store, false, third, &outside(), NOW).unwrap();
    assert_eq!(store.view_grouped_dated.len(), 1);
    assert_eq!(store.view_grouped_dated[0].data_id, "d9");
}

#[test]
fn overlapping_batch_leaves_the_rows_that_were_there() {
    for deduplicate in vec![Some(true), Some(false), None] {
        let mut store = Store::new();
        seed_feed(&mut store, "F", user("U"), "2.prive");
        seed_view(&mut store, "V", "F", user("U"));
        let first = insert_rows(
            "F",
            "V",
            vec![view_item("F", "V", "d1", "old1"), view_item("F", "V", "d2", "old2")],
            None,
            deduplicate,
        );
        consume_command(&mut store, false, first, &outside(), NOW).unwrap();
        let before: Vec<FeedViewGroupedDatedRow> = store.view_grouped_dated.clone();
        let second = insert_rows(
            "F",
            "V",
            vec![
                view_item("F", "V", "d2", "new2"),
                view_item("F", "V", "d3", "new3"),
                view_item("F", "V", "d3", "again"),
            ],
            None,
            deduplicate,
        );
        let handled = consume_command(&mut store, false, second, &outside(), NOW).unwrap();
        assert_eq!(handled.reply, Reply::ok());
        assert_eq!(store.view_grouped_dated.len(), 3);
        assert_eq!(store.view_grouped_dated[..2], before[..]);
        assert_eq!(store.view_grouped_dated[1].encrypted_data, document("old2"));
        assert_eq!(store.view_grouped_dated[2].data_id, "d3");
        assert_eq!(store.view_grouped_dated[2].encrypted_data, document("new3"));
        assert!(store.is_well_formed());
    }
}

#[test]
fn truncate_removes_the_rows_of_the_view_first() {
    let mut store = Store::new();
    seed_feed(&mut store, "F", user("U"), "2.prive");
    seed_view(&mut store, "V", "F", user("U"));
    seed_view(&mut store, "W", "F", user("U"));
    let mut seeding = |view: &str, data_id: &str| {
        let message = insert_rows("F", view, vec![view_item("F", view, data_id, "old")], None, None);
        consume_command(&mut store, false, message, &outside(), NOW).unwrap();
    };
    seeding("V", "d1");
    seeding("W", "d1");
    seeding("V", "d2");
    let message = insert_rows("F", "V", vec![view_item("F", "V", "d2", "new")], Some(true), None);
    consume_command(&mut store, false, message, &outside(), NOW).unwrap();
    assert_eq!(store.view_grouped_dated.len(), 2);
    assert_eq!(store.view_grouped_dated[0].feed_view_id, "W");
    assert_eq!(store.view_grouped_dated[1].feed_view_id, "V");
    assert_eq!(store.view_grouped_dated[1].data_id, "d2");
    assert_eq!(store.view_grouped_dated[1].encrypted_data, document("new"));
}

#[test]
fn rows_are_written_back_by_the_mapper_only() {
    let mut store = Store::new();
    seed_feed(&mut store, "F", user("U"), "2.prive");
    seed_view(&mut store, "V", "F", user("U"));
    let mut message = insert_rows("F", "V", vec![view_item("F", "V", "d1", "a")], None, None);
    message.certificat = scraper();
    let handled = consume_command(&mut store, false, message, &outside(), NOW).unwrap();
    refused(&handled, 401, "Access denied - invalid role");
    let mut message = insert_rows("F", "V", vec![view_item("F", "V", "d1", "a")], None, None);
    message.certificat = Certificate { exchanges: vec![Securite::L2Prive], ..mapper() };
    let handled = consume_command(&mut store, false, message, &outside(), NOW).unwrap();
    refused(&handled, 401, "Access denied - invalid security level");
    assert!(store.view_grouped_dated.is_empty());
}

#[test]
fn rows_need_a_feed_and_a_view_that_are_not_deleted() {
    let mut store = Store::new();
    seed_feed(&mut store, "F", user("U"), "2.prive");
    seed_view(&mut store, "V", "F", user("U"));
    let message = insert_rows("G", "V", vec![], None, None);
    let handled = consume_command(&mut store, false, message, &outside(), NOW).unwrap();
    refused(&handled, 404, "Unknown feed_id");
    let message = insert_rows("F", "W", vec![], None, None);
    let handled = consume_command(&mut store, false, message, &outside(), NOW).unwrap();
    refused(&handled, 404, "Unknown feed_view_id");
    store.feed_views[0].deleted = true;
    let message = insert_rows("F", "V", vec![], None, None);
    let handled = consume_command(&mut store, false, message, &outside(), NOW).unwrap();
    refused(&handled, 404, "Unknown feed_view_id");
    store.feeds[0].deleted = true;
    store.feeds[0].deleted_at = Some(NOW);
    let message = insert_rows("F", "V", vec![], None, None);
    let handled = consume_command(&mut store, false, message, &outside(), NOW).unwrap();
    refused(&handled, 404, "Unknown feed_id");
}

#[test]
fn transaction_that_cannot_be_applied_is_not_saved() {
    let mut store = Store::new();
    seed_feed(&mut store, "F", user("alice"), "2.prive");
    let again = with_key(command("F", "createFeed", user("alice"), create_feed("2.prive")));
    assert_eq!(save_transaction(&mut store, again, NOW), Err(ApplyError::Duplicate));
    assert_eq!(store.transactions.len(), 1);
    let again = with_key(command("F", "createFeed", user("alice"), create_feed("2.prive")));
    assert_eq!(
        consume_command(&mut store, false, again, &outside(), NOW),
        Err(Failure::Apply(ApplyError::Duplicate))
    );
    assert_eq!(store.feeds.len(), 1);
}

#[test]
fn key_master_is_of_no_account_without_a_key() {
    let mut store = Store::new();
    seed_feed(&mut store, "F", user("alice"), "2.prive");
    let silent = Outside { key_escrow: EscrowOutcome::Timeout, ..outside() };
    let delete = Contenu::DeleteFeed(DeleteFeedTransaction { feed_id: text("F"), purge: None });
    let message = with_key(command("d1", "deleteFeed", user("alice"), delete));
    let handled = consume_command(&mut store, false, message, &silent, NOW).unwrap();
    assert_eq!(handled.reply, Reply::ok());
    let message = command("s1", "saveDataItem", scraper(), data_item("F", "D", None));
    let handled = consume_command(&mut store, false, message, &silent, NOW).unwrap();
    assert_eq!(handled.reply, Reply::ok());
}

#[test]
fn failures_have_their_codes() {
    assert_eq!(Failure::AccessDenied.code(), 401);
    assert_eq!(Failure::BadMessageType.code(), 400);
    assert_eq!(Failure::Malformed.code(), 400);
    assert_eq!(Failure::Apply(ApplyError::Duplicate).code(), 409);
    assert_eq!(Failure::Apply(ApplyError::NoMatch).code(), 500);
    assert_eq!(Failure::UnsupportedDataType.code(), 500);
    assert_eq!(Failure::Transport.code(), 4);
    assert_eq!(Failure::KeysUnavailable.code(), 2);
}

#[test]
fn view_is_not_created_over_a_deleted_feed() {
    let mut store = Store::new();
    seed_feed(&mut store, "F", user("alice"), "2.prive");
    let delete = Contenu::DeleteFeed(DeleteFeedTransaction { feed_id: text("F"), purge: None });
    consume_command(
        &mut store,
        false,
        command("d1", "deleteFeed", user("alice"), delete),
        &outside(),
        NOW,
    )
    .unwrap();
    assert!(store.feeds[0].deleted);
    let message = with_key(command("V", "createFeedView", user("alice"), create_view("F")));
    let handled = consume_command(&mut store, false, message, &outside(), NOW).unwrap();
    refused(&handled, 404, "Feed not found / access refused");
    assert!(store.feed_views.is_empty());
    assert_eq!(store.transactions.len(), 2);

    let restore = Contenu::RestoreFeed(RestoreFeedTransaction { feed_id: text("F") });
    consume_command(
        &mut store,
        false,
        command("r1", "restoreFeed", user("alice"), restore),
        &outside(),
        NOW,
    )
    .unwrap();
    seed_view(&mut store, "V", "F", user("alice"));
    assert_eq!(store.feed_views.len(), 1);
}

#[test]
fn volatile_file_does_not_expire_before_it_is_published() {
    let mut store = Store::new();
    let file = |correlation: &str| FuuidVolatile {
        correlation: text(correlation),
        fuuid: text("f"),
        format: text("mgs4"),
        cle_id: text("k"),
        nonce: None,
        compression: None,
    };
    let publish = |files: Vec<FuuidVolatile>, expiration: Option<i64>| {
        command(
            "v",
            "addFuuidsVolatile",
            scraper(),
            Contenu::AddFuuidsVolatile(CommandAddFuuidsVolatile { files, expiration }),
        )
    };
    let past = publish(vec![file("c1")], Some(NOW - 1));
    let handled = consume_command(&mut store, false, past, &outside(), NOW).unwrap();
    assert_eq!(handled.reply, Reply::ok());
    assert_eq!(store.volatile_files[0].created, NOW);
    assert_eq!(store.volatile_files[0].expiration, NOW);
    let at_once = publish(vec![file("c2")], Some(NOW + 5));
    consume_command(&mut store, false, at_once, &outside(), NOW + 5).unwrap();
    assert_eq!(store.volatile_files[1].expiration, NOW + 5);
    let long_ago = publish(vec![file("c3")], Some(i64::MIN));
    consume_command(&mut store, false, long_ago, &outside(), NOW + 9).unwrap();
    assert_eq!(store.volatile_files[2].expiration, NOW + 9);
    assert_eq!(store.volatile_files[2].created, NOW + 9);
    assert!(store.is_well_formed());
}

#[test]
fn several_volatile_files_have_each_a_row_of_their_own() {
    let mut store = Store::new();
    let file = |correlation: &str, fuuid: &str| FuuidVolatile {
        correlation: text(correlation),
        fuuid: text(fuuid),
        format: text("mgs4"),
        cle_id: text(fuuid),
        nonce: Some(text("n")),
        compression: Some(text("gz")),
    };
    let message = command(
        "v",
        "addFuuidsVolatile",
        scraper(),
        Contenu::AddFuuidsVolatile(CommandAddFuuidsVolatile {
            files: vec![file("c1", "f1"), file("c2", "f2"), file("c1", "f3"), file("c3", "f4")],
            expiration: None,
        }),
    );
    let handled = consume_command(&mut store, false, message, &outside(), NOW).unwrap();
    assert_eq!(handled.reply, Reply::ok());
    let row = |correlation: &str, fuuid: &str| VolatileFileRow {
        correlation: text(correlation),
        fuuid: text(fuuid),
        format: text("mgs4"),
        cle_id: text(fuuid),
        nonce: Some(text("n")),
        compression: Some(text("gz")),
        expiration: NOW + 604_800_000,
        created: NOW,
        modified: NOW,
    };
    assert_eq!(store.volatile_files, vec![row("c1", "f1"), row("c2", "f2"), row("c3", "f4")]);
    assert!(store.transactions.is_empty());
}
