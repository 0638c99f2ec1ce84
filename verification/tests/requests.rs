use datacollector::certificate::{Certificate, Securite};
use datacollector::data_mongodb::{
    DataCollectorFilesRow, DataCollectorRow, DataFeedRow, EncryptedDocument, FeedViewGroupedDatedRow,
    FeedViewRow, FileDecryption, VolatileFileRow,
};
use datacollector::keymaster::{EscrowOutcome, RequeteDechiffrage};
use datacollector::messages::{Contenu, Failure, MapperOutcome, MessageKind, MessageValide, Outside};
use datacollector::messages_commands::FuuidVolatile;
use datacollector::messages_requests::{
    consume_request, verify_authorized_feed, Answer, CheckExistingDataIdsRequest,
    CheckExistingDataIdsResponse, FeedDataRequest, FeedResponse, FeedViewDataRequest,
    FeedViewResponse, FeedViewsRequest, RequestGetDataItems, RequestGetFeeds,
    RequestGetFuuidsVolatile, Response,
};
use datacollector::reply::Reply;
use datacollector::store::Store;
use datacollector::transactions_struct::FileItem;

const NOW: i64 = 1_700_000_000_000;

fn text(s: &str) -> String {
    String::from(s)
}

fn user(id: &str) -> Certificate {
    Certificate {
        user_id: Some(text(id)),
        private_user_account: true,
        roles: vec![],
        exchanges: vec![],
        global_owner: false,
        chaine_pem: vec![text("leaf"), text("root")],
    }
}

fn admin(id: &str) -> Certificate {
    Certificate { global_owner: true, ..user(id) }
}

fn scraper() -> Certificate {
    Certificate {
        user_id: None,
        private_user_account: false,
        roles: vec![text("web_scraper")],
        exchanges: vec![Securite::L1Public],
        global_owner: false,
        chaine_pem: vec![text("scraper-pem")],
    }
}

fn mapper() -> Certificate {
    Certificate {
        user_id: None,
        private_user_account: false,
        roles: vec![text("datasource_mapper")],
        exchanges: vec![Securite::L3Protege],
        global_owner: false,
        chaine_pem: vec![text("mapper-pem")],
    }
}

fn document(cle_id: Option<&str>) -> EncryptedDocument {
    EncryptedDocument { cle_id: cle_id.map(text), content: text("ciphertext") }
}

fn feed(feed_id: &str, owner: Option<&str>, level: &str, cle_id: &str) -> DataFeedRow {
    DataFeedRow {
        feed_id: text(feed_id),
        feed_type: text("rss"),
        security_level: text(level),
        domain: text("News"),
        poll_rate: None,
        active: Some(true),
        decrypt_in_database: None,
        encrypted_feed_information: document(Some(cle_id)),
        user_id: owner.map(text),
        created_at: NOW,
        modified_at: NOW,
        deleted: false,
        deleted_at: None,
    }
}

fn item(feed_id: &str, data_id: &str, pub_date: i64, cle_id: Option<&str>) -> DataCollectorRow {
    DataCollectorRow {
        data_id: text(data_id),
        feed_id: text(feed_id),
        pub_date,
        encrypted_data: document(cle_id),
        files: None,
    }
}

fn file(feed_id: &str, data_id: &str, save_date: i64, key_ids: Vec<&str>) -> DataCollectorFilesRow {
    DataCollectorFilesRow {
        data_id: text(data_id),
        feed_id: text(feed_id),
        save_date,
        data_fuuid: text("fd"),
        key_ids: key_ids.into_iter().map(text).collect(),
        pub_date_start: None,
        pub_date_end: None,
        attached_fuuids: None,
    }
}

fn view(feed_view_id: &str, feed_id: &str, cle_id: &str) -> FeedViewRow {
    FeedViewRow {
        feed_view_id: text(feed_view_id),
        feed_id: text(feed_id),
        encrypted_data: document(Some(cle_id)),
        name: None,
        active: true,
        decrypted: false,
        data_type: None,
        mapping_code: text("m"),
        creation_date: NOW,
        modification_date: NOW,
        deleted: false,
        ready: true,
        processing_start_date: None,
    }
}

fn view_row(feed_view_id: &str, data_id: &str, pub_date: Option<i64>, cle_id: &str) -> FeedViewGroupedDatedRow {
    FeedViewGroupedDatedRow {
        data_id: text(data_id),
        feed_view_id: text(feed_view_id),
        feed_id: text("F"),
        pub_date,
        encrypted_data: document(Some(cle_id)),
        group_id: None,
        files: None,
    }
}

fn request(action: &str, certificat: Certificate, contenu: Contenu) -> MessageValide {
    MessageValide {
        id: text("req"),
        estampille: NOW,
        kind: MessageKind::Requete,
        action: text(action),
        certificat,
        contenu,
        attached_key: None,
    }
}

fn outside() -> Outside {
    Outside {
        key_escrow: EscrowOutcome::Saved,
        key_bundle: Some(text("bundle")),
        mapper: MapperOutcome::NoReply,
    }
}

fn no_keys() -> Outside {
    Outside { key_bundle: None, ..outside() }
}

fn key_request(cle_ids: Vec<&str>, chain: Vec<&str>) -> Option<RequeteDechiffrage> {
    Some(RequeteDechiffrage {
        domaine: text("DataCollector"),
        cle_ids: cle_ids.into_iter().map(text).collect(),
        certificat_rechiffrage: Some(chain.into_iter().map(text).collect()),
    })
}

fn turned_down(answer: &Answer, code: i64, err: &str) {
    assert_eq!(answer.response, Response::Refused(Reply::error(code, err)));
    assert_eq!(answer.key_request, None);
}

fn get_feeds(certificat: Certificate, feed_ids: Option<Vec<String>>) -> MessageValide {
    request("getFeeds", certificat, Contenu::GetFeeds(RequestGetFeeds { feed_ids }))
}

fn feed_ids(answer: &Answer) -> Vec<String> {
    match &answer.response {
        Response::Feeds(r) => {
            assert!(r.ok);
            r.feeds.iter().map(|f| f.feed_id.clone()).collect()
        }
        other => panic!("no list of feeds: {:?}", other),
    }
}

fn visibility_store() -> Store {
    let mut store = Store::new();
    store.feeds.push(feed("F1", Some("U"), "2.prive", "k1"));
    store.feeds.push(feed("F2", None, "1.public", "k2"));
    store.feeds.push(feed("F3", None, "3.protege", "k3"));
    store.feeds.push(feed("F4", Some("other"), "1.public", "k4"));
    store.feeds.push(feed("F5", None, "2.prive", "k2"));
    store.feeds.push(DataFeedRow {
        deleted: true,
        deleted_at: Some(NOW),
        ..feed("F6", Some("U"), "2.prive", "k6")
    });
    assert!(store.is_well_formed());
    store
}

#[test]
fn get_feeds_visibility() {
    let store = visibility_store();
    let answer = consume_request(&store, false, &get_feeds(user("U"), None), &outside()).unwrap();
    assert_eq!(feed_ids(&answer), vec![text("F1"), text("F2"), text("F5")]);
    assert_eq!(answer.key_request, key_request(vec!["k1", "k2"], vec!["leaf", "root"]));
    match answer.response {
        Response::Feeds(r) => {
            assert_eq!(r.keys, "bundle");
            assert_eq!(
                r.feeds[0],
                FeedResponse {
                    feed_id: text("F1"),
                    feed_type: text("rss"),
                    security_level: text("2.prive"),
                    domain: text("News"),
                    poll_rate: None,
                    active: Some(true),
                    decrypt_in_database: None,
                    encrypted_feed_information: document(Some("k1")),
                    user_id: Some(text("U")),
                    deleted: false,
                }
            );
        }
        _ => unreachable!(),
    }
}

#[test]
fn get_feeds_of_the_global_owner_are_the_feeds_of_the_system() {
    let store = visibility_store();
    let answer = consume_request(&store, false, &get_feeds(admin("U"), None), &outside()).unwrap();
    assert_eq!(feed_ids(&answer), vec![text("F2"), text("F3"), text("F5")]);
}

#[test]
fn get_feeds_can_be_narrowed_to_some_feeds() {
    let store = visibility_store();
    let wanted = Some(vec![text("F5"), text("F3"), text("F1")]);
    let answer = consume_request(&store, false, &get_feeds(user("U"), wanted), &outside()).unwrap();
    assert_eq!(feed_ids(&answer), vec![text("F1"), text("F5")]);
    let answer =
        consume_request(&store, false, &get_feeds(user("U"), Some(vec![])), &outside()).unwrap();
    assert!(feed_ids(&answer).is_empty());
    assert_eq!(answer.key_request, key_request(vec![], vec!["leaf", "root"]));
}

#[test]
fn get_feeds_needs_a_user_and_the_keys() {
    let store = visibility_store();
    let module = Certificate { roles: vec![], ..scraper() };
    let answer = consume_request(&store, false, &get_feeds(module, None), &outside()).unwrap();
    turned_down(&answer, 401, "Invalid certificate");
    assert_eq!(
        consume_request(&store, false, &get_feeds(user("U"), None), &no_keys()),
        Err(Failure::KeysUnavailable)
    );
    assert_eq!(
        consume_request(&store, false, &request("getFeeds", user("U"), Contenu::Empty), &outside()),
        Err(Failure::Malformed)
    );
}

#[test]
fn scrapers_get_the_active_feeds_of_everyone() {
    let mut store = visibility_store();
    store.feeds[2].active = Some(false);
    store.feeds[3].active = None;
    let message = request("getFeedsForScraper", scraper(), Contenu::Empty);
    let answer = consume_request(&store, false, &message, &outside()).unwrap();
    assert_eq!(feed_ids(&answer), vec![text("F1"), text("F2"), text("F5")]);
    assert_eq!(answer.key_request, key_request(vec!["k1", "k2"], vec!["scraper-pem"]));
    let message = request("getFeedsForScraper", user("U"), Contenu::Empty);
    turned_down(
        &consume_request(&store, false, &message, &outside()).unwrap(),
        401,
        "Access denied - invalid role",
    );
    let elsewhere = Certificate { exchanges: vec![Securite::L3Protege], ..scraper() };
    let message = request("getFeedsForScraper", elsewhere, Contenu::Empty);
    turned_down(
        &consume_request(&store, false, &message, &outside()).unwrap(),
        401,
        "Access denied - invalid security level",
    );
}

#[test]
fn requests_are_turned_away_during_a_rebuild() {
    let store = visibility_store();
    let answer = consume_request(&store, true, &get_feeds(user("U"), None), &outside()).unwrap();
    turned_down(&answer, 503, "System rebuild in progress");
}

#[test]
fn unknown_request_is_code_99() {
    let store = Store::new();
    let message = request("getEverything", user("U"), Contenu::Empty);
    turned_down(&consume_request(&store, false, &message, &outside()).unwrap(), 99, "Unknown request");
}

#[test]
fn request_of_a_caller_that_is_not_admitted_fails() {
    let store = Store::new();
    let nobody = Certificate { private_user_account: false, ..user("U") };
    assert_eq!(
        consume_request(&store, false, &get_feeds(nobody, None), &outside()),
        Err(Failure::AccessDenied)
    );
    let mut message = get_feeds(user("U"), None);
    message.kind = MessageKind::Commande;
    assert_eq!(
        consume_request(&store, false, &message, &outside()),
        Err(Failure::BadMessageType)
    );
}

#[test]
fn existing_and_missing_data_ids() {
    let mut store = Store::new();
    store.data_items.push(item("F", "a", NOW, None));
    store.data_items.push(item("G", "b", NOW, None));
    store.data_items.push(item("F", "c", NOW, None));
    let message = request(
        "checkExistingDataIds",
        scraper(),
        Contenu::CheckExistingDataIds(CheckExistingDataIdsRequest {
            feed_id: text("F"),
            data_ids: vec![text("c"), text("b"), text("z"), text("a"), text("c"), text("z")],
        }),
    );
    let answer = consume_request(&store, false, &message, &outside()).unwrap();
    assert_eq!(
        answer.response,
        Response::ExistingDataIds(CheckExistingDataIdsResponse {
            existing_ids: vec![text("c"), text("a")],
            missing_ids: vec![text("b"), text("z")],
        })
    );
    assert_eq!(answer.key_request, None);
    let message = request(
        "checkExistingDataIds",
        user("U"),
        Contenu::CheckExistingDataIds(CheckExistingDataIdsRequest {
            feed_id: text("F"),
            data_ids: vec![],
        }),
    );
    turned_down(
        &consume_request(&store, false, &message, &outside()).unwrap(),
        401,
        "Access denied - invalid role",
    );
}

fn data_items(
    action: &str,
    certificat: Certificate,
    feed_id: &str,
    skip: Option<u64>,
    limit: Option<i64>,
    range: (Option<i64>, Option<i64>),
) -> MessageValide {
    request(
        action,
        certificat,
        Contenu::GetDataItems(RequestGetDataItems {
            feed_id: text(feed_id),
            skip,
            limit,
            start_date: range.0,
            end_date: range.1,
        }),
    )
}

fn item_ids(answer: &Answer) -> (Vec<String>, Option<i64>) {
    match &answer.response {
        Response::DataItems(r) => {
            assert!(r.ok);
            assert_eq!(r.keys, "bundle");
            (r.items.iter().map(|i| i.data_id.clone()).collect(), r.estimated_count)
        }
        other => panic!("no data items: {:?}", other),
    }
}

fn items_store() -> Store {
    let mut store = Store::new();
    store.feeds.push(feed("F", Some("U"), "2.prive", "kf"));
    store.feeds.push(feed("G", Some("U"), "2.prive", "kg"));
    store.feeds.push(feed("B", Some("bob"), "2.prive", "kb"));
    store.data_items.push(item("F", "d1", 100, Some("k1")));
    store.data_items.push(item("F", "d2", 300, Some("k2")));
    store.data_items.push(item("G", "d3", 400, Some("k3")));
    store.data_items.push(item("F", "d4", 200, Some("k1")));
    store.data_items.push(item("F", "d5", 300, None));
    store.data_items.push(item("B", "d6", 300, Some("kb")));
    assert!(store.is_well_formed());
    store
}

#[test]
fn most_recent_items_come_newest_first() {
    let store = items_store();
    let message = data_items("getDataItemsMostRecent", user("U"), "F", None, None, (None, None));
    let answer = consume_request(&store, false, &message, &outside()).unwrap();
    assert_eq!(
        item_ids(&answer),
        (vec![text("d2"), text("d5"), text("d4"), text("d1")], Some(4))
    );
    assert_eq!(answer.key_request, key_request(vec!["k2", "k1"], vec!["leaf", "root"]));
}

#[test]
fn most_recent_items_are_paged() {
    let store = items_store();
    let page = |skip, limit| {
        let message =
            data_items("getDataItemsMostRecent", user("U"), "F", skip, limit, (None, None));
        item_ids(&consume_request(&store, false, &message, &outside()).unwrap())
    };
    assert_eq!(page(Some(1), Some(2)), (vec![text("d5"), text("d4")], Some(4)));
    assert_eq!(page(Some(3), Some(2)), (vec![text("d1")], Some(4)));
    assert_eq!(page(Some(4), Some(2)), (vec![], None));
    assert_eq!(page(Some(9), None), (vec![], None));
    assert_eq!(page(None, Some(0)).0.len(), 4);
    assert_eq!(page(None, Some(-3)).0, vec![text("d2"), text("d5"), text("d4")]);
    assert_eq!(page(None, Some(1)).0, vec![text("d2")]);
}

#[test]
fn page_holds_fifty_items_by_default_and_the_count_stops_at_a_thousand() {
    let mut store = Store::new();
    store.feeds.push(feed("F", Some("U"), "2.prive", "kf"));
    for n in 0..1_100 {
        store.data_items.push(item("F", &format!("d{}", n), n, None));
    }
    let message = data_items("getDataItemsMostRecent", user("U"), "F", None, None, (None, None));
    let (ids, count) = item_ids(&consume_request(&store, false, &message, &outside()).unwrap());
    assert_eq!(ids.len(), 50);
    assert_eq!(ids[0], "d1099");
    assert_eq!(ids[49], "d1050");
    assert_eq!(count, Some(1_000));
    let message =
        data_items("getDataItemsDateRange", user("U"), "F", None, None, (Some(0), Some(999)));
    let (ids, count) = item_ids(&consume_request(&store, false, &message, &outside()).unwrap());
    assert_eq!(ids[0], "d998");
    assert_eq!(count, Some(999));
}

#[test]
fn items_of_the_feed_of_another_user_are_not_found() {
    let store = items_store();
    for action in ["getDataItemsMostRecent", "getDataItemsDateRange"] {
        let message = data_items(action, user("U"), "B", None, None, (Some(0), Some(1_000)));
        turned_down(
            &consume_request(&store, false, &message, &outside()).unwrap(),
            404,
            "Feed not found / access refused",
        );
        let message = data_items(action, user("U"), "nowhere", None, None, (Some(0), Some(1_000)));
        turned_down(
            &consume_request(&store, false, &message, &outside()).unwrap(),
            404,
            "Feed not found / access refused",
        );
    }
}

#[test]
fn items_by_range_take_the_start_and_leave_the_end() {
    let store = items_store();
    let message =
        data_items("getDataItemsDateRange", user("U"), "F", None, None, (Some(200), Some(300)));
    let answer = consume_request(&store, false, &message, &outside()).unwrap();
    assert_eq!(item_ids(&answer), (vec![text("d4")], Some(1)));
    let message =
        data_items("getDataItemsDateRange", user("U"), "F", None, None, (Some(100), Some(301)));
    let answer = consume_request(&store, false, &message, &outside()).unwrap();
    assert_eq!(item_ids(&answer).0, vec![text("d2"), text("d5"), text("d4"), text("d1")]);
}

#[test]
fn items_by_range_need_both_dates() {
    let store = items_store();
    for range in [(None, None), (Some(1), None), (None, Some(1))] {
        let message = data_items("getDataItemsDateRange", user("U"), "F", None, None, range);
        turned_down(
            &consume_request(&store, false, &message, &outside()).unwrap(),
            400,
            "Missing start/end date",
        );
    }
}

#[test]
fn authorized_feed_follows_the_owner_and_the_level() {
    let store = visibility_store();
    let read = |certificat: &Certificate, feed_id: &str, shared: bool| {
        verify_authorized_feed(&store, feed_id, certificat, shared).map(|f| f.feed_id.clone())
    };
    let not_found = Err(Reply::error(404, "Feed not found / access refused"));
    assert_eq!(read(&user("U"), "F1", false), Ok(text("F1")));
    assert_eq!(read(&user("U"), "F2", true), Ok(text("F2")));
    assert_eq!(read(&user("U"), "F2", false), not_found);
    assert_eq!(read(&user("U"), "F3", true), not_found);
    assert_eq!(read(&user("U"), "F4", true), not_found);
    assert_eq!(read(&user("U"), "F6", true), not_found);
    assert_eq!(read(&user("U"), "nowhere", true), not_found);
    assert_eq!(read(&admin("U"), "F1", true), not_found);
    assert_eq!(read(&admin("U"), "F3", false), Ok(text("F3")));
    assert_eq!(read(&mapper(), "F4", false), Ok(text("F4")));
    assert_eq!(read(&mapper(), "F6", false), not_found);
    assert_eq!(read(&scraper(), "F2", true), Err(Reply::error(401, "Invalid certificate")));
    let mapper_elsewhere = Certificate { exchanges: vec![Securite::L2Prive], ..mapper() };
    assert_eq!(
        read(&mapper_elsewhere, "F2", true),
        Err(Reply::error(401, "Invalid certificate"))
    );
}

#[test]
fn volatile_files_are_found_by_their_correlations() {
    let mut store = Store::new();
    for (correlation, fuuid) in [("c1", "f1"), ("c2", "f2"), ("c3", "f3")] {
        store.volatile_files.push(VolatileFileRow {
            correlation: text(correlation),
            fuuid: text(fuuid),
            format: text("mgs4"),
            cle_id: text("k"),
            nonce: None,
            compression: Some(text("gz")),
            expiration: NOW + 1,
            created: NOW,
            modified: NOW,
        });
    }
    let message = request(
        "getFuuidsVolatile",
        scraper(),
        Contenu::GetFuuidsVolatile(RequestGetFuuidsVolatile {
            correlations: vec![text("c3"), text("c9"), text("c1")],
        }),
    );
    let answer = consume_request(&store, false, &message, &outside()).unwrap();
    match answer.response {
        Response::FuuidsVolatile(r) => {
            assert!(r.ok);
            assert_eq!(r.files.len(), 2);
            assert_eq!(
                r.files[0],
                FuuidVolatile {
                    correlation: text("c1"),
                    fuuid: text("f1"),
                    format: text("mgs4"),
                    cle_id: text("k"),
                    nonce: None,
                    compression: Some(text("gz")),
                }
            );
            assert_eq!(r.files[1].correlation, "c3");
        }
        other => panic!("no volatile files: {:?}", other),
    }
    assert_eq!(answer.key_request, None);
}

fn feed_data(certificat: Certificate, batch_start: i64, skip: Option<u64>, limit: Option<i64>) -> MessageValide {
    request(
        "getFeedData",
        certificat,
        Contenu::GetFeedData(FeedDataRequest { feed_id: text("F"), batch_start, skip, limit }),
    )
}

#[test]
fn feed_data_comes_oldest_first_after_the_start_of_the_batch() {
    let mut store = Store::new();
    store.data_files.push(file("F", "d1", 500, vec!["k1", "k2"]));
    store.data_files.push(file("F", "d2", 100, vec!["k0"]));
    store.data_files.push(file("G", "d3", 300, vec!["kg"]));
    store.data_files.push(file("F", "d4", 300, vec!["k2", "k3"]));
    store.data_files.push(file("F", "d5", 101, vec![]));
    let answer =
        consume_request(&store, false, &feed_data(mapper(), 100, None, None), &outside()).unwrap();
    match &answer.response {
        Response::FeedData(r) => {
            assert!(r.ok);
            let ids: Vec<&str> = r.items.iter().map(|i| i.data_id.as_str()).collect();
            assert_eq!(ids, vec!["d5", "d4", "d1"]);
            assert_eq!(r.items[1].key_ids, vec![text("k2"), text("k3")]);
            assert_eq!(r.items[1].save_date, 300);
            assert_eq!(r.keys, Some(text("bundle")));
        }
        other => panic!("no feed data: {:?}", other),
    }
    assert_eq!(answer.key_request, key_request(vec!["k2", "k3", "k1"], vec!["mapper-pem"]));
    let answer = consume_request(&store, false, &feed_data(mapper(), 100, Some(1), Some(1)), &outside())
        .unwrap();
    match &answer.response {
        Response::FeedData(r) => assert_eq!(r.items[0].data_id, "d4"),
        other => panic!("no feed data: {:?}", other),
    }
}

#[test]
fn feed_data_without_keys_asks_for_none() {
    let mut store = Store::new();
    store.data_files.push(file("F", "d5", 101, vec![]));
    let answer =
        consume_request(&store, false, &feed_data(mapper(), 0, None, None), &no_keys()).unwrap();
    match &answer.response {
        Response::FeedData(r) => {
            assert_eq!(r.items.len(), 1);
            assert_eq!(r.keys, None);
        }
        other => panic!("no feed data: {:?}", other),
    }
    assert_eq!(answer.key_request, None);
    store.data_files.push(file("F", "d6", 102, vec!["k"]));
    assert_eq!(
        consume_request(&store, false, &feed_data(mapper(), 0, None, None), &no_keys()),
        Err(Failure::KeysUnavailable)
    );
}

#[test]
fn feed_data_is_for_the_mapper() {
    let store = Store::new();
    turned_down(
        &consume_request(&store, false, &feed_data(scraper(), 0, None, None), &outside()).unwrap(),
        401,
        "Access denied - invalid role",
    );
    let elsewhere = Certificate { exchanges: vec![Securite::L1Public], ..mapper() };
    turned_down(
        &consume_request(&store, false, &feed_data(elsewhere, 0, None, None), &outside()).unwrap(),
        401,
        "Access denied - invalid security level",
    );
}

fn views_store() -> Store {
    let mut store = Store::new();
    store.feeds.push(feed("F", Some("U"), "2.prive", "kf"));
    store.feed_views.push(view("V1", "F", "kv1"));
    store.feed_views.push(FeedViewRow { active: false, ..view("V2", "F", "kf") });
    store.feed_views.push(FeedViewRow { deleted: true, ..view("V3", "F", "kv3") });
    store.feed_views.push(view("V4", "G", "kv4"));
    store.feed_views.push(FeedViewRow { data_type: Some(text("Dated")), ..view("V5", "F", "kv5") });
    store
}

fn feed_views(feed_view_ids: Option<Vec<String>>, active_only: Option<bool>) -> MessageValide {
    request(
        "getFeedViews",
        user("U"),
        Contenu::GetFeedViews(FeedViewsRequest { feed_id: text("F"), feed_view_ids, active_only }),
    )
}

#[test]
fn feed_views_are_those_of_the_feed_that_are_not_deleted() {
    let store = views_store();
    let answer = consume_request(&store, false, &feed_views(None, None), &outside()).unwrap();
    assert!(answer.response.is_encrypted());
    match &answer.response {
        Response::FeedViews(r) => {
            assert!(r.ok);
            assert_eq!(r.feed.feed_id, "F");
            let ids: Vec<&str> = r.views.iter().map(|v| v.feed_view_id.as_str()).collect();
            assert_eq!(ids, vec!["V1", "V2", "V5"]);
            assert_eq!(
                r.views[0],
                FeedViewResponse {
                    feed_view_id: text("V1"),
                    feed_id: text("F"),
                    encrypted_data: document(Some("kv1")),
                    name: None,
                    active: true,
                    decrypted: false,
                    mapping_code: text("m"),
                    creation_date: NOW,
                    modification_date: NOW,
                    deleted: false,
                }
            );
            assert_eq!(r.keys, Some(text("bundle")));
        }
        other => panic!("no views: {:?}", other),
    }
    assert_eq!(answer.key_request, key_request(vec!["kf", "kv1", "kv5"], vec!["leaf", "root"]));
}

#[test]
fn feed_views_can_be_narrowed() {
    let store = views_store();
    let ids = |message: MessageValide| match consume_request(&store, false, &message, &outside())
        .unwrap()
        .response
    {
        Response::FeedViews(r) => {
            r.views.into_iter().map(|v| v.feed_view_id).collect::<Vec<String>>()
        }
        other => panic!("no views: {:?}", other),
    };
    assert_eq!(ids(feed_views(None, Some(true))), vec![text("V1"), text("V5")]);
    assert_eq!(ids(feed_views(None, Some(false))), vec![text("V1"), text("V2"), text("V5")]);
    assert_eq!(
        ids(feed_views(Some(vec![text("V2"), text("V3"), text("V4")]), None)),
        vec![text("V2")]
    );
}

fn view_data(feed_view_id: &str, certificat: Certificate, range: (Option<i64>, Option<i64>)) -> MessageValide {
    request(
        "getFeedViewData",
        certificat,
        Contenu::GetFeedViewData(FeedViewDataRequest {
            feed_view_id: text(feed_view_id),
            skip: None,
            limit: Some(2),
            start_date: range.0,
            end_date: range.1,
        }),
    )
}

#[test]
fn view_data_comes_from_the_collection_of_the_kind_of_the_view() {
    let mut store = views_store();
    store.view_grouped_dated.push(view_row("V1", "g1", Some(10), "k1"));
    store.view_grouped_dated.push(view_row("V1", "g2", None, "k2"));
    store.view_grouped_dated.push(view_row("V5", "g9", Some(10), "k9"));
    store.view_grouped_dated.push(view_row("V1", "g3", Some(30), "k3"));
    store.view_dated.push(FeedViewGroupedDatedRow {
        files: Some(vec![
            FileItem {
                fuuid: text("f"),
                decryption: Some(FileDecryption { cle_id: Some(text("kfile")), content: text("") }),
            },
            FileItem { fuuid: text("g"), decryption: None },
        ]),
        ..view_row("V5", "d1", Some(5), "kd")
    });
    let answer =
        consume_request(&store, false, &view_data("V1", user("U"), (None, None)), &outside())
            .unwrap();
    assert!(answer.response.is_encrypted());
    match &answer.response {
        Response::FeedViewData(r) => {
            assert!(r.ok);
            assert_eq!(r.feed.feed_id, "F");
            assert_eq!(r.feed_view.feed_view_id, "V1");
            assert_eq!(r.estimated_count, 3);
            let ids: Vec<&str> = r.items.iter().map(|i| i.data_id.as_str()).collect();
            assert_eq!(ids, vec!["g3", "g1"]);
            assert_eq!(r.keys, Some(text("bundle")));
        }
        other => panic!("no view data: {:?}", other),
    }
    assert_eq!(answer.key_request, key_request(vec!["kf", "kv1", "k3", "k1"], vec!["leaf", "root"]));

    let answer =
        consume_request(&store, false, &view_data("V5", user("U"), (None, None)), &outside())
            .unwrap();
    match &answer.response {
        Response::FeedViewData(r) => {
            assert_eq!(r.estimated_count, 1);
            assert_eq!(r.items.len(), 1);
            assert_eq!(r.items[0].data_id, "d1");
        }
        other => panic!("no view data: {:?}", other),
    }
    assert_eq!(
        answer.key_request,
        key_request(vec!["kf", "kv5", "kd", "kfile"], vec!["leaf", "root"])
    );

    let answer =
        consume_request(&store, false, &view_data("V1", user("U"), (Some(10), Some(30))), &outside())
            .unwrap();
    match &answer.response {
        Response::FeedViewData(r) => {
            assert_eq!(r.estimated_count, 1);
            assert_eq!(r.items[0].data_id, "g1");
        }
        other => panic!("no view data: {:?}", other),
    }
}

#[test]
fn view_data_of_views_that_are_not_there_for_the_caller() {
    let mut store = views_store();
    turned_down(
        &consume_request(&store, false, &view_data("V9", user("U"), (None, None)), &outside())
            .unwrap(),
        404,
        "Unknown feed view",
    );
    turned_down(
        &consume_request(&store, false, &view_data("V3", user("U"), (None, None)), &outside())
            .unwrap(),
        404,
        "Unknown feed view",
    );
    turned_down(
        &consume_request(&store, false, &view_data("V1", user("X"), (None, None)), &outside())
            .unwrap(),
        404,
        "Feed not found / access refused",
    );
    turned_down(
        &consume_request(&store, false, &view_data("V4", user("U"), (None, None)), &outside())
            .unwrap(),
        404,
        "Feed not found / access refused",
    );
    store.feed_views[0].data_type = Some(text("Sparse"));
    assert_eq!(
        consume_request(&store, false, &view_data("V1", user("U"), (None, None)), &outside()),
        Err(Failure::UnsupportedDataType)
    );
}

#[test]
fn view_data_of_a_grouped_view_comes_from_the_grouped_collection() {
    let mut store = views_store();
    store.feed_views[0].data_type = Some(text("GroupedDated"));
    store.view_grouped_dated.push(view_row("V1", "g1", Some(10), "k1"));
    store.view_grouped_dated.push(view_row("V1", "g2", Some(20), "k2"));
    store.view_dated.push(view_row("V1", "d1", Some(30), "kd"));
    let answer =
        consume_request(&store, false, &view_data("V1", user("U"), (None, None)), &outside())
            .unwrap();
    match &answer.response {
        Response::FeedViewData(r) => {
            assert!(r.ok);
            assert_eq!(r.estimated_count, 2);
            let ids: Vec<&str> = r.items.iter().map(|i| i.data_id.as_str()).collect();
            assert_eq!(ids, vec!["g2", "g1"]);
        }
        other => panic!("no view data: {:?}", other),
    }
    store.feed_views[0].data_type = Some(text("GrouepdDated"));
    assert_eq!(
        consume_request(&store, false, &view_data("V1", user("U"), (None, None)), &outside()),
        Err(Failure::UnsupportedDataType)
    );
}
