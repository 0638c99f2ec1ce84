use datacollector::certificate::{Certificate, Securite};
use datacollector::constants::{ViewDataType, DOMAIN_NAME};
use datacollector::data_mongodb::{
    DataCollectorRow, DataCollectorRowIds, DataFeedRow, EncryptedDocument, VolatileFileRow,
};
use datacollector::domain_manager::DataCollectorDomainManager;
use datacollector::file_maintenance::{
    claim_all_files, claim_and_visit_files, claim_batches, claim_files, claim_files_routage,
    claim_response, fuuids_of, ClaimError, RequeteFuuidsVisites, RequeteGetVisitesFuuidsResponse,
    RowFuuidVisit,
};
use datacollector::keymaster::{
    dedup_texts, escrow_answer, escrow_routage, fetch_decryption_keys, get_decrypted_keys,
    get_encrypted_keys, transmit_attached_key, EscrowOutcome, KeyError,
    ReponseRequeteDechiffrageV2, RequeteDechiffrage, COMMANDE_AJOUTER_CLE_DOMAINES,
    DOMAINE_NOM_MAITREDESCLES, KEYMASTER_TIMEOUT,
};
use datacollector::messages::{
    Contenu, Failure, MessageKind, MessageValide, RoutageMessageAction, SideEffect, MAPPER_TIMEOUT,
};
use datacollector::messages_events::consume_event;
use datacollector::messages_commands::command_escrows_key;
use datacollector::messages_ticker::{consume_ticker, sweep_due, tick_is_stale, time_of_day};
use datacollector::paging::{capped_count, is_before, page_range, paged, sort_order};
use datacollector::reply::Reply;
use datacollector::setup_mongodb::prepare_mongodb_index;
use datacollector::setup_queues::{setup_queues, QueueTtl, QueueType};
use datacollector::store::Store;
use datacollector::text::{contains_text, copy_texts, same_optional_text, same_text};
use datacollector::transactions_struct::{FileItem, FileItemV2};

fn text(s: &str) -> String {
    String::from(s)
}

fn texts(list: &[&str]) -> Vec<String> {
    list.iter().map(|s| text(s)).collect()
}

fn numbered(n: usize) -> Vec<String> {
    (0..n).map(|i| format!("fuuid-{}", i)).collect()
}

fn item(feed_id: &str, data_id: &str, fuuids: Option<Vec<String>>) -> DataCollectorRow {
    DataCollectorRow {
        data_id: text(data_id),
        feed_id: text(feed_id),
        pub_date: 0,
        encrypted_data: EncryptedDocument { cle_id: None, content: text("") },
        files: fuuids
            .map(|list| list.into_iter().map(|fuuid| FileItem { fuuid, decryption: None }).collect()),
    }
}

#[test]
fn ticker_sweep() {
    let claims = claim_batches(&numbered(230));
    assert_eq!(claims.len(), 3);
    let numbers: Vec<Option<usize>> = claims.iter().map(|c| c.batch_no).collect();
    assert_eq!(numbers, vec![Some(0), Some(1), Some(2)]);
    let done: Vec<Option<bool>> = claims.iter().map(|c| c.done).collect();
    assert_eq!(done, vec![Some(false), Some(false), Some(true)]);
    let sizes: Vec<usize> = claims.iter().map(|c| c.fuuids.len()).collect();
    assert_eq!(sizes, vec![100, 100, 30]);
    assert_eq!(claims[0].fuuids[0], "fuuid-0");
    assert_eq!(claims[1].fuuids[0], "fuuid-100");
    assert_eq!(claims[2].fuuids[29], "fuuid-229");
}

#[test]
fn sweep_marks_the_last_batch_whatever_its_size() {
    assert!(claim_batches(&numbered(0)).is_empty());
    let one = claim_batches(&numbered(1));
    assert_eq!(one.len(), 1);
    assert_eq!(one[0].done, Some(true));
    let full = claim_batches(&numbered(100));
    assert_eq!(full.len(), 1);
    assert_eq!(full[0].fuuids.len(), 100);
    assert_eq!(full[0].done, Some(true));
    let two = claim_batches(&numbered(200));
    assert_eq!(two.len(), 2);
    assert_eq!(two[0].done, Some(false));
    assert_eq!(two[1].done, Some(true));
    assert_eq!(two[1].batch_no, Some(1));
    let more = claim_batches(&numbered(201));
    assert_eq!(more.len(), 3);
    assert_eq!(more[2].fuuids, vec![text("fuuid-200")]);
}

#[test]
fn sweep_claims_the_files_of_every_data_item() {
    let mut store = Store::new();
    store.data_items.push(item("F", "a", Some(texts(&["f1", "f2"]))));
    store.data_items.push(item("F", "b", None));
    store.data_items.push(item("G", "c", Some(vec![])));
    store.data_items.push(item("G", "d", Some(texts(&["f3"]))));
    assert_eq!(
        claim_all_files(&store),
        vec![RequeteFuuidsVisites {
            fuuids: texts(&["f1", "f2", "f3"]),
            batch_no: Some(0),
            done: Some(true),
        }]
    );
    assert_eq!(fuuids_of(&store.data_items[0].files), Some(texts(&["f1", "f2"])));
    assert_eq!(fuuids_of(&store.data_items[1].files), None);
    assert_eq!(fuuids_of(&store.data_items[2].files), Some(vec![]));
}

#[test]
fn claims_carry_what_they_are_given() {
    assert_eq!(
        claim_and_visit_files(texts(&["a"])),
        RequeteFuuidsVisites { fuuids: texts(&["a"]), batch_no: None, done: None }
    );
    assert_eq!(
        claim_files(Some(4), Some(false), texts(&["a", "b"])),
        RequeteFuuidsVisites { fuuids: texts(&["a", "b"]), batch_no: Some(4), done: Some(false) }
    );
}

#[test]
fn claim_goes_through_when_the_registry_says_ok() {
    let answer = |ok: bool| RequeteGetVisitesFuuidsResponse {
        ok,
        err: None,
        visits: Some(vec![RowFuuidVisit { fuuid: text("f"), visits: vec![(text("host"), 12)] }]),
        unknown: Some(texts(&["g"])),
    };
    assert_eq!(claim_response(Some(answer(true))), Ok(answer(true)));
    assert_eq!(claim_response(Some(answer(false))), Err(ClaimError::Refused));
    assert_eq!(claim_response(None), Err(ClaimError::BadResponse));
}

const DAY: i64 = 86_400_000;

fn at(day: i64, hour: i64, minute: i64, second: i64) -> i64 {
    day * DAY + hour * 3_600_000 + minute * 60_000 + second * 1_000
}

#[test]
fn time_of_day_is_universal_time() {
    assert_eq!(time_of_day(0), (0, 0));
    assert_eq!(time_of_day(at(19_000, 9, 39, 0)), (9, 39));
    assert_eq!(time_of_day(at(19_000, 9, 39, 59) + 999), (9, 39));
    assert_eq!(time_of_day(at(19_000, 23, 59, 59)), (23, 59));
    assert_eq!(time_of_day(-1), (23, 59));
    assert_eq!(time_of_day(-DAY), (0, 0));
    assert_eq!(time_of_day(at(-3, 9, 39, 0)), (9, 39));
    assert_eq!(time_of_day(1_700_000_000_000), (22, 13));
}

#[test]
fn tick_older_than_ninety_seconds_is_stale() {
    let now = at(19_000, 9, 40, 0);
    assert!(!tick_is_stale(now, now));
    assert!(!tick_is_stale(now - 90_000, now));
    assert!(tick_is_stale(now - 90_001, now));
    assert!(!tick_is_stale(now + 5_000, now));
    assert!(!tick_is_stale(i64::MIN, i64::MIN + 5));
    assert!(tick_is_stale(i64::MIN, i64::MIN + 90_001));
}

#[test]
fn sweep_is_due_at_nine_thirty_nine() {
    let tick = at(19_000, 9, 39, 0);
    assert!(sweep_due(false, tick, tick + 2_000));
    assert!(sweep_due(false, tick + 59_999, tick + 60_000));
    assert!(!sweep_due(true, tick, tick + 2_000));
    assert!(!sweep_due(false, tick, tick + 90_001));
    assert!(!sweep_due(false, tick - 1, tick));
    assert!(!sweep_due(false, tick + 60_000, tick + 60_000));
    assert!(!sweep_due(false, at(19_000, 21, 39, 0), at(19_000, 21, 39, 0)));
}

#[test]
fn ticker_claims_at_the_time_of_the_sweep_only() {
    let mut store = Store::new();
    store.data_items.push(item("F", "a", Some(numbered(230))));
    let tick = at(19_000, 9, 39, 0);
    let claims = consume_ticker(&store, false, tick, tick + 1_000);
    assert_eq!(claims.len(), 3);
    assert_eq!(claims[2].fuuids.len(), 30);
    assert!(consume_ticker(&store, true, tick, tick + 1_000).is_empty());
    assert!(consume_ticker(&store, false, tick, tick + 100_000).is_empty());
    assert!(consume_ticker(&store, false, tick + 60_000, tick + 60_000).is_empty());
    let manager = DataCollectorDomainManager::new();
    assert_eq!(manager.traiter_cedule(&store, false, tick, tick).len(), 3);
    assert!(manager.traiter_cedule(&store, true, tick, tick).is_empty());
}

#[test]
fn keys_are_asked_for_once_each() {
    assert_eq!(
        dedup_texts(&texts(&["b", "a", "b", "c", "a", "b"])),
        texts(&["b", "a", "c"])
    );
    assert!(dedup_texts(&vec![]).is_empty());
    assert_eq!(
        get_encrypted_keys(&texts(&["k1", "k2", "k1"]), Some(texts(&["pem"]))),
        RequeteDechiffrage {
            domaine: text("DataCollector"),
            cle_ids: texts(&["k1", "k2"]),
            certificat_rechiffrage: Some(texts(&["pem"])),
        }
    );
    assert_eq!(get_encrypted_keys(&vec![], None).certificat_rechiffrage, None);
}

#[test]
fn keys_are_fetched_only_if_there_is_one() {
    assert_eq!(fetch_decryption_keys(&vec![], texts(&["pem"])), None);
    assert_eq!(
        fetch_decryption_keys(&texts(&["k", "k"]), texts(&["pem"])),
        Some(RequeteDechiffrage {
            domaine: text("DataCollector"),
            cle_ids: texts(&["k"]),
            certificat_rechiffrage: Some(texts(&["pem"])),
        })
    );
}

#[test]
fn decrypted_keys_need_an_answer_that_says_ok_and_holds_keys() {
    let answer = |ok: bool, cles: Option<Vec<String>>| {
        Some(ReponseRequeteDechiffrageV2 { ok, err: None, cles })
    };
    assert_eq!(get_decrypted_keys(answer(true, Some(texts(&["key"])))), Ok(texts(&["key"])));
    assert_eq!(get_decrypted_keys(answer(true, None)), Err(KeyError::NoKeys));
    assert_eq!(get_decrypted_keys(answer(false, Some(texts(&["key"])))), Err(KeyError::Refused));
    assert_eq!(get_decrypted_keys(None), Err(KeyError::BadResponse));
}

#[test]
fn key_in_safekeeping_needs_no_reply() {
    assert_eq!(transmit_attached_key(&EscrowOutcome::Saved), None);
    assert_eq!(
        transmit_attached_key(&EscrowOutcome::Timeout),
        Some(Reply::error(1, "Timeout"))
    );
    assert_eq!(
        transmit_attached_key(&EscrowOutcome::Refused { message: None, err: None }),
        Some(Reply { ok: false, code: Some(3), err: None, message: None })
    );
    assert_eq!(DOMAINE_NOM_MAITREDESCLES, "MaitreDesCles");
    assert_eq!(COMMANDE_AJOUTER_CLE_DOMAINES, "ajouterCleDomaines");
    assert_eq!(KEYMASTER_TIMEOUT, 3_000);
}

#[test]
fn indices_are_declared_as_the_collections_need_them() {
    let indices = prepare_mongodb_index();
    let table: Vec<(String, String, bool, Vec<(String, i32)>)> = indices
        .into_iter()
        .map(|i| {
            (
                i.collection,
                i.options.nom_index.unwrap(),
                i.options.unique,
                i.champs.into_iter().map(|c| (c.nom_champ, c.direction)).collect(),
            )
        })
        .collect();
    let champ = |name: &str, direction: i32| (text(name), direction);
    let expected = vec![
        (text("DataCollector/feeds"), text("feed_id_uniq"), true, vec![champ("feed_id", 1)]),
        (
            text("DataCollector/data/DataCollector"),
            text("datacollector_data_id_uniq"),
            true,
            vec![champ("data_id", 1), champ("feed_id", 1)],
        ),
        (
            text("DataCollector/volatile/files"),
            text("correlation_id_uniq"),
            true,
            vec![champ("correlation", 1)],
        ),
        (text("DataCollector/source/DataFiles"), text("data_id_uniq"), true, vec![champ("data_id", 1)]),
        (
            text("DataCollector/source/DataFiles"),
            text("date_feed"),
            false,
            vec![champ("save_date", 1), champ("feed_id", 1)],
        ),
        (
            text("DataCollector/feeds/views"),
            text("feed_view_id_uniq"),
            true,
            vec![champ("feed_view_id", 1)],
        ),
        (
            text("DataCollector/view/Dated"),
            text("data_id_uniq"),
            true,
            vec![champ("data_id", 1), champ("feed_view_id", 1)],
        ),
        (
            text("DataCollector/view/Dated"),
            text("pubdate_desc"),
            false,
            vec![champ("pub_date", -1), champ("feed_view_id", 1)],
        ),
        (
            text("DataCollector/view/GroupedDated"),
            text("data_id_uniq"),
            true,
            vec![champ("data_id", 1), champ("feed_view_id", 1)],
        ),
        (
            text("DataCollector/view/GroupedDated"),
            text("pubdate_desc_group"),
            false,
            vec![champ("pub_date", -1), champ("feed_view_id", 1), champ("group_id", 1)],
        ),
    ];
    assert_eq!(table, expected);
}

#[test]
fn queues_are_bound_to_every_action() {
    let manager = DataCollectorDomainManager::new();
    let queues = setup_queues(&manager);
    assert_eq!(queues, manager.preparer_queues());
    assert_eq!(queues.len(), 2);
    assert_eq!(queues[1], QueueType::Triggers(text("DataCollector"), Securite::L3Protege));
    match &queues[0] {
        QueueType::ExchangeQueue(queue) => {
            assert_eq!(queue.nom_queue, "DataCollector/volatiles");
            assert!(queue.durable);
            assert!(!queue.autodelete);
            assert_eq!(queue.ttl, QueueTtl::Default);
            let bindings: Vec<(&str, Securite)> =
                queue.routing_keys.iter().map(|b| (b.routing_key.as_str(), b.exchange)).collect();
            assert_eq!(
                bindings,
                vec![
                    ("requete.DataCollector.getFeedsForScraper", Securite::L1Public),
                    ("requete.DataCollector.checkExistingDataIds", Securite::L1Public),
                    ("requete.DataCollector.getFuuidsVolatile", Securite::L1Public),
                    ("requete.DataCollector.getFeeds", Securite::L2Prive),
                    ("requete.DataCollector.getFeedViews", Securite::L2Prive),
                    ("requete.DataCollector.getDataItemsMostRecent", Securite::L2Prive),
                    ("requete.DataCollector.getDataItemsDateRange", Securite::L2Prive),
                    ("requete.DataCollector.getFeedData", Securite::L3Protege),
                    ("requete.DataCollector.getFeedViewData", Securite::L3Protege),
                    ("commande.DataCollector.saveDataItem", Securite::L1Public),
                    ("commande.DataCollector.saveDataItemV2", Securite::L1Public),
                    ("commande.DataCollector.addFuuidsVolatile", Securite::L1Public),
                    ("commande.DataCollector.createFeed", Securite::L2Prive),
                    ("commande.DataCollector.updateFeed", Securite::L2Prive),
                    ("commande.DataCollector.deleteFeed", Securite::L2Prive),
                    ("commande.DataCollector.createFeedView", Securite::L2Prive),
                    ("commande.DataCollector.updateFeedView", Securite::L2Prive),
                    ("commande.DataCollector.processView", Securite::L2Prive),
                    ("commande.DataCollector.insertViewData", Securite::L3Protege),
                ]
            );
        }
        other => panic!("no queue of messages: {:?}", other),
    }
}

#[test]
fn manager_names_the_domain() {
    let manager = DataCollectorDomainManager::new();
    assert_eq!(manager.get_nom_domaine(), "DataCollector");
    assert_eq!(manager.get_q_volatils(), "DataCollector/volatiles");
    assert_eq!(manager.get_q_triggers(), "DataCollector/triggers");
    assert_eq!(manager.get_collection_transactions(), Some(text("DataCollector")));
    assert!(manager.get_collections_volatiles().is_empty());
    assert!(manager.reclame_fuuids());
    assert_eq!(DOMAIN_NAME, "DataCollector");
}

#[test]
fn rows_are_read_by_date_and_by_place_where_the_dates_are_the_same() {
    let dates = vec![Some(5), None, Some(9), Some(5), Some(-1), None, Some(9)];
    assert_eq!(sort_order(&dates, false), vec![1, 5, 4, 0, 3, 2, 6]);
    assert_eq!(sort_order(&dates, true), vec![2, 6, 0, 3, 4, 1, 5]);
    assert!(sort_order(&vec![], true).is_empty());
    assert_eq!(sort_order(&vec![None, None, None], true), vec![0, 1, 2]);
    assert!(is_before(None, Some(i64::MIN), false));
    assert!(is_before(Some(2), Some(1), true));
    assert!(!is_before(Some(1), Some(1), true));
    assert!(!is_before(None, None, false));
}

#[test]
fn pages_start_and_end_among_the_rows() {
    assert_eq!(page_range(10, None, None), (0, 10));
    assert_eq!(page_range(120, None, None), (0, 50));
    assert_eq!(page_range(120, Some(100), None), (100, 120));
    assert_eq!(page_range(120, Some(120), Some(5)), (120, 120));
    assert_eq!(page_range(120, Some(u64::MAX), Some(5)), (120, 120));
    assert_eq!(page_range(120, Some(7), Some(5)), (7, 12));
    assert_eq!(page_range(120, Some(7), Some(0)), (7, 120));
    assert_eq!(page_range(120, Some(7), Some(-5)), (7, 12));
    assert_eq!(page_range(120, None, Some(i64::MIN)), (0, 120));
    assert_eq!(page_range(120, None, Some(i64::MAX)), (0, 120));
    assert_eq!(page_range(0, None, None), (0, 0));
    assert_eq!(paged(&vec![4, 8, 15, 16, 23, 42], Some(2), Some(3)), vec![15, 16, 23]);
    assert_eq!(capped_count(999), 999);
    assert_eq!(capped_count(1_000), 1_000);
    assert_eq!(capped_count(1_001), 1_000);
}

#[test]
fn store_knows_whether_its_indices_hold() {
    let feed = |feed_id: &str| DataFeedRow {
        feed_id: text(feed_id),
        feed_type: text("rss"),
        security_level: text("1.public"),
        domain: text("News"),
        poll_rate: None,
        active: None,
        decrypt_in_database: None,
        encrypted_feed_information: EncryptedDocument { cle_id: None, content: text("") },
        user_id: None,
        created_at: 0,
        modified_at: 0,
        deleted: false,
        deleted_at: None,
    };
    let mut store = Store::new();
    assert!(store.is_well_formed());
    store.feeds.push(feed("a"));
    store.feeds.push(feed("b"));
    assert!(store.is_well_formed());
    store.feeds.push(feed("a"));
    assert!(!store.is_well_formed());
    store.feeds.pop();
    store.feeds[1].deleted = true;
    assert!(!store.is_well_formed());
    store.feeds[1].deleted_at = Some(3);
    assert!(store.is_well_formed());
    store.data_items.push(item("F", "d", None));
    store.data_items.push(item("G", "d", None));
    assert!(store.is_well_formed());
    store.data_items.push(item("G", "d", Some(vec![])));
    assert!(!store.is_well_formed());
    assert!(store.holds_data_item(&DataCollectorRowIds { data_id: "d", feed_id: "G" }));
    assert!(!store.holds_data_item(&DataCollectorRowIds { data_id: "G", feed_id: "d" }));
    assert!(!store.holds_data_item(&DataCollectorRowIds { data_id: "d", feed_id: "H" }));
}

#[test]
fn certificate_checks() {
    let certificate = Certificate {
        user_id: None,
        private_user_account: true,
        roles: texts(&["web_scraper", "other"]),
        exchanges: vec![Securite::L2Prive, Securite::L4Secure],
        global_owner: false,
        chaine_pem: vec![],
    };
    assert!(certificate.has_role("other"));
    assert!(!certificate.has_role("web_scrape"));
    assert!(certificate.has_exchange(Securite::L4Secure));
    assert!(!certificate.has_exchange(Securite::L1Public));
    assert!(certificate.is_admitted());
    assert!(!certificate.is_scraper());
    assert!(!certificate.is_mapper());
    assert_eq!(
        certificate.scraper_refusal(),
        Some(Reply::error(401, "Access denied - invalid security level"))
    );
    assert_eq!(
        certificate.mapper_refusal(),
        Some(Reply::error(401, "Access denied - invalid role"))
    );
    let lone = Certificate { exchanges: vec![], ..certificate.clone() };
    assert!(!lone.is_admitted());
    assert!(Certificate { user_id: Some(text("u")), ..lone.clone() }.is_admitted());
    assert!(Certificate { global_owner: true, ..lone.clone() }.is_admitted());
    assert_eq!(Certificate { user_id: Some(text("u")), ..lone.clone() }.write_scope(), Some(text("u")));
    assert_eq!(
        Certificate { user_id: Some(text("u")), global_owner: true, ..lone.clone() }.write_scope(),
        None
    );
    let mapper = Certificate {
        roles: texts(&["datasource_mapper"]),
        exchanges: vec![Securite::L3Protege],
        ..lone
    };
    assert!(mapper.is_mapper());
    assert_eq!(mapper.mapper_refusal(), None);
    assert_eq!(mapper.clone(), mapper);
}

#[test]
fn texts_are_compared_by_their_characters() {
    assert!(same_text("", ""));
    assert!(same_text("é", "é"));
    assert!(!same_text("a", "A"));
    assert!(same_optional_text(&None, &None));
    assert!(!same_optional_text(&Some(text("")), &None));
    assert!(contains_text(&texts(&["a", "b"]), "b"));
    assert!(!contains_text(&texts(&["a", "b"]), "ab"));
    assert_eq!(copy_texts(&texts(&["a", "b"])), texts(&["a", "b"]));
}

#[test]
fn kinds_of_view_data_have_their_collections() {
    assert_eq!(ViewDataType::Dated.collection_name(), "DataCollector/view/Dated");
    assert_eq!(ViewDataType::GroupedDated.collection_name(), "DataCollector/view/GroupedDated");
}

#[test]
fn file_with_what_it_takes_to_read_it_is_copied_whole() {
    let file = FileItemV2 {
        fuuid: text("f"),
        format: text("mgs4"),
        cle_id: Some(text("k")),
        compression: None,
        nonce: Some(text("n")),
    };
    assert_eq!(file.clone(), file);
}

#[test]
fn messages_to_other_services_go_where_they_belong() {
    let to = |domaine: &str, action: &str, exchange: Securite, timeout: Option<u64>| {
        RoutageMessageAction {
            domaine: text(domaine),
            action: text(action),
            exchange,
            timeout_blocking: timeout,
        }
    };
    assert_eq!(
        escrow_routage(),
        to("MaitreDesCles", "ajouterCleDomaines", Securite::L1Public, Some(3_000))
    );
    assert_eq!(claim_files_routage(), to("CoreTopologie", "claimFiles", Securite::L3Protege, None));
    assert_eq!(
        SideEffect::ClaimAndVisit { fuuids: vec![] }.routage(),
        to("CoreTopologie", "claimAndFilehostVisits", Securite::L3Protege, None)
    );
    assert_eq!(
        SideEffect::FeedDataUpdated { feed_id: text("F") }.routage(),
        to("DataCollector", "feedDataUpdated", Securite::L3Protege, None)
    );
    assert_eq!(
        SideEffect::ProcessFeedView { feed_id: text("F"), feed_view_id: text("V") }.routage(),
        to("datasource_mapper", "processFeedView", Securite::L3Protege, Some(5_000))
    );
    assert_eq!(MAPPER_TIMEOUT, 5_000);
}

#[test]
fn keys_come_with_four_commands() {
    for action in ["createFeed", "saveDataItem", "saveDataItemV2", "createFeedView"] {
        assert!(command_escrows_key(action));
    }
    for action in [
        "updateFeed",
        "deleteFeed",
        "restoreFeed",
        "updateFeedView",
        "addFuuidsVolatile",
        "processView",
        "insertViewData",
        "",
    ] {
        assert!(!command_escrows_key(action));
    }
}

#[test]
fn events_are_held_to_the_rules_of_every_message() {
    let event = |kind: MessageKind, exchanges: Vec<Securite>| MessageValide {
        id: text("e"),
        estampille: 0,
        kind,
        action: text("feedDataUpdated"),
        certificat: Certificate {
            user_id: None,
            private_user_account: false,
            roles: vec![],
            exchanges,
            global_owner: false,
            chaine_pem: vec![],
        },
        contenu: Contenu::Empty,
        attached_key: None,
    };
    let known = event(MessageKind::Evenement, vec![Securite::L3Protege]);
    assert_eq!(consume_event(true, &known), Ok(Reply::error(503, "System rebuild in progress")));
    assert_eq!(consume_event(false, &known), Ok(Reply::error(99, "Unknown event")));
    assert_eq!(
        consume_event(false, &event(MessageKind::Evenement, vec![])),
        Err(Failure::AccessDenied)
    );
    assert_eq!(
        consume_event(false, &event(MessageKind::Commande, vec![Securite::L3Protege])),
        Err(Failure::BadMessageType)
    );
    let manager = DataCollectorDomainManager::new();
    assert_eq!(manager.consommer_evenement(false, &known), consume_event(false, &known));
}

#[test]
fn key_is_in_safekeeping_when_the_key_master_says_ok() {
    assert_eq!(escrow_answer(Some(true), None, None), EscrowOutcome::Saved);
    assert_eq!(
        escrow_answer(Some(true), Some(text("kept")), Some(text("none"))),
        EscrowOutcome::Saved
    );
    assert_eq!(
        escrow_answer(Some(false), Some(text("no")), Some(text("bad key"))),
        EscrowOutcome::Refused { message: Some(text("no")), err: Some(text("bad key")) }
    );
    assert_eq!(
        escrow_answer(None, None, Some(text("silent"))),
        EscrowOutcome::Refused { message: None, err: Some(text("silent")) }
    );
}

#[test]
fn store_knows_whether_a_volatile_file_expires_before_it_was_created() {
    let file = |expiration: i64, created: i64| VolatileFileRow {
        correlation: text("c"),
        fuuid: text("f"),
        format: text("mgs4"),
        cle_id: text("k"),
        nonce: None,
        compression: None,
        expiration,
        created,
        modified: created,
    };
    let mut store = Store::new();
    store.volatile_files.push(file(10, 10));
    assert!(store.is_well_formed());
    store.volatile_files[0] = file(9, 10);
    assert!(!store.is_well_formed());
    store.volatile_files[0] = file(11, 10);
    assert!(store.is_well_formed());
}
