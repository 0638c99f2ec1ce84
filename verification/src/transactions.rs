//! What each transaction does to the collections.
//!
//! Applying a transaction is the only way in which feeds, views and data
//! items change. It depends on the transaction, on the claims that it
//! carries and on the time alone, and a transaction that fails leaves every
//! collection as it was.

use vstd::prelude::*;
use vstd::string::StringExecFns;
use crate::certificate::Securite;
use crate::constants::{
    lemma_transaction_names_differ, ROLE_WEB_SCRAPER, TRANSACTION_CREATE_FEED,
    TRANSACTION_CREATE_FEED_VIEW, TRANSACTION_DELETE_FEED, TRANSACTION_RESTORE_FEED,
    TRANSACTION_SAVE_DATA_ITEM, TRANSACTION_SAVE_DATA_ITEM_V2, TRANSACTION_UPDATE_FEED,
    TRANSACTION_UPDATE_FEED_VIEW,
};
use crate::data_mongodb::{
    DataCollectorFilesRow, DataCollectorRow, DataFeedRow, DataFeedRowSpec, FeedViewRow,
    FeedViewRowSpec,
};
use crate::messages::{Contenu, ContenuSpec, MessageValide, MessageValideSpec};
use crate::store::{
    distinct_keys, holds_key, insert_unique, lemma_inserted_distinct, position, Keyed, Store,
    StoreSpec,
};
use crate::text::{copy_text, same_optional_text, same_text};
use crate::transactions_struct::{
    CreateFeedTransaction, CreateFeedTransactionSpec, CreateFeedViewTransaction,
    CreateFeedViewTransactionSpec, SaveDataItemTransaction, SaveDataItemTransactionSpec,
    SaveDataItemTransactionV2, SaveDataItemTransactionV2Spec, UpdateFeedTransaction,
    UpdateFeedTransactionSpec, UpdateFeedViewTransaction, UpdateFeedViewTransactionSpec,
};

verus! {

/// Why a transaction was not applied.
#[derive(Clone, Copy, Debug, PartialEq, Eq, Structural)]
pub enum ApplyError {
    /// The action is none that changes the collections.
    UnknownAction,
    /// The content is not what the action calls for.
    Malformed,
    /// The certificate names no user.
    MissingUserId,
    /// The sender is no scraper: the role is missing.
    InvalidRole,
    /// The sender is no scraper: the public exchange is missing.
    InvalidSecurity,
    /// A unique index refuses the row.
    Duplicate,
    /// No view is the one that the update names.
    NoMatch,
}

/// What the error says.
pub open spec fn apply_error_text(e: ApplyError) -> Seq<char> {
    match e {
        ApplyError::UnknownAction => "Transaction of a type that is not handled"@,
        ApplyError::Malformed => "Transaction content does not match its action"@,
        ApplyError::MissingUserId => "User_id missing from certificate"@,
        ApplyError::InvalidRole => "Invalid role"@,
        ApplyError::InvalidSecurity => "Invalid security"@,
        ApplyError::Duplicate => "Duplicate key"@,
        ApplyError::NoMatch => "Update had no effect (no match)"@,
    }
}

impl ApplyError {
    /// What the error says.
    pub fn to_text(&self) -> (r: String)
        ensures
            r@ == apply_error_text(*self),
    {
        match self {
            ApplyError::UnknownAction => String::from_str(
                "Transaction of a type that is not handled",
            ),
            ApplyError::Malformed => String::from_str(
                "Transaction content does not match its action",
            ),
            ApplyError::MissingUserId => String::from_str("User_id missing from certificate"),
            ApplyError::InvalidRole => String::from_str("Invalid role"),
            ApplyError::InvalidSecurity => String::from_str("Invalid security"),
            ApplyError::Duplicate => String::from_str("Duplicate key"),
            ApplyError::NoMatch => String::from_str("Update had no effect (no match)"),
        }
    }
}

/// The collections after a transaction, and whether it was applied.
pub type Applied = (StoreSpec, Result<(), ApplyError>);

/// The feed that a transaction creates: its id is the transaction's, its
/// owner the sender, or no one where the sender is the global owner.
pub open spec fn created_feed(tx: MessageValideSpec, c: CreateFeedTransactionSpec, now: i64)
    -> DataFeedRowSpec {
    DataFeedRowSpec {
        feed_id: tx.id,
        feed_type: c.feed_type,
        security_level: c.security_level,
        domain: c.domain,
        poll_rate: c.poll_rate,
        active: c.active,
        decrypt_in_database: c.decrypt_in_database,
        encrypted_feed_information: c.encrypted_feed_information,
        user_id: tx.certificat.write_scope(),
        created_at: tx.estampille,
        modified_at: now,
        deleted: false,
        deleted_at: None,
    }
}

/// A change to the feeds that fall under an owner.
pub ghost enum FeedChange {
    Update(UpdateFeedTransactionSpec, i64),
    Delete(i64),
    Restore,
}

/// A feed after a change. An update replaces the security level and the
/// private information where it brings them, and the rate, the activity and
/// the decryption flag in any case.
pub open spec fn changed_feed(f: DataFeedRowSpec, change: FeedChange) -> DataFeedRowSpec {
    match change {
        FeedChange::Update(c, now) => DataFeedRowSpec {
            security_level: match c.security_level {
                Some(level) => level,
                None => f.security_level,
            },
            poll_rate: c.poll_rate,
            active: c.active,
            decrypt_in_database: c.decrypt_in_database,
            encrypted_feed_information: match c.encrypted_feed_information {
                Some(information) => information,
                None => f.encrypted_feed_information,
            },
            modified_at: now,
            ..f
        },
        FeedChange::Delete(now) => DataFeedRowSpec { deleted: true, deleted_at: Some(now), ..f },
        FeedChange::Restore => DataFeedRowSpec { deleted: false, deleted_at: None, ..f },
    }
}

/// The feeds after a change to the feed of the given id under the given
/// owner (`None` for the system). Every other feed stays as it is.
pub open spec fn feeds_changed(
    feeds: Seq<DataFeedRowSpec>,
    feed_id: Seq<char>,
    owner: Option<Seq<char>>,
    change: FeedChange,
) -> Seq<DataFeedRowSpec> {
    Seq::new(
        feeds.len(),
        |i: int|
            if feeds[i].in_scope(feed_id, owner) {
                changed_feed(feeds[i], change)
            } else {
                feeds[i]
            },
    )
}

/// The view that a transaction creates: its id is the transaction's, and it
/// is neither ready nor deleted.
pub open spec fn created_feed_view(
    tx: MessageValideSpec,
    c: CreateFeedViewTransactionSpec,
    now: i64,
) -> FeedViewRowSpec {
    FeedViewRowSpec {
        feed_view_id: tx.id,
        feed_id: c.feed_id,
        encrypted_data: c.encrypted_data,
        name: c.name,
        active: c.active,
        decrypted: c.decrypted,
        data_type: None,
        mapping_code: c.mapping_code,
        creation_date: tx.estampille,
        modification_date: now,
        deleted: false,
        ready: false,
        processing_start_date: None,
    }
}

/// A view after an update.
pub open spec fn updated_feed_view(v: FeedViewRowSpec, c: UpdateFeedViewTransactionSpec, now: i64)
    -> FeedViewRowSpec {
    FeedViewRowSpec {
        encrypted_data: c.encrypted_data,
        name: c.name,
        active: c.active,
        decrypted: c.decrypted,
        mapping_code: c.mapping_code,
        modification_date: now,
        ..v
    }
}

/// Whether a view is the one that an update names: by its id and by the
/// feed that it is over.
pub open spec fn view_named(v: FeedViewRowSpec, c: UpdateFeedViewTransactionSpec) -> bool {
    v.feed_view_id == c.feed_view_id && v.feed_id == c.feed_id
}

/// `createFeed`: the sender, who must be a user, has a feed of the id of
/// the transaction; a second feed of one id is refused.
pub open spec fn apply_create_feed(
    s: StoreSpec,
    tx: MessageValideSpec,
    c: CreateFeedTransactionSpec,
    now: i64,
) -> Applied {
    let row = created_feed(tx, c, now);
    if tx.certificat.user_id is None {
        (s, Err(ApplyError::MissingUserId))
    } else if holds_key::<DataFeedRow>(s.feeds, (tx.id, None)) {
        (s, Err(ApplyError::Duplicate))
    } else {
        (StoreSpec { feeds: s.feeds.push(row), ..s }, Ok(()))
    }
}

/// A change of feeds goes through whether or not a feed falls under the
/// sender: where none does, nothing changes and nothing is reported.
pub open spec fn apply_feed_change(
    s: StoreSpec,
    tx: MessageValideSpec,
    feed_id: Seq<char>,
    change: FeedChange,
) -> Applied {
    if tx.certificat.user_id is None {
        (s, Err(ApplyError::MissingUserId))
    } else {
        (
            StoreSpec {
                feeds: feeds_changed(s.feeds, feed_id, tx.certificat.write_scope(), change),
                ..s
            },
            Ok(()),
        )
    }
}

/// What is held against a sender that is no scraper, the role first.
pub open spec fn scraper_fault(tx: MessageValideSpec) -> Option<ApplyError> {
    if !tx.certificat.has_role(ROLE_WEB_SCRAPER@) {
        Some(ApplyError::InvalidRole)
    } else if !tx.certificat.has_exchange(Securite::L1Public) {
        Some(ApplyError::InvalidSecurity)
    } else {
        None
    }
}

/// `saveDataItem`: a scraper has a data item saved; a second item of one
/// id in one feed is refused.
pub open spec fn apply_save_data_item(
    s: StoreSpec,
    tx: MessageValideSpec,
    c: SaveDataItemTransactionSpec,
) -> Applied {
    match scraper_fault(tx) {
        Some(e) => (s, Err(e)),
        None => if holds_key::<DataCollectorRow>(s.data_items, (c.data_id, Some(c.feed_id))) {
            (s, Err(ApplyError::Duplicate))
        } else {
            (StoreSpec { data_items: s.data_items.push(c.row()), ..s }, Ok(()))
        },
    }
}

/// `saveDataItemV2`: a scraper has a data file saved; a second file of one
/// id is refused, in whatever feed.
pub open spec fn apply_save_data_item_v2(
    s: StoreSpec,
    tx: MessageValideSpec,
    c: SaveDataItemTransactionV2Spec,
) -> Applied {
    match scraper_fault(tx) {
        Some(e) => (s, Err(e)),
        None => if holds_key::<DataCollectorFilesRow>(s.data_files, (c.data_id, None)) {
            (s, Err(ApplyError::Duplicate))
        } else {
            (StoreSpec { data_files: s.data_files.push(c.row()), ..s }, Ok(()))
        },
    }
}

/// `createFeedView`: a view of the id of the transaction is added; a second
/// view of one id is refused.
pub open spec fn apply_create_feed_view(
    s: StoreSpec,
    tx: MessageValideSpec,
    c: CreateFeedViewTransactionSpec,
    now: i64,
) -> Applied {
    if holds_key::<FeedViewRow>(s.feed_views, (tx.id, None)) {
        (s, Err(ApplyError::Duplicate))
    } else {
        (StoreSpec { feed_views: s.feed_views.push(created_feed_view(tx, c, now)), ..s }, Ok(()))
    }
}

/// The views after an update: the one that it names is changed, every other
/// stays as it is.
pub open spec fn views_updated(
    views: Seq<FeedViewRowSpec>,
    c: UpdateFeedViewTransactionSpec,
    now: i64,
) -> Seq<FeedViewRowSpec> {
    Seq::new(
        views.len(),
        |i: int|
            if view_named(views[i], c) {
                updated_feed_view(views[i], c, now)
            } else {
                views[i]
            },
    )
}

/// `updateFeedView`: the view that the update names is changed; where there
/// is none, the update fails.
pub open spec fn apply_update_feed_view(
    s: StoreSpec,
    c: UpdateFeedViewTransactionSpec,
    now: i64,
) -> Applied {
    if exists|i: int| 0 <= i < s.feed_views.len() && view_named(#[trigger] s.feed_views[i], c) {
        (StoreSpec { feed_views: views_updated(s.feed_views, c, now), ..s }, Ok(()))
    } else {
        (s, Err(ApplyError::NoMatch))
    }
}

/// The collections after a transaction, and whether it was applied: by the
/// action of the transaction, on the content that the action calls for.
pub open spec fn apply(s: StoreSpec, tx: MessageValideSpec, now: i64) -> Applied {
    if tx.action == TRANSACTION_CREATE_FEED@ {
        match tx.contenu {
            ContenuSpec::CreateFeed(c) => apply_create_feed(s, tx, c, now),
            _ => (s, Err(ApplyError::Malformed)),
        }
    } else if tx.action == TRANSACTION_UPDATE_FEED@ {
        match tx.contenu {
            ContenuSpec::UpdateFeed(c) => apply_feed_change(
                s,
                tx,
                c.feed_id,
                FeedChange::Update(c, now),
            ),
            _ => (s, Err(ApplyError::Malformed)),
        }
    } else if tx.action == TRANSACTION_DELETE_FEED@ {
        match tx.contenu {
            ContenuSpec::DeleteFeed(c) => apply_feed_change(
                s,
                tx,
                c.feed_id,
                FeedChange::Delete(now),
            ),
            _ => (s, Err(ApplyError::Malformed)),
        }
    } else if tx.action == TRANSACTION_RESTORE_FEED@ {
        match tx.contenu {
            ContenuSpec::RestoreFeed(c) => apply_feed_change(s, tx, c.feed_id, FeedChange::Restore),
            _ => (s, Err(ApplyError::Malformed)),
        }
    } else if tx.action == TRANSACTION_SAVE_DATA_ITEM@ {
        match tx.contenu {
            ContenuSpec::SaveDataItem(c) => apply_save_data_item(s, tx, c),
            _ => (s, Err(ApplyError::Malformed)),
        }
    } else if tx.action == TRANSACTION_SAVE_DATA_ITEM_V2@ {
        match tx.contenu {
            ContenuSpec::SaveDataItemV2(c) => apply_save_data_item_v2(s, tx, c),
            _ => (s, Err(ApplyError::Malformed)),
        }
    } else if tx.action == TRANSACTION_CREATE_FEED_VIEW@ {
        match tx.contenu {
            ContenuSpec::CreateFeedView(c) => apply_create_feed_view(s, tx, c, now),
            _ => (s, Err(ApplyError::Malformed)),
        }
    } else if tx.action == TRANSACTION_UPDATE_FEED_VIEW@ {
        match tx.contenu {
            ContenuSpec::UpdateFeedView(c) => apply_update_feed_view(s, c, now),
            _ => (s, Err(ApplyError::Malformed)),
        }
    } else {
        (s, Err(ApplyError::UnknownAction))
    }
}

/// A changed feed has the key that it had.
pub proof fn lemma_feeds_changed_keys(
    feeds: Seq<DataFeedRowSpec>,
    feed_id: Seq<char>,
    owner: Option<Seq<char>>,
    change: FeedChange,
)
    ensures
        feeds_changed(feeds, feed_id, owner, change).len() == feeds.len(),
        forall|i: int|
            0 <= i < feeds.len() ==> DataFeedRow::key_of(
                #[trigger] feeds_changed(feeds, feed_id, owner, change)[i],
            ) == DataFeedRow::key_of(feeds[i]),
        distinct_keys::<DataFeedRow>(feeds) ==> distinct_keys::<DataFeedRow>(
            feeds_changed(feeds, feed_id, owner, change),
        ),
{
    let after = feeds_changed(feeds, feed_id, owner, change);
    if distinct_keys::<DataFeedRow>(feeds) {
        assert forall|i: int, j: int| 0 <= i < j < after.len() implies DataFeedRow::key_of(
            #[trigger] after[i],
        ) != DataFeedRow::key_of(#[trigger] after[j]) by {
            assert(DataFeedRow::key_of(after[i]) == DataFeedRow::key_of(feeds[i]));
            assert(DataFeedRow::key_of(after[j]) == DataFeedRow::key_of(feeds[j]));
        }
    }
}

/// An updated view has the key that it had.
pub proof fn lemma_views_updated_keys(
    views: Seq<FeedViewRowSpec>,
    c: UpdateFeedViewTransactionSpec,
    now: i64,
)
    ensures
        views_updated(views, c, now).len() == views.len(),
        distinct_keys::<FeedViewRow>(views) ==> distinct_keys::<FeedViewRow>(
            views_updated(views, c, now),
        ),
{
    let after = views_updated(views, c, now);
    if distinct_keys::<FeedViewRow>(views) {
        assert forall|i: int, j: int| 0 <= i < j < after.len() implies FeedViewRow::key_of(
            #[trigger] after[i],
        ) != FeedViewRow::key_of(#[trigger] after[j]) by {
            assert(FeedViewRow::key_of(after[i]) == FeedViewRow::key_of(views[i]));
            assert(FeedViewRow::key_of(after[j]) == FeedViewRow::key_of(views[j]));
        }
    }
}

/// Whatever a transaction does, the unique indices hold after it as they
/// did before, and every deleted feed still says when it was deleted.
pub proof fn lemma_apply_keeps_well_formed(s: StoreSpec, tx: MessageValideSpec, now: i64)
    requires
        s.wf(),
    ensures
        apply(s, tx, now).0.wf(),
{
    let after = apply(s, tx, now).0;
    if after != s {
        if tx.action == TRANSACTION_CREATE_FEED@ {
            if let ContenuSpec::CreateFeed(c) = tx.contenu {
                lemma_inserted_distinct::<DataFeedRow>(s.feeds, created_feed(tx, c, now));
            }
        } else if tx.action == TRANSACTION_UPDATE_FEED@ {
            if let ContenuSpec::UpdateFeed(c) = tx.contenu {
                lemma_feeds_changed_keys(
                    s.feeds,
                    c.feed_id,
                    tx.certificat.write_scope(),
                    FeedChange::Update(c, now),
                );
            }
        } else if tx.action == TRANSACTION_DELETE_FEED@ {
            if let ContenuSpec::DeleteFeed(c) = tx.contenu {
                lemma_feeds_changed_keys(
                    s.feeds,
                    c.feed_id,
                    tx.certificat.write_scope(),
                    FeedChange::Delete(now),
                );
            }
        } else if tx.action == TRANSACTION_RESTORE_FEED@ {
            if let ContenuSpec::RestoreFeed(c) = tx.contenu {
                lemma_feeds_changed_keys(
                    s.feeds,
                    c.feed_id,
                    tx.certificat.write_scope(),
                    FeedChange::Restore,
                );
            }
        } else if tx.action == TRANSACTION_SAVE_DATA_ITEM@ {
            if let ContenuSpec::SaveDataItem(c) = tx.contenu {
                lemma_inserted_distinct::<DataCollectorRow>(s.data_items, c.row());
            }
        } else if tx.action == TRANSACTION_SAVE_DATA_ITEM_V2@ {
            if let ContenuSpec::SaveDataItemV2(c) = tx.contenu {
                lemma_inserted_distinct::<DataCollectorFilesRow>(s.data_files, c.row());
            }
        } else if tx.action == TRANSACTION_CREATE_FEED_VIEW@ {
            if let ContenuSpec::CreateFeedView(c) = tx.contenu {
                lemma_inserted_distinct::<FeedViewRow>(s.feed_views, created_feed_view(tx, c, now));
            }
        } else if tx.action == TRANSACTION_UPDATE_FEED_VIEW@ {
            if let ContenuSpec::UpdateFeedView(c) = tx.contenu {
                lemma_views_updated_keys(s.feed_views, c, now);
            }
        }
    }
}

/// Applies `createFeed`.
pub fn transaction_create_feed(
    store: &mut Store,
    transaction: &MessageValide,
    content: &CreateFeedTransaction,
    now: i64,
) -> (r: Result<(), ApplyError>)
    ensures
        (final(store)@, r) == apply_create_feed(
            old(store)@,
            transaction.deep_view(),
            content.deep_view(),
            now,
        ),
{
    if transaction.certificat.user_id.is_none() {
        return Err(ApplyError::MissingUserId);
    }
    let row = DataFeedRow {
        feed_id: transaction.id.clone(),
        feed_type: content.feed_type.clone(),
        security_level: content.security_level.clone(),
        domain: content.domain.clone(),
        poll_rate: content.poll_rate,
        active: content.active,
        decrypt_in_database: content.decrypt_in_database,
        encrypted_feed_information: content.encrypted_feed_information.clone(),
        user_id: transaction.certificat.write_scope(),
        created_at: transaction.estampille,
        modified_at: now,
        deleted: false,
        deleted_at: None,
    };
    if insert_unique(&mut store.feeds, row) {
        Ok(())
    } else {
        Err(ApplyError::Duplicate)
    }
}

/// Where the feed of the given id stands if it falls under the owner.
fn find_in_scope(feeds: &Vec<DataFeedRow>, feed_id: &str, owner: &Option<String>) -> (r: Option<
    usize,
>)
    requires
        distinct_keys::<DataFeedRow>(feeds.deep_view()),
    ensures
        match r {
            Some(i) => i < feeds.len() && forall|j: int|
                0 <= j < feeds.len() ==> ((#[trigger] feeds.deep_view()[j]).in_scope(
                    feed_id@,
                    owner.deep_view(),
                ) <==> j == i),
            None => forall|j: int|
                0 <= j < feeds.len() ==> !(#[trigger] feeds.deep_view()[j]).in_scope(
                    feed_id@,
                    owner.deep_view(),
                ),
        },
{
    match position(feeds, feed_id, None) {
        Some(i) => {
            assert(feeds.deep_view()[i as int] == feeds[i as int].deep_view());
            assert forall|j: int| 0 <= j < feeds.len() && j != i implies !(
            #[trigger] feeds.deep_view()[j]).in_scope(feed_id@, owner.deep_view()) by {
                if j < i {
                    assert(DataFeedRow::key_of(feeds.deep_view()[j]) != DataFeedRow::key_of(
                        feeds.deep_view()[i as int],
                    ));
                } else {
                    assert(DataFeedRow::key_of(feeds.deep_view()[i as int])
                        != DataFeedRow::key_of(feeds.deep_view()[j]));
                }
            }
            if same_optional_text(&feeds[i].user_id, owner) {
                Some(i)
            } else {
                None
            }
        },
        None => {
            assert forall|j: int| 0 <= j < feeds.len() implies !(
            #[trigger] feeds.deep_view()[j]).in_scope(feed_id@, owner.deep_view()) by {
                assert(DataFeedRow::key_of(feeds.deep_view()[j]) != (feed_id@, None::<Seq<char>>));
            }
            None
        },
    }
}

/// Applies `updateFeed`.
pub fn transaction_update_feed(
    store: &mut Store,
    transaction: &MessageValide,
    content: &UpdateFeedTransaction,
    now: i64,
) -> (r: Result<(), ApplyError>)
    requires
        old(store)@.wf(),
    ensures
        (final(store)@, r) == apply_feed_change(
            old(store)@,
            transaction.deep_view(),
            content.feed_id@,
            FeedChange::Update(content.deep_view(), now),
        ),
{
    if transaction.certificat.user_id.is_none() {
        return Err(ApplyError::MissingUserId);
    }
    let owner = transaction.certificat.write_scope();
    let ghost change = FeedChange::Update(content.deep_view(), now);
    let ghost before = store.feeds.deep_view();
    match find_in_scope(&store.feeds, content.feed_id.as_str(), &owner) {
        Some(i) => {
            let row = &mut store.feeds[i];
            match &content.security_level {
                Some(level) => {
                    row.security_level = level.clone();
                },
                None => {},
            }
            row.poll_rate = content.poll_rate;
            row.active = content.active;
            row.decrypt_in_database = content.decrypt_in_database;
            match &content.encrypted_feed_information {
                Some(information) => {
                    row.encrypted_feed_information = information.clone();
                },
                None => {},
            }
            row.modified_at = now;
        },
        None => {},
    }
    assert(store.feeds.deep_view() =~= feeds_changed(
        before,
        content.feed_id@,
        owner.deep_view(),
        change,
    ));
    Ok(())
}

/// Applies `deleteFeed`: the feed is marked, not removed.
pub fn transaction_delete_feed(
    store: &mut Store,
    transaction: &MessageValide,
    feed_id: &str,
    now: i64,
) -> (r: Result<(), ApplyError>)
    requires
        old(store)@.wf(),
    ensures
        (final(store)@, r) == apply_feed_change(
            old(store)@,
            transaction.deep_view(),
            feed_id@,
            FeedChange::Delete(now),
        ),
{
    if transaction.certificat.user_id.is_none() {
        return Err(ApplyError::MissingUserId);
    }
    let owner = transaction.certificat.write_scope();
    let ghost before = store.feeds.deep_view();
    match find_in_scope(&store.feeds, feed_id, &owner) {
        Some(i) => {
            let row = &mut store.feeds[i];
            row.deleted = true;
            row.deleted_at = Some(now);
        },
        None => {},
    }
    assert(store.feeds.deep_view() =~= feeds_changed(
        before,
        feed_id@,
        owner.deep_view(),
        FeedChange::Delete(now),
    ));
    Ok(())
}

/// Applies `restoreFeed`.
pub fn transaction_restore_feed(store: &mut Store, transaction: &MessageValide, feed_id: &str) -> (r:
    Result<(), ApplyError>)
    requires
        old(store)@.wf(),
    ensures
        (final(store)@, r) == apply_feed_change(
            old(store)@,
            transaction.deep_view(),
            feed_id@,
            FeedChange::Restore,
        ),
{
    if transaction.certificat.user_id.is_none() {
        return Err(ApplyError::MissingUserId);
    }
    let owner = transaction.certificat.write_scope();
    let ghost before = store.feeds.deep_view();
    match find_in_scope(&store.feeds, feed_id, &owner) {
        Some(i) => {
            let row = &mut store.feeds[i];
            row.deleted = false;
            row.deleted_at = None;
        },
        None => {},
    }
    assert(store.feeds.deep_view() =~= feeds_changed(
        before,
        feed_id@,
        owner.deep_view(),
        FeedChange::Restore,
    ));
    Ok(())
}

/// What is held against a sender that is no scraper.
fn check_scraper(transaction: &MessageValide) -> (r: Option<ApplyError>)
    ensures
        r == scraper_fault(transaction.deep_view()),
{
    if !transaction.certificat.has_role(ROLE_WEB_SCRAPER) {
        Some(ApplyError::InvalidRole)
    } else if !transaction.certificat.has_exchange(Securite::L1Public) {
        Some(ApplyError::InvalidSecurity)
    } else {
        None
    }
}

/// Applies `saveDataItem`.
pub fn transaction_save_data_item(
    store: &mut Store,
    transaction: &MessageValide,
    content: &SaveDataItemTransaction,
) -> (r: Result<(), ApplyError>)
    ensures
        (final(store)@, r) == apply_save_data_item(
            old(store)@,
            transaction.deep_view(),
            content.deep_view(),
        ),
{
    match check_scraper(transaction) {
        Some(e) => Err(e),
        None => {
            let row: DataCollectorRow = content.clone().into();
            if insert_unique(&mut store.data_items, row) {
                Ok(())
            } else {
                Err(ApplyError::Duplicate)
            }
        },
    }
}

/// Applies `saveDataItemV2`.
pub fn transaction_save_data_item_v2(
    store: &mut Store,
    transaction: &MessageValide,
    content: &SaveDataItemTransactionV2,
) -> (r: Result<(), ApplyError>)
    ensures
        (final(store)@, r) == apply_save_data_item_v2(
            old(store)@,
            transaction.deep_view(),
            content.deep_view(),
        ),
{
    match check_scraper(transaction) {
        Some(e) => Err(e),
        None => {
            let row: DataCollectorFilesRow = content.clone().into();
            if insert_unique(&mut store.data_files, row) {
                Ok(())
            } else {
                Err(ApplyError::Duplicate)
            }
        },
    }
}

/// Applies `createFeedView`.
pub fn transaction_create_feed_view(
    store: &mut Store,
    transaction: &MessageValide,
    content: &CreateFeedViewTransaction,
    now: i64,
) -> (r: Result<(), ApplyError>)
    ensures
        (final(store)@, r) == apply_create_feed_view(
            old(store)@,
            transaction.deep_view(),
            content.deep_view(),
            now,
        ),
{
    let row = FeedViewRow {
        feed_view_id: transaction.id.clone(),
        feed_id: content.feed_id.clone(),
        encrypted_data: content.encrypted_data.clone(),
        name: copy_text(&content.name),
        active: content.active,
        decrypted: content.decrypted,
        data_type: None,
        mapping_code: content.mapping_code.clone(),
        creation_date: transaction.estampille,
        modification_date: now,
        deleted: false,
        ready: false,
        processing_start_date: None,
    };
    if insert_unique(&mut store.feed_views, row) {
        Ok(())
    } else {
        Err(ApplyError::Duplicate)
    }
}

/// Applies `updateFeedView`: exactly one view must be the one that is named.
pub fn transaction_update_feed_view(
    store: &mut Store,
    content: &UpdateFeedViewTransaction,
    now: i64,
) -> (r: Result<(), ApplyError>)
    requires
        old(store)@.wf(),
    ensures
        (final(store)@, r) == apply_update_feed_view(old(store)@, content.deep_view(), now),
{
    let ghost before = store.feed_views.deep_view();
    let ghost c = content.deep_view();
    match position(&store.feed_views, content.feed_view_id.as_str(), None) {
        Some(i) => {
            assert(before[i as int] == store.feed_views[i as int].deep_view());
            assert forall|j: int| 0 <= j < before.len() && j != i implies !view_named(
                #[trigger] before[j],
                c,
            ) by {
                if j < i {
                    assert(FeedViewRow::key_of(before[j]) != FeedViewRow::key_of(before[i as int]));
                } else {
                    assert(FeedViewRow::key_of(before[i as int]) != FeedViewRow::key_of(before[j]));
                }
            }
            if same_text(store.feed_views[i].feed_id.as_str(), content.feed_id.as_str()) {
                let row = &mut store.feed_views[i];
                row.encrypted_data = content.encrypted_data.clone();
                row.name = copy_text(&content.name);
                row.active = content.active;
                row.decrypted = content.decrypted;
                row.mapping_code = content.mapping_code.clone();
                row.modification_date = now;
                assert(view_named(before[i as int], c));
                assert(store.feed_views.deep_view() =~= views_updated(before, c, now));
                Ok(())
            } else {
                Err(ApplyError::NoMatch)
            }
        },
        None => {
            assert forall|j: int| 0 <= j < before.len() implies !view_named(
                #[trigger] before[j],
                c,
            ) by {
                assert(FeedViewRow::key_of(before[j]) != (c.feed_view_id, None::<Seq<char>>));
            }
            Err(ApplyError::NoMatch)
        },
    }
}

/// Applies a transaction to the collections.
pub fn consume_transaction(store: &mut Store, transaction: &MessageValide, now: i64) -> (r: Result<
    (),
    ApplyError,
>)
    requires
        old(store)@.wf(),
    ensures
        (final(store)@, r) == apply(old(store)@, transaction.deep_view(), now),
        final(store)@.wf(),
        r is Err ==> final(store)@ == old(store)@,
{
    proof {
        lemma_apply_keeps_well_formed(store@, transaction.deep_view(), now);
    }
    let action = transaction.action.as_str();
    if same_text(action, TRANSACTION_CREATE_FEED) {
        match &transaction.contenu {
            Contenu::CreateFeed(c) => transaction_create_feed(store, transaction, c, now),
            _ => Err(ApplyError::Malformed),
        }
    } else if same_text(action, TRANSACTION_UPDATE_FEED) {
        match &transaction.contenu {
            Contenu::UpdateFeed(c) => transaction_update_feed(store, transaction, c, now),
            _ => Err(ApplyError::Malformed),
        }
    } else if same_text(action, TRANSACTION_DELETE_FEED) {
        match &transaction.contenu {
            Contenu::DeleteFeed(c) => transaction_delete_feed(
                store,
                transaction,
                c.feed_id.as_str(),
                now,
            ),
            _ => Err(ApplyError::Malformed),
        }
    } else if same_text(action, TRANSACTION_RESTORE_FEED) {
        match &transaction.contenu {
            Contenu::RestoreFeed(c) => transaction_restore_feed(
                store,
                transaction,
                c.feed_id.as_str(),
            ),
            _ => Err(ApplyError::Malformed),
        }
    } else if same_text(action, TRANSACTION_SAVE_DATA_ITEM) {
        match &transaction.contenu {
            Contenu::SaveDataItem(c) => transaction_save_data_item(store, transaction, c),
            _ => Err(ApplyError::Malformed),
        }
    } else if same_text(action, TRANSACTION_SAVE_DATA_ITEM_V2) {
        match &transaction.contenu {
            Contenu::SaveDataItemV2(c) => transaction_save_data_item_v2(store, transaction, c),
            _ => Err(ApplyError::Malformed),
        }
    } else if same_text(action, TRANSACTION_CREATE_FEED_VIEW) {
        match &transaction.contenu {
            Contenu::CreateFeedView(c) => transaction_create_feed_view(store, transaction, c, now),
            _ => Err(ApplyError::Malformed),
        }
    } else if same_text(action, TRANSACTION_UPDATE_FEED_VIEW) {
        match &transaction.contenu {
            Contenu::UpdateFeedView(c) => transaction_update_feed_view(store, c, now),
            _ => Err(ApplyError::Malformed),
        }
    } else {
        Err(ApplyError::UnknownAction)
    }
}

/// A feed that was created carries the id of its transaction, is not
/// deleted, and belongs to the sender; where the sender is the global owner
/// it belongs to no user.
pub proof fn lemma_created_feed_owner(s: StoreSpec, tx: MessageValideSpec, now: i64)
    requires
        tx.action == TRANSACTION_CREATE_FEED@,
        apply(s, tx, now).1 is Ok,
    ensures
        apply(s, tx, now).0.feeds.len() == s.feeds.len() + 1,
        apply(s, tx, now).0.feeds.last().feed_id == tx.id,
        !apply(s, tx, now).0.feeds.last().deleted,
        tx.certificat.global_owner ==> apply(s, tx, now).0.feeds.last().user_id is None,
        !tx.certificat.global_owner ==> apply(s, tx, now).0.feeds.last().user_id
            == tx.certificat.user_id && tx.certificat.user_id is Some,
{
}

/// Creating the same feed a second time fails on the unique index and leaves
/// the collections as the first time left them.
pub proof fn lemma_create_feed_twice(s: StoreSpec, tx: MessageValideSpec, now: i64, later: i64)
    requires
        tx.action == TRANSACTION_CREATE_FEED@,
        apply(s, tx, now).1 is Ok,
    ensures
        apply(apply(s, tx, now).0, tx, later) == (
            apply(s, tx, now).0,
            Err::<(), ApplyError>(ApplyError::Duplicate),
        ),
{
    let first = apply(s, tx, now).0;
    if let ContenuSpec::CreateFeed(c) = tx.contenu {
        assert(DataFeedRow::key_of(first.feeds[s.feeds.len() as int]) == (
            tx.id,
            None::<Seq<char>>,
        ));
    }
}

/// A transaction that is applied a second time on data that a unique index
/// guards fails as a duplicate and changes nothing: data items of either
/// form, and views.
pub proof fn lemma_insert_twice(s: StoreSpec, tx: MessageValideSpec, now: i64, later: i64)
    requires
        tx.action == TRANSACTION_SAVE_DATA_ITEM@ || tx.action == TRANSACTION_SAVE_DATA_ITEM_V2@
            || tx.action == TRANSACTION_CREATE_FEED_VIEW@,
        apply(s, tx, now).1 is Ok,
    ensures
        apply(apply(s, tx, now).0, tx, later) == (
            apply(s, tx, now).0,
            Err::<(), ApplyError>(ApplyError::Duplicate),
        ),
{
    lemma_transaction_names_differ();
    let first = apply(s, tx, now).0;
    match tx.contenu {
        ContenuSpec::SaveDataItem(c) => {
            if tx.action == TRANSACTION_SAVE_DATA_ITEM@ {
                assert(DataCollectorRow::key_of(first.data_items[s.data_items.len() as int]) == (
                    c.data_id,
                    Some(c.feed_id),
                ));
            }
        },
        ContenuSpec::SaveDataItemV2(c) => {
            if tx.action == TRANSACTION_SAVE_DATA_ITEM_V2@ {
                assert(DataCollectorFilesRow::key_of(first.data_files[s.data_files.len() as int])
                    == (c.data_id, None::<Seq<char>>));
            }
        },
        ContenuSpec::CreateFeedView(c) => {
            if tx.action == TRANSACTION_CREATE_FEED_VIEW@ {
                assert(FeedViewRow::key_of(first.feed_views[s.feed_views.len() as int]) == (
                    tx.id,
                    None::<Seq<char>>,
                ));
            }
        },
        _ => {},
    }
}

/// A feed that is deleted and then restored by its owner is not deleted and
/// says nothing of a deletion; nothing else of it has changed, and no other
/// feed has changed.
pub proof fn lemma_delete_then_restore(
    s: StoreSpec,
    delete: MessageValideSpec,
    restore: MessageValideSpec,
    now: i64,
    later: i64,
)
    requires
        delete.action == TRANSACTION_DELETE_FEED@,
        restore.action == TRANSACTION_RESTORE_FEED@,
        delete.contenu is DeleteFeed,
        restore.contenu is RestoreFeed,
        delete.contenu->DeleteFeed_0.feed_id == restore.contenu->RestoreFeed_0.feed_id,
        delete.certificat.user_id is Some,
        restore.certificat.user_id is Some,
        delete.certificat.write_scope() == restore.certificat.write_scope(),
    ensures
        ({
            let feed_id = restore.contenu->RestoreFeed_0.feed_id;
            let owner = restore.certificat.write_scope();
            let after = apply(apply(s, delete, now).0, restore, later);
            &&& after.1 is Ok
            &&& after.0 == StoreSpec { feeds: after.0.feeds, ..s }
            &&& after.0.feeds.len() == s.feeds.len()
            &&& forall|i: int|
                0 <= i < s.feeds.len() ==> #[trigger] after.0.feeds[i] == if s.feeds[i].in_scope(
                    feed_id,
                    owner,
                ) {
                    DataFeedRowSpec { deleted: false, deleted_at: None, ..s.feeds[i] }
                } else {
                    s.feeds[i]
                }
        }),
{
    lemma_transaction_names_differ();
}

/// A feed that does not fall under the sender of an update, a deletion or a
/// restoration stays as it is: the feeds of another user, and for the
/// global owner, whose writes go to the system's feeds, the feeds of every
/// user.
pub proof fn lemma_feed_out_of_scope_unchanged(
    s: StoreSpec,
    tx: MessageValideSpec,
    now: i64,
    i: int,
)
    requires
        tx.action == TRANSACTION_UPDATE_FEED@ || tx.action == TRANSACTION_DELETE_FEED@
            || tx.action == TRANSACTION_RESTORE_FEED@,
        0 <= i < s.feeds.len(),
        s.feeds[i].user_id != tx.certificat.write_scope(),
    ensures
        apply(s, tx, now).0.feeds.len() == s.feeds.len(),
        apply(s, tx, now).0.feeds[i] == s.feeds[i],
{
    lemma_transaction_names_differ();
}

/// An update of a view that brings what the view has already changes the
/// date of modification and nothing else, and leaves every other view as it
/// is.
pub proof fn lemma_update_feed_view_unchanged(
    s: StoreSpec,
    tx: MessageValideSpec,
    now: i64,
    i: int,
)
    requires
        s.wf(),
        tx.action == TRANSACTION_UPDATE_FEED_VIEW@,
        tx.contenu is UpdateFeedView,
        0 <= i < s.feed_views.len(),
        view_named(s.feed_views[i], tx.contenu->UpdateFeedView_0),
        s.feed_views[i] == updated_feed_view(
            s.feed_views[i],
            tx.contenu->UpdateFeedView_0,
            s.feed_views[i].modification_date,
        ),
    ensures
        apply(s, tx, now).1 is Ok,
        apply(s, tx, now).0 == (StoreSpec {
            feed_views: s.feed_views.update(
                i,
                FeedViewRowSpec { modification_date: now, ..s.feed_views[i] },
            ),
            ..s
        }),
{
    lemma_transaction_names_differ();
    let c = tx.contenu->UpdateFeedView_0;
    let after = views_updated(s.feed_views, c, now);
    assert forall|j: int| 0 <= j < s.feed_views.len() && j != i implies !view_named(
        #[trigger] s.feed_views[j],
        c,
    ) by {
        if j < i {
            assert(FeedViewRow::key_of(s.feed_views[j]) != FeedViewRow::key_of(s.feed_views[i]));
        } else {
            assert(FeedViewRow::key_of(s.feed_views[i]) != FeedViewRow::key_of(s.feed_views[j]));
        }
    }
    assert(after =~= s.feed_views.update(
        i,
        FeedViewRowSpec { modification_date: now, ..s.feed_views[i] },
    ));
}

} // verus!
