//! The commands that the service carries out.
//!
//! Dates are milliseconds since the Unix epoch.

use vstd::prelude::*;
use vstd::string::StringExecFns;
use crate::certificate::{
    module_refusal, refusal_certificate, refusal_exchange, Certificate, CertificateSpec, Securite,
};
use crate::constants::{
    lemma_command_names_differ, lemma_transaction_names_differ, lemma_view_data_type_names,
    view_data_type_of, UnsupportedType,
    ViewDataType, COMMAND_ADD_FUUIDS_VOLATILE, COMMAND_INSERT_VIEW_DATA, COMMAND_PROCESS_VIEW,
    ROLE_DATASOURCE_MAPPER, ROLE_WEB_SCRAPER, TRANSACTION_CREATE_FEED, TRANSACTION_CREATE_FEED_VIEW,
    TRANSACTION_DELETE_FEED, TRANSACTION_RESTORE_FEED, TRANSACTION_SAVE_DATA_ITEM,
    TRANSACTION_SAVE_DATA_ITEM_V2, TRANSACTION_UPDATE_FEED, TRANSACTION_UPDATE_FEED_VIEW,
};
use crate::data_mongodb::{
    DataCollectorFilesRow, DataCollectorRow, DataFeedRow, DataFeedRowSpec, FeedViewGroupedDatedRow,
    FeedViewGroupedDatedRowSpec, FeedViewRow, FeedViewRowSpec, VolatileFileRow, VolatileFileRowSpec,
};
use crate::file_maintenance::{fuuids_in, fuuids_of};
use crate::keymaster::{escrow_refusal, transmit_attached_key};
use crate::messages::{
    handled_view, Contenu, ContenuSpec, Failure, Handled, HandledSpec, MapperOutcome,
    MapperOutcomeSpec, MessageKind, MessageValide, MessageValideSpec, Outside, OutsideSpec,
    SideEffect, SideEffectSpec,
};
use crate::reply::{
    reply_err, reply_ok, Reply, ReplySpec, CODE_DUPLICATE, CODE_GENERIC, CODE_INTERNAL,
    CODE_NOT_FOUND, CODE_REGENERATING, CODE_UNAUTHORIZED, CODE_UNKNOWN_ACTION,
};
use crate::store::{
    distinct_keys, expirations_follow, find, holds_key, index_of, insert_unique, inserted, lemma_index_of,
    lemma_inserted_distinct, position, row_of, Keyed, Store, StoreSpec,
};
use crate::text::{copy_optional_texts, copy_text, same_optional_text, same_text};
use crate::transactions::{
    apply, apply_error_text, consume_transaction, created_feed_view, Applied, ApplyError,
};
use crate::transactions_struct::{
    FeedViewGroupedDatedItem, FeedViewGroupedDatedItemSpec, FileItemSpec,
    SaveDataItemTransactionV2Spec,
};

verus! {

/// A file that a scraper published, under the correlation that finds it again.
#[derive(Debug, PartialEq, Eq)]
pub struct FuuidVolatile {
    pub correlation: String,
    pub fuuid: String,
    pub format: String,
    pub cle_id: String,
    pub nonce: Option<String>,
    pub compression: Option<String>,
}

/// What `FuuidVolatile` holds, as plain values.
pub ghost struct FuuidVolatileSpec {
    pub correlation: Seq<char>,
    pub fuuid: Seq<char>,
    pub format: Seq<char>,
    pub cle_id: Seq<char>,
    pub nonce: Option<Seq<char>>,
    pub compression: Option<Seq<char>>,
}

impl DeepView for FuuidVolatile {
    type V = FuuidVolatileSpec;

    open spec fn deep_view(&self) -> FuuidVolatileSpec {
        FuuidVolatileSpec {
            correlation: self.correlation@,
            fuuid: self.fuuid@,
            format: self.format@,
            cle_id: self.cle_id@,
            nonce: self.nonce.deep_view(),
            compression: self.compression.deep_view(),
        }
    }
}

impl Clone for FuuidVolatile {
    fn clone(&self) -> (r: FuuidVolatile)
        ensures
            r.deep_view() == self.deep_view(),
    {
        FuuidVolatile {
            correlation: self.correlation.clone(),
            fuuid: self.fuuid.clone(),
            format: self.format.clone(),
            cle_id: self.cle_id.clone(),
            nonce: copy_text(&self.nonce),
            compression: copy_text(&self.compression),
        }
    }
}

/// Publishes volatile files.
#[derive(Debug, PartialEq, Eq)]
pub struct CommandAddFuuidsVolatile {
    pub files: Vec<FuuidVolatile>,
    /// When the files stop being of use: a week from now when absent, and
    /// now where it names a time that has gone by.
    pub expiration: Option<i64>,
}

/// What `CommandAddFuuidsVolatile` holds, as plain values.
pub ghost struct CommandAddFuuidsVolatileSpec {
    pub files: Seq<FuuidVolatileSpec>,
    pub expiration: Option<i64>,
}

impl DeepView for CommandAddFuuidsVolatile {
    type V = CommandAddFuuidsVolatileSpec;

    open spec fn deep_view(&self) -> CommandAddFuuidsVolatileSpec {
        CommandAddFuuidsVolatileSpec {
            files: self.files.deep_view(),
            expiration: self.expiration,
        }
    }
}

/// Asks for a view to be processed anew.
#[derive(Debug, PartialEq, Eq)]
pub struct ProcessViewRequest {
    pub feed_view_id: String,
}

/// What `ProcessViewRequest` holds, as plain values.
pub ghost struct ProcessViewRequestSpec {
    pub feed_view_id: Seq<char>,
}

impl DeepView for ProcessViewRequest {
    type V = ProcessViewRequestSpec;

    open spec fn deep_view(&self) -> ProcessViewRequestSpec {
        ProcessViewRequestSpec {
            feed_view_id: self.feed_view_id@,
        }
    }
}

/// The rows that the mapper writes back for a view.
#[derive(Debug, PartialEq, Eq)]
pub struct InsertFeedViewGroupedDatedRequest {
    pub feed_view_id: String,
    pub feed_id: String,
    pub data: Vec<FeedViewGroupedDatedItem>,
    /// If true, the rows that the view had are removed first.
    pub truncate: Option<bool>,
    /// If true, a row that the view already has is left as it is.
    pub deduplicate: Option<bool>,
}

/// What `InsertFeedViewGroupedDatedRequest` holds, as plain values.
pub ghost struct InsertFeedViewGroupedDatedRequestSpec {
    pub feed_view_id: Seq<char>,
    pub feed_id: Seq<char>,
    pub data: Seq<FeedViewGroupedDatedItemSpec>,
    pub truncate: Option<bool>,
    pub deduplicate: Option<bool>,
}

impl DeepView for InsertFeedViewGroupedDatedRequest {
    type V = InsertFeedViewGroupedDatedRequestSpec;

    open spec fn deep_view(&self) -> InsertFeedViewGroupedDatedRequestSpec {
        InsertFeedViewGroupedDatedRequestSpec {
            feed_view_id: self.feed_view_id@,
            feed_id: self.feed_id@,
            data: self.data.deep_view(),
            truncate: self.truncate,
            deduplicate: self.deduplicate,
        }
    }
}


/// The collections after a command, and what the command came to.
pub type Outcome = (StoreSpec, Result<HandledSpec, Failure>);

/// A command that is answered with a refusal changes nothing and owes
/// nothing.
pub open spec fn refused(s: StoreSpec, reply: ReplySpec) -> Outcome {
    (s, Ok(HandledSpec { reply: reply, effects: Seq::empty() }))
}

/// A command that fails changes nothing.
pub open spec fn failed(s: StoreSpec, why: Failure) -> Outcome {
    (s, Err(why))
}

/// A command that went through.
pub open spec fn done(s: StoreSpec, effects: Seq<SideEffectSpec>) -> Outcome {
    (s, Ok(HandledSpec { reply: reply_ok(), effects: effects }))
}

/// A transaction is saved and applied in one: where it cannot be applied,
/// it is not saved either, and nothing has changed.
pub open spec fn saved(s: StoreSpec, msg: MessageValideSpec, now: i64) -> Applied {
    let applied = apply(s, msg, now);
    match applied.1 {
        Ok(()) => (
            StoreSpec { transactions: applied.0.transactions.push(msg), ..applied.0 },
            Ok(()),
        ),
        Err(e) => (s, Err(e)),
    }
}

/// Saves and applies a transaction, or fails.
pub open spec fn saved_or_failed(s: StoreSpec, msg: MessageValideSpec, now: i64) -> Outcome {
    match saved(s, msg, now).1 {
        Ok(()) => done(saved(s, msg, now).0, Seq::empty()),
        Err(e) => failed(s, Failure::Apply(e)),
    }
}

/// Whether a caller may change a feed: a user its own feeds, the global
/// owner the feeds of the system.
pub open spec fn may_write(c: CertificateSpec, feed: DataFeedRowSpec) -> bool {
    (c.user_id is Some && feed.user_id == c.user_id) || (c.global_owner && feed.user_id is None)
}

/// Whether there is a feed of this id that the caller may change.
pub open spec fn writable_feed(s: StoreSpec, c: CertificateSpec, feed_id: Seq<char>) -> bool {
    match row_of::<DataFeedRow>(s.feeds, (feed_id, None)) {
        Some(feed) => may_write(c, feed),
        None => false,
    }
}

/// Whether there is a feed of this id that the caller may put a view over:
/// one that it may change and that is not deleted.
pub open spec fn open_to_views(s: StoreSpec, c: CertificateSpec, feed_id: Seq<char>) -> bool {
    match row_of::<DataFeedRow>(s.feeds, (feed_id, None)) {
        Some(feed) => may_write(c, feed) && !feed.deleted,
        None => false,
    }
}

/// What a caller is told of a feed that is not there for it: the same,
/// whether there is no such feed or the feed is another's.
pub open spec fn refusal_feed() -> ReplySpec {
    reply_err(CODE_NOT_FOUND, "Feed not found / access refused"@)
}

/// What a sender is told when the key that came with a command was not put
/// in safekeeping, or when a key had to come and none did.
pub open spec fn key_refusal(msg: MessageValideSpec, outside: OutsideSpec, required: bool)
    -> Option<ReplySpec> {
    match msg.attached_key {
        Some(_) => escrow_refusal(outside.key_escrow),
        None => if required {
            Some(reply_err(CODE_GENERIC, "Encryption key is missing"@))
        } else {
            None
        },
    }
}

/// `createFeed`: a user, or the global owner with a user id, creates a feed;
/// the key of its private information has to come with the command.
pub open spec fn create_feed_outcome(
    s: StoreSpec,
    msg: MessageValideSpec,
    outside: OutsideSpec,
    now: i64,
) -> Outcome {
    if msg.certificat.user_id is None {
        refused(s, refusal_certificate())
    } else if !(msg.contenu is CreateFeed) {
        failed(s, Failure::Malformed)
    } else {
        match key_refusal(msg, outside, true) {
            Some(reply) => refused(s, reply),
            None => saved_or_failed(s, msg, now),
        }
    }
}

/// A command on one feed: it goes through for a caller that may change the
/// feed. `feed_id` is the feed that the content names, if the content is
/// what the action calls for.
pub open spec fn feed_command_outcome(
    s: StoreSpec,
    msg: MessageValideSpec,
    feed_id: Option<Seq<char>>,
    now: i64,
) -> Outcome {
    if msg.certificat.user_id is None {
        refused(s, refusal_certificate())
    } else {
        match feed_id {
            None => failed(s, Failure::Malformed),
            Some(id) => if !writable_feed(s, msg.certificat, id) {
                refused(s, refusal_feed())
            } else {
                saved_or_failed(s, msg, now)
            },
        }
    }
}

/// The feed that an update names.
pub open spec fn update_feed_target(c: ContenuSpec) -> Option<Seq<char>> {
    match c {
        ContenuSpec::UpdateFeed(u) => Some(u.feed_id),
        _ => None,
    }
}

/// The feed that a deletion names.
pub open spec fn delete_feed_target(c: ContenuSpec) -> Option<Seq<char>> {
    match c {
        ContenuSpec::DeleteFeed(d) => Some(d.feed_id),
        _ => None,
    }
}

/// The feed that a restoration names.
pub open spec fn restore_feed_target(c: ContenuSpec) -> Option<Seq<char>> {
    match c {
        ContenuSpec::RestoreFeed(r) => Some(r.feed_id),
        _ => None,
    }
}

/// Saves a transaction and applies it, both or neither.
pub fn save_transaction(store: &mut Store, message: MessageValide, now: i64) -> (r: Result<
    (),
    ApplyError,
>)
    requires
        old(store)@.wf(),
    ensures
        (final(store)@, r) == saved(old(store)@, message.deep_view(), now),
        final(store)@.wf(),
{
    match consume_transaction(store, &message, now) {
        Ok(()) => {
            let ghost before = store.transactions.deep_view();
            let ghost entry = message.deep_view();
            store.transactions.push(message);
            assert(store.transactions.deep_view() =~= before.push(entry));
            Ok(())
        },
        Err(e) => Err(e),
    }
}

/// Saves and applies a transaction, or fails.
fn save_or_fail(store: &mut Store, message: MessageValide, now: i64) -> (r: Result<Handled, Failure>)
    requires
        old(store)@.wf(),
    ensures
        (final(store)@, handled_view(r)) == saved_or_failed(
            old(store)@,
            message.deep_view(),
            now,
        ),
        final(store)@.wf(),
{
    match save_transaction(store, message, now) {
        Ok(()) => Ok(Handled::reply(Reply::ok())),
        Err(e) => Err(Failure::Apply(e)),
    }
}

/// Whether there is a feed of this id that the caller may change.
pub fn may_write_feed(store: &Store, certificat: &Certificate, feed_id: &str) -> (r: bool)
    requires
        store@.wf(),
    ensures
        r == writable_feed(store@, certificat.deep_view(), feed_id@),
{
    match find(&store.feeds, feed_id, None) {
        Some(feed) => (certificat.user_id.is_some() && same_optional_text(
            &feed.user_id,
            &certificat.user_id,
        )) || (certificat.global_owner && feed.user_id.is_none()),
        None => false,
    }
}

/// Whether there is a feed of this id that the caller may put a view over.
pub fn may_create_view(store: &Store, certificat: &Certificate, feed_id: &str) -> (r: bool)
    requires
        store@.wf(),
    ensures
        r == open_to_views(store@, certificat.deep_view(), feed_id@),
{
    match find(&store.feeds, feed_id, None) {
        Some(feed) => ((certificat.user_id.is_some() && same_optional_text(
            &feed.user_id,
            &certificat.user_id,
        )) || (certificat.global_owner && feed.user_id.is_none())) && !feed.deleted,
        None => false,
    }
}

/// What a sender is told when the key that came with a command was not put
/// in safekeeping, or when a key had to come and none did.
pub fn check_attached_key(message: &MessageValide, outside: &Outside, required: bool) -> (r:
    Option<Reply>)
    ensures
        r.deep_view() == key_refusal(message.deep_view(), outside.deep_view(), required),
{
    match &message.attached_key {
        Some(_) => transmit_attached_key(&outside.key_escrow),
        None => {
            if required {
                Some(Reply::error(CODE_GENERIC, "Encryption key is missing"))
            } else {
                None
            }
        },
    }
}

/// Handles `createFeed`.
pub fn command_create_feed(
    store: &mut Store,
    message: MessageValide,
    outside: &Outside,
    now: i64,
) -> (r: Result<Handled, Failure>)
    requires
        old(store)@.wf(),
    ensures
        (final(store)@, handled_view(r)) == create_feed_outcome(
            old(store)@,
            message.deep_view(),
            outside.deep_view(),
            now,
        ),
        final(store)@.wf(),
{
    if message.certificat.user_id.is_none() {
        return Ok(Handled::reply(Reply::error(CODE_UNAUTHORIZED, "Invalid certificate")));
    }
    match &message.contenu {
        Contenu::CreateFeed(_) => {},
        _ => {
            return Err(Failure::Malformed);
        },
    }
    match check_attached_key(&message, outside, true) {
        Some(reply) => Ok(Handled::reply(reply)),
        None => save_or_fail(store, message, now),
    }
}

/// Handles a command on one feed.
fn feed_command(store: &mut Store, message: MessageValide, feed_id: Option<String>, now: i64) -> (r:
    Result<Handled, Failure>)
    requires
        old(store)@.wf(),
    ensures
        (final(store)@, handled_view(r)) == feed_command_outcome(
            old(store)@,
            message.deep_view(),
            feed_id.deep_view(),
            now,
        ),
        final(store)@.wf(),
{
    if message.certificat.user_id.is_none() {
        return Ok(Handled::reply(Reply::error(CODE_UNAUTHORIZED, "Invalid certificate")));
    }
    match feed_id {
        None => Err(Failure::Malformed),
        Some(id) => {
            if !may_write_feed(store, &message.certificat, id.as_str()) {
                Ok(
                    Handled::reply(
                        Reply::error(CODE_NOT_FOUND, "Feed not found / access refused"),
                    ),
                )
            } else {
                save_or_fail(store, message, now)
            }
        },
    }
}

/// Handles `updateFeed`.
pub fn command_update_feed(store: &mut Store, message: MessageValide, now: i64) -> (r: Result<
    Handled,
    Failure,
>)
    requires
        old(store)@.wf(),
    ensures
        (final(store)@, handled_view(r)) == feed_command_outcome(
            old(store)@,
            message.deep_view(),
            update_feed_target(message.deep_view().contenu),
            now,
        ),
        final(store)@.wf(),
{
    let feed_id: Option<String> = match &message.contenu {
        Contenu::UpdateFeed(c) => Some(c.feed_id.clone()),
        _ => None,
    };
    feed_command(store, message, feed_id, now)
}

/// Handles `deleteFeed`.
pub fn command_delete_feed(store: &mut Store, message: MessageValide, now: i64) -> (r: Result<
    Handled,
    Failure,
>)
    requires
        old(store)@.wf(),
    ensures
        (final(store)@, handled_view(r)) == feed_command_outcome(
            old(store)@,
            message.deep_view(),
            delete_feed_target(message.deep_view().contenu),
            now,
        ),
        final(store)@.wf(),
{
    let feed_id: Option<String> = match &message.contenu {
        Contenu::DeleteFeed(c) => Some(c.feed_id.clone()),
        _ => None,
    };
    feed_command(store, message, feed_id, now)
}

/// Handles `restoreFeed`.
pub fn command_restore_feed(store: &mut Store, message: MessageValide, now: i64) -> (r: Result<
    Handled,
    Failure,
>)
    requires
        old(store)@.wf(),
    ensures
        (final(store)@, handled_view(r)) == feed_command_outcome(
            old(store)@,
            message.deep_view(),
            restore_feed_target(message.deep_view().contenu),
            now,
        ),
        final(store)@.wf(),
{
    let feed_id: Option<String> = match &message.contenu {
        Contenu::RestoreFeed(c) => Some(c.feed_id.clone()),
        _ => None,
    };
    feed_command(store, message, feed_id, now)
}

/// What a scraper is told of a data item that its feed holds already.
pub open spec fn refusal_duplicate() -> ReplySpec {
    reply_err(CODE_DUPLICATE, "Data item already exists"@)
}

/// What a scraper is told when its data item was not saved: that the item
/// is there already where a unique index refused it, else what went wrong.
pub open spec fn refusal_not_saved(e: ApplyError) -> ReplySpec {
    if e == ApplyError::Duplicate {
        refusal_duplicate()
    } else {
        reply_err(CODE_INTERNAL, "Error: "@ + apply_error_text(e))
    }
}

/// The claim that is owed for the files of a data item that says something
/// of files.
pub open spec fn claim_for(files: Option<Seq<FileItemSpec>>) -> Seq<
    SideEffectSpec,
> {
    match files {
        Some(_) => seq![SideEffectSpec::ClaimAndVisit { fuuids: fuuids_in(files) }],
        None => Seq::empty(),
    }
}

/// `saveDataItem`: a scraper saves a data item that its feed does not hold
/// yet. Once it is saved, its files are claimed.
pub open spec fn save_data_item_outcome(
    s: StoreSpec,
    msg: MessageValideSpec,
    outside: OutsideSpec,
    now: i64,
) -> Outcome {
    match module_refusal(msg.certificat, ROLE_WEB_SCRAPER@, Securite::L1Public) {
        Some(reply) => refused(s, reply),
        None => match msg.contenu {
            ContenuSpec::SaveDataItem(c) => if holds_key::<DataCollectorRow>(
                s.data_items,
                (c.data_id, Some(c.feed_id)),
            ) {
                refused(s, refusal_duplicate())
            } else {
                match key_refusal(msg, outside, false) {
                    Some(reply) => refused(s, reply),
                    None => match saved(s, msg, now).1 {
                        Ok(()) => done(saved(s, msg, now).0, claim_for(c.files)),
                        Err(e) => refused(s, refusal_not_saved(e)),
                    },
                }
            },
            _ => failed(s, Failure::Malformed),
        },
    }
}

/// The files that a data item of the second form refers to: the file of its
/// content, then the files attached to it.
pub open spec fn data_file_fuuids(
    c: SaveDataItemTransactionV2Spec,
) -> Seq<Seq<char>> {
    seq![c.data_fuuid] + match c.attached_fuuids {
        Some(attached) => attached,
        None => Seq::empty(),
    }
}

/// Whether the feed holds a data file of this id.
pub open spec fn holds_data_file(s: StoreSpec, data_id: Seq<char>, feed_id: Seq<char>) -> bool {
    match row_of::<DataCollectorFilesRow>(s.data_files, (data_id, None)) {
        Some(row) => row.feed_id == feed_id,
        None => false,
    }
}

/// `saveDataItemV2`: a scraper saves a data item whose content is a file.
/// Once it is saved, its files are claimed and the listeners of the feed are
/// told.
pub open spec fn save_data_item_v2_outcome(
    s: StoreSpec,
    msg: MessageValideSpec,
    outside: OutsideSpec,
    now: i64,
) -> Outcome {
    match module_refusal(msg.certificat, ROLE_WEB_SCRAPER@, Securite::L1Public) {
        Some(reply) => refused(s, reply),
        None => match msg.contenu {
            ContenuSpec::SaveDataItemV2(c) => if holds_data_file(s, c.data_id, c.feed_id) {
                refused(s, refusal_duplicate())
            } else {
                match key_refusal(msg, outside, false) {
                    Some(reply) => refused(s, reply),
                    None => match saved(s, msg, now).1 {
                        Ok(()) => done(
                            saved(s, msg, now).0,
                            seq![
                                SideEffectSpec::ClaimAndVisit { fuuids: data_file_fuuids(c) },
                                SideEffectSpec::FeedDataUpdated { feed_id: c.feed_id },
                            ],
                        ),
                        Err(e) => refused(s, refusal_not_saved(e)),
                    },
                }
            },
            _ => failed(s, Failure::Malformed),
        },
    }
}

/// The reply to a scraper whose data item was not saved.
fn reply_not_saved(e: ApplyError) -> (r: Reply)
    ensures
        r.deep_view() == refusal_not_saved(e),
{
    match e {
        ApplyError::Duplicate => Reply::error(CODE_DUPLICATE, "Data item already exists"),
        _ => {
            let text = String::from_str("Error: ").concat(e.to_text().as_str());
            Reply::error(CODE_INTERNAL, text.as_str())
        },
    }
}

/// Handles `saveDataItem`.
pub fn command_save_data_item(
    store: &mut Store,
    message: MessageValide,
    outside: &Outside,
    now: i64,
) -> (r: Result<Handled, Failure>)
    requires
        old(store)@.wf(),
    ensures
        (final(store)@, handled_view(r)) == save_data_item_outcome(
            old(store)@,
            message.deep_view(),
            outside.deep_view(),
            now,
        ),
        final(store)@.wf(),
{
    match message.certificat.scraper_refusal() {
        Some(reply) => {
            return Ok(Handled::reply(reply));
        },
        None => {},
    }
    let (held, fuuids) = match &message.contenu {
        Contenu::SaveDataItem(c) => (
            position(&store.data_items, c.data_id.as_str(), Some(c.feed_id.as_str())).is_some(),
            fuuids_of(&c.files),
        ),
        _ => {
            return Err(Failure::Malformed);
        },
    };
    if held {
        return Ok(Handled::reply(Reply::error(CODE_DUPLICATE, "Data item already exists")));
    }
    match check_attached_key(&message, outside, false) {
        Some(reply) => {
            return Ok(Handled::reply(reply));
        },
        None => {},
    }
    match save_transaction(store, message, now) {
        Ok(()) => {
            let mut effects: Vec<SideEffect> = Vec::new();
            match fuuids {
                Some(list) => {
                    let ghost claimed = list.deep_view();
                    effects.push(SideEffect::ClaimAndVisit { fuuids: list });
                    assert(effects.deep_view() =~= seq![
                        SideEffectSpec::ClaimAndVisit { fuuids: claimed },
                    ]);
                },
                None => {
                    assert(effects.deep_view() =~= Seq::empty());
                },
            }
            Ok(Handled { reply: Reply::ok(), effects: effects })
        },
        Err(e) => Ok(Handled::reply(reply_not_saved(e))),
    }
}

/// Handles `saveDataItemV2`.
pub fn command_save_data_item_v2(
    store: &mut Store,
    message: MessageValide,
    outside: &Outside,
    now: i64,
) -> (r: Result<Handled, Failure>)
    requires
        old(store)@.wf(),
    ensures
        (final(store)@, handled_view(r)) == save_data_item_v2_outcome(
            old(store)@,
            message.deep_view(),
            outside.deep_view(),
            now,
        ),
        final(store)@.wf(),
{
    match message.certificat.scraper_refusal() {
        Some(reply) => {
            return Ok(Handled::reply(reply));
        },
        None => {},
    }
    let (held, fuuids, feed_id) = match &message.contenu {
        Contenu::SaveDataItemV2(c) => {
            let held = match find(&store.data_files, c.data_id.as_str(), None) {
                Some(row) => same_text(row.feed_id.as_str(), c.feed_id.as_str()),
                None => false,
            };
            let mut fuuids: Vec<String> = Vec::new();
            fuuids.push(c.data_fuuid.clone());
            match copy_optional_texts(&c.attached_fuuids) {
                Some(mut attached) => {
                    let ghost more = attached.deep_view();
                    fuuids.append(&mut attached);
                    assert(fuuids.deep_view() =~= seq![c.data_fuuid@] + more);
                },
                None => {
                    assert(fuuids.deep_view() =~= seq![c.data_fuuid@] + Seq::empty());
                },
            }
            (held, fuuids, c.feed_id.clone())
        },
        _ => {
            return Err(Failure::Malformed);
        },
    };
    if held {
        return Ok(Handled::reply(Reply::error(CODE_DUPLICATE, "Data item already exists")));
    }
    match check_attached_key(&message, outside, false) {
        Some(reply) => {
            return Ok(Handled::reply(reply));
        },
        None => {},
    }
    match save_transaction(store, message, now) {
        Ok(()) => {
            let mut effects: Vec<SideEffect> = Vec::new();
            let ghost claimed = fuuids.deep_view();
            effects.push(SideEffect::ClaimAndVisit { fuuids: fuuids });
            effects.push(SideEffect::FeedDataUpdated { feed_id: feed_id });
            assert(effects.deep_view() =~= seq![
                SideEffectSpec::ClaimAndVisit { fuuids: claimed },
                SideEffectSpec::FeedDataUpdated { feed_id: feed_id@ },
            ]);
            Ok(Handled { reply: Reply::ok(), effects: effects })
        },
        Err(e) => Ok(Handled::reply(reply_not_saved(e))),
    }
}

/// How long a volatile file is of use when nothing else is said: a week, in
/// milliseconds.
pub const VOLATILE_LIFETIME: i64 = 604_800_000;

/// The row of a volatile file that is published for the first time.
pub open spec fn volatile_row(f: FuuidVolatileSpec, expiration: i64, now: i64)
    -> VolatileFileRowSpec {
    VolatileFileRowSpec {
        correlation: f.correlation,
        fuuid: f.fuuid,
        format: f.format,
        cle_id: f.cle_id,
        nonce: f.nonce,
        compression: f.compression,
        expiration: expiration,
        created: now,
        modified: now,
    }
}

/// The volatile files after one is published: a new row for a correlation
/// that is new; for one that is known, the row stays as it is but for the
/// date of modification.
pub open spec fn volatile_upserted(
    rows: Seq<VolatileFileRowSpec>,
    f: FuuidVolatileSpec,
    expiration: i64,
    now: i64,
) -> Seq<VolatileFileRowSpec> {
    if holds_key::<VolatileFileRow>(rows, (f.correlation, None)) {
        Seq::new(
            rows.len(),
            |i: int|
                if rows[i].correlation == f.correlation {
                    VolatileFileRowSpec { modified: now, ..rows[i] }
                } else {
                    rows[i]
                },
        )
    } else {
        rows.push(volatile_row(f, expiration, now))
    }
}

/// The volatile files after several are published, one after the other.
pub open spec fn volatiles_added(
    rows: Seq<VolatileFileRowSpec>,
    files: Seq<FuuidVolatileSpec>,
    expiration: i64,
    now: i64,
) -> Seq<VolatileFileRowSpec>
    decreases files.len(),
{
    if files.len() == 0 {
        rows
    } else {
        volatile_upserted(
            volatiles_added(rows, files.drop_last(), expiration, now),
            files.last(),
            expiration,
            now,
        )
    }
}

/// When the files of a command stop being of use: when the command says,
/// but not before now, so that no file expires before it was created; a
/// week from now where the command says nothing.
pub open spec fn volatile_expiration(c: CommandAddFuuidsVolatileSpec, now: i64) -> i64 {
    match c.expiration {
        Some(e) => if e < now {
            now
        } else {
            e
        },
        None => (now + VOLATILE_LIFETIME) as i64,
    }
}

/// `addFuuidsVolatile`: a scraper publishes files. No transaction is made
/// of it.
pub open spec fn add_fuuids_volatile_outcome(s: StoreSpec, msg: MessageValideSpec, now: i64)
    -> Outcome {
    match module_refusal(msg.certificat, ROLE_WEB_SCRAPER@, Securite::L1Public) {
        Some(reply) => refused(s, reply),
        None => match msg.contenu {
            ContenuSpec::AddFuuidsVolatile(c) => done(
                StoreSpec {
                    volatile_files: volatiles_added(
                        s.volatile_files,
                        c.files,
                        volatile_expiration(c, now),
                        now,
                    ),
                    ..s
                },
                Seq::empty(),
            ),
            _ => failed(s, Failure::Malformed),
        },
    }
}

/// Publishing a volatile file keeps the correlations distinct.
pub proof fn lemma_volatile_upserted_distinct(
    rows: Seq<VolatileFileRowSpec>,
    f: FuuidVolatileSpec,
    expiration: i64,
    now: i64,
)
    requires
        distinct_keys::<VolatileFileRow>(rows),
    ensures
        distinct_keys::<VolatileFileRow>(volatile_upserted(rows, f, expiration, now)),
{
    let after = volatile_upserted(rows, f, expiration, now);
    if holds_key::<VolatileFileRow>(rows, (f.correlation, None)) {
        assert forall|i: int, j: int| 0 <= i < j < after.len() implies VolatileFileRow::key_of(
            #[trigger] after[i],
        ) != VolatileFileRow::key_of(#[trigger] after[j]) by {
            assert(VolatileFileRow::key_of(after[i]) == VolatileFileRow::key_of(rows[i]));
            assert(VolatileFileRow::key_of(after[j]) == VolatileFileRow::key_of(rows[j]));
        }
    } else {
        lemma_inserted_distinct::<VolatileFileRow>(rows, volatile_row(f, expiration, now));
    }
}

/// Publishing a volatile file that does not expire before now leaves no
/// file that expires before it was created.
pub proof fn lemma_volatile_upserted_follows(
    rows: Seq<VolatileFileRowSpec>,
    f: FuuidVolatileSpec,
    expiration: i64,
    now: i64,
)
    requires
        expirations_follow(rows),
        expiration >= now,
    ensures
        expirations_follow(volatile_upserted(rows, f, expiration, now)),
{
    let after = volatile_upserted(rows, f, expiration, now);
    assert forall|i: int| 0 <= i < after.len() implies (#[trigger] after[i]).expiration
        >= after[i].created by {
        if i < rows.len() {
            assert(rows[i].expiration >= rows[i].created);
        }
    }
}

/// Publishes one volatile file.
fn upsert_volatile(rows: &mut Vec<VolatileFileRow>, file: &FuuidVolatile, expiration: i64, now: i64)
    requires
        distinct_keys::<VolatileFileRow>(old(rows).deep_view()),
        expirations_follow(old(rows).deep_view()),
        expiration >= now,
    ensures
        expirations_follow(final(rows).deep_view()),
        final(rows).deep_view() == volatile_upserted(
            old(rows).deep_view(),
            file.deep_view(),
            expiration,
            now,
        ),
        distinct_keys::<VolatileFileRow>(final(rows).deep_view()),
{
    let ghost before = rows.deep_view();
    proof {
        lemma_volatile_upserted_distinct(before, file.deep_view(), expiration, now);
        lemma_volatile_upserted_follows(before, file.deep_view(), expiration, now);
    }
    match position(rows, file.correlation.as_str(), None) {
        Some(i) => {
            assert(before[i as int] == rows[i as int].deep_view());
            assert forall|j: int| 0 <= j < before.len() && j != i implies (
            #[trigger] before[j]).correlation != file.correlation@ by {
                if j < i {
                    assert(VolatileFileRow::key_of(before[j]) != VolatileFileRow::key_of(
                        before[i as int],
                    ));
                } else {
                    assert(VolatileFileRow::key_of(before[i as int]) != VolatileFileRow::key_of(
                        before[j],
                    ));
                }
            }
            let row = &mut rows[i];
            row.modified = now;
            assert(rows.deep_view() =~= volatile_upserted(
                before,
                file.deep_view(),
                expiration,
                now,
            ));
        },
        None => {
            rows.push(
                VolatileFileRow {
                    correlation: file.correlation.clone(),
                    fuuid: file.fuuid.clone(),
                    format: file.format.clone(),
                    cle_id: file.cle_id.clone(),
                    nonce: copy_text(&file.nonce),
                    compression: copy_text(&file.compression),
                    expiration: expiration,
                    created: now,
                    modified: now,
                },
            );
            assert(rows.deep_view() =~= volatile_upserted(
                before,
                file.deep_view(),
                expiration,
                now,
            ));
        },
    }
}

/// Handles `addFuuidsVolatile`.
pub fn command_add_fuuids_volatile(store: &mut Store, message: MessageValide, now: i64) -> (r:
    Result<Handled, Failure>)
    requires
        old(store)@.wf(),
        now + VOLATILE_LIFETIME <= i64::MAX,
    ensures
        (final(store)@, handled_view(r)) == add_fuuids_volatile_outcome(
            old(store)@,
            message.deep_view(),
            now,
        ),
        final(store)@.wf(),
{
    match message.certificat.scraper_refusal() {
        Some(reply) => {
            return Ok(Handled::reply(reply));
        },
        None => {},
    }
    match &message.contenu {
        Contenu::AddFuuidsVolatile(command) => {
            let expiration: i64 = match command.expiration {
                Some(e) => if e < now {
                    now
                } else {
                    e
                },
                None => now + VOLATILE_LIFETIME,
            };
            let ghost before = store.volatile_files.deep_view();
            let ghost files = command.files.deep_view();
            let mut i: usize = 0;
            assert(files.take(0) =~= Seq::empty());
            while i < command.files.len()
                invariant
                    i <= command.files.len(),
                    files == command.files.deep_view(),
                    expiration >= now,
                    distinct_keys::<VolatileFileRow>(store.volatile_files.deep_view()),
                    expirations_follow(store.volatile_files.deep_view()),
                    store.volatile_files.deep_view() == volatiles_added(
                        before,
                        files.take(i as int),
                        expiration,
                        now,
                    ),
                    store@ == (StoreSpec {
                        volatile_files: store.volatile_files.deep_view(),
                        ..old(store)@
                    }),
                decreases command.files.len() - i,
            {
                assert(files.take(i + 1).drop_last() =~= files.take(i as int));
                assert(files.take(i + 1).last() == command.files[i as int].deep_view());
                upsert_volatile(&mut store.volatile_files, &command.files[i], expiration, now);
                i = i + 1;
            }
            assert(files.take(i as int) =~= files);
            Ok(Handled::reply(Reply::ok()))
        },
        _ => Err(Failure::Malformed),
    }
}

/// What the sender of a command on a view is told when the transaction was
/// not applied: what went wrong, as a conflict where a unique index refused
/// the view.
pub open spec fn refusal_not_applied(e: ApplyError) -> ReplySpec {
    reply_err(
        if e == ApplyError::Duplicate {
            CODE_DUPLICATE
        } else {
            CODE_GENERIC
        },
        apply_error_text(e),
    )
}

/// Saves and applies a transaction, or says why not.
pub open spec fn saved_or_refused(s: StoreSpec, msg: MessageValideSpec, now: i64) -> Outcome {
    match saved(s, msg, now).1 {
        Ok(()) => done(saved(s, msg, now).0, Seq::empty()),
        Err(e) => refused(s, refusal_not_applied(e)),
    }
}

/// `createFeedView`: a caller that may change a feed creates a view over
/// it, as long as the feed is not deleted; the key of the view has to come
/// with the command.
pub open spec fn create_feed_view_outcome(
    s: StoreSpec,
    msg: MessageValideSpec,
    outside: OutsideSpec,
    now: i64,
) -> Outcome {
    if msg.certificat.user_id is None {
        refused(s, refusal_certificate())
    } else {
        match msg.contenu {
            ContenuSpec::CreateFeedView(c) => if !open_to_views(s, msg.certificat, c.feed_id) {
                refused(s, refusal_feed())
            } else {
                match key_refusal(msg, outside, true) {
                    Some(reply) => refused(s, reply),
                    None => saved_or_refused(s, msg, now),
                }
            },
            _ => failed(s, Failure::Malformed),
        }
    }
}

/// `updateFeedView`: a caller that may change a feed updates a view over it.
pub open spec fn update_feed_view_outcome(s: StoreSpec, msg: MessageValideSpec, now: i64)
    -> Outcome {
    if msg.certificat.user_id is None {
        refused(s, refusal_certificate())
    } else {
        match msg.contenu {
            ContenuSpec::UpdateFeedView(c) => if !writable_feed(s, msg.certificat, c.feed_id) {
                refused(s, refusal_feed())
            } else {
                saved_or_refused(s, msg, now)
            },
            _ => failed(s, Failure::Malformed),
        }
    }
}

/// Saves and applies a transaction, or says why not.
fn save_or_refuse(store: &mut Store, message: MessageValide, now: i64) -> (r: Result<
    Handled,
    Failure,
>)
    requires
        old(store)@.wf(),
    ensures
        (final(store)@, handled_view(r)) == saved_or_refused(
            old(store)@,
            message.deep_view(),
            now,
        ),
        final(store)@.wf(),
{
    match save_transaction(store, message, now) {
        Ok(()) => Ok(Handled::reply(Reply::ok())),
        Err(e) => {
            let text = e.to_text();
            let code: i64 = match e {
                ApplyError::Duplicate => CODE_DUPLICATE,
                _ => CODE_GENERIC,
            };
            Ok(Handled::reply(Reply::error(code, text.as_str())))
        },
    }
}

/// Handles `createFeedView`.
pub fn command_create_feed_view(
    store: &mut Store,
    message: MessageValide,
    outside: &Outside,
    now: i64,
) -> (r: Result<Handled, Failure>)
    requires
        old(store)@.wf(),
    ensures
        (final(store)@, handled_view(r)) == create_feed_view_outcome(
            old(store)@,
            message.deep_view(),
            outside.deep_view(),
            now,
        ),
        final(store)@.wf(),
{
    if message.certificat.user_id.is_none() {
        return Ok(Handled::reply(Reply::error(CODE_UNAUTHORIZED, "Invalid certificate")));
    }
    let allowed = match &message.contenu {
        Contenu::CreateFeedView(c) => may_create_view(
            store,
            &message.certificat,
            c.feed_id.as_str(),
        ),
        _ => {
            return Err(Failure::Malformed);
        },
    };
    if !allowed {
        return Ok(
            Handled::reply(Reply::error(CODE_NOT_FOUND, "Feed not found / access refused")),
        );
    }
    match check_attached_key(&message, outside, true) {
        Some(reply) => Ok(Handled::reply(reply)),
        None => save_or_refuse(store, message, now),
    }
}

/// Handles `updateFeedView`.
pub fn command_update_feed_view(store: &mut Store, message: MessageValide, now: i64) -> (r: Result<
    Handled,
    Failure,
>)
    requires
        old(store)@.wf(),
    ensures
        (final(store)@, handled_view(r)) == update_feed_view_outcome(
            old(store)@,
            message.deep_view(),
            now,
        ),
        final(store)@.wf(),
{
    if message.certificat.user_id.is_none() {
        return Ok(Handled::reply(Reply::error(CODE_UNAUTHORIZED, "Invalid certificate")));
    }
    let allowed = match &message.contenu {
        Contenu::UpdateFeedView(c) => may_write_feed(
            store,
            &message.certificat,
            c.feed_id.as_str(),
        ),
        _ => {
            return Err(Failure::Malformed);
        },
    };
    if !allowed {
        return Ok(
            Handled::reply(Reply::error(CODE_NOT_FOUND, "Feed not found / access refused")),
        );
    }
    save_or_refuse(store, message, now)
}

/// A view at the start of a processing run: not ready, and dated.
pub open spec fn started_view(v: FeedViewRowSpec, now: i64) -> FeedViewRowSpec {
    FeedViewRowSpec {
        ready: false,
        modification_date: now,
        processing_start_date: Some(now),
        ..v
    }
}

/// The views when a processing run of one of them starts.
pub open spec fn views_started(views: Seq<FeedViewRowSpec>, feed_view_id: Seq<char>, now: i64)
    -> Seq<FeedViewRowSpec> {
    Seq::new(
        views.len(),
        |i: int|
            if views[i].feed_view_id == feed_view_id {
                started_view(views[i], now)
            } else {
                views[i]
            },
    )
}

/// What the caller is told of what the mapper answered: whatever the mapper
/// says where it does not confirm, as the mapper says it. Nothing is told
/// where the mapper could not be asked.
pub open spec fn mapper_reply(outcome: MapperOutcomeSpec) -> Option<ReplySpec> {
    match outcome {
        MapperOutcomeSpec::Confirmation { ok, code, err } => if ok == Some(true) {
            Some(reply_ok())
        } else {
            Some(ReplySpec { ok: false, code: code, err: err, message: None })
        },
        MapperOutcomeSpec::Unreadable => Some(reply_err(CODE_INTERNAL, "Error in response"@)),
        MapperOutcomeSpec::NoReply => Some(
            reply_err(CODE_INTERNAL, "No response when starting process"@),
        ),
        MapperOutcomeSpec::Transport => None,
    }
}

/// `processView`: a caller that may change the feed of a view has the view
/// processed anew. The view is marked as not ready, the mapper is asked to
/// process it, and the caller is told what the mapper answered. Where the
/// mapper could not be asked at all, nothing has changed.
pub open spec fn process_view_outcome(
    s: StoreSpec,
    msg: MessageValideSpec,
    outside: OutsideSpec,
    now: i64,
) -> Outcome {
    if msg.certificat.user_id is None {
        refused(s, refusal_certificate())
    } else {
        match msg.contenu {
            ContenuSpec::ProcessView(c) => match row_of::<FeedViewRow>(
                s.feed_views,
                (c.feed_view_id, None),
            ) {
                None => refused(s, reply_err(CODE_NOT_FOUND, "No such feed view"@)),
                Some(view) => if !writable_feed(s, msg.certificat, view.feed_id) {
                    refused(s, refusal_feed())
                } else {
                    match mapper_reply(outside.mapper) {
                        None => failed(s, Failure::Transport),
                        Some(reply) => (
                            StoreSpec {
                                feed_views: views_started(s.feed_views, c.feed_view_id, now),
                                ..s
                            },
                            Ok(
                                HandledSpec {
                                    reply: reply,
                                    effects: seq![
                                        SideEffectSpec::ProcessFeedView {
                                            feed_id: view.feed_id,
                                            feed_view_id: view.feed_view_id,
                                        },
                                    ],
                                },
                            ),
                        ),
                    }
                },
            },
            _ => failed(s, Failure::Malformed),
        }
    }
}

/// What the caller is told of what the mapper answered.
pub fn reply_of_mapper(outcome: &MapperOutcome) -> (r: Option<Reply>)
    ensures
        r.deep_view() == mapper_reply(outcome.deep_view()),
{
    match outcome {
        MapperOutcome::Confirmation { ok, code, err } => {
            let confirmed = match ok {
                Some(b) => *b,
                None => false,
            };
            if confirmed {
                Some(Reply::ok())
            } else {
                Some(Reply::relayed(*code, &None, err))
            }
        },
        MapperOutcome::Unreadable => Some(Reply::error(CODE_INTERNAL, "Error in response")),
        MapperOutcome::NoReply => Some(
            Reply::error(CODE_INTERNAL, "No response when starting process"),
        ),
        MapperOutcome::Transport => None,
    }
}

/// Handles `processView`.
pub fn command_process_view(
    store: &mut Store,
    message: MessageValide,
    outside: &Outside,
    now: i64,
) -> (r: Result<Handled, Failure>)
    requires
        old(store)@.wf(),
    ensures
        (final(store)@, handled_view(r)) == process_view_outcome(
            old(store)@,
            message.deep_view(),
            outside.deep_view(),
            now,
        ),
        final(store)@.wf(),
{
    if message.certificat.user_id.is_none() {
        return Ok(Handled::reply(Reply::error(CODE_UNAUTHORIZED, "Invalid certificate")));
    }
    let feed_view_id: String = match &message.contenu {
        Contenu::ProcessView(c) => c.feed_view_id.clone(),
        _ => {
            return Err(Failure::Malformed);
        },
    };
    let ghost before = store.feed_views.deep_view();
    let at: usize = match position(&store.feed_views, feed_view_id.as_str(), None) {
        Some(i) => i,
        None => {
            return Ok(Handled::reply(Reply::error(CODE_NOT_FOUND, "No such feed view")));
        },
    };
    proof {
        lemma_index_of::<FeedViewRow>(before, at as int);
        assert(before[at as int] == store.feed_views[at as int].deep_view());
    }
    let feed_id: String = store.feed_views[at].feed_id.clone();
    if !may_write_feed(store, &message.certificat, feed_id.as_str()) {
        return Ok(
            Handled::reply(Reply::error(CODE_NOT_FOUND, "Feed not found / access refused")),
        );
    }
    let reply: Reply = match reply_of_mapper(&outside.mapper) {
        Some(reply) => reply,
        None => {
            return Err(Failure::Transport);
        },
    };
    assert forall|j: int| 0 <= j < before.len() && j != at implies (
    #[trigger] before[j]).feed_view_id != feed_view_id@ by {
        if j < at {
            assert(FeedViewRow::key_of(before[j]) != FeedViewRow::key_of(before[at as int]));
        } else {
            assert(FeedViewRow::key_of(before[at as int]) != FeedViewRow::key_of(before[j]));
        }
    }
    let row = &mut store.feed_views[at];
    row.ready = false;
    row.modification_date = now;
    row.processing_start_date = Some(now);
    assert(store.feed_views.deep_view() =~= views_started(before, feed_view_id@, now));
    proof {
        let after = store.feed_views.deep_view();
        assert forall|i: int, j: int| 0 <= i < j < after.len() implies FeedViewRow::key_of(
            #[trigger] after[i],
        ) != FeedViewRow::key_of(#[trigger] after[j]) by {
            assert(FeedViewRow::key_of(after[i]) == FeedViewRow::key_of(before[i]));
            assert(FeedViewRow::key_of(after[j]) == FeedViewRow::key_of(before[j]));
        }
    }
    let mut effects: Vec<SideEffect> = Vec::new();
    effects.push(SideEffect::ProcessFeedView { feed_id: feed_id, feed_view_id: feed_view_id });
    assert(effects.deep_view() =~= seq![
        SideEffectSpec::ProcessFeedView {
            feed_id: before[at as int].feed_id,
            feed_view_id: before[at as int].feed_view_id,
        },
    ]);
    Ok(Handled { reply: reply, effects: effects })
}

/// The rows of a view collection without those of one view of one feed.
pub open spec fn rows_without(
    rows: Seq<FeedViewGroupedDatedRowSpec>,
    feed_id: Seq<char>,
    feed_view_id: Seq<char>,
) -> Seq<FeedViewGroupedDatedRowSpec>
    decreases rows.len(),
{
    if rows.len() == 0 {
        rows
    } else {
        let before = rows_without(rows.drop_last(), feed_id, feed_view_id);
        if rows.last().feed_id == feed_id && rows.last().feed_view_id == feed_view_id {
            before
        } else {
            before.push(rows.last())
        }
    }
}

/// The rows of a view collection after a batch is written: row after row,
/// each is added unless the collection has a row of its key already, which
/// then stays as it is. That is so whether the mapper asks for rows to be
/// looked up one by one or leaves it to the collection to refuse those that
/// it has.
pub open spec fn rows_added(
    rows: Seq<FeedViewGroupedDatedRowSpec>,
    items: Seq<FeedViewGroupedDatedItemSpec>,
) -> Seq<FeedViewGroupedDatedRowSpec>
    decreases items.len(),
{
    if items.len() == 0 {
        rows
    } else {
        inserted::<FeedViewGroupedDatedRow>(
            rows_added(rows, items.drop_last()),
            items.last().row(),
        )
    }
}

/// The rows of a view collection after the mapper has written back: what
/// the view had is removed first where the mapper asks for it, then the
/// batch is written.
pub open spec fn rows_written(
    rows: Seq<FeedViewGroupedDatedRowSpec>,
    c: InsertFeedViewGroupedDatedRequestSpec,
) -> Seq<FeedViewGroupedDatedRowSpec> {
    rows_added(
        if c.truncate == Some(true) {
            rows_without(rows, c.feed_id, c.feed_view_id)
        } else {
            rows
        },
        c.data,
    )
}

/// The kind of data of a view: grouped and dated where the view says
/// nothing; none where it names a kind that is not known.
pub open spec fn data_type_of_view(v: FeedViewRowSpec) -> Option<ViewDataType> {
    match v.data_type {
        None => Some(ViewDataType::GroupedDated),
        Some(name) => view_data_type_of(name),
    }
}

/// Whether there is a feed of this id that is not deleted.
pub open spec fn live_feed(s: StoreSpec, feed_id: Seq<char>) -> bool {
    match row_of::<DataFeedRow>(s.feeds, (feed_id, None)) {
        Some(feed) => !feed.deleted,
        None => false,
    }
}

/// The view of this id, if there is one and it is not deleted.
pub open spec fn live_view(s: StoreSpec, feed_view_id: Seq<char>) -> Option<FeedViewRowSpec> {
    match row_of::<FeedViewRow>(s.feed_views, (feed_view_id, None)) {
        Some(view) => if view.deleted {
            None
        } else {
            Some(view)
        },
        None => None,
    }
}

/// `insertViewData`: the mapper writes the rows of a view back. Feed and
/// view must be there and not deleted; the rows go to the collection of the
/// kind of data of the view.
pub open spec fn insert_view_data_outcome(s: StoreSpec, msg: MessageValideSpec) -> Outcome {
    match module_refusal(msg.certificat, ROLE_DATASOURCE_MAPPER@, Securite::L3Protege) {
        Some(reply) => refused(s, reply),
        None => match msg.contenu {
            ContenuSpec::InsertViewData(c) => if !live_feed(s, c.feed_id) {
                refused(s, reply_err(CODE_NOT_FOUND, "Unknown feed_id"@))
            } else {
                match live_view(s, c.feed_view_id) {
                    None => refused(s, reply_err(CODE_NOT_FOUND, "Unknown feed_view_id"@)),
                    Some(view) => match data_type_of_view(view) {
                        None => failed(s, Failure::UnsupportedDataType),
                        Some(ViewDataType::Dated) => done(
                            StoreSpec { view_dated: rows_written(s.view_dated, c), ..s },
                            Seq::empty(),
                        ),
                        Some(ViewDataType::GroupedDated) => done(
                            StoreSpec {
                                view_grouped_dated: rows_written(s.view_grouped_dated, c),
                                ..s
                            },
                            Seq::empty(),
                        ),
                    },
                }
            },
            _ => failed(s, Failure::Malformed),
        },
    }
}

/// Whatever is left when the rows of one view are removed was there before,
/// so the keys stay distinct.
pub proof fn lemma_rows_without(
    rows: Seq<FeedViewGroupedDatedRowSpec>,
    feed_id: Seq<char>,
    feed_view_id: Seq<char>,
)
    ensures
        forall|r: FeedViewGroupedDatedRowSpec|
            rows_without(rows, feed_id, feed_view_id).contains(r) ==> rows.contains(r) && !(
            r.feed_id == feed_id && r.feed_view_id == feed_view_id),
        distinct_keys::<FeedViewGroupedDatedRow>(rows) ==> distinct_keys::<
            FeedViewGroupedDatedRow,
        >(rows_without(rows, feed_id, feed_view_id)),
    decreases rows.len(),
{
    if rows.len() > 0 {
        let head = rows.drop_last();
        lemma_rows_without(head, feed_id, feed_view_id);
        let before = rows_without(head, feed_id, feed_view_id);
        let after = rows_without(rows, feed_id, feed_view_id);
        assert forall|r: FeedViewGroupedDatedRowSpec| after.contains(r) implies rows.contains(r)
            && !(r.feed_id == feed_id && r.feed_view_id == feed_view_id) by {
            let k = choose|k: int| 0 <= k < after.len() && after[k] == r;
            if k < before.len() {
                assert(before[k] == r);
                assert(before.contains(r));
                assert(head.contains(r));
                let i = choose|i: int| 0 <= i < head.len() && head[i] == r;
                assert(head[i] == rows[i]);
                assert(rows[i] == r);
            } else {
                assert(after == before.push(rows.last()));
                assert(rows[rows.len() - 1] == r);
            }
        }
        if distinct_keys::<FeedViewGroupedDatedRow>(rows) {
            assert(distinct_keys::<FeedViewGroupedDatedRow>(head)) by {
                assert forall|i: int, j: int| 0 <= i < j < head.len() implies
                    FeedViewGroupedDatedRow::key_of(#[trigger] head[i])
                    != FeedViewGroupedDatedRow::key_of(#[trigger] head[j]) by {
                    assert(head[i] == rows[i] && head[j] == rows[j]);
                }
            }
            assert forall|i: int, j: int| 0 <= i < j < after.len() implies
                FeedViewGroupedDatedRow::key_of(#[trigger] after[i])
                != FeedViewGroupedDatedRow::key_of(#[trigger] after[j]) by {
                if j < before.len() {
                    assert(after[i] == before[i] && after[j] == before[j]);
                } else {
                    assert(after[i] == before[i]);
                    assert(before.contains(before[i]));
                    assert(head.contains(before[i]));
                    let k = choose|k: int| 0 <= k < head.len() && head[k] == before[i];
                    assert(head[k] == rows[k]);
                    assert(rows[k] == before[i]);
                    assert(after[j] == rows[rows.len() - 1]);
                    assert(FeedViewGroupedDatedRow::key_of(rows[k])
                        != FeedViewGroupedDatedRow::key_of(rows[rows.len() - 1]));
                }
            }
        }
    }
}

/// Writing a batch keeps the rows that were there, at their places and as
/// they were, and keeps the keys distinct; and every row of the batch has
/// its key in the collection afterwards.
pub proof fn lemma_rows_added(
    rows: Seq<FeedViewGroupedDatedRowSpec>,
    items: Seq<FeedViewGroupedDatedItemSpec>,
)
    ensures
        rows_added(rows, items).len() >= rows.len(),
        rows_added(rows, items).take(rows.len() as int) == rows,
        distinct_keys::<FeedViewGroupedDatedRow>(rows) ==> distinct_keys::<
            FeedViewGroupedDatedRow,
        >(rows_added(rows, items)),
        forall|k: int|
            0 <= k < items.len() ==> holds_key::<FeedViewGroupedDatedRow>(
                rows_added(rows, items),
                FeedViewGroupedDatedRow::key_of((#[trigger] items[k]).row()),
            ),
        forall|j: int|
            rows.len() <= j < rows_added(rows, items).len() ==> exists|k: int|
                0 <= k < items.len() && items[k].row() == #[trigger] rows_added(rows, items)[j],
    decreases items.len(),
{
    let after = rows_added(rows, items);
    if items.len() == 0 {
        assert(after.take(rows.len() as int) =~= rows);
    } else {
        let head = items.drop_last();
        let before = rows_added(rows, head);
        lemma_rows_added(rows, head);
        let row = items.last().row();
        let key = FeedViewGroupedDatedRow::key_of(row);
        if distinct_keys::<FeedViewGroupedDatedRow>(rows) {
            lemma_inserted_distinct::<FeedViewGroupedDatedRow>(before, row);
        }
        assert(after.take(rows.len() as int) =~= before.take(rows.len() as int));
        assert forall|k: int| 0 <= k < items.len() implies holds_key::<FeedViewGroupedDatedRow>(
            after,
            FeedViewGroupedDatedRow::key_of((#[trigger] items[k]).row()),
        ) by {
            if k < head.len() {
                assert(head[k] == items[k]);
                let wanted = FeedViewGroupedDatedRow::key_of(head[k].row());
                assert(holds_key::<FeedViewGroupedDatedRow>(before, wanted));
                let i = choose|i: int|
                    0 <= i < before.len() && FeedViewGroupedDatedRow::key_of(
                        #[trigger] before[i],
                    ) == wanted;
                assert(after[i] == before[i]);
            } else {
                if holds_key::<FeedViewGroupedDatedRow>(before, key) {
                } else {
                    assert(after[before.len() as int] == row);
                }
            }
        }
        assert forall|j: int| rows.len() <= j < after.len() implies exists|k: int|
            0 <= k < items.len() && items[k].row() == #[trigger] after[j] by {
            if j < before.len() {
                assert(after[j] == before[j]);
                let k = choose|k: int| 0 <= k < head.len() && head[k].row() == before[j];
                assert(items[k].row() == after[j]);
            } else {
                assert(items[items.len() - 1].row() == after[j]);
            }
        }
    }
}

/// Removes the rows of one view of one feed.
fn remove_rows(rows: &mut Vec<FeedViewGroupedDatedRow>, feed_id: &str, feed_view_id: &str)
    ensures
        final(rows).deep_view() == rows_without(old(rows).deep_view(), feed_id@, feed_view_id@),
{
    let ghost before = rows.deep_view();
    let mut kept: Vec<FeedViewGroupedDatedRow> = Vec::new();
    let mut i: usize = 0;
    assert(before.take(0) =~= Seq::empty());
    assert(kept.deep_view() =~= Seq::empty());
    while i < rows.len()
        invariant
            i <= rows.len(),
            before == rows.deep_view(),
            kept.deep_view() == rows_without(before.take(i as int), feed_id@, feed_view_id@),
        decreases rows.len() - i,
    {
        let ghost so_far = kept.deep_view();
        assert(before.take(i + 1).drop_last() =~= before.take(i as int));
        assert(before.take(i + 1).last() == rows[i as int].deep_view());
        if !(same_text(rows[i].feed_id.as_str(), feed_id) && same_text(
            rows[i].feed_view_id.as_str(),
            feed_view_id,
        )) {
            kept.push(rows[i].clone());
            assert(kept.deep_view() =~= so_far.push(rows[i as int].deep_view()));
        }
        i = i + 1;
    }
    assert(before.take(i as int) =~= before);
    *rows = kept;
}

/// Writes what the mapper hands in to a view collection.
fn write_rows(rows: &mut Vec<FeedViewGroupedDatedRow>, command: &InsertFeedViewGroupedDatedRequest)
    requires
        distinct_keys::<FeedViewGroupedDatedRow>(old(rows).deep_view()),
    ensures
        final(rows).deep_view() == rows_written(old(rows).deep_view(), command.deep_view()),
        distinct_keys::<FeedViewGroupedDatedRow>(final(rows).deep_view()),
{
    let ghost c = command.deep_view();
    let truncate: bool = match command.truncate {
        Some(b) => b,
        None => false,
    };
    proof {
        lemma_rows_without(rows.deep_view(), c.feed_id, c.feed_view_id);
    }
    if truncate {
        remove_rows(rows, command.feed_id.as_str(), command.feed_view_id.as_str());
    }
    let ghost start = rows.deep_view();
    proof {
        lemma_rows_added(start, c.data);
    }
    let mut i: usize = 0;
    assert(c.data.take(0) =~= Seq::empty());
    while i < command.data.len()
        invariant
            i <= command.data.len(),
            c == command.deep_view(),
            rows.deep_view() == rows_added(start, c.data.take(i as int)),
        decreases command.data.len() - i,
    {
        assert(c.data.take(i + 1).drop_last() =~= c.data.take(i as int));
        assert(c.data.take(i + 1).last() == command.data[i as int].deep_view());
        let row: FeedViewGroupedDatedRow = command.data[i].clone().into();
        let _ = insert_unique(rows, row);
        i = i + 1;
    }
    assert(c.data.take(i as int) =~= c.data);
}

/// Handles `insertViewData`.
pub fn command_insert_feed_view_data(store: &mut Store, message: MessageValide) -> (r: Result<
    Handled,
    Failure,
>)
    requires
        old(store)@.wf(),
    ensures
        (final(store)@, handled_view(r)) == insert_view_data_outcome(
            old(store)@,
            message.deep_view(),
        ),
        final(store)@.wf(),
{
    match message.certificat.mapper_refusal() {
        Some(reply) => {
            return Ok(Handled::reply(reply));
        },
        None => {},
    }
    match &message.contenu {
        Contenu::InsertViewData(command) => {
            let live = match find(&store.feeds, command.feed_id.as_str(), None) {
                Some(feed) => !feed.deleted,
                None => false,
            };
            if !live {
                return Ok(Handled::reply(Reply::error(CODE_NOT_FOUND, "Unknown feed_id")));
            }
            let data_type: Result<ViewDataType, UnsupportedType> = match find(
                &store.feed_views,
                command.feed_view_id.as_str(),
                None,
            ) {
                Some(view) => {
                    if view.deleted {
                        return Ok(
                            Handled::reply(Reply::error(CODE_NOT_FOUND, "Unknown feed_view_id")),
                        );
                    }
                    match &view.data_type {
                        Some(name) => ViewDataType::try_from(name.as_str()),
                        None => Ok(ViewDataType::GroupedDated),
                    }
                },
                None => {
                    return Ok(
                        Handled::reply(Reply::error(CODE_NOT_FOUND, "Unknown feed_view_id")),
                    );
                },
            };
            match data_type {
                Err(_) => Err(Failure::UnsupportedDataType),
                Ok(ViewDataType::Dated) => {
                    write_rows(&mut store.view_dated, command);
                    Ok(Handled::reply(Reply::ok()))
                },
                Ok(ViewDataType::GroupedDated) => {
                    write_rows(&mut store.view_grouped_dated, command);
                    Ok(Handled::reply(Reply::ok()))
                },
            }
        },
        _ => Err(Failure::Malformed),
    }
}

/// What a command comes to. While the collections are being rebuilt, every
/// command is turned away; a sender that is not admitted, or a message that
/// is no command, fails; an action that is not known is answered as such.
pub open spec fn command_outcome(
    s: StoreSpec,
    regeneration: bool,
    msg: MessageValideSpec,
    outside: OutsideSpec,
    now: i64,
) -> Outcome {
    if regeneration {
        refused(s, reply_err(CODE_REGENERATING, "System rebuild in progress"@))
    } else if !msg.certificat.is_admitted() {
        failed(s, Failure::AccessDenied)
    } else if msg.kind != MessageKind::Commande {
        failed(s, Failure::BadMessageType)
    } else if msg.action == TRANSACTION_CREATE_FEED@ {
        create_feed_outcome(s, msg, outside, now)
    } else if msg.action == TRANSACTION_UPDATE_FEED@ {
        feed_command_outcome(s, msg, update_feed_target(msg.contenu), now)
    } else if msg.action == TRANSACTION_DELETE_FEED@ {
        feed_command_outcome(s, msg, delete_feed_target(msg.contenu), now)
    } else if msg.action == TRANSACTION_RESTORE_FEED@ {
        feed_command_outcome(s, msg, restore_feed_target(msg.contenu), now)
    } else if msg.action == TRANSACTION_SAVE_DATA_ITEM@ {
        save_data_item_outcome(s, msg, outside, now)
    } else if msg.action == TRANSACTION_SAVE_DATA_ITEM_V2@ {
        save_data_item_v2_outcome(s, msg, outside, now)
    } else if msg.action == TRANSACTION_CREATE_FEED_VIEW@ {
        create_feed_view_outcome(s, msg, outside, now)
    } else if msg.action == TRANSACTION_UPDATE_FEED_VIEW@ {
        update_feed_view_outcome(s, msg, now)
    } else if msg.action == COMMAND_ADD_FUUIDS_VOLATILE@ {
        add_fuuids_volatile_outcome(s, msg, now)
    } else if msg.action == COMMAND_PROCESS_VIEW@ {
        process_view_outcome(s, msg, outside, now)
    } else if msg.action == COMMAND_INSERT_VIEW_DATA@ {
        insert_view_data_outcome(s, msg)
    } else {
        refused(s, reply_err(CODE_UNKNOWN_ACTION, "Unknown command"@))
    }
}

/// Handles a command.
pub fn consume_command(
    store: &mut Store,
    regeneration: bool,
    message: MessageValide,
    outside: &Outside,
    now: i64,
) -> (r: Result<Handled, Failure>)
    requires
        old(store)@.wf(),
        now + VOLATILE_LIFETIME <= i64::MAX,
    ensures
        (final(store)@, handled_view(r)) == command_outcome(
            old(store)@,
            regeneration,
            message.deep_view(),
            outside.deep_view(),
            now,
        ),
        final(store)@.wf(),
        r is Err ==> final(store)@ == old(store)@,
{
    if regeneration {
        return Ok(
            Handled::reply(Reply::error(CODE_REGENERATING, "System rebuild in progress")),
        );
    }
    if !message.certificat.is_admitted() {
        return Err(Failure::AccessDenied);
    }
    if message.kind != MessageKind::Commande {
        return Err(Failure::BadMessageType);
    }
    let action: String = message.action.clone();
    let action = action.as_str();
    if same_text(action, TRANSACTION_CREATE_FEED) {
        command_create_feed(store, message, outside, now)
    } else if same_text(action, TRANSACTION_UPDATE_FEED) {
        command_update_feed(store, message, now)
    } else if same_text(action, TRANSACTION_DELETE_FEED) {
        command_delete_feed(store, message, now)
    } else if same_text(action, TRANSACTION_RESTORE_FEED) {
        command_restore_feed(store, message, now)
    } else if same_text(action, TRANSACTION_SAVE_DATA_ITEM) {
        command_save_data_item(store, message, outside, now)
    } else if same_text(action, TRANSACTION_SAVE_DATA_ITEM_V2) {
        command_save_data_item_v2(store, message, outside, now)
    } else if same_text(action, TRANSACTION_CREATE_FEED_VIEW) {
        command_create_feed_view(store, message, outside, now)
    } else if same_text(action, TRANSACTION_UPDATE_FEED_VIEW) {
        command_update_feed_view(store, message, now)
    } else if same_text(action, COMMAND_ADD_FUUIDS_VOLATILE) {
        command_add_fuuids_volatile(store, message, now)
    } else if same_text(action, COMMAND_PROCESS_VIEW) {
        command_process_view(store, message, outside, now)
    } else if same_text(action, COMMAND_INSERT_VIEW_DATA) {
        command_insert_feed_view_data(store, message)
    } else {
        Ok(Handled::reply(Reply::error(CODE_UNKNOWN_ACTION, "Unknown command")))
    }
}

/// A data item that its feed holds already is refused as a duplicate:
/// nothing is saved, nothing is claimed, and the key master is of no
/// account.
pub proof fn lemma_duplicate_data_item_refused(
    s: StoreSpec,
    msg: MessageValideSpec,
    outside: OutsideSpec,
    now: i64,
)
    requires
        msg.kind == MessageKind::Commande,
        msg.action == TRANSACTION_SAVE_DATA_ITEM@,
        msg.certificat.is_scraper(),
        msg.contenu is SaveDataItem,
        holds_key::<DataCollectorRow>(
            s.data_items,
            (msg.contenu->SaveDataItem_0.data_id, Some(msg.contenu->SaveDataItem_0.feed_id)),
        ),
    ensures
        command_outcome(s, false, msg, outside, now) == refused(s, refusal_duplicate()),
        refusal_duplicate().code == Some(CODE_DUPLICATE),
{
    lemma_transaction_names_differ();
    assert(msg.certificat.exchanges.len() > 0) by {
        let i = choose|i: int|
            0 <= i < msg.certificat.exchanges.len() && msg.certificat.exchanges[i]
                == Securite::L1Public;
    }
}

/// A data file whose id is taken, in whatever feed, is refused as a
/// duplicate once its key, if it brings one, is in safekeeping: nothing is
/// saved and nothing is claimed.
pub proof fn lemma_duplicate_data_file_refused(
    s: StoreSpec,
    msg: MessageValideSpec,
    outside: OutsideSpec,
    now: i64,
)
    requires
        s.wf(),
        msg.kind == MessageKind::Commande,
        msg.action == TRANSACTION_SAVE_DATA_ITEM_V2@,
        msg.certificat.is_scraper(),
        msg.contenu is SaveDataItemV2,
        msg.attached_key is None || outside.key_escrow is Saved,
        holds_key::<DataCollectorFilesRow>(
            s.data_files,
            (msg.contenu->SaveDataItemV2_0.data_id, None),
        ),
    ensures
        command_outcome(s, false, msg, outside, now) == refused(s, refusal_duplicate()),
{
    lemma_transaction_names_differ();
    assert(msg.certificat.exchanges.len() > 0) by {
        let i = choose|i: int|
            0 <= i < msg.certificat.exchanges.len() && msg.certificat.exchanges[i]
                == Securite::L1Public;
    }
}

/// A data file whose id is taken, in whatever feed, is not saved a second
/// time: the transaction fails as a duplicate and changes nothing.
pub proof fn lemma_data_file_id_taken(s: StoreSpec, tx: MessageValideSpec, now: i64)
    requires
        tx.action == TRANSACTION_SAVE_DATA_ITEM_V2@,
        tx.certificat.is_scraper(),
        tx.contenu is SaveDataItemV2,
        holds_key::<DataCollectorFilesRow>(
            s.data_files,
            (tx.contenu->SaveDataItemV2_0.data_id, None),
        ),
    ensures
        apply(s, tx, now) == (s, Err::<(), ApplyError>(ApplyError::Duplicate)),
{
    lemma_transaction_names_differ();
}

/// A view that a command creates is a view over a feed that is there, that
/// is not deleted, and that the caller may change; it carries the id of the
/// command and names that feed. Where there is no such feed, whether it is
/// missing, deleted or another's, the caller is told that the feed is not
/// found, and nothing changes.
pub proof fn lemma_created_view_has_feed(
    s: StoreSpec,
    msg: MessageValideSpec,
    outside: OutsideSpec,
    now: i64,
)
    requires
        s.wf(),
        msg.kind == MessageKind::Commande,
        msg.certificat.is_admitted(),
        msg.certificat.user_id is Some,
        msg.action == TRANSACTION_CREATE_FEED_VIEW@,
        msg.contenu is CreateFeedView,
    ensures
        ({
            let c = msg.contenu->CreateFeedView_0;
            let after = command_outcome(s, false, msg, outside, now);
            let live = exists|i: int|
                0 <= i < s.feeds.len() && (#[trigger] s.feeds[i]).feed_id == c.feed_id
                    && !s.feeds[i].deleted && may_write(msg.certificat, s.feeds[i]);
            &&& !live ==> after == refused(s, refusal_feed())
            &&& after.0 != s ==> live && after.0.feed_views == s.feed_views.push(
                created_feed_view(msg, c, now),
            ) && after.0.feed_views.last().feed_view_id == msg.id
                && after.0.feed_views.last().feed_id == c.feed_id
        }),
{
    lemma_transaction_names_differ();
    let c = msg.contenu->CreateFeedView_0;
    if holds_key::<DataFeedRow>(s.feeds, (c.feed_id, None)) {
        let at = index_of::<DataFeedRow>(s.feeds, (c.feed_id, None));
        assert(0 <= at < s.feeds.len() && s.feeds[at].feed_id == c.feed_id);
        assert forall|i: int|
            0 <= i < s.feeds.len() && (#[trigger] s.feeds[i]).feed_id == c.feed_id implies i
            == at by {
            lemma_index_of::<DataFeedRow>(s.feeds, i);
        }
    } else {
        assert forall|i: int| 0 <= i < s.feeds.len() implies (#[trigger] s.feeds[i]).feed_id
            != c.feed_id by {
            assert(DataFeedRow::key_of(s.feeds[i]) != (c.feed_id, None::<Seq<char>>));
        }
    }
}

/// After volatile files are published, every row that was there is there
/// as it was, but for the date of modification of those that were published
/// again. Every row that came new is the row of one of the files: it
/// carries what the file carries, was created now and expires when the
/// command says. And every file whose correlation was not known has its
/// row: the row of the first file of that correlation.
pub proof fn lemma_volatiles_added(
    rows: Seq<VolatileFileRowSpec>,
    files: Seq<FuuidVolatileSpec>,
    expiration: i64,
    now: i64,
)
    ensures
        volatiles_added(rows, files, expiration, now).len() >= rows.len(),
        forall|i: int|
            0 <= i < rows.len() ==> (#[trigger] volatiles_added(rows, files, expiration, now)[i])
                == rows[i] || volatiles_added(rows, files, expiration, now)[i]
                == (VolatileFileRowSpec { modified: now, ..rows[i] }),
        forall|j: int|
            rows.len() <= j < volatiles_added(rows, files, expiration, now).len() ==> exists|
                k: int,
            |
                0 <= k < files.len() && #[trigger] volatiles_added(
                    rows,
                    files,
                    expiration,
                    now,
                )[j] == volatile_row(#[trigger] files[k], expiration, now),
        forall|k: int|
            0 <= k < files.len() && !holds_key::<VolatileFileRow>(
                rows,
                ((#[trigger] files[k]).correlation, None),
            ) && (forall|m: int| 0 <= m < k ==> (#[trigger] files[m]).correlation
                != files[k].correlation) ==> volatiles_added(
                rows,
                files,
                expiration,
                now,
            ).contains(volatile_row(files[k], expiration, now)),
        distinct_keys::<VolatileFileRow>(rows) ==> distinct_keys::<VolatileFileRow>(
            volatiles_added(rows, files, expiration, now),
        ),
        expirations_follow(rows) && expiration >= now ==> expirations_follow(
            volatiles_added(rows, files, expiration, now),
        ),
    decreases files.len(),
{
    if files.len() > 0 {
        let head = files.drop_last();
        let last = files.last();
        let before = volatiles_added(rows, head, expiration, now);
        lemma_volatiles_added(rows, head, expiration, now);
        if distinct_keys::<VolatileFileRow>(rows) {
            lemma_volatile_upserted_distinct(before, last, expiration, now);
        }
        if expirations_follow(rows) && expiration >= now {
            lemma_volatile_upserted_follows(before, last, expiration, now);
        }
        let after = volatiles_added(rows, files, expiration, now);
        assert(after == volatile_upserted(before, last, expiration, now));
        assert forall|i: int| 0 <= i < rows.len() implies (#[trigger] after[i]) == rows[i]
            || after[i] == (VolatileFileRowSpec { modified: now, ..rows[i] }) by {
            assert(before[i] == rows[i] || before[i] == (VolatileFileRowSpec {
                modified: now,
                ..rows[i]
            }));
        }
        assert forall|j: int| rows.len() <= j < after.len() implies exists|k: int|
            0 <= k < files.len() && #[trigger] after[j] == volatile_row(
                #[trigger] files[k],
                expiration,
                now,
            ) by {
            if j < before.len() {
                let k = choose|k: int|
                    0 <= k < head.len() && #[trigger] before[j] == volatile_row(
                        #[trigger] head[k],
                        expiration,
                        now,
                    );
                assert(head[k] == files[k]);
                assert(after[j] == before[j]);
                assert(after[j] == volatile_row(files[k], expiration, now));
            } else {
                assert(after[j] == volatile_row(files[files.len() - 1], expiration, now));
            }
        }
        assert forall|k: int|
            0 <= k < files.len() && !holds_key::<VolatileFileRow>(
                rows,
                ((#[trigger] files[k]).correlation, None),
            ) && (forall|m: int| 0 <= m < k ==> (#[trigger] files[m]).correlation
                != files[k].correlation) implies after.contains(
            volatile_row(files[k], expiration, now),
        ) by {
            let row = volatile_row(files[k], expiration, now);
            if k < head.len() {
                assert(head[k] == files[k]);
                assert forall|m: int| 0 <= m < k implies (#[trigger] head[m]).correlation
                    != head[k].correlation by {
                    assert(head[m] == files[m]);
                }
                assert(before.contains(row));
                let q = choose|q: int| 0 <= q < before.len() && before[q] == row;
                assert(after[q] == row);
            } else {
                assert(files[k] == last);
                if holds_key::<VolatileFileRow>(before, (last.correlation, None)) {
                    let q = choose|q: int|
                        0 <= q < before.len() && VolatileFileRow::key_of(#[trigger] before[q])
                            == (last.correlation, None::<Seq<char>>);
                    if q < rows.len() {
                        assert(before[q] == rows[q] || before[q] == (VolatileFileRowSpec {
                            modified: now,
                            ..rows[q]
                        }));
                        assert(VolatileFileRow::key_of(rows[q]) == (
                            last.correlation,
                            None::<Seq<char>>,
                        ));
                    } else {
                        let m = choose|m: int|
                            0 <= m < head.len() && #[trigger] before[q] == volatile_row(
                                #[trigger] head[m],
                                expiration,
                                now,
                            );
                        assert(head[m] == files[m]);
                        assert(files[m].correlation == last.correlation);
                    }
                }
                assert(after[before.len() as int] == row);
            }
        }
    }
}

/// No volatile file expires before it was created, whatever expiration a
/// command names; and a file that is published for the first time without
/// an expiration has a row that carries what the file carries and expires a
/// week after it was created. Whatever is published, the rows that were
/// there keep their expiration and their date of creation, and no
/// transaction is made.
pub proof fn lemma_volatile_expiration(
    s: StoreSpec,
    msg: MessageValideSpec,
    outside: OutsideSpec,
    now: i64,
)
    requires
        s.wf(),
        now + VOLATILE_LIFETIME <= i64::MAX,
        msg.kind == MessageKind::Commande,
        msg.action == COMMAND_ADD_FUUIDS_VOLATILE@,
        msg.certificat.is_scraper(),
        msg.contenu is AddFuuidsVolatile,
    ensures
        ({
            let c = msg.contenu->AddFuuidsVolatile_0;
            let outcome = command_outcome(s, false, msg, outside, now);
            let after = outcome.0.volatile_files;
            &&& outcome == done(StoreSpec { volatile_files: after, ..s }, Seq::empty())
            &&& expirations_follow(after)
            &&& distinct_keys::<VolatileFileRow>(after)
            &&& after.len() >= s.volatile_files.len()
            &&& forall|j: int|
                0 <= j < s.volatile_files.len() ==> (#[trigger] after[j]).expiration
                    == s.volatile_files[j].expiration && after[j].created
                    == s.volatile_files[j].created && after[j].correlation
                    == s.volatile_files[j].correlation
            &&& forall|k: int|
                c.expiration is None && 0 <= k < c.files.len() && !holds_key::<VolatileFileRow>(
                    s.volatile_files,
                    ((#[trigger] c.files[k]).correlation, None),
                ) && (forall|m: int| 0 <= m < k ==> (#[trigger] c.files[m]).correlation
                    != c.files[k].correlation) ==> after.contains(
                    volatile_row(c.files[k], (now + VOLATILE_LIFETIME) as i64, now),
                )
            &&& forall|j: int|
                c.expiration is None && s.volatile_files.len() <= j < after.len() ==> (
                #[trigger] after[j]).expiration == after[j].created + VOLATILE_LIFETIME
        }),
{
    lemma_transaction_names_differ();
    lemma_command_names_differ();
    assert(msg.certificat.exchanges.len() > 0) by {
        let i = choose|i: int|
            0 <= i < msg.certificat.exchanges.len() && msg.certificat.exchanges[i]
                == Securite::L1Public;
    }
    assert(command_outcome(s, false, msg, outside, now) == add_fuuids_volatile_outcome(
        s,
        msg,
        now,
    ));
    let c = msg.contenu->AddFuuidsVolatile_0;
    let expiration = volatile_expiration(c, now);
    lemma_volatiles_added(s.volatile_files, c.files, expiration, now);
    let after = volatiles_added(s.volatile_files, c.files, expiration, now);
    assert forall|j: int| c.expiration is None && s.volatile_files.len() <= j < after.len() implies (
    #[trigger] after[j]).expiration == after[j].created + VOLATILE_LIFETIME by {
        let k = choose|k: int|
            0 <= k < c.files.len() && #[trigger] after[j] == volatile_row(
                #[trigger] c.files[k],
                expiration,
                now,
            );
    }
}

/// What the mapper writes back leaves the rows that the view had as they
/// were and where they were, unless it asks for them to be removed first;
/// every row of the batch is in the collection afterwards, under its key;
/// and nothing else has come in.
pub proof fn lemma_rows_written_keeps_rows(
    rows: Seq<FeedViewGroupedDatedRowSpec>,
    c: InsertFeedViewGroupedDatedRequestSpec,
)
    requires
        c.truncate != Some(true),
    ensures
        rows_written(rows, c).len() >= rows.len(),
        rows_written(rows, c).take(rows.len() as int) == rows,
        forall|k: int|
            0 <= k < c.data.len() ==> holds_key::<FeedViewGroupedDatedRow>(
                rows_written(rows, c),
                FeedViewGroupedDatedRow::key_of((#[trigger] c.data[k]).row()),
            ),
        forall|j: int|
            rows.len() <= j < rows_written(rows, c).len() ==> exists|k: int|
                0 <= k < c.data.len() && c.data[k].row() == #[trigger] rows_written(rows, c)[j],
{
    lemma_rows_added(rows, c.data);
}

/// What the mapper writes back for a view that is there and not deleted,
/// over a feed that is there and not deleted, is written: to the dated rows
/// where the view says that its data is dated, to the grouped and dated
/// rows where it says so or says nothing. Nothing else changes, and the
/// mapper is told that it is done.
pub proof fn lemma_view_data_written(
    s: StoreSpec,
    msg: MessageValideSpec,
    outside: OutsideSpec,
    now: i64,
    feed_at: int,
    view_at: int,
)
    requires
        s.wf(),
        msg.kind == MessageKind::Commande,
        msg.action == COMMAND_INSERT_VIEW_DATA@,
        msg.certificat.is_mapper(),
        msg.contenu is InsertViewData,
        0 <= feed_at < s.feeds.len(),
        s.feeds[feed_at].feed_id == msg.contenu->InsertViewData_0.feed_id,
        !s.feeds[feed_at].deleted,
        0 <= view_at < s.feed_views.len(),
        s.feed_views[view_at].feed_view_id == msg.contenu->InsertViewData_0.feed_view_id,
        !s.feed_views[view_at].deleted,
        s.feed_views[view_at].data_type is None || s.feed_views[view_at].data_type == Some(
            "Dated"@,
        ) || s.feed_views[view_at].data_type == Some("GroupedDated"@),
    ensures
        ({
            let c = msg.contenu->InsertViewData_0;
            let after = command_outcome(s, false, msg, outside, now);
            if s.feed_views[view_at].data_type == Some("Dated"@) {
                after == done(
                    StoreSpec { view_dated: rows_written(s.view_dated, c), ..s },
                    Seq::empty(),
                )
            } else {
                after == done(
                    StoreSpec { view_grouped_dated: rows_written(s.view_grouped_dated, c), ..s },
                    Seq::empty(),
                )
            }
        }),
{
    lemma_transaction_names_differ();
    lemma_command_names_differ();
    assert(msg.certificat.exchanges.len() > 0) by {
        let i = choose|i: int|
            0 <= i < msg.certificat.exchanges.len() && msg.certificat.exchanges[i]
                == Securite::L3Protege;
    }
    lemma_index_of::<DataFeedRow>(s.feeds, feed_at);
    lemma_index_of::<FeedViewRow>(s.feed_views, view_at);
    if s.feed_views[view_at].data_type is Some {
        lemma_view_data_type_names(s.feed_views[view_at].data_type->0);
    }
}

/// A user cannot update, delete or restore the feed of another user, nor
/// can the global owner: the command is answered as if there were no such
/// feed, and nothing changes.
pub proof fn lemma_foreign_feed_not_writable(
    s: StoreSpec,
    msg: MessageValideSpec,
    outside: OutsideSpec,
    now: i64,
    feed_id: Seq<char>,
    at: int,
)
    requires
        s.wf(),
        msg.kind == MessageKind::Commande,
        msg.certificat.is_admitted(),
        msg.certificat.user_id is Some,
        (msg.action == TRANSACTION_UPDATE_FEED@ && update_feed_target(msg.contenu) == Some(
            feed_id,
        )) || (msg.action == TRANSACTION_DELETE_FEED@ && delete_feed_target(msg.contenu) == Some(
            feed_id,
        )) || (msg.action == TRANSACTION_RESTORE_FEED@ && restore_feed_target(msg.contenu)
            == Some(feed_id)),
        0 <= at < s.feeds.len(),
        s.feeds[at].feed_id == feed_id,
        s.feeds[at].user_id is Some,
        s.feeds[at].user_id != msg.certificat.user_id,
    ensures
        command_outcome(s, false, msg, outside, now) == refused(s, refusal_feed()),
        refusal_feed().code == Some(CODE_NOT_FOUND),
{
    lemma_transaction_names_differ();
    lemma_index_of::<DataFeedRow>(s.feeds, at);
}

/// A scraper that is not on the public exchange is turned away as not
/// authorised, whatever it sends of what scrapers send, and nothing
/// changes.
pub proof fn lemma_scraper_needs_public_exchange(
    s: StoreSpec,
    msg: MessageValideSpec,
    outside: OutsideSpec,
    now: i64,
)
    requires
        msg.kind == MessageKind::Commande,
        msg.certificat.is_admitted(),
        msg.certificat.has_role(ROLE_WEB_SCRAPER@),
        !msg.certificat.has_exchange(Securite::L1Public),
        msg.action == TRANSACTION_SAVE_DATA_ITEM@ || msg.action == TRANSACTION_SAVE_DATA_ITEM_V2@
            || msg.action == COMMAND_ADD_FUUIDS_VOLATILE@,
    ensures
        command_outcome(s, false, msg, outside, now) == refused(s, refusal_exchange()),
        refusal_exchange().code == Some(CODE_UNAUTHORIZED),
{
    lemma_transaction_names_differ();
    lemma_command_names_differ();
}

/// Whether a command of this action hands the key that comes with it to
/// the key master.
pub open spec fn escrows_key(action: Seq<char>) -> bool {
    action == TRANSACTION_CREATE_FEED@ || action == TRANSACTION_SAVE_DATA_ITEM@ || action
        == TRANSACTION_SAVE_DATA_ITEM_V2@ || action == TRANSACTION_CREATE_FEED_VIEW@
}

/// Whether a command of this action hands the key that comes with it to
/// the key master.
pub fn command_escrows_key(action: &str) -> (r: bool)
    ensures
        r == escrows_key(action@),
{
    same_text(action, TRANSACTION_CREATE_FEED) || same_text(action, TRANSACTION_SAVE_DATA_ITEM)
        || same_text(action, TRANSACTION_SAVE_DATA_ITEM_V2) || same_text(
        action,
        TRANSACTION_CREATE_FEED_VIEW,
    )
}

/// What the key master answers is of no account to a command that brings no
/// key, or that is of an action which hands over none.
pub proof fn lemma_key_master_of_no_account(
    s: StoreSpec,
    regeneration: bool,
    msg: MessageValideSpec,
    one: OutsideSpec,
    other: OutsideSpec,
    now: i64,
)
    requires
        one.mapper == other.mapper,
        msg.attached_key is None || !escrows_key(msg.action),
    ensures
        command_outcome(s, regeneration, msg, one, now) == command_outcome(
            s,
            regeneration,
            msg,
            other,
            now,
        ),
{
    lemma_transaction_names_differ();
    lemma_command_names_differ();
}

/// What the mapper answers is of no account to a command that does not
/// have a view processed.
pub proof fn lemma_mapper_of_no_account(
    s: StoreSpec,
    regeneration: bool,
    msg: MessageValideSpec,
    one: OutsideSpec,
    other: OutsideSpec,
    now: i64,
)
    requires
        one.key_escrow == other.key_escrow,
        msg.action != COMMAND_PROCESS_VIEW@,
    ensures
        command_outcome(s, regeneration, msg, one, now) == command_outcome(
            s,
            regeneration,
            msg,
            other,
            now,
        ),
{
}

} // verus!
