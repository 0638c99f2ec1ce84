//! The reads that the service answers.
//!
//! Dates are milliseconds since the Unix epoch.

use vstd::prelude::*;
use crate::certificate::{
    module_refusal, refusal_certificate, refusal_exchange, Certificate, CertificateSpec, Securite,
};
use crate::constants::{
    lemma_request_names_differ, lemma_view_data_type_names, ViewDataType, DOMAIN_NAME, REQUEST_CHECK_EXISTING_DATA_IDS,
    REQUEST_GET_DATA_ITEMS_DATE_RANGE, REQUEST_GET_DATA_ITEMS_MOST_RECENT, REQUEST_GET_FEEDS,
    REQUEST_GET_FEEDS_FOR_SCRAPER, REQUEST_GET_FEED_DATA, REQUEST_GET_FEED_VIEWS,
    REQUEST_GET_FUUIDS_VOLATILE, REQUEST_GET_VIEW_DATA, ROLE_DATASOURCE_MAPPER, ROLE_WEB_SCRAPER,
    SECURITE_1_PUBLIC, SECURITE_2_PRIVE,
};
use crate::keymaster::{
    dedup_texts, get_encrypted_keys, without_repeats, RequeteDechiffrage, RequeteDechiffrageSpec,
};
use crate::messages::{
    Contenu, ContenuSpec, Failure, MessageKind, MessageValide, MessageValideSpec, Outside,
    OutsideSpec,
};
use crate::messages_commands::{data_type_of_view, live_view, refusal_feed};
use crate::reply::{
    reply_err, Reply, ReplySpec, CODE_BAD_INPUT, CODE_NOT_FOUND, CODE_REGENERATING,
    CODE_UNAUTHORIZED, CODE_UNKNOWN_ACTION,
};
use crate::store::{find, holds_key, lemma_index_of, position, row_of, Store, StoreSpec};
use crate::data_mongodb::{
    DataCollectorFilesRow, DataCollectorFilesRowSpec, DataCollectorRow, DataCollectorRowSpec,
    DataFeedRow, DataFeedRowSpec, EncryptedDocument, EncryptedDocumentSpec, FeedViewGroupedDatedRow,
    FeedViewGroupedDatedRowSpec, FeedViewRow, FeedViewRowSpec, VolatileFileRow, VolatileFileRowSpec,
};
use crate::messages_commands::{FuuidVolatile, FuuidVolatileSpec};
use crate::paging::{
    all_keys, by_date, capped, capped_count, in_reading_order, keys_of_all, lemma_by_date,
    lemma_matching, lemma_page_of, lemma_rows_at_page, matching, page_of, page_size, paged, pick,
    show_all, shown_all, Filter, Readable,
};
use crate::text::{
    contains_text, copy_optional_texts, copy_text, copy_texts, same_optional_text, same_text,
};
use crate::transactions_struct::{
    copy_optional_files, FeedViewGroupedDatedItem, FeedViewGroupedDatedItemSpec, FileItem,
    FileItemSpec,
};

verus! {

/// Asks for the feeds that the caller may see.
#[derive(Debug, PartialEq, Eq)]
pub struct RequestGetFeeds {
    /// When present, only these feeds are of interest.
    pub feed_ids: Option<Vec<String>>,
}

/// What `RequestGetFeeds` holds, as plain values.
pub ghost struct RequestGetFeedsSpec {
    pub feed_ids: Option<Seq<Seq<char>>>,
}

impl DeepView for RequestGetFeeds {
    type V = RequestGetFeedsSpec;

    open spec fn deep_view(&self) -> RequestGetFeedsSpec {
        RequestGetFeedsSpec {
            feed_ids: self.feed_ids.deep_view(),
        }
    }
}

/// Asks which of some data items a feed already holds.
#[derive(Debug, PartialEq, Eq)]
pub struct CheckExistingDataIdsRequest {
    pub feed_id: String,
    pub data_ids: Vec<String>,
}

/// What `CheckExistingDataIdsRequest` holds, as plain values.
pub ghost struct CheckExistingDataIdsRequestSpec {
    pub feed_id: Seq<char>,
    pub data_ids: Seq<Seq<char>>,
}

impl DeepView for CheckExistingDataIdsRequest {
    type V = CheckExistingDataIdsRequestSpec;

    open spec fn deep_view(&self) -> CheckExistingDataIdsRequestSpec {
        CheckExistingDataIdsRequestSpec {
            feed_id: self.feed_id@,
            data_ids: self.data_ids.deep_view(),
        }
    }
}

/// Asks for a page of the data items of a feed.
#[derive(Debug, PartialEq, Eq)]
pub struct RequestGetDataItems {
    pub feed_id: String,
    pub skip: Option<u64>,
    pub limit: Option<i64>,
    pub start_date: Option<i64>,
    pub end_date: Option<i64>,
}

/// What `RequestGetDataItems` holds, as plain values.
pub ghost struct RequestGetDataItemsSpec {
    pub feed_id: Seq<char>,
    pub skip: Option<u64>,
    pub limit: Option<i64>,
    pub start_date: Option<i64>,
    pub end_date: Option<i64>,
}

impl DeepView for RequestGetDataItems {
    type V = RequestGetDataItemsSpec;

    open spec fn deep_view(&self) -> RequestGetDataItemsSpec {
        RequestGetDataItemsSpec {
            feed_id: self.feed_id@,
            skip: self.skip,
            limit: self.limit,
            start_date: self.start_date,
            end_date: self.end_date,
        }
    }
}

/// Asks for the volatile files of some correlations.
#[derive(Debug, PartialEq, Eq)]
pub struct RequestGetFuuidsVolatile {
    pub correlations: Vec<String>,
}

/// What `RequestGetFuuidsVolatile` holds, as plain values.
pub ghost struct RequestGetFuuidsVolatileSpec {
    pub correlations: Seq<Seq<char>>,
}

impl DeepView for RequestGetFuuidsVolatile {
    type V = RequestGetFuuidsVolatileSpec;

    open spec fn deep_view(&self) -> RequestGetFuuidsVolatileSpec {
        RequestGetFuuidsVolatileSpec {
            correlations: self.correlations.deep_view(),
        }
    }
}

/// Asks for a batch of the data files of a feed.
#[derive(Debug, PartialEq, Eq)]
pub struct FeedDataRequest {
    /// Feed identifier for the data to fetch
    pub feed_id: String,
    /// Batch start date - all considered records must be newer than this date
    pub batch_start: i64,
    /// First record to fetch for batching
    pub skip: Option<u64>,
    /// Maximum number of records to fetch at once
    pub limit: Option<i64>,
}

/// What `FeedDataRequest` holds, as plain values.
pub ghost struct FeedDataRequestSpec {
    pub feed_id: Seq<char>,
    pub batch_start: i64,
    pub skip: Option<u64>,
    pub limit: Option<i64>,
}

impl DeepView for FeedDataRequest {
    type V = FeedDataRequestSpec;

    open spec fn deep_view(&self) -> FeedDataRequestSpec {
        FeedDataRequestSpec {
            feed_id: self.feed_id@,
            batch_start: self.batch_start,
            skip: self.skip,
            limit: self.limit,
        }
    }
}

/// Asks for the views of a feed.
#[derive(Debug, PartialEq, Eq)]
pub struct FeedViewsRequest {
    pub feed_id: String,
    pub feed_view_ids: Option<Vec<String>>,
    pub active_only: Option<bool>,
}

/// What `FeedViewsRequest` holds, as plain values.
pub ghost struct FeedViewsRequestSpec {
    pub feed_id: Seq<char>,
    pub feed_view_ids: Option<Seq<Seq<char>>>,
    pub active_only: Option<bool>,
}

impl DeepView for FeedViewsRequest {
    type V = FeedViewsRequestSpec;

    open spec fn deep_view(&self) -> FeedViewsRequestSpec {
        FeedViewsRequestSpec {
            feed_id: self.feed_id@,
            feed_view_ids: self.feed_view_ids.deep_view(),
            active_only: self.active_only,
        }
    }
}

/// Asks for a page of the rows of a view.
#[derive(Debug, PartialEq, Eq)]
pub struct FeedViewDataRequest {
    pub feed_view_id: String,
    pub skip: Option<u64>,
    pub limit: Option<i64>,
    pub start_date: Option<i64>,
    pub end_date: Option<i64>,
}

/// What `FeedViewDataRequest` holds, as plain values.
pub ghost struct FeedViewDataRequestSpec {
    pub feed_view_id: Seq<char>,
    pub skip: Option<u64>,
    pub limit: Option<i64>,
    pub start_date: Option<i64>,
    pub end_date: Option<i64>,
}

impl DeepView for FeedViewDataRequest {
    type V = FeedViewDataRequestSpec;

    open spec fn deep_view(&self) -> FeedViewDataRequestSpec {
        FeedViewDataRequestSpec {
            feed_view_id: self.feed_view_id@,
            skip: self.skip,
            limit: self.limit,
            start_date: self.start_date,
            end_date: self.end_date,
        }
    }
}


/// A feed as a reader sees it.
#[derive(Debug, PartialEq, Eq)]
pub struct FeedResponse {
    pub feed_id: String,
    pub feed_type: String,
    pub security_level: String,
    pub domain: String,
    pub poll_rate: Option<usize>,
    pub active: Option<bool>,
    pub decrypt_in_database: Option<bool>,
    pub encrypted_feed_information: EncryptedDocument,
    pub user_id: Option<String>,
    pub deleted: bool,
}

/// What `FeedResponse` holds, as plain values.
pub ghost struct FeedResponseSpec {
    pub feed_id: Seq<char>,
    pub feed_type: Seq<char>,
    pub security_level: Seq<char>,
    pub domain: Seq<char>,
    pub poll_rate: Option<usize>,
    pub active: Option<bool>,
    pub decrypt_in_database: Option<bool>,
    pub encrypted_feed_information: EncryptedDocumentSpec,
    pub user_id: Option<Seq<char>>,
    pub deleted: bool,
}

impl DeepView for FeedResponse {
    type V = FeedResponseSpec;

    open spec fn deep_view(&self) -> FeedResponseSpec {
        FeedResponseSpec {
            feed_id: self.feed_id@,
            feed_type: self.feed_type@,
            security_level: self.security_level@,
            domain: self.domain@,
            poll_rate: self.poll_rate,
            active: self.active,
            decrypt_in_database: self.decrypt_in_database,
            encrypted_feed_information: self.encrypted_feed_information.deep_view(),
            user_id: self.user_id.deep_view(),
            deleted: self.deleted,
        }
    }
}

/// The feeds that a caller may see, with the keys that read them.
#[derive(Debug, PartialEq, Eq)]
pub struct RequestGetFeedsResponse {
    pub ok: bool,
    pub feeds: Vec<FeedResponse>,
    /// The keys, encrypted anew for the caller, as the key master sent them.
    pub keys: String,
}

/// What `RequestGetFeedsResponse` holds, as plain values.
pub ghost struct RequestGetFeedsResponseSpec {
    pub ok: bool,
    pub feeds: Seq<FeedResponseSpec>,
    pub keys: Seq<char>,
}

impl DeepView for RequestGetFeedsResponse {
    type V = RequestGetFeedsResponseSpec;

    open spec fn deep_view(&self) -> RequestGetFeedsResponseSpec {
        RequestGetFeedsResponseSpec {
            ok: self.ok,
            feeds: self.feeds.deep_view(),
            keys: self.keys@,
        }
    }
}

/// Which data items a feed holds already, and which it does not.
#[derive(Debug, PartialEq, Eq)]
pub struct CheckExistingDataIdsResponse {
    pub existing_ids: Vec<String>,
    pub missing_ids: Vec<String>,
}

/// What `CheckExistingDataIdsResponse` holds, as plain values.
pub ghost struct CheckExistingDataIdsResponseSpec {
    pub existing_ids: Seq<Seq<char>>,
    pub missing_ids: Seq<Seq<char>>,
}

impl DeepView for CheckExistingDataIdsResponse {
    type V = CheckExistingDataIdsResponseSpec;

    open spec fn deep_view(&self) -> CheckExistingDataIdsResponseSpec {
        CheckExistingDataIdsResponseSpec {
            existing_ids: self.existing_ids.deep_view(),
            missing_ids: self.missing_ids.deep_view(),
        }
    }
}

/// A data item as a reader sees it.
#[derive(Debug, PartialEq, Eq)]
pub struct DataCollectorItemResponse {
    pub data_id: String,
    pub feed_id: String,
    pub pub_date: i64,
    pub encrypted_data: EncryptedDocument,
    pub files: Option<Vec<FileItem>>,
}

/// What `DataCollectorItemResponse` holds, as plain values.
pub ghost struct DataCollectorItemResponseSpec {
    pub data_id: Seq<char>,
    pub feed_id: Seq<char>,
    pub pub_date: i64,
    pub encrypted_data: EncryptedDocumentSpec,
    pub files: Option<Seq<FileItemSpec>>,
}

impl DeepView for DataCollectorItemResponse {
    type V = DataCollectorItemResponseSpec;

    open spec fn deep_view(&self) -> DataCollectorItemResponseSpec {
        DataCollectorItemResponseSpec {
            data_id: self.data_id@,
            feed_id: self.feed_id@,
            pub_date: self.pub_date,
            encrypted_data: self.encrypted_data.deep_view(),
            files: self.files.deep_view(),
        }
    }
}

/// A page of the data items of a feed, with the keys that read them.
#[derive(Debug, PartialEq, Eq)]
pub struct RequestGetDataItemsResponse {
    pub ok: bool,
    pub items: Vec<DataCollectorItemResponse>,
    /// The keys, encrypted anew for the caller, as the key master sent them.
    pub keys: String,
    /// How many items there are to page through, counted up to a thousand; absent with an empty page.
    pub estimated_count: Option<i64>,
}

/// What `RequestGetDataItemsResponse` holds, as plain values.
pub ghost struct RequestGetDataItemsResponseSpec {
    pub ok: bool,
    pub items: Seq<DataCollectorItemResponseSpec>,
    pub keys: Seq<char>,
    pub estimated_count: Option<i64>,
}

impl DeepView for RequestGetDataItemsResponse {
    type V = RequestGetDataItemsResponseSpec;

    open spec fn deep_view(&self) -> RequestGetDataItemsResponseSpec {
        RequestGetDataItemsResponseSpec {
            ok: self.ok,
            items: self.items.deep_view(),
            keys: self.keys@,
            estimated_count: self.estimated_count,
        }
    }
}

/// The volatile files of some correlations.
#[derive(Debug, PartialEq, Eq)]
pub struct RequestGetFuuidsVolatileResponse {
    pub ok: bool,
    pub files: Vec<FuuidVolatile>,
}

/// What `RequestGetFuuidsVolatileResponse` holds, as plain values.
pub ghost struct RequestGetFuuidsVolatileResponseSpec {
    pub ok: bool,
    pub files: Seq<FuuidVolatileSpec>,
}

impl DeepView for RequestGetFuuidsVolatileResponse {
    type V = RequestGetFuuidsVolatileResponseSpec;

    open spec fn deep_view(&self) -> RequestGetFuuidsVolatileResponseSpec {
        RequestGetFuuidsVolatileResponseSpec {
            ok: self.ok,
            files: self.files.deep_view(),
        }
    }
}

/// A data file as the mapper sees it.
#[derive(Debug, PartialEq, Eq)]
pub struct DataCollectorFilesResponse {
    /// Unique data item identifier for this feed
    pub data_id: String,
    /// Source of the data item
    pub feed_id: String,
    /// Date at which the item was taken in
    pub save_date: i64,
    pub data_fuuid: String,
    pub key_ids: Vec<String>,
    /// Item publication or content date
    pub pub_date_start: Option<i64>,
    /// Item publication or content date
    pub pub_date_end: Option<i64>,
    /// Files associated with this data item
    pub attached_fuuids: Option<Vec<String>>,
}

/// What `DataCollectorFilesResponse` holds, as plain values.
pub ghost struct DataCollectorFilesResponseSpec {
    pub data_id: Seq<char>,
    pub feed_id: Seq<char>,
    pub save_date: i64,
    pub data_fuuid: Seq<char>,
    pub key_ids: Seq<Seq<char>>,
    pub pub_date_start: Option<i64>,
    pub pub_date_end: Option<i64>,
    pub attached_fuuids: Option<Seq<Seq<char>>>,
}

impl DeepView for DataCollectorFilesResponse {
    type V = DataCollectorFilesResponseSpec;

    open spec fn deep_view(&self) -> DataCollectorFilesResponseSpec {
        DataCollectorFilesResponseSpec {
            data_id: self.data_id@,
            feed_id: self.feed_id@,
            save_date: self.save_date,
            data_fuuid: self.data_fuuid@,
            key_ids: self.key_ids.deep_view(),
            pub_date_start: self.pub_date_start,
            pub_date_end: self.pub_date_end,
            attached_fuuids: self.attached_fuuids.deep_view(),
        }
    }
}

/// A batch of the data files of a feed, with the keys that read them.
#[derive(Debug, PartialEq, Eq)]
pub struct FeedDataResponse {
    pub ok: bool,
    pub items: Vec<DataCollectorFilesResponse>,
    /// The keys as the key master sent them; absent where no key is needed.
    pub keys: Option<String>,
}

/// What `FeedDataResponse` holds, as plain values.
pub ghost struct FeedDataResponseSpec {
    pub ok: bool,
    pub items: Seq<DataCollectorFilesResponseSpec>,
    pub keys: Option<Seq<char>>,
}

impl DeepView for FeedDataResponse {
    type V = FeedDataResponseSpec;

    open spec fn deep_view(&self) -> FeedDataResponseSpec {
        FeedDataResponseSpec {
            ok: self.ok,
            items: self.items.deep_view(),
            keys: self.keys.deep_view(),
        }
    }
}

/// A view as a reader sees it.
#[derive(Debug, PartialEq, Eq)]
pub struct FeedViewResponse {
    pub feed_view_id: String,
    pub feed_id: String,
    pub encrypted_data: EncryptedDocument,
    pub name: Option<String>,
    pub active: bool,
    pub decrypted: bool,
    pub mapping_code: String,
    pub creation_date: i64,
    pub modification_date: i64,
    pub deleted: bool,
}

/// What `FeedViewResponse` holds, as plain values.
pub ghost struct FeedViewResponseSpec {
    pub feed_view_id: Seq<char>,
    pub feed_id: Seq<char>,
    pub encrypted_data: EncryptedDocumentSpec,
    pub name: Option<Seq<char>>,
    pub active: bool,
    pub decrypted: bool,
    pub mapping_code: Seq<char>,
    pub creation_date: i64,
    pub modification_date: i64,
    pub deleted: bool,
}

impl DeepView for FeedViewResponse {
    type V = FeedViewResponseSpec;

    open spec fn deep_view(&self) -> FeedViewResponseSpec {
        FeedViewResponseSpec {
            feed_view_id: self.feed_view_id@,
            feed_id: self.feed_id@,
            encrypted_data: self.encrypted_data.deep_view(),
            name: self.name.deep_view(),
            active: self.active,
            decrypted: self.decrypted,
            mapping_code: self.mapping_code@,
            creation_date: self.creation_date,
            modification_date: self.modification_date,
            deleted: self.deleted,
        }
    }
}

/// A feed and its views, with the keys that read them.
#[derive(Debug, PartialEq, Eq)]
pub struct FeedViewsResponse {
    pub ok: bool,
    pub feed: FeedResponse,
    pub views: Vec<FeedViewResponse>,
    /// The keys as the key master sent them; absent where no key is needed.
    pub keys: Option<String>,
}

/// What `FeedViewsResponse` holds, as plain values.
pub ghost struct FeedViewsResponseSpec {
    pub ok: bool,
    pub feed: FeedResponseSpec,
    pub views: Seq<FeedViewResponseSpec>,
    pub keys: Option<Seq<char>>,
}

impl DeepView for FeedViewsResponse {
    type V = FeedViewsResponseSpec;

    open spec fn deep_view(&self) -> FeedViewsResponseSpec {
        FeedViewsResponseSpec {
            ok: self.ok,
            feed: self.feed.deep_view(),
            views: self.views.deep_view(),
            keys: self.keys.deep_view(),
        }
    }
}

/// A page of the rows of a view, with the keys that read them.
#[derive(Debug, PartialEq, Eq)]
pub struct FeedViewDataResponse {
    pub ok: bool,
    pub feed: FeedResponse,
    pub feed_view: FeedViewResponse,
    /// How many rows there are to page through, counted up to a thousand.
    pub estimated_count: u64,
    pub items: Vec<FeedViewGroupedDatedItem>,
    /// The keys as the key master sent them; absent where no key is needed.
    pub keys: Option<String>,
}

/// What `FeedViewDataResponse` holds, as plain values.
pub ghost struct FeedViewDataResponseSpec {
    pub ok: bool,
    pub feed: FeedResponseSpec,
    pub feed_view: FeedViewResponseSpec,
    pub estimated_count: u64,
    pub items: Seq<FeedViewGroupedDatedItemSpec>,
    pub keys: Option<Seq<char>>,
}

impl DeepView for FeedViewDataResponse {
    type V = FeedViewDataResponseSpec;

    open spec fn deep_view(&self) -> FeedViewDataResponseSpec {
        FeedViewDataResponseSpec {
            ok: self.ok,
            feed: self.feed.deep_view(),
            feed_view: self.feed_view.deep_view(),
            estimated_count: self.estimated_count,
            items: self.items.deep_view(),
            keys: self.keys.deep_view(),
        }
    }
}


/// The reference of a key, as a list of none or one.
pub open spec fn optional_key(cle_id: Option<Seq<char>>) -> Seq<Seq<char>> {
    match cle_id {
        Some(k) => seq![k],
        None => Seq::empty(),
    }
}

/// The references of the keys that decrypt files, file after file.
pub open spec fn keys_of_files(files: Seq<FileItemSpec>) -> Seq<Seq<char>>
    decreases files.len(),
{
    if files.len() == 0 {
        Seq::empty()
    } else {
        keys_of_files(files.drop_last()) + match files.last().decryption {
            Some(d) => optional_key(d.cle_id),
            None => Seq::empty(),
        }
    }
}

/// The reference of a key, as a list of none or one.
pub fn key_list(cle_id: &Option<String>) -> (r: Vec<String>)
    ensures
        r.deep_view() == optional_key(cle_id.deep_view()),
{
    let mut keys: Vec<String> = Vec::new();
    match cle_id {
        Some(k) => {
            keys.push(k.clone());
            assert(keys.deep_view() =~= seq![k@]);
        },
        None => {
            assert(keys.deep_view() =~= Seq::empty());
        },
    }
    keys
}

/// The references of the keys that decrypt files, file after file.
pub fn file_keys(files: &Vec<FileItem>) -> (r: Vec<String>)
    ensures
        r.deep_view() == keys_of_files(files.deep_view()),
{
    let ghost all = files.deep_view();
    let mut keys: Vec<String> = Vec::new();
    let mut i: usize = 0;
    assert(all.take(0) =~= Seq::empty());
    assert(keys.deep_view() =~= Seq::empty());
    while i < files.len()
        invariant
            i <= files.len(),
            all == files.deep_view(),
            keys.deep_view() == keys_of_files(all.take(i as int)),
        decreases files.len() - i,
    {
        let ghost before = keys.deep_view();
        assert(all.take(i + 1).drop_last() =~= all.take(i as int));
        assert(all.take(i + 1).last() == files[i as int].deep_view());
        match &files[i].decryption {
            Some(d) => {
                let mut more = key_list(&d.cle_id);
                let ghost added = more.deep_view();
                keys.append(&mut more);
                assert(keys.deep_view() =~= before + added);
            },
            None => {
                assert(keys.deep_view() =~= before + Seq::empty());
            },
        }
        i = i + 1;
    }
    assert(all.take(i as int) =~= all);
    keys
}

impl DataFeedRowSpec {
    /// What a reader is shown of the feed.
    pub open spec fn response(self) -> FeedResponseSpec {
        FeedResponseSpec {
            feed_id: self.feed_id,
            feed_type: self.feed_type,
            security_level: self.security_level,
            domain: self.domain,
            poll_rate: self.poll_rate,
            active: self.active,
            decrypt_in_database: self.decrypt_in_database,
            encrypted_feed_information: self.encrypted_feed_information,
            user_id: self.user_id,
            deleted: self.deleted,
        }
    }
}

impl FeedResponse {
    /// What a reader is shown of a feed.
    pub fn from(value: DataFeedRow) -> (r: FeedResponse)
        ensures
            r.deep_view() == value.deep_view().response(),
    {
        FeedResponse {
            feed_id: value.feed_id,
            feed_type: value.feed_type,
            security_level: value.security_level,
            domain: value.domain,
            poll_rate: value.poll_rate,
            active: value.active,
            decrypt_in_database: value.decrypt_in_database,
            encrypted_feed_information: value.encrypted_feed_information,
            user_id: value.user_id,
            deleted: value.deleted,
        }
    }
}

impl DataCollectorRowSpec {
    /// What a reader is shown of the data item.
    pub open spec fn response(self) -> DataCollectorItemResponseSpec {
        DataCollectorItemResponseSpec {
            data_id: self.data_id,
            feed_id: self.feed_id,
            pub_date: self.pub_date,
            encrypted_data: self.encrypted_data,
            files: self.files,
        }
    }
}

impl DataCollectorItemResponse {
    /// What a reader is shown of a data item.
    pub fn from(row: DataCollectorRow) -> (r: DataCollectorItemResponse)
        ensures
            r.deep_view() == row.deep_view().response(),
    {
        DataCollectorItemResponse {
            data_id: row.data_id,
            feed_id: row.feed_id,
            pub_date: row.pub_date,
            encrypted_data: row.encrypted_data,
            files: row.files,
        }
    }
}

impl DataCollectorFilesRowSpec {
    /// What the mapper is shown of the data file.
    pub open spec fn response(self) -> DataCollectorFilesResponseSpec {
        DataCollectorFilesResponseSpec {
            data_id: self.data_id,
            feed_id: self.feed_id,
            save_date: self.save_date,
            data_fuuid: self.data_fuuid,
            key_ids: self.key_ids,
            pub_date_start: self.pub_date_start,
            pub_date_end: self.pub_date_end,
            attached_fuuids: self.attached_fuuids,
        }
    }
}

impl DataCollectorFilesResponse {
    /// What the mapper is shown of a data file.
    pub fn from(value: DataCollectorFilesRow) -> (r: DataCollectorFilesResponse)
        ensures
            r.deep_view() == value.deep_view().response(),
    {
        DataCollectorFilesResponse {
            data_id: value.data_id,
            feed_id: value.feed_id,
            save_date: value.save_date,
            data_fuuid: value.data_fuuid,
            key_ids: value.key_ids,
            pub_date_start: value.pub_date_start,
            pub_date_end: value.pub_date_end,
            attached_fuuids: value.attached_fuuids,
        }
    }
}

impl FeedViewRowSpec {
    /// What a reader is shown of the view.
    pub open spec fn response(self) -> FeedViewResponseSpec {
        FeedViewResponseSpec {
            feed_view_id: self.feed_view_id,
            feed_id: self.feed_id,
            encrypted_data: self.encrypted_data,
            name: self.name,
            active: self.active,
            decrypted: self.decrypted,
            mapping_code: self.mapping_code,
            creation_date: self.creation_date,
            modification_date: self.modification_date,
            deleted: self.deleted,
        }
    }
}

impl FeedViewResponse {
    /// What a reader is shown of a view.
    pub fn from(value: FeedViewRow) -> (r: FeedViewResponse)
        ensures
            r.deep_view() == value.deep_view().response(),
    {
        FeedViewResponse {
            feed_view_id: value.feed_view_id,
            feed_id: value.feed_id,
            encrypted_data: value.encrypted_data,
            name: value.name,
            active: value.active,
            decrypted: value.decrypted,
            mapping_code: value.mapping_code,
            creation_date: value.creation_date,
            modification_date: value.modification_date,
            deleted: value.deleted,
        }
    }
}

impl FeedViewGroupedDatedRowSpec {
    /// What a reader is shown of the row of a view.
    pub open spec fn item(self) -> FeedViewGroupedDatedItemSpec {
        FeedViewGroupedDatedItemSpec {
            data_id: self.data_id,
            feed_view_id: self.feed_view_id,
            feed_id: self.feed_id,
            pub_date: self.pub_date,
            encrypted_data: self.encrypted_data,
            group_id: self.group_id,
            files: self.files,
        }
    }
}

impl VolatileFileRowSpec {
    /// What a scraper is shown of the volatile file.
    pub open spec fn file(self) -> FuuidVolatileSpec {
        FuuidVolatileSpec {
            correlation: self.correlation,
            fuuid: self.fuuid,
            format: self.format,
            cle_id: self.cle_id,
            nonce: self.nonce,
            compression: self.compression,
        }
    }
}

impl Readable for DataFeedRow {
    type Shown = FeedResponse;

    open spec fn date_of(v: DataFeedRowSpec) -> Option<i64> {
        None
    }

    open spec fn keys_of(v: DataFeedRowSpec) -> Seq<Seq<char>> {
        optional_key(v.encrypted_feed_information.cle_id)
    }

    open spec fn shown(v: DataFeedRowSpec) -> FeedResponseSpec {
        v.response()
    }

    fn date(&self) -> (r: Option<i64>) {
        None
    }

    fn key_ids(&self) -> (r: Vec<String>) {
        key_list(&self.encrypted_feed_information.cle_id)
    }

    fn show(&self) -> (r: FeedResponse) {
        FeedResponse::from(self.clone())
    }
}

impl Readable for DataCollectorRow {
    type Shown = DataCollectorItemResponse;

    open spec fn date_of(v: DataCollectorRowSpec) -> Option<i64> {
        Some(v.pub_date)
    }

    open spec fn keys_of(v: DataCollectorRowSpec) -> Seq<Seq<char>> {
        optional_key(v.encrypted_data.cle_id)
    }

    open spec fn shown(v: DataCollectorRowSpec) -> DataCollectorItemResponseSpec {
        v.response()
    }

    fn date(&self) -> (r: Option<i64>) {
        Some(self.pub_date)
    }

    fn key_ids(&self) -> (r: Vec<String>) {
        key_list(&self.encrypted_data.cle_id)
    }

    fn show(&self) -> (r: DataCollectorItemResponse) {
        DataCollectorItemResponse::from(self.clone())
    }
}

impl Readable for DataCollectorFilesRow {
    type Shown = DataCollectorFilesResponse;

    open spec fn date_of(v: DataCollectorFilesRowSpec) -> Option<i64> {
        Some(v.save_date)
    }

    open spec fn keys_of(v: DataCollectorFilesRowSpec) -> Seq<Seq<char>> {
        v.key_ids
    }

    open spec fn shown(v: DataCollectorFilesRowSpec) -> DataCollectorFilesResponseSpec {
        v.response()
    }

    fn date(&self) -> (r: Option<i64>) {
        Some(self.save_date)
    }

    fn key_ids(&self) -> (r: Vec<String>) {
        copy_texts(&self.key_ids)
    }

    fn show(&self) -> (r: DataCollectorFilesResponse) {
        DataCollectorFilesResponse::from(self.clone())
    }
}

impl Readable for FeedViewRow {
    type Shown = FeedViewResponse;

    open spec fn date_of(v: FeedViewRowSpec) -> Option<i64> {
        None
    }

    open spec fn keys_of(v: FeedViewRowSpec) -> Seq<Seq<char>> {
        optional_key(v.encrypted_data.cle_id)
    }

    open spec fn shown(v: FeedViewRowSpec) -> FeedViewResponseSpec {
        v.response()
    }

    fn date(&self) -> (r: Option<i64>) {
        None
    }

    fn key_ids(&self) -> (r: Vec<String>) {
        key_list(&self.encrypted_data.cle_id)
    }

    fn show(&self) -> (r: FeedViewResponse) {
        FeedViewResponse::from(self.clone())
    }
}

impl Readable for FeedViewGroupedDatedRow {
    type Shown = FeedViewGroupedDatedItem;

    open spec fn date_of(v: FeedViewGroupedDatedRowSpec) -> Option<i64> {
        v.pub_date
    }

    open spec fn keys_of(v: FeedViewGroupedDatedRowSpec) -> Seq<Seq<char>> {
        optional_key(v.encrypted_data.cle_id) + match v.files {
            Some(files) => keys_of_files(files),
            None => Seq::empty(),
        }
    }

    open spec fn shown(v: FeedViewGroupedDatedRowSpec) -> FeedViewGroupedDatedItemSpec {
        v.item()
    }

    fn date(&self) -> (r: Option<i64>) {
        self.pub_date
    }

    fn key_ids(&self) -> (r: Vec<String>) {
        let mut keys = key_list(&self.encrypted_data.cle_id);
        let ghost first = keys.deep_view();
        match &self.files {
            Some(files) => {
                let mut more = file_keys(files);
                let ghost added = more.deep_view();
                keys.append(&mut more);
                assert(keys.deep_view() =~= first + added);
            },
            None => {
                assert(keys.deep_view() =~= first + Seq::empty());
            },
        }
        keys
    }

    fn show(&self) -> (r: FeedViewGroupedDatedItem) {
        FeedViewGroupedDatedItem {
            data_id: self.data_id.clone(),
            feed_view_id: self.feed_view_id.clone(),
            feed_id: self.feed_id.clone(),
            pub_date: self.pub_date,
            encrypted_data: self.encrypted_data.clone(),
            group_id: copy_text(&self.group_id),
            files: copy_optional_files(&self.files),
        }
    }
}

impl Readable for VolatileFileRow {
    type Shown = FuuidVolatile;

    open spec fn date_of(v: VolatileFileRowSpec) -> Option<i64> {
        None
    }

    open spec fn keys_of(v: VolatileFileRowSpec) -> Seq<Seq<char>> {
        Seq::empty()
    }

    open spec fn shown(v: VolatileFileRowSpec) -> FuuidVolatileSpec {
        v.file()
    }

    fn date(&self) -> (r: Option<i64>) {
        None
    }

    fn key_ids(&self) -> (r: Vec<String>) {
        let keys: Vec<String> = Vec::new();
        assert(keys.deep_view() =~= Seq::empty());
        keys
    }

    fn show(&self) -> (r: FuuidVolatile) {
        FuuidVolatile {
            correlation: self.correlation.clone(),
            fuuid: self.fuuid.clone(),
            format: self.format.clone(),
            cle_id: self.cle_id.clone(),
            nonce: copy_text(&self.nonce),
            compression: copy_text(&self.compression),
        }
    }
}

/// A condition on the rows of a collection.
#[derive(Debug, PartialEq, Eq)]
pub enum Query {
    /// The feeds that a caller may list, among those it names where it names
    /// any.
    Listed { certificat: Certificate, feed_ids: Option<Vec<String>> },
    /// The feeds that a scraper works on: active and not deleted.
    Scraped,
    /// The data items of a feed.
    OfFeed { feed_id: String },
    /// The data items of a feed that were published from a date on and
    /// before another.
    Between { feed_id: String, start: i64, end: i64 },
    /// The data files of a feed that were saved after a date.
    NewerThan { feed_id: String, batch_start: i64 },
    /// The volatile files of some correlations.
    Correlated { correlations: Vec<String> },
    /// The views of a feed that are not deleted, among those that are named
    /// where any is, and only the active ones where that is asked.
    ViewsOf { feed_id: String, feed_view_ids: Option<Vec<String>>, active_only: bool },
    /// The rows of a view, all or those that were published from a date on
    /// and before another.
    RowsOfView { feed_view_id: String, range: Option<(i64, i64)> },
}

/// What `Query` holds, as plain values.
pub ghost enum QuerySpec {
    Listed { certificat: CertificateSpec, feed_ids: Option<Seq<Seq<char>>> },
    Scraped,
    OfFeed { feed_id: Seq<char> },
    Between { feed_id: Seq<char>, start: i64, end: i64 },
    NewerThan { feed_id: Seq<char>, batch_start: i64 },
    Correlated { correlations: Seq<Seq<char>> },
    ViewsOf { feed_id: Seq<char>, feed_view_ids: Option<Seq<Seq<char>>>, active_only: bool },
    RowsOfView { feed_view_id: Seq<char>, range: Option<(i64, i64)> },
}

impl DeepView for Query {
    type V = QuerySpec;

    open spec fn deep_view(&self) -> QuerySpec {
        match self {
            Query::Listed { certificat, feed_ids } => QuerySpec::Listed {
                certificat: certificat.deep_view(),
                feed_ids: feed_ids.deep_view(),
            },
            Query::Scraped => QuerySpec::Scraped,
            Query::OfFeed { feed_id } => QuerySpec::OfFeed { feed_id: feed_id@ },
            Query::Between { feed_id, start, end } => QuerySpec::Between {
                feed_id: feed_id@,
                start: *start,
                end: *end,
            },
            Query::NewerThan { feed_id, batch_start } => QuerySpec::NewerThan {
                feed_id: feed_id@,
                batch_start: *batch_start,
            },
            Query::Correlated { correlations } => QuerySpec::Correlated {
                correlations: correlations.deep_view(),
            },
            Query::ViewsOf { feed_id, feed_view_ids, active_only } => QuerySpec::ViewsOf {
                feed_id: feed_id@,
                feed_view_ids: feed_view_ids.deep_view(),
                active_only: *active_only,
            },
            Query::RowsOfView { feed_view_id, range } => QuerySpec::RowsOfView {
                feed_view_id: feed_view_id@,
                range: *range,
            },
        }
    }
}

/// A feed of the system that every user may read: one of the public or of
/// the private level.
pub open spec fn is_shared(feed: DataFeedRowSpec) -> bool {
    feed.user_id is None && (feed.security_level == SECURITE_1_PUBLIC@ || feed.security_level
        == SECURITE_2_PRIVE@)
}

/// Whether a feed is one that the caller owns: a user its own feeds, the
/// global owner the feeds of the system.
pub open spec fn owned_by(c: CertificateSpec, feed: DataFeedRowSpec) -> bool {
    if c.global_owner {
        feed.user_id is None
    } else {
        c.user_id is Some && feed.user_id == c.user_id
    }
}

/// Whether a feed is on the list of a caller: not deleted, and its own or,
/// for a user, shared.
pub open spec fn listed_for(c: CertificateSpec, feed: DataFeedRowSpec) -> bool {
    !feed.deleted && (owned_by(c, feed) || (!c.global_owner && is_shared(feed)))
}

/// Whether a caller may read a feed: not a deleted one; a mapper any
/// other; the global owner the feeds of the system; a user its own feeds
/// and, where that is allowed, the shared ones.
pub open spec fn may_read(c: CertificateSpec, feed: DataFeedRowSpec, include_shared: bool)
    -> bool {
    !feed.deleted && (c.is_mapper() || owned_by(c, feed) || (!c.global_owner && include_shared
        && is_shared(feed)))
}

/// Whether an id is among those that are named, where any is.
pub open spec fn wanted(ids: Option<Seq<Seq<char>>>, id: Seq<char>) -> bool {
    match ids {
        Some(named) => named.contains(id),
        None => true,
    }
}

/// Whether a date lies in a range, where there is a range: from its start
/// on and before its end. A row without a date lies in no range.
pub open spec fn in_range(date: Option<i64>, range: Option<(i64, i64)>) -> bool {
    match range {
        Some((start, end)) => match date {
            Some(d) => start <= d < end,
            None => false,
        },
        None => true,
    }
}

/// Whether an id is among those that are named, where any is.
fn is_wanted(ids: &Option<Vec<String>>, id: &str) -> (r: bool)
    ensures
        r == wanted(ids.deep_view(), id@),
{
    match ids {
        Some(named) => contains_text(named, id),
        None => true,
    }
}

/// Whether a feed of the system is one that every user may read.
fn feed_is_shared(feed: &DataFeedRow) -> (r: bool)
    ensures
        r == is_shared(feed.deep_view()),
{
    feed.user_id.is_none() && (same_text(feed.security_level.as_str(), SECURITE_1_PUBLIC)
        || same_text(feed.security_level.as_str(), SECURITE_2_PRIVE))
}

/// Whether a feed is one that the caller owns.
fn feed_is_owned(certificat: &Certificate, feed: &DataFeedRow) -> (r: bool)
    ensures
        r == owned_by(certificat.deep_view(), feed.deep_view()),
{
    if certificat.global_owner {
        feed.user_id.is_none()
    } else {
        certificat.user_id.is_some() && same_optional_text(&feed.user_id, &certificat.user_id)
    }
}

impl Filter<DataFeedRow> for Query {
    open spec fn accepts(condition: QuerySpec, row: DataFeedRowSpec) -> bool {
        match condition {
            QuerySpec::Listed { certificat, feed_ids } => listed_for(certificat, row) && wanted(
                feed_ids,
                row.feed_id,
            ),
            QuerySpec::Scraped => !row.deleted && row.active == Some(true),
            _ => false,
        }
    }

    fn test(&self, row: &DataFeedRow) -> (r: bool) {
        match self {
            Query::Listed { certificat, feed_ids } => !row.deleted && (feed_is_owned(
                certificat,
                row,
            ) || (!certificat.global_owner && feed_is_shared(row))) && is_wanted(
                feed_ids,
                row.feed_id.as_str(),
            ),
            Query::Scraped => !row.deleted && match row.active {
                Some(active) => active,
                None => false,
            },
            _ => false,
        }
    }
}

impl Filter<DataCollectorRow> for Query {
    open spec fn accepts(condition: QuerySpec, row: DataCollectorRowSpec) -> bool {
        match condition {
            QuerySpec::OfFeed { feed_id } => row.feed_id == feed_id,
            QuerySpec::Between { feed_id, start, end } => row.feed_id == feed_id && start
                <= row.pub_date < end,
            _ => false,
        }
    }

    fn test(&self, row: &DataCollectorRow) -> (r: bool) {
        match self {
            Query::OfFeed { feed_id } => same_text(row.feed_id.as_str(), feed_id.as_str()),
            Query::Between { feed_id, start, end } => same_text(
                row.feed_id.as_str(),
                feed_id.as_str(),
            ) && *start <= row.pub_date && row.pub_date < *end,
            _ => false,
        }
    }
}

impl Filter<DataCollectorFilesRow> for Query {
    open spec fn accepts(condition: QuerySpec, row: DataCollectorFilesRowSpec) -> bool {
        match condition {
            QuerySpec::NewerThan { feed_id, batch_start } => row.feed_id == feed_id
                && row.save_date > batch_start,
            _ => false,
        }
    }

    fn test(&self, row: &DataCollectorFilesRow) -> (r: bool) {
        match self {
            Query::NewerThan { feed_id, batch_start } => same_text(
                row.feed_id.as_str(),
                feed_id.as_str(),
            ) && row.save_date > *batch_start,
            _ => false,
        }
    }
}

impl Filter<VolatileFileRow> for Query {
    open spec fn accepts(condition: QuerySpec, row: VolatileFileRowSpec) -> bool {
        match condition {
            QuerySpec::Correlated { correlations } => correlations.contains(row.correlation),
            _ => false,
        }
    }

    fn test(&self, row: &VolatileFileRow) -> (r: bool) {
        match self {
            Query::Correlated { correlations } => contains_text(
                correlations,
                row.correlation.as_str(),
            ),
            _ => false,
        }
    }
}

impl Filter<FeedViewRow> for Query {
    open spec fn accepts(condition: QuerySpec, row: FeedViewRowSpec) -> bool {
        match condition {
            QuerySpec::ViewsOf { feed_id, feed_view_ids, active_only } => row.feed_id == feed_id
                && !row.deleted && wanted(feed_view_ids, row.feed_view_id) && (active_only
                ==> row.active),
            _ => false,
        }
    }

    fn test(&self, row: &FeedViewRow) -> (r: bool) {
        match self {
            Query::ViewsOf { feed_id, feed_view_ids, active_only } => same_text(
                row.feed_id.as_str(),
                feed_id.as_str(),
            ) && !row.deleted && is_wanted(feed_view_ids, row.feed_view_id.as_str()) && (
            !*active_only || row.active),
            _ => false,
        }
    }
}

impl Filter<FeedViewGroupedDatedRow> for Query {
    open spec fn accepts(condition: QuerySpec, row: FeedViewGroupedDatedRowSpec) -> bool {
        match condition {
            QuerySpec::RowsOfView { feed_view_id, range } => row.feed_view_id == feed_view_id
                && in_range(row.pub_date, range),
            _ => false,
        }
    }

    fn test(&self, row: &FeedViewGroupedDatedRow) -> (r: bool) {
        match self {
            Query::RowsOfView { feed_view_id, range } => same_text(
                row.feed_view_id.as_str(),
                feed_view_id.as_str(),
            ) && match range {
                Some((start, end)) => match row.pub_date {
                    Some(d) => *start <= d && d < *end,
                    None => false,
                },
                None => true,
            },
            _ => false,
        }
    }
}

/// What a request is answered with.
#[derive(Debug, PartialEq, Eq)]
pub enum Response {
    /// The request is turned down.
    Refused(Reply),
    Feeds(RequestGetFeedsResponse),
    ExistingDataIds(CheckExistingDataIdsResponse),
    DataItems(RequestGetDataItemsResponse),
    FuuidsVolatile(RequestGetFuuidsVolatileResponse),
    FeedData(FeedDataResponse),
    /// The views of a feed; the whole answer is encrypted for the caller.
    FeedViews(FeedViewsResponse),
    /// The rows of a view; the whole answer is encrypted for the caller.
    FeedViewData(FeedViewDataResponse),
}

/// What `Response` holds, as plain values.
pub ghost enum ResponseSpec {
    Refused(ReplySpec),
    Feeds(RequestGetFeedsResponseSpec),
    ExistingDataIds(CheckExistingDataIdsResponseSpec),
    DataItems(RequestGetDataItemsResponseSpec),
    FuuidsVolatile(RequestGetFuuidsVolatileResponseSpec),
    FeedData(FeedDataResponseSpec),
    FeedViews(FeedViewsResponseSpec),
    FeedViewData(FeedViewDataResponseSpec),
}

impl DeepView for Response {
    type V = ResponseSpec;

    open spec fn deep_view(&self) -> ResponseSpec {
        match self {
            Response::Refused(r) => ResponseSpec::Refused(r.deep_view()),
            Response::Feeds(r) => ResponseSpec::Feeds(r.deep_view()),
            Response::ExistingDataIds(r) => ResponseSpec::ExistingDataIds(r.deep_view()),
            Response::DataItems(r) => ResponseSpec::DataItems(r.deep_view()),
            Response::FuuidsVolatile(r) => ResponseSpec::FuuidsVolatile(r.deep_view()),
            Response::FeedData(r) => ResponseSpec::FeedData(r.deep_view()),
            Response::FeedViews(r) => ResponseSpec::FeedViews(r.deep_view()),
            Response::FeedViewData(r) => ResponseSpec::FeedViewData(r.deep_view()),
        }
    }
}

impl Response {
    /// Whether the whole answer is encrypted for the caller, not the keys
    /// alone.
    pub fn is_encrypted(&self) -> (r: bool)
        ensures
            r == (self is FeedViews || self is FeedViewData),
    {
        match self {
            Response::FeedViews(_) => true,
            Response::FeedViewData(_) => true,
            _ => false,
        }
    }
}

/// A request that was handled: the answer, and what the key master was
/// asked on the way.
#[derive(Debug, PartialEq, Eq)]
pub struct Answer {
    pub response: Response,
    pub key_request: Option<RequeteDechiffrage>,
}

/// What `Answer` holds, as plain values.
pub ghost struct AnswerSpec {
    pub response: ResponseSpec,
    pub key_request: Option<RequeteDechiffrageSpec>,
}

impl DeepView for Answer {
    type V = AnswerSpec;

    open spec fn deep_view(&self) -> AnswerSpec {
        AnswerSpec {
            response: self.response.deep_view(),
            key_request: self.key_request.deep_view(),
        }
    }
}

/// What a request comes to.
pub type RequestOutcome = Result<AnswerSpec, Failure>;

/// What a handler returned, with its texts as sequences of characters.
pub open spec fn answer_view(r: Result<Answer, Failure>) -> RequestOutcome {
    match r {
        Ok(a) => Ok(a.deep_view()),
        Err(f) => Err(f),
    }
}

/// A request that is turned down; the key master is asked nothing.
pub open spec fn turned_down(reply: ReplySpec) -> RequestOutcome {
    Ok(AnswerSpec { response: ResponseSpec::Refused(reply), key_request: None })
}

/// A request that is turned down.
fn turn_down(reply: Reply) -> (r: Result<Answer, Failure>)
    ensures
        answer_view(r) == turned_down(reply.deep_view()),
{
    Ok(Answer { response: Response::Refused(reply), key_request: None })
}

/// The request for keys that is made for a caller: each key once, encrypted
/// anew for the certificate of the caller.
pub open spec fn key_request_for(c: CertificateSpec, key_ids: Seq<Seq<char>>)
    -> RequeteDechiffrageSpec {
    RequeteDechiffrageSpec {
        domaine: DOMAIN_NAME@,
        cle_ids: without_repeats(key_ids),
        certificat_rechiffrage: Some(c.chaine_pem),
    }
}

/// The request for keys that is made where keys are asked for only if there
/// is one to ask for.
pub open spec fn optional_key_request(c: CertificateSpec, key_ids: Seq<Seq<char>>) -> Option<
    RequeteDechiffrageSpec,
> {
    if key_ids.len() == 0 {
        None
    } else {
        Some(key_request_for(c, key_ids))
    }
}

/// The feed that a caller asks for by its id, or what the caller is told
/// instead: that its certificate names no user, or that there is no such
/// feed for it, whether the feed is missing, deleted or another's.
pub open spec fn authorized_feed(
    s: StoreSpec,
    c: CertificateSpec,
    feed_id: Seq<char>,
    include_shared: bool,
) -> Result<DataFeedRowSpec, ReplySpec> {
    if !c.is_mapper() && c.user_id is None {
        Err(refusal_certificate())
    } else {
        match row_of::<DataFeedRow>(s.feeds, (feed_id, None)) {
            Some(feed) => if may_read(c, feed, include_shared) {
                Ok(feed)
            } else {
                Err(refusal_feed())
            },
            None => Err(refusal_feed()),
        }
    }
}

/// The feed that a caller asks for by its id, or what the caller is told
/// instead.
pub fn verify_authorized_feed<'a>(
    store: &'a Store,
    feed_id: &str,
    certificat: &Certificate,
    include_shared: bool,
) -> (r: Result<&'a DataFeedRow, Reply>)
    requires
        store@.wf(),
    ensures
        match r {
            Ok(feed) => authorized_feed(store@, certificat.deep_view(), feed_id@, include_shared)
                == Ok::<DataFeedRowSpec, ReplySpec>(feed.deep_view()),
            Err(reply) => authorized_feed(
                store@,
                certificat.deep_view(),
                feed_id@,
                include_shared,
            ) == Err::<DataFeedRowSpec, ReplySpec>(reply.deep_view()),
        },
{
    let mapper = certificat.is_mapper();
    if !mapper && certificat.user_id.is_none() {
        return Err(Reply::error(CODE_UNAUTHORIZED, "Invalid certificate"));
    }
    match find(&store.feeds, feed_id, None) {
        Some(feed) => {
            if !feed.deleted && (mapper || feed_is_owned(certificat, feed) || (
            !certificat.global_owner && include_shared && feed_is_shared(feed))) {
                Ok(feed)
            } else {
                Err(Reply::error(CODE_NOT_FOUND, "Feed not found / access refused"))
            }
        },
        None => Err(Reply::error(CODE_NOT_FOUND, "Feed not found / access refused")),
    }
}

/// The answer that lists feeds: those of which the condition holds, in the
/// order in which they stand, with the keys of their private information,
/// which the key master is asked for in any case.
pub open spec fn feeds_answer(
    s: StoreSpec,
    c: CertificateSpec,
    condition: QuerySpec,
    outside: OutsideSpec,
) -> RequestOutcome {
    let feeds = matching::<DataFeedRow, Query>(s.feeds, condition);
    match outside.key_bundle {
        None => Err(Failure::KeysUnavailable),
        Some(bundle) => Ok(
            AnswerSpec {
                response: ResponseSpec::Feeds(
                    RequestGetFeedsResponseSpec {
                        ok: true,
                        feeds: shown_all::<DataFeedRow>(feeds),
                        keys: bundle,
                    },
                ),
                key_request: Some(key_request_for(c, all_keys::<DataFeedRow>(feeds))),
            },
        ),
    }
}

/// `getFeeds`: the feeds that the caller may list.
pub open spec fn get_feeds_outcome(s: StoreSpec, msg: MessageValideSpec, outside: OutsideSpec)
    -> RequestOutcome {
    if msg.certificat.user_id is None {
        turned_down(refusal_certificate())
    } else {
        match msg.contenu {
            ContenuSpec::GetFeeds(request) => feeds_answer(
                s,
                msg.certificat,
                QuerySpec::Listed { certificat: msg.certificat, feed_ids: request.feed_ids },
                outside,
            ),
            _ => Err(Failure::Malformed),
        }
    }
}

/// `getFeedsForScraper`: the feeds that scrapers work on, whoever owns them.
pub open spec fn get_feeds_for_scraper_outcome(
    s: StoreSpec,
    msg: MessageValideSpec,
    outside: OutsideSpec,
) -> RequestOutcome {
    match module_refusal(msg.certificat, ROLE_WEB_SCRAPER@, Securite::L1Public) {
        Some(reply) => turned_down(reply),
        None => feeds_answer(s, msg.certificat, QuerySpec::Scraped, outside),
    }
}

/// Lists the feeds of which a condition holds.
fn get_feeds(store: &Store, certificat: &Certificate, condition: &Query, outside: &Outside) -> (r:
    Result<Answer, Failure>)
    ensures
        answer_view(r) == feeds_answer(
            store@,
            certificat.deep_view(),
            condition.deep_view(),
            outside.deep_view(),
        ),
{
    let places = pick(&store.feeds, condition);
    let feeds = show_all(&store.feeds, &places);
    let key_ids = keys_of_all(&store.feeds, &places);
    let key_request = get_encrypted_keys(&key_ids, Some(copy_texts(&certificat.chaine_pem)));
    match &outside.key_bundle {
        None => Err(Failure::KeysUnavailable),
        Some(bundle) => Ok(
            Answer {
                response: Response::Feeds(
                    RequestGetFeedsResponse { ok: true, feeds: feeds, keys: bundle.clone() },
                ),
                key_request: Some(key_request),
            },
        ),
    }
}

/// Answers `getFeeds`.
pub fn request_get_feeds(store: &Store, message: &MessageValide, outside: &Outside) -> (r: Result<
    Answer,
    Failure,
>)
    ensures
        answer_view(r) == get_feeds_outcome(store@, message.deep_view(), outside.deep_view()),
{
    if message.certificat.user_id.is_none() {
        return turn_down(Reply::error(CODE_UNAUTHORIZED, "Invalid certificate"));
    }
    match &message.contenu {
        Contenu::GetFeeds(request) => {
            let condition = Query::Listed {
                certificat: message.certificat.clone(),
                feed_ids: copy_optional_texts(&request.feed_ids),
            };
            get_feeds(store, &message.certificat, &condition, outside)
        },
        _ => Err(Failure::Malformed),
    }
}

/// Answers `getFeedsForScraper`.
pub fn request_get_feeds_for_scraper(store: &Store, message: &MessageValide, outside: &Outside) -> (r:
    Result<Answer, Failure>)
    ensures
        answer_view(r) == get_feeds_for_scraper_outcome(
            store@,
            message.deep_view(),
            outside.deep_view(),
        ),
{
    match message.certificat.scraper_refusal() {
        Some(reply) => turn_down(reply),
        None => get_feeds(store, &message.certificat, &Query::Scraped, outside),
    }
}

/// Those of some ids that a feed holds a data item of, or those that it
/// holds none of, in the order of the ids.
pub open spec fn ids_held(
    items: Seq<DataCollectorRowSpec>,
    feed_id: Seq<char>,
    ids: Seq<Seq<char>>,
    held: bool,
) -> Seq<Seq<char>>
    decreases ids.len(),
{
    if ids.len() == 0 {
        Seq::empty()
    } else {
        let head = ids_held(items, feed_id, ids.drop_last(), held);
        if holds_key::<DataCollectorRow>(items, (ids.last(), Some(feed_id))) == held {
            head.push(ids.last())
        } else {
            head
        }
    }
}

/// `checkExistingDataIds`: which of the data items that a scraper names its
/// feed holds already, and which it does not; each id is told of once.
pub open spec fn check_existing_data_ids_outcome(s: StoreSpec, msg: MessageValideSpec)
    -> RequestOutcome {
    match module_refusal(msg.certificat, ROLE_WEB_SCRAPER@, Securite::L1Public) {
        Some(reply) => turned_down(reply),
        None => match msg.contenu {
            ContenuSpec::CheckExistingDataIds(request) => Ok(
                AnswerSpec {
                    response: ResponseSpec::ExistingDataIds(
                        CheckExistingDataIdsResponseSpec {
                            existing_ids: ids_held(
                                s.data_items,
                                request.feed_id,
                                without_repeats(request.data_ids),
                                true,
                            ),
                            missing_ids: ids_held(
                                s.data_items,
                                request.feed_id,
                                without_repeats(request.data_ids),
                                false,
                            ),
                        },
                    ),
                    key_request: None,
                },
            ),
            _ => Err(Failure::Malformed),
        },
    }
}

/// Answers `checkExistingDataIds`.
pub fn request_check_existing_data_ids(store: &Store, message: &MessageValide) -> (r: Result<
    Answer,
    Failure,
>)
    ensures
        answer_view(r) == check_existing_data_ids_outcome(store@, message.deep_view()),
{
    match message.certificat.scraper_refusal() {
        Some(reply) => {
            return turn_down(reply);
        },
        None => {},
    }
    match &message.contenu {
        Contenu::CheckExistingDataIds(request) => {
            let ids = dedup_texts(&request.data_ids);
            let ghost all = ids.deep_view();
            let ghost items = store@.data_items;
            let ghost feed_id = request.feed_id@;
            let mut existing: Vec<String> = Vec::new();
            let mut missing: Vec<String> = Vec::new();
            let mut i: usize = 0;
            assert(all.take(0) =~= Seq::empty());
            assert(existing.deep_view() =~= Seq::empty());
            assert(missing.deep_view() =~= Seq::empty());
            while i < ids.len()
                invariant
                    i <= ids.len(),
                    all == ids.deep_view(),
                    items == store@.data_items,
                    feed_id == request.feed_id@,
                    existing.deep_view() == ids_held(items, feed_id, all.take(i as int), true),
                    missing.deep_view() == ids_held(items, feed_id, all.take(i as int), false),
                decreases ids.len() - i,
            {
                let ghost held_before = existing.deep_view();
                let ghost missing_before = missing.deep_view();
                assert(all.take(i + 1).drop_last() =~= all.take(i as int));
                assert(all.take(i + 1).last() == ids[i as int]@);
                if position(
                    &store.data_items,
                    ids[i].as_str(),
                    Some(request.feed_id.as_str()),
                ).is_some() {
                    existing.push(ids[i].clone());
                    assert(existing.deep_view() =~= held_before.push(ids[i as int]@));
                } else {
                    missing.push(ids[i].clone());
                    assert(missing.deep_view() =~= missing_before.push(ids[i as int]@));
                }
                i = i + 1;
            }
            assert(all.take(i as int) =~= all);
            Ok(
                Answer {
                    response: Response::ExistingDataIds(
                        CheckExistingDataIdsResponse {
                            existing_ids: existing,
                            missing_ids: missing,
                        },
                    ),
                    key_request: None,
                },
            )
        },
        _ => Err(Failure::Malformed),
    }
}

/// How many items there are to page through, as it is told with a page:
/// counted up to a thousand, and not told with an empty page.
pub open spec fn estimated_count(page: nat, matched: nat) -> Option<i64> {
    if page > 0 {
        Some(capped(matched) as i64)
    } else {
        None
    }
}

/// The answer that pages through data items: those of which the condition
/// holds, the newest first, with the keys that read the items of the page,
/// which the key master is asked for in any case.
pub open spec fn items_answer(
    s: StoreSpec,
    c: CertificateSpec,
    condition: QuerySpec,
    skip: Option<u64>,
    limit: Option<i64>,
    outside: OutsideSpec,
) -> RequestOutcome {
    let matched = matching::<DataCollectorRow, Query>(s.data_items, condition);
    let page = page_of(by_date::<DataCollectorRow>(matched, true), skip, limit);
    match outside.key_bundle {
        None => Err(Failure::KeysUnavailable),
        Some(bundle) => Ok(
            AnswerSpec {
                response: ResponseSpec::DataItems(
                    RequestGetDataItemsResponseSpec {
                        ok: true,
                        items: shown_all::<DataCollectorRow>(page),
                        keys: bundle,
                        estimated_count: estimated_count(page.len(), matched.len()),
                    },
                ),
                key_request: Some(key_request_for(c, all_keys::<DataCollectorRow>(page))),
            },
        ),
    }
}

/// `getDataItemsMostRecent`: a page of the data items of a feed that the
/// caller may read, the newest first.
pub open spec fn get_data_items_most_recent_outcome(
    s: StoreSpec,
    msg: MessageValideSpec,
    outside: OutsideSpec,
) -> RequestOutcome {
    if !msg.certificat.is_mapper() && msg.certificat.user_id is None {
        turned_down(refusal_certificate())
    } else {
        match msg.contenu {
            ContenuSpec::GetDataItems(request) => match authorized_feed(
                s,
                msg.certificat,
                request.feed_id,
                true,
            ) {
                Err(reply) => turned_down(reply),
                Ok(_) => items_answer(
                    s,
                    msg.certificat,
                    QuerySpec::OfFeed { feed_id: request.feed_id },
                    request.skip,
                    request.limit,
                    outside,
                ),
            },
            _ => Err(Failure::Malformed),
        }
    }
}

/// `getDataItemsDateRange`: a page of the data items of a feed that the
/// caller may read and that were published from a date on and before
/// another, the newest first.
pub open spec fn get_data_items_by_range_outcome(
    s: StoreSpec,
    msg: MessageValideSpec,
    outside: OutsideSpec,
) -> RequestOutcome {
    match msg.contenu {
        ContenuSpec::GetDataItems(request) => match authorized_feed(
            s,
            msg.certificat,
            request.feed_id,
            true,
        ) {
            Err(reply) => turned_down(reply),
            Ok(_) => match (request.start_date, request.end_date) {
                (Some(start), Some(end)) => items_answer(
                    s,
                    msg.certificat,
                    QuerySpec::Between { feed_id: request.feed_id, start: start, end: end },
                    request.skip,
                    request.limit,
                    outside,
                ),
                _ => turned_down(reply_err(CODE_BAD_INPUT, "Missing start/end date"@)),
            },
        },
        _ => Err(Failure::Malformed),
    }
}

/// Pages through the data items of which a condition holds.
fn get_data_items(
    store: &Store,
    certificat: &Certificate,
    condition: &Query,
    skip: Option<u64>,
    limit: Option<i64>,
    outside: &Outside,
) -> (r: Result<Answer, Failure>)
    ensures
        answer_view(r) == items_answer(
            store@,
            certificat.deep_view(),
            condition.deep_view(),
            skip,
            limit,
            outside.deep_view(),
        ),
{
    let places = pick(&store.data_items, condition);
    let ordered = in_reading_order(&store.data_items, &places, true);
    let page = paged(&ordered, skip, limit);
    proof {
        lemma_rows_at_page(store.data_items.deep_view(), ordered@, skip, limit);
    }
    let items = show_all(&store.data_items, &page);
    let key_ids = keys_of_all(&store.data_items, &page);
    let key_request = get_encrypted_keys(&key_ids, Some(copy_texts(&certificat.chaine_pem)));
    let count: Option<i64> = if page.len() > 0 {
        Some(capped_count(places.len()) as i64)
    } else {
        None
    };
    match &outside.key_bundle {
        None => Err(Failure::KeysUnavailable),
        Some(bundle) => Ok(
            Answer {
                response: Response::DataItems(
                    RequestGetDataItemsResponse {
                        ok: true,
                        items: items,
                        keys: bundle.clone(),
                        estimated_count: count,
                    },
                ),
                key_request: Some(key_request),
            },
        ),
    }
}

/// Answers `getDataItemsMostRecent`.
pub fn request_get_data_items_most_recent(
    store: &Store,
    message: &MessageValide,
    outside: &Outside,
) -> (r: Result<Answer, Failure>)
    requires
        store@.wf(),
    ensures
        answer_view(r) == get_data_items_most_recent_outcome(
            store@,
            message.deep_view(),
            outside.deep_view(),
        ),
{
    if !message.certificat.is_mapper() && message.certificat.user_id.is_none() {
        return turn_down(Reply::error(CODE_UNAUTHORIZED, "Invalid certificate"));
    }
    match &message.contenu {
        Contenu::GetDataItems(request) => {
            match verify_authorized_feed(
                store,
                request.feed_id.as_str(),
                &message.certificat,
                true,
            ) {
                Err(reply) => turn_down(reply),
                Ok(_) => {
                    let condition = Query::OfFeed { feed_id: request.feed_id.clone() };
                    get_data_items(
                        store,
                        &message.certificat,
                        &condition,
                        request.skip,
                        request.limit,
                        outside,
                    )
                },
            }
        },
        _ => Err(Failure::Malformed),
    }
}

/// Answers `getDataItemsDateRange`.
pub fn request_get_data_items_by_range(store: &Store, message: &MessageValide, outside: &Outside) -> (r:
    Result<Answer, Failure>)
    requires
        store@.wf(),
    ensures
        answer_view(r) == get_data_items_by_range_outcome(
            store@,
            message.deep_view(),
            outside.deep_view(),
        ),
{
    match &message.contenu {
        Contenu::GetDataItems(request) => {
            match verify_authorized_feed(
                store,
                request.feed_id.as_str(),
                &message.certificat,
                true,
            ) {
                Err(reply) => turn_down(reply),
                Ok(_) => {
                    let (start, end) = match (request.start_date, request.end_date) {
                        (Some(start), Some(end)) => (start, end),
                        _ => {
                            return turn_down(
                                Reply::error(CODE_BAD_INPUT, "Missing start/end date"),
                            );
                        },
                    };
                    let condition = Query::Between {
                        feed_id: request.feed_id.clone(),
                        start: start,
                        end: end,
                    };
                    get_data_items(
                        store,
                        &message.certificat,
                        &condition,
                        request.skip,
                        request.limit,
                        outside,
                    )
                },
            }
        },
        _ => Err(Failure::Malformed),
    }
}

/// `getFuuidsVolatile`: the volatile files of the correlations that a
/// scraper names.
pub open spec fn get_fuuids_volatile_outcome(s: StoreSpec, msg: MessageValideSpec)
    -> RequestOutcome {
    match module_refusal(msg.certificat, ROLE_WEB_SCRAPER@, Securite::L1Public) {
        Some(reply) => turned_down(reply),
        None => match msg.contenu {
            ContenuSpec::GetFuuidsVolatile(request) => Ok(
                AnswerSpec {
                    response: ResponseSpec::FuuidsVolatile(
                        RequestGetFuuidsVolatileResponseSpec {
                            ok: true,
                            files: shown_all::<VolatileFileRow>(
                                matching::<VolatileFileRow, Query>(
                                    s.volatile_files,
                                    QuerySpec::Correlated { correlations: request.correlations },
                                ),
                            ),
                        },
                    ),
                    key_request: None,
                },
            ),
            _ => Err(Failure::Malformed),
        },
    }
}

/// Answers `getFuuidsVolatile`.
pub fn request_get_fuuids_volatile(store: &Store, message: &MessageValide) -> (r: Result<
    Answer,
    Failure,
>)
    ensures
        answer_view(r) == get_fuuids_volatile_outcome(store@, message.deep_view()),
{
    match message.certificat.scraper_refusal() {
        Some(reply) => {
            return turn_down(reply);
        },
        None => {},
    }
    match &message.contenu {
        Contenu::GetFuuidsVolatile(request) => {
            let condition = Query::Correlated { correlations: copy_texts(&request.correlations) };
            let places = pick(&store.volatile_files, &condition);
            let files = show_all(&store.volatile_files, &places);
            Ok(
                Answer {
                    response: Response::FuuidsVolatile(
                        RequestGetFuuidsVolatileResponse { ok: true, files: files },
                    ),
                    key_request: None,
                },
            )
        },
        _ => Err(Failure::Malformed),
    }
}

/// The keys that go with an answer where keys are asked for only if there
/// is one to ask for: none where there is none, else what the key master
/// sent, without which there is no answer.
pub open spec fn optional_keys(key_ids: Seq<Seq<char>>, outside: OutsideSpec) -> Result<
    Option<Seq<char>>,
    Failure,
> {
    if key_ids.len() == 0 {
        Ok(None)
    } else {
        match outside.key_bundle {
            Some(bundle) => Ok(Some(bundle)),
            None => Err(Failure::KeysUnavailable),
        }
    }
}

/// The keys that go with an answer, and the request that was made for them.
fn fetch_keys(certificat: &Certificate, key_ids: &Vec<String>, outside: &Outside) -> (r: Result<
    (Option<String>, Option<RequeteDechiffrage>),
    Failure,
>)
    ensures
        match r {
            Ok((keys, request)) => optional_keys(key_ids.deep_view(), outside.deep_view()) == Ok::<
                Option<Seq<char>>,
                Failure,
            >(keys.deep_view()) && request.deep_view() == optional_key_request(
                certificat.deep_view(),
                key_ids.deep_view(),
            ),
            Err(e) => optional_keys(key_ids.deep_view(), outside.deep_view()) == Err::<
                Option<Seq<char>>,
                Failure,
            >(e),
        },
{
    if key_ids.len() == 0 {
        Ok((None, None))
    } else {
        match &outside.key_bundle {
            Some(bundle) => Ok(
                (
                    Some(bundle.clone()),
                    Some(get_encrypted_keys(key_ids, Some(copy_texts(&certificat.chaine_pem)))),
                ),
            ),
            None => Err(Failure::KeysUnavailable),
        }
    }
}

/// `getFeedData`: a batch of the data files of a feed that were saved after
/// a date, the oldest first, for the mapper.
pub open spec fn get_feed_data_outcome(s: StoreSpec, msg: MessageValideSpec, outside: OutsideSpec)
    -> RequestOutcome {
    match module_refusal(msg.certificat, ROLE_DATASOURCE_MAPPER@, Securite::L3Protege) {
        Some(reply) => turned_down(reply),
        None => match msg.contenu {
            ContenuSpec::GetFeedData(request) => {
                let matched = matching::<DataCollectorFilesRow, Query>(
                    s.data_files,
                    QuerySpec::NewerThan {
                        feed_id: request.feed_id,
                        batch_start: request.batch_start,
                    },
                );
                let page = page_of(
                    by_date::<DataCollectorFilesRow>(matched, false),
                    request.skip,
                    request.limit,
                );
                let key_ids = all_keys::<DataCollectorFilesRow>(page);
                match optional_keys(key_ids, outside) {
                    Err(e) => Err(e),
                    Ok(keys) => Ok(
                        AnswerSpec {
                            response: ResponseSpec::FeedData(
                                FeedDataResponseSpec {
                                    ok: true,
                                    items: shown_all::<DataCollectorFilesRow>(page),
                                    keys: keys,
                                },
                            ),
                            key_request: optional_key_request(msg.certificat, key_ids),
                        },
                    ),
                }
            },
            _ => Err(Failure::Malformed),
        },
    }
}

/// Answers `getFeedData`.
pub fn request_feed_data(store: &Store, message: &MessageValide, outside: &Outside) -> (r: Result<
    Answer,
    Failure,
>)
    ensures
        answer_view(r) == get_feed_data_outcome(store@, message.deep_view(), outside.deep_view()),
{
    match message.certificat.mapper_refusal() {
        Some(reply) => {
            return turn_down(reply);
        },
        None => {},
    }
    match &message.contenu {
        Contenu::GetFeedData(request) => {
            let condition = Query::NewerThan {
                feed_id: request.feed_id.clone(),
                batch_start: request.batch_start,
            };
            let places = pick(&store.data_files, &condition);
            let ordered = in_reading_order(&store.data_files, &places, false);
            let page = paged(&ordered, request.skip, request.limit);
            proof {
                lemma_rows_at_page(
                    store.data_files.deep_view(),
                    ordered@,
                    request.skip,
                    request.limit,
                );
            }
            let items = show_all(&store.data_files, &page);
            let key_ids = keys_of_all(&store.data_files, &page);
            match fetch_keys(&message.certificat, &key_ids, outside) {
                Err(e) => Err(e),
                Ok((keys, key_request)) => Ok(
                    Answer {
                        response: Response::FeedData(
                            FeedDataResponse { ok: true, items: items, keys: keys },
                        ),
                        key_request: key_request,
                    },
                ),
            }
        },
        _ => Err(Failure::Malformed),
    }
}

/// `getFeedViews`: a feed that the caller may read, with those of its views
/// that are not deleted.
pub open spec fn get_feed_views_outcome(s: StoreSpec, msg: MessageValideSpec, outside: OutsideSpec)
    -> RequestOutcome {
    match msg.contenu {
        ContenuSpec::GetFeedViews(request) => match authorized_feed(
            s,
            msg.certificat,
            request.feed_id,
            true,
        ) {
            Err(reply) => turned_down(reply),
            Ok(feed) => {
                let views = matching::<FeedViewRow, Query>(
                    s.feed_views,
                    QuerySpec::ViewsOf {
                        feed_id: request.feed_id,
                        feed_view_ids: request.feed_view_ids,
                        active_only: request.active_only == Some(true),
                    },
                );
                let key_ids = DataFeedRow::keys_of(feed) + all_keys::<FeedViewRow>(views);
                match optional_keys(key_ids, outside) {
                    Err(e) => Err(e),
                    Ok(keys) => Ok(
                        AnswerSpec {
                            response: ResponseSpec::FeedViews(
                                FeedViewsResponseSpec {
                                    ok: true,
                                    feed: feed.response(),
                                    views: shown_all::<FeedViewRow>(views),
                                    keys: keys,
                                },
                            ),
                            key_request: optional_key_request(msg.certificat, key_ids),
                        },
                    ),
                }
            },
        },
        _ => Err(Failure::Malformed),
    }
}

/// Answers `getFeedViews`.
pub fn request_get_feed_views(store: &Store, message: &MessageValide, outside: &Outside) -> (r:
    Result<Answer, Failure>)
    requires
        store@.wf(),
    ensures
        answer_view(r) == get_feed_views_outcome(store@, message.deep_view(), outside.deep_view()),
{
    match &message.contenu {
        Contenu::GetFeedViews(request) => {
            match verify_authorized_feed(
                store,
                request.feed_id.as_str(),
                &message.certificat,
                true,
            ) {
                Err(reply) => turn_down(reply),
                Ok(feed) => {
                    let active_only = match request.active_only {
                        Some(b) => b,
                        None => false,
                    };
                    let condition = Query::ViewsOf {
                        feed_id: request.feed_id.clone(),
                        feed_view_ids: copy_optional_texts(&request.feed_view_ids),
                        active_only: active_only,
                    };
                    let places = pick(&store.feed_views, &condition);
                    let views = show_all(&store.feed_views, &places);
                    let mut key_ids = feed.key_ids();
                    let ghost first = key_ids.deep_view();
                    let mut more = keys_of_all(&store.feed_views, &places);
                    let ghost added = more.deep_view();
                    key_ids.append(&mut more);
                    assert(key_ids.deep_view() =~= first + added);
                    match fetch_keys(&message.certificat, &key_ids, outside) {
                        Err(e) => Err(e),
                        Ok((keys, key_request)) => Ok(
                            Answer {
                                response: Response::FeedViews(
                                    FeedViewsResponse {
                                        ok: true,
                                        feed: feed.show(),
                                        views: views,
                                        keys: keys,
                                    },
                                ),
                                key_request: key_request,
                            },
                        ),
                    }
                },
            }
        },
        _ => Err(Failure::Malformed),
    }
}

/// The range of dates that a reader of a view asks for, if it names both
/// ends.
pub open spec fn range_of(request: FeedViewDataRequestSpec) -> Option<(i64, i64)> {
    match (request.start_date, request.end_date) {
        (Some(start), Some(end)) => Some((start, end)),
        _ => None,
    }
}

/// The page that a reader of a view gets, from the collection that holds
/// the rows of the view.
pub open spec fn view_data_answer(
    rows: Seq<FeedViewGroupedDatedRowSpec>,
    feed: DataFeedRowSpec,
    view: FeedViewRowSpec,
    request: FeedViewDataRequestSpec,
    c: CertificateSpec,
    outside: OutsideSpec,
) -> RequestOutcome {
    let matched = matching::<FeedViewGroupedDatedRow, Query>(
        rows,
        QuerySpec::RowsOfView { feed_view_id: request.feed_view_id, range: range_of(request) },
    );
    let page = page_of(
        by_date::<FeedViewGroupedDatedRow>(matched, true),
        request.skip,
        request.limit,
    );
    let key_ids = DataFeedRow::keys_of(feed) + FeedViewRow::keys_of(view) + all_keys::<
        FeedViewGroupedDatedRow,
    >(page);
    match optional_keys(key_ids, outside) {
        Err(e) => Err(e),
        Ok(keys) => Ok(
            AnswerSpec {
                response: ResponseSpec::FeedViewData(
                    FeedViewDataResponseSpec {
                        ok: true,
                        feed: feed.response(),
                        feed_view: view.response(),
                        estimated_count: capped(matched.len()) as u64,
                        items: shown_all::<FeedViewGroupedDatedRow>(page),
                        keys: keys,
                    },
                ),
                key_request: optional_key_request(c, key_ids),
            },
        ),
    }
}

/// `getFeedViewData`: a page of the rows of a view that is not deleted, over
/// a feed that the caller may read, the newest first.
pub open spec fn get_feed_view_data_outcome(
    s: StoreSpec,
    msg: MessageValideSpec,
    outside: OutsideSpec,
) -> RequestOutcome {
    match msg.contenu {
        ContenuSpec::GetFeedViewData(request) => match live_view(s, request.feed_view_id) {
            None => turned_down(reply_err(CODE_NOT_FOUND, "Unknown feed view"@)),
            Some(view) => match authorized_feed(s, msg.certificat, view.feed_id, true) {
                Err(reply) => turned_down(reply),
                Ok(feed) => match data_type_of_view(view) {
                    None => Err(Failure::UnsupportedDataType),
                    Some(ViewDataType::Dated) => view_data_answer(
                        s.view_dated,
                        feed,
                        view,
                        request,
                        msg.certificat,
                        outside,
                    ),
                    Some(ViewDataType::GroupedDated) => view_data_answer(
                        s.view_grouped_dated,
                        feed,
                        view,
                        request,
                        msg.certificat,
                        outside,
                    ),
                },
            },
        },
        _ => Err(Failure::Malformed),
    }
}

/// Pages through the rows of a view.
fn get_view_data(
    rows: &Vec<FeedViewGroupedDatedRow>,
    feed: &DataFeedRow,
    view: &FeedViewRow,
    request: &FeedViewDataRequest,
    certificat: &Certificate,
    outside: &Outside,
) -> (r: Result<Answer, Failure>)
    ensures
        answer_view(r) == view_data_answer(
            rows.deep_view(),
            feed.deep_view(),
            view.deep_view(),
            request.deep_view(),
            certificat.deep_view(),
            outside.deep_view(),
        ),
{
    let range: Option<(i64, i64)> = match (request.start_date, request.end_date) {
        (Some(start), Some(end)) => Some((start, end)),
        _ => None,
    };
    let condition = Query::RowsOfView { feed_view_id: request.feed_view_id.clone(), range: range };
    let places = pick(rows, &condition);
    let ordered = in_reading_order(rows, &places, true);
    let page = paged(&ordered, request.skip, request.limit);
    proof {
        lemma_rows_at_page(rows.deep_view(), ordered@, request.skip, request.limit);
    }
    let items = show_all(rows, &page);
    let mut key_ids = feed.key_ids();
    let ghost first = key_ids.deep_view();
    let mut of_view = view.key_ids();
    let ghost second = of_view.deep_view();
    key_ids.append(&mut of_view);
    let mut of_rows = keys_of_all(rows, &page);
    let ghost third = of_rows.deep_view();
    key_ids.append(&mut of_rows);
    assert(key_ids.deep_view() =~= first + second + third);
    let count: u64 = capped_count(places.len()) as u64;
    match fetch_keys(certificat, &key_ids, outside) {
        Err(e) => Err(e),
        Ok((keys, key_request)) => Ok(
            Answer {
                response: Response::FeedViewData(
                    FeedViewDataResponse {
                        ok: true,
                        feed: feed.show(),
                        feed_view: view.show(),
                        estimated_count: count,
                        items: items,
                        keys: keys,
                    },
                ),
                key_request: key_request,
            },
        ),
    }
}

/// Answers `getFeedViewData`.
pub fn request_view_data(store: &Store, message: &MessageValide, outside: &Outside) -> (r: Result<
    Answer,
    Failure,
>)
    requires
        store@.wf(),
    ensures
        answer_view(r) == get_feed_view_data_outcome(
            store@,
            message.deep_view(),
            outside.deep_view(),
        ),
{
    match &message.contenu {
        Contenu::GetFeedViewData(request) => {
            let view = match find(&store.feed_views, request.feed_view_id.as_str(), None) {
                Some(view) => {
                    if view.deleted {
                        return turn_down(Reply::error(CODE_NOT_FOUND, "Unknown feed view"));
                    }
                    view
                },
                None => {
                    return turn_down(Reply::error(CODE_NOT_FOUND, "Unknown feed view"));
                },
            };
            match verify_authorized_feed(store, view.feed_id.as_str(), &message.certificat, true) {
                Err(reply) => turn_down(reply),
                Ok(feed) => {
                    let data_type = match &view.data_type {
                        Some(name) => ViewDataType::try_from(name.as_str()),
                        None => Ok(ViewDataType::GroupedDated),
                    };
                    match data_type {
                        Err(_) => Err(Failure::UnsupportedDataType),
                        Ok(ViewDataType::Dated) => get_view_data(
                            &store.view_dated,
                            feed,
                            view,
                            request,
                            &message.certificat,
                            outside,
                        ),
                        Ok(ViewDataType::GroupedDated) => get_view_data(
                            &store.view_grouped_dated,
                            feed,
                            view,
                            request,
                            &message.certificat,
                            outside,
                        ),
                    }
                },
            }
        },
        _ => Err(Failure::Malformed),
    }
}

/// What a request comes to. While the collections are being rebuilt, every
/// request is turned away; a sender that is not admitted, or a message that
/// is no request, fails; an action that is not known is answered as such.
pub open spec fn request_outcome(
    s: StoreSpec,
    regeneration: bool,
    msg: MessageValideSpec,
    outside: OutsideSpec,
) -> RequestOutcome {
    if regeneration {
        turned_down(reply_err(CODE_REGENERATING, "System rebuild in progress"@))
    } else if !msg.certificat.is_admitted() {
        Err(Failure::AccessDenied)
    } else if msg.kind != MessageKind::Requete {
        Err(Failure::BadMessageType)
    } else if msg.action == REQUEST_GET_FEEDS@ {
        get_feeds_outcome(s, msg, outside)
    } else if msg.action == REQUEST_GET_FEEDS_FOR_SCRAPER@ {
        get_feeds_for_scraper_outcome(s, msg, outside)
    } else if msg.action == REQUEST_GET_FEED_VIEWS@ {
        get_feed_views_outcome(s, msg, outside)
    } else if msg.action == REQUEST_CHECK_EXISTING_DATA_IDS@ {
        check_existing_data_ids_outcome(s, msg)
    } else if msg.action == REQUEST_GET_DATA_ITEMS_MOST_RECENT@ {
        get_data_items_most_recent_outcome(s, msg, outside)
    } else if msg.action == REQUEST_GET_DATA_ITEMS_DATE_RANGE@ {
        get_data_items_by_range_outcome(s, msg, outside)
    } else if msg.action == REQUEST_GET_FUUIDS_VOLATILE@ {
        get_fuuids_volatile_outcome(s, msg)
    } else if msg.action == REQUEST_GET_FEED_DATA@ {
        get_feed_data_outcome(s, msg, outside)
    } else if msg.action == REQUEST_GET_VIEW_DATA@ {
        get_feed_view_data_outcome(s, msg, outside)
    } else {
        turned_down(reply_err(CODE_UNKNOWN_ACTION, "Unknown request"@))
    }
}

/// Answers a request.
pub fn consume_request(
    store: &Store,
    regeneration: bool,
    message: &MessageValide,
    outside: &Outside,
) -> (r: Result<Answer, Failure>)
    requires
        store@.wf(),
    ensures
        answer_view(r) == request_outcome(
            store@,
            regeneration,
            message.deep_view(),
            outside.deep_view(),
        ),
{
    if regeneration {
        return turn_down(Reply::error(CODE_REGENERATING, "System rebuild in progress"));
    }
    if !message.certificat.is_admitted() {
        return Err(Failure::AccessDenied);
    }
    if message.kind != MessageKind::Requete {
        return Err(Failure::BadMessageType);
    }
    let action = message.action.as_str();
    if same_text(action, REQUEST_GET_FEEDS) {
        request_get_feeds(store, message, outside)
    } else if same_text(action, REQUEST_GET_FEEDS_FOR_SCRAPER) {
        request_get_feeds_for_scraper(store, message, outside)
    } else if same_text(action, REQUEST_GET_FEED_VIEWS) {
        request_get_feed_views(store, message, outside)
    } else if same_text(action, REQUEST_CHECK_EXISTING_DATA_IDS) {
        request_check_existing_data_ids(store, message)
    } else if same_text(action, REQUEST_GET_DATA_ITEMS_MOST_RECENT) {
        request_get_data_items_most_recent(store, message, outside)
    } else if same_text(action, REQUEST_GET_DATA_ITEMS_DATE_RANGE) {
        request_get_data_items_by_range(store, message, outside)
    } else if same_text(action, REQUEST_GET_FUUIDS_VOLATILE) {
        request_get_fuuids_volatile(store, message)
    } else if same_text(action, REQUEST_GET_FEED_DATA) {
        request_feed_data(store, message, outside)
    } else if same_text(action, REQUEST_GET_VIEW_DATA) {
        request_view_data(store, message, outside)
    } else {
        turn_down(Reply::error(CODE_UNKNOWN_ACTION, "Unknown request"))
    }
}

/// A user cannot read the feed of another user: it is told that there is
/// no such feed for it, whether or not shared feeds are let through.
pub proof fn lemma_foreign_feed_not_readable(
    s: StoreSpec,
    c: CertificateSpec,
    feed_id: Seq<char>,
    include_shared: bool,
    at: int,
)
    requires
        s.wf(),
        !c.is_mapper(),
        c.user_id is Some,
        0 <= at < s.feeds.len(),
        s.feeds[at].feed_id == feed_id,
        s.feeds[at].user_id is Some,
        s.feeds[at].user_id != c.user_id,
    ensures
        authorized_feed(s, c, feed_id, include_shared) == Err::<DataFeedRowSpec, ReplySpec>(
            refusal_feed(),
        ),
        refusal_feed().code == Some(CODE_NOT_FOUND),
        !listed_for(c, s.feeds[at]),
{
    lemma_index_of::<DataFeedRow>(s.feeds, at);
}

/// The list of feeds of a user holds its own feeds and the feeds of the
/// system of the public and of the private level, as far as they are not
/// deleted, and no other feed.
pub proof fn lemma_feeds_listed(s: StoreSpec, c: CertificateSpec, feed: DataFeedRowSpec)
    requires
        !c.global_owner,
        c.user_id is Some,
    ensures
        matching::<DataFeedRow, Query>(
            s.feeds,
            QuerySpec::Listed { certificat: c, feed_ids: None },
        ).contains(feed) <==> s.feeds.contains(feed) && !feed.deleted && (feed.user_id == c.user_id
            || is_shared(feed)),
{
    lemma_matching::<DataFeedRow, Query>(
        s.feeds,
        QuerySpec::Listed { certificat: c, feed_ids: None },
    );
}

/// A scraper that is not on the public exchange is turned away as not
/// authorised, whatever it asks of what scrapers ask.
pub proof fn lemma_scraper_request_needs_public_exchange(
    s: StoreSpec,
    msg: MessageValideSpec,
    outside: OutsideSpec,
)
    requires
        msg.kind == MessageKind::Requete,
        msg.certificat.is_admitted(),
        msg.certificat.has_role(ROLE_WEB_SCRAPER@),
        !msg.certificat.has_exchange(Securite::L1Public),
        msg.action == REQUEST_GET_FEEDS_FOR_SCRAPER@ || msg.action
            == REQUEST_CHECK_EXISTING_DATA_IDS@ || msg.action == REQUEST_GET_FUUIDS_VOLATILE@,
    ensures
        request_outcome(s, false, msg, outside) == turned_down(refusal_exchange()),
        refusal_exchange().code == Some(CODE_UNAUTHORIZED),
{
    lemma_request_names_differ();
    let names = seq![
        REQUEST_GET_FEEDS@,
        REQUEST_GET_FEEDS_FOR_SCRAPER@,
        REQUEST_GET_FEED_VIEWS@,
        REQUEST_CHECK_EXISTING_DATA_IDS@,
        REQUEST_GET_DATA_ITEMS_MOST_RECENT@,
        REQUEST_GET_DATA_ITEMS_DATE_RANGE@,
        REQUEST_GET_FUUIDS_VOLATILE@,
        REQUEST_GET_FEED_DATA@,
        REQUEST_GET_VIEW_DATA@,
    ];
    assert(names[0] != names[1] && names[0] != names[3] && names[0] != names[6]);
    assert(names[1] != names[3] && names[1] != names[6]);
    assert(names[2] != names[3] && names[2] != names[6]);
    assert(names[3] != names[4] && names[3] != names[5] && names[3] != names[6]);
    assert(names[4] != names[6] && names[5] != names[6]);
}

/// Whether two requests came to the same but for the keys that came with
/// the answer: both failed alike, or both were answered after the key
/// master was asked for the same.
pub open spec fn alike(one: RequestOutcome, other: RequestOutcome) -> bool {
    match (one, other) {
        (Ok(a), Ok(b)) => a.key_request == b.key_request,
        (Err(e), Err(f)) => e == f,
        _ => false,
    }
}

/// The keys that are sent do not change what is asked when feeds are
/// listed.
proof fn lemma_feeds_alike(
    s: StoreSpec,
    msg: MessageValideSpec,
    one: OutsideSpec,
    other: OutsideSpec,
)
    requires
        one.key_bundle is Some,
        other.key_bundle is Some,
    ensures
        alike(get_feeds_outcome(s, msg, one), get_feeds_outcome(s, msg, other)),
        alike(
            get_feeds_for_scraper_outcome(s, msg, one),
            get_feeds_for_scraper_outcome(s, msg, other),
        ),
{
}

/// The keys that are sent do not change what is asked when data items are
/// read.
proof fn lemma_items_alike(
    s: StoreSpec,
    msg: MessageValideSpec,
    one: OutsideSpec,
    other: OutsideSpec,
)
    requires
        one.key_bundle is Some,
        other.key_bundle is Some,
    ensures
        alike(
            get_data_items_most_recent_outcome(s, msg, one),
            get_data_items_most_recent_outcome(s, msg, other),
        ),
        alike(
            get_data_items_by_range_outcome(s, msg, one),
            get_data_items_by_range_outcome(s, msg, other),
        ),
{
}

/// The keys that are sent do not change what is asked when data files are
/// read.
proof fn lemma_feed_data_alike(
    s: StoreSpec,
    msg: MessageValideSpec,
    one: OutsideSpec,
    other: OutsideSpec,
)
    requires
        one.key_bundle is Some,
        other.key_bundle is Some,
    ensures
        alike(get_feed_data_outcome(s, msg, one), get_feed_data_outcome(s, msg, other)),
{
}

/// The keys that are sent do not change what is asked when views are read.
proof fn lemma_views_alike(
    s: StoreSpec,
    msg: MessageValideSpec,
    one: OutsideSpec,
    other: OutsideSpec,
)
    requires
        one.key_bundle is Some,
        other.key_bundle is Some,
    ensures
        alike(get_feed_views_outcome(s, msg, one), get_feed_views_outcome(s, msg, other)),
{
}

/// The keys that are sent do not change what is asked when the rows of a
/// view are read.
proof fn lemma_view_data_alike(
    s: StoreSpec,
    msg: MessageValideSpec,
    one: OutsideSpec,
    other: OutsideSpec,
)
    requires
        one.key_bundle is Some,
        other.key_bundle is Some,
    ensures
        alike(get_feed_view_data_outcome(s, msg, one), get_feed_view_data_outcome(s, msg, other)),
{
}

/// What the key master is asked for a request is settled before it
/// answers: whatever keys it sends, as long as it sends some, the request
/// for them is the same, and the request is answered or fails alike.
pub proof fn lemma_key_request_settled(
    s: StoreSpec,
    regeneration: bool,
    msg: MessageValideSpec,
    one: OutsideSpec,
    other: OutsideSpec,
)
    requires
        one.key_bundle is Some,
        other.key_bundle is Some,
    ensures
        alike(
            request_outcome(s, regeneration, msg, one),
            request_outcome(s, regeneration, msg, other),
        ),
{
    lemma_feeds_alike(s, msg, one, other);
    lemma_items_alike(s, msg, one, other);
    lemma_feed_data_alike(s, msg, one, other);
    lemma_views_alike(s, msg, one, other);
    lemma_view_data_alike(s, msg, one, other);
}

/// Of the ids that a scraper names, those that are told as held are those
/// that the feed holds a data item of, and those that are told as missing
/// are the others: no id is told as both, and none is left out.
pub proof fn lemma_ids_held(
    items: Seq<DataCollectorRowSpec>,
    feed_id: Seq<char>,
    ids: Seq<Seq<char>>,
    held: bool,
)
    ensures
        forall|id: Seq<char>|
            ids_held(items, feed_id, ids, held).contains(id) <==> ids.contains(id) && holds_key::<
                DataCollectorRow,
            >(items, (id, Some(feed_id))) == held,
    decreases ids.len(),
{
    let told = ids_held(items, feed_id, ids, held);
    if ids.len() > 0 {
        let head = ids.drop_last();
        let before = ids_held(items, feed_id, head, held);
        lemma_ids_held(items, feed_id, head, held);
        assert forall|id: Seq<char>| told.contains(id) <==> ids.contains(id) && holds_key::<
            DataCollectorRow,
        >(items, (id, Some(feed_id))) == held by {
            if told.contains(id) {
                let k = choose|k: int| 0 <= k < told.len() && told[k] == id;
                if k < before.len() {
                    assert(before[k] == id);
                    assert(before.contains(id));
                    assert(head.contains(id));
                    let i = choose|i: int| 0 <= i < head.len() && head[i] == id;
                    assert(ids[i] == id);
                } else {
                    assert(ids[ids.len() - 1] == id);
                }
            }
            if ids.contains(id) && holds_key::<DataCollectorRow>(items, (id, Some(feed_id)))
                == held {
                let i = choose|i: int| 0 <= i < ids.len() && ids[i] == id;
                if i < head.len() {
                    assert(head[i] == id);
                    assert(head.contains(id));
                    assert(before.contains(id));
                    let k = choose|k: int| 0 <= k < before.len() && before[k] == id;
                    assert(told[k] == id);
                } else {
                    assert(told[told.len() - 1] == id);
                }
            }
        }
    }
}

/// The rows of a view are read from the collection of its kind of data:
/// for a view that is there and not deleted, that says that its data is
/// dated, grouped and dated, or says nothing, over a feed that the caller
/// may read, the request is answered, with the keys that the key master
/// sent. The rows are those of the view, within the dates where both are
/// named, the newest first, no more than the page holds, and their number
/// is told up to a thousand.
pub proof fn lemma_view_data_answered(
    s: StoreSpec,
    msg: MessageValideSpec,
    outside: OutsideSpec,
    view_at: int,
)
    requires
        s.wf(),
        s.view_dated.len() <= usize::MAX,
        s.view_grouped_dated.len() <= usize::MAX,
        msg.kind == MessageKind::Requete,
        msg.action == REQUEST_GET_VIEW_DATA@,
        msg.certificat.is_admitted(),
        msg.contenu is GetFeedViewData,
        outside.key_bundle is Some,
        0 <= view_at < s.feed_views.len(),
        s.feed_views[view_at].feed_view_id == msg.contenu->GetFeedViewData_0.feed_view_id,
        !s.feed_views[view_at].deleted,
        s.feed_views[view_at].data_type is None || s.feed_views[view_at].data_type == Some(
            "Dated"@,
        ) || s.feed_views[view_at].data_type == Some("GroupedDated"@),
        authorized_feed(s, msg.certificat, s.feed_views[view_at].feed_id, true) is Ok,
    ensures
        ({
            let request = msg.contenu->GetFeedViewData_0;
            let view = s.feed_views[view_at];
            let rows = if view.data_type == Some("Dated"@) {
                s.view_dated
            } else {
                s.view_grouped_dated
            };
            let matched = matching::<FeedViewGroupedDatedRow, Query>(
                rows,
                QuerySpec::RowsOfView {
                    feed_view_id: request.feed_view_id,
                    range: range_of(request),
                },
            );
            let read = by_date::<FeedViewGroupedDatedRow>(matched, true);
            let answer = request_outcome(s, false, msg, outside);
            &&& answer is Ok
            &&& answer->Ok_0.response is FeedViewData
            &&& answer->Ok_0.response->FeedViewData_0.ok
            &&& answer->Ok_0.response->FeedViewData_0.feed_view == view.response()
            &&& answer->Ok_0.response->FeedViewData_0.estimated_count == capped(matched.len())
            &&& answer->Ok_0.response->FeedViewData_0.items == shown_all::<
                FeedViewGroupedDatedRow,
            >(page_of(read, request.skip, request.limit))
            &&& answer->Ok_0.response->FeedViewData_0.items.len() <= matched.len()
            &&& page_size(request.limit) matches Some(size)
                ==> answer->Ok_0.response->FeedViewData_0.items.len() <= size
            &&& forall|k: int|
                0 <= k < page_of(read, request.skip, request.limit).len() ==> rows.contains(
                    #[trigger] page_of(read, request.skip, request.limit)[k],
                ) && page_of(read, request.skip, request.limit)[k].feed_view_id
                    == request.feed_view_id && in_range(
                    page_of(read, request.skip, request.limit)[k].pub_date,
                    range_of(request),
                )
        }),
{
    lemma_request_names_differ();
    let names = seq![
        REQUEST_GET_FEEDS@,
        REQUEST_GET_FEEDS_FOR_SCRAPER@,
        REQUEST_GET_FEED_VIEWS@,
        REQUEST_CHECK_EXISTING_DATA_IDS@,
        REQUEST_GET_DATA_ITEMS_MOST_RECENT@,
        REQUEST_GET_DATA_ITEMS_DATE_RANGE@,
        REQUEST_GET_FUUIDS_VOLATILE@,
        REQUEST_GET_FEED_DATA@,
        REQUEST_GET_VIEW_DATA@,
    ];
    assert(names[0] != names[8] && names[1] != names[8] && names[2] != names[8] && names[3]
        != names[8]);
    assert(names[4] != names[8] && names[5] != names[8] && names[6] != names[8] && names[7]
        != names[8]);
    let request = msg.contenu->GetFeedViewData_0;
    let view = s.feed_views[view_at];
    lemma_index_of::<FeedViewRow>(s.feed_views, view_at);
    if view.data_type is Some {
        lemma_view_data_type_names(view.data_type->0);
    }
    let rows = if view.data_type == Some("Dated"@) {
        s.view_dated
    } else {
        s.view_grouped_dated
    };
    let condition = QuerySpec::RowsOfView {
        feed_view_id: request.feed_view_id,
        range: range_of(request),
    };
    let matched = matching::<FeedViewGroupedDatedRow, Query>(rows, condition);
    let read = by_date::<FeedViewGroupedDatedRow>(matched, true);
    let page = page_of(read, request.skip, request.limit);
    lemma_matching::<FeedViewGroupedDatedRow, Query>(rows, condition);
    lemma_by_date::<FeedViewGroupedDatedRow>(matched, true);
    lemma_page_of(read, request.skip, request.limit);
    assert forall|k: int| 0 <= k < page.len() implies rows.contains(#[trigger] page[k])
        && page[k].feed_view_id == request.feed_view_id && in_range(
        page[k].pub_date,
        range_of(request),
    ) by {
        assert(read.contains(page[k]));
        let q = choose|q: int| 0 <= q < read.len() && read[q] == page[k];
        assert(matched.contains(read[q]));
    }
}

} // verus!
