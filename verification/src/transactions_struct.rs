//! What the transactions of the service carry.
//!
//! Dates are milliseconds since the Unix epoch.

use vstd::prelude::*;
use crate::data_mongodb::{
    copy_optional_decryption, copy_optional_document, DataCollectorFilesRow,
    DataCollectorFilesRowSpec, DataCollectorRow, DataCollectorRowSpec, EncryptedDocument,
    EncryptedDocumentSpec, FeedViewGroupedDatedRow, FeedViewGroupedDatedRowSpec, FileDecryption,
    FileDecryptionSpec,
};
use crate::text::{copy_optional_texts, copy_text, copy_texts};

verus! {

/// A file that belongs to a data item.
#[derive(Debug, PartialEq, Eq)]
pub struct FileItem {
    /// File unique identifier on filehosts
    pub fuuid: String,
    /// File decryption information
    pub decryption: Option<FileDecryption>,
}

/// What `FileItem` holds, as plain values.
pub ghost struct FileItemSpec {
    pub fuuid: Seq<char>,
    pub decryption: Option<FileDecryptionSpec>,
}

impl DeepView for FileItem {
    type V = FileItemSpec;

    open spec fn deep_view(&self) -> FileItemSpec {
        FileItemSpec {
            fuuid: self.fuuid@,
            decryption: self.decryption.deep_view(),
        }
    }
}

impl Clone for FileItem {
    fn clone(&self) -> (r: FileItem)
        ensures
            r.deep_view() == self.deep_view(),
    {
        FileItem {
            fuuid: self.fuuid.clone(),
            decryption: copy_optional_decryption(&self.decryption),
        }
    }
}

/// Saves a data item of a feed, held inline.
#[derive(Debug, PartialEq, Eq)]
pub struct SaveDataItemTransaction {
    /// Unique data item identifier for this feed
    pub data_id: String,
    /// Source of the data item
    pub feed_id: String,
    /// Item publication or content date
    pub pub_date: i64,
    /// Encrypted content of the data item. Structure depends on the feed type.
    pub encrypted_data: EncryptedDocument,
    /// Files associated with this data item
    pub files: Option<Vec<FileItem>>,
}

/// What `SaveDataItemTransaction` holds, as plain values.
pub ghost struct SaveDataItemTransactionSpec {
    pub data_id: Seq<char>,
    pub feed_id: Seq<char>,
    pub pub_date: i64,
    pub encrypted_data: EncryptedDocumentSpec,
    pub files: Option<Seq<FileItemSpec>>,
}

impl DeepView for SaveDataItemTransaction {
    type V = SaveDataItemTransactionSpec;

    open spec fn deep_view(&self) -> SaveDataItemTransactionSpec {
        SaveDataItemTransactionSpec {
            data_id: self.data_id@,
            feed_id: self.feed_id@,
            pub_date: self.pub_date,
            encrypted_data: self.encrypted_data.deep_view(),
            files: self.files.deep_view(),
        }
    }
}

impl Clone for SaveDataItemTransaction {
    fn clone(&self) -> (r: SaveDataItemTransaction)
        ensures
            r.deep_view() == self.deep_view(),
    {
        SaveDataItemTransaction {
            data_id: self.data_id.clone(),
            feed_id: self.feed_id.clone(),
            pub_date: self.pub_date,
            encrypted_data: self.encrypted_data.clone(),
            files: copy_optional_files(&self.files),
        }
    }
}

/// Saves a data item of a feed whose content is a file.
#[derive(Debug, PartialEq, Eq)]
pub struct SaveDataItemTransactionV2 {
    /// Unique data item identifier for this feed
    pub data_id: String,
    /// Source of the data item
    pub feed_id: String,
    /// Date at which the item was taken in
    pub save_date: i64,
    pub data_fuuid: String,
    pub key_ids: Vec<String>,
    /// Item publication or content date
    pub pub_date_start: Option<i64>,
    /// Item publication or content date
    pub pub_date_end: Option<i64>,
    /// Files associated with this data item
    pub attached_fuuids: Option<Vec<String>>,
}

/// What `SaveDataItemTransactionV2` holds, as plain values.
pub ghost struct SaveDataItemTransactionV2Spec {
    pub data_id: Seq<char>,
    pub feed_id: Seq<char>,
    pub save_date: i64,
    pub data_fuuid: Seq<char>,
    pub key_ids: Seq<Seq<char>>,
    pub pub_date_start: Option<i64>,
    pub pub_date_end: Option<i64>,
    pub attached_fuuids: Option<Seq<Seq<char>>>,
}

impl DeepView for SaveDataItemTransactionV2 {
    type V = SaveDataItemTransactionV2Spec;

    open spec fn deep_view(&self) -> SaveDataItemTransactionV2Spec {
        SaveDataItemTransactionV2Spec {
            data_id: self.data_id@,
            feed_id: self.feed_id@,
            save_date: self.save_date,
            data_fuuid: self.data_fuuid@,
            key_ids: self.key_ids.deep_view(),
            pub_date_start: self.pub_date_start,
            pub_date_end: self.pub_date_end,
            attached_fuuids: self.attached_fuuids.deep_view(),
        }
    }
}

impl Clone for SaveDataItemTransactionV2 {
    fn clone(&self) -> (r: SaveDataItemTransactionV2)
        ensures
            r.deep_view() == self.deep_view(),
    {
        SaveDataItemTransactionV2 {
            data_id: self.data_id.clone(),
            feed_id: self.feed_id.clone(),
            save_date: self.save_date,
            data_fuuid: self.data_fuuid.clone(),
            key_ids: copy_texts(&self.key_ids),
            pub_date_start: self.pub_date_start,
            pub_date_end: self.pub_date_end,
            attached_fuuids: copy_optional_texts(&self.attached_fuuids),
        }
    }
}

/// Creates a feed.
#[derive(Debug, PartialEq, Eq)]
pub struct CreateFeedTransaction {
    /// Type of feed (implies data type). Used by processors, aggregators, displays.
    pub feed_type: String,
    /// Security level of the feed
    pub security_level: String,
    /// Domain that owns the data for this feed
    pub domain: String,
    /// Refresh rate in seconds when polling. No effect on live/push feeds.
    pub poll_rate: Option<usize>,
    /// If false, the feed is not activated on creation to produce data
    pub active: Option<bool>,
    /// If true, the data will be decrypted in a decrypted_feed_information field in the database.
    pub decrypt_in_database: Option<bool>,
    /// Private information on the feed, including name/description, url, auth, etc.
    pub encrypted_feed_information: EncryptedDocument,
}

/// What `CreateFeedTransaction` holds, as plain values.
pub ghost struct CreateFeedTransactionSpec {
    pub feed_type: Seq<char>,
    pub security_level: Seq<char>,
    pub domain: Seq<char>,
    pub poll_rate: Option<usize>,
    pub active: Option<bool>,
    pub decrypt_in_database: Option<bool>,
    pub encrypted_feed_information: EncryptedDocumentSpec,
}

impl DeepView for CreateFeedTransaction {
    type V = CreateFeedTransactionSpec;

    open spec fn deep_view(&self) -> CreateFeedTransactionSpec {
        CreateFeedTransactionSpec {
            feed_type: self.feed_type@,
            security_level: self.security_level@,
            domain: self.domain@,
            poll_rate: self.poll_rate,
            active: self.active,
            decrypt_in_database: self.decrypt_in_database,
            encrypted_feed_information: self.encrypted_feed_information.deep_view(),
        }
    }
}

impl Clone for CreateFeedTransaction {
    fn clone(&self) -> (r: CreateFeedTransaction)
        ensures
            r.deep_view() == self.deep_view(),
    {
        CreateFeedTransaction {
            feed_type: self.feed_type.clone(),
            security_level: self.security_level.clone(),
            domain: self.domain.clone(),
            poll_rate: self.poll_rate,
            active: self.active,
            decrypt_in_database: self.decrypt_in_database,
            encrypted_feed_information: self.encrypted_feed_information.clone(),
        }
    }
}

/// Updates a feed.
#[derive(Debug, PartialEq, Eq)]
pub struct UpdateFeedTransaction {
    /// Id of the feed to update.
    pub feed_id: String,
    /// Security level of the feed
    pub security_level: Option<String>,
    /// Refresh rate in seconds when polling. No effect on live/push feeds.
    pub poll_rate: Option<usize>,
    /// If false, the feed will not be producing data
    pub active: Option<bool>,
    /// If true, the data will be decrypted in a decrypted_feed_information field in the database.
    pub decrypt_in_database: Option<bool>,
    /// Private information on the feed, including name/description, url, auth, etc.
    pub encrypted_feed_information: Option<EncryptedDocument>,
}

/// What `UpdateFeedTransaction` holds, as plain values.
pub ghost struct UpdateFeedTransactionSpec {
    pub feed_id: Seq<char>,
    pub security_level: Option<Seq<char>>,
    pub poll_rate: Option<usize>,
    pub active: Option<bool>,
    pub decrypt_in_database: Option<bool>,
    pub encrypted_feed_information: Option<EncryptedDocumentSpec>,
}

impl DeepView for UpdateFeedTransaction {
    type V = UpdateFeedTransactionSpec;

    open spec fn deep_view(&self) -> UpdateFeedTransactionSpec {
        UpdateFeedTransactionSpec {
            feed_id: self.feed_id@,
            security_level: self.security_level.deep_view(),
            poll_rate: self.poll_rate,
            active: self.active,
            decrypt_in_database: self.decrypt_in_database,
            encrypted_feed_information: self.encrypted_feed_information.deep_view(),
        }
    }
}

impl Clone for UpdateFeedTransaction {
    fn clone(&self) -> (r: UpdateFeedTransaction)
        ensures
            r.deep_view() == self.deep_view(),
    {
        UpdateFeedTransaction {
            feed_id: self.feed_id.clone(),
            security_level: copy_text(&self.security_level),
            poll_rate: self.poll_rate,
            active: self.active,
            decrypt_in_database: self.decrypt_in_database,
            encrypted_feed_information: copy_optional_document(&self.encrypted_feed_information),
        }
    }
}

/// Deletes a feed; the feed can be restored.
#[derive(Debug, PartialEq, Eq)]
pub struct DeleteFeedTransaction {
    pub feed_id: String,
    /// If true, deletes the feed permanently and purges the database.
    pub purge: Option<bool>,
}

/// What `DeleteFeedTransaction` holds, as plain values.
pub ghost struct DeleteFeedTransactionSpec {
    pub feed_id: Seq<char>,
    pub purge: Option<bool>,
}

impl DeepView for DeleteFeedTransaction {
    type V = DeleteFeedTransactionSpec;

    open spec fn deep_view(&self) -> DeleteFeedTransactionSpec {
        DeleteFeedTransactionSpec {
            feed_id: self.feed_id@,
            purge: self.purge,
        }
    }
}

impl Clone for DeleteFeedTransaction {
    fn clone(&self) -> (r: DeleteFeedTransaction)
        ensures
            r.deep_view() == self.deep_view(),
    {
        DeleteFeedTransaction {
            feed_id: self.feed_id.clone(),
            purge: self.purge,
        }
    }
}

/// Restores a deleted feed.
#[derive(Debug, PartialEq, Eq)]
pub struct RestoreFeedTransaction {
    pub feed_id: String,
}

/// What `RestoreFeedTransaction` holds, as plain values.
pub ghost struct RestoreFeedTransactionSpec {
    pub feed_id: Seq<char>,
}

impl DeepView for RestoreFeedTransaction {
    type V = RestoreFeedTransactionSpec;

    open spec fn deep_view(&self) -> RestoreFeedTransactionSpec {
        RestoreFeedTransactionSpec {
            feed_id: self.feed_id@,
        }
    }
}

impl Clone for RestoreFeedTransaction {
    fn clone(&self) -> (r: RestoreFeedTransaction)
        ensures
            r.deep_view() == self.deep_view(),
    {
        RestoreFeedTransaction {
            feed_id: self.feed_id.clone(),
        }
    }
}

/// A file with what it takes to read it.
#[derive(Debug, PartialEq, Eq)]
pub struct FileItemV2 {
    /// File unique identifier on filehosts
    pub fuuid: String,
    pub format: String,
    pub cle_id: Option<String>,
    pub compression: Option<String>,
    pub nonce: Option<String>,
}

/// What `FileItemV2` holds, as plain values.
pub ghost struct FileItemV2Spec {
    pub fuuid: Seq<char>,
    pub format: Seq<char>,
    pub cle_id: Option<Seq<char>>,
    pub compression: Option<Seq<char>>,
    pub nonce: Option<Seq<char>>,
}

impl DeepView for FileItemV2 {
    type V = FileItemV2Spec;

    open spec fn deep_view(&self) -> FileItemV2Spec {
        FileItemV2Spec {
            fuuid: self.fuuid@,
            format: self.format@,
            cle_id: self.cle_id.deep_view(),
            compression: self.compression.deep_view(),
            nonce: self.nonce.deep_view(),
        }
    }
}

impl Clone for FileItemV2 {
    fn clone(&self) -> (r: FileItemV2)
        ensures
            r.deep_view() == self.deep_view(),
    {
        FileItemV2 {
            fuuid: self.fuuid.clone(),
            format: self.format.clone(),
            cle_id: copy_text(&self.cle_id),
            compression: copy_text(&self.compression),
            nonce: copy_text(&self.nonce),
        }
    }
}

/// Creates a view over a feed.
#[derive(Debug, PartialEq, Eq)]
pub struct CreateFeedViewTransaction {
    pub feed_id: String,
    pub encrypted_data: EncryptedDocument,
    pub name: Option<String>,
    pub active: bool,
    pub decrypted: bool,
    pub mapping_code: String,
}

/// What `CreateFeedViewTransaction` holds, as plain values.
pub ghost struct CreateFeedViewTransactionSpec {
    pub feed_id: Seq<char>,
    pub encrypted_data: EncryptedDocumentSpec,
    pub name: Option<Seq<char>>,
    pub active: bool,
    pub decrypted: bool,
    pub mapping_code: Seq<char>,
}

impl DeepView for CreateFeedViewTransaction {
    type V = CreateFeedViewTransactionSpec;

    open spec fn deep_view(&self) -> CreateFeedViewTransactionSpec {
        CreateFeedViewTransactionSpec {
            feed_id: self.feed_id@,
            encrypted_data: self.encrypted_data.deep_view(),
            name: self.name.deep_view(),
            active: self.active,
            decrypted: self.decrypted,
            mapping_code: self.mapping_code@,
        }
    }
}

impl Clone for CreateFeedViewTransaction {
    fn clone(&self) -> (r: CreateFeedViewTransaction)
        ensures
            r.deep_view() == self.deep_view(),
    {
        CreateFeedViewTransaction {
            feed_id: self.feed_id.clone(),
            encrypted_data: self.encrypted_data.clone(),
            name: copy_text(&self.name),
            active: self.active,
            decrypted: self.decrypted,
            mapping_code: self.mapping_code.clone(),
        }
    }
}

/// Updates a view.
#[derive(Debug, PartialEq, Eq)]
pub struct UpdateFeedViewTransaction {
    pub feed_id: String,
    pub feed_view_id: String,
    pub encrypted_data: EncryptedDocument,
    pub name: Option<String>,
    pub active: bool,
    pub decrypted: bool,
    pub mapping_code: String,
}

/// What `UpdateFeedViewTransaction` holds, as plain values.
pub ghost struct UpdateFeedViewTransactionSpec {
    pub feed_id: Seq<char>,
    pub feed_view_id: Seq<char>,
    pub encrypted_data: EncryptedDocumentSpec,
    pub name: Option<Seq<char>>,
    pub active: bool,
    pub decrypted: bool,
    pub mapping_code: Seq<char>,
}

impl DeepView for UpdateFeedViewTransaction {
    type V = UpdateFeedViewTransactionSpec;

    open spec fn deep_view(&self) -> UpdateFeedViewTransactionSpec {
        UpdateFeedViewTransactionSpec {
            feed_id: self.feed_id@,
            feed_view_id: self.feed_view_id@,
            encrypted_data: self.encrypted_data.deep_view(),
            name: self.name.deep_view(),
            active: self.active,
            decrypted: self.decrypted,
            mapping_code: self.mapping_code@,
        }
    }
}

impl Clone for UpdateFeedViewTransaction {
    fn clone(&self) -> (r: UpdateFeedViewTransaction)
        ensures
            r.deep_view() == self.deep_view(),
    {
        UpdateFeedViewTransaction {
            feed_id: self.feed_id.clone(),
            feed_view_id: self.feed_view_id.clone(),
            encrypted_data: self.encrypted_data.clone(),
            name: copy_text(&self.name),
            active: self.active,
            decrypted: self.decrypted,
            mapping_code: self.mapping_code.clone(),
        }
    }
}

/// A row that the mapper hands in for a view.
#[derive(Debug, PartialEq, Eq)]
pub struct FeedViewGroupedDatedItem {
    /// Unique data item identifier for this feed view
    pub data_id: String,
    pub feed_view_id: String,
    /// Source data of the data item
    pub feed_id: String,
    /// Item publication or content date
    pub pub_date: Option<i64>,
    /// Encrypted content of the data item. Structure depends on the feed type.
    pub encrypted_data: EncryptedDocument,
    pub group_id: Option<String>,
    /// Files associated with this data item
    pub files: Option<Vec<FileItem>>,
}

/// What `FeedViewGroupedDatedItem` holds, as plain values.
pub ghost struct FeedViewGroupedDatedItemSpec {
    pub data_id: Seq<char>,
    pub feed_view_id: Seq<char>,
    pub feed_id: Seq<char>,
    pub pub_date: Option<i64>,
    pub encrypted_data: EncryptedDocumentSpec,
    pub group_id: Option<Seq<char>>,
    pub files: Option<Seq<FileItemSpec>>,
}

impl DeepView for FeedViewGroupedDatedItem {
    type V = FeedViewGroupedDatedItemSpec;

    open spec fn deep_view(&self) -> FeedViewGroupedDatedItemSpec {
        FeedViewGroupedDatedItemSpec {
            data_id: self.data_id@,
            feed_view_id: self.feed_view_id@,
            feed_id: self.feed_id@,
            pub_date: self.pub_date,
            encrypted_data: self.encrypted_data.deep_view(),
            group_id: self.group_id.deep_view(),
            files: self.files.deep_view(),
        }
    }
}

impl Clone for FeedViewGroupedDatedItem {
    fn clone(&self) -> (r: FeedViewGroupedDatedItem)
        ensures
            r.deep_view() == self.deep_view(),
    {
        FeedViewGroupedDatedItem {
            data_id: self.data_id.clone(),
            feed_view_id: self.feed_view_id.clone(),
            feed_id: self.feed_id.clone(),
            pub_date: self.pub_date,
            encrypted_data: self.encrypted_data.clone(),
            group_id: copy_text(&self.group_id),
            files: copy_optional_files(&self.files),
        }
    }
}

/// A copy of a list of files.
pub fn copy_files(files: &Vec<FileItem>) -> (r: Vec<FileItem>)
    ensures
        r.deep_view() == files.deep_view(),
{
    let mut copy: Vec<FileItem> = Vec::new();
    let mut i: usize = 0;
    while i < files.len()
        invariant
            i <= files.len(),
            copy.len() == i,
            forall|j: int| 0 <= j < i ==> copy[j].deep_view() == files[j].deep_view(),
        decreases files.len() - i,
    {
        copy.push(files[i].clone());
        i = i + 1;
    }
    assert(copy.deep_view() =~= files.deep_view());
    copy
}

/// A copy of an optional list of files.
pub fn copy_optional_files(files: &Option<Vec<FileItem>>) -> (r: Option<Vec<FileItem>>)
    ensures
        r.deep_view() == files.deep_view(),
{
    match files {
        Some(f) => Some(copy_files(f)),
        None => None,
    }
}

impl SaveDataItemTransactionSpec {
    /// The row that the transaction saves.
    pub open spec fn row(self) -> DataCollectorRowSpec {
        DataCollectorRowSpec {
            data_id: self.data_id,
            feed_id: self.feed_id,
            pub_date: self.pub_date,
            encrypted_data: self.encrypted_data,
            files: self.files,
        }
    }
}

impl SaveDataItemTransaction {
    /// The row that the transaction saves.
    pub fn into(self) -> (r: DataCollectorRow)
        ensures
            r.deep_view() == self.deep_view().row(),
    {
        DataCollectorRow {
            data_id: self.data_id,
            feed_id: self.feed_id,
            pub_date: self.pub_date,
            encrypted_data: self.encrypted_data,
            files: self.files,
        }
    }
}

impl SaveDataItemTransactionV2Spec {
    /// The row that the transaction saves.
    pub open spec fn row(self) -> DataCollectorFilesRowSpec {
        DataCollectorFilesRowSpec {
            data_id: self.data_id,
            feed_id: self.feed_id,
            save_date: self.save_date,
            data_fuuid: self.data_fuuid,
            key_ids: self.key_ids,
            pub_date_start: self.pub_date_start,
            pub_date_end: self.pub_date_end,
            attached_fuuids: self.attached_fuuids,
        }
    }
}

impl SaveDataItemTransactionV2 {
    /// The row that the transaction saves.
    pub fn into(self) -> (r: DataCollectorFilesRow)
        ensures
            r.deep_view() == self.deep_view().row(),
    {
        DataCollectorFilesRow {
            data_id: self.data_id,
            feed_id: self.feed_id,
            save_date: self.save_date,
            data_fuuid: self.data_fuuid,
            key_ids: self.key_ids,
            pub_date_start: self.pub_date_start,
            pub_date_end: self.pub_date_end,
            attached_fuuids: self.attached_fuuids,
        }
    }
}

impl FeedViewGroupedDatedItemSpec {
    /// The row that the item becomes.
    pub open spec fn row(self) -> FeedViewGroupedDatedRowSpec {
        FeedViewGroupedDatedRowSpec {
            data_id: self.data_id,
            feed_view_id: self.feed_view_id,
            feed_id: self.feed_id,
            pub_date: self.pub_date,
            encrypted_data: self.encrypted_data,
            group_id: self.group_id,
            files: self.files,
        }
    }
}

impl FeedViewGroupedDatedItem {
    /// The row that the item becomes.
    pub fn into(self) -> (r: FeedViewGroupedDatedRow)
        ensures
            r.deep_view() == self.deep_view().row(),
    {
        FeedViewGroupedDatedRow {
            data_id: self.data_id,
            feed_view_id: self.feed_view_id,
            feed_id: self.feed_id,
            pub_date: self.pub_date,
            encrypted_data: self.encrypted_data,
            group_id: self.group_id,
            files: self.files,
        }
    }
}

} // verus!
