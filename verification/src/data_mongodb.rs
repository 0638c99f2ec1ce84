//! The rows of the collections that the service keeps.
//!
//! Dates are milliseconds since the Unix epoch.

use vstd::prelude::*;
use crate::text::{copy_optional_texts, copy_text, copy_texts};
use crate::transactions_struct::{copy_optional_files, FileItem, FileItemSpec};

verus! {

/// An encrypted document. Only the reference of its key is ever read; the
/// rest travels as one text.
#[derive(Debug, PartialEq, Eq)]
pub struct EncryptedDocument {
    /// Reference of the key that decrypts the document.
    pub cle_id: Option<String>,
    /// Ciphertext and parameters, as they were received.
    pub content: String,
}

/// What `EncryptedDocument` holds, as plain values.
pub ghost struct EncryptedDocumentSpec {
    pub cle_id: Option<Seq<char>>,
    pub content: Seq<char>,
}

impl DeepView for EncryptedDocument {
    type V = EncryptedDocumentSpec;

    open spec fn deep_view(&self) -> EncryptedDocumentSpec {
        EncryptedDocumentSpec {
            cle_id: self.cle_id.deep_view(),
            content: self.content@,
        }
    }
}

impl Clone for EncryptedDocument {
    fn clone(&self) -> (r: EncryptedDocument)
        ensures
            r.deep_view() == self.deep_view(),
    {
        EncryptedDocument {
            cle_id: copy_text(&self.cle_id),
            content: self.content.clone(),
        }
    }
}

/// What it takes to decrypt a file. Only the reference of its key is ever
/// read; the rest travels as one text.
#[derive(Debug, PartialEq, Eq)]
pub struct FileDecryption {
    /// Reference of the key that decrypts the file.
    pub cle_id: Option<String>,
    /// Parameters of the decryption, as they were received.
    pub content: String,
}

/// What `FileDecryption` holds, as plain values.
pub ghost struct FileDecryptionSpec {
    pub cle_id: Option<Seq<char>>,
    pub content: Seq<char>,
}

impl DeepView for FileDecryption {
    type V = FileDecryptionSpec;

    open spec fn deep_view(&self) -> FileDecryptionSpec {
        FileDecryptionSpec {
            cle_id: self.cle_id.deep_view(),
            content: self.content@,
        }
    }
}

impl Clone for FileDecryption {
    fn clone(&self) -> (r: FileDecryption)
        ensures
            r.deep_view() == self.deep_view(),
    {
        FileDecryption {
            cle_id: copy_text(&self.cle_id),
            content: self.content.clone(),
        }
    }
}

/// A feed: a subscription to a source of data.
#[derive(Debug, PartialEq, Eq)]
pub struct DataFeedRow {
    pub feed_id: String,
    /// Type of feed (implies data type). Used by processors, aggregators, displays.
    pub feed_type: String,
    /// Security level of the feed
    pub security_level: String,
    /// Domain that owns the data for this feed
    pub domain: String,
    /// Refresh rate in seconds when polling. No effect on live/push feeds.
    pub poll_rate: Option<usize>,
    /// If false, the feed is not activated on creation to produce data
    pub active: Option<bool>,
    /// If true, the data will be decrypted in a decrypted_feed_information field in the database.
    pub decrypt_in_database: Option<bool>,
    /// Private information on the feed, including name/description, url, auth, etc.
    pub encrypted_feed_information: EncryptedDocument,
    /// Owner of the feed or None for system feeds.
    pub user_id: Option<String>,
    pub created_at: i64,
    pub modified_at: i64,
    /// True if feed is logically deleted but can be recovered
    pub deleted: bool,
    pub deleted_at: Option<i64>,
}

/// What `DataFeedRow` holds, as plain values.
pub ghost struct DataFeedRowSpec {
    pub feed_id: Seq<char>,
    pub feed_type: Seq<char>,
    pub security_level: Seq<char>,
    pub domain: Seq<char>,
    pub poll_rate: Option<usize>,
    pub active: Option<bool>,
    pub decrypt_in_database: Option<bool>,
    pub encrypted_feed_information: EncryptedDocumentSpec,
    pub user_id: Option<Seq<char>>,
    pub created_at: i64,
    pub modified_at: i64,
    pub deleted: bool,
    pub deleted_at: Option<i64>,
}

impl DeepView for DataFeedRow {
    type V = DataFeedRowSpec;

    open spec fn deep_view(&self) -> DataFeedRowSpec {
        DataFeedRowSpec {
            feed_id: self.feed_id@,
            feed_type: self.feed_type@,
            security_level: self.security_level@,
            domain: self.domain@,
            poll_rate: self.poll_rate,
            active: self.active,
            decrypt_in_database: self.decrypt_in_database,
            encrypted_feed_information: self.encrypted_feed_information.deep_view(),
            user_id: self.user_id.deep_view(),
            created_at: self.created_at,
            modified_at: self.modified_at,
            deleted: self.deleted,
            deleted_at: self.deleted_at,
        }
    }
}

impl Clone for DataFeedRow {
    fn clone(&self) -> (r: DataFeedRow)
        ensures
            r.deep_view() == self.deep_view(),
    {
        DataFeedRow {
            feed_id: self.feed_id.clone(),
            feed_type: self.feed_type.clone(),
            security_level: self.security_level.clone(),
            domain: self.domain.clone(),
            poll_rate: self.poll_rate,
            active: self.active,
            decrypt_in_database: self.decrypt_in_database,
            encrypted_feed_information: self.encrypted_feed_information.clone(),
            user_id: copy_text(&self.user_id),
            created_at: self.created_at,
            modified_at: self.modified_at,
            deleted: self.deleted,
            deleted_at: self.deleted_at,
        }
    }
}

/// A data item of a feed, held inline.
#[derive(Debug, PartialEq, Eq)]
pub struct DataCollectorRow {
    pub data_id: String,
    pub feed_id: String,
    pub pub_date: i64,
    pub encrypted_data: EncryptedDocument,
    pub files: Option<Vec<FileItem>>,
}

/// What `DataCollectorRow` holds, as plain values.
pub ghost struct DataCollectorRowSpec {
    pub data_id: Seq<char>,
    pub feed_id: Seq<char>,
    pub pub_date: i64,
    pub encrypted_data: EncryptedDocumentSpec,
    pub files: Option<Seq<FileItemSpec>>,
}

impl DeepView for DataCollectorRow {
    type V = DataCollectorRowSpec;

    open spec fn deep_view(&self) -> DataCollectorRowSpec {
        DataCollectorRowSpec {
            data_id: self.data_id@,
            feed_id: self.feed_id@,
            pub_date: self.pub_date,
            encrypted_data: self.encrypted_data.deep_view(),
            files: self.files.deep_view(),
        }
    }
}

impl Clone for DataCollectorRow {
    fn clone(&self) -> (r: DataCollectorRow)
        ensures
            r.deep_view() == self.deep_view(),
    {
        DataCollectorRow {
            data_id: self.data_id.clone(),
            feed_id: self.feed_id.clone(),
            pub_date: self.pub_date,
            encrypted_data: self.encrypted_data.clone(),
            files: copy_optional_files(&self.files),
        }
    }
}

/// A data item of a feed whose content is a file.
#[derive(Debug, PartialEq, Eq)]
pub struct DataCollectorFilesRow {
    /// Unique data item identifier for this feed
    pub data_id: String,
    /// Source of the data item
    pub feed_id: String,
    /// Date at which the item was taken in
    pub save_date: i64,
    pub data_fuuid: String,
    pub key_ids: Vec<String>,
    /// Item publication or content date
    pub pub_date_start: Option<i64>,
    /// Item publication or content date
    pub pub_date_end: Option<i64>,
    /// Files associated with this data item
    pub attached_fuuids: Option<Vec<String>>,
}

/// What `DataCollectorFilesRow` holds, as plain values.
pub ghost struct DataCollectorFilesRowSpec {
    pub data_id: Seq<char>,
    pub feed_id: Seq<char>,
    pub save_date: i64,
    pub data_fuuid: Seq<char>,
    pub key_ids: Seq<Seq<char>>,
    pub pub_date_start: Option<i64>,
    pub pub_date_end: Option<i64>,
    pub attached_fuuids: Option<Seq<Seq<char>>>,
}

impl DeepView for DataCollectorFilesRow {
    type V = DataCollectorFilesRowSpec;

    open spec fn deep_view(&self) -> DataCollectorFilesRowSpec {
        DataCollectorFilesRowSpec {
            data_id: self.data_id@,
            feed_id: self.feed_id@,
            save_date: self.save_date,
            data_fuuid: self.data_fuuid@,
            key_ids: self.key_ids.deep_view(),
            pub_date_start: self.pub_date_start,
            pub_date_end: self.pub_date_end,
            attached_fuuids: self.attached_fuuids.deep_view(),
        }
    }
}

impl Clone for DataCollectorFilesRow {
    fn clone(&self) -> (r: DataCollectorFilesRow)
        ensures
            r.deep_view() == self.deep_view(),
    {
        DataCollectorFilesRow {
            data_id: self.data_id.clone(),
            feed_id: self.feed_id.clone(),
            save_date: self.save_date,
            data_fuuid: self.data_fuuid.clone(),
            key_ids: copy_texts(&self.key_ids),
            pub_date_start: self.pub_date_start,
            pub_date_end: self.pub_date_end,
            attached_fuuids: copy_optional_texts(&self.attached_fuuids),
        }
    }
}

/// A view: a projection defined over a feed.
#[derive(Debug, PartialEq, Eq)]
pub struct FeedViewRow {
    pub feed_view_id: String,
    pub feed_id: String,
    pub encrypted_data: EncryptedDocument,
    pub name: Option<String>,
    pub active: bool,
    pub decrypted: bool,
    /// Name of the kind of data of the view; grouped and dated when absent.
    pub data_type: Option<String>,
    pub mapping_code: String,
    pub creation_date: i64,
    pub modification_date: i64,
    pub deleted: bool,
    /// False while a processing run is in flight.
    pub ready: bool,
    /// When the last processing run was started.
    pub processing_start_date: Option<i64>,
}

/// What `FeedViewRow` holds, as plain values.
pub ghost struct FeedViewRowSpec {
    pub feed_view_id: Seq<char>,
    pub feed_id: Seq<char>,
    pub encrypted_data: EncryptedDocumentSpec,
    pub name: Option<Seq<char>>,
    pub active: bool,
    pub decrypted: bool,
    pub data_type: Option<Seq<char>>,
    pub mapping_code: Seq<char>,
    pub creation_date: i64,
    pub modification_date: i64,
    pub deleted: bool,
    pub ready: bool,
    pub processing_start_date: Option<i64>,
}

impl DeepView for FeedViewRow {
    type V = FeedViewRowSpec;

    open spec fn deep_view(&self) -> FeedViewRowSpec {
        FeedViewRowSpec {
            feed_view_id: self.feed_view_id@,
            feed_id: self.feed_id@,
            encrypted_data: self.encrypted_data.deep_view(),
            name: self.name.deep_view(),
            active: self.active,
            decrypted: self.decrypted,
            data_type: self.data_type.deep_view(),
            mapping_code: self.mapping_code@,
            creation_date: self.creation_date,
            modification_date: self.modification_date,
            deleted: self.deleted,
            ready: self.ready,
            processing_start_date: self.processing_start_date,
        }
    }
}

impl Clone for FeedViewRow {
    fn clone(&self) -> (r: FeedViewRow)
        ensures
            r.deep_view() == self.deep_view(),
    {
        FeedViewRow {
            feed_view_id: self.feed_view_id.clone(),
            feed_id: self.feed_id.clone(),
            encrypted_data: self.encrypted_data.clone(),
            name: copy_text(&self.name),
            active: self.active,
            decrypted: self.decrypted,
            data_type: copy_text(&self.data_type),
            mapping_code: self.mapping_code.clone(),
            creation_date: self.creation_date,
            modification_date: self.modification_date,
            deleted: self.deleted,
            ready: self.ready,
            processing_start_date: self.processing_start_date,
        }
    }
}

/// A row of a view, as the mapper produced it.
#[derive(Debug, PartialEq, Eq)]
pub struct FeedViewGroupedDatedRow {
    /// Unique data item identifier for this feed view
    pub data_id: String,
    pub feed_view_id: String,
    /// Source data of the data item
    pub feed_id: String,
    /// Item publication or content date
    pub pub_date: Option<i64>,
    /// Encrypted content of the data item. Structure depends on the feed type.
    pub encrypted_data: EncryptedDocument,
    pub group_id: Option<String>,
    /// Files associated with this data item
    pub files: Option<Vec<FileItem>>,
}

/// What `FeedViewGroupedDatedRow` holds, as plain values.
pub ghost struct FeedViewGroupedDatedRowSpec {
    pub data_id: Seq<char>,
    pub feed_view_id: Seq<char>,
    pub feed_id: Seq<char>,
    pub pub_date: Option<i64>,
    pub encrypted_data: EncryptedDocumentSpec,
    pub group_id: Option<Seq<char>>,
    pub files: Option<Seq<FileItemSpec>>,
}

impl DeepView for FeedViewGroupedDatedRow {
    type V = FeedViewGroupedDatedRowSpec;

    open spec fn deep_view(&self) -> FeedViewGroupedDatedRowSpec {
        FeedViewGroupedDatedRowSpec {
            data_id: self.data_id@,
            feed_view_id: self.feed_view_id@,
            feed_id: self.feed_id@,
            pub_date: self.pub_date,
            encrypted_data: self.encrypted_data.deep_view(),
            group_id: self.group_id.deep_view(),
            files: self.files.deep_view(),
        }
    }
}

impl Clone for FeedViewGroupedDatedRow {
    fn clone(&self) -> (r: FeedViewGroupedDatedRow)
        ensures
            r.deep_view() == self.deep_view(),
    {
        FeedViewGroupedDatedRow {
            data_id: self.data_id.clone(),
            feed_view_id: self.feed_view_id.clone(),
            feed_id: self.feed_id.clone(),
            pub_date: self.pub_date,
            encrypted_data: self.encrypted_data.clone(),
            group_id: copy_text(&self.group_id),
            files: copy_optional_files(&self.files),
        }
    }
}

/// A file that a scraper published before anything refers to it for good.
#[derive(Debug, PartialEq, Eq)]
pub struct VolatileFileRow {
    pub correlation: String,
    pub fuuid: String,
    pub format: String,
    pub cle_id: String,
    pub nonce: Option<String>,
    pub compression: Option<String>,
    /// When the handle stops being of use.
    pub expiration: i64,
    pub created: i64,
    pub modified: i64,
}

/// What `VolatileFileRow` holds, as plain values.
pub ghost struct VolatileFileRowSpec {
    pub correlation: Seq<char>,
    pub fuuid: Seq<char>,
    pub format: Seq<char>,
    pub cle_id: Seq<char>,
    pub nonce: Option<Seq<char>>,
    pub compression: Option<Seq<char>>,
    pub expiration: i64,
    pub created: i64,
    pub modified: i64,
}

impl DeepView for VolatileFileRow {
    type V = VolatileFileRowSpec;

    open spec fn deep_view(&self) -> VolatileFileRowSpec {
        VolatileFileRowSpec {
            correlation: self.correlation@,
            fuuid: self.fuuid@,
            format: self.format@,
            cle_id: self.cle_id@,
            nonce: self.nonce.deep_view(),
            compression: self.compression.deep_view(),
            expiration: self.expiration,
            created: self.created,
            modified: self.modified,
        }
    }
}

impl Clone for VolatileFileRow {
    fn clone(&self) -> (r: VolatileFileRow)
        ensures
            r.deep_view() == self.deep_view(),
    {
        VolatileFileRow {
            correlation: self.correlation.clone(),
            fuuid: self.fuuid.clone(),
            format: self.format.clone(),
            cle_id: self.cle_id.clone(),
            nonce: copy_text(&self.nonce),
            compression: copy_text(&self.compression),
            expiration: self.expiration,
            created: self.created,
            modified: self.modified,
        }
    }
}

/// A copy of an optional encrypted document.
pub fn copy_optional_document(document: &Option<EncryptedDocument>) -> (r: Option<
    EncryptedDocument,
>)
    ensures
        r.deep_view() == document.deep_view(),
{
    match document {
        Some(d) => Some(d.clone()),
        None => None,
    }
}

/// A copy of an optional decryption.
pub fn copy_optional_decryption(decryption: &Option<FileDecryption>) -> (r: Option<FileDecryption>)
    ensures
        r.deep_view() == decryption.deep_view(),
{
    match decryption {
        Some(d) => Some(d.clone()),
        None => None,
    }
}

/// The two identifiers by which a data item is found in its feed.
#[derive(Clone, Copy, Debug)]
pub struct DataCollectorRowIds<'a> {
    pub data_id: &'a str,
    pub feed_id: &'a str,
}

impl DataFeedRowSpec {
    /// Whether the feed is the one of this id and falls under this owner
    /// (`None` for the system).
    pub open spec fn in_scope(self, feed_id: Seq<char>, owner: Option<Seq<char>>) -> bool {
        self.feed_id == feed_id && self.user_id == owner
    }
}

} // verus!
