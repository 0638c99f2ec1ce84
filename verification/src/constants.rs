//! Names shared by the whole service, and the kinds of view data.

use vstd::prelude::*;
use crate::text::same_text;

verus! {

pub const DOMAIN_NAME: &'static str = "DataCollector";

pub const DOMAIN_DATASOURCEMAPPER: &'static str = "datasource_mapper";

pub const DOMAINE_TOPOLOGIE: &'static str = "CoreTopologie";

pub const COLLECTION_NAME_TRANSACTIONS: &'static str = "DataCollector";

pub const COLLECTION_NAME_FEEDS: &'static str = "DataCollector/feeds";

pub const COLLECTION_NAME_FEED_VIEWS: &'static str = "DataCollector/feeds/views";

pub const COLLECTION_NAME_DATA_DATACOLLECTOR: &'static str = "DataCollector/data/DataCollector";

pub const COLLECTION_NAME_FEED_VIEW_GROUPED_DATED: &'static str = "DataCollector/view/GroupedDated";

pub const COLLECTION_NAME_FEED_VIEW_DATED: &'static str = "DataCollector/view/Dated";

pub const COLLECTION_NAME_SRC_DATAFILES: &'static str = "DataCollector/source/DataFiles";

pub const COLLECTION_NAME_SRC_FILES_VOLATILE: &'static str = "DataCollector/volatile/files";

pub const REQUEST_GET_FEEDS: &'static str = "getFeeds";

pub const REQUEST_GET_FEEDS_FOR_SCRAPER: &'static str = "getFeedsForScraper";

pub const REQUEST_GET_FEED_VIEWS: &'static str = "getFeedViews";

pub const REQUEST_CHECK_EXISTING_DATA_IDS: &'static str = "checkExistingDataIds";

pub const REQUEST_GET_DATA_ITEMS_MOST_RECENT: &'static str = "getDataItemsMostRecent";

pub const REQUEST_GET_DATA_ITEMS_DATE_RANGE: &'static str = "getDataItemsDateRange";

pub const REQUEST_GET_FUUIDS_VOLATILE: &'static str = "getFuuidsVolatile";

pub const REQUEST_GET_FEED_DATA: &'static str = "getFeedData";

pub const REQUEST_GET_VIEW_DATA: &'static str = "getFeedViewData";

pub const COMMAND_ADD_FUUIDS_VOLATILE: &'static str = "addFuuidsVolatile";

pub const COMMAND_PROCESS_VIEW: &'static str = "processView";

pub const COMMAND_INSERT_VIEW_DATA: &'static str = "insertViewData";

pub const TRANSACTION_CREATE_FEED: &'static str = "createFeed";

pub const TRANSACTION_UPDATE_FEED: &'static str = "updateFeed";

pub const TRANSACTION_DELETE_FEED: &'static str = "deleteFeed";

pub const TRANSACTION_RESTORE_FEED: &'static str = "restoreFeed";

pub const TRANSACTION_SAVE_DATA_ITEM: &'static str = "saveDataItem";

pub const TRANSACTION_SAVE_DATA_ITEM_V2: &'static str = "saveDataItemV2";

pub const TRANSACTION_CREATE_FEED_VIEW: &'static str = "createFeedView";

pub const TRANSACTION_UPDATE_FEED_VIEW: &'static str = "updateFeedView";

pub const EVENT_FEED_DATA_UPDATED: &'static str = "feedDataUpdated";

pub const COMMAND_PROCESS_FEED_VIEW: &'static str = "processFeedView";

pub const COMMAND_CLAIM_AND_FILEHOST_VISITS: &'static str = "claimAndFilehostVisits";

pub const COMMAND_CLAIM_FILES: &'static str = "claimFiles";

pub const SECURITE_1_PUBLIC: &'static str = "1.public";

pub const SECURITE_2_PRIVE: &'static str = "2.prive";

pub const SECURITE_3_PROTEGE: &'static str = "3.protege";

pub const ROLE_WEB_SCRAPER: &'static str = "web_scraper";

pub const ROLE_DATASOURCE_MAPPER: &'static str = "datasource_mapper";

/// Type of data, determines the collection and the unencrypted data elements that
/// can be processed directly in the database without decryption.
#[derive(Clone, Copy, Debug, PartialEq, Eq, Structural)]
pub enum ViewDataType {
    /// Data with a pub_date (e.g. longitudinal, news article)
    Dated,
    /// Data with a pub_date and a group_id.
    GroupedDated,
}

/// A stored data type name that stands for no kind of view data.
#[derive(Clone, Copy, Debug, PartialEq, Eq, Structural)]
pub struct UnsupportedType;

/// The kind of view data that a stored name stands for, if any: each kind
/// is stored under its own name, letter for letter, and no other text names
/// a kind.
pub open spec fn view_data_type_of(name: Seq<char>) -> Option<ViewDataType> {
    if name == "Dated"@ {
        Some(ViewDataType::Dated)
    } else if name == "GroupedDated"@ {
        Some(ViewDataType::GroupedDated)
    } else {
        None
    }
}

/// Each kind of view data is read from its own name, and from no name but
/// its own: the name of the one kind does not read as the other, and a text
/// that is neither name reads as no kind.
pub proof fn lemma_view_data_type_names(name: Seq<char>)
    ensures
        view_data_type_of(name) == Some(ViewDataType::Dated) <==> name == "Dated"@,
        view_data_type_of(name) == Some(ViewDataType::GroupedDated) <==> name == "GroupedDated"@,
        view_data_type_of(name) is None <==> name != "Dated"@ && name != "GroupedDated"@,
{
    reveal_strlit("Dated");
    reveal_strlit("GroupedDated");
    assert("Dated"@.len() == 5);
    assert("GroupedDated"@.len() == 12);
}

/// The collection that holds the rows of a view of the given kind.
pub open spec fn view_data_collection(data_type: ViewDataType) -> Seq<char> {
    match data_type {
        ViewDataType::Dated => COLLECTION_NAME_FEED_VIEW_DATED@,
        ViewDataType::GroupedDated => COLLECTION_NAME_FEED_VIEW_GROUPED_DATED@,
    }
}

impl ViewDataType {
    /// Reads a stored data type name.
    pub fn try_from(value: &str) -> (r: Result<ViewDataType, UnsupportedType>)
        ensures
            r == match view_data_type_of(value@) {
                Some(t) => Ok::<ViewDataType, UnsupportedType>(t),
                None => Err::<ViewDataType, UnsupportedType>(UnsupportedType),
            },
    {
        if same_text(value, "Dated") {
            Ok(ViewDataType::Dated)
        } else if same_text(value, "GroupedDated") {
            Ok(ViewDataType::GroupedDated)
        } else {
            Err(UnsupportedType)
        }
    }

    /// Name of the collection that holds the rows of such a view.
    pub fn collection_name(&self) -> (r: &'static str)
        ensures
            r@ == view_data_collection(*self),
    {
        match self {
            ViewDataType::Dated => COLLECTION_NAME_FEED_VIEW_DATED,
            ViewDataType::GroupedDated => COLLECTION_NAME_FEED_VIEW_GROUPED_DATED,
        }
    }
}

/// The names of the transactions are eight different names.
pub proof fn lemma_transaction_names_differ()
    ensures
        TRANSACTION_CREATE_FEED@ != TRANSACTION_UPDATE_FEED@,
        TRANSACTION_CREATE_FEED@ != TRANSACTION_DELETE_FEED@,
        TRANSACTION_CREATE_FEED@ != TRANSACTION_RESTORE_FEED@,
        TRANSACTION_CREATE_FEED@ != TRANSACTION_SAVE_DATA_ITEM@,
        TRANSACTION_CREATE_FEED@ != TRANSACTION_SAVE_DATA_ITEM_V2@,
        TRANSACTION_CREATE_FEED@ != TRANSACTION_CREATE_FEED_VIEW@,
        TRANSACTION_CREATE_FEED@ != TRANSACTION_UPDATE_FEED_VIEW@,
        TRANSACTION_UPDATE_FEED@ != TRANSACTION_DELETE_FEED@,
        TRANSACTION_UPDATE_FEED@ != TRANSACTION_RESTORE_FEED@,
        TRANSACTION_UPDATE_FEED@ != TRANSACTION_SAVE_DATA_ITEM@,
        TRANSACTION_UPDATE_FEED@ != TRANSACTION_SAVE_DATA_ITEM_V2@,
        TRANSACTION_UPDATE_FEED@ != TRANSACTION_CREATE_FEED_VIEW@,
        TRANSACTION_UPDATE_FEED@ != TRANSACTION_UPDATE_FEED_VIEW@,
        TRANSACTION_DELETE_FEED@ != TRANSACTION_RESTORE_FEED@,
        TRANSACTION_DELETE_FEED@ != TRANSACTION_SAVE_DATA_ITEM@,
        TRANSACTION_DELETE_FEED@ != TRANSACTION_SAVE_DATA_ITEM_V2@,
        TRANSACTION_DELETE_FEED@ != TRANSACTION_CREATE_FEED_VIEW@,
        TRANSACTION_DELETE_FEED@ != TRANSACTION_UPDATE_FEED_VIEW@,
        TRANSACTION_RESTORE_FEED@ != TRANSACTION_SAVE_DATA_ITEM@,
        TRANSACTION_RESTORE_FEED@ != TRANSACTION_SAVE_DATA_ITEM_V2@,
        TRANSACTION_RESTORE_FEED@ != TRANSACTION_CREATE_FEED_VIEW@,
        TRANSACTION_RESTORE_FEED@ != TRANSACTION_UPDATE_FEED_VIEW@,
        TRANSACTION_SAVE_DATA_ITEM@ != TRANSACTION_SAVE_DATA_ITEM_V2@,
        TRANSACTION_SAVE_DATA_ITEM@ != TRANSACTION_CREATE_FEED_VIEW@,
        TRANSACTION_SAVE_DATA_ITEM@ != TRANSACTION_UPDATE_FEED_VIEW@,
        TRANSACTION_SAVE_DATA_ITEM_V2@ != TRANSACTION_CREATE_FEED_VIEW@,
        TRANSACTION_SAVE_DATA_ITEM_V2@ != TRANSACTION_UPDATE_FEED_VIEW@,
        TRANSACTION_CREATE_FEED_VIEW@ != TRANSACTION_UPDATE_FEED_VIEW@,
{
    reveal_strlit("createFeed");
    reveal_strlit("updateFeed");
    reveal_strlit("deleteFeed");
    reveal_strlit("restoreFeed");
    reveal_strlit("saveDataItem");
    reveal_strlit("saveDataItemV2");
    reveal_strlit("createFeedView");
    reveal_strlit("updateFeedView");
    assert("createFeed"@.len() == 10 && "createFeed"@[0] == 'c');
    assert("updateFeed"@.len() == 10 && "updateFeed"@[0] == 'u');
    assert("deleteFeed"@.len() == 10 && "deleteFeed"@[0] == 'd');
    assert("restoreFeed"@.len() == 11);
    assert("saveDataItem"@.len() == 12);
    assert("saveDataItemV2"@.len() == 14 && "saveDataItemV2"@[0] == 's');
    assert("createFeedView"@.len() == 14 && "createFeedView"@[0] == 'c');
    assert("updateFeedView"@.len() == 14 && "updateFeedView"@[0] == 'u');
}

/// The names of the commands that are no transactions differ from one
/// another and from the names of the transactions.
pub proof fn lemma_command_names_differ()
    ensures
        COMMAND_ADD_FUUIDS_VOLATILE@ != COMMAND_PROCESS_VIEW@,
        COMMAND_ADD_FUUIDS_VOLATILE@ != COMMAND_INSERT_VIEW_DATA@,
        COMMAND_PROCESS_VIEW@ != COMMAND_INSERT_VIEW_DATA@,
        COMMAND_ADD_FUUIDS_VOLATILE@ != TRANSACTION_CREATE_FEED@,
        COMMAND_ADD_FUUIDS_VOLATILE@ != TRANSACTION_UPDATE_FEED@,
        COMMAND_ADD_FUUIDS_VOLATILE@ != TRANSACTION_DELETE_FEED@,
        COMMAND_ADD_FUUIDS_VOLATILE@ != TRANSACTION_RESTORE_FEED@,
        COMMAND_ADD_FUUIDS_VOLATILE@ != TRANSACTION_SAVE_DATA_ITEM@,
        COMMAND_ADD_FUUIDS_VOLATILE@ != TRANSACTION_SAVE_DATA_ITEM_V2@,
        COMMAND_ADD_FUUIDS_VOLATILE@ != TRANSACTION_CREATE_FEED_VIEW@,
        COMMAND_ADD_FUUIDS_VOLATILE@ != TRANSACTION_UPDATE_FEED_VIEW@,
        COMMAND_PROCESS_VIEW@ != TRANSACTION_CREATE_FEED@,
        COMMAND_PROCESS_VIEW@ != TRANSACTION_UPDATE_FEED@,
        COMMAND_PROCESS_VIEW@ != TRANSACTION_DELETE_FEED@,
        COMMAND_PROCESS_VIEW@ != TRANSACTION_RESTORE_FEED@,
        COMMAND_PROCESS_VIEW@ != TRANSACTION_SAVE_DATA_ITEM@,
        COMMAND_PROCESS_VIEW@ != TRANSACTION_SAVE_DATA_ITEM_V2@,
        COMMAND_PROCESS_VIEW@ != TRANSACTION_CREATE_FEED_VIEW@,
        COMMAND_PROCESS_VIEW@ != TRANSACTION_UPDATE_FEED_VIEW@,
        COMMAND_INSERT_VIEW_DATA@ != TRANSACTION_CREATE_FEED@,
        COMMAND_INSERT_VIEW_DATA@ != TRANSACTION_UPDATE_FEED@,
        COMMAND_INSERT_VIEW_DATA@ != TRANSACTION_DELETE_FEED@,
        COMMAND_INSERT_VIEW_DATA@ != TRANSACTION_RESTORE_FEED@,
        COMMAND_INSERT_VIEW_DATA@ != TRANSACTION_SAVE_DATA_ITEM@,
        COMMAND_INSERT_VIEW_DATA@ != TRANSACTION_SAVE_DATA_ITEM_V2@,
        COMMAND_INSERT_VIEW_DATA@ != TRANSACTION_CREATE_FEED_VIEW@,
        COMMAND_INSERT_VIEW_DATA@ != TRANSACTION_UPDATE_FEED_VIEW@,
{
    reveal_strlit("createFeed");
    reveal_strlit("updateFeed");
    reveal_strlit("deleteFeed");
    reveal_strlit("restoreFeed");
    reveal_strlit("saveDataItem");
    reveal_strlit("saveDataItemV2");
    reveal_strlit("createFeedView");
    reveal_strlit("updateFeedView");
    reveal_strlit("addFuuidsVolatile");
    reveal_strlit("processView");
    reveal_strlit("insertViewData");
    assert("createFeed"@.len() == 10);
    assert("updateFeed"@.len() == 10);
    assert("deleteFeed"@.len() == 10);
    assert("restoreFeed"@.len() == 11 && "restoreFeed"@[0] == 'r');
    assert("saveDataItem"@.len() == 12);
    assert("saveDataItemV2"@.len() == 14 && "saveDataItemV2"@[0] == 's');
    assert("createFeedView"@.len() == 14 && "createFeedView"@[0] == 'c');
    assert("updateFeedView"@.len() == 14 && "updateFeedView"@[0] == 'u');
    assert("addFuuidsVolatile"@.len() == 17);
    assert("processView"@.len() == 11 && "processView"@[0] == 'p');
    assert("insertViewData"@.len() == 14 && "insertViewData"@[0] == 'i');
}

/// The names of the requests are nine different names.
pub proof fn lemma_request_names_differ()
    ensures
        ({
            let names = seq![
                REQUEST_GET_FEEDS@,
                REQUEST_GET_FEEDS_FOR_SCRAPER@,
                REQUEST_GET_FEED_VIEWS@,
                REQUEST_CHECK_EXISTING_DATA_IDS@,
                REQUEST_GET_DATA_ITEMS_MOST_RECENT@,
                REQUEST_GET_DATA_ITEMS_DATE_RANGE@,
                REQUEST_GET_FUUIDS_VOLATILE@,
                REQUEST_GET_FEED_DATA@,
                REQUEST_GET_VIEW_DATA@,
            ];
            forall|i: int, j: int| 0 <= i < j < 9 ==> names[i] != names[j]
        }),
{
    reveal_strlit("getFeeds");
    reveal_strlit("getFeedsForScraper");
    reveal_strlit("getFeedViews");
    reveal_strlit("checkExistingDataIds");
    reveal_strlit("getDataItemsMostRecent");
    reveal_strlit("getDataItemsDateRange");
    reveal_strlit("getFuuidsVolatile");
    reveal_strlit("getFeedData");
    reveal_strlit("getFeedViewData");
    assert("getFeeds"@.len() == 8);
    assert("getFeedsForScraper"@.len() == 18);
    assert("getFeedViews"@.len() == 12);
    assert("checkExistingDataIds"@.len() == 20);
    assert("getDataItemsMostRecent"@.len() == 22);
    assert("getDataItemsDateRange"@.len() == 21);
    assert("getFuuidsVolatile"@.len() == 17);
    assert("getFeedData"@.len() == 11);
    assert("getFeedViewData"@.len() == 15);
}

} // verus!
