//! The collections that the service keeps, with the unique indices that the
//! database holds them to.

use vstd::prelude::*;
use crate::data_mongodb::{
    DataCollectorFilesRow, DataCollectorFilesRowSpec, DataCollectorRow, DataCollectorRowIds,
    DataCollectorRowSpec, DataFeedRow, DataFeedRowSpec, FeedViewGroupedDatedRow,
    FeedViewGroupedDatedRowSpec, FeedViewRow, FeedViewRowSpec, VolatileFileRow, VolatileFileRowSpec,
};
use crate::messages::{MessageValide, MessageValideSpec};
use crate::text::same_text;

verus! {

/// The key of a row under the unique index of its collection: one text, or
/// two where the index spans two fields.
pub type Key = (Seq<char>, Option<Seq<char>>);

/// A row that a unique index finds by its key.
pub trait Keyed: DeepView {
    /// The key of a row.
    spec fn key_of(v: Self::V) -> Key;

    /// Whether the row has this key.
    fn has_key(&self, first: &str, second: Option<&str>) -> (r: bool)
        ensures
            r == (Self::key_of(self.deep_view()) == (first@, second.deep_view())),
    ;

    /// Whether two rows have the same key.
    fn same_key(&self, other: &Self) -> (r: bool)
        ensures
            r == (Self::key_of(self.deep_view()) == Self::key_of(other.deep_view())),
    ;
}

/// Whether an optional text is present in both or absent in both, and the
/// same where present.
fn same_part(a: Option<&str>, b: Option<&str>) -> (r: bool)
    ensures
        r == (a.deep_view() == b.deep_view()),
{
    match a {
        Some(x) => match b {
            Some(y) => same_text(x, y),
            None => false,
        },
        None => b.is_none(),
    }
}

impl Keyed for DataFeedRow {
    open spec fn key_of(v: DataFeedRowSpec) -> Key {
        (v.feed_id, None)
    }

    fn has_key(&self, first: &str, second: Option<&str>) -> (r: bool) {
        same_text(self.feed_id.as_str(), first) && second.is_none()
    }

    fn same_key(&self, other: &Self) -> (r: bool) {
        same_text(self.feed_id.as_str(), other.feed_id.as_str())
    }
}

impl Keyed for DataCollectorRow {
    open spec fn key_of(v: DataCollectorRowSpec) -> Key {
        (v.data_id, Some(v.feed_id))
    }

    fn has_key(&self, first: &str, second: Option<&str>) -> (r: bool) {
        same_text(self.data_id.as_str(), first) && same_part(Some(self.feed_id.as_str()), second)
    }

    fn same_key(&self, other: &Self) -> (r: bool) {
        same_text(self.data_id.as_str(), other.data_id.as_str()) && same_text(
            self.feed_id.as_str(),
            other.feed_id.as_str(),
        )
    }
}

impl Keyed for DataCollectorFilesRow {
    open spec fn key_of(v: DataCollectorFilesRowSpec) -> Key {
        (v.data_id, None)
    }

    fn has_key(&self, first: &str, second: Option<&str>) -> (r: bool) {
        same_text(self.data_id.as_str(), first) && second.is_none()
    }

    fn same_key(&self, other: &Self) -> (r: bool) {
        same_text(self.data_id.as_str(), other.data_id.as_str())
    }
}

impl Keyed for VolatileFileRow {
    open spec fn key_of(v: VolatileFileRowSpec) -> Key {
        (v.correlation, None)
    }

    fn has_key(&self, first: &str, second: Option<&str>) -> (r: bool) {
        same_text(self.correlation.as_str(), first) && second.is_none()
    }

    fn same_key(&self, other: &Self) -> (r: bool) {
        same_text(self.correlation.as_str(), other.correlation.as_str())
    }
}

impl Keyed for FeedViewRow {
    open spec fn key_of(v: FeedViewRowSpec) -> Key {
        (v.feed_view_id, None)
    }

    fn has_key(&self, first: &str, second: Option<&str>) -> (r: bool) {
        same_text(self.feed_view_id.as_str(), first) && second.is_none()
    }

    fn same_key(&self, other: &Self) -> (r: bool) {
        same_text(self.feed_view_id.as_str(), other.feed_view_id.as_str())
    }
}

impl Keyed for FeedViewGroupedDatedRow {
    open spec fn key_of(v: FeedViewGroupedDatedRowSpec) -> Key {
        (v.data_id, Some(v.feed_view_id))
    }

    fn has_key(&self, first: &str, second: Option<&str>) -> (r: bool) {
        same_text(self.data_id.as_str(), first) && same_part(
            Some(self.feed_view_id.as_str()),
            second,
        )
    }

    fn same_key(&self, other: &Self) -> (r: bool) {
        same_text(self.data_id.as_str(), other.data_id.as_str()) && same_text(
            self.feed_view_id.as_str(),
            other.feed_view_id.as_str(),
        )
    }
}

/// No two rows have the same key.
pub open spec fn distinct_keys<T: Keyed>(rows: Seq<T::V>) -> bool {
    forall|i: int, j: int|
        0 <= i < j < rows.len() ==> T::key_of(#[trigger] rows[i]) != T::key_of(#[trigger] rows[j])
}

/// Some row has the key.
pub open spec fn holds_key<T: Keyed>(rows: Seq<T::V>, key: Key) -> bool {
    exists|i: int| 0 <= i < rows.len() && T::key_of(#[trigger] rows[i]) == key
}

/// Where the row of the given key stands, where there is one.
pub open spec fn index_of<T: Keyed>(rows: Seq<T::V>, key: Key) -> int {
    choose|i: int| 0 <= i < rows.len() && T::key_of(#[trigger] rows[i]) == key
}

/// The row of the given key, if there is one.
pub open spec fn row_of<T: Keyed>(rows: Seq<T::V>, key: Key) -> Option<T::V> {
    if holds_key::<T>(rows, key) {
        Some(rows[index_of::<T>(rows, key)])
    } else {
        None
    }
}

/// Among rows of distinct keys, a row is the only one of its key.
pub proof fn lemma_index_of<T: Keyed>(rows: Seq<T::V>, at: int)
    requires
        distinct_keys::<T>(rows),
        0 <= at < rows.len(),
    ensures
        holds_key::<T>(rows, T::key_of(rows[at])),
        index_of::<T>(rows, T::key_of(rows[at])) == at,
        row_of::<T>(rows, T::key_of(rows[at])) == Some(rows[at]),
{
    let key = T::key_of(rows[at]);
    let found = index_of::<T>(rows, key);
    assert(0 <= found < rows.len() && T::key_of(rows[found]) == key);
    if found < at {
        assert(T::key_of(rows[found]) != T::key_of(rows[at]));
    } else if at < found {
        assert(T::key_of(rows[at]) != T::key_of(rows[found]));
    }
}

/// The rows with one more, unless one of them has its key already.
pub open spec fn inserted<T: Keyed>(rows: Seq<T::V>, row: T::V) -> Seq<T::V> {
    if holds_key::<T>(rows, T::key_of(row)) {
        rows
    } else {
        rows.push(row)
    }
}

/// Adding a row whose key is new keeps the keys distinct.
pub proof fn lemma_inserted_distinct<T: Keyed>(rows: Seq<T::V>, row: T::V)
    requires
        distinct_keys::<T>(rows),
    ensures
        distinct_keys::<T>(inserted::<T>(rows, row)),
{
    if !holds_key::<T>(rows, T::key_of(row)) {
        let after = rows.push(row);
        assert forall|i: int, j: int| 0 <= i < j < after.len() implies T::key_of(
            #[trigger] after[i],
        ) != T::key_of(#[trigger] after[j]) by {
            if j == rows.len() {
                assert(after[i] == rows[i]);
                assert(T::key_of(rows[i]) != T::key_of(row));
            } else {
                assert(after[i] == rows[i] && after[j] == rows[j]);
            }
        }
    }
}

/// Where the row of the given key stands, if there is one.
pub fn position<T: Keyed>(rows: &Vec<T>, first: &str, second: Option<&str>) -> (r: Option<usize>)
    ensures
        r is Some <==> holds_key::<T>(rows.deep_view(), (first@, second.deep_view())),
        r matches Some(i) ==> i < rows.len() && T::key_of(rows.deep_view()[i as int]) == (
            first@,
            second.deep_view(),
        ) && forall|j: int|
            0 <= j < i ==> T::key_of(#[trigger] rows.deep_view()[j]) != (
                first@,
                second.deep_view(),
            ),
{
    let mut i: usize = 0;
    while i < rows.len()
        invariant
            i <= rows.len(),
            forall|j: int|
                0 <= j < i ==> T::key_of(#[trigger] rows.deep_view()[j]) != (
                    first@,
                    second.deep_view(),
                ),
        decreases rows.len() - i,
    {
        if rows[i].has_key(first, second) {
            assert(rows.deep_view()[i as int] == rows[i as int].deep_view());
            return Some(i);
        }
        i = i + 1;
    }
    None
}

/// The row of the given key, if there is one.
pub fn find<'a, T: Keyed>(rows: &'a Vec<T>, first: &str, second: Option<&str>) -> (r: Option<&'a T>)
    requires
        distinct_keys::<T>(rows.deep_view()),
    ensures
        r.deep_view() == row_of::<T>(rows.deep_view(), (first@, second.deep_view())),
{
    match position(rows, first, second) {
        Some(i) => {
            proof {
                lemma_index_of::<T>(rows.deep_view(), i as int);
                assert(rows.deep_view()[i as int] == rows[i as int].deep_view());
            }
            Some(&rows[i])
        },
        None => None,
    }
}

/// Whether some row has the key of the given one.
pub fn holds_key_of<T: Keyed>(rows: &Vec<T>, row: &T) -> (r: bool)
    ensures
        r == holds_key::<T>(rows.deep_view(), T::key_of(row.deep_view())),
{
    let mut i: usize = 0;
    while i < rows.len()
        invariant
            i <= rows.len(),
            forall|j: int|
                0 <= j < i ==> T::key_of(#[trigger] rows.deep_view()[j]) != T::key_of(
                    row.deep_view(),
                ),
        decreases rows.len() - i,
    {
        if rows[i].same_key(row) {
            assert(rows.deep_view()[i as int] == rows[i as int].deep_view());
            return true;
        }
        i = i + 1;
    }
    false
}

/// Adds a row unless one has its key already, and says whether it did.
pub fn insert_unique<T: Keyed>(rows: &mut Vec<T>, row: T) -> (r: bool)
    ensures
        r == !holds_key::<T>(old(rows).deep_view(), T::key_of(row.deep_view())),
        final(rows).deep_view() == inserted::<T>(old(rows).deep_view(), row.deep_view()),
{
    if holds_key_of(rows, &row) {
        false
    } else {
        let ghost before = rows.deep_view();
        let ghost added = row.deep_view();
        rows.push(row);
        assert(rows.deep_view() =~= before.push(added));
        true
    }
}

/// Whether no two rows have the same key.
pub fn all_distinct<T: Keyed>(rows: &Vec<T>) -> (r: bool)
    ensures
        r == distinct_keys::<T>(rows.deep_view()),
{
    let mut j: usize = 0;
    while j < rows.len()
        invariant
            j <= rows.len(),
            forall|a: int, b: int|
                0 <= a < b < j ==> T::key_of(#[trigger] rows.deep_view()[a]) != T::key_of(
                    #[trigger] rows.deep_view()[b],
                ),
        decreases rows.len() - j,
    {
        let mut i: usize = 0;
        while i < j
            invariant
                i <= j < rows.len(),
                forall|a: int|
                    0 <= a < i ==> T::key_of(#[trigger] rows.deep_view()[a]) != T::key_of(
                        rows.deep_view()[j as int],
                    ),
            decreases j - i,
        {
            assert(rows.deep_view()[i as int] == rows[i as int].deep_view());
            assert(rows.deep_view()[j as int] == rows[j as int].deep_view());
            if rows[i].same_key(&rows[j]) {
                return false;
            }
            i = i + 1;
        }
        j = j + 1;
    }
    true
}

/// The collections of the service.
#[derive(Debug, PartialEq, Eq)]
pub struct Store {
    pub feeds: Vec<DataFeedRow>,
    pub data_items: Vec<DataCollectorRow>,
    pub data_files: Vec<DataCollectorFilesRow>,
    pub volatile_files: Vec<VolatileFileRow>,
    pub feed_views: Vec<FeedViewRow>,
    pub view_dated: Vec<FeedViewGroupedDatedRow>,
    pub view_grouped_dated: Vec<FeedViewGroupedDatedRow>,
    /// The transactions that were saved, in the order in which they were.
    pub transactions: Vec<MessageValide>,
}

/// What the collections hold.
pub ghost struct StoreSpec {
    pub feeds: Seq<DataFeedRowSpec>,
    pub data_items: Seq<DataCollectorRowSpec>,
    pub data_files: Seq<DataCollectorFilesRowSpec>,
    pub volatile_files: Seq<VolatileFileRowSpec>,
    pub feed_views: Seq<FeedViewRowSpec>,
    pub view_dated: Seq<FeedViewGroupedDatedRowSpec>,
    pub view_grouped_dated: Seq<FeedViewGroupedDatedRowSpec>,
    pub transactions: Seq<MessageValideSpec>,
}

impl View for Store {
    type V = StoreSpec;

    open spec fn view(&self) -> StoreSpec {
        StoreSpec {
            feeds: self.feeds.deep_view(),
            data_items: self.data_items.deep_view(),
            data_files: self.data_files.deep_view(),
            volatile_files: self.volatile_files.deep_view(),
            feed_views: self.feed_views.deep_view(),
            view_dated: self.view_dated.deep_view(),
            view_grouped_dated: self.view_grouped_dated.deep_view(),
            transactions: self.transactions.deep_view(),
        }
    }
}

/// Every feed that is marked deleted says when it was.
pub open spec fn deletions_dated(feeds: Seq<DataFeedRowSpec>) -> bool {
    forall|i: int| 0 <= i < feeds.len() && (#[trigger] feeds[i]).deleted ==> feeds[i].deleted_at is Some
}

/// No volatile file expires before it was created.
pub open spec fn expirations_follow(files: Seq<VolatileFileRowSpec>) -> bool {
    forall|i: int| 0 <= i < files.len() ==> (#[trigger] files[i]).expiration >= files[i].created
}

impl StoreSpec {
    /// The collections with nothing in them.
    pub open spec fn empty() -> StoreSpec {
        StoreSpec {
            feeds: Seq::empty(),
            data_items: Seq::empty(),
            data_files: Seq::empty(),
            volatile_files: Seq::empty(),
            feed_views: Seq::empty(),
            view_dated: Seq::empty(),
            view_grouped_dated: Seq::empty(),
            transactions: Seq::empty(),
        }
    }

    /// The unique indices hold, every deleted feed says when it was
    /// deleted, and no volatile file expires before it was created.
    pub open spec fn wf(self) -> bool {
        &&& distinct_keys::<DataFeedRow>(self.feeds)
        &&& distinct_keys::<DataCollectorRow>(self.data_items)
        &&& distinct_keys::<DataCollectorFilesRow>(self.data_files)
        &&& distinct_keys::<VolatileFileRow>(self.volatile_files)
        &&& distinct_keys::<FeedViewRow>(self.feed_views)
        &&& distinct_keys::<FeedViewGroupedDatedRow>(self.view_dated)
        &&& distinct_keys::<FeedViewGroupedDatedRow>(self.view_grouped_dated)
        &&& deletions_dated(self.feeds)
        &&& expirations_follow(self.volatile_files)
    }
}

impl Store {
    /// The collections with nothing in them.
    pub fn new() -> (r: Store)
        ensures
            r@ == StoreSpec::empty(),
            r@.wf(),
    {
        let store = Store {
            feeds: Vec::new(),
            data_items: Vec::new(),
            data_files: Vec::new(),
            volatile_files: Vec::new(),
            feed_views: Vec::new(),
            view_dated: Vec::new(),
            view_grouped_dated: Vec::new(),
            transactions: Vec::new(),
        };
        assert(store@.feeds =~= Seq::empty());
        assert(store@.data_items =~= Seq::empty());
        assert(store@.data_files =~= Seq::empty());
        assert(store@.volatile_files =~= Seq::empty());
        assert(store@.feed_views =~= Seq::empty());
        assert(store@.view_dated =~= Seq::empty());
        assert(store@.view_grouped_dated =~= Seq::empty());
        assert(store@.transactions =~= Seq::empty());
        store
    }

    /// Whether a feed holds a data item of the given id.
    pub fn holds_data_item(&self, ids: &DataCollectorRowIds) -> (r: bool)
        ensures
            r == holds_key::<DataCollectorRow>(
                self@.data_items,
                (ids.data_id@, Some(ids.feed_id@)),
            ),
    {
        position(&self.data_items, ids.data_id, Some(ids.feed_id)).is_some()
    }

    /// Whether the unique indices hold, every deleted feed says when it was
    /// deleted, and no volatile file expires before it was created.
    pub fn is_well_formed(&self) -> (r: bool)
        ensures
            r == self@.wf(),
    {
        let mut dated: bool = true;
        let mut i: usize = 0;
        while i < self.feeds.len()
            invariant
                i <= self.feeds.len(),
                dated == forall|j: int|
                    0 <= j < i && (#[trigger] self.feeds.deep_view()[j]).deleted
                        ==> self.feeds.deep_view()[j].deleted_at is Some,
            decreases self.feeds.len() - i,
        {
            assert(self.feeds.deep_view()[i as int] == self.feeds[i as int].deep_view());
            if self.feeds[i].deleted && self.feeds[i].deleted_at.is_none() {
                dated = false;
            }
            i = i + 1;
        }
        let mut follow: bool = true;
        let mut k: usize = 0;
        while k < self.volatile_files.len()
            invariant
                k <= self.volatile_files.len(),
                follow == forall|j: int|
                    0 <= j < k ==> (#[trigger] self.volatile_files.deep_view()[j]).expiration
                        >= self.volatile_files.deep_view()[j].created,
            decreases self.volatile_files.len() - k,
        {
            assert(self.volatile_files.deep_view()[k as int]
                == self.volatile_files[k as int].deep_view());
            if self.volatile_files[k].expiration < self.volatile_files[k].created {
                follow = false;
            }
            k = k + 1;
        }
        dated && follow && all_distinct(&self.feeds) && all_distinct(&self.data_items)
            && all_distinct(&self.data_files) && all_distinct(&self.volatile_files)
            && all_distinct(&self.feed_views) && all_distinct(&self.view_dated) && all_distinct(
            &self.view_grouped_dated,
        )
    }
}

} // verus!
