//! The indices that the collections are declared with.

use vstd::prelude::*;
use vstd::string::StringExecFns;
use crate::constants::{
    COLLECTION_NAME_DATA_DATACOLLECTOR, COLLECTION_NAME_FEEDS, COLLECTION_NAME_FEED_VIEWS,
    COLLECTION_NAME_FEED_VIEW_DATED, COLLECTION_NAME_FEED_VIEW_GROUPED_DATED,
    COLLECTION_NAME_SRC_DATAFILES, COLLECTION_NAME_SRC_FILES_VOLATILE,
};

verus! {

/// A field of an index, ascending (1) or descending (-1).
#[derive(Debug, PartialEq, Eq)]
pub struct ChampIndex {
    pub nom_champ: String,
    pub direction: i32,
}

/// The name of an index, and whether it refuses a second row of one key.
#[derive(Debug, PartialEq, Eq)]
pub struct IndexOptions {
    pub nom_index: Option<String>,
    pub unique: bool,
}

/// An index to create on a collection.
#[derive(Debug, PartialEq, Eq)]
pub struct IndexDeclaration {
    pub collection: String,
    pub champs: Vec<ChampIndex>,
    pub options: IndexOptions,
}

/// An index: its collection, its name, whether it is unique, and its fields
/// with their directions.
pub ghost struct IndexSpec {
    pub collection: Seq<char>,
    pub name: Option<Seq<char>>,
    pub unique: bool,
    pub champs: Seq<(Seq<char>, int)>,
}

impl DeepView for ChampIndex {
    type V = (Seq<char>, int);

    open spec fn deep_view(&self) -> (Seq<char>, int) {
        (self.nom_champ@, self.direction as int)
    }
}

impl DeepView for IndexDeclaration {
    type V = IndexSpec;

    open spec fn deep_view(&self) -> IndexSpec {
        IndexSpec {
            collection: self.collection@,
            name: self.options.nom_index.deep_view(),
            unique: self.options.unique,
            champs: self.champs.deep_view(),
        }
    }
}

/// The indices of the service. A unique index stands behind each key by
/// which a row is found: a feed by its id, a data item by its id within its
/// feed, a data file by its id, a volatile file by its correlation, a view
/// by its id, a row of a view by its id within the view. The others serve
/// the reads that go by date.
pub open spec fn declared_indices() -> Seq<IndexSpec> {
    seq![
        IndexSpec {
            collection: COLLECTION_NAME_FEEDS@,
            name: Some("feed_id_uniq"@),
            unique: true,
            champs: seq![("feed_id"@, 1int)],
        },
        IndexSpec {
            collection: COLLECTION_NAME_DATA_DATACOLLECTOR@,
            name: Some("datacollector_data_id_uniq"@),
            unique: true,
            champs: seq![("data_id"@, 1int), ("feed_id"@, 1int)],
        },
        IndexSpec {
            collection: COLLECTION_NAME_SRC_FILES_VOLATILE@,
            name: Some("correlation_id_uniq"@),
            unique: true,
            champs: seq![("correlation"@, 1int)],
        },
        IndexSpec {
            collection: COLLECTION_NAME_SRC_DATAFILES@,
            name: Some("data_id_uniq"@),
            unique: true,
            champs: seq![("data_id"@, 1int)],
        },
        IndexSpec {
            collection: COLLECTION_NAME_SRC_DATAFILES@,
            name: Some("date_feed"@),
            unique: false,
            champs: seq![("save_date"@, 1int), ("feed_id"@, 1int)],
        },
        IndexSpec {
            collection: COLLECTION_NAME_FEED_VIEWS@,
            name: Some("feed_view_id_uniq"@),
            unique: true,
            champs: seq![("feed_view_id"@, 1int)],
        },
        IndexSpec {
            collection: COLLECTION_NAME_FEED_VIEW_DATED@,
            name: Some("data_id_uniq"@),
            unique: true,
            champs: seq![("data_id"@, 1int), ("feed_view_id"@, 1int)],
        },
        IndexSpec {
            collection: COLLECTION_NAME_FEED_VIEW_DATED@,
            name: Some("pubdate_desc"@),
            unique: false,
            champs: seq![("pub_date"@, -1int), ("feed_view_id"@, 1int)],
        },
        IndexSpec {
            collection: COLLECTION_NAME_FEED_VIEW_GROUPED_DATED@,
            name: Some("data_id_uniq"@),
            unique: true,
            champs: seq![("data_id"@, 1int), ("feed_view_id"@, 1int)],
        },
        IndexSpec {
            collection: COLLECTION_NAME_FEED_VIEW_GROUPED_DATED@,
            name: Some("pubdate_desc_group"@),
            unique: false,
            champs: seq![("pub_date"@, -1int), ("feed_view_id"@, 1int), ("group_id"@, 1int)],
        },
    ]
}

/// One field of an index.
fn champ(nom_champ: &str, direction: i32) -> (r: ChampIndex)
    ensures
        r.deep_view() == (nom_champ@, direction as int),
{
    ChampIndex { nom_champ: String::from_str(nom_champ), direction: direction }
}

/// The fields of an index over one field.
fn one_champ(a: ChampIndex) -> (r: Vec<ChampIndex>)
    ensures
        r.deep_view() == seq![a.deep_view()],
{
    let mut champs: Vec<ChampIndex> = Vec::new();
    champs.push(a);
    assert(champs.deep_view() =~= seq![a.deep_view()]);
    champs
}

/// The fields of an index over two fields.
fn two_champs(a: ChampIndex, b: ChampIndex) -> (r: Vec<ChampIndex>)
    ensures
        r.deep_view() == seq![a.deep_view(), b.deep_view()],
{
    let mut champs: Vec<ChampIndex> = Vec::new();
    champs.push(a);
    champs.push(b);
    assert(champs.deep_view() =~= seq![a.deep_view(), b.deep_view()]);
    champs
}

/// The fields of an index over three fields.
fn three_champs(a: ChampIndex, b: ChampIndex, c: ChampIndex) -> (r: Vec<ChampIndex>)
    ensures
        r.deep_view() == seq![a.deep_view(), b.deep_view(), c.deep_view()],
{
    let mut champs: Vec<ChampIndex> = Vec::new();
    champs.push(a);
    champs.push(b);
    champs.push(c);
    assert(champs.deep_view() =~= seq![a.deep_view(), b.deep_view(), c.deep_view()]);
    champs
}

/// One index.
fn declaration(collection: &str, name: &str, unique: bool, champs: Vec<ChampIndex>) -> (r:
    IndexDeclaration)
    ensures
        r.deep_view() == (IndexSpec {
            collection: collection@,
            name: Some(name@),
            unique: unique,
            champs: champs.deep_view(),
        }),
{
    IndexDeclaration {
        collection: String::from_str(collection),
        champs: champs,
        options: IndexOptions { nom_index: Some(String::from_str(name)), unique: unique },
    }
}

/// The indices to create, in the order in which they are created.
pub fn prepare_mongodb_index() -> (r: Vec<IndexDeclaration>)
    ensures
        r.deep_view() == declared_indices(),
{
    let mut indices: Vec<IndexDeclaration> = Vec::new();
    indices.push(
        declaration(COLLECTION_NAME_FEEDS, "feed_id_uniq", true, one_champ(champ("feed_id", 1))),
    );
    indices.push(
        declaration(
            COLLECTION_NAME_DATA_DATACOLLECTOR,
            "datacollector_data_id_uniq",
            true,
            two_champs(champ("data_id", 1), champ("feed_id", 1)),
        ),
    );
    indices.push(
        declaration(
            COLLECTION_NAME_SRC_FILES_VOLATILE,
            "correlation_id_uniq",
            true,
            one_champ(champ("correlation", 1)),
        ),
    );
    indices.push(
        declaration(
            COLLECTION_NAME_SRC_DATAFILES,
            "data_id_uniq",
            true,
            one_champ(champ("data_id", 1)),
        ),
    );
    indices.push(
        declaration(
            COLLECTION_NAME_SRC_DATAFILES,
            "date_feed",
            false,
            two_champs(champ("save_date", 1), champ("feed_id", 1)),
        ),
    );
    indices.push(
        declaration(
            COLLECTION_NAME_FEED_VIEWS,
            "feed_view_id_uniq",
            true,
            one_champ(champ("feed_view_id", 1)),
        ),
    );
    indices.push(
        declaration(
            COLLECTION_NAME_FEED_VIEW_DATED,
            "data_id_uniq",
            true,
            two_champs(champ("data_id", 1), champ("feed_view_id", 1)),
        ),
    );
    indices.push(
        declaration(
            COLLECTION_NAME_FEED_VIEW_DATED,
            "pubdate_desc",
            false,
            two_champs(champ("pub_date", -1), champ("feed_view_id", 1)),
        ),
    );
    indices.push(
        declaration(
            COLLECTION_NAME_FEED_VIEW_GROUPED_DATED,
            "data_id_uniq",
            true,
            two_champs(champ("data_id", 1), champ("feed_view_id", 1)),
        ),
    );
    indices.push(
        declaration(
            COLLECTION_NAME_FEED_VIEW_GROUPED_DATED,
            "pubdate_desc_group",
            false,
            three_champs(champ("pub_date", -1), champ("feed_view_id", 1), champ("group_id", 1)),
        ),
    );
    assert(indices.deep_view() =~= declared_indices());
    indices
}

} // verus!
