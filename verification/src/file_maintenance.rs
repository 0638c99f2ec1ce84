//! Claims on files: what is said to the file registry so that the files
//! which data items refer to are kept.

use vstd::prelude::*;
use crate::certificate::Securite;
use crate::constants::{COMMAND_CLAIM_FILES, DOMAINE_TOPOLOGIE};
use crate::data_mongodb::DataCollectorRowSpec;
use crate::messages::{RoutageMessageAction, RoutageMessageActionSpec};
use crate::store::Store;
use crate::transactions_struct::{FileItem, FileItemSpec};

verus! {

/// The number of files that one claim names at most.
pub const CLAIM_BATCH_SIZE: usize = 100;

/// A claim: the files, and where a sweep sends several, the number of the
/// batch and whether it is the last.
#[derive(Debug, PartialEq, Eq)]
pub struct RequeteFuuidsVisites {
    pub fuuids: Vec<String>,
    pub batch_no: Option<usize>,
    pub done: Option<bool>,
}

/// What `RequeteFuuidsVisites` holds, as plain values.
pub ghost struct RequeteFuuidsVisitesSpec {
    pub fuuids: Seq<Seq<char>>,
    pub batch_no: Option<usize>,
    pub done: Option<bool>,
}

impl DeepView for RequeteFuuidsVisites {
    type V = RequeteFuuidsVisitesSpec;

    open spec fn deep_view(&self) -> RequeteFuuidsVisitesSpec {
        RequeteFuuidsVisitesSpec {
            fuuids: self.fuuids.deep_view(),
            batch_no: self.batch_no,
            done: self.done,
        }
    }
}

/// The visits that the registry knows of one file, by filehost.
#[derive(Debug, PartialEq, Eq)]
pub struct RowFuuidVisit {
    pub fuuid: String,
    pub visits: Vec<(String, i64)>,
}

/// What the registry answers to a claim.
#[derive(Debug, PartialEq, Eq)]
pub struct RequeteGetVisitesFuuidsResponse {
    pub ok: bool,
    pub err: Option<String>,
    pub visits: Option<Vec<RowFuuidVisit>>,
    pub unknown: Option<Vec<String>>,
}

/// Why a claim did not go through.
#[derive(Clone, Copy, Debug, PartialEq, Eq, Structural)]
pub enum ClaimError {
    /// The registry answered, and not with `ok`.
    Refused,
    /// No answer, or one of another kind than a valid message.
    BadResponse,
}

/// The claim made for the files of a data item that was just saved.
pub fn claim_and_visit_files(fuuids: Vec<String>) -> (r: RequeteFuuidsVisites)
    ensures
        r.deep_view() == (RequeteFuuidsVisitesSpec {
            fuuids: fuuids.deep_view(),
            batch_no: None,
            done: None,
        }),
{
    RequeteFuuidsVisites { fuuids: fuuids, batch_no: None, done: None }
}

/// One claim of a sweep.
pub fn claim_files(batch_no: Option<usize>, done: Option<bool>, fuuids: Vec<String>) -> (r:
    RequeteFuuidsVisites)
    ensures
        r.deep_view() == (RequeteFuuidsVisitesSpec {
            fuuids: fuuids.deep_view(),
            batch_no: batch_no,
            done: done,
        }),
{
    RequeteFuuidsVisites { fuuids: fuuids, batch_no: batch_no, done: done }
}

/// Where the claims of a sweep go: to the file registry, on the protected
/// exchange.
pub fn claim_files_routage() -> (r: RoutageMessageAction)
    ensures
        r.deep_view() == (RoutageMessageActionSpec {
            domaine: DOMAINE_TOPOLOGIE@,
            action: COMMAND_CLAIM_FILES@,
            exchange: Securite::L3Protege,
            timeout_blocking: None,
        }),
{
    RoutageMessageAction::new(DOMAINE_TOPOLOGIE, COMMAND_CLAIM_FILES, Securite::L3Protege, None)
}

/// What a claim came to: the answer of the registry where it says `ok`.
pub fn claim_response(response: Option<RequeteGetVisitesFuuidsResponse>) -> (r: Result<
    RequeteGetVisitesFuuidsResponse,
    ClaimError,
>)
    ensures
        match response {
            Some(answer) => if answer.ok {
                r == Ok::<RequeteGetVisitesFuuidsResponse, ClaimError>(answer)
            } else {
                r == Err::<RequeteGetVisitesFuuidsResponse, ClaimError>(ClaimError::Refused)
            },
            None => r == Err::<RequeteGetVisitesFuuidsResponse, ClaimError>(
                ClaimError::BadResponse,
            ),
        },
{
    match response {
        Some(answer) => {
            if answer.ok {
                Ok(answer)
            } else {
                Err(ClaimError::Refused)
            }
        },
        None => Err(ClaimError::BadResponse),
    }
}

/// The number of claims that a sweep over so many files makes.
pub open spec fn batch_count(files: nat) -> nat {
    ((files + CLAIM_BATCH_SIZE - 1) / (CLAIM_BATCH_SIZE as int)) as nat
}

/// The claim of a sweep that stands at the given place: a hundred files, or
/// what is left of them in the last one, which alone is marked as done.
pub open spec fn batch_at(fuuids: Seq<Seq<char>>, k: int) -> RequeteFuuidsVisitesSpec {
    let start = k * CLAIM_BATCH_SIZE;
    let end = if start + CLAIM_BATCH_SIZE <= fuuids.len() {
        start + CLAIM_BATCH_SIZE
    } else {
        fuuids.len() as int
    };
    RequeteFuuidsVisitesSpec {
        fuuids: fuuids.subrange(start, end),
        batch_no: Some(k as usize),
        done: Some(k + 1 == batch_count(fuuids.len())),
    }
}

/// The claims of a sweep over the given files, in the order in which they
/// are sent.
pub open spec fn batches(fuuids: Seq<Seq<char>>) -> Seq<RequeteFuuidsVisitesSpec> {
    Seq::new(batch_count(fuuids.len()), |k: int| batch_at(fuuids, k))
}

/// The claims of a sweep over the given files: batches of a hundred,
/// numbered from 0, the last one marked as done. No file, no claim.
pub fn claim_batches(fuuids: &Vec<String>) -> (r: Vec<RequeteFuuidsVisites>)
    ensures
        r.deep_view() == batches(fuuids.deep_view()),
{
    let n: usize = fuuids.len();
    let ghost all = fuuids.deep_view();
    let mut claims: Vec<RequeteFuuidsVisites> = Vec::new();
    let mut start: usize = 0;
    let mut batch_no: usize = 0;
    while start < n
        invariant
            n == fuuids.len(),
            all == fuuids.deep_view(),
            start <= n,
            start == batch_no * CLAIM_BATCH_SIZE || (start == n && batch_no == batch_count(
                n as nat,
            )),
            start < n ==> batch_no < batch_count(n as nat),
            claims.len() == batch_no,
            forall|k: int| 0 <= k < batch_no ==> claims[k].deep_view() == batch_at(all, k),
        decreases n - start,
    {
        let end: usize = if n - start >= CLAIM_BATCH_SIZE {
            start + CLAIM_BATCH_SIZE
        } else {
            n
        };
        let mut batch: Vec<String> = Vec::new();
        let mut i: usize = start;
        while i < end
            invariant
                start <= i <= end <= n,
                n == fuuids.len(),
                batch.len() == i - start,
                forall|j: int| 0 <= j < i - start ==> batch[j]@ == fuuids[start + j]@,
            decreases end - i,
        {
            batch.push(fuuids[i].clone());
            i = i + 1;
        }
        assert(batch.deep_view() =~= all.subrange(start as int, end as int));
        let done: bool = end == n;
        claims.push(RequeteFuuidsVisites { fuuids: batch, batch_no: Some(batch_no), done: Some(done) });
        start = end;
        batch_no = batch_no + 1;
    }
    assert(claims.deep_view() =~= batches(all));
    claims
}

/// The files that a list of files names, if there is a list.
pub open spec fn fuuids_in(files: Option<Seq<FileItemSpec>>) -> Seq<Seq<char>> {
    match files {
        Some(f) => f.map_values(|item: FileItemSpec| item.fuuid),
        None => Seq::empty(),
    }
}

/// The files that a data item refers to.
pub open spec fn item_fuuids(item: DataCollectorRowSpec) -> Seq<Seq<char>> {
    fuuids_in(item.files)
}

/// The files that the data items refer to, item after item.
pub open spec fn all_fuuids(items: Seq<DataCollectorRowSpec>) -> Seq<Seq<char>>
    decreases items.len(),
{
    if items.len() == 0 {
        Seq::empty()
    } else {
        all_fuuids(items.drop_last()) + item_fuuids(items.last())
    }
}

/// The files that a list of files names, if there is a list.
pub fn fuuids_of(files: &Option<Vec<FileItem>>) -> (r: Option<Vec<String>>)
    ensures
        r is Some <==> files is Some,
        r matches Some(f) ==> f.deep_view() == fuuids_in(files.deep_view()),
{
    match files {
        Some(list) => {
            let mut fuuids: Vec<String> = Vec::new();
            let mut i: usize = 0;
            while i < list.len()
                invariant
                    i <= list.len(),
                    fuuids.len() == i,
                    forall|j: int| 0 <= j < i ==> fuuids[j]@ == list[j].fuuid@,
                decreases list.len() - i,
            {
                fuuids.push(list[i].fuuid.clone());
                i = i + 1;
            }
            assert(fuuids.deep_view() =~= fuuids_in(files.deep_view()));
            Some(fuuids)
        },
        None => None,
    }
}

/// The claims of a sweep over every file that the data items refer to.
pub fn claim_all_files(store: &Store) -> (r: Vec<RequeteFuuidsVisites>)
    ensures
        r.deep_view() == batches(all_fuuids(store@.data_items)),
{
    let mut fuuids: Vec<String> = Vec::new();
    let ghost items = store@.data_items;
    let mut i: usize = 0;
    assert(items.take(0) =~= Seq::empty());
    assert(fuuids.deep_view() =~= Seq::empty());
    while i < store.data_items.len()
        invariant
            i <= store.data_items.len(),
            items == store@.data_items,
            fuuids.deep_view() == all_fuuids(items.take(i as int)),
        decreases store.data_items.len() - i,
    {
        let ghost before = fuuids.deep_view();
        assert(items[i as int] == store.data_items[i as int].deep_view());
        match fuuids_of(&store.data_items[i].files) {
            Some(mut more) => {
                let ghost added = more.deep_view();
                fuuids.append(&mut more);
                assert(fuuids.deep_view() =~= before + added);
            },
            None => {
                assert(fuuids.deep_view() =~= before + item_fuuids(items[i as int]));
            },
        }
        assert(items.take(i + 1).drop_last() =~= items.take(i as int));
        i = i + 1;
    }
    assert(items.take(i as int) =~= items);
    claim_batches(&fuuids)
}

/// A sweep names every file once, in the order of the files: the file at
/// place `i` is named by the claim of number `i / 100`, at place `i % 100`
/// in it. Every claim but the last names a hundred files, and the last
/// names at least one.
pub proof fn lemma_batches(fuuids: Seq<Seq<char>>, i: int)
    requires
        0 <= i < fuuids.len(),
    ensures
        i / 100 < batches(fuuids).len(),
        i % 100 < batches(fuuids)[i / 100].fuuids.len() <= 100,
        batches(fuuids)[i / 100].fuuids[i % 100] == fuuids[i],
        batches(fuuids)[i / 100].batch_no == Some((i / 100) as usize),
        batches(fuuids)[i / 100].done == Some(i / 100 == batches(fuuids).len() - 1),
        i / 100 < batches(fuuids).len() - 1 ==> batches(fuuids)[i / 100].fuuids.len() == 100,
{
}

} // verus!
