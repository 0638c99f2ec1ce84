//! Reading rows by date, a page at a time.

use vstd::prelude::*;

verus! {

/// The number of rows of a page where the reader names none.
pub const DEFAULT_PAGE_SIZE: i64 = 50;

/// A count of rows goes no further than this.
pub const COUNT_CAP: usize = 1000;

/// Whether a date is older than another. No date at all is older than any
/// date.
pub open spec fn older(a: Option<i64>, b: Option<i64>) -> bool {
    match (a, b) {
        (None, Some(_)) => true,
        (Some(x), Some(y)) => x < y,
        _ => false,
    }
}

/// Whether a row of the first date is read before a row of the second:
/// oldest first, or newest first.
pub open spec fn comes_before(a: Option<i64>, b: Option<i64>, descending: bool) -> bool {
    if descending {
        older(b, a)
    } else {
        older(a, b)
    }
}

/// An order with one more row in it: the row goes behind every row that is
/// not to be read after it.
pub open spec fn placed(order: Seq<usize>, dates: Seq<Option<i64>>, row: usize, descending: bool)
    -> Seq<usize>
    decreases order.len(),
{
    if order.len() == 0 {
        seq![row]
    } else if comes_before(dates[row as int], dates[order.last() as int], descending) {
        placed(order.drop_last(), dates, row, descending).push(order.last())
    } else {
        order.push(row)
    }
}

/// The order in which the first `n` rows are read by date: rows of one date
/// in the order in which they stand.
pub open spec fn order_of(dates: Seq<Option<i64>>, n: nat, descending: bool) -> Seq<usize>
    decreases n,
{
    if n == 0 {
        Seq::empty()
    } else {
        placed(order_of(dates, (n - 1) as nat, descending), dates, (n - 1) as usize, descending)
    }
}

/// Where a row is placed: behind the last row that is not to be read after
/// it.
proof fn lemma_placed_at(
    order: Seq<usize>,
    dates: Seq<Option<i64>>,
    row: usize,
    descending: bool,
    at: int,
)
    requires
        0 <= at <= order.len(),
        forall|q: int|
            at <= q < order.len() ==> comes_before(
                dates[row as int],
                dates[#[trigger] order[q] as int],
                descending,
            ),
        at > 0 ==> !comes_before(dates[row as int], dates[order[at - 1] as int], descending),
    ensures
        placed(order, dates, row, descending) == order.insert(at, row),
    decreases order.len(),
{
    if order.len() == 0 {
        assert(order.insert(at, row) =~= seq![row]);
    } else if at == order.len() {
        assert(order.insert(at, row) =~= order.push(row));
    } else {
        let head = order.drop_last();
        assert forall|q: int| at <= q < head.len() implies comes_before(
            dates[row as int],
            dates[#[trigger] head[q] as int],
            descending,
        ) by {
            assert(head[q] == order[q]);
        }
        if at > 0 {
            assert(head[at - 1] == order[at - 1]);
        }
        lemma_placed_at(head, dates, row, descending, at);
        assert(head.insert(at, row).push(order.last()) =~= order.insert(at, row));
    }
}

/// Whether a date is older than another.
pub fn is_older(a: Option<i64>, b: Option<i64>) -> (r: bool)
    ensures
        r == older(a, b),
{
    match a {
        None => b.is_some(),
        Some(x) => match b {
            Some(y) => x < y,
            None => false,
        },
    }
}

/// Whether a row of the first date is read before a row of the second.
pub fn is_before(a: Option<i64>, b: Option<i64>, descending: bool) -> (r: bool)
    ensures
        r == comes_before(a, b, descending),
{
    if descending {
        is_older(b, a)
    } else {
        is_older(a, b)
    }
}

/// The order in which rows of the given dates are read: oldest first or
/// newest first, rows of one date in the order in which they stand.
pub fn sort_order(dates: &Vec<Option<i64>>, descending: bool) -> (r: Vec<usize>)
    ensures
        r@ == order_of(dates@, dates.len() as nat, descending),
        r.len() == dates.len(),
        forall|q: int| 0 <= q < r.len() ==> (#[trigger] r[q]) < dates.len(),
{
    let mut order: Vec<usize> = Vec::new();
    let mut n: usize = 0;
    while n < dates.len()
        invariant
            n <= dates.len(),
            order@ == order_of(dates@, n as nat, descending),
            order.len() == n,
            forall|q: int| 0 <= q < order.len() ==> (#[trigger] order[q]) < n,
        decreases dates.len() - n,
    {
        let mut at: usize = order.len();
        while at > 0 && is_before(dates[n], dates[order[at - 1]], descending)
            invariant
                at <= order.len(),
                n < dates.len(),
                forall|q: int| 0 <= q < order.len() ==> (#[trigger] order[q]) < n,
                forall|q: int|
                    at <= q < order.len() ==> comes_before(
                        dates@[n as int],
                        dates@[#[trigger] order[q] as int],
                        descending,
                    ),
            decreases at,
        {
            at = at - 1;
        }
        proof {
            lemma_placed_at(order@, dates@, n, descending, at as int);
        }
        order.insert(at, n);
        n = n + 1;
    }
    order
}

/// How many rows a page holds at most; `None` for as many as there are. A
/// reader that names no size gets fifty; one that names zero gets all, and
/// a size below zero counts as the same size above.
pub open spec fn page_size(limit: Option<i64>) -> Option<nat> {
    let asked = match limit {
        Some(l) => l,
        None => DEFAULT_PAGE_SIZE,
    };
    if asked == 0 {
        None
    } else if asked < 0 {
        Some((-asked) as nat)
    } else {
        Some(asked as nat)
    }
}

/// Where a page starts among so many rows.
pub open spec fn page_start(len: nat, skip: Option<u64>) -> nat {
    let skipped = match skip {
        Some(s) => s as nat,
        None => 0,
    };
    if skipped < len {
        skipped
    } else {
        len
    }
}

/// Where a page ends among so many rows.
pub open spec fn page_end(len: nat, skip: Option<u64>, limit: Option<i64>) -> nat {
    match page_size(limit) {
        None => len,
        Some(size) => if page_start(len, skip) + size < len {
            page_start(len, skip) + size
        } else {
            len
        },
    }
}

/// The page of a sequence.
pub open spec fn page_of<T>(rows: Seq<T>, skip: Option<u64>, limit: Option<i64>) -> Seq<T> {
    rows.subrange(
        page_start(rows.len(), skip) as int,
        page_end(rows.len(), skip, limit) as int,
    )
}

/// Where a page starts and ends among so many rows.
pub fn page_range(len: usize, skip: Option<u64>, limit: Option<i64>) -> (r: (usize, usize))
    ensures
        r.0 == page_start(len as nat, skip),
        r.1 == page_end(len as nat, skip, limit),
        r.0 <= r.1 <= len,
{
    let skipped: u64 = match skip {
        Some(s) => s,
        None => 0,
    };
    let start: usize = if skipped < len as u64 {
        skipped as usize
    } else {
        len
    };
    let asked: i64 = match limit {
        Some(l) => l,
        None => DEFAULT_PAGE_SIZE,
    };
    if asked == 0 {
        (start, len)
    } else {
        let size: u64 = if asked > 0 {
            asked as u64
        } else if asked == i64::MIN {
            0x8000_0000_0000_0000u64
        } else {
            (-asked) as u64
        };
        let left: usize = len - start;
        if size < left as u64 {
            (start, start + size as usize)
        } else {
            (start, len)
        }
    }
}

/// A count of rows, as far as it is counted.
pub open spec fn capped(count: nat) -> nat {
    if count < COUNT_CAP {
        count
    } else {
        COUNT_CAP as nat
    }
}

/// A count of rows, as far as it is counted.
pub fn capped_count(count: usize) -> (r: usize)
    ensures
        r == capped(count as nat),
{
    if count < COUNT_CAP {
        count
    } else {
        COUNT_CAP
    }
}

/// The rows that stand at the given places, in the order of the places.
pub open spec fn rows_at<T>(rows: Seq<T>, places: Seq<usize>) -> Seq<T> {
    Seq::new(places.len(), |k: int| rows[places[k] as int])
}

/// A row that can be read: found by a filter, ordered by its date, and
/// shown to a reader with the references of the keys that read it.
pub trait Readable: DeepView {
    /// What a reader is shown of the row.
    type Shown: DeepView;

    /// The date by which the row is ordered, if it has one.
    spec fn date_of(v: Self::V) -> Option<i64>;

    /// The references of the keys that read the row.
    spec fn keys_of(v: Self::V) -> Seq<Seq<char>>;

    /// What a reader is shown of the row.
    spec fn shown(v: Self::V) -> <Self::Shown as DeepView>::V;

    fn date(&self) -> (r: Option<i64>)
        ensures
            r == Self::date_of(self.deep_view()),
    ;

    fn key_ids(&self) -> (r: Vec<String>)
        ensures
            r.deep_view() == Self::keys_of(self.deep_view()),
    ;

    fn show(&self) -> (r: Self::Shown)
        ensures
            r.deep_view() == Self::shown(self.deep_view()),
    ;
}

/// A condition on rows of one kind. The view of the condition is what it
/// says, apart from how it is held in memory.
pub trait Filter<T: DeepView>: DeepView {
    /// Whether the condition holds of a row.
    spec fn accepts(condition: Self::V, row: T::V) -> bool;

    fn test(&self, row: &T) -> (r: bool)
        ensures
            r == Self::accepts(self.deep_view(), row.deep_view()),
    ;
}

/// The rows of which a condition holds, in the order in which they stand.
pub open spec fn matching<T: DeepView, F: Filter<T>>(rows: Seq<T::V>, condition: F::V) -> Seq<T::V>
    decreases rows.len(),
{
    if rows.len() == 0 {
        Seq::empty()
    } else {
        let head = matching::<T, F>(rows.drop_last(), condition);
        if F::accepts(condition, rows.last()) {
            head.push(rows.last())
        } else {
            head
        }
    }
}

/// The dates of rows.
pub open spec fn dates_of<T: Readable>(rows: Seq<T::V>) -> Seq<Option<i64>> {
    Seq::new(rows.len(), |k: int| T::date_of(rows[k]))
}

/// Rows in the order in which they are read by date.
pub open spec fn by_date<T: Readable>(rows: Seq<T::V>, descending: bool) -> Seq<T::V> {
    rows_at(rows, order_of(dates_of::<T>(rows), rows.len(), descending))
}

/// What a reader is shown of rows.
pub open spec fn shown_all<T: Readable>(rows: Seq<T::V>) -> Seq<<T::Shown as DeepView>::V> {
    Seq::new(rows.len(), |k: int| T::shown(rows[k]))
}

/// The references of the keys that read rows, row after row.
pub open spec fn all_keys<T: Readable>(rows: Seq<T::V>) -> Seq<Seq<char>>
    decreases rows.len(),
{
    if rows.len() == 0 {
        Seq::empty()
    } else {
        all_keys::<T>(rows.drop_last()) + T::keys_of(rows.last())
    }
}

/// Whether every place is a place among so many rows.
pub open spec fn within(places: Seq<usize>, len: nat) -> bool {
    forall|k: int| 0 <= k < places.len() ==> (#[trigger] places[k]) < len
}

/// The places of the rows of which a condition holds.
pub fn pick<T: DeepView, F: Filter<T>>(rows: &Vec<T>, filter: &F) -> (r: Vec<usize>)
    ensures
        rows_at(rows.deep_view(), r@) == matching::<T, F>(rows.deep_view(), filter.deep_view()),
        within(r@, rows.len() as nat),
        forall|a: int, b: int| 0 <= a < b < r.len() ==> r[a] < r[b],
        forall|i: int|
            0 <= i < rows.len() ==> (r@.contains(i as usize) <==> F::accepts(
                filter.deep_view(),
                #[trigger] rows.deep_view()[i],
            )),
{
    let ghost all = rows.deep_view();
    let mut places: Vec<usize> = Vec::new();
    let mut i: usize = 0;
    assert(all.take(0) =~= Seq::empty());
    assert(rows_at(all, places@) =~= Seq::empty());
    while i < rows.len()
        invariant
            i <= rows.len(),
            all == rows.deep_view(),
            within(places@, i as nat),
            rows_at(all, places@) == matching::<T, F>(all.take(i as int), filter.deep_view()),
            forall|a: int, b: int| 0 <= a < b < places.len() ==> places[a] < places[b],
            forall|k: int|
                0 <= k < i ==> (places@.contains(k as usize) <==> F::accepts(
                    filter.deep_view(),
                    #[trigger] all[k],
                )),
        decreases rows.len() - i,
    {
        let ghost before = rows_at(all, places@);
        let ghost found = places@;
        assert(all.take(i + 1).drop_last() =~= all.take(i as int));
        assert(all.take(i + 1).last() == rows[i as int].deep_view());
        if filter.test(&rows[i]) {
            places.push(i);
            assert(rows_at(all, places@) =~= before.push(all[i as int]));
            assert(places@[found.len() as int] == i);
            assert forall|k: int| 0 <= k < i implies (places@.contains(k as usize)
                <==> F::accepts(filter.deep_view(), #[trigger] all[k])) by {
                if found.contains(k as usize) {
                    let q = choose|q: int| 0 <= q < found.len() && found[q] == k as usize;
                    assert(places@[q] == k as usize);
                }
                if places@.contains(k as usize) {
                    let q = choose|q: int| 0 <= q < places.len() && places@[q] == k as usize;
                    assert(found[q] == k as usize);
                }
            }
        } else {
            assert(!places@.contains(i)) by {
                if places@.contains(i) {
                    let q = choose|q: int| 0 <= q < places.len() && places@[q] == i;
                }
            }
        }
        i = i + 1;
    }
    assert(all.take(i as int) =~= all);
    places
}

/// The places of rows in the order in which the rows are read by date.
pub fn in_reading_order<T: Readable>(rows: &Vec<T>, places: &Vec<usize>, descending: bool) -> (r:
    Vec<usize>)
    requires
        within(places@, rows.len() as nat),
    ensures
        r@ == rows_at(
            places@,
            order_of(
                dates_of::<T>(rows_at(rows.deep_view(), places@)),
                places.len() as nat,
                descending,
            ),
        ),
        rows_at(rows.deep_view(), r@) == by_date::<T>(
            rows_at(rows.deep_view(), places@),
            descending,
        ),
        r.len() == places.len(),
        within(r@, rows.len() as nat),
{
    let ghost all = rows.deep_view();
    let ghost picked = rows_at(all, places@);
    let mut dates: Vec<Option<i64>> = Vec::new();
    let mut i: usize = 0;
    while i < places.len()
        invariant
            i <= places.len(),
            all == rows.deep_view(),
            picked == rows_at(all, places@),
            within(places@, rows.len() as nat),
            dates.len() == i,
            forall|k: int| 0 <= k < i ==> dates[k] == T::date_of(picked[k]),
        decreases places.len() - i,
    {
        assert(all[places[i as int] as int] == rows[places[i as int] as int].deep_view());
        dates.push(rows[places[i]].date());
        i = i + 1;
    }
    assert(dates@ =~= dates_of::<T>(picked));
    let order = sort_order(&dates, descending);
    let mut read: Vec<usize> = Vec::new();
    let mut k: usize = 0;
    while k < order.len()
        invariant
            k <= order.len(),
            order.len() == places.len(),
            within(places@, rows.len() as nat),
            forall|q: int| 0 <= q < order.len() ==> (#[trigger] order[q]) < places.len(),
            read.len() == k,
            forall|q: int| 0 <= q < k ==> read[q] == places[order[q] as int],
        decreases order.len() - k,
    {
        read.push(places[order[k]]);
        k = k + 1;
    }
    assert(read@ =~= rows_at(places@, order@));
    assert(rows_at(all, read@) =~= by_date::<T>(picked, descending));
    read
}

/// A page of places.
pub fn paged(places: &Vec<usize>, skip: Option<u64>, limit: Option<i64>) -> (r: Vec<usize>)
    ensures
        r@ == page_of(places@, skip, limit),
{
    let (start, end) = page_range(places.len(), skip, limit);
    let mut page: Vec<usize> = Vec::new();
    let mut k: usize = start;
    while k < end
        invariant
            start <= k <= end <= places.len(),
            page.len() == k - start,
            forall|q: int| 0 <= q < k - start ==> page[q] == places[start + q],
        decreases end - k,
    {
        page.push(places[k]);
        k = k + 1;
    }
    assert(page@ =~= page_of(places@, skip, limit));
    page
}

/// The rows at a page of places are the page of the rows at the places.
pub proof fn lemma_rows_at_page<T>(
    rows: Seq<T>,
    places: Seq<usize>,
    skip: Option<u64>,
    limit: Option<i64>,
)
    ensures
        rows_at(rows, page_of(places, skip, limit)) == page_of(rows_at(rows, places), skip, limit),
        within(places, rows.len()) ==> within(page_of(places, skip, limit), rows.len()),
{
    assert(rows_at(rows, page_of(places, skip, limit)) =~= page_of(
        rows_at(rows, places),
        skip,
        limit,
    ));
}

/// What a reader is shown of the rows at the given places.
pub fn show_all<T: Readable>(rows: &Vec<T>, places: &Vec<usize>) -> (r: Vec<T::Shown>)
    requires
        within(places@, rows.len() as nat),
    ensures
        r.deep_view() == shown_all::<T>(rows_at(rows.deep_view(), places@)),
{
    let ghost all = rows.deep_view();
    let mut out: Vec<T::Shown> = Vec::new();
    let mut k: usize = 0;
    while k < places.len()
        invariant
            k <= places.len(),
            all == rows.deep_view(),
            within(places@, rows.len() as nat),
            out.len() == k,
            forall|q: int| 0 <= q < k ==> out[q].deep_view() == T::shown(all[places[q] as int]),
        decreases places.len() - k,
    {
        assert(all[places[k as int] as int] == rows[places[k as int] as int].deep_view());
        out.push(rows[places[k]].show());
        k = k + 1;
    }
    assert(out.deep_view() =~= shown_all::<T>(rows_at(all, places@)));
    out
}

/// The references of the keys that read the rows at the given places.
pub fn keys_of_all<T: Readable>(rows: &Vec<T>, places: &Vec<usize>) -> (r: Vec<String>)
    requires
        within(places@, rows.len() as nat),
    ensures
        r.deep_view() == all_keys::<T>(rows_at(rows.deep_view(), places@)),
{
    let ghost all = rows.deep_view();
    let ghost picked = rows_at(all, places@);
    let mut keys: Vec<String> = Vec::new();
    let mut k: usize = 0;
    assert(picked.take(0) =~= Seq::empty());
    assert(keys.deep_view() =~= Seq::empty());
    while k < places.len()
        invariant
            k <= places.len(),
            all == rows.deep_view(),
            picked == rows_at(all, places@),
            within(places@, rows.len() as nat),
            keys.deep_view() == all_keys::<T>(picked.take(k as int)),
        decreases places.len() - k,
    {
        let ghost before = keys.deep_view();
        assert(all[places[k as int] as int] == rows[places[k as int] as int].deep_view());
        assert(picked.take(k + 1).drop_last() =~= picked.take(k as int));
        assert(picked.take(k + 1).last() == all[places[k as int] as int]);
        let mut more = rows[places[k]].key_ids();
        let ghost added = more.deep_view();
        keys.append(&mut more);
        assert(keys.deep_view() =~= before + added);
        k = k + 1;
    }
    assert(picked.take(k as int) =~= picked);
    keys
}

/// Whether two places stand in reading order: the row of the first is read
/// before the row of the second, or they have one date and the first
/// stands before the second.
pub open spec fn in_order(dates: Seq<Option<i64>>, first: usize, second: usize, descending: bool)
    -> bool {
    comes_before(dates[first as int], dates[second as int], descending) || (!comes_before(
        dates[second as int],
        dates[first as int],
        descending,
    ) && first < second)
}

/// Whether every two places of an order stand in reading order.
pub open spec fn is_ordered(order: Seq<usize>, dates: Seq<Option<i64>>, descending: bool) -> bool {
    forall|a: int, b: int|
        0 <= a < b < order.len() ==> in_order(
            dates,
            #[trigger] order[a],
            #[trigger] order[b],
            descending,
        )
}

/// Placing a row in an order keeps the order: the places stand in reading
/// order as before, and the places are those that were there and the new
/// one.
proof fn lemma_placed(order: Seq<usize>, dates: Seq<Option<i64>>, row: usize, descending: bool)
    requires
        is_ordered(order, dates, descending),
        row < dates.len(),
        forall|q: int| 0 <= q < order.len() ==> (#[trigger] order[q]) < row,
    ensures
        placed(order, dates, row, descending).len() == order.len() + 1,
        is_ordered(placed(order, dates, row, descending), dates, descending),
        placed(order, dates, row, descending).contains(row),
        forall|x: usize| #[trigger]
            placed(order, dates, row, descending).contains(x) ==> order.contains(x) || x == row,
        forall|x: usize| #[trigger]
            order.contains(x) ==> placed(order, dates, row, descending).contains(x),
    decreases order.len(),
{
    let after = placed(order, dates, row, descending);
    if order.len() == 0 {
        assert(after[0] == row);
    } else if comes_before(dates[row as int], dates[order.last() as int], descending) {
        let head = order.drop_last();
        assert(is_ordered(head, dates, descending)) by {
            assert forall|a: int, b: int| 0 <= a < b < head.len() implies in_order(
                dates,
                #[trigger] head[a],
                #[trigger] head[b],
                descending,
            ) by {
                assert(head[a] == order[a] && head[b] == order[b]);
            }
        }
        assert forall|q: int| 0 <= q < head.len() implies (#[trigger] head[q]) < row by {
            assert(head[q] == order[q]);
        }
        lemma_placed(head, dates, row, descending);
        let inner = placed(head, dates, row, descending);
        assert(after == inner.push(order.last()));
        assert forall|a: int, b: int| 0 <= a < b < after.len() implies in_order(
            dates,
            #[trigger] after[a],
            #[trigger] after[b],
            descending,
        ) by {
            if b < inner.len() {
                assert(after[a] == inner[a] && after[b] == inner[b]);
            } else {
                assert(after[b] == order.last());
                assert(after[a] == inner[a]);
                assert(inner.contains(inner[a]));
                if inner[a] != row {
                    assert(head.contains(inner[a]));
                    let k = choose|k: int| 0 <= k < head.len() && head[k] == inner[a];
                    assert(order[k] == inner[a]);
                    assert(in_order(dates, order[k], order[order.len() - 1], descending));
                }
            }
        }
        assert(after.contains(row)) by {
            let k = choose|k: int| 0 <= k < inner.len() && inner[k] == row;
            assert(after[k] == row);
        }
        assert forall|x: usize| #[trigger] after.contains(x) implies order.contains(x) || x
            == row by {
            let k = choose|k: int| 0 <= k < after.len() && after[k] == x;
            if k < inner.len() {
                assert(inner[k] == x);
                assert(inner.contains(x));
                if x != row {
                    assert(head.contains(x));
                    let i = choose|i: int| 0 <= i < head.len() && head[i] == x;
                    assert(order[i] == x);
                }
            } else {
                assert(order[order.len() - 1] == x);
            }
        }
        assert forall|x: usize| #[trigger] order.contains(x) implies after.contains(x) by {
            let i = choose|i: int| 0 <= i < order.len() && order[i] == x;
            if i < head.len() {
                assert(head[i] == x);
                assert(head.contains(x));
                assert(inner.contains(x));
                let k = choose|k: int| 0 <= k < inner.len() && inner[k] == x;
                assert(after[k] == x);
            } else {
                assert(after[after.len() - 1] == x);
            }
        }
    } else {
        assert(after == order.push(row));
        assert forall|a: int, b: int| 0 <= a < b < after.len() implies in_order(
            dates,
            #[trigger] after[a],
            #[trigger] after[b],
            descending,
        ) by {
            if b < order.len() {
                assert(after[a] == order[a] && after[b] == order[b]);
            } else {
                assert(after[b] == row);
                assert(after[a] == order[a]);
                if a < order.len() - 1 {
                    assert(in_order(dates, order[a], order[order.len() - 1], descending));
                }
            }
        }
        assert(after[order.len() as int] == row);
        assert forall|x: usize| #[trigger] after.contains(x) implies order.contains(x) || x
            == row by {
            let k = choose|k: int| 0 <= k < after.len() && after[k] == x;
            if k < order.len() {
                assert(order[k] == x);
            }
        }
        assert forall|x: usize| #[trigger] order.contains(x) implies after.contains(x) by {
            let i = choose|i: int| 0 <= i < order.len() && order[i] == x;
            assert(after[i] == x);
        }
    }
}

/// The order in which rows are read by date holds every row once, and any
/// two rows stand in it by their dates, oldest first or newest first, and
/// by their places where their dates are the same.
pub proof fn lemma_order_of(dates: Seq<Option<i64>>, n: nat, descending: bool)
    requires
        n <= dates.len(),
        n <= usize::MAX,
    ensures
        order_of(dates, n, descending).len() == n,
        is_ordered(order_of(dates, n, descending), dates, descending),
        order_of(dates, n, descending).no_duplicates(),
        forall|x: usize| #[trigger] order_of(dates, n, descending).contains(x) ==> x < n,
        forall|x: usize| x < n ==> order_of(dates, n, descending).contains(x),
    decreases n,
{
    let order = order_of(dates, n, descending);
    if n > 0 {
        let head = order_of(dates, (n - 1) as nat, descending);
        lemma_order_of(dates, (n - 1) as nat, descending);
        assert forall|q: int| 0 <= q < head.len() implies (#[trigger] head[q]) < (n - 1) as usize by {
            assert(head.contains(head[q]));
        }
        lemma_placed(head, dates, (n - 1) as usize, descending);
        assert forall|x: usize| x < n implies order.contains(x) by {
            if x < n - 1 {
                assert(head.contains(x));
            }
        }
    }
    assert forall|a: int, b: int| 0 <= a < order.len() && 0 <= b < order.len() && a
        != b implies order[a] != order[b] by {
        if a < b {
            assert(in_order(dates, order[a], order[b], descending));
        } else {
            assert(in_order(dates, order[b], order[a], descending));
        }
    }
}

/// Rows in the order in which they are read by date are the same rows, as
/// many of them, and none of them is read before a row that comes before it
/// by date.
pub proof fn lemma_by_date<T: Readable>(rows: Seq<T::V>, descending: bool)
    requires
        rows.len() <= usize::MAX,
    ensures
        by_date::<T>(rows, descending).len() == rows.len(),
        forall|a: int, b: int|
            0 <= a < b < rows.len() ==> !comes_before(
                T::date_of(#[trigger] by_date::<T>(rows, descending)[b]),
                T::date_of(#[trigger] by_date::<T>(rows, descending)[a]),
                descending,
            ),
        forall|i: int|
            0 <= i < rows.len() ==> by_date::<T>(rows, descending).contains(#[trigger] rows[i]),
        forall|k: int|
            0 <= k < rows.len() ==> rows.contains(#[trigger] by_date::<T>(rows, descending)[k]),
{
    let dates = dates_of::<T>(rows);
    let order = order_of(dates, rows.len(), descending);
    let read = by_date::<T>(rows, descending);
    lemma_order_of(dates, rows.len(), descending);
    assert forall|a: int, b: int| 0 <= a < b < rows.len() implies !comes_before(
        T::date_of(#[trigger] read[b]),
        T::date_of(#[trigger] read[a]),
        descending,
    ) by {
        assert(order.contains(order[a]) && order.contains(order[b]));
        assert(in_order(dates, order[a], order[b], descending));
    }
    assert forall|i: int| 0 <= i < rows.len() implies read.contains(#[trigger] rows[i]) by {
        assert(order.contains(i as usize));
        let k = choose|k: int| 0 <= k < order.len() && order[k] == i as usize;
        assert(read[k] == rows[i]);
    }
    assert forall|k: int| 0 <= k < rows.len() implies rows.contains(#[trigger] read[k]) by {
        assert(order.contains(order[k]));
        assert(rows[order[k] as int] == read[k]);
    }
}

/// A page holds rows of the sequence, in their order, and no more of them
/// than the size of a page.
pub proof fn lemma_page_of<T>(rows: Seq<T>, skip: Option<u64>, limit: Option<i64>)
    ensures
        page_of(rows, skip, limit).len() <= rows.len(),
        page_size(limit) matches Some(size) ==> page_of(rows, skip, limit).len() <= size,
        forall|k: int|
            0 <= k < page_of(rows, skip, limit).len() ==> #[trigger] page_of(rows, skip, limit)[k]
                == rows[page_start(rows.len(), skip) + k],
        forall|k: int|
            0 <= k < page_of(rows, skip, limit).len() ==> rows.contains(
                #[trigger] page_of(rows, skip, limit)[k],
            ),
{
    let page = page_of(rows, skip, limit);
    assert forall|k: int| 0 <= k < page.len() implies rows.contains(#[trigger] page[k]) by {
        assert(rows[page_start(rows.len(), skip) + k] == page[k]);
    }
}

/// The rows of which a condition holds are those rows, and no others: a
/// row is among them if and only if it is among the rows and the condition
/// holds of it.
pub proof fn lemma_matching<T: DeepView, F: Filter<T>>(rows: Seq<T::V>, condition: F::V)
    ensures
        matching::<T, F>(rows, condition).len() <= rows.len(),
        forall|row: T::V|
            matching::<T, F>(rows, condition).contains(row) <==> rows.contains(row) && F::accepts(
                condition,
                row,
            ),
    decreases rows.len(),
{
    let found = matching::<T, F>(rows, condition);
    if rows.len() > 0 {
        let head = rows.drop_last();
        let before = matching::<T, F>(head, condition);
        lemma_matching::<T, F>(head, condition);
        assert forall|row: T::V| found.contains(row) <==> rows.contains(row) && F::accepts(
            condition,
            row,
        ) by {
            if found.contains(row) {
                let k = choose|k: int| 0 <= k < found.len() && found[k] == row;
                if k < before.len() {
                    assert(before[k] == row);
                    assert(before.contains(row));
                    assert(head.contains(row));
                    let i = choose|i: int| 0 <= i < head.len() && head[i] == row;
                    assert(rows[i] == row);
                } else {
                    assert(rows[rows.len() - 1] == row);
                }
            }
            if rows.contains(row) && F::accepts(condition, row) {
                let i = choose|i: int| 0 <= i < rows.len() && rows[i] == row;
                if i < head.len() {
                    assert(head[i] == row);
                    assert(head.contains(row));
                    assert(before.contains(row));
                    let k = choose|k: int| 0 <= k < before.len() && before[k] == row;
                    assert(found[k] == row);
                } else {
                    assert(found[found.len() - 1] == row);
                }
            }
        }
    }
}

} // verus!
