//! What the meme table answers: the meaning of each query over the rows, in
//! the order of their ids.

use vstd::prelude::*;
use crate::models::{Meme, MemeOptionsView, MemeView};
use crate::text::{is_infix, same_text};

verus! {

/// The number of rows that a listing returns where the filter names no limit.
pub const DEFAULT_LIMIT: i32 = 100;

/// The seconds of a day.
pub const SECONDS_PER_DAY: i32 = 86400;

/// The ids grow strictly along the rows.
pub open spec fn ascending_ids(rows: Seq<MemeView>) -> bool {
    forall|i: int, j: int| 0 <= i < j < rows.len() ==> rows[i].id < rows[j].id
}

/// Every id is positive.
pub open spec fn positive_ids(rows: Seq<MemeView>) -> bool {
    forall|i: int| 0 <= i < rows.len() ==> rows[i].id > 0
}

/// No two rows hold the same file name for the same uploader.
pub open spec fn unique_names(rows: Seq<MemeView>) -> bool {
    forall|i: int, j: int|
        0 <= i < j < rows.len() ==> !(rows[i].userid == rows[j].userid && rows[i].filename
            == rows[j].filename)
}

/// The id after which a listing starts: the filter's cursor, or 0.
pub open spec fn cursor(filter: MemeOptionsView) -> int {
    match filter.after {
        Some(after) => after,
        None => 0,
    }
}

/// The most rows that a listing returns: the filter's limit, or the default.
pub open spec fn limit_of(filter: MemeOptionsView) -> int {
    match filter.limit {
        Some(limit) => limit,
        None => DEFAULT_LIMIT as int,
    }
}

/// Whether the filter lets the row through. The category and the uploader's id
/// must be equal to the filter's, the uploader's name and the file name must
/// contain the filter's texts, and the id must lie behind the cursor. A field
/// that is absent restricts nothing. The limit plays no part here.
pub open spec fn selects(filter: MemeOptionsView, row: MemeView) -> bool {
    &&& filter.category matches Some(category) ==> row.category == category
    &&& filter.user_id matches Some(user_id) ==> row.userid == user_id
    &&& filter.username matches Some(name) ==> is_infix(row.username, name)
    &&& filter.search matches Some(text) ==> is_infix(row.filename, text)
    &&& row.id > cursor(filter)
}

/// The rows that the filter lets through.
pub open spec fn selecting(filter: MemeOptionsView) -> spec_fn(MemeView) -> bool {
    |row: MemeView| selects(filter, row)
}

/// The rows with the given id.
pub open spec fn with_id(id: int) -> spec_fn(MemeView) -> bool {
    |row: MemeView| row.id == id
}

/// The rows of the given uploader under the given file name.
pub open spec fn stored_as(userid: Seq<char>, filename: Seq<char>) -> spec_fn(MemeView) -> bool {
    |row: MemeView| row.userid == userid && row.filename == filename
}

/// The first of `hits`, if there is one.
pub open spec fn first_of<A>(hits: Seq<A>) -> Option<A> {
    if hits.len() > 0 {
        Some(hits.first())
    } else {
        None
    }
}

/// The last of `hits`, if there is one.
pub open spec fn last_of<A>(hits: Seq<A>) -> Option<A> {
    if hits.len() > 0 {
        Some(hits.last())
    } else {
        None
    }
}

/// All rows that the filter selects, in the order of their ids.
pub open spec fn matching(rows: Seq<MemeView>, filter: MemeOptionsView) -> Seq<MemeView> {
    rows.filter(selecting(filter))
}

/// The listing: of the rows that the filter selects, the first `limit`.
pub open spec fn listed(rows: Seq<MemeView>, filter: MemeOptionsView) -> Seq<MemeView>
    recommends
        limit_of(filter) >= 0,
{
    let hits = matching(rows, filter);
    if limit_of(filter) < hits.len() {
        hits.take(limit_of(filter))
    } else {
        hits
    }
}

/// The count: how many rows the filter selects.
pub open spec fn counted(rows: Seq<MemeView>, filter: MemeOptionsView) -> nat {
    matching(rows, filter).len()
}

/// The row with the given id, if there is one.
pub open spec fn found(rows: Seq<MemeView>, id: int) -> Option<MemeView> {
    first_of(rows.filter(with_id(id)))
}

/// Whether the row is one of this uploader under this file name.
pub open spec fn is_stored_as(row: MemeView, userid: Seq<char>, filename: Seq<char>) -> bool {
    row.userid == userid && row.filename == filename
}

/// Of the rows of this uploader under this file name, the one with the highest
/// id, if there is any; of several with that id, the last.
pub open spec fn latest(rows: Seq<MemeView>, userid: Seq<char>, filename: Seq<char>) -> Option<
    MemeView,
>
    decreases rows.len(),
{
    if rows.len() == 0 {
        None
    } else {
        let before = latest(rows.drop_last(), userid, filename);
        let row = rows.last();
        if is_stored_as(row, userid, filename) && (before is None || before->0.id <= row.id) {
            Some(row)
        } else {
            before
        }
    }
}

/// The day of a time: the whole days since the epoch, rounded down.
pub open spec fn day_of(seconds: int) -> int {
    seconds / (SECONDS_PER_DAY as int)
}

/// The rows that the uploader stored on the day of `now`.
pub open spec fn stored_today(userid: Seq<char>, now: int) -> spec_fn(MemeView) -> bool {
    |row: MemeView| row.userid == userid && day_of(row.timestamp) == day_of(now)
}

/// How many memes the uploader stored on the day of `now`.
pub open spec fn uploads_today(rows: Seq<MemeView>, userid: Seq<char>, now: int) -> nat {
    rows.filter(stored_today(userid, now)).len()
}

/// The id that the next inserted row gets: one more than the last.
pub open spec fn next_id(rows: Seq<MemeView>) -> int {
    if rows.len() == 0 {
        1
    } else {
        rows.last().id + 1
    }
}

/// Filtering rows that end in `row`: the filtered rest, and `row` where the
/// predicate holds of it.
pub proof fn lemma_filter_push<A>(rows: Seq<A>, row: A, keep: spec_fn(A) -> bool)
    ensures
        rows.push(row).filter(keep) == if keep(row) {
            rows.filter(keep).push(row)
        } else {
            rows.filter(keep)
        },
{
    reveal(Seq::filter);
    assert(rows.push(row).drop_last() =~= rows);
}

/// Filtering one row more of `rows`.
pub proof fn lemma_filter_take<A>(rows: Seq<A>, i: int, keep: spec_fn(A) -> bool)
    requires
        0 <= i < rows.len(),
    ensures
        rows.take(i + 1).filter(keep) == if keep(rows[i]) {
            rows.take(i).filter(keep).push(rows[i])
        } else {
            rows.take(i).filter(keep)
        },
{
    assert(rows.take(i + 1) =~= rows.take(i).push(rows[i]));
    lemma_filter_push(rows.take(i), rows[i], keep);
}

/// The filtered start of `rows` is the start of the filtered rows.
pub proof fn lemma_filter_prefix<A>(rows: Seq<A>, i: int, keep: spec_fn(A) -> bool)
    requires
        0 <= i <= rows.len(),
    ensures
        rows.filter(keep) == rows.take(i).filter(keep) + rows.skip(i).filter(keep),
{
    assert(rows =~= rows.take(i) + rows.skip(i));
    Seq::filter_distributes_over_add(rows.take(i), rows.skip(i), keep);
}

/// Where the predicate holds of the row at `i` and of none before it, that
/// row is the first of the filtered rows.
pub proof fn lemma_first_hit<A>(rows: Seq<A>, i: int, keep: spec_fn(A) -> bool)
    requires
        0 <= i < rows.len(),
        rows.take(i).filter(keep).len() == 0,
        keep(rows[i]),
    ensures
        first_of(rows.filter(keep)) == Some(rows[i]),
{
    lemma_filter_take(rows, i, keep);
    lemma_filter_prefix(rows, i + 1, keep);
    assert(rows.take(i + 1).filter(keep)[0] == rows[i]);
}

/// Whether the filtered row at `k` stems from a position of `rows` at or
/// behind `k` where the predicate holds.
pub open spec fn stems_from(
    rows: Seq<MemeView>,
    keep: spec_fn(MemeView) -> bool,
    k: int,
    i: int,
) -> bool {
    k <= i < rows.len() && rows.filter(keep)[k] == rows[i] && keep(rows[i])
}

/// Whether the filtered row at `k` stems from a position of `rows`.
pub open spec fn has_source(rows: Seq<MemeView>, keep: spec_fn(MemeView) -> bool, k: int) -> bool {
    exists|i: int| #[trigger] stems_from(rows, keep, k, i)
}

/// Every filtered row stems from a position of `rows` where the predicate
/// holds, and filtering leaves no more rows than there were.
pub proof fn lemma_filter_positions(rows: Seq<MemeView>, keep: spec_fn(MemeView) -> bool)
    ensures
        forall|k: int| 0 <= k < rows.filter(keep).len() ==> #[trigger] has_source(rows, keep, k),
        rows.filter(keep).len() <= rows.len(),
    decreases rows.len(),
{
    reveal(Seq::filter);
    if rows.len() > 0 {
        let rest = rows.drop_last();
        lemma_filter_positions(rest, keep);
        let hits = rows.filter(keep);
        let before = rest.filter(keep);
        assert forall|k: int| 0 <= k < hits.len() implies #[trigger] has_source(
            rows,
            keep,
            k,
        ) by {
            if k < before.len() {
                assert(has_source(rest, keep, k));
                let i = choose|i: int| stems_from(rest, keep, k, i);
                assert(rest[i] == rows[i]);
                assert(hits[k] == before[k]);
                assert(stems_from(rows, keep, k, i));
            } else {
                assert(keep(rows.last()));
                assert(hits[k] == rows[rows.len() - 1]);
                assert(stems_from(rows, keep, k, rows.len() - 1));
            }
        }
    }
}

/// Filtering keeps the order of the ids: the filtered rows of a table whose
/// ids grow have growing ids, none above the last id of the table.
pub proof fn lemma_filter_ascending(rows: Seq<MemeView>, keep: spec_fn(MemeView) -> bool)
    requires
        ascending_ids(rows),
    ensures
        ascending_ids(rows.filter(keep)),
        rows.len() > 0 ==> forall|k: int|
            0 <= k < rows.filter(keep).len() ==> (#[trigger] rows.filter(keep)[k]).id
                <= rows.last().id,
    decreases rows.len(),
{
    reveal(Seq::filter);
    if rows.len() > 0 {
        let rest = rows.drop_last();
        let hits = rows.filter(keep);
        let before = rest.filter(keep);
        assert(ascending_ids(rest)) by {
            assert forall|i: int, j: int| 0 <= i < j < rest.len() implies rest[i].id
                < rest[j].id by {
                assert(rest[i] == rows[i] && rest[j] == rows[j]);
            }
        }
        lemma_filter_ascending(rest, keep);
        assert forall|k: int| 0 <= k < before.len() implies (#[trigger] before[k]).id
            < rows.last().id by {
            assert(rest.len() > 0) by {
                rest.lemma_filter_len(keep);
            }
            assert(before[k].id <= rest.last().id);
            assert(rest.last() == rows[rows.len() - 2]);
            assert(rows[rows.len() - 2].id < rows[rows.len() - 1].id);
        }
        assert forall|k: int| 0 <= k < hits.len() implies (#[trigger] hits[k]).id
            <= rows.last().id by {
            if k < before.len() {
                assert(hits[k] == before[k]);
            } else {
                assert(hits[k] == rows.last());
            }
        }
        assert forall|i: int, j: int| 0 <= i < j < hits.len() implies hits[i].id < hits[j].id by {
            if j < before.len() {
                assert(hits[i] == before[i] && hits[j] == before[j]);
            } else {
                assert(hits[i] == before[i]);
                assert(hits[j] == rows.last());
            }
        }
    }
}

/// A row of `rows` of which the predicate holds is among the filtered rows.
pub proof fn lemma_filter_keeps(rows: Seq<MemeView>, keep: spec_fn(MemeView) -> bool, i: int)
    requires
        0 <= i < rows.len(),
        keep(rows[i]),
    ensures
        exists|k: int| 0 <= k < rows.filter(keep).len() && rows.filter(keep)[k] == rows[i],
    decreases rows.len(),
{
    reveal(Seq::filter);
    let hits = rows.filter(keep);
    if i == rows.len() - 1 {
        assert(hits[hits.len() - 1] == rows[i]);
    } else {
        let rest = rows.drop_last();
        lemma_filter_keeps(rest, keep, i);
        let k = choose|k: int| 0 <= k < rest.filter(keep).len() && rest.filter(keep)[k] == rest[i];
        assert(hits[k] == rows[i]);
    }
}

/// Where no row satisfies the predicate, nothing is left of the rows.
pub proof fn lemma_filter_none(rows: Seq<MemeView>, keep: spec_fn(MemeView) -> bool)
    requires
        forall|i: int| 0 <= i < rows.len() ==> !keep(#[trigger] rows[i]),
    ensures
        rows.filter(keep).len() == 0,
{
    lemma_filter_positions(rows, keep);
    if rows.filter(keep).len() > 0 {
        assert(has_source(rows, keep, 0));
        let i = choose|i: int| stems_from(rows, keep, 0, i);
        assert(keep(rows[i]));
    }
}

/// Where every row satisfies the predicate, all rows are left.
pub proof fn lemma_filter_all(rows: Seq<MemeView>, keep: spec_fn(MemeView) -> bool)
    requires
        forall|i: int| 0 <= i < rows.len() ==> keep(#[trigger] rows[i]),
    ensures
        rows.filter(keep) == rows,
    decreases rows.len(),
{
    reveal(Seq::filter);
    if rows.len() > 0 {
        lemma_filter_all(rows.drop_last(), keep);
        assert(rows.drop_last().push(rows.last()) =~= rows);
    }
}

/// With positive ids that grow strictly, the id of a row is above its
/// position.
pub proof fn lemma_id_above_position(rows: Seq<MemeView>, i: int)
    requires
        ascending_ids(rows),
        positive_ids(rows),
        0 <= i < rows.len(),
    ensures
        rows[i].id >= i + 1,
    decreases i,
{
    if i > 0 {
        lemma_id_above_position(rows, i - 1);
    }
}

/// What is resolved for an uploader and a file name is a row of theirs; and
/// nothing is resolved only where they have no row.
pub proof fn lemma_latest_is_stored(rows: Seq<MemeView>, userid: Seq<char>, filename: Seq<char>)
    ensures
        latest(rows, userid, filename) matches Some(row) ==> rows.contains(row) && is_stored_as(
            row,
            userid,
            filename,
        ),
        latest(rows, userid, filename) is None <==> forall|i: int|
            0 <= i < rows.len() ==> !is_stored_as(#[trigger] rows[i], userid, filename),
    decreases rows.len(),
{
    if rows.len() > 0 {
        let rest = rows.drop_last();
        lemma_latest_is_stored(rest, userid, filename);
        let before = latest(rest, userid, filename);
        if before is Some {
            let k = choose|k: int| 0 <= k < rest.len() && rest[k] == before->0;
            assert(rows[k] == before->0);
        }
        assert(rows[rows.len() - 1] == rows.last());
        if latest(rows, userid, filename) is None {
            assert forall|i: int| 0 <= i < rows.len() implies !is_stored_as(
                #[trigger] rows[i],
                userid,
                filename,
            ) by {
                if i < rest.len() {
                    assert(rest[i] == rows[i]);
                }
            }
        } else if before is None {
            assert(is_stored_as(rows[rows.len() - 1], userid, filename));
        } else {
            let k = choose|k: int| 0 <= k < rest.len() && rest[k] == before->0;
            assert(is_stored_as(rest[k], userid, filename));
            assert(rows[k] == rest[k]);
        }
    }
}

/// Most recent wins: where an uploader has rows under a file name, the one
/// that is resolved is one of them, and none of them has a higher id.
pub proof fn lemma_latest_has_highest_id(
    rows: Seq<MemeView>,
    userid: Seq<char>,
    filename: Seq<char>,
    i: int,
)
    requires
        0 <= i < rows.len(),
        is_stored_as(rows[i], userid, filename),
    ensures
        latest(rows, userid, filename) is Some,
        rows.contains(latest(rows, userid, filename)->0),
        is_stored_as(latest(rows, userid, filename)->0, userid, filename),
        rows[i].id <= latest(rows, userid, filename)->0.id,
    decreases rows.len(),
{
    lemma_latest_is_stored(rows, userid, filename);
    let rest = rows.drop_last();
    if i < rows.len() - 1 {
        assert(rest[i] == rows[i]);
        lemma_latest_has_highest_id(rest, userid, filename, i);
    }
}

/// In a table whose ids grow along the rows, the resolved row is the last of
/// the uploader's rows under the file name.
pub proof fn lemma_latest_is_last(rows: Seq<MemeView>, userid: Seq<char>, filename: Seq<char>)
    requires
        ascending_ids(rows),
    ensures
        latest(rows, userid, filename) == last_of(rows.filter(stored_as(userid, filename))),
    decreases rows.len(),
{
    reveal(Seq::filter);
    if rows.len() > 0 {
        let rest = rows.drop_last();
        lemma_latest_is_last(rest, userid, filename);
        lemma_latest_is_stored(rest, userid, filename);
        let before = latest(rest, userid, filename);
        if before is Some {
            let k = choose|k: int| 0 <= k < rest.len() && rest[k] == before->0;
            assert(rows[k].id < rows[rows.len() - 1].id);
        }
    }
}

/// A listing is in the order of the ids, holds only rows of the table that
/// the filter selects, so only rows behind the cursor, and no more of them
/// than the limit.
pub proof fn lemma_listing_is_ascending(rows: Seq<MemeView>, filter: MemeOptionsView)
    requires
        ascending_ids(rows),
        limit_of(filter) >= 0,
    ensures
        ascending_ids(listed(rows, filter)),
        listed(rows, filter).len() <= limit_of(filter),
        forall|k: int|
            0 <= k < listed(rows, filter).len() ==> {
                &&& rows.contains(#[trigger] listed(rows, filter)[k])
                &&& selects(filter, listed(rows, filter)[k])
                &&& listed(rows, filter)[k].id > cursor(filter)
            },
{
    let keep = selecting(filter);
    let hits = rows.filter(keep);
    lemma_filter_positions(rows, keep);
    lemma_filter_ascending(rows, keep);
    assert forall|k: int| 0 <= k < listed(rows, filter).len() implies {
        &&& rows.contains(#[trigger] listed(rows, filter)[k])
        &&& selects(filter, listed(rows, filter)[k])
        &&& listed(rows, filter)[k].id > cursor(filter)
    } by {
        assert(listed(rows, filter)[k] == hits[k]);
        assert(has_source(rows, keep, k));
        let i = choose|i: int| stems_from(rows, keep, k, i);
        assert(hits[k] == rows[i]);
    }
}

/// A listing leaves out no row that the filter selects, as far as the limit
/// goes: a selected row is listed where fewer rows are selected than the limit
/// allows.
pub proof fn lemma_listing_is_complete(rows: Seq<MemeView>, filter: MemeOptionsView, i: int)
    requires
        0 <= i < rows.len(),
        selects(filter, rows[i]),
        counted(rows, filter) <= limit_of(filter),
    ensures
        listed(rows, filter).contains(rows[i]),
{
    lemma_filter_keeps(rows, selecting(filter), i);
}

/// With no filter field, a listing is the whole table, where the table holds
/// no more rows than the default limit.
pub proof fn lemma_unfiltered_listing_is_all(rows: Seq<MemeView>)
    requires
        positive_ids(rows),
        rows.len() <= DEFAULT_LIMIT,
    ensures
        listed(rows, MemeOptionsView::empty()) == rows,
{
    lemma_filter_all(rows, selecting(MemeOptionsView::empty()));
}

/// The count is the length of the listing, for every filter whose limit does
/// not cut the listing short.
pub proof fn lemma_count_is_length_of_listing(rows: Seq<MemeView>, filter: MemeOptionsView)
    requires
        counted(rows, filter) <= limit_of(filter),
    ensures
        listed(rows, filter).len() == counted(rows, filter),
        listed(rows, filter) == matching(rows, filter),
{
}

/// The limit and nothing else separates the count from the length of the
/// listing: the listing holds the smaller of the count and the limit.
pub proof fn lemma_listing_length(rows: Seq<MemeView>, filter: MemeOptionsView)
    requires
        limit_of(filter) >= 0,
    ensures
        listed(rows, filter).len() == if counted(rows, filter) <= limit_of(filter) {
            counted(rows, filter) as int
        } else {
            limit_of(filter)
        },
{
}

/// Round trip: a row that is appended under the next id is found under that
/// id, as it was appended.
pub proof fn lemma_inserted_is_found(rows: Seq<MemeView>, row: MemeView)
    requires
        ascending_ids(rows),
        row.id == next_id(rows),
    ensures
        found(rows.push(row), row.id) == Some(row),
        ascending_ids(rows.push(row)),
{
    let keep = with_id(row.id);
    assert forall|i: int| 0 <= i < rows.len() implies !keep(#[trigger] rows[i]) by {
        if i < rows.len() - 1 {
            assert(rows[i].id < rows[rows.len() - 1].id);
        }
    }
    lemma_filter_none(rows, keep);
    lemma_filter_push(rows, row, keep);
    assert(rows.push(row).filter(keep) =~= seq![row]);
    assert forall|i: int, j: int| 0 <= i < j < rows.push(row).len() implies rows.push(row)[i].id
        < rows.push(row)[j].id by {
        if j == rows.len() {
            if i < rows.len() - 1 {
                assert(rows[i].id < rows[rows.len() - 1].id);
            }
        }
    }
}

/// A row is found under its id, and under no id that no row has.
pub proof fn lemma_found(rows: Seq<MemeView>, id: int)
    requires
        ascending_ids(rows),
    ensures
        found(rows, id) matches Some(row) ==> row.id == id && rows.contains(row),
        found(rows, id) is None <==> forall|i: int| 0 <= i < rows.len() ==> rows[i].id != id,
{
    let keep = with_id(id);
    lemma_filter_positions(rows, keep);
    let hits = rows.filter(keep);
    if hits.len() > 0 {
        assert(has_source(rows, keep, 0));
        let i = choose|i: int| stems_from(rows, keep, 0, i);
        assert(rows[i].id == id);
        assert(hits[0] == rows[i]);
    } else {
        assert forall|i: int| 0 <= i < rows.len() implies rows[i].id != id by {
            if rows[i].id == id {
                lemma_filter_keeps(rows, keep, i);
            }
        }
    }
}

/// Where the row stands that is resolved for an uploader and a file name.
pub fn find_latest(rows: &Vec<Meme>, userid: &String, filename: &String) -> (r: Option<usize>)
    ensures
        match r {
            Some(at) => at < rows.len() && latest(rows.deep_view(), userid@, filename@) == Some(
                rows[at as int]@,
            ),
            None => latest(rows.deep_view(), userid@, filename@) is None,
        },
{
    let ghost views = rows.deep_view();
    let mut best: Option<usize> = None;
    let mut i: usize = 0;
    while i < rows.len()
        invariant
            i <= rows.len(),
            views == rows.deep_view(),
            match best {
                Some(at) => at < i && latest(views.take(i as int), userid@, filename@) == Some(
                    views[at as int],
                ),
                None => latest(views.take(i as int), userid@, filename@) is None,
            },
        decreases rows.len() - i,
    {
        proof {
            assert(views.take(i + 1).drop_last() =~= views.take(i as int));
            assert(views.take(i + 1).last() == rows[i as int]@);
        }
        if same_text(&rows[i].userid, userid) && same_text(&rows[i].filename, filename) {
            let newer = match best {
                Some(at) => rows[at].id <= rows[i].id,
                None => true,
            };
            if newer {
                best = Some(i);
            }
        }
        i = i + 1;
    }
    assert(views.take(i as int) =~= views);
    best
}

} // verus!
