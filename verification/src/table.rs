//! What follows where the database runs the statements of the repository as
//! their texts read: the table is a sequence of rows in the order of their ids,
//! no id occurs twice, and nobody else writes it.
//!
//! All of it takes for granted that a value reads back as it was bound. The
//! statements pass times through `double precision` and `TO_TIMESTAMP`, so this
//! is said of times below 2^53 seconds that lie within the database's range of
//! timestamps, and of amounts that the database stores without rounding.

use crate::apply::{apply_update, sendable};
use crate::error::{same_result, DataLayerError};
use crate::laws::{
    each_snapshot_is_that_of_its_row, equal_answers_give_equal_results, equal_rows_map_alike,
    holds_patch, writing_comes_to,
};
use crate::quota::{
    find_many, find_one, found_row_maps_to, reset_update, row_usable, rows_map_to,
    ProviderQuotaRow,
};
use crate::sql::{SqlStatementView, SqlValueView};
use crate::text::trimmed;
use crate::types::{
    ApplyRemoteProviderQuotaOutcome, ApplyRemoteProviderQuotaPatch, StoredProviderQuotaSnapshot,
    MONTHLY_QUOTA,
};
use crate::usd::UsdAmount;
use vstd::prelude::*;
use vstd::seq_lib::seq_to_set_is_finite;
use vstd::set_lib::lemma_len_subset;

verus! {

/// The start of the row's window, where it has one, lies before the bound end
/// `$5`: the condition under which the update of a patch changes a row.
pub open spec fn update_matches(
    row: ProviderQuotaRow,
    patch: ApplyRemoteProviderQuotaPatch,
) -> bool {
    row.quota_last_reset_at_unix_secs matches Some(start) ==> start < apply_update(
        patch,
    ).binds[4]->BigInt_0
}

/// The row's window starts within the bound window, from `$4` to `$5`.
pub open spec fn in_window(row: ProviderQuotaRow, patch: ApplyRemoteProviderQuotaPatch) -> bool {
    let binds = apply_update(patch).binds;
    row.quota_last_reset_at_unix_secs matches Some(start) && binds[3]->BigInt_0 <= start
        < binds[4]->BigInt_0
}

/// The greater of two amounts. NaN counts as greater than every number.
pub open spec fn greatest(a: UsdAmount, b: UsdAmount) -> UsdAmount {
    if a.nan() || a.reaches(b) {
        a
    } else {
        b
    }
}

/// The usage that the update of a patch leaves in a row: `$6` says what is
/// reported, `$9` whether the local usage stays.
pub open spec fn updated_usage(
    row: ProviderQuotaRow,
    patch: ApplyRemoteProviderQuotaPatch,
) -> UsdAmount {
    let binds = apply_update(patch).binds;
    if binds[8]->Boolean_0 {
        row.monthly_used_usd
    } else if in_window(row, patch) {
        greatest(row.monthly_used_usd, binds[5]->Double_0)
    } else {
        binds[5]->Double_0
    }
}

/// The row that the update of a patch makes of a row that it matches, from the
/// values that it binds.
pub open spec fn updated_row(
    row: ProviderQuotaRow,
    patch: ApplyRemoteProviderQuotaPatch,
) -> ProviderQuotaRow {
    let binds = apply_update(patch).binds;
    ProviderQuotaRow {
        billing_type: choose|billing_type: String| billing_type@ == binds[1]->Text_0,
        monthly_quota_usd: binds[2]->OptionalDouble_0,
        monthly_used_usd: updated_usage(row, patch),
        quota_reset_day: binds[6]->OptionalInt_0,
        quota_last_reset_at_unix_secs: Some(binds[3]->BigInt_0),
        quota_expires_at_unix_secs: binds[7]->OptionalBigInt_0,
        ..row
    }
}

/// How many rows the update of a patch matches, where `stored` is the row of
/// the patch's provider.
pub open spec fn rows_matched(
    stored: Option<ProviderQuotaRow>,
    patch: ApplyRemoteProviderQuotaPatch,
) -> u64 {
    if stored matches Some(row) && update_matches(row, patch) {
        1
    } else {
        0
    }
}

/// The row of the patch's provider after the update.
pub open spec fn stored_after(
    stored: Option<ProviderQuotaRow>,
    patch: ApplyRemoteProviderQuotaPatch,
) -> Option<ProviderQuotaRow> {
    match stored {
        Some(row) => if update_matches(row, patch) {
            Some(updated_row(row, patch))
        } else {
            Some(row)
        },
        None => None,
    }
}

/// `r` is what the writing of a patch comes to over a stored row.
pub open spec fn written_over(
    stored: Option<ProviderQuotaRow>,
    patch: ApplyRemoteProviderQuotaPatch,
    r: Result<ApplyRemoteProviderQuotaOutcome, DataLayerError>,
) -> bool {
    writing_comes_to(
        patch,
        Ok(rows_matched(stored, patch)),
        Ok(stored_after(stored, patch)),
        r,
    )
}

/// The update of a patch leaves a row that holds the patch, and that it matches
/// and leaves as it is the next time.
pub proof fn updating_twice_is_updating_once(
    row: ProviderQuotaRow,
    patch: ApplyRemoteProviderQuotaPatch,
)
    requires
        sendable(patch),
    ensures
        update_matches(updated_row(row, patch), patch),
        updated_row(updated_row(row, patch), patch) == updated_row(row, patch),
        row.monthly_used_usd.finite() ==> holds_patch(updated_row(row, patch), patch),
{
}

/// Writing one patch twice is writing it once: the second time ends as the first
/// did, with the same snapshot or the same error, and changes no stored value.
pub proof fn writing_twice_is_writing_once(
    stored: Option<ProviderQuotaRow>,
    patch: ApplyRemoteProviderQuotaPatch,
    r1: Result<ApplyRemoteProviderQuotaOutcome, DataLayerError>,
    r2: Result<ApplyRemoteProviderQuotaOutcome, DataLayerError>,
)
    requires
        sendable(patch),
        written_over(stored, patch, r1),
        written_over(stored_after(stored, patch), patch, r2),
    ensures
        same_result(r1, r2),
        stored_after(stored_after(stored, patch), patch) == stored_after(stored, patch),
{
    if let Some(row) = stored {
        updating_twice_is_updating_once(row, patch);
    }
    equal_answers_give_equal_results(
        patch,
        Ok(rows_matched(stored, patch)),
        Ok(stored_after(stored, patch)),
        r1,
        r2,
    );
}

/// A row that the update does not match makes the patch stale, so that an update
/// of an existing provider fails for no other reason than a newer window.
pub proof fn unmatched_row_is_stale(
    row: ProviderQuotaRow,
    patch: ApplyRemoteProviderQuotaPatch,
    r: Result<ApplyRemoteProviderQuotaOutcome, DataLayerError>,
)
    requires
        sendable(patch),
        !update_matches(row, patch),
        row.snapshot().well_formed(),
        written_over(Some(row), patch, r),
    ensures
        r == Ok::<_, DataLayerError>(ApplyRemoteProviderQuotaOutcome::StaleWindow(row.snapshot())),
{
}

/// The update of a patch matches a row exactly where its window starts before the
/// end of the patch's one, and writes the patch: the row that it leaves carries the
/// patch's limit, billing type, window start, reset interval and expiry, keeps its
/// id and whether it is active, and has the usage that the patch reports or, where
/// the local usage is preserved, the one that it had. Only a greater usage of the
/// same window stands against the reported one.
pub proof fn updated_row_carries_the_patch(
    row: ProviderQuotaRow,
    patch: ApplyRemoteProviderQuotaPatch,
)
    requires
        sendable(patch),
    ensures
        update_matches(row, patch) <==> (row.quota_last_reset_at_unix_secs is None
            || row.quota_last_reset_at_unix_secs->0 < patch.remote_window_end_unix_secs),
        ({
            let after = updated_row(row, patch);
            let start = row.quota_last_reset_at_unix_secs;
            &&& after.provider_id == row.provider_id
            &&& after.is_active == row.is_active
            &&& after.billing_type@ == patch.billing_type@
            &&& after.monthly_quota_usd == patch.monthly_quota_usd
            &&& after.quota_last_reset_at_unix_secs is Some
            &&& after.quota_last_reset_at_unix_secs->0 == patch.remote_window_start_unix_secs
            &&& after.quota_reset_day is Some <==> patch.quota_reset_day is Some
            &&& patch.quota_reset_day is Some ==> after.quota_reset_day->0
                == patch.quota_reset_day->0
            &&& after.quota_expires_at_unix_secs is Some
                <==> patch.quota_expires_at_unix_secs is Some
            &&& patch.quota_expires_at_unix_secs is Some ==> after.quota_expires_at_unix_secs->0
                == patch.quota_expires_at_unix_secs->0
            &&& if patch.preserve_local_used_usd {
                after.monthly_used_usd == row.monthly_used_usd
            } else if start is Some && patch.remote_window_start_unix_secs <= start->0
                < patch.remote_window_end_unix_secs && row.monthly_used_usd.finite()
                && row.monthly_used_usd.value() >= patch.remote_monthly_used_usd.value() {
                after.monthly_used_usd == row.monthly_used_usd
            } else if row.monthly_used_usd.finite() {
                after.monthly_used_usd == patch.remote_monthly_used_usd
            } else {
                true
            }
        }),
{
    assert(patch.billing_type@ == apply_update(patch).binds[1]->Text_0);
}

/// Within one window the usage never falls, and reaches the reported one; with
/// the local usage preserved it stays as it is.
pub proof fn usage_never_falls_within_a_window(
    row: ProviderQuotaRow,
    patch: ApplyRemoteProviderQuotaPatch,
)
    requires
        patch.valid(),
        row.monthly_used_usd.finite(),
    ensures
        patch.preserve_local_used_usd ==> updated_usage(row, patch) == row.monthly_used_usd,
        in_window(row, patch) ==> updated_usage(row, patch).reaches(row.monthly_used_usd),
        !patch.preserve_local_used_usd ==> updated_usage(row, patch).reaches(
            patch.remote_monthly_used_usd,
        ),
{
}

/// The rows are equal, their usages as numbers.
pub open spec fn same_row(a: ProviderQuotaRow, b: ProviderQuotaRow) -> bool {
    &&& a == (ProviderQuotaRow { monthly_used_usd: a.monthly_used_usd, ..b })
    &&& a.monthly_used_usd.same_amount(b.monthly_used_usd)
}

/// Two reports for one window, which differ only in the usage, leave the same
/// row whichever comes first. Where they are not stale its usage is the greater
/// of both, or the greatest of both and the old one where the old window
/// started within theirs.
pub proof fn reports_for_one_window_commute(
    row: ProviderQuotaRow,
    p: ApplyRemoteProviderQuotaPatch,
    q: ApplyRemoteProviderQuotaPatch,
)
    requires
        sendable(p),
        sendable(q),
        q == (ApplyRemoteProviderQuotaPatch {
            remote_monthly_used_usd: q.remote_monthly_used_usd,
            ..p
        }),
        !p.preserve_local_used_usd,
        row.monthly_used_usd.finite(),
    ensures
        ({
            let p_then_q = stored_after(stored_after(Some(row), p), q);
            let q_then_p = stored_after(stored_after(Some(row), q), p);
            let reported = greatest(p.remote_monthly_used_usd, q.remote_monthly_used_usd);
            let usage = if in_window(row, p) {
                greatest(row.monthly_used_usd, reported)
            } else {
                reported
            };
            &&& p_then_q is Some && q_then_p is Some
            &&& same_row(p_then_q->0, q_then_p->0)
            &&& update_matches(row, p) ==> p_then_q->0.monthly_used_usd.same_amount(usage)
            &&& !update_matches(row, p) ==> p_then_q == Some(row)
        }),
{
}

/// No id occurs twice in the table.
pub open spec fn ids_differ(table: Seq<ProviderQuotaRow>) -> bool {
    forall|i: int, j: int|
        0 <= i < j < table.len() ==> (#[trigger] table[i]).provider_id@ != (
        #[trigger] table[j]).provider_id@
}

/// The id of the row is among the values that a statement binds.
pub open spec fn id_is_bound(statement: SqlStatementView) -> spec_fn(ProviderQuotaRow) -> bool {
    |row: ProviderQuotaRow| statement.binds.contains(SqlValueView::Text(row.provider_id@))
}

/// The rows of the table that a lookup reads: those whose id it binds, in their
/// order.
pub open spec fn rows_read(
    table: Seq<ProviderQuotaRow>,
    statement: SqlStatementView,
) -> Seq<ProviderQuotaRow> {
    table.filter(id_is_bound(statement))
}

/// The row that a lookup of one provider reads.
pub open spec fn row_read(
    table: Seq<ProviderQuotaRow>,
    statement: SqlStatementView,
) -> Option<ProviderQuotaRow> {
    let rows = rows_read(table, statement);
    if rows.len() == 0 {
        None
    } else {
        Some(rows[0])
    }
}

/// Rows that were all read without a failure.
pub open spec fn all_read(
    rows: Seq<ProviderQuotaRow>,
) -> Seq<Result<ProviderQuotaRow, DataLayerError>> {
    rows.map_values(|row: ProviderQuotaRow| Ok::<ProviderQuotaRow, DataLayerError>(row))
}

/// The id is among the ids that are looked up.
pub open spec fn is_asked_for(id: Seq<char>, provider_ids: Seq<String>) -> bool {
    exists|i: int| 0 <= i < provider_ids.len() && (#[trigger] provider_ids[i])@ == id
}

/// A lookup binds exactly the ids that are looked up.
proof fn bound_ids_are_those_asked_for(provider_ids: Seq<String>, id: Seq<char>)
    ensures
        find_many(provider_ids).binds.contains(SqlValueView::Text(id)) <==> is_asked_for(
            id,
            provider_ids,
        ),
{
    let binds = find_many(provider_ids).binds;
    if is_asked_for(id, provider_ids) {
        let i = choose|i: int| 0 <= i < provider_ids.len() && (#[trigger] provider_ids[i])@ == id;
        assert(binds[i] == SqlValueView::Text(id));
    }
    if binds.contains(SqlValueView::Text(id)) {
        let i = choose|i: int| 0 <= i < binds.len() && binds[i] == SqlValueView::Text(id);
        assert(provider_ids[i]@ == id);
    }
}

/// A filter keeps rows of the table, exactly those that pass.
proof fn filter_keeps_what_passes(
    table: Seq<ProviderQuotaRow>,
    passes: spec_fn(ProviderQuotaRow) -> bool,
    row: ProviderQuotaRow,
)
    ensures
        table.filter(passes).contains(row) <==> table.contains(row) && passes(row),
    decreases table.len(),
{
    reveal(Seq::filter);
    if table.len() > 0 {
        let (rest, last) = (table.drop_last(), table.last());
        filter_keeps_what_passes(rest, passes, row);
        assert(table == rest.push(last));
        let kept = rest.filter(passes);
        if rest.contains(row) {
            let i = choose|i: int| 0 <= i < rest.len() && rest[i] == row;
            assert(table[i] == row);
        }
        if table.contains(row) && row != last {
            let i = choose|i: int| 0 <= i < table.len() && table[i] == row;
            assert(rest[i] == row);
        }
        if table.contains(row) && row == last && passes(row) {
            assert(kept.push(last)[kept.len() as int] == row);
        }
        if kept.contains(row) {
            let i = choose|i: int| 0 <= i < kept.len() && kept[i] == row;
            assert(kept.push(last)[i] == row);
        }
        if kept.push(last).contains(row) && row != last {
            let i = choose|i: int|
                0 <= i < kept.push(last).len() && kept.push(last)[i] == row;
            assert(kept[i] == row);
        }
        assert(table[table.len() - 1] == last);
    }
}

/// A lookup depends on the set of ids alone: their order and repetitions change
/// nothing, neither in the rows that are read nor in the result.
pub proof fn lookup_depends_on_the_set_of_ids(
    table: Seq<ProviderQuotaRow>,
    ids1: Seq<String>,
    ids2: Seq<String>,
    r1: Result<Vec<StoredProviderQuotaSnapshot>, DataLayerError>,
    r2: Result<Vec<StoredProviderQuotaSnapshot>, DataLayerError>,
)
    requires
        forall|id: Seq<char>| is_asked_for(id, ids1) <==> is_asked_for(id, ids2),
        rows_map_to(all_read(rows_read(table, find_many(ids1))), r1),
        rows_map_to(all_read(rows_read(table, find_many(ids2))), r2),
    ensures
        rows_read(table, find_many(ids1)) == rows_read(table, find_many(ids2)),
        match (r1, r2) {
            (Ok(snapshots1), Ok(snapshots2)) => snapshots1@ == snapshots2@,
            (Err(error1), Err(error2)) => error1.same_error(error2),
            _ => false,
        },
{
    let (bound1, bound2) = (id_is_bound(find_many(ids1)), id_is_bound(find_many(ids2)));
    assert forall|row: ProviderQuotaRow| #[trigger] bound1(row) == bound2(row) by {
        bound_ids_are_those_asked_for(ids1, row.provider_id@);
        bound_ids_are_those_asked_for(ids2, row.provider_id@);
    }
    assert(bound1 =~= bound2);
    equal_rows_map_alike(all_read(rows_read(table, find_many(ids1))), r1, r2);
}

/// A lookup of no ids reads no row, which is why it is not sent.
pub proof fn lookup_of_no_ids_reads_nothing(table: Seq<ProviderQuotaRow>)
    ensures
        rows_read(table, find_many(Seq::<String>::empty())).len() == 0,
{
    let none = find_many(Seq::<String>::empty());
    let rows = rows_read(table, none);
    if rows.len() > 0 {
        filter_keeps_what_passes(table, id_is_bound(none), rows[0]);
        assert(rows.contains(rows[0]));
        assert(!none.binds.contains(SqlValueView::Text(rows[0].provider_id@)));
    }
}

/// A lookup of several ids agrees with lookups of each id alone: for an id that
/// is asked for, the snapshot with that id in the answer is the one that the
/// lookup of the id alone gives, and there is none exactly when that lookup
/// finds none.
pub proof fn lookup_agrees_with_single_lookups(
    table: Seq<ProviderQuotaRow>,
    provider_ids: Seq<String>,
    snapshots: Vec<StoredProviderQuotaSnapshot>,
    id: Seq<char>,
    single: Result<Option<StoredProviderQuotaSnapshot>, DataLayerError>,
    snapshot: StoredProviderQuotaSnapshot,
)
    requires
        ids_differ(table),
        is_asked_for(id, provider_ids),
        rows_map_to(all_read(rows_read(table, find_many(provider_ids))), Ok(snapshots)),
        found_row_maps_to(Ok(row_read(table, find_one(id))), single),
    ensures
        single is Ok,
        snapshots@.contains(snapshot) && snapshot.provider_id@ == id <==> single == Ok::<
            _,
            DataLayerError,
        >(Some(snapshot)),
{
    let many = rows_read(table, find_many(provider_ids));
    let read = all_read(many);
    let one = rows_read(table, find_one(id));
    let (in_many, in_one) = (id_is_bound(find_many(provider_ids)), id_is_bound(find_one(id)));
    bound_ids_are_those_asked_for(provider_ids, id);
    assert(find_one(id).binds[0] == SqlValueView::Text(id));
    if one.len() > 0 {
        // The row of the single lookup is among those of the other one.
        let row = one[0];
        filter_keeps_what_passes(table, in_one, row);
        filter_keeps_what_passes(table, in_many, row);
        assert(one.contains(row));
        assert(in_one(row));
        let b = choose|b: int|
            0 <= b < find_one(id).binds.len() && find_one(id).binds[b] == SqlValueView::Text(
                row.provider_id@,
            );
        assert(row.provider_id@ == id);
        assert(in_many(row));
        let i = choose|i: int| 0 <= i < many.len() && many[i] == row;
        each_snapshot_is_that_of_its_row(read, snapshots, i, single);
        assert(snapshots@.contains(row.snapshot()));
    }
    if snapshots@.contains(snapshot) && snapshot.provider_id@ == id {
        // The row of the snapshot is the one of the single lookup.
        let i = choose|i: int| 0 <= i < snapshots@.len() && snapshots@[i] == snapshot;
        assert(row_usable(read[i]));
        let row = many[i];
        assert(many.contains(row));
        filter_keeps_what_passes(table, in_many, row);
        filter_keeps_what_passes(table, in_one, row);
        assert(row.provider_id@ == id);
        assert(in_one(row));
        assert(one.contains(row));
        filter_keeps_what_passes(table, in_one, one[0]);
        assert(one.contains(one[0]));
        let a = choose|a: int| 0 <= a < table.len() && table[a] == row;
        let b = choose|b: int| 0 <= b < table.len() && table[b] == one[0];
        assert(a == b);
    }
}

/// A filter keeps what holds of every two rows, the earlier one first.
proof fn filter_keeps_order(
    table: Seq<ProviderQuotaRow>,
    passes: spec_fn(ProviderQuotaRow) -> bool,
    before: spec_fn(Seq<char>, Seq<char>) -> bool,
)
    requires
        ids_in_order(table, before),
    ensures
        ids_in_order(table.filter(passes), before),
    decreases table.len(),
{
    reveal(Seq::filter);
    if table.len() > 0 {
        let (rest, last) = (table.drop_last(), table.last());
        let kept = rest.filter(passes);
        assert(ids_in_order(rest, before)) by {
            assert forall|i: int, j: int| 0 <= i < j < rest.len() implies before(
                (#[trigger] rest[i]).provider_id@,
                (#[trigger] rest[j]).provider_id@,
            ) by {
                assert(rest[i] == table[i] && rest[j] == table[j]);
            }
        }
        filter_keeps_order(rest, passes, before);
        if passes(last) {
            let out = kept.push(last);
            assert forall|i: int, j: int| 0 <= i < j < out.len() implies before(
                (#[trigger] out[i]).provider_id@,
                (#[trigger] out[j]).provider_id@,
            ) by {
                assert(out[i] == kept[i]);
                if j < kept.len() {
                    assert(out[j] == kept[j]);
                } else {
                    assert(kept.contains(kept[i]));
                    filter_keeps_what_passes(rest, passes, kept[i]);
                    let k = choose|k: int| 0 <= k < rest.len() && rest[k] == kept[i];
                    assert(table[k] == out[i]);
                    assert(table[table.len() - 1] == out[j]);
                }
            }
        }
    }
}

/// Every two ids of the table stand in a relation, the earlier one first.
pub open spec fn ids_in_order(
    table: Seq<ProviderQuotaRow>,
    before: spec_fn(Seq<char>, Seq<char>) -> bool,
) -> bool {
    forall|i: int, j: int|
        0 <= i < j < table.len() ==> before(
            (#[trigger] table[i]).provider_id@,
            (#[trigger] table[j]).provider_id@,
        )
}

/// The answer to a lookup of several ids is in the order of the ids, however the
/// database orders them.
pub proof fn lookup_keeps_the_order_of_ids(
    table: Seq<ProviderQuotaRow>,
    before: spec_fn(Seq<char>, Seq<char>) -> bool,
    provider_ids: Seq<String>,
    snapshots: Vec<StoredProviderQuotaSnapshot>,
)
    requires
        ids_in_order(table, before),
        rows_map_to(all_read(rows_read(table, find_many(provider_ids))), Ok(snapshots)),
    ensures
        forall|i: int, j: int|
            0 <= i < j < snapshots@.len() ==> before(
                (#[trigger] snapshots@[i]).provider_id@,
                (#[trigger] snapshots@[j]).provider_id@,
            ),
{
    let rows = rows_read(table, find_many(provider_ids));
    filter_keeps_order(table, id_is_bound(find_many(provider_ids)), before);
    assert forall|i: int, j: int| 0 <= i < j < snapshots@.len() implies before(
        (#[trigger] snapshots@[i]).provider_id@,
        (#[trigger] snapshots@[j]).provider_id@,
    ) by {
        assert(snapshots@[i].provider_id == rows[i].provider_id);
        assert(snapshots@[j].provider_id == rows[j].provider_id);
    }
}

/// The answer to a lookup of several ids holds only ids that were asked for,
/// none of them twice, and is no longer than the list of ids.
pub proof fn lookup_repeats_no_id(
    table: Seq<ProviderQuotaRow>,
    provider_ids: Seq<String>,
    snapshots: Vec<StoredProviderQuotaSnapshot>,
)
    requires
        ids_differ(table),
        rows_map_to(all_read(rows_read(table, find_many(provider_ids))), Ok(snapshots)),
    ensures
        forall|i: int|
            0 <= i < snapshots@.len() ==> is_asked_for(
                (#[trigger] snapshots@[i]).provider_id@,
                provider_ids,
            ),
        forall|i: int, j: int|
            0 <= i < j < snapshots@.len() ==> (#[trigger] snapshots@[i]).provider_id@ != (
            #[trigger] snapshots@[j]).provider_id@,
        snapshots@.len() <= provider_ids.len(),
{
    let rows = rows_read(table, find_many(provider_ids));
    let in_many = id_is_bound(find_many(provider_ids));
    let differ = |a: Seq<char>, b: Seq<char>| a != b;
    lookup_keeps_the_order_of_ids(table, differ, provider_ids, snapshots);
    assert forall|i: int, j: int| 0 <= i < j < snapshots@.len() implies (
    #[trigger] snapshots@[i]).provider_id@ != (#[trigger] snapshots@[j]).provider_id@ by {
        assert(differ(snapshots@[i].provider_id@, snapshots@[j].provider_id@));
    }
    assert forall|i: int| 0 <= i < snapshots@.len() implies is_asked_for(
        (#[trigger] snapshots@[i]).provider_id@,
        provider_ids,
    ) by {
        assert(snapshots@[i].provider_id == rows[i].provider_id);
        assert(rows.contains(rows[i]));
        filter_keeps_what_passes(table, in_many, rows[i]);
        bound_ids_are_those_asked_for(provider_ids, rows[i].provider_id@);
    }
    let answered = snapshots@.map_values(|s: StoredProviderQuotaSnapshot| s.provider_id@);
    let asked = provider_ids.map_values(|id: String| id@);
    assert(answered.no_duplicates()) by {
        assert forall|i: int, j: int|
            0 <= i < answered.len() && 0 <= j < answered.len() && i
                != j implies answered[i] != answered[j] by {
            let (a, b) = (snapshots@[i], snapshots@[j]);
            assert(answered[i] == a.provider_id@ && answered[j] == b.provider_id@);
        }
    }
    assert(answered.to_set().subset_of(asked.to_set())) by {
        assert forall|id: Seq<char>| answered.to_set().contains(id) implies asked.to_set().contains(
            id,
        ) by {
            let i = choose|i: int| 0 <= i < answered.len() && answered[i] == id;
            assert(is_asked_for(snapshots@[i].provider_id@, provider_ids));
            let k = choose|k: int|
                0 <= k < provider_ids.len() && (#[trigger] provider_ids[k])@ == id;
            assert(asked[k] == id);
        }
    }
    answered.unique_seq_to_set();
    asked.lemma_cardinality_of_set();
    seq_to_set_is_finite(asked);
    lemma_len_subset(answered.to_set(), asked.to_set());
}

/// The row is the one that the update of a patch changes.
pub open spec fn is_updated(patch: ApplyRemoteProviderQuotaPatch) -> spec_fn(
    ProviderQuotaRow,
) -> bool {
    |row: ProviderQuotaRow|
        apply_update(patch).binds[0] == SqlValueView::Text(row.provider_id@) && update_matches(
            row,
            patch,
        )
}

/// The table after the update of a patch.
pub open spec fn table_after(
    table: Seq<ProviderQuotaRow>,
    patch: ApplyRemoteProviderQuotaPatch,
) -> Seq<ProviderQuotaRow> {
    table.map_values(
        |row: ProviderQuotaRow|
            if is_updated(patch)(row) {
                updated_row(row, patch)
            } else {
                row
            },
    )
}

/// `r` is what the writing of a patch to a table comes to.
pub open spec fn written_to(
    table: Seq<ProviderQuotaRow>,
    patch: ApplyRemoteProviderQuotaPatch,
    r: Result<ApplyRemoteProviderQuotaOutcome, DataLayerError>,
) -> bool {
    writing_comes_to(
        patch,
        Ok(table.filter(is_updated(patch)).len() as u64),
        Ok(row_read(table_after(table, patch), find_one(trimmed(patch.provider_id@)))),
        r,
    )
}

/// A lookup of one id reads the row with that id, where the table has one.
proof fn row_with_id_is_read(table: Seq<ProviderQuotaRow>, id: Seq<char>)
    requires
        ids_differ(table),
    ensures
        row_read(table, find_one(id)) matches Some(row) ==> table.contains(row)
            && row.provider_id@ == id,
        forall|i: int|
            0 <= i < table.len() && (#[trigger] table[i]).provider_id@ == id ==> row_read(
                table,
                find_one(id),
            ) == Some(table[i]),
{
    let rows = rows_read(table, find_one(id));
    let bound = id_is_bound(find_one(id));
    assert(find_one(id).binds[0] == SqlValueView::Text(id));
    if rows.len() > 0 {
        assert(rows.contains(rows[0]));
        filter_keeps_what_passes(table, bound, rows[0]);
    }
    assert forall|i: int| 0 <= i < table.len() && (#[trigger] table[i]).provider_id@
        == id implies row_read(table, find_one(id)) == Some(table[i]) by {
        assert(bound(table[i]));
        filter_keeps_what_passes(table, bound, table[i]);
        assert(rows.contains(table[i]));
        let k = choose|k: int| 0 <= k < table.len() && table[k] == rows[0];
        assert(table[k].provider_id@ == id);
        assert(k == i);
    }
}

/// A filter that passes nothing but one row of the table keeps one row at most.
proof fn filter_keeps_one_row(
    table: Seq<ProviderQuotaRow>,
    passes: spec_fn(ProviderQuotaRow) -> bool,
    id: Seq<char>,
)
    requires
        ids_differ(table),
        forall|row: ProviderQuotaRow| #[trigger] passes(row) ==> row.provider_id@ == id,
    ensures
        table.filter(passes).len() <= 1,
{
    let differ = |a: Seq<char>, b: Seq<char>| a != b;
    let rows = table.filter(passes);
    assert(ids_in_order(table, differ));
    filter_keeps_order(table, passes, differ);
    if rows.len() > 1 {
        let (a, b) = (rows[0], rows[1]);
        assert(rows.contains(a) && rows.contains(b));
        filter_keeps_what_passes(table, passes, a);
        filter_keeps_what_passes(table, passes, b);
        assert(passes(a) && passes(b));
        assert(differ(a.provider_id@, b.provider_id@));
    }
}

/// The update of a patch adds and removes no row, keeps every id, leaves the rows
/// of other providers as they are, and makes of its provider's row what is said
/// of that row alone: it matches as many rows, and the lookup after it reads
/// what the update makes of the row that a lookup before it reads.
pub proof fn update_changes_one_row(
    table: Seq<ProviderQuotaRow>,
    patch: ApplyRemoteProviderQuotaPatch,
)
    requires
        ids_differ(table),
    ensures
        ({
            let after = table_after(table, patch);
            let id = trimmed(patch.provider_id@);
            let stored = row_read(table, find_one(id));
            &&& after.len() == table.len()
            &&& ids_differ(after)
            &&& forall|i: int|
                0 <= i < table.len() && (#[trigger] table[i]).provider_id@ != id ==> after[i]
                    == table[i]
            &&& row_read(after, find_one(id)) == stored_after(stored, patch)
            &&& table.filter(is_updated(patch)).len() == rows_matched(stored, patch)
        }),
{
    let after = table_after(table, patch);
    let id = trimmed(patch.provider_id@);
    let stored = row_read(table, find_one(id));
    let changed = is_updated(patch);
    let rows = table.filter(changed);
    assert(apply_update(patch).binds[0] == SqlValueView::Text(id));
    assert forall|i: int| 0 <= i < table.len() implies (#[trigger] after[i]).provider_id
        == table[i].provider_id by {
        assert(after[i] == if changed(table[i]) {
            updated_row(table[i], patch)
        } else {
            table[i]
        });
    }
    assert(ids_differ(after)) by {
        assert forall|i: int, j: int| 0 <= i < j < after.len() implies (
        #[trigger] after[i]).provider_id@ != (#[trigger] after[j]).provider_id@ by {
            assert(table[i].provider_id@ != table[j].provider_id@);
        }
    }
    row_with_id_is_read(table, id);
    row_with_id_is_read(after, id);
    filter_keeps_one_row(table, changed, id);
    match stored {
        Some(row) => {
            let i = choose|i: int| 0 <= i < table.len() && table[i] == row;
            assert(after[i].provider_id@ == id);
            filter_keeps_what_passes(table, changed, row);
            if rows.len() > 0 {
                assert(rows.contains(rows[0]));
                filter_keeps_what_passes(table, changed, rows[0]);
                let k = choose|k: int| 0 <= k < table.len() && table[k] == rows[0];
                assert(table[k].provider_id@ == id);
            }
        },
        None => {
            if row_read(after, find_one(id)) is Some {
                let row = row_read(after, find_one(id))->0;
                let i = choose|i: int| 0 <= i < after.len() && after[i] == row;
                assert(table[i].provider_id@ == id);
            }
            if rows.len() > 0 {
                assert(rows.contains(rows[0]));
                filter_keeps_what_passes(table, changed, rows[0]);
                let k = choose|k: int| 0 <= k < table.len() && table[k] == rows[0];
                assert(table[k].provider_id@ == id);
            }
        },
    }
}

/// Writing one patch twice to a table is writing it once: the second time ends as
/// the first did, and changes no row.
pub proof fn writing_twice_leaves_the_table(
    table: Seq<ProviderQuotaRow>,
    patch: ApplyRemoteProviderQuotaPatch,
    r1: Result<ApplyRemoteProviderQuotaOutcome, DataLayerError>,
    r2: Result<ApplyRemoteProviderQuotaOutcome, DataLayerError>,
)
    requires
        sendable(patch),
        ids_differ(table),
        written_to(table, patch, r1),
        written_to(table_after(table, patch), patch, r2),
    ensures
        same_result(r1, r2),
        table_after(table_after(table, patch), patch) == table_after(table, patch),
{
    let after = table_after(table, patch);
    let stored = row_read(table, find_one(trimmed(patch.provider_id@)));
    update_changes_one_row(table, patch);
    update_changes_one_row(after, patch);
    writing_twice_is_writing_once(stored, patch, r1, r2);
    assert forall|i: int| 0 <= i < table.len() implies #[trigger] table_after(after, patch)[i]
        == after[i] by {
        updating_twice_is_updating_once(table[i], patch);
    }
    assert(table_after(after, patch) =~= after);
}

/// Two reports for one window, which differ only in the usage, leave the same
/// table whichever comes first, the usage of their provider compared as a number.
pub proof fn reports_for_one_window_commute_in_the_table(
    table: Seq<ProviderQuotaRow>,
    p: ApplyRemoteProviderQuotaPatch,
    q: ApplyRemoteProviderQuotaPatch,
    i: int,
)
    requires
        sendable(p),
        sendable(q),
        q == (ApplyRemoteProviderQuotaPatch {
            remote_monthly_used_usd: q.remote_monthly_used_usd,
            ..p
        }),
        !p.preserve_local_used_usd,
        0 <= i < table.len(),
        table[i].monthly_used_usd.finite(),
    ensures
        table_after(table_after(table, p), q).len() == table_after(table_after(table, q), p).len(),
        same_row(table_after(table_after(table, p), q)[i], table_after(table_after(table, q), p)[i]),
{
    let row = table[i];
    assert(is_updated(p)(row) == is_updated(q)(row));
    if is_updated(p)(row) {
        updating_twice_is_updating_once(row, p);
        updating_twice_is_updating_once(row, q);
        reports_for_one_window_commute(row, p, q);
    }
}

/// The seconds of a day.
pub const DAY_SECS: i64 = 86_400;

/// The provider gets a new quota window at a time: it is active, has a monthly
/// quota, and either had no window so far or its reset interval has passed.
pub open spec fn due(row: ProviderQuotaRow, now_unix_secs: u64) -> bool {
    &&& row.billing_type@ == MONTHLY_QUOTA@
    &&& row.is_active
    &&& row.quota_last_reset_at_unix_secs matches Some(last) ==> (
    row.quota_reset_day matches Some(days) && now_unix_secs - last >= days * DAY_SECS)
}

/// The row of a provider after a reset: its usage is zero and its window starts
/// at the time that the reset binds.
pub open spec fn reset_row(row: ProviderQuotaRow, now_unix_secs: u64) -> ProviderQuotaRow {
    ProviderQuotaRow {
        monthly_used_usd: UsdAmount { bits: 0 },
        quota_last_reset_at_unix_secs: match reset_update(now_unix_secs).binds[0] {
            SqlValueView::BigInt(now) => Some(now),
            _ => None,
        },
        ..row
    }
}

/// The table after a reset.
pub open spec fn after_reset(
    table: Seq<ProviderQuotaRow>,
    now_unix_secs: u64,
) -> Seq<ProviderQuotaRow> {
    table.map_values(
        |row: ProviderQuotaRow|
            if due(row, now_unix_secs) {
                reset_row(row, now_unix_secs)
            } else {
                row
            },
    )
}

/// How many rows a reset changes.
pub open spec fn rows_reset(table: Seq<ProviderQuotaRow>, now_unix_secs: u64) -> nat {
    table.filter(|row: ProviderQuotaRow| due(row, now_unix_secs)).len()
}

/// A reset adds and removes no row. A provider that is due starts a new window
/// with nothing used and keeps the rest; every other row stays as it is.
pub proof fn reset_changes_due_rows(table: Seq<ProviderQuotaRow>, now_unix_secs: u64, i: int)
    requires
        now_unix_secs <= i64::MAX,
        0 <= i < table.len(),
    ensures
        after_reset(table, now_unix_secs).len() == table.len(),
        !due(table[i], now_unix_secs) ==> after_reset(table, now_unix_secs)[i] == table[i],
        due(table[i], now_unix_secs) ==> ({
            let row = after_reset(table, now_unix_secs)[i];
            &&& row.monthly_used_usd.value() == 0 && row.monthly_used_usd.finite()
            &&& row.quota_last_reset_at_unix_secs == Some(now_unix_secs as i64)
            &&& row == (ProviderQuotaRow {
                monthly_used_usd: row.monthly_used_usd,
                quota_last_reset_at_unix_secs: row.quota_last_reset_at_unix_secs,
                ..table[i]
            })
        }),
{
}

/// Resetting twice at one time is resetting once: the second reset matches no
/// row and changes none, where every reset interval is a day at least.
pub proof fn resetting_twice_is_resetting_once(table: Seq<ProviderQuotaRow>, now_unix_secs: u64)
    requires
        now_unix_secs <= i64::MAX,
        forall|i: int|
            0 <= i < table.len() ==> ((#[trigger] table[i]).quota_reset_day matches Some(days)
                ==> days >= 1),
    ensures
        after_reset(after_reset(table, now_unix_secs), now_unix_secs) == after_reset(
            table,
            now_unix_secs,
        ),
        rows_reset(after_reset(table, now_unix_secs), now_unix_secs) == 0,
{
    let after = after_reset(table, now_unix_secs);
    let is_due = |row: ProviderQuotaRow| due(row, now_unix_secs);
    assert forall|i: int| 0 <= i < after.len() implies !due(#[trigger] after[i], now_unix_secs) by {
        if due(table[i], now_unix_secs) {
            assert(after[i] == reset_row(table[i], now_unix_secs));
        }
    }
    assert(after_reset(after, now_unix_secs) =~= after);
    let rows = after.filter(is_due);
    if rows.len() > 0 {
        assert(rows.contains(rows[0]));
        filter_keeps_what_passes(after, is_due, rows[0]);
        let i = choose|i: int| 0 <= i < after.len() && after[i] == rows[0];
        assert(!due(after[i], now_unix_secs));
    }
}

} // verus!
