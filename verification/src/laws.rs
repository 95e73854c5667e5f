use crate::apply::{
    advances, apply_update, begins, concludes, reading_concludes, refusal, sendable, ApplyAction,
    ApplyEvent, ApplyStage,
};
use crate::error::{same_result, DataLayerError};
use crate::quota::{
    find_many, find_one, found_row_maps_to, row_fails_with, row_usable, rows_map_to,
    ProviderQuotaRow,
};
use crate::sql::{decimal, digit, SqlValueView};
use crate::text::{is_blank_text, is_white_space, trimmed, trimmed_is_empty_iff_blank};
use crate::types::{
    wrapped, ApplyRemoteProviderQuotaOutcome, ApplyRemoteProviderQuotaPatch,
    StoredProviderQuotaSnapshot, UNAPPLIED_WITHOUT_NEWER_WINDOW,
};
use vstd::prelude::*;

verus! {

/// The row holds the values that the update of a patch binds, and a usage that
/// the update can leave behind.
pub open spec fn holds_patch(row: ProviderQuotaRow, patch: ApplyRemoteProviderQuotaPatch) -> bool {
    let binds = apply_update(patch).binds;
    &&& binds[1] == SqlValueView::Text(row.billing_type@)
    &&& binds[2] == SqlValueView::OptionalDouble(row.monthly_quota_usd)
    &&& row.quota_last_reset_at_unix_secs matches Some(start) && binds[3] == SqlValueView::BigInt(
        start,
    )
    &&& binds[6] == SqlValueView::OptionalInt(row.quota_reset_day)
    &&& binds[7] == SqlValueView::OptionalBigInt(row.quota_expires_at_unix_secs)
    &&& row.monthly_used_usd.finite()
    &&& patch.preserve_local_used_usd || row.monthly_used_usd.reaches(
        patch.remote_monthly_used_usd,
    )
}

/// A time that is bound, and stored as it was bound, reads back unchanged.
pub proof fn written_time_reads_back(secs: u64)
    requires
        secs <= i64::MAX,
    ensures
        wrapped((secs as i64) as int) == secs,
{
}

/// What a patch wrote reads back as applied: a row that holds the bound values
/// carries every state field of the patch, and the patch is reported as applied
/// with that row, whether the update matched it or not.
pub proof fn written_row_reads_back_as_applied(
    patch: ApplyRemoteProviderQuotaPatch,
    row: ProviderQuotaRow,
    rows_affected: u64,
    r: Result<ApplyRemoteProviderQuotaOutcome, DataLayerError>,
)
    requires
        sendable(patch),
        holds_patch(row, patch),
        !is_blank_text(row.provider_id@),
        reading_concludes(patch, rows_affected, Ok(Some(row)), r),
    ensures
        ApplyRemoteProviderQuotaOutcome::same_state(row.snapshot(), patch),
        r == Ok::<_, DataLayerError>(ApplyRemoteProviderQuotaOutcome::Applied(row.snapshot())),
{
    supported_billing_type_is_not_blank(patch);
    written_time_reads_back(patch.remote_window_start_unix_secs);
}

/// A patch that is valid names its billing type.
pub proof fn supported_billing_type_is_not_blank(patch: ApplyRemoteProviderQuotaPatch)
    requires
        patch.valid(),
    ensures
        !is_blank_text(patch.billing_type@),
{
    reveal_strlit("monthly_quota");
    reveal_strlit("pay_as_you_go");
    assert(!is_white_space(patch.billing_type@[0]));
}

/// An update that matched no row is reported as applied only where the stored
/// row already holds every state field of the patch, its usage has kept up, and
/// its window is not newer.
pub proof fn unapplied_update_looks_applied_only_if_it_is(
    patch: ApplyRemoteProviderQuotaPatch,
    stored: Option<StoredProviderQuotaSnapshot>,
    snapshot: StoredProviderQuotaSnapshot,
)
    requires
        concludes(patch, 0, stored, Ok(ApplyRemoteProviderQuotaOutcome::Applied(snapshot))),
    ensures
        stored == Some(snapshot),
        ApplyRemoteProviderQuotaOutcome::same_state(snapshot, patch),
        ApplyRemoteProviderQuotaOutcome::usage_kept_up(snapshot, patch),
        !ApplyRemoteProviderQuotaOutcome::is_stale(snapshot, patch),
{
}

/// An update that matched no row, over a row that is neither newer nor already
/// what the patch asks for, is a failure.
pub proof fn unapplied_update_over_older_row_fails(
    patch: ApplyRemoteProviderQuotaPatch,
    snapshot: StoredProviderQuotaSnapshot,
    r: Result<ApplyRemoteProviderQuotaOutcome, DataLayerError>,
)
    requires
        !ApplyRemoteProviderQuotaOutcome::is_stale(snapshot, patch),
        !ApplyRemoteProviderQuotaOutcome::already_applied(snapshot, patch),
        concludes(patch, 0, Some(snapshot), r),
    ensures
        r matches Err(error) && error.is_unexpected_value(UNAPPLIED_WITHOUT_NEWER_WINDOW@),
{
}

/// A patch has one outcome: the same rows give the same one, or the same error.
pub proof fn outcome_is_unique(
    patch: ApplyRemoteProviderQuotaPatch,
    rows_affected: u64,
    stored: Option<StoredProviderQuotaSnapshot>,
    r1: Result<ApplyRemoteProviderQuotaOutcome, DataLayerError>,
    r2: Result<ApplyRemoteProviderQuotaOutcome, DataLayerError>,
)
    requires
        concludes(patch, rows_affected, stored, r1),
        concludes(patch, rows_affected, stored, r2),
    ensures
        same_result(r1, r2),
{
}

/// A row that makes a patch stale makes every patch stale whose window ends no
/// later.
pub proof fn stale_for_older_windows_too(
    snapshot: StoredProviderQuotaSnapshot,
    patch: ApplyRemoteProviderQuotaPatch,
    older: ApplyRemoteProviderQuotaPatch,
)
    requires
        ApplyRemoteProviderQuotaOutcome::is_stale(snapshot, patch),
        older.remote_window_end_unix_secs <= patch.remote_window_end_unix_secs,
    ensures
        ApplyRemoteProviderQuotaOutcome::is_stale(snapshot, older),
{
}

/// A row that already holds a valid patch is never stale for it.
pub proof fn applied_row_is_not_stale(
    snapshot: StoredProviderQuotaSnapshot,
    patch: ApplyRemoteProviderQuotaPatch,
)
    requires
        patch.valid(),
        ApplyRemoteProviderQuotaOutcome::already_applied(snapshot, patch),
    ensures
        !ApplyRemoteProviderQuotaOutcome::is_stale(snapshot, patch),
{
}

/// A row that already holds a patch also holds the same patch with a lower
/// reported usage.
pub proof fn applied_for_lower_usage_too(
    snapshot: StoredProviderQuotaSnapshot,
    patch: ApplyRemoteProviderQuotaPatch,
    lower: ApplyRemoteProviderQuotaPatch,
)
    requires
        ApplyRemoteProviderQuotaOutcome::already_applied(snapshot, patch),
        patch.remote_monthly_used_usd.reaches(lower.remote_monthly_used_usd),
        lower == (ApplyRemoteProviderQuotaPatch {
            remote_monthly_used_usd: lower.remote_monthly_used_usd,
            ..patch
        }),
    ensures
        ApplyRemoteProviderQuotaOutcome::already_applied(snapshot, lower),
{
}

/// Every snapshot that an outcome carries is well-formed, and is the one of the
/// row that was read.
pub proof fn outcomes_carry_well_formed_snapshots(
    patch: ApplyRemoteProviderQuotaPatch,
    rows_affected: u64,
    found: Result<Option<ProviderQuotaRow>, DataLayerError>,
    r: Result<ApplyRemoteProviderQuotaOutcome, DataLayerError>,
)
    requires
        reading_concludes(patch, rows_affected, found, r),
    ensures
        r matches Ok(ApplyRemoteProviderQuotaOutcome::Applied(snapshot)) ==> snapshot.well_formed()
            && (found matches Ok(Some(row)) && snapshot == row.snapshot()),
        r matches Ok(ApplyRemoteProviderQuotaOutcome::StaleWindow(snapshot))
            ==> snapshot.well_formed() && (found matches Ok(Some(row)) && snapshot
            == row.snapshot()),
        r matches Ok(ApplyRemoteProviderQuotaOutcome::ProviderNotFound) ==> found
            == Ok::<_, DataLayerError>(None::<ProviderQuotaRow>),
{
}

/// A patch that is refused sends nothing to the database, and says why.
pub proof fn refused_patch_sends_nothing(
    patch: ApplyRemoteProviderQuotaPatch,
    next: (ApplyStage, ApplyAction),
)
    requires
        !sendable(patch),
        begins(patch, next),
    ensures
        next.0 == ApplyStage::Finished,
        next.1 matches ApplyAction::Finish(Err(error)) && error.is_invalid_input(refusal(patch)),
{
}

/// The writing of a patch is over after the database has answered twice at
/// most: once to the update, once to the query.
pub proof fn writing_ends_after_two_answers(
    patch: ApplyRemoteProviderQuotaPatch,
    first: (ApplyStage, ApplyAction),
    updated: ApplyEvent,
    second: (ApplyStage, ApplyAction),
    found: ApplyEvent,
    third: (ApplyStage, ApplyAction),
)
    requires
        begins(patch, first),
        first.0.awaits(updated) ==> advances(patch, first.0, updated, second),
        first.0.awaits(updated) && second.0.awaits(found) ==> advances(
            patch,
            second.0,
            found,
            third,
        ),
    ensures
        !(first.1 is Finish) ==> first.1 is Update && first.0 == ApplyStage::Updating,
        first.0.awaits(updated) && !(second.1 is Finish) ==> second.1 is Find && second.0 is Reading,
        first.0.awaits(updated) && second.0.awaits(found) ==> third.1 is Finish && third.0
            == ApplyStage::Finished,
{
}

/// `r` is what the writing of a patch comes to when the database answers the
/// update with `updated` and the query with `found`.
pub open spec fn writing_comes_to(
    patch: ApplyRemoteProviderQuotaPatch,
    updated: Result<u64, DataLayerError>,
    found: Result<Option<ProviderQuotaRow>, DataLayerError>,
    r: Result<ApplyRemoteProviderQuotaOutcome, DataLayerError>,
) -> bool {
    if !sendable(patch) {
        r matches Err(error) && error.is_invalid_input(refusal(patch))
    } else {
        match updated {
            Err(error) => r == Err::<ApplyRemoteProviderQuotaOutcome, _>(error),
            Ok(rows_affected) => reading_concludes(patch, rows_affected, found, r),
        }
    }
}

/// Whichever step hands the result over, it is the one that the answers of the
/// database come to.
pub proof fn steps_hand_over_the_result(
    patch: ApplyRemoteProviderQuotaPatch,
    updated: Result<u64, DataLayerError>,
    found: Result<Option<ProviderQuotaRow>, DataLayerError>,
    first: (ApplyStage, ApplyAction),
    second: (ApplyStage, ApplyAction),
    third: (ApplyStage, ApplyAction),
)
    requires
        begins(patch, first),
        first.0 is Updating ==> advances(patch, first.0, ApplyEvent::Updated(updated), second),
        first.0 is Updating && second.0 is Reading ==> advances(
            patch,
            second.0,
            ApplyEvent::Found(found),
            third,
        ),
    ensures
        first.1 matches ApplyAction::Finish(r) ==> writing_comes_to(patch, updated, found, r),
        first.0 is Updating ==> (second.1 matches ApplyAction::Finish(r) ==> writing_comes_to(
            patch,
            updated,
            found,
            r,
        )),
        first.0 is Updating && second.0 is Reading ==> (third.1 matches ApplyAction::Finish(r)
            && writing_comes_to(patch, updated, found, r)),
{
}

/// Writing one patch twice ends alike both times where the database answers
/// alike.
pub proof fn equal_answers_give_equal_results(
    patch: ApplyRemoteProviderQuotaPatch,
    updated: Result<u64, DataLayerError>,
    found: Result<Option<ProviderQuotaRow>, DataLayerError>,
    r1: Result<ApplyRemoteProviderQuotaOutcome, DataLayerError>,
    r2: Result<ApplyRemoteProviderQuotaOutcome, DataLayerError>,
)
    requires
        writing_comes_to(patch, updated, found, r1),
        writing_comes_to(patch, updated, found, r2),
    ensures
        same_result(r1, r2),
{
}

/// Writing one patch twice ends alike both times where both find a row that
/// holds the patch, whatever number of rows each of them matched: both report
/// that row's snapshot as applied.
pub proof fn patch_that_is_held_is_applied_again(
    patch: ApplyRemoteProviderQuotaPatch,
    row: ProviderQuotaRow,
    rows1: u64,
    rows2: u64,
    r1: Result<ApplyRemoteProviderQuotaOutcome, DataLayerError>,
    r2: Result<ApplyRemoteProviderQuotaOutcome, DataLayerError>,
)
    requires
        sendable(patch),
        holds_patch(row, patch),
        !is_blank_text(row.provider_id@),
        writing_comes_to(patch, Ok(rows1), Ok(Some(row)), r1),
        writing_comes_to(patch, Ok(rows2), Ok(Some(row)), r2),
    ensures
        r1 == Ok::<_, DataLayerError>(ApplyRemoteProviderQuotaOutcome::Applied(row.snapshot())),
        r2 == r1,
{
    written_row_reads_back_as_applied(patch, row, rows1, r1);
    written_row_reads_back_as_applied(patch, row, rows2, r2);
}

/// Equal rows give equal snapshots, or the same error.
pub proof fn equal_rows_map_alike(
    rows: Seq<Result<ProviderQuotaRow, DataLayerError>>,
    r1: Result<Vec<StoredProviderQuotaSnapshot>, DataLayerError>,
    r2: Result<Vec<StoredProviderQuotaSnapshot>, DataLayerError>,
)
    requires
        rows_map_to(rows, r1),
        rows_map_to(rows, r2),
    ensures
        match (r1, r2) {
            (Ok(snapshots1), Ok(snapshots2)) => snapshots1@ == snapshots2@,
            (Err(error1), Err(error2)) => error1.same_error(error2),
            _ => false,
        },
{
    if r1 is Err && r2 is Err {
        let (e1, e2) = (r1->Err_0, r2->Err_0);
        let i1 = choose|i: int|
            {
                &&& 0 <= i < rows.len()
                &&& forall|j: int| 0 <= j < i ==> row_usable(#[trigger] rows[j])
                &&& !row_usable(#[trigger] rows[i])
                &&& row_fails_with(rows[i], e1)
            };
        let i2 = choose|i: int|
            {
                &&& 0 <= i < rows.len()
                &&& forall|j: int| 0 <= j < i ==> row_usable(#[trigger] rows[j])
                &&& !row_usable(#[trigger] rows[i])
                &&& row_fails_with(rows[i], e2)
            };
        assert(i1 == i2);
    }
}

/// Each snapshot of a lookup of several rows is the one that a lookup of its row
/// alone gives.
pub proof fn each_snapshot_is_that_of_its_row(
    rows: Seq<Result<ProviderQuotaRow, DataLayerError>>,
    snapshots: Vec<StoredProviderQuotaSnapshot>,
    i: int,
    r: Result<Option<StoredProviderQuotaSnapshot>, DataLayerError>,
)
    requires
        rows_map_to(rows, Ok(snapshots)),
        0 <= i < rows.len(),
        found_row_maps_to(Ok(Some(rows[i]->Ok_0)), r),
    ensures
        snapshots@.len() == rows.len(),
        r == Ok::<_, DataLayerError>(Some(snapshots@[i])),
{
    assert(row_usable(rows[i]));
}

/// The update of a patch, and the query after it, address the same provider: the
/// patch's id without white space around it, which is never empty.
pub proof fn update_and_query_name_one_provider(patch: ApplyRemoteProviderQuotaPatch)
    requires
        sendable(patch),
    ensures
        apply_update(patch).binds[0] == SqlValueView::Text(trimmed(patch.provider_id@)),
        find_one(trimmed(patch.provider_id@)).binds[0] == apply_update(patch).binds[0],
        trimmed(patch.provider_id@).len() > 0,
{
    trimmed_is_empty_iff_blank(patch.provider_id@);
}

/// The value of a text of decimal digits.
pub open spec fn decimal_value(text: Seq<char>) -> int
    decreases text.len(),
{
    if text.len() == 0 {
        0
    } else {
        10 * decimal_value(text.drop_last()) + (text.last() as int - '0' as int)
    }
}

/// A number reads back from its decimal text.
pub proof fn decimal_reads_back(n: nat)
    ensures
        decimal_value(decimal(n)) == n,
    decreases n,
{
    reveal_strlit("0123456789");
    let last = (n % 10) as int;
    assert(digit(last)[0] as int - '0' as int == last);
    if n < 10 {
        assert(decimal(n).drop_last() == Seq::<char>::empty());
        reveal_with_fuel(decimal_value, 2);
    } else {
        decimal_reads_back(n / 10);
        assert(decimal(n).drop_last() == decimal(n / 10));
        assert(decimal(n).last() == digit(last)[0]);
    }
}

/// No two placeholders of a statement are written alike.
pub proof fn placeholders_differ(m: nat, n: nat)
    requires
        m != n,
    ensures
        decimal(m) != decimal(n),
{
    decimal_reads_back(m);
    decimal_reads_back(n);
}

/// A query for several providers has one placeholder for each id, and binds the
/// ids in their order.
pub proof fn query_binds_every_id(provider_ids: Seq<String>, i: int)
    requires
        0 <= i < provider_ids.len(),
    ensures
        find_many(provider_ids).binds.len() == provider_ids.len(),
        find_many(provider_ids).binds[i] == SqlValueView::Text(provider_ids[i]@),
{
}

} // verus!
