//! What each operation promises its callers, in terms of what it is given and
//! what it hands back: how its result relates to the fields of its arguments, and
//! how two calls relate.

use crate::apply::{
    advance_apply, apply_statement, begin_apply, conclude_apply, ApplyAction, ApplyEvent,
    ApplyStage,
};
use crate::error::DataLayerError;
use crate::laws::{decimal_reads_back, decimal_value};
use crate::quota::{
    find_by_provider_ids_statement, map_found_row, map_row, map_rows, reset_due_statement,
    row_fails_with, row_usable, rows_map_to, ProviderQuotaRow,
};
use crate::sql::{
    column_list, decimal, to_decimal, to_placeholder_list, SelectColumn, SqlDialect, SqlStatement,
    SqlValue,
};
use crate::text::is_white_space;
use crate::types::{
    ApplyRemoteProviderQuotaOutcome, ApplyRemoteProviderQuotaPatch, StoredProviderQuotaSnapshot,
};
use crate::usd::UsdAmount;
use vstd::prelude::*;

verus! {

/// Validity judges each amount alone. A valid patch stays valid with any other
/// finite usage from zero on, and with any other such limit in place of its
/// limit: the usage is never compared with the limit.
pub proof fn validity_judges_each_amount_alone(
    patch: ApplyRemoteProviderQuotaPatch,
    amount: UsdAmount,
    r: Result<(), DataLayerError>,
    with_usage: Result<(), DataLayerError>,
    with_limit: Result<(), DataLayerError>,
)
    requires
        call_ensures(ApplyRemoteProviderQuotaPatch::validate, (&patch,), r),
        r is Ok,
        amount.finite(),
        amount.value() >= 0,
        call_ensures(
            ApplyRemoteProviderQuotaPatch::validate,
            (&ApplyRemoteProviderQuotaPatch { remote_monthly_used_usd: amount, ..patch },),
            with_usage,
        ),
        call_ensures(
            ApplyRemoteProviderQuotaPatch::validate,
            (&ApplyRemoteProviderQuotaPatch { monthly_quota_usd: Some(amount), ..patch },),
            with_limit,
        ),
    ensures
        with_usage is Ok,
        patch.monthly_quota_usd is Some ==> with_limit is Ok,
        patch.monthly_quota_usd is None ==> with_limit is Err,
{
}

/// Validity judges the id, the usage, the window and the reset interval apart from
/// each other and from the billing type: valid patches can be mixed. The expiry
/// and the flag that preserves usage are not judged at all.
pub proof fn valid_patches_can_be_mixed(
    p: ApplyRemoteProviderQuotaPatch,
    q: ApplyRemoteProviderQuotaPatch,
    window: ApplyRemoteProviderQuotaPatch,
    expiry: Option<u64>,
    preserve: bool,
    rp: Result<(), DataLayerError>,
    rq: Result<(), DataLayerError>,
    rw: Result<(), DataLayerError>,
    mixed: Result<(), DataLayerError>,
)
    requires
        call_ensures(ApplyRemoteProviderQuotaPatch::validate, (&p,), rp),
        call_ensures(ApplyRemoteProviderQuotaPatch::validate, (&q,), rq),
        call_ensures(ApplyRemoteProviderQuotaPatch::validate, (&window,), rw),
        rp is Ok,
        rq is Ok,
        rw is Ok,
        call_ensures(
            ApplyRemoteProviderQuotaPatch::validate,
            (&ApplyRemoteProviderQuotaPatch {
                provider_id: q.provider_id,
                billing_type: p.billing_type,
                monthly_quota_usd: p.monthly_quota_usd,
                remote_monthly_used_usd: window.remote_monthly_used_usd,
                remote_window_start_unix_secs: window.remote_window_start_unix_secs,
                remote_window_end_unix_secs: window.remote_window_end_unix_secs,
                quota_reset_day: q.quota_reset_day,
                quota_expires_at_unix_secs: expiry,
                preserve_local_used_usd: preserve,
            },),
            mixed,
        ),
    ensures
        mixed is Ok,
{
}

/// A valid patch stays valid with another id that is not blank, with any other
/// window that ends after it starts and starts after the epoch, and with no reset
/// interval or one of a day to a year.
pub proof fn validity_admits_every_id_window_and_interval(
    patch: ApplyRemoteProviderQuotaPatch,
    provider_id: String,
    at: int,
    start: u64,
    end: u64,
    days: Option<u64>,
    r: Result<(), DataLayerError>,
    changed: Result<(), DataLayerError>,
)
    requires
        call_ensures(ApplyRemoteProviderQuotaPatch::validate, (&patch,), r),
        r is Ok,
        0 <= at < provider_id@.len(),
        !is_white_space(provider_id@[at]),
        call_ensures(
            ApplyRemoteProviderQuotaPatch::validate,
            (&ApplyRemoteProviderQuotaPatch {
                provider_id,
                remote_window_start_unix_secs: start,
                remote_window_end_unix_secs: end,
                quota_reset_day: days,
                ..patch
            },),
            changed,
        ),
    ensures
        changed is Ok <==> 0 < start < end && (days is None || 0 < days->0 < 366),
{
}

/// A refused patch is told the first of these that is wrong with it: its id, its
/// billing type, a missing limit, a limit that it must not have, an amount, its
/// window, its reset interval.
pub proof fn refusal_names_the_first_fault(
    patch: ApplyRemoteProviderQuotaPatch,
    r: Result<(), DataLayerError>,
)
    requires
        call_ensures(ApplyRemoteProviderQuotaPatch::validate, (&patch,), r),
        r is Err,
    ensures
        ({
            let named = exists|i: int|
                0 <= i < patch.provider_id@.len() && !is_white_space(
                    #[trigger] patch.provider_id@[i],
                );
            let monthly = patch.billing_type@ == "monthly_quota"@;
            let unlimited = patch.billing_type@ == "pay_as_you_go"@;
            let used = patch.remote_monthly_used_usd;
            let limit = patch.monthly_quota_usd;
            let amounts = used.finite() && used.value() >= 0 && (limit is None || (limit->0.finite()
                && limit->0.value() >= 0));
            let ordered = 0 < patch.remote_window_start_unix_secs
                < patch.remote_window_end_unix_secs;
            &&& r->Err_0 is InvalidInput
            &&& r->Err_0->InvalidInput_0@ == if !named {
                "remote provider quota provider_id is empty"@
            } else if !monthly && !unlimited {
                "remote provider quota billing_type is unsupported"@
            } else if monthly && limit is None {
                "remote monthly quota limit is missing"@
            } else if unlimited && limit is Some {
                "remote unlimited quota must not set a monthly limit"@
            } else if !amounts {
                "remote provider quota values must be finite and non-negative"@
            } else if !ordered {
                "remote provider quota window is invalid"@
            } else {
                "remote provider quota reset interval is invalid"@
            }
        }),
{
}

/// An update that matched no row is reported as applied only over the stored row
/// itself, and only where each state field of that row is the patch's: the start
/// of the window, the billing type, the limit, the reset interval and the expiry.
pub proof fn applied_rows_match_field_by_field(
    stored: Option<StoredProviderQuotaSnapshot>,
    patch: ApplyRemoteProviderQuotaPatch,
    snapshot: StoredProviderQuotaSnapshot,
)
    requires
        call_ensures(
            ApplyRemoteProviderQuotaOutcome::from_unapplied_row,
            (stored, &patch),
            Ok(ApplyRemoteProviderQuotaOutcome::Applied(snapshot)),
        ),
    ensures
        stored == Some(snapshot),
        snapshot.quota_last_reset_at_unix_secs == Some(patch.remote_window_start_unix_secs),
        snapshot.billing_type@ == patch.billing_type@,
        snapshot.monthly_quota_usd is Some <==> patch.monthly_quota_usd is Some,
        snapshot.monthly_quota_usd is Some ==> !snapshot.monthly_quota_usd->0.nan()
            && !patch.monthly_quota_usd->0.nan() && snapshot.monthly_quota_usd->0.value()
            == patch.monthly_quota_usd->0.value(),
        snapshot.quota_reset_day == patch.quota_reset_day,
        snapshot.quota_expires_at_unix_secs == patch.quota_expires_at_unix_secs,
        !patch.preserve_local_used_usd ==> snapshot.monthly_used_usd.value()
            >= patch.remote_monthly_used_usd.value(),
{
}

/// A row that counts as applied for two patches tells them apart by nothing but
/// the reported usage, the end of the window and the flag: their windows start
/// alike, and their billing types, limits, intervals and expiries are the same.
pub proof fn one_row_is_applied_for_one_state(
    snapshot: StoredProviderQuotaSnapshot,
    p: ApplyRemoteProviderQuotaPatch,
    q: ApplyRemoteProviderQuotaPatch,
    s1: StoredProviderQuotaSnapshot,
    s2: StoredProviderQuotaSnapshot,
)
    requires
        call_ensures(
            ApplyRemoteProviderQuotaOutcome::from_unapplied_row,
            (Some(snapshot), &p),
            Ok(ApplyRemoteProviderQuotaOutcome::Applied(s1)),
        ),
        call_ensures(
            ApplyRemoteProviderQuotaOutcome::from_unapplied_row,
            (Some(snapshot), &q),
            Ok(ApplyRemoteProviderQuotaOutcome::Applied(s2)),
        ),
    ensures
        s1 == snapshot,
        s2 == snapshot,
        p.remote_window_start_unix_secs == q.remote_window_start_unix_secs,
        p.billing_type@ == q.billing_type@,
        p.monthly_quota_usd is Some <==> q.monthly_quota_usd is Some,
        p.monthly_quota_usd is Some ==> p.monthly_quota_usd->0.value()
            == q.monthly_quota_usd->0.value(),
        p.quota_reset_day == q.quota_reset_day,
        p.quota_expires_at_unix_secs == q.quota_expires_at_unix_secs,
{
}

/// A missing row is reported as a missing provider, and a row whose window starts
/// at the end of the patch's window or later as stale, whatever else it holds. No
/// other row is reported as either, and the stale row is the stored one.
pub proof fn missing_and_stale_rows_are_told(
    stored: Option<StoredProviderQuotaSnapshot>,
    patch: ApplyRemoteProviderQuotaPatch,
    r: Result<ApplyRemoteProviderQuotaOutcome, DataLayerError>,
)
    requires
        call_ensures(ApplyRemoteProviderQuotaOutcome::from_unapplied_row, (stored, &patch), r),
    ensures
        stored is None <==> r is Ok && r->Ok_0 is ProviderNotFound,
        (stored is Some && stored->0.quota_last_reset_at_unix_secs is Some
            && stored->0.quota_last_reset_at_unix_secs->0 >= patch.remote_window_end_unix_secs)
            <==> r is Ok && r->Ok_0 is StaleWindow,
        r is Ok && r->Ok_0 is StaleWindow ==> r->Ok_0->StaleWindow_0 == stored->0,
        r is Err ==> r->Err_0 is UnexpectedValue && r->Err_0->UnexpectedValue_0@
            == "remote provider quota update matched no row without a newer local window"@,
{
}

/// A row that holds a patch whose window ends after it starts is reported as
/// applied.
pub proof fn rows_that_match_are_applied(
    snapshot: StoredProviderQuotaSnapshot,
    patch: ApplyRemoteProviderQuotaPatch,
    r: Result<ApplyRemoteProviderQuotaOutcome, DataLayerError>,
)
    requires
        patch.remote_window_start_unix_secs < patch.remote_window_end_unix_secs,
        snapshot.quota_last_reset_at_unix_secs == Some(patch.remote_window_start_unix_secs),
        snapshot.billing_type@ == patch.billing_type@,
        snapshot.monthly_quota_usd == patch.monthly_quota_usd,
        patch.monthly_quota_usd is None || patch.monthly_quota_usd->0.finite(),
        snapshot.quota_reset_day == patch.quota_reset_day,
        snapshot.quota_expires_at_unix_secs == patch.quota_expires_at_unix_secs,
        patch.preserve_local_used_usd || (snapshot.monthly_used_usd.finite()
            && patch.remote_monthly_used_usd.finite() && snapshot.monthly_used_usd.value()
            >= patch.remote_monthly_used_usd.value()),
        call_ensures(
            ApplyRemoteProviderQuotaOutcome::from_unapplied_row,
            (Some(snapshot), &patch),
            r,
        ),
    ensures
        r is Ok && r->Ok_0 is Applied && r->Ok_0->Applied_0 == snapshot,
{
}

/// Which provider a row belongs to, and whether it is active, does not bear on
/// how an update that matched no row is classified; neither does the patch's id.
pub proof fn classification_ignores_id_and_activity(
    snapshot: StoredProviderQuotaSnapshot,
    patch: ApplyRemoteProviderQuotaPatch,
    id: String,
    patch_id: String,
    active: bool,
    r1: Result<ApplyRemoteProviderQuotaOutcome, DataLayerError>,
    r2: Result<ApplyRemoteProviderQuotaOutcome, DataLayerError>,
)
    requires
        call_ensures(
            ApplyRemoteProviderQuotaOutcome::from_unapplied_row,
            (Some(snapshot), &patch),
            r1,
        ),
        call_ensures(
            ApplyRemoteProviderQuotaOutcome::from_unapplied_row,
            (
                Some(StoredProviderQuotaSnapshot { provider_id: id, is_active: active, ..snapshot }),
                &ApplyRemoteProviderQuotaPatch { provider_id: patch_id, ..patch },
            ),
            r2,
        ),
    ensures
        r1 is Err <==> r2 is Err,
        r1 is Ok ==> (r1->Ok_0 is Applied <==> r2->Ok_0 is Applied),
        r1 is Ok ==> (r1->Ok_0 is StaleWindow <==> r2->Ok_0 is StaleWindow),
{
}

/// A snapshot holds what it was built from: every argument comes back as it was
/// given, and numbers of days and seconds from zero on keep their value.
pub proof fn snapshot_holds_what_it_was_built_from(
    provider_id: String,
    billing_type: String,
    limit: Option<UsdAmount>,
    used: UsdAmount,
    days: Option<i32>,
    last_reset: Option<i64>,
    expires_at: Option<i64>,
    active: bool,
    snapshot: StoredProviderQuotaSnapshot,
)
    requires
        call_ensures(
            StoredProviderQuotaSnapshot::new,
            (provider_id, billing_type, limit, used, days, last_reset, expires_at, active),
            Ok(snapshot),
        ),
    ensures
        snapshot.provider_id == provider_id,
        snapshot.billing_type == billing_type,
        snapshot.monthly_quota_usd == limit,
        snapshot.monthly_used_usd == used,
        snapshot.is_active == active,
        snapshot.quota_reset_day is Some <==> days is Some,
        snapshot.quota_last_reset_at_unix_secs is Some <==> last_reset is Some,
        snapshot.quota_expires_at_unix_secs is Some <==> expires_at is Some,
        days is Some && days->0 >= 0 ==> snapshot.quota_reset_day->0 == days->0,
        last_reset is Some && last_reset->0 >= 0 ==> snapshot.quota_last_reset_at_unix_secs->0
            == last_reset->0,
        expires_at is Some && expires_at->0 >= 0 ==> snapshot.quota_expires_at_unix_secs->0
            == expires_at->0,
        days is Some && days->0 < 0 ==> u64::MAX - snapshot.quota_reset_day->0 == -1 - days->0,
        last_reset is Some && last_reset->0 < 0 ==> u64::MAX
            - snapshot.quota_last_reset_at_unix_secs->0 == -1 - last_reset->0,
        expires_at is Some && expires_at->0 < 0 ==> u64::MAX
            - snapshot.quota_expires_at_unix_secs->0 == -1 - expires_at->0,
{
}

/// Two snapshots are the same only if they were built from the same values: no two
/// stored states are taken for one.
pub proof fn different_values_give_different_snapshots(
    a: ProviderQuotaRow,
    b: ProviderQuotaRow,
    snapshot: StoredProviderQuotaSnapshot,
)
    requires
        call_ensures(map_row, (a,), Ok(snapshot)),
        call_ensures(map_row, (b,), Ok(snapshot)),
    ensures
        a == b,
{
}

/// A row is turned into a snapshot field by field: the usage, the limit, the id,
/// the billing type and whether the provider is active are the row's, whatever
/// else the row holds.
pub proof fn snapshot_of_a_row_has_its_fields(
    row: ProviderQuotaRow,
    snapshot: StoredProviderQuotaSnapshot,
)
    requires
        call_ensures(map_row, (row,), Ok(snapshot)),
    ensures
        snapshot.provider_id == row.provider_id,
        snapshot.billing_type == row.billing_type,
        snapshot.monthly_quota_usd == row.monthly_quota_usd,
        snapshot.monthly_used_usd == row.monthly_used_usd,
        snapshot.is_active == row.is_active,
        snapshot.quota_reset_day is Some <==> row.quota_reset_day is Some,
        snapshot.quota_last_reset_at_unix_secs is Some
            <==> row.quota_last_reset_at_unix_secs is Some,
        snapshot.quota_expires_at_unix_secs is Some <==> row.quota_expires_at_unix_secs is Some,
        row.quota_last_reset_at_unix_secs is Some && row.quota_last_reset_at_unix_secs->0 >= 0
            ==> snapshot.quota_last_reset_at_unix_secs->0 == row.quota_last_reset_at_unix_secs->0,
        row.quota_expires_at_unix_secs is Some && row.quota_expires_at_unix_secs->0 >= 0
            ==> snapshot.quota_expires_at_unix_secs->0 == row.quota_expires_at_unix_secs->0,
        row.quota_reset_day is Some && row.quota_reset_day->0 >= 0 ==> snapshot.quota_reset_day->0
            == row.quota_reset_day->0,
{
}

/// A row makes up a snapshot exactly where its id and billing type are not blank
/// and its amounts are finite. Otherwise the error says which of the two it is,
/// the identity first.
pub proof fn unusable_rows_are_told_apart(
    row: ProviderQuotaRow,
    r: Result<StoredProviderQuotaSnapshot, DataLayerError>,
)
    requires
        call_ensures(map_row, (row,), r),
    ensures
        ({
            let named = exists|i: int|
                0 <= i < row.provider_id@.len() && !is_white_space(#[trigger] row.provider_id@[i]);
            let billed = exists|i: int|
                0 <= i < row.billing_type@.len() && !is_white_space(
                    #[trigger] row.billing_type@[i],
                );
            let finite = row.monthly_used_usd.finite() && (row.monthly_quota_usd is None
                || row.monthly_quota_usd->0.finite());
            &&& r is Ok <==> named && billed && finite
            &&& r is Err ==> r->Err_0 is UnexpectedValue && r->Err_0->UnexpectedValue_0@ == if named
                && billed {
                "provider quota value is not finite"@
            } else {
                "provider quota identity is empty"@
            }
        }),
{
}

/// The lookup of one provider hands its row's fields on, finds nothing where there
/// is no row, and passes a failure of the database on.
pub proof fn lookup_hands_the_row_on(
    found: Result<Option<ProviderQuotaRow>, DataLayerError>,
    r: Result<Option<StoredProviderQuotaSnapshot>, DataLayerError>,
)
    requires
        call_ensures(map_found_row, (found,), r),
    ensures
        found is Err ==> r is Err && r->Err_0 == found->Err_0,
        found is Ok && found->Ok_0 is None ==> r is Ok && r->Ok_0 is None,
        found is Ok && found->Ok_0 is Some && r is Ok ==> ({
            let row = found->Ok_0->0;
            &&& r->Ok_0 is Some
            &&& r->Ok_0->0.provider_id == row.provider_id
            &&& r->Ok_0->0.billing_type == row.billing_type
            &&& r->Ok_0->0.monthly_quota_usd == row.monthly_quota_usd
            &&& r->Ok_0->0.monthly_used_usd == row.monthly_used_usd
            &&& r->Ok_0->0.is_active == row.is_active
        }),
{
}

/// The place of the row that decides the error of a list of rows.
proof fn first_failure(
    rows: Seq<Result<ProviderQuotaRow, DataLayerError>>,
    error: DataLayerError,
) -> (i: int)
    requires
        rows_map_to(rows, Err(error)),
    ensures
        0 <= i < rows.len(),
        forall|j: int| 0 <= j < i ==> row_usable(#[trigger] rows[j]),
        !row_usable(rows[i]),
        row_fails_with(rows[i], error),
{
    choose|i: int|
        {
            &&& 0 <= i < rows.len()
            &&& forall|j: int| 0 <= j < i ==> row_usable(#[trigger] rows[j])
            &&& !row_usable(#[trigger] rows[i])
            &&& row_fails_with(rows[i], error)
        }
}

/// Rows are turned into snapshots one by one: what a list of rows comes to is what
/// its parts come to, one after the other, and the first part that fails makes the
/// whole fail in the same way.
pub proof fn rows_are_mapped_one_by_one(
    front: Vec<Result<ProviderQuotaRow, DataLayerError>>,
    back: Vec<Result<ProviderQuotaRow, DataLayerError>>,
    whole: Vec<Result<ProviderQuotaRow, DataLayerError>>,
    rf: Result<Vec<StoredProviderQuotaSnapshot>, DataLayerError>,
    rb: Result<Vec<StoredProviderQuotaSnapshot>, DataLayerError>,
    rw: Result<Vec<StoredProviderQuotaSnapshot>, DataLayerError>,
)
    requires
        whole@ == front@ + back@,
        call_ensures(map_rows, (front,), rf),
        call_ensures(map_rows, (back,), rb),
        call_ensures(map_rows, (whole,), rw),
    ensures
        rw is Ok <==> rf is Ok && rb is Ok,
        rw is Ok ==> rw->Ok_0@ == rf->Ok_0@ + rb->Ok_0@,
        rf is Err ==> rw->Err_0.same_error(rf->Err_0),
        rf is Ok && rb is Err ==> rw->Err_0.same_error(rb->Err_0),
{
    if rf is Err {
        let i = first_failure(front@, rf->Err_0);
        assert forall|j: int| 0 <= j <= i implies #[trigger] whole@[j] == front@[j] by {}
        assert(!row_usable(whole@[i]));
        let k = first_failure(whole@, rw->Err_0);
        assert(k == i) by {
            assert(row_usable(front@[k]) || k >= i);
        }
    } else if rb is Err {
        let i = first_failure(back@, rb->Err_0) + front@.len();
        assert(whole@[i] == back@[i - front@.len()]);
        assert forall|j: int| 0 <= j < i implies row_usable(#[trigger] whole@[j]) by {
            if j < front@.len() {
                assert(whole@[j] == front@[j]);
            } else {
                assert(whole@[j] == back@[j - front@.len()]);
            }
        }
        let k = first_failure(whole@, rw->Err_0);
        assert(k == i);
    }
    if rf is Ok && rb is Ok {
        assert forall|i: int| 0 <= i < whole@.len() implies row_usable(
            #[trigger] whole@[i],
        ) by {
            if i < front@.len() {
                assert(whole@[i] == front@[i]);
            } else {
                assert(whole@[i] == back@[i - front@.len()]);
            }
        }
    }
    if rw is Ok {
        assert forall|i: int| 0 <= i < front@.len() implies row_usable(
            #[trigger] front@[i],
        ) by {
            assert(whole@[i] == front@[i]);
        }
        assert forall|i: int| 0 <= i < back@.len() implies row_usable(
            #[trigger] back@[i],
        ) by {
            assert(whole@[i + front@.len()] == back@[i]);
        }
        assert(rw->Ok_0@ =~= rf->Ok_0@ + rb->Ok_0@);
    }
}

/// The update of a patch binds what the patch says, place by place, whatever the
/// billing type, the limit or the flag: the reported usage stands in sixth place.
pub proof fn update_binds_what_the_patch_says(
    patch: ApplyRemoteProviderQuotaPatch,
    statement: SqlStatement,
)
    requires
        call_ensures(apply_statement, (&patch,), Ok(statement)),
    ensures
        statement.binds@.len() == 9,
        statement.binds@[1] is Text && statement.binds@[1]->Text_0@ == patch.billing_type@,
        statement.binds@[2] == SqlValue::OptionalDouble(patch.monthly_quota_usd),
        statement.binds@[3] is BigInt && statement.binds@[3]->BigInt_0
            == patch.remote_window_start_unix_secs,
        statement.binds@[4] is BigInt && statement.binds@[4]->BigInt_0
            == patch.remote_window_end_unix_secs,
        statement.binds@[5] == SqlValue::Double(patch.remote_monthly_used_usd),
        statement.binds@[8] == SqlValue::Boolean(patch.preserve_local_used_usd),
{
}

/// Two patches whose updates bind the same values are the same patch, white space
/// around the id aside: nothing that a patch says is lost on the way.
pub proof fn update_tells_patches_apart(
    p: ApplyRemoteProviderQuotaPatch,
    q: ApplyRemoteProviderQuotaPatch,
    statement: SqlStatement,
)
    requires
        call_ensures(apply_statement, (&p,), Ok(statement)),
        call_ensures(apply_statement, (&q,), Ok(statement)),
    ensures
        p.billing_type@ == q.billing_type@,
        p.monthly_quota_usd == q.monthly_quota_usd,
        p.remote_monthly_used_usd == q.remote_monthly_used_usd,
        p.remote_window_start_unix_secs == q.remote_window_start_unix_secs,
        p.remote_window_end_unix_secs == q.remote_window_end_unix_secs,
        p.quota_reset_day == q.quota_reset_day,
        p.quota_expires_at_unix_secs == q.quota_expires_at_unix_secs,
        p.preserve_local_used_usd == q.preserve_local_used_usd,
{
}

/// A valid patch is refused for nothing but a time beyond the signed numbers, its
/// window before its expiry.
pub proof fn valid_patch_is_sent_if_its_times_fit(
    patch: ApplyRemoteProviderQuotaPatch,
    checked: Result<(), DataLayerError>,
    r: Result<SqlStatement, DataLayerError>,
)
    requires
        call_ensures(ApplyRemoteProviderQuotaPatch::validate, (&patch,), checked),
        call_ensures(apply_statement, (&patch,), r),
    ensures
        checked is Err ==> r is Err && r->Err_0 is InvalidInput && r->Err_0->InvalidInput_0@
            == checked->Err_0->InvalidInput_0@,
        checked is Ok ==> ({
            let window = patch.remote_window_end_unix_secs <= i64::MAX;
            let expiry = patch.quota_expires_at_unix_secs is None
                || patch.quota_expires_at_unix_secs->0 <= i64::MAX;
            &&& r is Ok <==> window && expiry
            &&& r is Err ==> r->Err_0 is InvalidInput && r->Err_0->InvalidInput_0@ == if window {
                "remote quota expiry is too large"@
            } else {
                "remote quota window is too large"@
            }
        }),
{
}

/// Once an update has matched rows, how many of them does not matter, nor what the
/// patch says: the row that is read is reported as applied, and a missing row as a
/// failure.
pub proof fn matched_update_reports_the_row(
    p: ApplyRemoteProviderQuotaPatch,
    q: ApplyRemoteProviderQuotaPatch,
    m: u64,
    n: u64,
    stored: Option<StoredProviderQuotaSnapshot>,
    r1: Result<ApplyRemoteProviderQuotaOutcome, DataLayerError>,
    r2: Result<ApplyRemoteProviderQuotaOutcome, DataLayerError>,
)
    requires
        m > 0,
        n > 0,
        call_ensures(conclude_apply, (&p, m, stored), r1),
        call_ensures(conclude_apply, (&q, n, stored), r2),
    ensures
        r1 is Ok <==> stored is Some,
        r2 is Ok <==> stored is Some,
        stored is Some ==> r1->Ok_0 == r2->Ok_0 && r1->Ok_0 is Applied && r1->Ok_0->Applied_0
            == stored->0,
        stored is None ==> r1->Err_0 is UnexpectedValue && r1->Err_0->UnexpectedValue_0@
            == "applied remote quota disappeared"@,
{
}

/// An update that matched no row is concluded as `from_unapplied_row` says.
pub proof fn unmatched_update_is_classified(
    patch: ApplyRemoteProviderQuotaPatch,
    stored: Option<StoredProviderQuotaSnapshot>,
    r1: Result<ApplyRemoteProviderQuotaOutcome, DataLayerError>,
    r2: Result<ApplyRemoteProviderQuotaOutcome, DataLayerError>,
)
    requires
        call_ensures(conclude_apply, (&patch, 0, stored), r1),
        call_ensures(ApplyRemoteProviderQuotaOutcome::from_unapplied_row, (stored, &patch), r2),
    ensures
        r1 is Ok <==> r2 is Ok,
        r1 is Ok ==> r1 == r2,
        r1 is Err ==> r1->Err_0 is UnexpectedValue && r2->Err_0 is UnexpectedValue
            && r1->Err_0->UnexpectedValue_0@ == r2->Err_0->UnexpectedValue_0@,
{
}

/// The writing of a patch sends the reported usage and asks for the same provider
/// afterwards; once the update has matched rows it ends with the fields of the row
/// that was read, or with an error where they make up no snapshot.
pub proof fn writing_reports_the_row_that_was_read(
    patch: ApplyRemoteProviderQuotaPatch,
    first: (ApplyStage, ApplyAction),
    rows_affected: u64,
    second: (ApplyStage, ApplyAction),
    row: ProviderQuotaRow,
    third: (ApplyStage, ApplyAction),
)
    requires
        call_ensures(begin_apply, (&patch,), first),
        first.1 is Update,
        rows_affected > 0,
        call_ensures(
            advance_apply,
            (&patch, first.0, ApplyEvent::Updated(Ok(rows_affected))),
            second,
        ),
        call_ensures(advance_apply, (&patch, second.0, ApplyEvent::Found(Ok(Some(row)))), third),
    ensures
        first.1->Update_0.binds@[5] == SqlValue::Double(patch.remote_monthly_used_usd),
        second.1 is Find && second.1->Find_0.binds@.len() == 1,
        second.1->Find_0.binds@[0] is Text && first.1->Update_0.binds@[0] is Text
            && second.1->Find_0.binds@[0]->Text_0@ == first.1->Update_0.binds@[0]->Text_0@,
        third.1 is Finish,
        third.1->Finish_0 is Ok ==> ({
            let outcome = third.1->Finish_0->Ok_0;
            &&& outcome is Applied
            &&& outcome->Applied_0.provider_id == row.provider_id
            &&& outcome->Applied_0.billing_type == row.billing_type
            &&& outcome->Applied_0.monthly_quota_usd == row.monthly_quota_usd
            &&& outcome->Applied_0.monthly_used_usd == row.monthly_used_usd
            &&& outcome->Applied_0.is_active == row.is_active
        }),
{
}

/// Resets at different times are different statements, which differ in the bound
/// time alone.
pub proof fn reset_binds_its_time(
    now: u64,
    later: u64,
    a: Result<SqlStatement, DataLayerError>,
    b: Result<SqlStatement, DataLayerError>,
)
    requires
        call_ensures(reset_due_statement, (now,), a),
        call_ensures(reset_due_statement, (later,), b),
    ensures
        a is Ok <==> now <= i64::MAX,
        a is Ok ==> a->Ok_0.binds@.len() == 1 && a->Ok_0.binds@[0] is BigInt
            && a->Ok_0.binds@[0]->BigInt_0 == now,
        a is Ok && b is Ok ==> a->Ok_0.text@ == b->Ok_0.text@,
        a is Err ==> a->Err_0 is InvalidInput && a->Err_0->InvalidInput_0@
            == "provider quota reset timestamp overflow"@,
{
}

/// Lookups of equally many ids have the same text and differ in the bound ids
/// alone, each in the place that it was asked for in.
pub proof fn lookups_differ_in_their_ids(
    a: &[String],
    b: &[String],
    ra: Option<SqlStatement>,
    rb: Option<SqlStatement>,
    i: int,
)
    requires
        a@.len() == b@.len(),
        0 <= i < a@.len(),
        call_ensures(find_by_provider_ids_statement, (a,), ra),
        call_ensures(find_by_provider_ids_statement, (b,), rb),
    ensures
        ra is Some,
        rb is Some,
        ra->0.text@ == rb->0.text@,
        ra->0.binds@.len() == a@.len(),
        ra->0.binds@[i] is Text && ra->0.binds@[i]->Text_0@ == a@[i]@,
        rb->0.binds@[i] is Text && rb->0.binds@[i]->Text_0@ == b@[i]@,
{
}

/// The decimal text of a number is made up of digits, has no leading zero unless it
/// is zero, and reads back as the number.
pub proof fn numbers_are_written_in_decimal(n: usize, text: String)
    requires
        call_ensures(to_decimal, (n,), text),
    ensures
        text@.len() > 0,
        forall|i: int| 0 <= i < text@.len() ==> '0' <= #[trigger] text@[i] <= '9',
        text@.len() > 1 ==> text@[0] != '0',
        decimal_value(text@) == n,
{
    decimal_reads_back(n as nat);
    decimal_has_only_digits(n as nat);
}

proof fn decimal_has_only_digits(n: nat)
    ensures
        decimal(n).len() > 0,
        forall|i: int| 0 <= i < decimal(n).len() ==> '0' <= #[trigger] decimal(n)[i] <= '9',
        n > 0 ==> decimal(n)[0] != '0',
        decimal(n).len() > 1 ==> n > 0,
    decreases n,
{
    reveal_strlit("0123456789");
    if n >= 10 {
        decimal_has_only_digits(n / 10);
    }
}

/// One more placeholder follows those before it, behind a comma, and is written
/// with the next number.
pub proof fn next_placeholder_follows(n: usize, text: String, next: String, number: String)
    requires
        1 <= n < usize::MAX,
        call_ensures(to_placeholder_list, (n,), text),
        call_ensures(to_placeholder_list, ((n + 1) as usize,), next),
        call_ensures(to_decimal, ((n + 1) as usize,), number),
    ensures
        next@ == text@ + seq![',', ' ', '$'] + number@,
{
    reveal_strlit(", ");
    reveal_strlit("$");
}

/// The list of one placeholder is `$1`.
pub proof fn first_placeholder(text: String)
    requires
        call_ensures(to_placeholder_list, (1usize,), text),
    ensures
        text@ == seq!['$', '1'],
{
    reveal_strlit("$");
    reveal_strlit("0123456789");
    assert(decimal(1) == seq!['1']);
}

/// One more column of a query follows those before it, behind a comma; a name
/// follows its expression.
pub proof fn next_column_follows(
    columns: Seq<SelectColumn>,
    column: SelectColumn,
    dialect: SqlDialect,
)
    ensures
        columns.len() > 0 ==> column_list(columns.push(column), dialect) == column_list(
            columns,
            dialect,
        ) + ", "@ + column_list(seq![column], dialect),
        column_list(seq![column], dialect) == (match dialect {
            SqlDialect::Postgres => column.expr.postgres@,
            SqlDialect::Sqlite => column.expr.sqlite@,
        }) + (match column.alias {
            Some(name) => " AS "@ + name@,
            None => Seq::empty(),
        }),
{
    assert(columns.push(column).drop_last() == columns);
    assert(seq![column][0] == column);
    assert(column_list(seq![column], dialect) =~= (match dialect {
        SqlDialect::Postgres => column.expr.postgres@,
        SqlDialect::Sqlite => column.expr.sqlite@,
    }) + (match column.alias {
        Some(name) => " AS "@ + name@,
        None => Seq::empty(),
    }));
}

/// What an error is called is what it is: its variant and its message.
pub proof fn errors_are_what_they_are_called(error: DataLayerError, text: Seq<char>)
    ensures
        error.is_invalid_input(text) <==> error is InvalidInput && error->InvalidInput_0@ == text,
        error.is_unexpected_value(text) <==> error is UnexpectedValue && error->UnexpectedValue_0@
            == text,
{
}

/// Errors are the same exactly where they are of one variant and say the same.
pub proof fn same_errors_say_the_same(a: DataLayerError, b: DataLayerError)
    ensures
        a.same_error(b) <==> match (a, b) {
            (DataLayerError::InvalidInput(m), DataLayerError::InvalidInput(n)) => m@ == n@,
            (DataLayerError::UnexpectedValue(m), DataLayerError::UnexpectedValue(n)) => m@ == n@,
            (DataLayerError::Postgres(m), DataLayerError::Postgres(n)) => m@ == n@,
            _ => false,
        },
{
}

} // verus!
