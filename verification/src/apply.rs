use crate::error::{invalid_input, unexpected_value, DataLayerError};
use crate::quota::{
    find_by_provider_id_statement, find_one, map_found_row, map_row, to_signed_secs,
    ProviderQuotaRow,
};
use crate::sql::{SqlStatement, SqlStatementView, SqlValue, SqlValueView};
use crate::text::trimmed;
use crate::types::{
    ApplyRemoteProviderQuotaOutcome, ApplyRemoteProviderQuotaPatch, StoredProviderQuotaSnapshot,
};
use vstd::prelude::*;

verus! {

pub const WINDOW_TOO_LARGE: &'static str = "remote quota window is too large";

pub const EXPIRY_TOO_LARGE: &'static str = "remote quota expiry is too large";

pub const APPLIED_QUOTA_DISAPPEARED: &'static str = "applied remote quota disappeared";

/// Writes a patch over the provider with the id `$1`, unless the stored window
/// starts at or after the end `$5` of the patch's window. Within one window the
/// usage only grows; with `$9` set the local usage stays as it is.
pub const APPLY_SQL: &'static str = r#"
UPDATE providers
SET billing_type = CAST($2 AS providerbillingtype),
    monthly_quota_usd = $3,
    monthly_used_usd = CASE
        WHEN $9 THEN monthly_used_usd
        WHEN CAST(EXTRACT(EPOCH FROM quota_last_reset_at) AS BIGINT) >= $4
             AND CAST(EXTRACT(EPOCH FROM quota_last_reset_at) AS BIGINT) < $5
            THEN GREATEST(COALESCE(monthly_used_usd, 0), $6)
        ELSE $6
    END,
    quota_reset_day = $7,
    quota_last_reset_at = TO_TIMESTAMP($4::double precision),
    quota_expires_at = CASE
        WHEN $8::bigint IS NULL THEN NULL
        ELSE TO_TIMESTAMP($8::double precision)
    END,
    updated_at = NOW()
WHERE id = $1
  AND (
      quota_last_reset_at IS NULL
      OR CAST(EXTRACT(EPOCH FROM quota_last_reset_at) AS BIGINT) < $5
  )
            "#;

/// The window of the patch fits into the signed numbers that are bound.
pub open spec fn window_fits(patch: ApplyRemoteProviderQuotaPatch) -> bool {
    patch.remote_window_start_unix_secs <= i64::MAX && patch.remote_window_end_unix_secs
        <= i64::MAX
}

/// The expiry of the patch, where it has one, fits into the signed number that
/// is bound.
pub open spec fn expiry_fits(patch: ApplyRemoteProviderQuotaPatch) -> bool {
    patch.quota_expires_at_unix_secs matches Some(secs) ==> secs <= i64::MAX
}

/// The patch is valid, and its times fit into the numbers that are bound.
pub open spec fn sendable(patch: ApplyRemoteProviderQuotaPatch) -> bool {
    patch.valid() && window_fits(patch) && expiry_fits(patch)
}

/// What is said of a patch that is not sent.
pub open spec fn refusal(patch: ApplyRemoteProviderQuotaPatch) -> Seq<char>
    recommends
        !sendable(patch),
{
    if !patch.valid() {
        patch.complaint()
    } else if !window_fits(patch) {
        WINDOW_TOO_LARGE@
    } else {
        EXPIRY_TOO_LARGE@
    }
}

/// The reset interval of a patch, as it is bound.
pub open spec fn signed_days(days: Option<u64>) -> Option<i32> {
    match days {
        Some(days) => Some(days as i32),
        None => None,
    }
}

/// A time of a patch, as it is bound.
pub open spec fn signed_secs(secs: Option<u64>) -> Option<i64> {
    match secs {
        Some(secs) => Some(secs as i64),
        None => None,
    }
}

/// The update that writes a patch.
pub open spec fn apply_update(patch: ApplyRemoteProviderQuotaPatch) -> SqlStatementView {
    SqlStatementView {
        text: APPLY_SQL@,
        binds: seq![
            SqlValueView::Text(trimmed(patch.provider_id@)),
            SqlValueView::Text(patch.billing_type@),
            SqlValueView::OptionalDouble(patch.monthly_quota_usd),
            SqlValueView::BigInt(patch.remote_window_start_unix_secs as i64),
            SqlValueView::BigInt(patch.remote_window_end_unix_secs as i64),
            SqlValueView::Double(patch.remote_monthly_used_usd),
            SqlValueView::OptionalInt(signed_days(patch.quota_reset_day)),
            SqlValueView::OptionalBigInt(signed_secs(patch.quota_expires_at_unix_secs)),
            SqlValueView::Boolean(patch.preserve_local_used_usd),
        ],
    }
}

/// Builds the update that writes a patch. Refuses a patch that is not valid,
/// and one with a time beyond the signed numbers of 64 bits.
pub fn apply_statement(patch: &ApplyRemoteProviderQuotaPatch) -> (r: Result<
    SqlStatement,
    DataLayerError,
>)
    ensures
        r is Ok <==> sendable(*patch),
        r matches Ok(statement) ==> statement@ == apply_update(*patch),
        r matches Err(error) ==> error.is_invalid_input(refusal(*patch)),
        r is Ok <==> {
            &&& exists|checked: Result<(), DataLayerError>| #[trigger]
                call_ensures(ApplyRemoteProviderQuotaPatch::validate, (patch,), checked)
                    && checked is Ok
            &&& patch.remote_window_end_unix_secs <= 0x7fff_ffff_ffff_ffff
            &&& patch.quota_expires_at_unix_secs is None || patch.quota_expires_at_unix_secs->0
                <= 0x7fff_ffff_ffff_ffff
        },
        r matches Ok(statement) ==> {
            &&& statement.text@ == APPLY_SQL@
            &&& statement.binds@.len() == 9
            &&& statement.binds@[0] matches SqlValue::Text(id) && id@ == trimmed(
                patch.provider_id@,
            )
            &&& statement.binds@[1] matches SqlValue::Text(billing) && billing@
                == patch.billing_type@
            &&& statement.binds@[2] == SqlValue::OptionalDouble(patch.monthly_quota_usd)
            &&& statement.binds@[3] matches SqlValue::BigInt(start) && start
                == patch.remote_window_start_unix_secs
            &&& statement.binds@[4] matches SqlValue::BigInt(end) && end
                == patch.remote_window_end_unix_secs
            &&& statement.binds@[5] == SqlValue::Double(patch.remote_monthly_used_usd)
            &&& statement.binds@[6] matches SqlValue::OptionalInt(days) && match (
                days,
                patch.quota_reset_day,
            ) {
                (Some(bound), Some(asked)) => bound == asked,
                (None, None) => true,
                _ => false,
            }
            &&& statement.binds@[7] matches SqlValue::OptionalBigInt(secs) && match (
                secs,
                patch.quota_expires_at_unix_secs,
            ) {
                (Some(bound), Some(asked)) => bound == asked,
                (None, None) => true,
                _ => false,
            }
            &&& statement.binds@[8] == SqlValue::Boolean(patch.preserve_local_used_usd)
        },
{
    match patch.validate() {
        Ok(()) => (),
        Err(error) => return Err(error),
    }
    let window_start = match to_signed_secs(patch.remote_window_start_unix_secs) {
        Some(secs) => secs,
        None => return Err(invalid_input(WINDOW_TOO_LARGE)),
    };
    let window_end = match to_signed_secs(patch.remote_window_end_unix_secs) {
        Some(secs) => secs,
        None => return Err(invalid_input(WINDOW_TOO_LARGE)),
    };
    let expires_at = match patch.quota_expires_at_unix_secs {
        Some(secs) => match to_signed_secs(secs) {
            Some(secs) => Some(secs),
            None => return Err(invalid_input(EXPIRY_TOO_LARGE)),
        },
        None => None,
    };
    let reset_days = match patch.quota_reset_day {
        Some(days) => Some(days as i32),
        None => None,
    };
    let mut binds: Vec<SqlValue> = Vec::new();
    binds.push(SqlValue::Text(patch.provider_id.trim().to_string()));
    binds.push(SqlValue::Text(patch.billing_type.clone()));
    binds.push(SqlValue::OptionalDouble(patch.monthly_quota_usd));
    binds.push(SqlValue::BigInt(window_start));
    binds.push(SqlValue::BigInt(window_end));
    binds.push(SqlValue::Double(patch.remote_monthly_used_usd));
    binds.push(SqlValue::OptionalInt(reset_days));
    binds.push(SqlValue::OptionalBigInt(expires_at));
    binds.push(SqlValue::Boolean(patch.preserve_local_used_usd));
    let statement = SqlStatement { text: APPLY_SQL.to_string(), binds };
    assert(statement@.binds == apply_update(*patch).binds);
    Ok(statement)
}

/// `r` is what the patch comes to when the update matched `rows_affected` rows
/// and `stored` was read after it.
pub open spec fn concludes(
    patch: ApplyRemoteProviderQuotaPatch,
    rows_affected: u64,
    stored: Option<StoredProviderQuotaSnapshot>,
    r: Result<ApplyRemoteProviderQuotaOutcome, DataLayerError>,
) -> bool {
    if rows_affected == 0 {
        ApplyRemoteProviderQuotaOutcome::classifies_unapplied(stored, patch, r)
    } else {
        match stored {
            Some(snapshot) => r == Ok::<_, DataLayerError>(
                ApplyRemoteProviderQuotaOutcome::Applied(snapshot),
            ),
            None => r matches Err(error) && error.is_unexpected_value(APPLIED_QUOTA_DISAPPEARED@),
        }
    }
}

/// Decides what the patch came to, from the number of rows that the update
/// matched and the snapshot that was read after it.
pub fn conclude_apply(
    patch: &ApplyRemoteProviderQuotaPatch,
    rows_affected: u64,
    stored: Option<StoredProviderQuotaSnapshot>,
) -> (r: Result<ApplyRemoteProviderQuotaOutcome, DataLayerError>)
    ensures
        concludes(*patch, rows_affected, stored, r),
        rows_affected == 0 ==> call_ensures(
            ApplyRemoteProviderQuotaOutcome::from_unapplied_row,
            (stored, patch),
            r,
        ),
        rows_affected != 0 && stored is Some ==> r == Ok::<_, DataLayerError>(
            ApplyRemoteProviderQuotaOutcome::Applied(stored->0),
        ),
        rows_affected != 0 && stored is None ==> (r matches Err(
            DataLayerError::UnexpectedValue(message),
        ) && message@ == "applied remote quota disappeared"@),
{
    if rows_affected == 0 {
        return ApplyRemoteProviderQuotaOutcome::from_unapplied_row(stored, patch);
    }
    match stored {
        Some(snapshot) => Ok(ApplyRemoteProviderQuotaOutcome::Applied(snapshot)),
        None => Err(unexpected_value(APPLIED_QUOTA_DISAPPEARED)),
    }
}

/// How far the writing of a patch has come.
#[derive(Debug, Clone, Copy, PartialEq, Eq, Structural)]
pub enum ApplyStage {
    /// The update was sent.
    Updating,
    /// The update matched this many rows; the snapshot was asked for.
    Reading { rows_affected: u64 },
    /// The result is known.
    Finished,
}

/// What the database answered.
#[derive(Debug, PartialEq)]
pub enum ApplyEvent {
    /// To the update: how many rows it matched.
    Updated(Result<u64, DataLayerError>),
    /// To the query: the provider's row, where it has one.
    Found(Result<Option<ProviderQuotaRow>, DataLayerError>),
}

/// What is to be done next.
#[derive(Debug, PartialEq)]
pub enum ApplyAction {
    /// Run the update and report how many rows it matched.
    Update(SqlStatement),
    /// Run the query and report the row.
    Find(SqlStatement),
    /// Hand this result to the caller.
    Finish(Result<ApplyRemoteProviderQuotaOutcome, DataLayerError>),
}

impl ApplyStage {
    /// The event answers what was asked for at this stage.
    pub open spec fn awaits(self, event: ApplyEvent) -> bool {
        match self {
            ApplyStage::Updating => event is Updated,
            ApplyStage::Reading { .. } => event is Found,
            ApplyStage::Finished => false,
        }
    }

    /// Tells whether the event answers what was asked for at this stage.
    pub fn is_awaiting(&self, event: &ApplyEvent) -> (r: bool)
        ensures
            r == self.awaits(*event),
            r <==> (*self is Updating && *event is Updated) || (*self is Reading && *event is Found),
    {
        match (self, event) {
            (ApplyStage::Updating, ApplyEvent::Updated(_)) => true,
            (ApplyStage::Reading { .. }, ApplyEvent::Found(_)) => true,
            _ => false,
        }
    }
}

/// `next` is the first step for a patch: its update, or the refusal.
pub open spec fn begins(
    patch: ApplyRemoteProviderQuotaPatch,
    next: (ApplyStage, ApplyAction),
) -> bool {
    if sendable(patch) {
        &&& next.0 == ApplyStage::Updating
        &&& next.1 matches ApplyAction::Update(statement) && statement@ == apply_update(patch)
    } else {
        &&& next.0 == ApplyStage::Finished
        &&& next.1 matches ApplyAction::Finish(Err(error)) && error.is_invalid_input(refusal(patch))
    }
}

/// `next` is the step that follows an event.
pub open spec fn advances(
    patch: ApplyRemoteProviderQuotaPatch,
    stage: ApplyStage,
    event: ApplyEvent,
    next: (ApplyStage, ApplyAction),
) -> bool {
    match event {
        ApplyEvent::Updated(Ok(rows_affected)) => {
            &&& next.0 == ApplyStage::Reading { rows_affected }
            &&& next.1 matches ApplyAction::Find(statement) && statement@ == find_one(
                trimmed(patch.provider_id@),
            )
        },
        ApplyEvent::Updated(Err(error)) => {
            &&& next.0 == ApplyStage::Finished
            &&& next.1 == ApplyAction::Finish(Err(error))
        },
        ApplyEvent::Found(found) => {
            &&& next.0 == ApplyStage::Finished
            &&& next.1 matches ApplyAction::Finish(r) && reading_concludes(
                patch,
                stage->rows_affected,
                found,
                r,
            )
        },
    }
}

/// `r` is what the patch comes to when the update matched `rows_affected` rows
/// and the database answered the query after it with `found`.
pub open spec fn reading_concludes(
    patch: ApplyRemoteProviderQuotaPatch,
    rows_affected: u64,
    found: Result<Option<ProviderQuotaRow>, DataLayerError>,
    r: Result<ApplyRemoteProviderQuotaOutcome, DataLayerError>,
) -> bool {
    match found {
        Err(error) => r == Err::<ApplyRemoteProviderQuotaOutcome, _>(error),
        Ok(None) => concludes(patch, rows_affected, None, r),
        Ok(Some(row)) => if row.snapshot().well_formed() {
            concludes(patch, rows_affected, Some(row.snapshot()), r)
        } else {
            r matches Err(error) && StoredProviderQuotaSnapshot::admitted(
                row.snapshot(),
                Err(error),
            )
        },
    }
}

/// Starts the writing of a patch.
pub fn begin_apply(patch: &ApplyRemoteProviderQuotaPatch) -> (next: (ApplyStage, ApplyAction))
    ensures
        begins(*patch, next),
        match next.1 {
            ApplyAction::Update(statement) => next.0 is Updating && call_ensures(
                apply_statement,
                (patch,),
                Ok(statement),
            ),
            ApplyAction::Find(_) => false,
            ApplyAction::Finish(r) => next.0 is Finished && r is Err && call_ensures(
                apply_statement,
                (patch,),
                Err(r->Err_0),
            ),
        },
{
    match apply_statement(patch) {
        Ok(statement) => (ApplyStage::Updating, ApplyAction::Update(statement)),
        Err(error) => (ApplyStage::Finished, ApplyAction::Finish(Err(error))),
    }
}

/// Goes on with the writing of a patch once the database has answered.
pub fn advance_apply(
    patch: &ApplyRemoteProviderQuotaPatch,
    stage: ApplyStage,
    event: ApplyEvent,
) -> (next: (ApplyStage, ApplyAction))
    requires
        stage.awaits(event),
    ensures
        advances(*patch, stage, event, next),
        event matches ApplyEvent::Updated(Ok(rows_affected)) ==> {
            &&& next.0 == ApplyStage::Reading { rows_affected }
            &&& next.1 matches ApplyAction::Find(statement) && statement.binds@.len() == 1
            &&& next.1->Find_0.binds@[0] matches SqlValue::Text(id) && id@ == trimmed(
                patch.provider_id@,
            )
        },
        event matches ApplyEvent::Updated(Err(error)) ==> next.0 is Finished && next.1
            == ApplyAction::Finish(Err(error)),
        event is Found ==> next.0 is Finished && next.1 is Finish,
        event matches ApplyEvent::Found(Err(error)) ==> next.1 == ApplyAction::Finish(Err(error)),
        event matches ApplyEvent::Found(Ok(None)) ==> call_ensures(
            conclude_apply,
            (patch, stage->rows_affected, None),
            next.1->Finish_0,
        ),
        event matches ApplyEvent::Found(Ok(Some(row))) ==> {
            ||| exists|snapshot: StoredProviderQuotaSnapshot|
                {
                    &&& #[trigger] call_ensures(map_row, (row,), Ok(snapshot))
                    &&& call_ensures(
                        conclude_apply,
                        (patch, stage->rows_affected, Some(snapshot)),
                        next.1->Finish_0,
                    )
                }
            ||| next.1->Finish_0 is Err && call_ensures(
                map_row,
                (row,),
                Err(next.1->Finish_0->Err_0),
            )
        },
{
    match event {
        ApplyEvent::Updated(Ok(rows_affected)) => (
            ApplyStage::Reading { rows_affected },
            ApplyAction::Find(find_by_provider_id_statement(patch.provider_id.trim())),
        ),
        ApplyEvent::Updated(Err(error)) => (
            ApplyStage::Finished,
            ApplyAction::Finish(Err(error)),
        ),
        ApplyEvent::Found(found) => {
            let rows_affected: u64 = match stage {
                ApplyStage::Reading { rows_affected } => rows_affected,
                _ => 0,
            };
            let result = match map_found_row(found) {
                Ok(stored) => conclude_apply(patch, rows_affected, stored),
                Err(error) => Err(error),
            };
            (ApplyStage::Finished, ApplyAction::Finish(result))
        },
    }
}

} // verus!
