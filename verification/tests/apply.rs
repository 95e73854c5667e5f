use provider_quota::apply::{
    advance_apply, apply_statement, begin_apply, conclude_apply, ApplyAction, ApplyEvent,
    ApplyStage, APPLY_SQL,
};
use provider_quota::error::DataLayerError;
use provider_quota::quota::{find_by_provider_id_statement, map_row, ProviderQuotaRow};
use provider_quota::sql::{SqlStatement, SqlValue};
use provider_quota::types::{ApplyRemoteProviderQuotaOutcome, ApplyRemoteProviderQuotaPatch};
use provider_quota::usd::UsdAmount;

fn usd(value: f64) -> UsdAmount {
    UsdAmount { bits: value.to_bits() }
}

fn patch() -> ApplyRemoteProviderQuotaPatch {
    ApplyRemoteProviderQuotaPatch {
        provider_id: "\u{a0} provider-1\n".to_string(),
        billing_type: "monthly_quota".to_string(),
        monthly_quota_usd: Some(usd(100.0)),
        remote_monthly_used_usd: usd(4.0),
        remote_window_start_unix_secs: 7_000,
        remote_window_end_unix_secs: 8_000,
        quota_reset_day: Some(30),
        quota_expires_at_unix_secs: Some(9_000),
        preserve_local_used_usd: false,
    }
}

fn written_row() -> ProviderQuotaRow {
    ProviderQuotaRow {
        provider_id: "provider-1".to_string(),
        billing_type: "monthly_quota".to_string(),
        monthly_quota_usd: Some(usd(100.0)),
        monthly_used_usd: usd(4.5),
        quota_reset_day: Some(30),
        quota_last_reset_at_unix_secs: Some(7_000),
        quota_expires_at_unix_secs: Some(9_000),
        is_active: true,
    }
}

fn update() -> SqlStatement {
    SqlStatement {
        text: APPLY_SQL.to_string(),
        binds: vec![
            SqlValue::Text("provider-1".to_string()),
            SqlValue::Text("monthly_quota".to_string()),
            SqlValue::OptionalDouble(Some(usd(100.0))),
            SqlValue::BigInt(7_000),
            SqlValue::BigInt(8_000),
            SqlValue::Double(usd(4.0)),
            SqlValue::OptionalInt(Some(30)),
            SqlValue::OptionalBigInt(Some(9_000)),
            SqlValue::Boolean(false),
        ],
    }
}

fn refused(patch: ApplyRemoteProviderQuotaPatch, message: &str) {
    let error = DataLayerError::InvalidInput(message.to_string());
    assert_eq!(apply_statement(&patch), Err(error.clone()));
    assert_eq!(
        begin_apply(&patch),
        (ApplyStage::Finished, ApplyAction::Finish(Err(error)))
    );
}

fn run(
    patch: &ApplyRemoteProviderQuotaPatch,
    updated: Result<u64, DataLayerError>,
    found: Result<Option<ProviderQuotaRow>, DataLayerError>,
) -> Result<ApplyRemoteProviderQuotaOutcome, DataLayerError> {
    let (stage, action) = begin_apply(patch);
    assert!(matches!(action, ApplyAction::Update(_)));
    let event = ApplyEvent::Updated(updated);
    assert!(stage.is_awaiting(&event));
    let (stage, action) = advance_apply(patch, stage, event);
    if let ApplyAction::Finish(result) = action {
        assert_eq!(stage, ApplyStage::Finished);
        return result;
    }
    assert_eq!(
        action,
        ApplyAction::Find(find_by_provider_id_statement("provider-1"))
    );
    let event = ApplyEvent::Found(found);
    assert!(stage.is_awaiting(&event));
    match advance_apply(patch, stage, event) {
        (ApplyStage::Finished, ApplyAction::Finish(result)) => result,
        other => panic!("unexpected step: {:?}", other),
    }
}

#[test]
fn a_patch_is_sent_with_its_values_in_order() {
    assert_eq!(apply_statement(&patch()), Ok(update()));
    assert_eq!(
        begin_apply(&patch()),
        (ApplyStage::Updating, ApplyAction::Update(update()))
    );
    let mut unlimited = patch();
    unlimited.billing_type = "pay_as_you_go".to_string();
    unlimited.monthly_quota_usd = None;
    unlimited.quota_reset_day = None;
    unlimited.quota_expires_at_unix_secs = None;
    unlimited.preserve_local_used_usd = true;
    let binds = apply_statement(&unlimited).expect("patch should be sent").binds;
    assert_eq!(binds[2], SqlValue::OptionalDouble(None));
    assert_eq!(binds[6], SqlValue::OptionalInt(None));
    assert_eq!(binds[7], SqlValue::OptionalBigInt(None));
    assert_eq!(binds[8], SqlValue::Boolean(true));
}

#[test]
fn the_update_reads_as_spelled_out() {
    let expected = [
        "",
        "UPDATE providers",
        "SET billing_type = CAST($2 AS providerbillingtype),",
        "    monthly_quota_usd = $3,",
        "    monthly_used_usd = CASE",
        "        WHEN $9 THEN monthly_used_usd",
        "        WHEN CAST(EXTRACT(EPOCH FROM quota_last_reset_at) AS BIGINT) >= $4",
        "             AND CAST(EXTRACT(EPOCH FROM quota_last_reset_at) AS BIGINT) < $5",
        "            THEN GREATEST(COALESCE(monthly_used_usd, 0), $6)",
        "        ELSE $6",
        "    END,",
        "    quota_reset_day = $7,",
        "    quota_last_reset_at = TO_TIMESTAMP($4::double precision),",
        "    quota_expires_at = CASE",
        "        WHEN $8::bigint IS NULL THEN NULL",
        "        ELSE TO_TIMESTAMP($8::double precision)",
        "    END,",
        "    updated_at = NOW()",
        "WHERE id = $1",
        "  AND (",
        "      quota_last_reset_at IS NULL",
        "      OR CAST(EXTRACT(EPOCH FROM quota_last_reset_at) AS BIGINT) < $5",
        "  )",
        "            ",
    ];
    let statement = apply_statement(&patch()).expect("patch should be sent");
    assert_eq!(statement.text, expected.join("\n"));
}

#[test]
fn a_refused_patch_sends_nothing() {
    let mut p = patch();
    p.provider_id = "  ".to_string();
    refused(p, "remote provider quota provider_id is empty");
    let mut p = patch();
    p.remote_window_end_unix_secs = 1 << 63;
    refused(p.clone(), "remote quota window is too large");
    p.remote_window_start_unix_secs = (1 << 63) - 1;
    p.quota_expires_at_unix_secs = Some(u64::MAX);
    refused(p, "remote quota window is too large");
    let mut p = patch();
    p.quota_expires_at_unix_secs = Some(1 << 63);
    refused(p.clone(), "remote quota expiry is too large");
    p.quota_expires_at_unix_secs = Some((1 << 63) - 1);
    assert!(apply_statement(&p).is_ok());
}

#[test]
fn a_written_row_reads_back_as_applied() {
    let snapshot = map_row(written_row()).expect("row should map");
    for rows_affected in [0, 1] {
        assert_eq!(
            run(&patch(), Ok(rows_affected), Ok(Some(written_row()))),
            Ok(ApplyRemoteProviderQuotaOutcome::Applied(snapshot.clone()))
        );
    }
}

#[test]
fn writing_twice_ends_alike() {
    let first = run(&patch(), Ok(1), Ok(Some(written_row())));
    assert!(first.is_ok());
    for rows_affected in [0, 1, 2] {
        assert_eq!(run(&patch(), Ok(rows_affected), Ok(Some(written_row()))), first);
    }
    let mut newer = written_row();
    newer.quota_last_reset_at_unix_secs = Some(8_000);
    for found in [None, Some(newer)] {
        let first = run(&patch(), Ok(0), Ok(found.clone()));
        assert!(first.is_ok());
        assert_eq!(run(&patch(), Ok(0), Ok(found)), first);
    }
}

#[test]
fn an_update_without_rows_is_classified() {
    assert_eq!(
        run(&patch(), Ok(0), Ok(None)),
        Ok(ApplyRemoteProviderQuotaOutcome::ProviderNotFound)
    );
    let mut newer = written_row();
    newer.quota_last_reset_at_unix_secs = Some(8_000);
    assert!(matches!(
        run(&patch(), Ok(0), Ok(Some(newer))),
        Ok(ApplyRemoteProviderQuotaOutcome::StaleWindow(_))
    ));
    let mut older = written_row();
    older.quota_last_reset_at_unix_secs = Some(1_000);
    assert_eq!(
        run(&patch(), Ok(0), Ok(Some(older))),
        Err(DataLayerError::UnexpectedValue(
            "remote provider quota update matched no row without a newer local window".to_string()
        ))
    );
}

#[test]
fn an_update_with_rows_is_applied_to_what_is_stored() {
    let mut other = written_row();
    other.quota_last_reset_at_unix_secs = Some(1_000);
    let snapshot = map_row(other.clone()).expect("row should map");
    assert_eq!(
        conclude_apply(&patch(), 2, Some(snapshot.clone())),
        Ok(ApplyRemoteProviderQuotaOutcome::Applied(snapshot.clone()))
    );
    assert_eq!(
        run(&patch(), Ok(1), Ok(Some(other))),
        Ok(ApplyRemoteProviderQuotaOutcome::Applied(snapshot))
    );
    assert_eq!(
        run(&patch(), Ok(1), Ok(None)),
        Err(DataLayerError::UnexpectedValue(
            "applied remote quota disappeared".to_string()
        ))
    );
}

#[test]
fn failures_of_the_database_end_the_writing() {
    let down = DataLayerError::Postgres("connection lost".to_string());
    assert_eq!(run(&patch(), Err(down.clone()), Ok(None)), Err(down.clone()));
    assert_eq!(run(&patch(), Ok(1), Err(down.clone())), Err(down));
    let mut broken = written_row();
    broken.monthly_used_usd = usd(f64::INFINITY);
    assert_eq!(
        run(&patch(), Ok(0), Ok(Some(broken))),
        Err(DataLayerError::UnexpectedValue(
            "provider quota value is not finite".to_string()
        ))
    );
}

#[test]
fn each_stage_awaits_its_own_answer() {
    let updated = ApplyEvent::Updated(Ok(1));
    let found = ApplyEvent::Found(Ok(None));
    assert!(!ApplyStage::Updating.is_awaiting(&found));
    assert!(!ApplyStage::Reading { rows_affected: 1 }.is_awaiting(&updated));
    assert!(!ApplyStage::Finished.is_awaiting(&updated));
    assert!(!ApplyStage::Finished.is_awaiting(&found));
}
