use provider_quota::error::DataLayerError;
use provider_quota::types::{
    ApplyRemoteProviderQuotaOutcome, ApplyRemoteProviderQuotaPatch, StoredProviderQuotaSnapshot,
};
use provider_quota::usd::UsdAmount;

fn usd(value: f64) -> UsdAmount {
    UsdAmount { bits: value.to_bits() }
}

fn sample_quota(last_reset: Option<i64>) -> StoredProviderQuotaSnapshot {
    StoredProviderQuotaSnapshot::new(
        "provider-1".to_string(),
        "monthly_quota".to_string(),
        Some(usd(100.0)),
        usd(4.0),
        Some(30),
        last_reset,
        None,
        true,
    )
    .expect("quota should build")
}

fn patch() -> ApplyRemoteProviderQuotaPatch {
    ApplyRemoteProviderQuotaPatch {
        provider_id: "provider-1".to_string(),
        billing_type: "monthly_quota".to_string(),
        monthly_quota_usd: Some(usd(100.0)),
        remote_monthly_used_usd: usd(4.0),
        remote_window_start_unix_secs: 7_000,
        remote_window_end_unix_secs: 8_000,
        quota_reset_day: Some(30),
        quota_expires_at_unix_secs: None,
        preserve_local_used_usd: false,
    }
}

fn rejected(patch: ApplyRemoteProviderQuotaPatch, message: &str) {
    assert_eq!(
        patch.validate(),
        Err(DataLayerError::InvalidInput(message.to_string()))
    );
}

fn classify(
    stored: StoredProviderQuotaSnapshot,
    patch: &ApplyRemoteProviderQuotaPatch,
) -> Result<ApplyRemoteProviderQuotaOutcome, DataLayerError> {
    ApplyRemoteProviderQuotaOutcome::from_unapplied_row(Some(stored), patch)
}

fn build(
    provider_id: &str,
    billing_type: &str,
    limit: Option<f64>,
    used: f64,
) -> Result<StoredProviderQuotaSnapshot, DataLayerError> {
    StoredProviderQuotaSnapshot::new(
        provider_id.to_string(),
        billing_type.to_string(),
        limit.map(usd),
        usd(used),
        None,
        None,
        None,
        false,
    )
}

#[test]
fn unapplied_row_classifies_stale_missing_idempotent_and_failed() {
    assert!(matches!(
        ApplyRemoteProviderQuotaOutcome::from_unapplied_row(None, &patch())
            .expect("missing provider is an outcome"),
        ApplyRemoteProviderQuotaOutcome::ProviderNotFound
    ));
    assert!(matches!(
        ApplyRemoteProviderQuotaOutcome::from_unapplied_row(
            Some(sample_quota(Some(8_000))),
            &patch(),
        )
        .expect("newer-or-equal local window is stale"),
        ApplyRemoteProviderQuotaOutcome::StaleWindow(_)
    ));
    assert!(matches!(
        ApplyRemoteProviderQuotaOutcome::from_unapplied_row(
            Some(sample_quota(Some(7_000))),
            &patch(),
        )
        .expect("an idempotent row is already applied"),
        ApplyRemoteProviderQuotaOutcome::Applied(_)
    ));
    let error = ApplyRemoteProviderQuotaOutcome::from_unapplied_row(
        Some(sample_quota(Some(1_000))),
        &patch(),
    )
    .expect_err("non-stale zero-row must not look applied");
    assert!(
        error
            .message()
            .contains("matched no row without a newer local window"),
        "unexpected error: {}",
        error.message()
    );
}

#[test]
fn outcomes_carry_the_stored_snapshot() {
    assert_eq!(
        classify(sample_quota(Some(9_000)), &patch()),
        Ok(ApplyRemoteProviderQuotaOutcome::StaleWindow(sample_quota(Some(9_000))))
    );
    assert_eq!(
        classify(sample_quota(Some(7_000)), &patch()),
        Ok(ApplyRemoteProviderQuotaOutcome::Applied(sample_quota(Some(7_000))))
    );
}

#[test]
fn every_state_field_must_match() {
    let mut stored = sample_quota(Some(7_000));
    stored.billing_type = "pay_as_you_go".to_string();
    assert!(classify(stored, &patch()).is_err());
    let mut stored = sample_quota(Some(7_000));
    stored.monthly_quota_usd = Some(usd(99.0));
    assert!(classify(stored, &patch()).is_err());
    let mut stored = sample_quota(Some(7_000));
    stored.monthly_quota_usd = None;
    assert!(classify(stored, &patch()).is_err());
    let mut stored = sample_quota(Some(7_000));
    stored.quota_reset_day = Some(31);
    assert!(classify(stored, &patch()).is_err());
    let mut stored = sample_quota(Some(7_000));
    stored.quota_expires_at_unix_secs = Some(1);
    assert!(classify(stored, &patch()).is_err());
    assert!(classify(sample_quota(Some(7_999)), &patch()).is_err());
    assert!(classify(sample_quota(None), &patch()).is_err());
}

#[test]
fn usage_must_keep_up_unless_it_is_preserved() {
    let mut ahead = patch();
    ahead.remote_monthly_used_usd = usd(4.000_001);
    assert!(classify(sample_quota(Some(7_000)), &ahead).is_err());
    ahead.preserve_local_used_usd = true;
    assert!(classify(sample_quota(Some(7_000)), &ahead).is_ok());
    let mut behind = patch();
    behind.remote_monthly_used_usd = usd(3.0);
    assert!(classify(sample_quota(Some(7_000)), &behind).is_ok());
}

#[test]
fn valid_patches_pass() {
    assert_eq!(patch().validate(), Ok(()));
    let mut unlimited = patch();
    unlimited.billing_type = "pay_as_you_go".to_string();
    unlimited.monthly_quota_usd = None;
    unlimited.remote_monthly_used_usd = usd(-0.0);
    unlimited.quota_reset_day = None;
    assert_eq!(unlimited.validate(), Ok(()));
    let mut edge = patch();
    edge.quota_reset_day = Some(1);
    assert_eq!(edge.validate(), Ok(()));
    edge.quota_reset_day = Some(365);
    assert_eq!(edge.validate(), Ok(()));
    edge.remote_window_start_unix_secs = 1;
    edge.remote_window_end_unix_secs = 2;
    assert_eq!(edge.validate(), Ok(()));
}

#[test]
fn each_broken_rule_is_named() {
    let mut p = patch();
    p.provider_id = " \t\u{3000}".to_string();
    rejected(p, "remote provider quota provider_id is empty");
    let mut p = patch();
    p.billing_type = "monthly_quota ".to_string();
    rejected(p, "remote provider quota billing_type is unsupported");
    let mut p = patch();
    p.monthly_quota_usd = None;
    rejected(p, "remote monthly quota limit is missing");
    let mut p = patch();
    p.billing_type = "pay_as_you_go".to_string();
    rejected(p, "remote unlimited quota must not set a monthly limit");
    for bad in [f64::NAN, f64::INFINITY, f64::NEG_INFINITY, -1.0, -5e-324] {
        let mut p = patch();
        p.remote_monthly_used_usd = usd(bad);
        rejected(p, "remote provider quota values must be finite and non-negative");
        let mut p = patch();
        p.monthly_quota_usd = Some(usd(bad));
        rejected(p, "remote provider quota values must be finite and non-negative");
    }
    for (start, end) in [(0, 8_000), (8_000, 8_000), (8_001, 8_000)] {
        let mut p = patch();
        p.remote_window_start_unix_secs = start;
        p.remote_window_end_unix_secs = end;
        rejected(p, "remote provider quota window is invalid");
    }
    for days in [0, 366, u64::MAX] {
        let mut p = patch();
        p.quota_reset_day = Some(days);
        rejected(p, "remote provider quota reset interval is invalid");
    }
}

#[test]
fn the_first_broken_rule_is_reported() {
    let mut p = patch();
    p.quota_reset_day = Some(0);
    p.remote_window_start_unix_secs = 0;
    rejected(p.clone(), "remote provider quota window is invalid");
    p.remote_monthly_used_usd = usd(f64::NAN);
    rejected(p.clone(), "remote provider quota values must be finite and non-negative");
    p.monthly_quota_usd = None;
    rejected(p.clone(), "remote monthly quota limit is missing");
    p.billing_type = String::new();
    rejected(p.clone(), "remote provider quota billing_type is unsupported");
    p.provider_id = String::new();
    rejected(p, "remote provider quota provider_id is empty");
}

#[test]
fn snapshots_need_an_identity_and_finite_amounts() {
    let identity = Err(DataLayerError::UnexpectedValue(
        "provider quota identity is empty".to_string(),
    ));
    let not_finite = Err(DataLayerError::UnexpectedValue(
        "provider quota value is not finite".to_string(),
    ));
    assert_eq!(build(" ", "monthly_quota", None, 0.0), identity);
    assert_eq!(build("p", "\n", None, 0.0), identity);
    assert_eq!(build("", "", None, f64::NAN), identity);
    assert_eq!(build("p", "b", None, f64::NAN), not_finite);
    assert_eq!(build("p", "b", None, f64::INFINITY), not_finite);
    assert_eq!(build("p", "b", Some(f64::NEG_INFINITY), 0.0), not_finite);
    let built = build(" p ", "b", Some(-3.5), -1.0).expect("negative amounts are stored");
    assert_eq!(built.provider_id, " p ");
    assert_eq!(built.monthly_quota_usd, Some(usd(-3.5)));
    assert_eq!(built.monthly_used_usd, usd(-1.0));
    assert!(!built.is_active);
}

#[test]
fn negative_numbers_wrap_around() {
    let built = StoredProviderQuotaSnapshot::new(
        "p".to_string(),
        "b".to_string(),
        None,
        usd(0.0),
        Some(-1),
        Some(i64::MIN),
        Some(-2),
        true,
    )
    .expect("quota should build");
    assert_eq!(built.quota_reset_day, Some(u64::MAX));
    assert_eq!(built.quota_last_reset_at_unix_secs, Some(1 << 63));
    assert_eq!(built.quota_expires_at_unix_secs, Some(u64::MAX - 1));
    let built = StoredProviderQuotaSnapshot::new(
        "p".to_string(),
        "b".to_string(),
        None,
        usd(0.0),
        Some(i32::MAX),
        Some(i64::MAX),
        Some(0),
        true,
    )
    .expect("quota should build");
    assert_eq!(built.quota_reset_day, Some(2_147_483_647));
    assert_eq!(built.quota_last_reset_at_unix_secs, Some(9_223_372_036_854_775_807));
    assert_eq!(built.quota_expires_at_unix_secs, Some(0));
}

#[test]
fn stale_rows_stay_stale_for_older_windows() {
    let mut older = patch();
    older.remote_window_start_unix_secs = 5_000;
    older.remote_window_end_unix_secs = 6_000;
    for p in [patch(), older] {
        assert!(matches!(
            classify(sample_quota(Some(8_000)), &p),
            Ok(ApplyRemoteProviderQuotaOutcome::StaleWindow(_))
        ));
    }
}
