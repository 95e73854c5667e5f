use crate::error::{invalid_input, unexpected_value, DataLayerError};
use crate::text::{is_blank, is_blank_text, is_white_space};
use crate::usd::UsdAmount;
use vstd::prelude::*;

verus! {

/// The billing type of a provider with a monthly spending limit.
pub const MONTHLY_QUOTA: &'static str = "monthly_quota";

/// The billing type of a provider without a spending limit.
pub const PAY_AS_YOU_GO: &'static str = "pay_as_you_go";

/// The longest reset interval that a patch may ask for, in days.
pub const MAX_RESET_DAYS: u64 = 365;

pub const PROVIDER_ID_EMPTY: &'static str = "remote provider quota provider_id is empty";

pub const BILLING_TYPE_UNSUPPORTED: &'static str =
    "remote provider quota billing_type is unsupported";

pub const MONTHLY_LIMIT_MISSING: &'static str = "remote monthly quota limit is missing";

pub const MONTHLY_LIMIT_NOT_ALLOWED: &'static str =
    "remote unlimited quota must not set a monthly limit";

pub const VALUES_NOT_USABLE: &'static str =
    "remote provider quota values must be finite and non-negative";

pub const WINDOW_INVALID: &'static str = "remote provider quota window is invalid";

pub const RESET_INTERVAL_INVALID: &'static str = "remote provider quota reset interval is invalid";

pub const UNAPPLIED_WITHOUT_NEWER_WINDOW: &'static str =
    "remote provider quota update matched no row without a newer local window";

pub const IDENTITY_EMPTY: &'static str = "provider quota identity is empty";

pub const VALUE_NOT_FINITE: &'static str = "provider quota value is not finite";

/// The quota state of one provider, as the data layer stores it.
#[derive(Debug, Clone, PartialEq)]
pub struct StoredProviderQuotaSnapshot {
    pub provider_id: String,
    pub billing_type: String,
    pub monthly_quota_usd: Option<UsdAmount>,
    pub monthly_used_usd: UsdAmount,
    pub quota_reset_day: Option<u64>,
    pub quota_last_reset_at_unix_secs: Option<u64>,
    pub quota_expires_at_unix_secs: Option<u64>,
    pub is_active: bool,
}

/// A quota state that a remote provider reported, to be written over the
/// stored one.
#[derive(Debug, Clone, PartialEq)]
pub struct ApplyRemoteProviderQuotaPatch {
    pub provider_id: String,
    pub billing_type: String,
    pub monthly_quota_usd: Option<UsdAmount>,
    pub remote_monthly_used_usd: UsdAmount,
    pub remote_window_start_unix_secs: u64,
    pub remote_window_end_unix_secs: u64,
    pub quota_reset_day: Option<u64>,
    pub quota_expires_at_unix_secs: Option<u64>,
    /// Preserve the provider's current local usage when only quota state changes.
    pub preserve_local_used_usd: bool,
}

/// What became of a patch.
#[derive(Debug, Clone, PartialEq)]
pub enum ApplyRemoteProviderQuotaOutcome {
    /// The patch was written, and this is the row that was read after it; or
    /// nothing had to be written, since this row already holds the patch.
    Applied(StoredProviderQuotaSnapshot),
    /// The stored quota window starts at or after the end of the patch's one.
    StaleWindow(StoredProviderQuotaSnapshot),
    /// No provider has the patch's id.
    ProviderNotFound,
}

impl ApplyRemoteProviderQuotaPatch {
    /// The billing type is one that a patch may carry.
    pub open spec fn billing_type_supported(self) -> bool {
        self.billing_type@ == MONTHLY_QUOTA@ || self.billing_type@ == PAY_AS_YOU_GO@
    }

    /// A provider with a monthly quota has its limit.
    pub open spec fn has_needed_limit(self) -> bool {
        self.billing_type@ == MONTHLY_QUOTA@ ==> self.monthly_quota_usd is Some
    }

    /// A provider that pays as it goes has no limit.
    pub open spec fn has_no_stray_limit(self) -> bool {
        self.billing_type@ == PAY_AS_YOU_GO@ ==> self.monthly_quota_usd is None
    }

    /// The usage, and the limit where there is one, are finite and not negative.
    pub open spec fn values_usable(self) -> bool {
        &&& self.remote_monthly_used_usd.finite()
        &&& !self.remote_monthly_used_usd.negative()
        &&& self.monthly_quota_usd matches Some(limit) ==> limit.finite() && !limit.negative()
    }

    /// The window starts after the epoch and ends after its start.
    pub open spec fn window_in_order(self) -> bool {
        0 < self.remote_window_start_unix_secs < self.remote_window_end_unix_secs
    }

    /// The reset interval, where there is one, is between a day and a year.
    pub open spec fn reset_interval_in_range(self) -> bool {
        self.quota_reset_day matches Some(days) ==> 1 <= days <= MAX_RESET_DAYS
    }

    /// The patch keeps every rule.
    pub open spec fn valid(self) -> bool {
        &&& !is_blank_text(self.provider_id@)
        &&& self.billing_type_supported()
        &&& self.has_needed_limit()
        &&& self.has_no_stray_limit()
        &&& self.values_usable()
        &&& self.window_in_order()
        &&& self.reset_interval_in_range()
    }

    /// What is said of the first rule that the patch breaks.
    pub open spec fn complaint(self) -> Seq<char>
        recommends
            !self.valid(),
    {
        if is_blank_text(self.provider_id@) {
            PROVIDER_ID_EMPTY@
        } else if !self.billing_type_supported() {
            BILLING_TYPE_UNSUPPORTED@
        } else if !self.has_needed_limit() {
            MONTHLY_LIMIT_MISSING@
        } else if !self.has_no_stray_limit() {
            MONTHLY_LIMIT_NOT_ALLOWED@
        } else if !self.values_usable() {
            VALUES_NOT_USABLE@
        } else if !self.window_in_order() {
            WINDOW_INVALID@
        } else {
            RESET_INTERVAL_INVALID@
        }
    }

    /// Checks the patch against the rules, one after the other.
    pub fn validate(&self) -> (r: Result<(), DataLayerError>)
        ensures
            r is Ok <==> self.valid(),
            r matches Err(error) ==> error.is_invalid_input(self.complaint()),
            r is Ok <==> {
                &&& exists|i: int|
                    0 <= i < self.provider_id@.len() && !is_white_space(
                        #[trigger] self.provider_id@[i],
                    )
                &&& match self.monthly_quota_usd {
                    Some(limit) => self.billing_type@ == "monthly_quota"@ && limit.finite()
                        && limit.value() >= 0,
                    None => self.billing_type@ == "pay_as_you_go"@,
                }
                &&& self.remote_monthly_used_usd.finite()
                &&& self.remote_monthly_used_usd.value() >= 0
                &&& 1 <= self.remote_window_start_unix_secs
                &&& self.remote_window_start_unix_secs < self.remote_window_end_unix_secs
                &&& self.quota_reset_day is None || 1 <= self.quota_reset_day->0 <= 365
            },
    {
        proof {
            reveal_strlit("monthly_quota");
            reveal_strlit("pay_as_you_go");
            assert("monthly_quota"@[0] != "pay_as_you_go"@[0]);
        }
        if is_blank(self.provider_id.as_str()) {
            return Err(invalid_input(PROVIDER_ID_EMPTY));
        }
        let monthly = self.billing_type == MONTHLY_QUOTA.to_string();
        let pay_as_you_go = self.billing_type == PAY_AS_YOU_GO.to_string();
        if !monthly && !pay_as_you_go {
            return Err(invalid_input(BILLING_TYPE_UNSUPPORTED));
        }
        if monthly && self.monthly_quota_usd.is_none() {
            return Err(invalid_input(MONTHLY_LIMIT_MISSING));
        }
        if pay_as_you_go && self.monthly_quota_usd.is_some() {
            return Err(invalid_input(MONTHLY_LIMIT_NOT_ALLOWED));
        }
        let limit_usable = match &self.monthly_quota_usd {
            Some(limit) => limit.is_finite() && !limit.is_negative(),
            None => true,
        };
        if !self.remote_monthly_used_usd.is_finite() || self.remote_monthly_used_usd.is_negative()
            || !limit_usable {
            return Err(invalid_input(VALUES_NOT_USABLE));
        }
        if self.remote_window_start_unix_secs == 0 || self.remote_window_end_unix_secs
            <= self.remote_window_start_unix_secs {
            return Err(invalid_input(WINDOW_INVALID));
        }
        let interval_in_range = match self.quota_reset_day {
            Some(days) => 1 <= days && days <= MAX_RESET_DAYS,
            None => true,
        };
        if !interval_in_range {
            return Err(invalid_input(RESET_INTERVAL_INVALID));
        }
        Ok(())
    }
}

impl ApplyRemoteProviderQuotaOutcome {
    /// The stored window starts at or after the end of the patch's window.
    pub open spec fn is_stale(
        snapshot: StoredProviderQuotaSnapshot,
        patch: ApplyRemoteProviderQuotaPatch,
    ) -> bool {
        snapshot.quota_last_reset_at_unix_secs matches Some(start) && start
            >= patch.remote_window_end_unix_secs
    }

    /// Every state field of the snapshot is the patch's one.
    pub open spec fn same_state(
        snapshot: StoredProviderQuotaSnapshot,
        patch: ApplyRemoteProviderQuotaPatch,
    ) -> bool {
        &&& snapshot.quota_last_reset_at_unix_secs == Some(patch.remote_window_start_unix_secs)
        &&& snapshot.billing_type@ == patch.billing_type@
        &&& same_limit(snapshot.monthly_quota_usd, patch.monthly_quota_usd)
        &&& snapshot.quota_reset_day == patch.quota_reset_day
        &&& snapshot.quota_expires_at_unix_secs == patch.quota_expires_at_unix_secs
    }

    /// The usage has not fallen behind the reported one, where the patch
    /// reports usage at all.
    pub open spec fn usage_kept_up(
        snapshot: StoredProviderQuotaSnapshot,
        patch: ApplyRemoteProviderQuotaPatch,
    ) -> bool {
        patch.preserve_local_used_usd || snapshot.monthly_used_usd.reaches(
            patch.remote_monthly_used_usd,
        )
    }

    /// The snapshot already holds what the patch asks for.
    pub open spec fn already_applied(
        snapshot: StoredProviderQuotaSnapshot,
        patch: ApplyRemoteProviderQuotaPatch,
    ) -> bool {
        Self::same_state(snapshot, patch) && Self::usage_kept_up(snapshot, patch)
    }

    /// `r` is what an update that matched no row comes to, given the row that
    /// is stored.
    pub open spec fn classifies_unapplied(
        stored: Option<StoredProviderQuotaSnapshot>,
        patch: ApplyRemoteProviderQuotaPatch,
        r: Result<ApplyRemoteProviderQuotaOutcome, DataLayerError>,
    ) -> bool {
        match stored {
            None => r == Ok::<_, DataLayerError>(ApplyRemoteProviderQuotaOutcome::ProviderNotFound),
            Some(snapshot) => if Self::is_stale(snapshot, patch) {
                r == Ok::<_, DataLayerError>(ApplyRemoteProviderQuotaOutcome::StaleWindow(snapshot))
            } else if Self::already_applied(snapshot, patch) {
                r == Ok::<_, DataLayerError>(ApplyRemoteProviderQuotaOutcome::Applied(snapshot))
            } else {
                r matches Err(error) && error.is_unexpected_value(UNAPPLIED_WITHOUT_NEWER_WINDOW@)
            },
        }
    }

    /// Classifies a zero-row remote quota update without mistaking an
    /// idempotent write for success. A row is already applied only when all
    /// state fields match and the usage monotonicity rule is satisfied.
    pub fn from_unapplied_row(
        stored: Option<StoredProviderQuotaSnapshot>,
        patch: &ApplyRemoteProviderQuotaPatch,
    ) -> (r: Result<Self, DataLayerError>)
        ensures
            Self::classifies_unapplied(stored, *patch, r),
            r matches Ok(ApplyRemoteProviderQuotaOutcome::ProviderNotFound) <==> stored is None,
            r matches Ok(ApplyRemoteProviderQuotaOutcome::StaleWindow(snapshot)) ==> stored == Some(
                snapshot,
            ),
            r matches Ok(ApplyRemoteProviderQuotaOutcome::StaleWindow(_)) <==> {
                &&& stored is Some
                &&& stored->0.quota_last_reset_at_unix_secs is Some
                &&& stored->0.quota_last_reset_at_unix_secs->0 >= patch.remote_window_end_unix_secs
            },
            r matches Ok(ApplyRemoteProviderQuotaOutcome::Applied(snapshot)) ==> stored == Some(
                snapshot,
            ),
            r matches Ok(ApplyRemoteProviderQuotaOutcome::Applied(_)) <==> {
                &&& stored is Some
                &&& patch.remote_window_start_unix_secs < patch.remote_window_end_unix_secs
                &&& stored->0.quota_last_reset_at_unix_secs == Some(
                    patch.remote_window_start_unix_secs,
                )
                &&& stored->0.billing_type@ == patch.billing_type@
                &&& match (stored->0.monthly_quota_usd, patch.monthly_quota_usd) {
                    (Some(limit), Some(asked)) => !limit.nan() && !asked.nan() && limit.value()
                        == asked.value(),
                    (None, None) => true,
                    _ => false,
                }
                &&& stored->0.quota_reset_day == patch.quota_reset_day
                &&& stored->0.quota_expires_at_unix_secs == patch.quota_expires_at_unix_secs
                &&& patch.preserve_local_used_usd || (!stored->0.monthly_used_usd.nan()
                    && !patch.remote_monthly_used_usd.nan() && stored->0.monthly_used_usd.value()
                    >= patch.remote_monthly_used_usd.value())
            },
            r matches Err(error) ==> (error matches DataLayerError::UnexpectedValue(message)
                && message@
                == "remote provider quota update matched no row without a newer local window"@),
    {
        let snapshot = match stored {
            Some(snapshot) => snapshot,
            None => return Ok(ApplyRemoteProviderQuotaOutcome::ProviderNotFound),
        };
        if let Some(start) = snapshot.quota_last_reset_at_unix_secs {
            if start >= patch.remote_window_end_unix_secs {
                return Ok(ApplyRemoteProviderQuotaOutcome::StaleWindow(snapshot));
            }
        }
        let already_applied = snapshot.quota_last_reset_at_unix_secs == Some(
            patch.remote_window_start_unix_secs,
        ) && snapshot.billing_type == patch.billing_type && snapshot.monthly_quota_usd
            == patch.monthly_quota_usd && snapshot.quota_reset_day == patch.quota_reset_day
            && snapshot.quota_expires_at_unix_secs == patch.quota_expires_at_unix_secs && (
        patch.preserve_local_used_usd || snapshot.monthly_used_usd.is_at_least(
            &patch.remote_monthly_used_usd,
        ));
        if already_applied {
            return Ok(ApplyRemoteProviderQuotaOutcome::Applied(snapshot));
        }
        Err(unexpected_value(UNAPPLIED_WITHOUT_NEWER_WINDOW))
    }
}

/// The limits are equal as numbers, or both are missing.
pub open spec fn same_limit(a: Option<UsdAmount>, b: Option<UsdAmount>) -> bool {
    match (a, b) {
        (Some(a), Some(b)) => a.same_amount(b),
        (None, None) => true,
        _ => false,
    }
}

/// A signed number read as an unsigned one of 64 bits: a negative one wraps
/// around from the top.
pub open spec fn wrapped(value: int) -> u64 {
    if value >= 0 {
        value as u64
    } else {
        (value + 0x1_0000_0000_0000_0000) as u64
    }
}

/// A stored number of days, wrapped.
pub open spec fn wrapped_days(value: Option<i32>) -> Option<u64> {
    match value {
        Some(v) => Some(wrapped(v as int)),
        None => None,
    }
}

/// A stored time in seconds, wrapped.
pub open spec fn wrapped_secs(value: Option<i64>) -> Option<u64> {
    match value {
        Some(v) => Some(wrapped(v as int)),
        None => None,
    }
}

fn wrap_days(value: Option<i32>) -> (r: Option<u64>)
    ensures
        r == wrapped_days(value),
{
    match value {
        Some(v) => {
            assert(v >= 0 ==> v as u64 == v) by (bit_vector);
            assert(v < 0 ==> v as u64 == v + 0x1_0000_0000_0000_0000) by (bit_vector);
            Some(v as u64)
        },
        None => None,
    }
}

fn wrap_secs(value: Option<i64>) -> (r: Option<u64>)
    ensures
        r == wrapped_secs(value),
{
    match value {
        Some(v) => {
            assert(v >= 0 ==> v as u64 == v) by (bit_vector);
            assert(v < 0 ==> v as u64 == v + 0x1_0000_0000_0000_0000) by (bit_vector);
            Some(v as u64)
        },
        None => None,
    }
}

impl StoredProviderQuotaSnapshot {
    /// A snapshot names a provider and a billing type, and its amounts are finite.
    pub open spec fn well_formed(self) -> bool {
        &&& !is_blank_text(self.provider_id@)
        &&& !is_blank_text(self.billing_type@)
        &&& self.monthly_used_usd.finite()
        &&& self.monthly_quota_usd matches Some(limit) ==> limit.finite()
    }

    /// The snapshot that stored values make up.
    pub open spec fn of_stored_values(
        provider_id: String,
        billing_type: String,
        monthly_quota_usd: Option<UsdAmount>,
        monthly_used_usd: UsdAmount,
        quota_reset_day: Option<i32>,
        quota_last_reset_at_unix_secs: Option<i64>,
        quota_expires_at_unix_secs: Option<i64>,
        is_active: bool,
    ) -> StoredProviderQuotaSnapshot {
        StoredProviderQuotaSnapshot {
            provider_id,
            billing_type,
            monthly_quota_usd,
            monthly_used_usd,
            quota_reset_day: wrapped_days(quota_reset_day),
            quota_last_reset_at_unix_secs: wrapped_secs(quota_last_reset_at_unix_secs),
            quota_expires_at_unix_secs: wrapped_secs(quota_expires_at_unix_secs),
            is_active,
        }
    }

    /// `r` is the snapshot where it is well-formed, and otherwise the error
    /// that says why it is not: a blank identity first, then an amount that is
    /// not finite.
    pub open spec fn admitted(
        snapshot: StoredProviderQuotaSnapshot,
        r: Result<StoredProviderQuotaSnapshot, DataLayerError>,
    ) -> bool {
        if snapshot.well_formed() {
            r == Ok::<_, DataLayerError>(snapshot)
        } else if is_blank_text(snapshot.provider_id@) || is_blank_text(snapshot.billing_type@) {
            r matches Err(error) && error.is_unexpected_value(IDENTITY_EMPTY@)
        } else {
            r matches Err(error) && error.is_unexpected_value(VALUE_NOT_FINITE@)
        }
    }

    /// Builds a snapshot from stored values. Refuses a blank id or billing
    /// type, then an amount that is not finite. Negative numbers of days or
    /// seconds wrap around.
    #[allow(clippy::too_many_arguments)]
    pub fn new(
        provider_id: String,
        billing_type: String,
        monthly_quota_usd: Option<UsdAmount>,
        monthly_used_usd: UsdAmount,
        quota_reset_day: Option<i32>,
        quota_last_reset_at_unix_secs: Option<i64>,
        quota_expires_at_unix_secs: Option<i64>,
        is_active: bool,
    ) -> (r: Result<Self, DataLayerError>)
        ensures
            Self::admitted(
                Self::of_stored_values(
                    provider_id,
                    billing_type,
                    monthly_quota_usd,
                    monthly_used_usd,
                    quota_reset_day,
                    quota_last_reset_at_unix_secs,
                    quota_expires_at_unix_secs,
                    is_active,
                ),
                r,
            ),
            r is Ok <==> {
                &&& exists|i: int|
                    0 <= i < provider_id@.len() && !is_white_space(#[trigger] provider_id@[i])
                &&& exists|i: int|
                    0 <= i < billing_type@.len() && !is_white_space(#[trigger] billing_type@[i])
                &&& monthly_used_usd.finite()
                &&& monthly_quota_usd is None || monthly_quota_usd->0.finite()
            },
            r matches Ok(snapshot) ==> {
                &&& snapshot.provider_id == provider_id
                &&& snapshot.billing_type == billing_type
                &&& snapshot.monthly_quota_usd == monthly_quota_usd
                &&& snapshot.monthly_used_usd == monthly_used_usd
                &&& snapshot.is_active == is_active
                &&& match (quota_reset_day, snapshot.quota_reset_day) {
                    (Some(days), Some(kept)) => kept as int == if days >= 0 {
                        days as int
                    } else {
                        0x1_0000_0000_0000_0000 + days
                    },
                    (None, None) => true,
                    _ => false,
                }
                &&& match (
                    quota_last_reset_at_unix_secs,
                    snapshot.quota_last_reset_at_unix_secs,
                ) {
                    (Some(secs), Some(kept)) => kept as int == if secs >= 0 {
                        secs as int
                    } else {
                        0x1_0000_0000_0000_0000 + secs
                    },
                    (None, None) => true,
                    _ => false,
                }
                &&& match (quota_expires_at_unix_secs, snapshot.quota_expires_at_unix_secs) {
                    (Some(secs), Some(kept)) => kept as int == if secs >= 0 {
                        secs as int
                    } else {
                        0x1_0000_0000_0000_0000 + secs
                    },
                    (None, None) => true,
                    _ => false,
                }
            },
    {
        if is_blank(provider_id.as_str()) || is_blank(billing_type.as_str()) {
            return Err(unexpected_value(IDENTITY_EMPTY));
        }
        let limit_finite = match &monthly_quota_usd {
            Some(limit) => limit.is_finite(),
            None => true,
        };
        if !monthly_used_usd.is_finite() || !limit_finite {
            return Err(unexpected_value(VALUE_NOT_FINITE));
        }
        Ok(
            StoredProviderQuotaSnapshot {
                provider_id,
                billing_type,
                monthly_quota_usd,
                monthly_used_usd,
                quota_reset_day: wrap_days(quota_reset_day),
                quota_last_reset_at_unix_secs: wrap_secs(quota_last_reset_at_unix_secs),
                quota_expires_at_unix_secs: wrap_secs(quota_expires_at_unix_secs),
                is_active,
            },
        )
    }
}

} // verus!
