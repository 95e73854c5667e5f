use crate::error::{invalid_input, DataLayerError};
use crate::sql::{
    column_list, placeholder_list, to_placeholder_list, DialectSql, SelectColumn, SelectQuery,
    SqlDialect, SqlStatement, SqlStatementView, SqlValue, SqlValueView,
};
use crate::text::is_white_space;
use crate::types::StoredProviderQuotaSnapshot;
use crate::usd::UsdAmount;
use vstd::prelude::*;

verus! {

/// The table that holds the providers.
pub const PROVIDERS: &'static str = "providers";

pub const RESET_TIMESTAMP_OVERFLOW: &'static str = "provider quota reset timestamp overflow";

/// Starts a new quota window, at the time `$1`, for every active provider with
/// a monthly quota whose reset interval has passed.
pub const RESET_DUE_SQL: &'static str = r#"
UPDATE providers
SET
  monthly_used_usd = 0,
  quota_last_reset_at = TO_TIMESTAMP($1::double precision),
  updated_at = NOW()
WHERE
  billing_type = 'monthly_quota'
  AND is_active = TRUE
  AND (
    quota_last_reset_at IS NULL
    OR (EXTRACT(EPOCH FROM TO_TIMESTAMP($1::double precision)) - EXTRACT(EPOCH FROM quota_last_reset_at)) >= (quota_reset_day * 86400)
  )
"#;

/// The values that the query for quota snapshots reads for one provider.
#[derive(Debug, Clone, PartialEq)]
pub struct ProviderQuotaRow {
    pub provider_id: String,
    pub billing_type: String,
    pub monthly_quota_usd: Option<UsdAmount>,
    pub monthly_used_usd: UsdAmount,
    pub quota_reset_day: Option<i32>,
    pub quota_last_reset_at_unix_secs: Option<i64>,
    pub quota_expires_at_unix_secs: Option<i64>,
    pub is_active: bool,
}

/// The columns of the query for quota snapshots, one for each field of a
/// [`ProviderQuotaRow`], in order and under the field's name.
pub open spec fn snapshot_columns() -> Seq<SelectColumn> {
    seq![
        SelectColumn {
            expr: DialectSql { postgres: "id", sqlite: "id" },
            alias: Some("provider_id"),
        },
        SelectColumn {
            expr: DialectSql {
                postgres: "CAST(billing_type AS TEXT)",
                sqlite: "billing_type",
            },
            alias: Some("billing_type"),
        },
        SelectColumn {
            expr: DialectSql {
                postgres: "CAST(monthly_quota_usd AS DOUBLE PRECISION)",
                sqlite: "CAST(monthly_quota_usd AS REAL)",
            },
            alias: Some("monthly_quota_usd"),
        },
        SelectColumn {
            expr: DialectSql {
                postgres: "CAST(COALESCE(monthly_used_usd, 0) AS DOUBLE PRECISION)",
                sqlite: "CAST(COALESCE(monthly_used_usd, 0) AS REAL)",
            },
            alias: Some("monthly_used_usd"),
        },
        SelectColumn {
            expr: DialectSql { postgres: "quota_reset_day", sqlite: "quota_reset_day" },
            alias: None,
        },
        SelectColumn {
            expr: DialectSql {
                postgres: "CAST(EXTRACT(EPOCH FROM quota_last_reset_at) AS BIGINT)",
                sqlite: "quota_last_reset_at",
            },
            alias: Some("quota_last_reset_at_unix_secs"),
        },
        SelectColumn {
            expr: DialectSql {
                postgres: "CAST(EXTRACT(EPOCH FROM quota_expires_at) AS BIGINT)",
                sqlite: "quota_expires_at",
            },
            alias: Some("quota_expires_at_unix_secs"),
        },
        SelectColumn {
            expr: DialectSql { postgres: "is_active", sqlite: "is_active" },
            alias: None,
        },
    ]
}

/// The text of the query for quota snapshots in a dialect.
pub open spec fn snapshot_select_text(dialect: SqlDialect) -> Seq<char> {
    "SELECT "@ + column_list(snapshot_columns(), dialect) + " FROM "@ + PROVIDERS@
}

/// Builds the query for quota snapshots.
pub fn quota_snapshot_select() -> (query: SelectQuery)
    ensures
        query.table == PROVIDERS,
        query.columns@ == snapshot_columns(),
        forall|dialect: SqlDialect| #[trigger]
            query.text(dialect) == snapshot_select_text(dialect),
{
    let mut columns: Vec<SelectColumn> = Vec::new();
    columns.push(SelectColumn::expr(DialectSql::common("id")).alias("provider_id"));
    columns.push(
        SelectColumn::expr(
            DialectSql::common("billing_type").with_postgres("CAST(billing_type AS TEXT)"),
        ).alias("billing_type"),
    );
    columns.push(
        SelectColumn::expr(
            DialectSql::dialect(
                "CAST(monthly_quota_usd AS DOUBLE PRECISION)",
                "CAST(monthly_quota_usd AS REAL)",
            ),
        ).alias("monthly_quota_usd"),
    );
    columns.push(
        SelectColumn::expr(
            DialectSql::dialect(
                "CAST(COALESCE(monthly_used_usd, 0) AS DOUBLE PRECISION)",
                "CAST(COALESCE(monthly_used_usd, 0) AS REAL)",
            ),
        ).alias("monthly_used_usd"),
    );
    columns.push(SelectColumn::expr(DialectSql::common("quota_reset_day")));
    columns.push(
        SelectColumn::expr(
            DialectSql::dialect(
                "CAST(EXTRACT(EPOCH FROM quota_last_reset_at) AS BIGINT)",
                "quota_last_reset_at",
            ),
        ).alias("quota_last_reset_at_unix_secs"),
    );
    columns.push(
        SelectColumn::expr(
            DialectSql::dialect(
                "CAST(EXTRACT(EPOCH FROM quota_expires_at) AS BIGINT)",
                "quota_expires_at",
            ),
        ).alias("quota_expires_at_unix_secs"),
    );
    columns.push(SelectColumn::expr(DialectSql::common("is_active")));
    assert(columns@ == snapshot_columns());
    SelectQuery { table: PROVIDERS, columns }
}

/// The query for the snapshot of one provider.
pub open spec fn find_one(provider_id: Seq<char>) -> SqlStatementView {
    SqlStatementView {
        text: snapshot_select_text(SqlDialect::Postgres) + " WHERE id = $1 LIMIT 1"@,
        binds: seq![SqlValueView::Text(provider_id)],
    }
}

/// The query for the snapshots of several providers, in the order of their ids.
pub open spec fn find_many(provider_ids: Seq<String>) -> SqlStatementView {
    SqlStatementView {
        text: snapshot_select_text(SqlDialect::Postgres) + " WHERE id IN ("@ + placeholder_list(
            provider_ids.len(),
        ) + ") ORDER BY id ASC"@,
        binds: provider_ids.map_values(|id: String| SqlValueView::Text(id@)),
    }
}

/// Builds the query for the snapshot of one provider.
pub fn find_by_provider_id_statement(provider_id: &str) -> (statement: SqlStatement)
    ensures
        statement@ == find_one(provider_id@),
        statement.text@ == snapshot_select_text(SqlDialect::Postgres) + " WHERE id = $1 LIMIT 1"@,
        statement.binds@.len() == 1,
        statement.binds@[0] matches SqlValue::Text(id) && id@ == provider_id@,
{
    let mut text = quota_snapshot_select().sql(SqlDialect::Postgres);
    text.append(" WHERE id = $1 LIMIT 1");
    let mut binds: Vec<SqlValue> = Vec::new();
    binds.push(SqlValue::Text(provider_id.to_string()));
    let statement = SqlStatement { text, binds };
    assert(statement@.binds == find_one(provider_id@).binds);
    statement
}

/// Builds the query for the snapshots of several providers. For no provider
/// there is nothing to ask.
pub fn find_by_provider_ids_statement(provider_ids: &[String]) -> (statement: Option<
    SqlStatement,
>)
    ensures
        statement is None <==> provider_ids@.len() == 0,
        statement matches Some(statement) ==> statement@ == find_many(provider_ids@),
        statement matches Some(statement) ==> {
            &&& statement.text@ == snapshot_select_text(SqlDialect::Postgres) + " WHERE id IN ("@
                + placeholder_list(provider_ids@.len()) + ") ORDER BY id ASC"@
            &&& statement.binds@.len() == provider_ids@.len()
            &&& forall|i: int|
                0 <= i < provider_ids@.len() ==> (#[trigger] statement.binds@[i] matches SqlValue::Text(
                    id,
                ) && id@ == provider_ids@[i]@)
        },
{
    if provider_ids.len() == 0 {
        return None;
    }
    let mut text = quota_snapshot_select().sql(SqlDialect::Postgres);
    text.append(" WHERE id IN (");
    let list = to_placeholder_list(provider_ids.len());
    text.append(list.as_str());
    text.append(") ORDER BY id ASC");
    let mut binds: Vec<SqlValue> = Vec::new();
    for i in 0..provider_ids.len()
        invariant
            binds@.len() == i,
            forall|j: int|
                0 <= j < i ==> (#[trigger] binds@[j])@ == SqlValueView::Text(provider_ids@[j]@),
    {
        binds.push(SqlValue::Text(provider_ids[i].clone()));
    }
    let statement = SqlStatement { text, binds };
    assert(statement@.binds == find_many(provider_ids@).binds);
    Some(statement)
}

/// A time in seconds as the signed number that is bound, where it fits.
pub(crate) fn to_signed_secs(secs: u64) -> (r: Option<i64>)
    ensures
        r is Some <==> secs <= i64::MAX,
        r matches Some(signed) ==> signed == secs,
{
    if secs <= i64::MAX as u64 {
        Some(secs as i64)
    } else {
        None
    }
}

/// The statement that starts a new quota window at a time.
pub open spec fn reset_update(now_unix_secs: u64) -> SqlStatementView {
    SqlStatementView {
        text: RESET_DUE_SQL@,
        binds: seq![SqlValueView::BigInt(now_unix_secs as i64)],
    }
}

/// Builds the statement that starts a new quota window for every provider that
/// is due. Refuses a time beyond the signed numbers of 64 bits.
pub fn reset_due_statement(now_unix_secs: u64) -> (r: Result<SqlStatement, DataLayerError>)
    ensures
        r is Ok <==> now_unix_secs <= i64::MAX,
        r matches Ok(statement) ==> statement@ == reset_update(now_unix_secs),
        r matches Ok(statement) ==> {
            &&& statement.text@ == RESET_DUE_SQL@
            &&& statement.binds@.len() == 1
            &&& statement.binds@[0] matches SqlValue::BigInt(now) && now == now_unix_secs
        },
        r matches Err(error) ==> error.is_invalid_input(RESET_TIMESTAMP_OVERFLOW@),
{
    match to_signed_secs(now_unix_secs) {
        Some(now) => {
            let mut binds: Vec<SqlValue> = Vec::new();
            binds.push(SqlValue::BigInt(now));
            let statement = SqlStatement { text: RESET_DUE_SQL.to_string(), binds };
            assert(statement@.binds == reset_update(now_unix_secs).binds);
            Ok(statement)
        },
        None => Err(invalid_input(RESET_TIMESTAMP_OVERFLOW)),
    }
}

/// Tells how many providers got a new quota window. A count beyond the machine
/// word loses its upper bits.
pub fn reset_count(rows_affected: u64) -> (count: usize)
    ensures
        count == rows_affected as usize,
        rows_affected <= usize::MAX ==> count == rows_affected,
{
    rows_affected as usize
}

impl ProviderQuotaRow {
    /// The snapshot that the row's values make up.
    pub open spec fn snapshot(self) -> StoredProviderQuotaSnapshot {
        StoredProviderQuotaSnapshot::of_stored_values(
            self.provider_id,
            self.billing_type,
            self.monthly_quota_usd,
            self.monthly_used_usd,
            self.quota_reset_day,
            self.quota_last_reset_at_unix_secs,
            self.quota_expires_at_unix_secs,
            self.is_active,
        )
    }
}

/// Builds the snapshot of a row.
pub fn map_row(row: ProviderQuotaRow) -> (r: Result<StoredProviderQuotaSnapshot, DataLayerError>)
    ensures
        StoredProviderQuotaSnapshot::admitted(row.snapshot(), r),
        r is Ok <==> {
            &&& exists|i: int|
                0 <= i < row.provider_id@.len() && !is_white_space(#[trigger] row.provider_id@[i])
            &&& exists|i: int|
                0 <= i < row.billing_type@.len() && !is_white_space(
                    #[trigger] row.billing_type@[i],
                )
            &&& row.monthly_used_usd.finite()
            &&& row.monthly_quota_usd is None || row.monthly_quota_usd->0.finite()
        },
        r matches Ok(snapshot) ==> {
            &&& snapshot.provider_id == row.provider_id
            &&& snapshot.billing_type == row.billing_type
            &&& snapshot.monthly_quota_usd == row.monthly_quota_usd
            &&& snapshot.monthly_used_usd == row.monthly_used_usd
            &&& snapshot.is_active == row.is_active
            &&& snapshot.quota_reset_day is Some <==> row.quota_reset_day is Some
            &&& snapshot.quota_last_reset_at_unix_secs is Some
                <==> row.quota_last_reset_at_unix_secs is Some
            &&& snapshot.quota_expires_at_unix_secs is Some
                <==> row.quota_expires_at_unix_secs is Some
            &&& row.quota_reset_day matches Some(days) ==> snapshot.quota_reset_day->0 as int
                == days + if days < 0 {
                0x1_0000_0000_0000_0000int
            } else {
                0
            }
            &&& row.quota_last_reset_at_unix_secs matches Some(secs)
                ==> snapshot.quota_last_reset_at_unix_secs->0 as int == secs + if secs < 0 {
                0x1_0000_0000_0000_0000int
            } else {
                0
            }
            &&& row.quota_expires_at_unix_secs matches Some(secs)
                ==> snapshot.quota_expires_at_unix_secs->0 as int == secs + if secs < 0 {
                0x1_0000_0000_0000_0000int
            } else {
                0
            }
        },
{
    StoredProviderQuotaSnapshot::new(
        row.provider_id,
        row.billing_type,
        row.monthly_quota_usd,
        row.monthly_used_usd,
        row.quota_reset_day,
        row.quota_last_reset_at_unix_secs,
        row.quota_expires_at_unix_secs,
        row.is_active,
    )
}

/// Builds the snapshot of the row that was read, where there was one. `found`
/// is what the database answered.
pub fn map_found_row(found: Result<Option<ProviderQuotaRow>, DataLayerError>) -> (r: Result<
    Option<StoredProviderQuotaSnapshot>,
    DataLayerError,
>)
    ensures
        found_row_maps_to(found, r),
        found matches Err(error) ==> r == Err::<Option<StoredProviderQuotaSnapshot>, _>(error),
        r == Ok::<_, DataLayerError>(None::<StoredProviderQuotaSnapshot>) <==> found == Ok::<
            _,
            DataLayerError,
        >(None::<ProviderQuotaRow>),
        found matches Ok(Some(row)) ==> match r {
            Ok(snapshot) => snapshot is Some && call_ensures(map_row, (row,), Ok(snapshot->0)),
            Err(error) => call_ensures(map_row, (row,), Err(error)),
        },
{
    match found {
        Ok(Some(row)) => match map_row(row) {
            Ok(snapshot) => Ok(Some(snapshot)),
            Err(error) => Err(error),
        },
        Ok(None) => Ok(None),
        Err(error) => Err(error),
    }
}

/// `r` is what reading one row comes to.
pub open spec fn found_row_maps_to(
    found: Result<Option<ProviderQuotaRow>, DataLayerError>,
    r: Result<Option<StoredProviderQuotaSnapshot>, DataLayerError>,
) -> bool {
    match found {
        Err(error) => r == Err::<Option<StoredProviderQuotaSnapshot>, _>(error),
        Ok(None) => r == Ok::<_, DataLayerError>(None::<StoredProviderQuotaSnapshot>),
        Ok(Some(row)) => match r {
            Ok(snapshot) => row.snapshot().well_formed() && snapshot == Some(row.snapshot()),
            Err(error) => StoredProviderQuotaSnapshot::admitted(row.snapshot(), Err(error)),
        },
    }
}

/// A row that was read and makes up a well-formed snapshot.
pub open spec fn row_usable(row: Result<ProviderQuotaRow, DataLayerError>) -> bool {
    row matches Ok(row) && row.snapshot().well_formed()
}

/// The error that a row which is not usable comes to.
pub open spec fn row_fails_with(
    row: Result<ProviderQuotaRow, DataLayerError>,
    error: DataLayerError,
) -> bool {
    match row {
        Err(read_error) => error == read_error,
        Ok(row) => StoredProviderQuotaSnapshot::admitted(row.snapshot(), Err(error)),
    }
}

/// `r` is what reading rows comes to: their snapshots, in their order, or the
/// error of the first row that is not usable.
pub open spec fn rows_map_to(
    rows: Seq<Result<ProviderQuotaRow, DataLayerError>>,
    r: Result<Vec<StoredProviderQuotaSnapshot>, DataLayerError>,
) -> bool {
    match r {
        Ok(snapshots) => {
            &&& forall|i: int| 0 <= i < rows.len() ==> row_usable(#[trigger] rows[i])
            &&& snapshots@ == rows.map_values(
                |row: Result<ProviderQuotaRow, DataLayerError>| row->Ok_0.snapshot(),
            )
        },
        Err(error) => exists|i: int|
            {
                &&& 0 <= i < rows.len()
                &&& forall|j: int| 0 <= j < i ==> row_usable(#[trigger] rows[j])
                &&& !row_usable(#[trigger] rows[i])
                &&& row_fails_with(rows[i], error)
            },
    }
}

/// Builds the snapshots of rows, in their order. The first row that could not
/// be read, or makes up no snapshot, decides the error.
pub fn map_rows(rows: Vec<Result<ProviderQuotaRow, DataLayerError>>) -> (r: Result<
    Vec<StoredProviderQuotaSnapshot>,
    DataLayerError,
>)
    ensures
        r is Ok <==> forall|i: int| 0 <= i < rows@.len() ==> row_usable(#[trigger] rows@[i]),
        rows_map_to(rows@, r),
        r matches Ok(snapshots) ==> {
            &&& snapshots@.len() == rows@.len()
            &&& forall|i: int|
                0 <= i < rows@.len() ==> (#[trigger] rows@[i] matches Ok(row) && {
                    &&& snapshots@[i].provider_id == row.provider_id
                    &&& snapshots@[i].billing_type == row.billing_type
                    &&& snapshots@[i].monthly_quota_usd == row.monthly_quota_usd
                    &&& snapshots@[i].monthly_used_usd == row.monthly_used_usd
                    &&& snapshots@[i].is_active == row.is_active
                })
        },
        (exists|i: int| 0 <= i < rows@.len() && (#[trigger] rows@[i]) is Err) ==> r is Err,
{
    let mut snapshots: Vec<StoredProviderQuotaSnapshot> = Vec::new();
    let ghost all = rows@;
    for row in iter: rows
        invariant
            iter.seq() == all,
            snapshots@.len() == iter.index(),
            forall|j: int| 0 <= j < iter.index() ==> row_usable(#[trigger] all[j]),
            forall|j: int|
                0 <= j < iter.index() ==> #[trigger] snapshots@[j] == all[j]->Ok_0.snapshot(),
    {
        assert(row == all[iter.index()]);
        match row {
            Ok(row) => match map_row(row) {
                Ok(snapshot) => snapshots.push(snapshot),
                Err(error) => return Err(error),
            },
            Err(error) => return Err(error),
        }
    }
    assert(snapshots@ =~= all.map_values(
        |row: Result<ProviderQuotaRow, DataLayerError>| row->Ok_0.snapshot(),
    ));
    Ok(snapshots)
}

} // verus!
