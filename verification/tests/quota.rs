use provider_quota::error::DataLayerError;
use provider_quota::quota::{
    find_by_provider_id_statement, find_by_provider_ids_statement, map_found_row, map_row,
    map_rows, quota_snapshot_select, reset_count, reset_due_statement, ProviderQuotaRow,
    RESET_DUE_SQL,
};
use provider_quota::sql::{to_decimal, to_placeholder_list, DialectSql, SelectColumn, SelectQuery};
use provider_quota::sql::{SqlDialect, SqlStatement, SqlValue};
use provider_quota::usd::UsdAmount;

const POSTGRES_SELECT: &str = "SELECT id AS provider_id, \
CAST(billing_type AS TEXT) AS billing_type, \
CAST(monthly_quota_usd AS DOUBLE PRECISION) AS monthly_quota_usd, \
CAST(COALESCE(monthly_used_usd, 0) AS DOUBLE PRECISION) AS monthly_used_usd, \
quota_reset_day, \
CAST(EXTRACT(EPOCH FROM quota_last_reset_at) AS BIGINT) AS quota_last_reset_at_unix_secs, \
CAST(EXTRACT(EPOCH FROM quota_expires_at) AS BIGINT) AS quota_expires_at_unix_secs, \
is_active FROM providers";

const SQLITE_SELECT: &str = "SELECT id AS provider_id, \
billing_type AS billing_type, \
CAST(monthly_quota_usd AS REAL) AS monthly_quota_usd, \
CAST(COALESCE(monthly_used_usd, 0) AS REAL) AS monthly_used_usd, \
quota_reset_day, \
quota_last_reset_at AS quota_last_reset_at_unix_secs, \
quota_expires_at AS quota_expires_at_unix_secs, \
is_active FROM providers";

fn usd(value: f64) -> UsdAmount {
    UsdAmount { bits: value.to_bits() }
}

fn row(provider_id: &str, used: f64) -> ProviderQuotaRow {
    ProviderQuotaRow {
        provider_id: provider_id.to_string(),
        billing_type: "monthly_quota".to_string(),
        monthly_quota_usd: Some(usd(100.0)),
        monthly_used_usd: usd(used),
        quota_reset_day: Some(30),
        quota_last_reset_at_unix_secs: Some(7_000),
        quota_expires_at_unix_secs: None,
        is_active: true,
    }
}

fn ids(names: &[&str]) -> Vec<String> {
    names.iter().map(|name| name.to_string()).collect()
}

#[test]
fn snapshot_query_is_written_in_both_dialects() {
    let query = quota_snapshot_select();
    assert_eq!(query.sql(SqlDialect::Postgres), POSTGRES_SELECT);
    assert_eq!(query.sql(SqlDialect::Sqlite), SQLITE_SELECT);
}

#[test]
fn query_of_one_column_is_written() {
    let one = SelectQuery {
        table: "t",
        columns: vec![SelectColumn::expr(DialectSql::dialect("a", "b")).alias("c")],
    };
    assert_eq!(one.sql(SqlDialect::Postgres), "SELECT a AS c FROM t");
    assert_eq!(one.sql(SqlDialect::Sqlite), "SELECT b AS c FROM t");
}

#[test]
fn one_provider_is_looked_up_by_its_id() {
    assert_eq!(
        find_by_provider_id_statement("provider-1"),
        SqlStatement {
            text: format!("{} WHERE id = $1 LIMIT 1", POSTGRES_SELECT),
            binds: vec![SqlValue::Text("provider-1".to_string())],
        }
    );
}

#[test]
fn several_providers_are_looked_up_in_order() {
    assert_eq!(find_by_provider_ids_statement(&[]), None);
    assert_eq!(
        find_by_provider_ids_statement(&ids(&["b", "a", "b"])),
        Some(SqlStatement {
            text: format!("{} WHERE id IN ($1, $2, $3) ORDER BY id ASC", POSTGRES_SELECT),
            binds: vec![
                SqlValue::Text("b".to_string()),
                SqlValue::Text("a".to_string()),
                SqlValue::Text("b".to_string()),
            ],
        })
    );
    assert_eq!(
        find_by_provider_ids_statement(&ids(&["x"])).expect("one id is asked for").text,
        format!("{} WHERE id IN ($1) ORDER BY id ASC", POSTGRES_SELECT)
    );
}

#[test]
fn numbers_and_placeholders_are_written() {
    assert_eq!(to_decimal(0), "0");
    assert_eq!(to_decimal(10), "10");
    assert_eq!(to_decimal(907), "907");
    assert_eq!(to_decimal(usize::MAX), usize::MAX.to_string());
    assert_eq!(to_placeholder_list(0), "");
    assert_eq!(to_placeholder_list(1), "$1");
    assert_eq!(
        to_placeholder_list(12),
        "$1, $2, $3, $4, $5, $6, $7, $8, $9, $10, $11, $12"
    );
}

#[test]
fn reset_binds_the_time() {
    let largest = 9_223_372_036_854_775_807;
    assert_eq!(
        reset_due_statement(largest),
        Ok(SqlStatement {
            text: RESET_DUE_SQL.to_string(),
            binds: vec![SqlValue::BigInt(i64::MAX)],
        })
    );
    assert_eq!(
        reset_due_statement(largest + 1),
        Err(DataLayerError::InvalidInput(
            "provider quota reset timestamp overflow".to_string()
        ))
    );
    assert_eq!(reset_count(3), 3);
}

#[test]
fn the_reset_reads_as_spelled_out() {
    let expected = [
        "",
        "UPDATE providers",
        "SET",
        "  monthly_used_usd = 0,",
        "  quota_last_reset_at = TO_TIMESTAMP($1::double precision),",
        "  updated_at = NOW()",
        "WHERE",
        "  billing_type = 'monthly_quota'",
        "  AND is_active = TRUE",
        "  AND (",
        "    quota_last_reset_at IS NULL",
        "    OR (EXTRACT(EPOCH FROM TO_TIMESTAMP($1::double precision)) \
- EXTRACT(EPOCH FROM quota_last_reset_at)) >= (quota_reset_day * 86400)",
        "  )",
        "",
    ];
    let statement = reset_due_statement(5).expect("time should fit");
    assert_eq!(statement.text, expected.join("\n"));
}

#[test]
fn rows_become_snapshots() {
    let snapshot = map_row(row("provider-1", 4.0)).expect("row should map");
    assert_eq!(snapshot.provider_id, "provider-1");
    assert_eq!(snapshot.quota_reset_day, Some(30));
    assert_eq!(snapshot.quota_last_reset_at_unix_secs, Some(7_000));
    assert_eq!(snapshot.quota_expires_at_unix_secs, None);
    assert_eq!(map_found_row(Ok(None)), Ok(None));
    assert_eq!(map_found_row(Ok(Some(row("provider-1", 4.0)))), Ok(Some(snapshot)));
    let down = DataLayerError::Postgres("connection lost".to_string());
    assert_eq!(map_found_row(Err(down.clone())), Err(down));
    assert!(map_found_row(Ok(Some(row(" ", 4.0)))).is_err());
}

#[test]
fn many_rows_keep_their_order() {
    let snapshots = map_rows(vec![Ok(row("b", 1.0)), Ok(row("a", 2.0))]).expect("rows should map");
    assert_eq!(snapshots.len(), 2);
    assert_eq!(snapshots[0].provider_id, "b");
    assert_eq!(snapshots[1].provider_id, "a");
    assert_eq!(map_rows(Vec::new()), Ok(Vec::new()));
}

#[test]
fn many_rows_map_as_each_row_alone() {
    let rows = [row("a", 1.0), row("b", 2.0), row("c", 3.0)];
    let snapshots = map_rows(rows.iter().cloned().map(Ok).collect()).expect("rows should map");
    for (row, snapshot) in rows.iter().zip(snapshots) {
        assert_eq!(map_found_row(Ok(Some(row.clone()))), Ok(Some(snapshot)));
    }
}

#[test]
fn the_first_bad_row_decides_the_error() {
    let down = DataLayerError::Postgres("column not found".to_string());
    assert_eq!(
        map_rows(vec![
            Ok(row("a", 1.0)),
            Ok(row("b", f64::NAN)),
            Err(down.clone()),
            Ok(row("", 1.0)),
        ]),
        Err(DataLayerError::UnexpectedValue(
            "provider quota value is not finite".to_string()
        ))
    );
    assert_eq!(
        map_rows(vec![Ok(row("a", 1.0)), Err(down.clone()), Ok(row("", 1.0))]),
        Err(down)
    );
}
