use crate::usd::UsdAmount;
use vstd::prelude::*;

verus! {

/// The databases that a query can be written for.
#[derive(Debug, Clone, Copy, PartialEq, Eq, Structural)]
pub enum SqlDialect {
    Postgres,
    Sqlite,
}

/// An SQL expression in each dialect.
#[derive(Debug, Clone, Copy)]
pub struct DialectSql {
    pub postgres: &'static str,
    pub sqlite: &'static str,
}

impl DialectSql {
    /// The text of the expression in a dialect.
    pub open spec fn text(self, dialect: SqlDialect) -> Seq<char> {
        match dialect {
            SqlDialect::Postgres => self.postgres@,
            SqlDialect::Sqlite => self.sqlite@,
        }
    }

    /// An expression that reads the same in every dialect.
    pub fn common(sql: &'static str) -> (r: DialectSql)
        ensures
            r == (DialectSql { postgres: sql, sqlite: sql }),
    {
        DialectSql { postgres: sql, sqlite: sql }
    }

    /// An expression that each dialect writes in its own way.
    pub fn dialect(postgres: &'static str, sqlite: &'static str) -> (r: DialectSql)
        ensures
            r == (DialectSql { postgres, sqlite }),
    {
        DialectSql { postgres, sqlite }
    }

    /// The same expression, with another text for Postgres.
    pub fn with_postgres(self, sql: &'static str) -> (r: DialectSql)
        ensures
            r == (DialectSql { postgres: sql, sqlite: self.sqlite }),
    {
        DialectSql { postgres: sql, sqlite: self.sqlite }
    }

    /// Returns the text of the expression in a dialect.
    pub fn sql(&self, dialect: SqlDialect) -> (r: &'static str)
        ensures
            r@ == self.text(dialect),
            dialect is Postgres ==> r@ == self.postgres@,
            dialect is Sqlite ==> r@ == self.sqlite@,
    {
        match dialect {
            SqlDialect::Postgres => self.postgres,
            SqlDialect::Sqlite => self.sqlite,
        }
    }
}

/// One column of a query: an expression, and the name that its values get.
#[derive(Debug, Clone, Copy)]
pub struct SelectColumn {
    pub expr: DialectSql,
    pub alias: Option<&'static str>,
}

impl SelectColumn {
    /// The text of the column in a dialect.
    pub open spec fn text(self, dialect: SqlDialect) -> Seq<char> {
        match self.alias {
            Some(name) => self.expr.text(dialect) + " AS "@ + name@,
            None => self.expr.text(dialect),
        }
    }

    /// A column without a name of its own.
    pub fn expr(expr: DialectSql) -> (r: SelectColumn)
        ensures
            r == (SelectColumn { expr, alias: None }),
    {
        SelectColumn { expr, alias: None }
    }

    /// The same column under a name.
    pub fn alias(self, name: &'static str) -> (r: SelectColumn)
        ensures
            r == (SelectColumn { expr: self.expr, alias: Some(name) }),
    {
        SelectColumn { expr: self.expr, alias: Some(name) }
    }
}

/// A query of the columns of a table.
#[derive(Debug, Clone)]
pub struct SelectQuery {
    pub table: &'static str,
    pub columns: Vec<SelectColumn>,
}

/// The columns as they stand in a query, separated by commas.
pub open spec fn column_list(columns: Seq<SelectColumn>, dialect: SqlDialect) -> Seq<char>
    decreases columns.len(),
{
    if columns.len() == 0 {
        Seq::empty()
    } else if columns.len() == 1 {
        columns[0].text(dialect)
    } else {
        column_list(columns.drop_last(), dialect) + ", "@ + columns.last().text(dialect)
    }
}

impl SelectQuery {
    /// The text of the query in a dialect.
    pub open spec fn text(self, dialect: SqlDialect) -> Seq<char> {
        "SELECT "@ + column_list(self.columns@, dialect) + " FROM "@ + self.table@
    }

    /// Writes the query out in a dialect.
    pub fn sql(&self, dialect: SqlDialect) -> (r: String)
        ensures
            r@ == self.text(dialect),
            r@ == "SELECT "@ + column_list(self.columns@, dialect) + " FROM "@ + self.table@,
    {
        let mut list = String::new();
        for i in 0..self.columns.len()
            invariant
                list@ == column_list(self.columns@.take(i as int), dialect),
        {
            let column = self.columns[i];
            proof {
                let taken = self.columns@.take(i + 1);
                assert(taken.drop_last() == self.columns@.take(i as int));
                assert(taken.last() == column);
            }
            if i > 0 {
                list.append(", ");
            }
            list.append(column.expr.sql(dialect));
            if let Some(name) = column.alias {
                list.append(" AS ");
                list.append(name);
            }
        }
        assert(self.columns@.take(self.columns@.len() as int) == self.columns@);
        let mut text = "SELECT ".to_string();
        text.append(list.as_str());
        text.append(" FROM ");
        text.append(self.table);
        text
    }
}

/// A value that takes the place of a placeholder when a statement runs.
#[derive(Debug, Clone, PartialEq)]
pub enum SqlValue {
    Text(String),
    Double(UsdAmount),
    OptionalDouble(Option<UsdAmount>),
    BigInt(i64),
    OptionalBigInt(Option<i64>),
    OptionalInt(Option<i32>),
    Boolean(bool),
}

/// The mathematical form of a [`SqlValue`].
pub enum SqlValueView {
    Text(Seq<char>),
    Double(UsdAmount),
    OptionalDouble(Option<UsdAmount>),
    BigInt(i64),
    OptionalBigInt(Option<i64>),
    OptionalInt(Option<i32>),
    Boolean(bool),
}

impl View for SqlValue {
    type V = SqlValueView;

    open spec fn view(&self) -> SqlValueView {
        match *self {
            SqlValue::Text(text) => SqlValueView::Text(text@),
            SqlValue::Double(amount) => SqlValueView::Double(amount),
            SqlValue::OptionalDouble(amount) => SqlValueView::OptionalDouble(amount),
            SqlValue::BigInt(number) => SqlValueView::BigInt(number),
            SqlValue::OptionalBigInt(number) => SqlValueView::OptionalBigInt(number),
            SqlValue::OptionalInt(number) => SqlValueView::OptionalInt(number),
            SqlValue::Boolean(flag) => SqlValueView::Boolean(flag),
        }
    }
}

/// A statement to run: its text, and the values of its placeholders `$1`,
/// `$2` and so on, in that order.
#[derive(Debug, Clone, PartialEq)]
pub struct SqlStatement {
    pub text: String,
    pub binds: Vec<SqlValue>,
}

/// The mathematical form of a [`SqlStatement`].
pub struct SqlStatementView {
    pub text: Seq<char>,
    pub binds: Seq<SqlValueView>,
}

impl View for SqlStatement {
    type V = SqlStatementView;

    open spec fn view(&self) -> SqlStatementView {
        SqlStatementView {
            text: self.text@,
            binds: self.binds@.map_values(|value: SqlValue| value@),
        }
    }
}

/// The digits of the decimal system.
pub const DIGITS: &'static str = "0123456789";

/// One digit as a text.
pub open spec fn digit(d: int) -> Seq<char> {
    seq![DIGITS@[d]]
}

/// A number in the decimal system, without leading zeros.
pub open spec fn decimal(n: nat) -> Seq<char>
    decreases n,
{
    if n < 10 {
        digit(n as int)
    } else {
        decimal(n / 10) + digit((n % 10) as int)
    }
}

/// The placeholders `$1` to `$n`, separated by commas.
pub open spec fn placeholder_list(n: nat) -> Seq<char>
    decreases n,
{
    if n == 0 {
        Seq::empty()
    } else if n == 1 {
        "$"@ + decimal(1)
    } else {
        placeholder_list((n - 1) as nat) + ", "@ + "$"@ + decimal(n)
    }
}

/// Writes a number in the decimal system.
pub fn to_decimal(n: usize) -> (r: String)
    ensures
        r@ == decimal(n as nat),
    decreases n,
{
    proof {
        reveal_strlit("0123456789");
    }
    let last = n % 10;
    let last_digit = DIGITS.substring_ascii(last, last + 1);
    assert(last_digit@ == digit(last as int));
    if n < 10 {
        last_digit.to_string()
    } else {
        let mut text = to_decimal(n / 10);
        text.append(last_digit);
        text
    }
}

/// Writes the placeholders `$1` to `$n`, separated by commas.
pub fn to_placeholder_list(n: usize) -> (r: String)
    ensures
        r@ == placeholder_list(n as nat),
{
    let mut text = String::new();
    for i in 0..n
        invariant
            text@ == placeholder_list(i as nat),
    {
        if i > 0 {
            text.append(", ");
        }
        text.append("$");
        let number = to_decimal(i + 1);
        text.append(number.as_str());
    }
    text
}

} // verus!
