use vstd::prelude::*;
use sea_query::Alias;
use sea_query::ConditionalStatement;
use sea_query::DeleteStatement;
use sea_query::Expr;
use sea_query::Func;
use sea_query::InsertStatement;
use sea_query::OnConflict;
use sea_query::Order;
use sea_query::OrderedStatement;
use sea_query::Query;
use sea_query::SelectStatement;
use sea_query::UnionType;
use sea_query::WindowStatement;
use crate::locale::opt_text;

verus! {

/// sea_query's `SelectStatement`; Verus sees nothing inside it, and its parts are named below (`select_items` and the rest).
#[verifier::external_type_specification]
#[verifier::external_body]
pub struct ExSelectStatement(SelectStatement);

/// sea_query's `InsertStatement`; Verus sees nothing inside it, and its parts are named below (`insert_table` and the rest).
#[verifier::external_type_specification]
#[verifier::external_body]
pub struct ExInsertStatement(InsertStatement);

/// sea_query's `DeleteStatement`; Verus sees nothing inside it, and its parts are named below (`delete_table`, `delete_where`).
#[verifier::external_type_specification]
#[verifier::external_body]
pub struct ExDeleteStatement(DeleteStatement);

/// A column: the name of its table (empty when it is not qualified by one) and its name.
pub type ColModel = (Seq<char>, Seq<char>);

/// A value bound into a statement, as sea_query holds it.
pub enum SqlValue {
    /// A 32-bit integer.
    Int(i32),
    /// A 64-bit integer.
    BigInt(i64),
    /// An unsigned 64-bit integer.
    BigUnsigned(u64),
    /// A text, or `NULL`.
    Text(Option<Seq<char>>),
}

/// An aggregate over a column.
pub enum SqlAgg {
    /// `SUM(column)`
    Sum,
    /// `COUNT(column)`
    Count,
}

/// An item of the `SELECT` list.
pub enum SqlSelect {
    /// `agg(column) AS alias`
    AggAs(SqlAgg, ColModel, Seq<char>),
    /// `ROW_NUMBER() OVER (ORDER BY agg(column) DESC) AS alias`
    RankAs(SqlAgg, ColModel, Seq<char>),
    /// `column AS alias`
    ColAs(ColModel, Seq<char>),
    /// `column`
    Column(ColModel),
}

/// A conjunct of a `WHERE` clause.
pub enum SqlCond {
    /// `a = b` on two columns.
    ColEq(ColModel, ColModel),
    /// `a = v` with `v` bound.
    Is(ColModel, SqlValue),
}

/// The items of the `SELECT` list of `q`, in order.
pub uninterp spec fn select_items(q: SelectStatement) -> Seq<SqlSelect>;

/// The tables of the `FROM` list of `q`, in order.
pub uninterp spec fn select_from(q: SelectStatement) -> Seq<Seq<char>>;

/// The conjuncts added to the `WHERE` clause of `q` with `and_where`, in order.
pub uninterp spec fn select_where(q: SelectStatement) -> Seq<SqlCond>;

/// The columns of the `GROUP BY` clause of `q`, in order.
pub uninterp spec fn select_group(q: SelectStatement) -> Seq<ColModel>;

/// The `ORDER BY` clause of `q`: each column named by its alias, and whether descending.
pub uninterp spec fn select_order(q: SelectStatement) -> Seq<(Seq<char>, bool)>;

/// The columns, named by their aliases, of the `DISTINCT ON` of `q`; empty when there is none.
pub uninterp spec fn select_distinct_on(q: SelectStatement) -> Seq<Seq<char>>;

/// The statements whose rows `q` takes out with `EXCEPT`: the `SELECT` list and the `FROM`
/// list of each, in order.
pub uninterp spec fn select_excepts(q: SelectStatement) -> Seq<(Seq<SqlSelect>, Seq<Seq<char>>)>;

/// The `LIMIT` of `q`, if it has one.
pub uninterp spec fn select_limit(q: SelectStatement) -> Option<u64>;

/// The `OFFSET` of `q`, if it has one.
pub uninterp spec fn select_offset(q: SelectStatement) -> Option<u64>;

/// The parts of a `SELECT` statement, as values.
pub struct SelectModel {
    pub items: Seq<SqlSelect>,
    pub from: Seq<Seq<char>>,
    pub wheres: Seq<SqlCond>,
    pub group: Seq<ColModel>,
    pub order: Seq<(Seq<char>, bool)>,
    pub distinct_on: Seq<Seq<char>>,
    pub excepts: Seq<(Seq<SqlSelect>, Seq<Seq<char>>)>,
    pub limit: Option<u64>,
    pub offset: Option<u64>,
}

/// The parts of the `SELECT` statement `q`.
pub open spec fn select_model(q: SelectStatement) -> SelectModel {
    SelectModel {
        items: select_items(q),
        from: select_from(q),
        wheres: select_where(q),
        group: select_group(q),
        order: select_order(q),
        distinct_on: select_distinct_on(q),
        excepts: select_excepts(q),
        limit: select_limit(q),
        offset: select_offset(q),
    }
}

/// The parts of an empty `SELECT` statement.
pub open spec fn empty_select() -> SelectModel {
    SelectModel {
        items: Seq::empty(),
        from: Seq::empty(),
        wheres: Seq::empty(),
        group: Seq::empty(),
        order: Seq::empty(),
        distinct_on: Seq::empty(),
        excepts: Seq::empty(),
        limit: None,
        offset: None,
    }
}

/// The table of the `INSERT` statement `q`, once it has one.
pub uninterp spec fn insert_table(q: InsertStatement) -> Option<Seq<char>>;

/// The columns that the `INSERT` statement `q` fills, in order.
pub uninterp spec fn insert_columns(q: InsertStatement) -> Seq<Seq<char>>;

/// The rows of values that the `INSERT` statement `q` holds, in order.
pub uninterp spec fn insert_rows(q: InsertStatement) -> Seq<Seq<SqlValue>>;

/// The `ON CONFLICT` clause of `q`, if it has one: the columns whose clash it handles, and the
/// columns it then updates from the clashing row.
pub uninterp spec fn insert_conflict(q: InsertStatement) -> Option<(Seq<Seq<char>>, Seq<Seq<char>>)>;

/// The columns of the `RETURNING` clause of `q`, if it has one.
pub uninterp spec fn insert_returning(q: InsertStatement) -> Option<Seq<Seq<char>>>;

/// The parts of an `INSERT` statement, as values.
pub struct InsertModel {
    pub table: Option<Seq<char>>,
    pub columns: Seq<Seq<char>>,
    pub rows: Seq<Seq<SqlValue>>,
    pub conflict: Option<(Seq<Seq<char>>, Seq<Seq<char>>)>,
    pub returning: Option<Seq<Seq<char>>>,
}

/// The parts of the `INSERT` statement `q`.
pub open spec fn insert_model(q: InsertStatement) -> InsertModel {
    InsertModel {
        table: insert_table(q),
        columns: insert_columns(q),
        rows: insert_rows(q),
        conflict: insert_conflict(q),
        returning: insert_returning(q),
    }
}

/// `m` with the row `row` added after the others.
pub open spec fn with_row(m: InsertModel, row: Seq<SqlValue>) -> InsertModel {
    InsertModel { rows: m.rows.push(row), ..m }
}

/// What an attempt to add the row `row` to `old` leaves: the row added when it has one value
/// per column, else `old` unchanged.
pub open spec fn row_added(old: InsertModel, row: Seq<SqlValue>) -> InsertModel {
    if row.len() == old.columns.len() { with_row(old, row) } else { old }
}

/// The table of the `DELETE` statement `q`, once it has one.
pub uninterp spec fn delete_table(q: DeleteStatement) -> Option<Seq<char>>;

/// The conjuncts added to the `WHERE` clause of `q` with `and_where`, in order.
pub uninterp spec fn delete_where(q: DeleteStatement) -> Seq<SqlCond>;

/// The column `col` of the table `table`.
pub open spec fn col_model(table: &str, col: &str) -> ColModel {
    (table@, col@)
}

/// sea_query's `Query::select()`: an empty `SELECT` statement.
#[verifier::external_body]
pub(crate) fn select_new() -> (r: SelectStatement)
    ensures
        select_items(r) == Seq::<SqlSelect>::empty(),
        select_from(r) == Seq::<Seq<char>>::empty(),
        select_where(r) == Seq::<SqlCond>::empty(),
        select_group(r) == Seq::<ColModel>::empty(),
        select_order(r) == Seq::<(Seq<char>, bool)>::empty(),
        select_distinct_on(r) == Seq::<Seq<char>>::empty(),
        select_excepts(r) == Seq::<(Seq<SqlSelect>, Seq<Seq<char>>)>::empty(),
        select_limit(r) is None,
        select_offset(r) is None,
{
    Query::select()
}

/// `SelectStatement::from` of sea_query: adds the table `table` to the `FROM` list.
#[verifier::external_body]
pub(crate) fn qb_from(qb: &mut SelectStatement, table: &str)
    ensures select_model(*final(qb)) == (SelectModel { from: select_model(*old(qb)).from.push(table@), ..select_model(*old(qb)) }),
{
    qb.from(Alias::new(table));
}

/// `SelectStatement::expr_as` of sea_query with `Func::sum`: selects `SUM(table.col) AS alias`.
#[verifier::external_body]
pub(crate) fn qb_sum_as(qb: &mut SelectStatement, table: &str, col: &str, alias: &str)
    ensures
        select_model(*final(qb)) == (SelectModel {
            items: select_model(*old(qb)).items.push(SqlSelect::AggAs(SqlAgg::Sum, col_model(table, col), alias@)),
            ..select_model(*old(qb))
        }),
{
    qb.expr_as(Func::sum(Expr::col((Alias::new(table), Alias::new(col)))), Alias::new(alias));
}

/// `SelectStatement::expr_as` of sea_query with `Func::count`: selects
/// `COUNT(table.col) AS alias`.
#[verifier::external_body]
pub(crate) fn qb_count_as(qb: &mut SelectStatement, table: &str, col: &str, alias: &str)
    ensures
        select_model(*final(qb)) == (SelectModel {
            items: select_model(*old(qb)).items.push(SqlSelect::AggAs(SqlAgg::Count, col_model(table, col), alias@)),
            ..select_model(*old(qb))
        }),
{
    qb.expr_as(Func::count(Expr::col((Alias::new(table), Alias::new(col)))), Alias::new(alias));
}

/// `SelectStatement::expr_window_as` of sea_query: selects
/// `ROW_NUMBER() OVER (ORDER BY SUM(table.col) DESC) AS alias`.
#[verifier::external_body]
pub(crate) fn qb_rank_by_sum_as(qb: &mut SelectStatement, table: &str, col: &str, alias: &str)
    ensures
        select_model(*final(qb)) == (SelectModel {
            items: select_model(*old(qb)).items.push(SqlSelect::RankAs(SqlAgg::Sum, col_model(table, col), alias@)),
            ..select_model(*old(qb))
        }),
{
    qb.expr_window_as(
        Func::cust(Alias::new("ROW_NUMBER")),
        WindowStatement::new().order_by_expr(Func::sum(Expr::col((Alias::new(table), Alias::new(col)))).into(), Order::Desc).to_owned(),
        Alias::new(alias),
    );
}

/// `SelectStatement::expr_window_as` of sea_query: selects
/// `ROW_NUMBER() OVER (ORDER BY COUNT(table.col) DESC) AS alias`.
#[verifier::external_body]
pub(crate) fn qb_rank_by_count_as(qb: &mut SelectStatement, table: &str, col: &str, alias: &str)
    ensures
        select_model(*final(qb)) == (SelectModel {
            items: select_model(*old(qb)).items.push(SqlSelect::RankAs(SqlAgg::Count, col_model(table, col), alias@)),
            ..select_model(*old(qb))
        }),
{
    qb.expr_window_as(
        Func::cust(Alias::new("ROW_NUMBER")),
        WindowStatement::new().order_by_expr(Func::count(Expr::col((Alias::new(table), Alias::new(col)))).into(), Order::Desc).to_owned(),
        Alias::new(alias),
    );
}

/// `SelectStatement::expr_as` of sea_query with `Expr::col`: selects `table.col AS alias`.
#[verifier::external_body]
pub(crate) fn qb_col_as(qb: &mut SelectStatement, table: &str, col: &str, alias: &str)
    ensures
        select_model(*final(qb)) == (SelectModel {
            items: select_model(*old(qb)).items.push(SqlSelect::ColAs(col_model(table, col), alias@)),
            ..select_model(*old(qb))
        }),
{
    qb.expr_as(Expr::col((Alias::new(table), Alias::new(col))), Alias::new(alias));
}

/// `SelectStatement::column` of sea_query: selects `table.col`.
#[verifier::external_body]
pub(crate) fn qb_column(qb: &mut SelectStatement, table: &str, col: &str)
    ensures
        select_model(*final(qb)) == (SelectModel {
            items: select_model(*old(qb)).items.push(SqlSelect::Column(col_model(table, col))),
            ..select_model(*old(qb))
        }),
{
    qb.column((Alias::new(table), Alias::new(col)));
}

/// `SelectStatement::column` of sea_query: selects the column `col`, not qualified by a table.
#[verifier::external_body]
pub(crate) fn qb_plain_column(qb: &mut SelectStatement, col: &str)
    ensures
        select_model(*final(qb)) == (SelectModel {
            items: select_model(*old(qb)).items.push(SqlSelect::Column((Seq::empty(), col@))),
            ..select_model(*old(qb))
        }),
{
    qb.column(Alias::new(col));
}

/// `ConditionalStatement::and_where` of sea_query with `Expr::equals`: adds the conjunct
/// `t1.c1 = t2.c2`.
#[verifier::external_body]
pub(crate) fn qb_where_equals(qb: &mut SelectStatement, t1: &str, c1: &str, t2: &str, c2: &str)
    ensures
        select_model(*final(qb)) == (SelectModel {
            wheres: select_model(*old(qb)).wheres.push(SqlCond::ColEq(col_model(t1, c1), col_model(t2, c2))),
            ..select_model(*old(qb))
        }),
{
    qb.and_where(Expr::col((Alias::new(t1), Alias::new(c1))).equals((Alias::new(t2), Alias::new(c2))));
}

/// `ConditionalStatement::and_where` of sea_query with `Expr::eq`: adds the conjunct
/// `table.col = v`, with `v` bound as a 32-bit integer.
#[verifier::external_body]
pub(crate) fn qb_where_is_i32(qb: &mut SelectStatement, table: &str, col: &str, v: i32)
    ensures
        select_model(*final(qb)) == (SelectModel {
            wheres: select_model(*old(qb)).wheres.push(SqlCond::Is(col_model(table, col), SqlValue::Int(v))),
            ..select_model(*old(qb))
        }),
{
    qb.and_where(Expr::col((Alias::new(table), Alias::new(col))).eq(v));
}

/// `ConditionalStatement::and_where` of sea_query with `Expr::eq`: adds the conjunct
/// `table.col = v`, with `v` bound as a 64-bit integer.
#[verifier::external_body]
pub(crate) fn qb_where_is_i64(qb: &mut SelectStatement, table: &str, col: &str, v: i64)
    ensures
        select_model(*final(qb)) == (SelectModel {
            wheres: select_model(*old(qb)).wheres.push(SqlCond::Is(col_model(table, col), SqlValue::BigInt(v))),
            ..select_model(*old(qb))
        }),
{
    qb.and_where(Expr::col((Alias::new(table), Alias::new(col))).eq(v));
}

/// `SelectStatement::group_by_col` of sea_query: groups by `table.col` too.
#[verifier::external_body]
pub(crate) fn qb_group_by(qb: &mut SelectStatement, table: &str, col: &str)
    ensures
        select_model(*final(qb)) == (SelectModel {
            group: select_model(*old(qb)).group.push(col_model(table, col)),
            ..select_model(*old(qb))
        }),
{
    qb.group_by_col((Alias::new(table), Alias::new(col)));
}

/// `OrderedStatement::order_by` of sea_query with `Order::Desc`: orders by the column named
/// `alias`, descending.
#[verifier::external_body]
pub(crate) fn qb_order_desc(qb: &mut SelectStatement, alias: &str)
    ensures
        select_model(*final(qb)) == (SelectModel {
            order: select_model(*old(qb)).order.push((alias@, true)),
            ..select_model(*old(qb))
        }),
{
    qb.order_by(Alias::new(alias), Order::Desc);
}

/// `OrderedStatement::order_by` of sea_query with `Order::Asc`: orders by the column named
/// `alias`, ascending.
#[verifier::external_body]
pub(crate) fn qb_order_asc(qb: &mut SelectStatement, alias: &str)
    ensures
        select_model(*final(qb)) == (SelectModel {
            order: select_model(*old(qb)).order.push((alias@, false)),
            ..select_model(*old(qb))
        }),
{
    qb.order_by(Alias::new(alias), Order::Asc);
}

/// `SelectStatement::limit` of sea_query: sets the `LIMIT` to `n`.
#[verifier::external_body]
pub(crate) fn qb_limit(qb: &mut SelectStatement, n: u64)
    ensures select_model(*final(qb)) == (SelectModel { limit: Some(n), ..select_model(*old(qb)) }),
{
    qb.limit(n);
}

/// `SelectStatement::offset` of sea_query: sets the `OFFSET` to `n`.
#[verifier::external_body]
pub(crate) fn qb_offset(qb: &mut SelectStatement, n: u64)
    ensures select_model(*final(qb)) == (SelectModel { offset: Some(n), ..select_model(*old(qb)) }),
{
    qb.offset(n);
}

/// `Clone::clone` of sea_query's `SelectStatement`: a statement with the same parts.
#[verifier::external_body]
pub(crate) fn qb_clone(qb: &SelectStatement) -> (r: SelectStatement)
    ensures select_model(r) == select_model(*qb),
{
    qb.clone()
}

/// `SelectStatement::union` of sea_query with `UnionType::Except`: takes out the rows of
/// `other`.
#[verifier::external_body]
pub(crate) fn qb_union_except(qb: &mut SelectStatement, other: SelectStatement)
    ensures
        select_model(*final(qb)) == (SelectModel {
            excepts: select_model(*old(qb)).excepts.push((select_items(other), select_from(other))),
            ..select_model(*old(qb))
        }),
{
    qb.union(UnionType::Except, other);
}

/// `SelectStatement::distinct_on` of sea_query: `DISTINCT ON` the column named `alias`.
#[verifier::external_body]
pub(crate) fn qb_distinct_on(qb: &mut SelectStatement, alias: &str)
    ensures
        select_model(*final(qb)) == (SelectModel { distinct_on: seq![alias@], ..select_model(*old(qb)) }),
{
    qb.distinct_on([Alias::new(alias)]);
}

/// `Query::insert()` of sea_query: an empty `INSERT` statement.
#[verifier::external_body]
fn insert_new() -> (r: InsertStatement)
    ensures
        insert_table(r) is None,
        insert_columns(r) == Seq::<Seq<char>>::empty(),
        insert_rows(r) == Seq::<Seq<SqlValue>>::empty(),
        insert_conflict(r) is None,
        insert_returning(r) is None,
{
    Query::insert()
}

/// `InsertStatement::into_table` of sea_query: sets the table to `table`.
#[verifier::external_body]
fn ins_into_table(q: &mut InsertStatement, table: &str)
    ensures insert_model(*final(q)) == (InsertModel { table: Some(table@), ..insert_model(*old(q)) }),
{
    q.into_table(Alias::new(table));
}

/// The names of `columns`, in order.
pub open spec fn names(columns: Seq<&str>) -> Seq<Seq<char>> {
    columns.map_values(|c: &str| c@)
}

/// `InsertStatement::columns` of sea_query: sets the columns to those named `columns`.
#[verifier::external_body]
fn ins_columns(q: &mut InsertStatement, columns: &Vec<&str>)
    ensures insert_model(*final(q)) == (InsertModel { columns: names(columns@), ..insert_model(*old(q)) }),
{
    q.columns(columns.iter().map(|c| Alias::new(*c)));
}

/// The statement that inserts rows of the columns `columns` into `table`, with no row yet.
pub(crate) fn insert_into(table: &str, columns: &Vec<&str>) -> (r: InsertStatement)
    ensures
        insert_model(r) == (InsertModel {
            table: Some(table@), columns: names(columns@), rows: Seq::empty(), conflict: None, returning: None,
        }),
{
    let mut q = insert_new();
    ins_into_table(&mut q, table);
    ins_columns(&mut q, columns);
    q
}

/// `InsertStatement::on_conflict` of sea_query, with `OnConflict::columns(conflict)` and
/// `update_columns(update)`: on a clash of `conflict`, update `update` from the clashing row.
#[verifier::external_body]
pub(crate) fn ins_on_conflict(q: &mut InsertStatement, conflict: &Vec<&str>, update: &Vec<&str>)
    ensures
        insert_model(*final(q)) == (InsertModel {
            conflict: Some((names(conflict@), names(update@))),
            ..insert_model(*old(q))
        }),
{
    q.on_conflict(
        OnConflict::columns(conflict.iter().map(|c| Alias::new(*c)))
            .update_columns(update.iter().map(|c| Alias::new(*c)))
            .to_owned(),
    );
}

/// `InsertStatement::returning` of sea_query, with `Returning::columns(columns)`: hands back
/// the columns `columns` of each stored row.
#[verifier::external_body]
pub(crate) fn ins_returning(q: &mut InsertStatement, columns: &Vec<&str>)
    ensures
        insert_model(*final(q)) == (InsertModel { returning: Some(names(columns@)), ..insert_model(*old(q)) }),
{
    q.returning(Query::returning().columns(columns.iter().map(|c| Alias::new(*c))));
}

/// `InsertStatement::values` of sea_query with the row `(a, b, c)`: added when the statement
/// has three columns; whether it was.
#[verifier::external_body]
pub(crate) fn ins_row_u64_text_opt(q: &mut InsertStatement, a: u64, b: String, c: Option<String>) -> (r: bool)
    ensures
        r == (insert_columns(*old(q)).len() == 3),
        insert_model(*final(q)) == row_added(insert_model(*old(q)),
            seq![SqlValue::BigUnsigned(a), SqlValue::Text(Some(b@)), SqlValue::Text(opt_text(c))]),
{
    q.values([a.into(), b.into(), c.into()]).is_ok()
}

/// `InsertStatement::values` of sea_query with the row `(a, b, c, d)`: added when the
/// statement has four columns; whether it was.
#[verifier::external_body]
pub(crate) fn ins_row_u64_text_opt_opt(q: &mut InsertStatement, a: u64, b: String, c: Option<String>, d: Option<String>) -> (r: bool)
    ensures
        r == (insert_columns(*old(q)).len() == 4),
        insert_model(*final(q)) == row_added(insert_model(*old(q)),
            seq![SqlValue::BigUnsigned(a), SqlValue::Text(Some(b@)), SqlValue::Text(opt_text(c)), SqlValue::Text(opt_text(d))]),
{
    q.values([a.into(), b.into(), c.into(), d.into()]).is_ok()
}

/// `InsertStatement::values` of sea_query with the row `(a, b, c, d)`: added when the
/// statement has four columns; whether it was.
#[verifier::external_body]
pub(crate) fn ins_row_u64_u64_opt_opt(q: &mut InsertStatement, a: u64, b: u64, c: Option<String>, d: Option<String>) -> (r: bool)
    ensures
        r == (insert_columns(*old(q)).len() == 4),
        insert_model(*final(q)) == row_added(insert_model(*old(q)),
            seq![SqlValue::BigUnsigned(a), SqlValue::BigUnsigned(b), SqlValue::Text(opt_text(c)), SqlValue::Text(opt_text(d))]),
{
    q.values([a.into(), b.into(), c.into(), d.into()]).is_ok()
}

/// `InsertStatement::values` of sea_query with the row `(a, b)`: added when the statement has
/// two columns; whether it was.
#[verifier::external_body]
pub(crate) fn ins_row_i32_text(q: &mut InsertStatement, a: i32, b: String) -> (r: bool)
    ensures
        r == (insert_columns(*old(q)).len() == 2),
        insert_model(*final(q)) == row_added(insert_model(*old(q)), seq![SqlValue::Int(a), SqlValue::Text(Some(b@))]),
{
    q.values([a.into(), b.into()]).is_ok()
}

/// `InsertStatement::values` of sea_query with the row `(a, b, c)`: added when the statement
/// has three columns; whether it was.
#[verifier::external_body]
pub(crate) fn ins_row_i32_i64_i32(q: &mut InsertStatement, a: i32, b: i64, c: i32) -> (r: bool)
    ensures
        r == (insert_columns(*old(q)).len() == 3),
        insert_model(*final(q)) == row_added(insert_model(*old(q)), seq![SqlValue::Int(a), SqlValue::BigInt(b), SqlValue::Int(c)]),
{
    q.values([a.into(), b.into(), c.into()]).is_ok()
}

/// `InsertStatement::values` of sea_query with the row `(a, b, c)`: added when the statement
/// has three columns; whether it was.
#[verifier::external_body]
pub(crate) fn ins_row_i32_i32_i32(q: &mut InsertStatement, a: i32, b: i32, c: i32) -> (r: bool)
    ensures
        r == (insert_columns(*old(q)).len() == 3),
        insert_model(*final(q)) == row_added(insert_model(*old(q)), seq![SqlValue::Int(a), SqlValue::Int(b), SqlValue::Int(c)]),
{
    q.values([a.into(), b.into(), c.into()]).is_ok()
}

/// `InsertStatement::values` of sea_query with the row `(a, b)`: added when the statement has
/// two columns; whether it was.
#[verifier::external_body]
pub(crate) fn ins_row_i64_u64(q: &mut InsertStatement, a: i64, b: u64) -> (r: bool)
    ensures
        r == (insert_columns(*old(q)).len() == 2),
        insert_model(*final(q)) == row_added(insert_model(*old(q)), seq![SqlValue::BigInt(a), SqlValue::BigUnsigned(b)]),
{
    q.values([a.into(), b.into()]).is_ok()
}

/// `Query::delete()` of sea_query: an empty `DELETE` statement.
#[verifier::external_body]
fn delete_new() -> (r: DeleteStatement)
    ensures delete_table(r) is None, delete_where(r) == Seq::<SqlCond>::empty(),
{
    Query::delete()
}

/// `DeleteStatement::from_table` of sea_query: sets the table to `table`.
#[verifier::external_body]
fn del_from_table(q: &mut DeleteStatement, table: &str)
    ensures delete_table(*final(q)) == Some(table@), delete_where(*final(q)) == delete_where(*old(q)),
{
    q.from_table(Alias::new(table));
}

/// The statement that deletes rows of `table`, with no condition yet.
pub(crate) fn delete_from(table: &str) -> (r: DeleteStatement)
    ensures delete_table(r) == Some(table@), delete_where(r) == Seq::<SqlCond>::empty(),
{
    let mut q = delete_new();
    del_from_table(&mut q, table);
    q
}

/// `ConditionalStatement::and_where` of sea_query on a `DELETE` statement with `Expr::eq`:
/// adds the conjunct `col = v`, the column not qualified by a table and `v` bound as an
/// unsigned integer.
#[verifier::external_body]
pub(crate) fn del_where_is_u64(q: &mut DeleteStatement, col: &str, v: u64)
    ensures
        delete_table(*final(q)) == delete_table(*old(q)),
        delete_where(*final(q)) == delete_where(*old(q)).push(SqlCond::Is((Seq::empty(), col@), SqlValue::BigUnsigned(v))),
{
    q.and_where(Expr::col(Alias::new(col)).eq(v));
}

} // verus!
