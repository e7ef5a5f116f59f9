use vstd::prelude::*;
use sea_query::SelectStatement;
use crate::sql::empty_select;
use crate::sql::qb_clone;
use crate::sql::qb_col_as;
use crate::sql::qb_column;
use crate::sql::qb_count_as;
use crate::sql::qb_distinct_on;
use crate::sql::qb_from;
use crate::sql::qb_group_by;
use crate::sql::qb_limit;
use crate::sql::qb_offset;
use crate::sql::qb_order_asc;
use crate::sql::qb_order_desc;
use crate::sql::qb_rank_by_count_as;
use crate::sql::qb_rank_by_sum_as;
use crate::sql::qb_sum_as;
use crate::sql::qb_union_except;
use crate::sql::qb_where_equals;
use crate::sql::qb_where_is_i32;
use crate::sql::qb_where_is_i64;
use crate::sql::select_model;
use crate::sql::select_new;
use crate::sql::ColModel;
use crate::sql::SelectModel;
use crate::sql::SqlAgg;
use crate::sql::SqlCond;
use crate::sql::SqlSelect;
use crate::sql::SqlValue;
use crate::schema::discord_guilds;
use crate::schema::discord_members;
use crate::schema::discord_users;
use crate::schema::steam_accounts;
use crate::schema::steam_apps;
use crate::schema::steam_playdata;

verus! {

/// What a top list ranks, and where it looks.
#[derive(Clone, Copy, PartialEq, Eq, Structural)]
pub enum TopQueryArgs {
    /// Apps by play time: of one user, of the members of a guild, or of everyone.
    TopApps { guild_id: i64, global: bool, user_id: Option<i64> },
    /// Guilds by the play time of their members, in one app or in all.
    TopGuilds { app_id: Option<i32> },
    /// Users by play time or by number of apps, among the members of a guild or everyone.
    TopUsers { guild_id: i64, global: bool, app_id: Option<i32>, appcount: bool },
}

/// The measure that ranks the rows.
#[derive(Clone, Copy, PartialEq, Eq, Structural)]
pub enum Aggregate {
    /// `SUM(steam_playdata.mins)`
    SumMins,
    /// `COUNT(steam_playdata.app_id)`
    CountApps,
}

/// What is ranked: its id and name are selected, and rows are grouped by its id.
#[derive(Clone, Copy, PartialEq, Eq, Structural)]
pub enum Subject {
    Apps,
    Guilds,
    Users,
}

/// A table in the `FROM` list.
#[derive(Clone, Copy, PartialEq, Eq, Structural)]
pub enum Source {
    PlayData,
    Apps,
    Accounts,
    Members,
    Guilds,
    Users,
}

/// A table-qualified column.
#[derive(Clone, Copy, PartialEq, Eq, Structural)]
pub enum Column {
    PlayDataMins,
    PlayDataAppId,
    PlayDataAccId,
    AppsId,
    AppsName,
    AccountsId,
    AccountsDiscordId,
    MembersUserId,
    MembersGuildId,
    GuildsId,
    GuildsName,
    UsersId,
    UsersUsername,
}

/// A value bound into a condition.
#[derive(Clone, Copy, PartialEq, Eq, Structural)]
pub enum Bound {
    Int(i32),
    BigInt(i64),
}

/// A condition of the `WHERE` clause; all of them must hold.
#[derive(Clone, Copy, PartialEq, Eq, Structural)]
pub enum Cond {
    /// The two columns are equal.
    Equals(Column, Column),
    /// The column holds the value.
    Is(Column, Bound),
}

/// The parts of a top list query, in the order the query lists them.
pub struct TopQuery {
    pub aggregate: Aggregate,
    pub subject: Subject,
    pub from: Vec<Source>,
    pub conds: Vec<Cond>,
}

/// The parts of a top list query, as values.
pub struct TopQuerySpec {
    pub aggregate: Aggregate,
    pub subject: Subject,
    pub from: Seq<Source>,
    pub conds: Seq<Cond>,
}

impl View for TopQuery {
    type V = TopQuerySpec;

    open spec fn view(&self) -> TopQuerySpec {
        TopQuerySpec {
            aggregate: self.aggregate,
            subject: self.subject,
            from: self.from@,
            conds: self.conds@,
        }
    }
}

/// The conditions that restrict play data to `app_id`, when there is one.
pub open spec fn app_filter(app_id: Option<i32>) -> Seq<Cond> {
    match app_id {
        Some(a) => seq![Cond::Is(Column::PlayDataAppId, Bound::Int(a))],
        None => seq![],
    }
}

/// The top list query for `args`.
pub open spec fn top_query_spec(args: TopQueryArgs) -> TopQuerySpec {
    match args {
        TopQueryArgs::TopApps { guild_id, global, user_id } => TopQuerySpec {
            aggregate: Aggregate::SumMins,
            subject: Subject::Apps,
            from: seq![Source::PlayData, Source::Apps] + match user_id {
                Some(_) => seq![Source::Accounts],
                None => if global { Seq::empty() } else { seq![Source::Accounts, Source::Members] },
            },
            conds: seq![Cond::Equals(Column::AppsId, Column::PlayDataAppId)] + match user_id {
                Some(u) => seq![
                    Cond::Equals(Column::AccountsId, Column::PlayDataAccId),
                    Cond::Is(Column::AccountsDiscordId, Bound::BigInt(u)),
                ],
                None => if global {
                    Seq::empty()
                } else {
                    seq![
                        Cond::Equals(Column::AccountsId, Column::PlayDataAccId),
                        Cond::Equals(Column::AccountsDiscordId, Column::MembersUserId),
                        Cond::Is(Column::MembersGuildId, Bound::BigInt(guild_id)),
                    ]
                },
            },
        },
        TopQueryArgs::TopGuilds { app_id } => TopQuerySpec {
            aggregate: Aggregate::SumMins,
            subject: Subject::Guilds,
            from: seq![Source::PlayData, Source::Accounts, Source::Guilds, Source::Members],
            conds: seq![
                Cond::Equals(Column::AccountsId, Column::PlayDataAccId),
                Cond::Equals(Column::AccountsDiscordId, Column::MembersUserId),
                Cond::Equals(Column::GuildsId, Column::MembersGuildId),
            ] + app_filter(app_id),
        },
        TopQueryArgs::TopUsers { guild_id, global, app_id, appcount } => TopQuerySpec {
            aggregate: if appcount { Aggregate::CountApps } else { Aggregate::SumMins },
            subject: Subject::Users,
            from: seq![Source::PlayData, Source::Users, Source::Accounts]
                + if global { Seq::empty() } else { seq![Source::Members] },
            conds: seq![Cond::Equals(Column::AccountsId, Column::PlayDataAccId)] + app_filter(app_id)
                + if global {
                seq![Cond::Equals(Column::AccountsDiscordId, Column::UsersId)]
            } else {
                seq![
                    Cond::Equals(Column::UsersId, Column::MembersUserId),
                    Cond::Equals(Column::AccountsDiscordId, Column::MembersUserId),
                    Cond::Is(Column::MembersGuildId, Bound::BigInt(guild_id)),
                ]
            },
        },
    }
}

/// The parts of the top list query for `args`.
pub fn top_query_plan(args: TopQueryArgs) -> (q: TopQuery)
    ensures q@ == top_query_spec(args),
{
    let mut from: Vec<Source> = Vec::new();
    let mut conds: Vec<Cond> = Vec::new();
    from.push(Source::PlayData);
    match args {
        TopQueryArgs::TopApps { guild_id, global, user_id } => {
            from.push(Source::Apps);
            conds.push(Cond::Equals(Column::AppsId, Column::PlayDataAppId));
            match user_id {
                Some(u) => {
                    from.push(Source::Accounts);
                    conds.push(Cond::Equals(Column::AccountsId, Column::PlayDataAccId));
                    conds.push(Cond::Is(Column::AccountsDiscordId, Bound::BigInt(u)));
                },
                None => {
                    if !global {
                        from.push(Source::Accounts);
                        conds.push(Cond::Equals(Column::AccountsId, Column::PlayDataAccId));
                        from.push(Source::Members);
                        conds.push(Cond::Equals(Column::AccountsDiscordId, Column::MembersUserId));
                        conds.push(Cond::Is(Column::MembersGuildId, Bound::BigInt(guild_id)));
                    }
                },
            }
            let q = TopQuery { aggregate: Aggregate::SumMins, subject: Subject::Apps, from, conds };
            assert(q.from@ =~= top_query_spec(args).from);
            assert(q.conds@ =~= top_query_spec(args).conds);
            q
        },
        TopQueryArgs::TopGuilds { app_id } => {
            conds.push(Cond::Equals(Column::AccountsId, Column::PlayDataAccId));
            conds.push(Cond::Equals(Column::AccountsDiscordId, Column::MembersUserId));
            conds.push(Cond::Equals(Column::GuildsId, Column::MembersGuildId));
            from.push(Source::Accounts);
            from.push(Source::Guilds);
            from.push(Source::Members);
            if let Some(a) = app_id {
                conds.push(Cond::Is(Column::PlayDataAppId, Bound::Int(a)));
            }
            let q = TopQuery { aggregate: Aggregate::SumMins, subject: Subject::Guilds, from, conds };
            assert(q.from@ =~= top_query_spec(args).from);
            assert(q.conds@ =~= top_query_spec(args).conds);
            q
        },
        TopQueryArgs::TopUsers { guild_id, global, app_id, appcount } => {
            let aggregate = if appcount { Aggregate::CountApps } else { Aggregate::SumMins };
            from.push(Source::Users);
            from.push(Source::Accounts);
            conds.push(Cond::Equals(Column::AccountsId, Column::PlayDataAccId));
            if let Some(a) = app_id {
                conds.push(Cond::Is(Column::PlayDataAppId, Bound::Int(a)));
            }
            if !global {
                from.push(Source::Members);
                conds.push(Cond::Equals(Column::UsersId, Column::MembersUserId));
                conds.push(Cond::Equals(Column::AccountsDiscordId, Column::MembersUserId));
                conds.push(Cond::Is(Column::MembersGuildId, Bound::BigInt(guild_id)));
            } else {
                conds.push(Cond::Equals(Column::AccountsDiscordId, Column::UsersId));
            }
            let q = TopQuery { aggregate, subject: Subject::Users, from, conds };
            assert(q.from@ =~= top_query_spec(args).from);
            assert(q.conds@ =~= top_query_spec(args).conds);
            q
        },
    }
}


impl Source {
    pub open spec fn spec_table(self) -> Seq<char> {
        match self {
            Source::PlayData => steam_playdata::Table.spec_iden(),
            Source::Apps => steam_apps::Table.spec_iden(),
            Source::Accounts => steam_accounts::Table.spec_iden(),
            Source::Members => discord_members::Table.spec_iden(),
            Source::Guilds => discord_guilds::Table.spec_iden(),
            Source::Users => discord_users::Table.spec_iden(),
        }
    }

    /// The table's SQL name.
    pub fn table(self) -> (r: &'static str)
        ensures r@ == self.spec_table(),
    {
        match self {
            Source::PlayData => steam_playdata::Table.iden(),
            Source::Apps => steam_apps::Table.iden(),
            Source::Accounts => steam_accounts::Table.iden(),
            Source::Members => discord_members::Table.iden(),
            Source::Guilds => discord_guilds::Table.iden(),
            Source::Users => discord_users::Table.iden(),
        }
    }
}

impl Column {
    pub open spec fn spec_parts(self) -> (Seq<char>, Seq<char>) {
        match self {
            Column::PlayDataMins => (steam_playdata::Table.spec_iden(), steam_playdata::mins.spec_iden()),
            Column::PlayDataAppId => (steam_playdata::Table.spec_iden(), steam_playdata::app_id.spec_iden()),
            Column::PlayDataAccId => (steam_playdata::Table.spec_iden(), steam_playdata::acc_id.spec_iden()),
            Column::AppsId => (steam_apps::Table.spec_iden(), steam_apps::id.spec_iden()),
            Column::AppsName => (steam_apps::Table.spec_iden(), steam_apps::name.spec_iden()),
            Column::AccountsId => (steam_accounts::Table.spec_iden(), steam_accounts::id.spec_iden()),
            Column::AccountsDiscordId => (steam_accounts::Table.spec_iden(), steam_accounts::discord_id.spec_iden()),
            Column::MembersUserId => (discord_members::Table.spec_iden(), discord_members::user_id.spec_iden()),
            Column::MembersGuildId => (discord_members::Table.spec_iden(), discord_members::guild_id.spec_iden()),
            Column::GuildsId => (discord_guilds::Table.spec_iden(), discord_guilds::id.spec_iden()),
            Column::GuildsName => (discord_guilds::Table.spec_iden(), discord_guilds::name.spec_iden()),
            Column::UsersId => (discord_users::Table.spec_iden(), discord_users::id.spec_iden()),
            Column::UsersUsername => (discord_users::Table.spec_iden(), discord_users::username.spec_iden()),
        }
    }

    /// The SQL names of the column's table and of the column.
    pub fn parts(self) -> (r: (&'static str, &'static str))
        ensures r.0@ == self.spec_parts().0, r.1@ == self.spec_parts().1,
    {
        match self {
            Column::PlayDataMins => (steam_playdata::Table.iden(), steam_playdata::mins.iden()),
            Column::PlayDataAppId => (steam_playdata::Table.iden(), steam_playdata::app_id.iden()),
            Column::PlayDataAccId => (steam_playdata::Table.iden(), steam_playdata::acc_id.iden()),
            Column::AppsId => (steam_apps::Table.iden(), steam_apps::id.iden()),
            Column::AppsName => (steam_apps::Table.iden(), steam_apps::name.iden()),
            Column::AccountsId => (steam_accounts::Table.iden(), steam_accounts::id.iden()),
            Column::AccountsDiscordId => (steam_accounts::Table.iden(), steam_accounts::discord_id.iden()),
            Column::MembersUserId => (discord_members::Table.iden(), discord_members::user_id.iden()),
            Column::MembersGuildId => (discord_members::Table.iden(), discord_members::guild_id.iden()),
            Column::GuildsId => (discord_guilds::Table.iden(), discord_guilds::id.iden()),
            Column::GuildsName => (discord_guilds::Table.iden(), discord_guilds::name.iden()),
            Column::UsersId => (discord_users::Table.iden(), discord_users::id.iden()),
            Column::UsersUsername => (discord_users::Table.iden(), discord_users::username.iden()),
        }
    }
}

impl Column {
    /// The table that holds the column.
    pub open spec fn source(self) -> Source {
        match self {
            Column::PlayDataMins | Column::PlayDataAppId | Column::PlayDataAccId => Source::PlayData,
            Column::AppsId | Column::AppsName => Source::Apps,
            Column::AccountsId | Column::AccountsDiscordId => Source::Accounts,
            Column::MembersUserId | Column::MembersGuildId => Source::Members,
            Column::GuildsId | Column::GuildsName => Source::Guilds,
            Column::UsersId | Column::UsersUsername => Source::Users,
        }
    }
}

impl Cond {
    /// Every column of the condition belongs to a table of `from`.
    pub open spec fn within(self, from: Seq<Source>) -> bool {
        match self {
            Cond::Equals(a, b) => from.contains(a.source()) && from.contains(b.source()),
            Cond::Is(a, _) => from.contains(a.source()),
        }
    }
}

impl Subject {
    /// The columns selected for the ranked thing: its id, then its name.
    pub open spec fn spec_columns(self) -> (Column, Column) {
        match self {
            Subject::Apps => (Column::AppsId, Column::AppsName),
            Subject::Guilds => (Column::GuildsId, Column::GuildsName),
            Subject::Users => (Column::UsersId, Column::UsersUsername),
        }
    }

    /// The columns selected for the ranked thing: its id, then its name.
    pub fn columns(self) -> (r: (Column, Column))
        ensures r == self.spec_columns(),
    {
        match self {
            Subject::Apps => (Column::AppsId, Column::AppsName),
            Subject::Guilds => (Column::GuildsId, Column::GuildsName),
            Subject::Users => (Column::UsersId, Column::UsersUsername),
        }
    }
}

/// The conjunct that the condition `c` adds to a `WHERE` clause.
pub open spec fn cond_model(c: Cond) -> SqlCond {
    match c {
        Cond::Equals(a, b) => SqlCond::ColEq(a.spec_parts(), b.spec_parts()),
        Cond::Is(a, Bound::Int(v)) => SqlCond::Is(a.spec_parts(), SqlValue::Int(v)),
        Cond::Is(a, Bound::BigInt(v)) => SqlCond::Is(a.spec_parts(), SqlValue::BigInt(v)),
    }
}

/// The aggregate and the column that rank the rows under `a`.
pub open spec fn measure(a: Aggregate) -> (SqlAgg, ColModel) {
    match a {
        Aggregate::SumMins => (SqlAgg::Sum, Column::PlayDataMins.spec_parts()),
        Aggregate::CountApps => (SqlAgg::Count, Column::PlayDataAppId.spec_parts()),
    }
}

/// The table names of `from`, in order.
pub open spec fn table_names(from: Seq<Source>) -> Seq<Seq<char>> {
    from.map_values(|t: Source| t.spec_table())
}

/// The conjuncts of `conds`, in order.
pub open spec fn cond_models(conds: Seq<Cond>) -> Seq<SqlCond> {
    conds.map_values(|c: Cond| cond_model(c))
}

/// The `SELECT` statement of the plan `p`: the measure named `mins_sum`, the rank
/// `ROW_NUMBER()` over the measure descending named `row_num`, the subject's id and name; the
/// tables and conjuncts of the plan, in order; grouped by the subject's id; ordered by
/// `mins_sum` descending.
pub open spec fn plan_select(p: TopQuerySpec) -> SelectModel {
    let (agg, col) = measure(p.aggregate);
    SelectModel {
        items: seq![
            SqlSelect::AggAs(agg, col, "mins_sum"@),
            SqlSelect::RankAs(agg, col, "row_num"@),
            SqlSelect::Column(p.subject.spec_columns().0.spec_parts()),
            SqlSelect::Column(p.subject.spec_columns().1.spec_parts()),
        ],
        from: table_names(p.from),
        wheres: cond_models(p.conds),
        group: seq![p.subject.spec_columns().0.spec_parts()],
        order: seq![("mins_sum"@, true)],
        ..empty_select()
    }
}

/// The `SELECT` statement with the parts of `plan`, as [`plan_select`] says.
pub fn build_select(plan: &TopQuery) -> (r: SelectStatement)
    ensures select_model(r) == plan_select(plan@),
{
    let ghost target = plan_select(plan@);
    let mut qb = select_new();
    let (pt, pm) = Column::PlayDataMins.parts();
    let (at, aa) = Column::PlayDataAppId.parts();
    match plan.aggregate {
        Aggregate::SumMins => {
            qb_sum_as(&mut qb, pt, pm, "mins_sum");
            qb_rank_by_sum_as(&mut qb, pt, pm, "row_num");
        },
        Aggregate::CountApps => {
            qb_count_as(&mut qb, at, aa, "mins_sum");
            qb_rank_by_count_as(&mut qb, at, aa, "row_num");
        },
    }
    let (id_col, name_col) = plan.subject.columns();
    let (it, ic) = id_col.parts();
    let (nt, nc) = name_col.parts();
    qb_column(&mut qb, it, ic);
    qb_column(&mut qb, nt, nc);
    assert(select_model(qb).items =~= target.items);
    assert(select_model(qb).from =~= table_names(plan@.from.take(0)));
    assert(select_model(qb).distinct_on =~= target.distinct_on);
    assert(select_model(qb).excepts =~= target.excepts);
    assert(select_model(qb).wheres =~= Seq::<SqlCond>::empty());
    assert(select_model(qb).group =~= Seq::<ColModel>::empty());
    assert(select_model(qb).order =~= Seq::<(Seq<char>, bool)>::empty());
    let mut i: usize = 0;
    while i < plan.from.len()
        invariant
            i <= plan.from.len(),
            target == plan_select(plan@),
            it@ == plan@.subject.spec_columns().0.spec_parts().0,
            ic@ == plan@.subject.spec_columns().0.spec_parts().1,
            select_model(qb) == (SelectModel {
                from: table_names(plan@.from.take(i as int)),
                wheres: Seq::empty(),
                group: Seq::empty(),
                order: Seq::empty(),
                ..target
            }),
        decreases plan.from.len() - i,
    {
        qb_from(&mut qb, plan.from[i].table());
        assert(table_names(plan@.from.take(i + 1)) =~= table_names(plan@.from.take(i as int)).push(plan@.from[i as int].spec_table()));
        i += 1;
    }
    assert(plan@.from.take(plan.from.len() as int) =~= plan@.from);
    assert(select_model(qb).wheres =~= cond_models(plan@.conds.take(0)));
    let mut j: usize = 0;
    while j < plan.conds.len()
        invariant
            j <= plan.conds.len(),
            target == plan_select(plan@),
            it@ == plan@.subject.spec_columns().0.spec_parts().0,
            ic@ == plan@.subject.spec_columns().0.spec_parts().1,
            select_model(qb) == (SelectModel {
                wheres: cond_models(plan@.conds.take(j as int)),
                group: Seq::empty(),
                order: Seq::empty(),
                ..target
            }),
        decreases plan.conds.len() - j,
    {
        match plan.conds[j] {
            Cond::Equals(a, b) => {
                let (t1, c1) = a.parts();
                let (t2, c2) = b.parts();
                qb_where_equals(&mut qb, t1, c1, t2, c2);
            },
            Cond::Is(a, Bound::Int(v)) => {
                let (t1, c1) = a.parts();
                qb_where_is_i32(&mut qb, t1, c1, v);
            },
            Cond::Is(a, Bound::BigInt(v)) => {
                let (t1, c1) = a.parts();
                qb_where_is_i64(&mut qb, t1, c1, v);
            },
        }
        assert(cond_models(plan@.conds.take(j + 1)) =~= cond_models(plan@.conds.take(j as int)).push(cond_model(plan@.conds[j as int])));
        j += 1;
    }
    assert(plan@.conds.take(plan.conds.len() as int) =~= plan@.conds);
    qb_group_by(&mut qb, it, ic);
    qb_order_desc(&mut qb, "mins_sum");
    assert(select_model(qb).group =~= target.group);
    assert(select_model(qb).order =~= target.order);
    qb
}

/// The top list query for `args`, as a sea_query `SELECT` statement with the parts of the plan
/// that [`top_query_spec`] gives.
pub fn top_query_builder(args: TopQueryArgs) -> (r: SelectStatement)
    ensures select_model(r) == plan_select(top_query_spec(args)),
{
    let plan = top_query_plan(args);
    build_select(&plan)
}

/// The `LIMIT` and `OFFSET` of one page of a paged query.
#[derive(Clone, Copy, PartialEq, Eq, Structural)]
pub struct PageWindow {
    pub limit: u64,
    pub offset: Option<u64>,
}

/// The rows fetched for page `page` of `size` rows: the first page and the row after it; on a
/// later page, also the row before it.
pub open spec fn page_window_spec(size: nat, page: nat) -> (nat, Option<nat>) {
    if page == 0 {
        (size + 1, None)
    } else {
        (size + 2, Some((page * size - 1) as nat))
    }
}

/// The `LIMIT` and `OFFSET` for page `page` of `size` rows.
pub fn page_window(size: u64, page: u64) -> (w: PageWindow)
    requires
        page == 0 ==> size + 1 <= u64::MAX,
        page > 0 ==> size + 2 <= u64::MAX && 1 <= page * size <= u64::MAX,
    ensures
        w.limit == page_window_spec(size as nat, page as nat).0,
        w.offset matches Some(o) ==> page_window_spec(size as nat, page as nat).1 == Some(o as nat),
        w.offset is None ==> page_window_spec(size as nat, page as nat).1 is None,
{
    if page == 0 {
        PageWindow { limit: size + 1, offset: None }
    } else {
        PageWindow { limit: size + 2, offset: Some(page * size - 1) }
    }
}

/// The parts of `m` restricted to page `page` of `size` rows: the `LIMIT` of
/// [`page_window_spec`], and its `OFFSET` past the first page.
pub open spec fn paged_model(m: SelectModel, size: nat, page: nat) -> SelectModel {
    SelectModel {
        limit: Some(page_window_spec(size, page).0 as u64),
        offset: if page == 0 { m.offset } else { Some(page_window_spec(size, page).1->Some_0 as u64) },
        ..m
    }
}

/// The statement `s` restricted to page `page` of `size` rows, as [`page_window`] computes it.
pub fn paged_select(s: &SelectStatement, size: u64, page: u64) -> (r: SelectStatement)
    requires
        page == 0 ==> size + 1 <= u64::MAX,
        page > 0 ==> size + 2 <= u64::MAX && 1 <= page * size <= u64::MAX,
    ensures select_model(r) == paged_model(select_model(*s), size as nat, page as nat),
{
    let mut sb = qb_clone(s);
    let w = page_window(size, page);
    qb_limit(&mut sb, w.limit);
    if let Some(o) = w.offset {
        qb_offset(&mut sb, o);
    }
    sb
}

/// The parts of the query of the unlinked members: the member ids as `id`, from the members,
/// except the linked Discord ids as `id` from the accounts, distinct on `id`, ordered by `id`
/// ascending; unless `global`, only the members of the guild `guild_id`.
pub open spec fn missing_select(global: bool, guild_id: u64) -> SelectModel {
    SelectModel {
        items: seq![SqlSelect::ColAs(Column::MembersUserId.spec_parts(), "id"@)],
        from: seq![Source::Members.spec_table()],
        wheres: if global {
            Seq::empty()
        } else {
            seq![SqlCond::Is(Column::MembersGuildId.spec_parts(), SqlValue::BigInt(guild_id as i64))]
        },
        order: seq![("id"@, false)],
        distinct_on: seq!["id"@],
        excepts: seq![(seq![SqlSelect::ColAs(Column::AccountsDiscordId.spec_parts(), "id"@)], seq![Source::Accounts.spec_table()])],
        ..empty_select()
    }
}

/// The query of the members, as `id`, that linked no Steam account, as [`missing_select`]
/// says.
pub fn missing_query(global: bool, guild_id: u64) -> (r: SelectStatement)
    ensures select_model(r) == missing_select(global, guild_id),
{
    let (mt, mu) = Column::MembersUserId.parts();
    let (at, ad) = Column::AccountsDiscordId.parts();
    let mut linked = select_new();
    qb_col_as(&mut linked, at, ad, "id");
    qb_from(&mut linked, Source::Accounts.table());
    let mut qb = select_new();
    qb_col_as(&mut qb, mt, mu, "id");
    qb_from(&mut qb, Source::Members.table());
    qb_union_except(&mut qb, linked);
    qb_distinct_on(&mut qb, "id");
    qb_order_asc(&mut qb, "id");
    if !global {
        let (gt, gc) = Column::MembersGuildId.parts();
        qb_where_is_i64(&mut qb, gt, gc, guild_id as i64);
    }
    proof {
        let m = select_model(qb);
        let t = missing_select(global, guild_id);
        assert(m.items =~= t.items);
        assert(m.from =~= t.from);
        assert(m.wheres =~= t.wheres);
        assert(m.order =~= t.order);
        assert(m.distinct_on =~= t.distinct_on);
        assert(m.excepts =~= t.excepts);
    }
    qb
}

} // verus!
