use vstd::prelude::*;
use crate::query::top_query_spec;
use crate::query::app_filter;
use crate::query::Bound;
use crate::query::Column;
use crate::query::Cond;
use crate::query::Source;
use crate::query::TopQueryArgs;
use crate::query::Aggregate;
use crate::query::Subject;
use crate::query::plan_select;
use crate::query::measure;
use crate::sql::SqlSelect;
use crate::discord::MemberRow;
use crate::discord::UserRow;
use crate::locale::opt_text;
use crate::sql::InsertModel;
use crate::sql::SqlValue;
use crate::statements::account_insert_model;
use crate::statements::apps_upsert_model;
use crate::statements::guild_upsert_model;
use crate::statements::guild_values;
use crate::statements::members_upsert_model;
use crate::statements::play_data_upsert_model;
use crate::statements::play_hist_upsert_model;
use crate::statements::users_upsert_model;

verus! {

/// The condition `c` equates a column of `s` with a column of `t`.
pub open spec fn joins(c: Cond, s: Source, t: Source) -> bool {
    match c {
        Cond::Equals(a, b) => (a.source() == s && b.source() == t) || (a.source() == t && b.source() == s),
        Cond::Is(_, _) => false,
    }
}

/// The table `s` is play data, or is tied to play data by a chain of at most `n` equalities
/// among `conds`, each between a column of one table of the chain and one of the next.
pub open spec fn joined(conds: Seq<Cond>, s: Source, n: nat) -> bool
    decreases n,
{
    s == Source::PlayData || (n > 0 && exists|i: int, t: Source|
        0 <= i < conds.len() && #[trigger] joins(conds[i], s, t) && joined(conds, t, (n - 1) as nat))
}

proof fn lemma_link(conds: Seq<Cond>, i: int, s: Source, t: Source, n: nat)
    requires
        0 <= i < conds.len(),
        joins(conds[i], s, t),
        n > 0,
        joined(conds, t, (n - 1) as nat),
    ensures joined(conds, s, n),
{
}

/// Every table that a top list query reads is tied to play data by equalities of its
/// conditions: no table is left joined to nothing, so each row of the result sums only play
/// data that belongs to it. For the top apps of a guild in particular, play data is tied to
/// the accounts, the accounts to the guild's members, and the members to the guild.
pub proof fn law_top_query_tables_joined(args: TopQueryArgs)
    ensures
        forall|i: int| 0 <= i < top_query_spec(args).from.len() ==>
            joined(top_query_spec(args).conds, #[trigger] top_query_spec(args).from[i], top_query_spec(args).from.len() as nat),
        forall|g: i64| args == (TopQueryArgs::TopApps { guild_id: g, global: false, user_id: None }) ==> {
            &&& top_query_spec(args).conds.contains(Cond::Equals(Column::AccountsId, Column::PlayDataAccId))
            &&& top_query_spec(args).conds.contains(Cond::Equals(Column::AccountsDiscordId, Column::MembersUserId))
            &&& #[trigger] top_query_spec(args).conds.contains(Cond::Is(Column::MembersGuildId, Bound::BigInt(g)))
        },
{
    let q = top_query_spec(args);
    let c = q.conds;
    let n = q.from.len() as nat;
    assert(joined(c, Source::PlayData, 0));
    assert(joined(c, Source::PlayData, 1));
    assert(joined(c, Source::PlayData, 2));
    match args {
        TopQueryArgs::TopApps { guild_id, global, user_id } => {
            lemma_link(c, 0, Source::Apps, Source::PlayData, n);
            if user_id is Some || !global {
                lemma_link(c, 1, Source::Accounts, Source::PlayData, n);
                lemma_link(c, 1, Source::Accounts, Source::PlayData, (n - 1) as nat);
            }
            if user_id is None && !global {
                lemma_link(c, 2, Source::Members, Source::Accounts, n);
                assert(c[1] == Cond::Equals(Column::AccountsId, Column::PlayDataAccId));
                assert(c[2] == Cond::Equals(Column::AccountsDiscordId, Column::MembersUserId));
                assert(c[3] == Cond::Is(Column::MembersGuildId, Bound::BigInt(guild_id)));
            }
        },
        TopQueryArgs::TopGuilds { app_id } => {
            lemma_link(c, 0, Source::Accounts, Source::PlayData, n);
            lemma_link(c, 0, Source::Accounts, Source::PlayData, (n - 2) as nat);
            lemma_link(c, 1, Source::Members, Source::Accounts, n);
            lemma_link(c, 1, Source::Members, Source::Accounts, (n - 1) as nat);
            lemma_link(c, 2, Source::Guilds, Source::Members, n);
        },
        TopQueryArgs::TopUsers { guild_id, global, app_id, appcount } => {
            let f = app_filter(app_id).len() as int;
            lemma_link(c, 0, Source::Accounts, Source::PlayData, n);
            lemma_link(c, 0, Source::Accounts, Source::PlayData, (n - 1) as nat);
            lemma_link(c, 0, Source::Accounts, Source::PlayData, (n - 2) as nat);
            if global {
                lemma_link(c, 1 + f, Source::Users, Source::Accounts, n);
            } else {
                lemma_link(c, 2 + f, Source::Members, Source::Accounts, n);
                lemma_link(c, 2 + f, Source::Members, Source::Accounts, (n - 1) as nat);
                lemma_link(c, 1 + f, Source::Users, Source::Members, n);
            }
        },
    }
}

/// What each top list ranks and how it narrows the play data: apps, guilds or users, by the
/// count of apps only for the users' list that asks for it, else by minutes played; a user's
/// list of apps keeps that user's accounts, a list for one app keeps that app, and a guild's
/// list keeps its members; a list over everyone reads no members at all.
pub proof fn law_top_query_filters(args: TopQueryArgs)
    ensures
        (top_query_spec(args).aggregate == Aggregate::CountApps) == (args matches TopQueryArgs::TopUsers { appcount, .. } && appcount),
        top_query_spec(args).subject == match args {
            TopQueryArgs::TopApps { .. } => Subject::Apps,
            TopQueryArgs::TopGuilds { .. } => Subject::Guilds,
            TopQueryArgs::TopUsers { .. } => Subject::Users,
        },
        forall|u: i64| args == (TopQueryArgs::TopApps { guild_id: args->TopApps_guild_id, global: args->TopApps_global, user_id: Some(u) })
            ==> #[trigger] top_query_spec(args).conds.contains(Cond::Is(Column::AccountsDiscordId, Bound::BigInt(u))),
        forall|a: i32| (args matches TopQueryArgs::TopGuilds { app_id } && app_id == Some(a))
            || (args matches TopQueryArgs::TopUsers { app_id, .. } && app_id == Some(a))
            ==> #[trigger] top_query_spec(args).conds.contains(Cond::Is(Column::PlayDataAppId, Bound::Int(a))),
        forall|g: i64| args == (TopQueryArgs::TopUsers { guild_id: g, global: false, app_id: args->TopUsers_app_id, appcount: args->TopUsers_appcount })
            ==> #[trigger] top_query_spec(args).conds.contains(Cond::Is(Column::MembersGuildId, Bound::BigInt(g))),
        (args matches TopQueryArgs::TopApps { global, user_id, .. } && (global || user_id is Some))
            || (args matches TopQueryArgs::TopUsers { global, .. } && global)
            ==> !top_query_spec(args).from.contains(Source::Members),
{
    let q = top_query_spec(args);
    let c = q.conds;
    match args {
        TopQueryArgs::TopApps { guild_id, global, user_id } => {
            if let Some(u) = user_id {
                assert(c[2] == Cond::Is(Column::AccountsDiscordId, Bound::BigInt(u)));
                assert(q.from =~= seq![Source::PlayData, Source::Apps, Source::Accounts]);
            } else if global {
                assert(q.from =~= seq![Source::PlayData, Source::Apps]);
            }
        },
        TopQueryArgs::TopGuilds { app_id } => {
            if let Some(a) = app_id {
                assert(c[3] == Cond::Is(Column::PlayDataAppId, Bound::Int(a)));
            }
        },
        TopQueryArgs::TopUsers { guild_id, global, app_id, appcount } => {
            if let Some(a) = app_id {
                assert(c[1] == Cond::Is(Column::PlayDataAppId, Bound::Int(a)));
            }
            let f = app_filter(app_id).len() as int;
            if global {
                assert(q.from =~= seq![Source::PlayData, Source::Users, Source::Accounts]);
            } else {
                assert(c[3 + f] == Cond::Is(Column::MembersGuildId, Bound::BigInt(guild_id)));
            }
        },
    }
}

/// The rank of a top list orders by the very measure that the list sums, and the list is
/// ordered by that measure, highest first; it is grouped by the ranked thing's id.
pub proof fn law_top_query_rank_follows_measure(args: TopQueryArgs)
    ensures
        plan_select(top_query_spec(args)).items[0] == SqlSelect::AggAs(measure(top_query_spec(args).aggregate).0, measure(top_query_spec(args).aggregate).1, "mins_sum"@),
        plan_select(top_query_spec(args)).items[1] == SqlSelect::RankAs(measure(top_query_spec(args).aggregate).0, measure(top_query_spec(args).aggregate).1, "row_num"@),
        plan_select(top_query_spec(args)).order == seq![("mins_sum"@, true)],
        plan_select(top_query_spec(args)).group == seq![top_query_spec(args).subject.spec_columns().0.spec_parts()],
{
}

/// In row `k` of `m`, the value under the column named `col` is `v`: the row has one value
/// per column, the column is among them, and every place it has in the list holds `v`.
pub open spec fn value_under(m: InsertModel, k: int, col: Seq<char>, v: SqlValue) -> bool {
    &&& 0 <= k < m.rows.len()
    &&& m.rows[k].len() == m.columns.len()
    &&& m.columns.contains(col)
    &&& forall|j: int| 0 <= j < m.columns.len() && #[trigger] m.columns[j] == col ==> m.rows[k][j] == v
}

proof fn lemma_value_under(m: InsertModel, k: int, j: int, v: SqlValue)
    requires
        0 <= k < m.rows.len(),
        m.rows[k].len() == m.columns.len(),
        0 <= j < m.columns.len(),
        m.rows[k][j] == v,
        forall|i: int| 0 <= i < m.columns.len() && i != j ==> m.columns[i] != m.columns[j],
    ensures value_under(m, k, m.columns[j], v),
{
    assert(m.columns.contains(m.columns[j]));
}

/// Each day of play history is stored with its values under the columns of their names: the
/// play row under `play_id`, the day under `utc_day`, the minutes under `mins`, one row per
/// input row, in the table `steam_playhist`.
pub proof fn law_play_hist_columns(rows: Seq<(i32, i32, i32)>)
    ensures
        play_hist_upsert_model(rows).table == Some("steam_playhist"@),
        play_hist_upsert_model(rows).rows.len() == rows.len(),
        forall|k: int| 0 <= k < rows.len() ==> {
            &&& value_under(play_hist_upsert_model(rows), k, "play_id"@, SqlValue::Int(#[trigger] rows[k].0))
            &&& value_under(play_hist_upsert_model(rows), k, "utc_day"@, SqlValue::Int(rows[k].1))
            &&& value_under(play_hist_upsert_model(rows), k, "mins"@, SqlValue::Int(rows[k].2))
        },
{
    reveal_strlit("play_id");
    reveal_strlit("utc_day");
    reveal_strlit("mins");
    let m = play_hist_upsert_model(rows);
    assert(m.columns =~= seq!["play_id"@, "utc_day"@, "mins"@]);
    assert("play_id"@[0] != "utc_day"@[0]);
    assert("play_id"@.len() != "mins"@.len());
    assert("utc_day"@.len() != "mins"@.len());
    assert forall|k: int| 0 <= k < rows.len() implies {
        &&& value_under(m, k, "play_id"@, SqlValue::Int(#[trigger] rows[k].0))
        &&& value_under(m, k, "utc_day"@, SqlValue::Int(rows[k].1))
        &&& value_under(m, k, "mins"@, SqlValue::Int(rows[k].2))
    } by {
        lemma_value_under(m, k, 0, SqlValue::Int(rows[k].0));
        lemma_value_under(m, k, 1, SqlValue::Int(rows[k].1));
        lemma_value_under(m, k, 2, SqlValue::Int(rows[k].2));
    }
}

/// Each user is stored with its values under the columns of their names: the id under `id`,
/// the name under `username`, the nickname under `nickname` and the avatar under `avatar`,
/// one row per input row, in the table `discord_users`.
pub proof fn law_users_columns(rows: Seq<UserRow>)
    ensures
        users_upsert_model(rows).table == Some("discord_users"@),
        users_upsert_model(rows).rows.len() == rows.len(),
        forall|k: int| 0 <= k < rows.len() ==> {
            &&& value_under(users_upsert_model(rows), k, "id"@, SqlValue::BigUnsigned(#[trigger] rows[k].id))
            &&& value_under(users_upsert_model(rows), k, "username"@, SqlValue::Text(Some(rows[k].username@)))
            &&& value_under(users_upsert_model(rows), k, "nickname"@, SqlValue::Text(opt_text(rows[k].nickname)))
            &&& value_under(users_upsert_model(rows), k, "avatar"@, SqlValue::Text(opt_text(rows[k].avatar)))
        },
{
    reveal_strlit("id");
    reveal_strlit("username");
    reveal_strlit("nickname");
    reveal_strlit("avatar");
    reveal_strlit("discord_users");
    let m = users_upsert_model(rows);
    assert(m.columns =~= seq!["id"@, "username"@, "nickname"@, "avatar"@]);
    assert("id"@.len() != "username"@.len() && "id"@.len() != "nickname"@.len() && "id"@.len() != "avatar"@.len());
    assert("username"@[0] != "nickname"@[0]);
    assert("username"@.len() != "avatar"@.len() && "nickname"@.len() != "avatar"@.len());
    assert forall|k: int| 0 <= k < rows.len() implies {
            &&& value_under(m, k, "id"@, SqlValue::BigUnsigned(#[trigger] rows[k].id))
            &&& value_under(m, k, "username"@, SqlValue::Text(Some(rows[k].username@)))
            &&& value_under(m, k, "nickname"@, SqlValue::Text(opt_text(rows[k].nickname)))
            &&& value_under(m, k, "avatar"@, SqlValue::Text(opt_text(rows[k].avatar)))
    } by {
        lemma_value_under(m, k, 0, SqlValue::BigUnsigned(rows[k].id));
        lemma_value_under(m, k, 1, SqlValue::Text(Some(rows[k].username@)));
        lemma_value_under(m, k, 2, SqlValue::Text(opt_text(rows[k].nickname)));
        lemma_value_under(m, k, 3, SqlValue::Text(opt_text(rows[k].avatar)));
    }
}

/// Each member is stored with its values under the columns of their names: the guild under
/// `guild_id`, the user under `user_id`, the nickname under `nickname` and the avatar under
/// `avatar`, one row per input row, in the table `discord_members`.
pub proof fn law_members_columns(rows: Seq<MemberRow>)
    ensures
        members_upsert_model(rows).table == Some("discord_members"@),
        members_upsert_model(rows).rows.len() == rows.len(),
        forall|k: int| 0 <= k < rows.len() ==> {
            &&& value_under(members_upsert_model(rows), k, "guild_id"@, SqlValue::BigUnsigned(#[trigger] rows[k].guild_id))
            &&& value_under(members_upsert_model(rows), k, "user_id"@, SqlValue::BigUnsigned(rows[k].user_id))
            &&& value_under(members_upsert_model(rows), k, "nickname"@, SqlValue::Text(opt_text(rows[k].nickname)))
            &&& value_under(members_upsert_model(rows), k, "avatar"@, SqlValue::Text(opt_text(rows[k].avatar)))
        },
{
    reveal_strlit("guild_id");
    reveal_strlit("user_id");
    reveal_strlit("nickname");
    reveal_strlit("avatar");
    reveal_strlit("discord_members");
    let m = members_upsert_model(rows);
    assert(m.columns =~= seq!["guild_id"@, "user_id"@, "nickname"@, "avatar"@]);
    assert("guild_id"@.len() != "user_id"@.len() && "guild_id"@[0] != "nickname"@[0] && "guild_id"@.len() != "avatar"@.len());
    assert("user_id"@.len() != "nickname"@.len() && "user_id"@.len() != "avatar"@.len());
    assert("nickname"@.len() != "avatar"@.len());
    assert forall|k: int| 0 <= k < rows.len() implies {
            &&& value_under(m, k, "guild_id"@, SqlValue::BigUnsigned(#[trigger] rows[k].guild_id))
            &&& value_under(m, k, "user_id"@, SqlValue::BigUnsigned(rows[k].user_id))
            &&& value_under(m, k, "nickname"@, SqlValue::Text(opt_text(rows[k].nickname)))
            &&& value_under(m, k, "avatar"@, SqlValue::Text(opt_text(rows[k].avatar)))
    } by {
        lemma_value_under(m, k, 0, SqlValue::BigUnsigned(rows[k].guild_id));
        lemma_value_under(m, k, 1, SqlValue::BigUnsigned(rows[k].user_id));
        lemma_value_under(m, k, 2, SqlValue::Text(opt_text(rows[k].nickname)));
        lemma_value_under(m, k, 3, SqlValue::Text(opt_text(rows[k].avatar)));
    }
}

/// Each app is stored with its id under `id` and its name under `name`, one row per input
/// row, in the table `steam_apps`.
pub proof fn law_apps_columns(rows: Seq<(i32, String)>)
    ensures
        apps_upsert_model(rows).table == Some("steam_apps"@),
        apps_upsert_model(rows).rows.len() == rows.len(),
        forall|k: int| 0 <= k < rows.len() ==> {
            &&& value_under(apps_upsert_model(rows), k, "id"@, SqlValue::Int(#[trigger] rows[k].0))
            &&& value_under(apps_upsert_model(rows), k, "name"@, SqlValue::Text(Some(rows[k].1@)))
        },
{
    reveal_strlit("id");
    reveal_strlit("name");
    reveal_strlit("steam_apps");
    let m = apps_upsert_model(rows);
    assert(m.columns =~= seq!["id"@, "name"@]);
    assert("id"@.len() != "name"@.len());
    assert forall|k: int| 0 <= k < rows.len() implies {
            &&& value_under(m, k, "id"@, SqlValue::Int(#[trigger] rows[k].0))
            &&& value_under(m, k, "name"@, SqlValue::Text(Some(rows[k].1@)))
    } by {
        lemma_value_under(m, k, 0, SqlValue::Int(rows[k].0));
        lemma_value_under(m, k, 1, SqlValue::Text(Some(rows[k].1@)));
    }
}

/// Each play time is stored with the app under `app_id`, the account under `acc_id` and the
/// minutes under `mins`, one row per input row, in the table `steam_playdata`.
pub proof fn law_play_data_columns(rows: Seq<(i32, i64, i32)>)
    ensures
        play_data_upsert_model(rows).table == Some("steam_playdata"@),
        play_data_upsert_model(rows).rows.len() == rows.len(),
        forall|k: int| 0 <= k < rows.len() ==> {
            &&& value_under(play_data_upsert_model(rows), k, "app_id"@, SqlValue::Int(#[trigger] rows[k].0))
            &&& value_under(play_data_upsert_model(rows), k, "acc_id"@, SqlValue::BigInt(rows[k].1))
            &&& value_under(play_data_upsert_model(rows), k, "mins"@, SqlValue::Int(rows[k].2))
        },
{
    reveal_strlit("app_id");
    reveal_strlit("acc_id");
    reveal_strlit("mins");
    reveal_strlit("steam_playdata");
    let m = play_data_upsert_model(rows);
    assert(m.columns =~= seq!["app_id"@, "acc_id"@, "mins"@]);
    assert("app_id"@[1] != "acc_id"@[1]);
    assert("app_id"@.len() != "mins"@.len() && "acc_id"@.len() != "mins"@.len());
    assert forall|k: int| 0 <= k < rows.len() implies {
            &&& value_under(m, k, "app_id"@, SqlValue::Int(#[trigger] rows[k].0))
            &&& value_under(m, k, "acc_id"@, SqlValue::BigInt(rows[k].1))
            &&& value_under(m, k, "mins"@, SqlValue::Int(rows[k].2))
    } by {
        lemma_value_under(m, k, 0, SqlValue::Int(rows[k].0));
        lemma_value_under(m, k, 1, SqlValue::BigInt(rows[k].1));
        lemma_value_under(m, k, 2, SqlValue::Int(rows[k].2));
    }
}

/// A guild is stored with its id under `id`, its name under `name` and its icon under `icon`,
/// in the table `discord_guilds`.
pub proof fn law_guild_columns(id: u64, name: Seq<char>, icon: Option<Seq<char>>)
    ensures
        guild_upsert_model(guild_values(id, name, icon)).table == Some("discord_guilds"@),
        guild_upsert_model(guild_values(id, name, icon)).rows.len() == 1,
        value_under(guild_upsert_model(guild_values(id, name, icon)), 0, "id"@, SqlValue::BigUnsigned(id)),
        value_under(guild_upsert_model(guild_values(id, name, icon)), 0, "name"@, SqlValue::Text(Some(name))),
        value_under(guild_upsert_model(guild_values(id, name, icon)), 0, "icon"@, SqlValue::Text(icon)),
{
    reveal_strlit("discord_guilds");
    reveal_strlit("id");
    reveal_strlit("name");
    reveal_strlit("icon");
    let m = guild_upsert_model(guild_values(id, name, icon));
    assert(m.columns =~= seq!["id"@, "name"@, "icon"@]);
    assert("id"@.len() != "name"@.len() && "id"@.len() != "icon"@.len() && "name"@[0] != "icon"@[0]);
    lemma_value_under(m, 0, 0, SqlValue::BigUnsigned(id));
    lemma_value_under(m, 0, 1, SqlValue::Text(Some(name)));
    lemma_value_under(m, 0, 2, SqlValue::Text(icon));
}

/// A link is stored with the Steam account under `id` and the Discord user under
/// `discord_id`, in the table `steam_accounts`.
pub proof fn law_account_columns(steam_id: i64, discord_id: u64)
    ensures
        account_insert_model(steam_id, discord_id).table == Some("steam_accounts"@),
        account_insert_model(steam_id, discord_id).rows.len() == 1,
        value_under(account_insert_model(steam_id, discord_id), 0, "id"@, SqlValue::BigInt(steam_id)),
        value_under(account_insert_model(steam_id, discord_id), 0, "discord_id"@, SqlValue::BigUnsigned(discord_id)),
{
    reveal_strlit("steam_accounts");
    reveal_strlit("id");
    reveal_strlit("discord_id");
    let m = account_insert_model(steam_id, discord_id);
    assert(m.columns =~= seq!["id"@, "discord_id"@]);
    assert("id"@.len() != "discord_id"@.len());
    lemma_value_under(m, 0, 0, SqlValue::BigInt(steam_id));
    lemma_value_under(m, 0, 1, SqlValue::BigUnsigned(discord_id));
}

} // verus!
