use vstd::prelude::*;
use sea_query::DeleteStatement;
use sea_query::InsertStatement;
use sea_query::SelectStatement;
use crate::discord::MemberRow;
use crate::discord::UserRow;
use crate::error::Error;
use crate::locale::opt_text;
use crate::schema::discord_guilds;
use crate::schema::discord_members;
use crate::schema::discord_users;
use crate::schema::discord_whitelist;
use crate::schema::steam_accounts;
use crate::schema::steam_apps;
use crate::schema::steam_playdata;
use crate::schema::steam_playhist;
use crate::sql::delete_from;
use crate::sql::delete_table;
use crate::sql::delete_where;
use crate::sql::del_where_is_u64;
use crate::sql::empty_select;
use crate::sql::ins_on_conflict;
use crate::sql::ins_returning;
use crate::sql::ins_row_i32_i32_i32;
use crate::sql::ins_row_i32_i64_i32;
use crate::sql::ins_row_i32_text;
use crate::sql::ins_row_i64_u64;
use crate::sql::ins_row_u64_text_opt;
use crate::sql::ins_row_u64_text_opt_opt;
use crate::sql::ins_row_u64_u64_opt_opt;
use crate::sql::insert_into;
use crate::sql::insert_model;
use crate::sql::qb_from;
use crate::sql::qb_plain_column;
use crate::sql::select_model;
use crate::sql::select_new;
use crate::sql::InsertModel;
use crate::sql::SelectModel;
use crate::sql::SqlCond;
use crate::sql::SqlSelect;
use crate::sql::SqlValue;

verus! {

/// How many users or members one statement stores.
pub const DISCORD_CHUNK_SIZE: usize = 10000;

/// How many apps or play times one statement stores.
pub const STEAM_CHUNK_SIZE: usize = 1000;

/// A copy of the optional text `o`.
fn clone_text(o: &Option<String>) -> (r: Option<String>)
    ensures opt_text(r) == opt_text(*o),
{
    match o {
        Some(s) => Some(s.clone()),
        None => None,
    }
}

/// The query of the single column `col` of `table`.
pub open spec fn column_query(table: Seq<char>, col: Seq<char>) -> SelectModel {
    SelectModel {
        items: seq![SqlSelect::Column((Seq::empty(), col))],
        from: seq![table],
        ..empty_select()
    }
}

/// The ids of the guilds the bot serves.
pub fn whitelist_query() -> (r: SelectStatement)
    ensures select_model(r) == column_query(discord_whitelist::Table.spec_iden(), discord_whitelist::id.spec_iden()),
{
    let mut q = select_new();
    qb_plain_column(&mut q, discord_whitelist::id.iden());
    qb_from(&mut q, discord_whitelist::Table.iden());
    assert(select_model(q).items =~= seq![SqlSelect::Column((Seq::empty(), discord_whitelist::id.spec_iden()))]);
    assert(select_model(q).from =~= seq![discord_whitelist::Table.spec_iden()]);
    q
}

/// The ids of the linked Steam accounts.
pub fn accounts_query() -> (r: SelectStatement)
    ensures select_model(r) == column_query(steam_accounts::Table.spec_iden(), steam_accounts::id.spec_iden()),
{
    let mut q = select_new();
    qb_plain_column(&mut q, steam_accounts::id.iden());
    qb_from(&mut q, steam_accounts::Table.iden());
    assert(select_model(q).items =~= seq![SqlSelect::Column((Seq::empty(), steam_accounts::id.spec_iden()))]);
    assert(select_model(q).from =~= seq![steam_accounts::Table.spec_iden()]);
    q
}

/// The statement that stores `rows` into `table`, filling `columns`, and on a clash of
/// `conflict` updates `update`.
pub open spec fn upsert(table: Seq<char>, columns: Seq<Seq<char>>, conflict: Seq<Seq<char>>, update: Seq<Seq<char>>, rows: Seq<Seq<SqlValue>>) -> InsertModel {
    InsertModel { table: Some(table), columns, rows, conflict: Some((conflict, update)), returning: None }
}

/// The values of the guild row: id, name and icon.
pub open spec fn guild_values(id: u64, name: Seq<char>, icon: Option<Seq<char>>) -> Seq<SqlValue> {
    seq![SqlValue::BigUnsigned(id), SqlValue::Text(Some(name)), SqlValue::Text(icon)]
}

/// The statement that stores the guild information `values`.
pub open spec fn guild_upsert_model(values: Seq<SqlValue>) -> InsertModel {
    upsert(
        discord_guilds::Table.spec_iden(),
        seq![discord_guilds::id.spec_iden(), discord_guilds::name.spec_iden(), discord_guilds::icon.spec_iden()],
        seq![discord_guilds::id.spec_iden()],
        seq![discord_guilds::name.spec_iden(), discord_guilds::icon.spec_iden()],
        seq![values],
    )
}

/// Stores the information of the guild `id`: its name and icon, replacing older ones.
pub fn guild_information_upsert(id: u64, name: String, icon: Option<String>) -> (r: Result<InsertStatement, Error>)
    ensures r matches Ok(q) && insert_model(q) == guild_upsert_model(guild_values(id, name@, opt_text(icon))),
{
    let ghost v = guild_values(id, name@, opt_text(icon));
    let columns = vec![discord_guilds::id.iden(), discord_guilds::name.iden(), discord_guilds::icon.iden()];
    let conflict = vec![discord_guilds::id.iden()];
    let update = vec![discord_guilds::name.iden(), discord_guilds::icon.iden()];
    let mut q = insert_into(discord_guilds::Table.iden(), &columns);
    ins_on_conflict(&mut q, &conflict, &update);
    let ok = ins_row_u64_text_opt(&mut q, id, name, icon);
    proof {
        let m = insert_model(q);
        let t = guild_upsert_model(v);
        assert(m.columns =~= t.columns);
        assert(m.conflict->Some_0.0 =~= t.conflict->Some_0.0);
        assert(m.conflict->Some_0.1 =~= t.conflict->Some_0.1);
        assert(m.rows =~= t.rows);
    }
    if !ok {
        return Err(Error::ValuesMismatch);
    }
    Ok(q)
}

/// The statement that deletes the rows whose unqualified column `col` holds `v`.
pub open spec fn delete_is(q: DeleteStatement, table: Seq<char>, col: Seq<char>, v: u64) -> bool {
    &&& delete_table(q) == Some(table)
    &&& delete_where(q) == seq![SqlCond::Is((Seq::empty(), col), SqlValue::BigUnsigned(v))]
}

/// Drops the information of the guild `id`.
pub fn guild_information_delete(id: u64) -> (r: DeleteStatement)
    ensures delete_is(r, discord_guilds::Table.spec_iden(), discord_guilds::id.spec_iden(), id),
{
    let mut q = delete_from(discord_guilds::Table.iden());
    del_where_is_u64(&mut q, discord_guilds::id.iden(), id);
    assert(delete_where(q) =~= seq![SqlCond::Is((Seq::empty(), discord_guilds::id.spec_iden()), SqlValue::BigUnsigned(id))]);
    q
}

/// The values of the user row `r`: id, name, nickname and avatar.
pub open spec fn user_row_values(r: UserRow) -> Seq<SqlValue> {
    seq![SqlValue::BigUnsigned(r.id), SqlValue::Text(Some(r.username@)), SqlValue::Text(opt_text(r.nickname)), SqlValue::Text(opt_text(r.avatar))]
}

/// The values of the rows `rows`, in order.
pub open spec fn user_rows_values(rows: Seq<UserRow>) -> Seq<Seq<SqlValue>> {
    rows.map_values(|r: UserRow| user_row_values(r))
}

/// The statement that stores the user rows `rows`, replacing older names and avatars.
pub open spec fn users_upsert_model(rows: Seq<UserRow>) -> InsertModel {
    upsert(
        discord_users::Table.spec_iden(),
        seq![discord_users::id.spec_iden(), discord_users::username.spec_iden(), discord_users::nickname.spec_iden(), discord_users::avatar.spec_iden()],
        seq![discord_users::id.spec_iden()],
        seq![discord_users::username.spec_iden(), discord_users::nickname.spec_iden(), discord_users::avatar.spec_iden()],
        user_rows_values(rows),
    )
}

/// Stores the users of `rows` from `start` to `end`, replacing older names and avatars.
pub fn users_upsert(rows: &Vec<UserRow>, start: usize, end: usize) -> (r: Result<InsertStatement, Error>)
    requires start <= end <= rows.len(),
    ensures r matches Ok(q) && insert_model(q) == users_upsert_model(rows@.subrange(start as int, end as int)),
{
    let ghost t = users_upsert_model(rows@.subrange(start as int, end as int));
    let columns = vec![discord_users::id.iden(), discord_users::username.iden(), discord_users::nickname.iden(), discord_users::avatar.iden()];
    let conflict = vec![discord_users::id.iden()];
    let update = vec![discord_users::username.iden(), discord_users::nickname.iden(), discord_users::avatar.iden()];
    let mut q = insert_into(discord_users::Table.iden(), &columns);
    ins_on_conflict(&mut q, &conflict, &update);
    proof {
        let m = insert_model(q);
        assert(m.columns =~= t.columns);
        assert(m.conflict->Some_0.0 =~= t.conflict->Some_0.0);
        assert(m.conflict->Some_0.1 =~= t.conflict->Some_0.1);
        assert(m.conflict == t.conflict);
        assert(m.rows =~= Seq::<Seq<SqlValue>>::empty());
        assert(rows@.subrange(start as int, start as int) =~= Seq::empty());
        assert(user_rows_values(rows@.subrange(start as int, start as int)) =~= Seq::<Seq<SqlValue>>::empty());
    }
    let mut i = start;
    while i < end
        invariant
            start <= i <= end <= rows.len(),
            t == users_upsert_model(rows@.subrange(start as int, end as int)),
            insert_model(q) == (InsertModel { rows: user_rows_values(rows@.subrange(start as int, i as int)), ..t }),
        decreases end - i,
    {
        let u = &rows[i];
        let ok = ins_row_u64_text_opt_opt(&mut q, u.id, u.username.clone(), clone_text(&u.nickname), clone_text(&u.avatar));
        assert(user_rows_values(rows@.subrange(start as int, i + 1))
            =~= user_rows_values(rows@.subrange(start as int, i as int)).push(user_row_values(rows@[i as int])));
        if !ok {
            return Err(Error::ValuesMismatch);
        }
        i += 1;
    }
    assert(insert_model(q).rows =~= t.rows);
    Ok(q)
}

/// The values of the member row `r`: guild, user, nickname and avatar.
pub open spec fn member_row_values(r: MemberRow) -> Seq<SqlValue> {
    seq![SqlValue::BigUnsigned(r.guild_id), SqlValue::BigUnsigned(r.user_id), SqlValue::Text(opt_text(r.nickname)), SqlValue::Text(opt_text(r.avatar))]
}

/// The values of the rows `rows`, in order.
pub open spec fn member_rows_values(rows: Seq<MemberRow>) -> Seq<Seq<SqlValue>> {
    rows.map_values(|r: MemberRow| member_row_values(r))
}

/// The statement that stores the member rows `rows`, replacing older nicknames and avatars.
pub open spec fn members_upsert_model(rows: Seq<MemberRow>) -> InsertModel {
    upsert(
        discord_members::Table.spec_iden(),
        seq![discord_members::guild_id.spec_iden(), discord_members::user_id.spec_iden(), discord_members::nickname.spec_iden(), discord_members::avatar.spec_iden()],
        seq![discord_members::guild_id.spec_iden(), discord_members::user_id.spec_iden()],
        seq![discord_members::nickname.spec_iden(), discord_members::avatar.spec_iden()],
        member_rows_values(rows),
    )
}

/// Stores the members of `rows` from `start` to `end`, replacing older nicknames and avatars.
pub fn members_upsert(rows: &Vec<MemberRow>, start: usize, end: usize) -> (r: Result<InsertStatement, Error>)
    requires start <= end <= rows.len(),
    ensures r matches Ok(q) && insert_model(q) == members_upsert_model(rows@.subrange(start as int, end as int)),
{
    let ghost t = members_upsert_model(rows@.subrange(start as int, end as int));
    let columns = vec![discord_members::guild_id.iden(), discord_members::user_id.iden(), discord_members::nickname.iden(), discord_members::avatar.iden()];
    let conflict = vec![discord_members::guild_id.iden(), discord_members::user_id.iden()];
    let update = vec![discord_members::nickname.iden(), discord_members::avatar.iden()];
    let mut q = insert_into(discord_members::Table.iden(), &columns);
    ins_on_conflict(&mut q, &conflict, &update);
    proof {
        let m = insert_model(q);
        assert(m.columns =~= t.columns);
        assert(m.conflict->Some_0.0 =~= t.conflict->Some_0.0);
        assert(m.conflict->Some_0.1 =~= t.conflict->Some_0.1);
        assert(m.conflict == t.conflict);
        assert(m.rows =~= Seq::<Seq<SqlValue>>::empty());
        assert(rows@.subrange(start as int, start as int) =~= Seq::empty());
        assert(member_rows_values(rows@.subrange(start as int, start as int)) =~= Seq::<Seq<SqlValue>>::empty());
    }
    let mut i = start;
    while i < end
        invariant
            start <= i <= end <= rows.len(),
            t == members_upsert_model(rows@.subrange(start as int, end as int)),
            insert_model(q) == (InsertModel { rows: member_rows_values(rows@.subrange(start as int, i as int)), ..t }),
        decreases end - i,
    {
        let m = &rows[i];
        let ok = ins_row_u64_u64_opt_opt(&mut q, m.guild_id, m.user_id, clone_text(&m.nickname), clone_text(&m.avatar));
        assert(member_rows_values(rows@.subrange(start as int, i + 1))
            =~= member_rows_values(rows@.subrange(start as int, i as int)).push(member_row_values(rows@[i as int])));
        if !ok {
            return Err(Error::ValuesMismatch);
        }
        i += 1;
    }
    assert(insert_model(q).rows =~= t.rows);
    Ok(q)
}

/// Drops every member of the guild `guild_id`.
pub fn members_delete(guild_id: u64) -> (r: DeleteStatement)
    ensures delete_is(r, discord_members::Table.spec_iden(), discord_members::guild_id.spec_iden(), guild_id),
{
    let mut q = delete_from(discord_members::Table.iden());
    del_where_is_u64(&mut q, discord_members::guild_id.iden(), guild_id);
    assert(delete_where(q) =~= seq![SqlCond::Is((Seq::empty(), discord_members::guild_id.spec_iden()), SqlValue::BigUnsigned(guild_id))]);
    q
}

/// Drops the member `user_id` of the guild `guild_id`.
pub fn member_delete(guild_id: u64, user_id: u64) -> (r: DeleteStatement)
    ensures
        delete_table(r) == Some(discord_members::Table.spec_iden()),
        delete_where(r) == seq![
            SqlCond::Is((Seq::empty(), discord_members::guild_id.spec_iden()), SqlValue::BigUnsigned(guild_id)),
            SqlCond::Is((Seq::empty(), discord_members::user_id.spec_iden()), SqlValue::BigUnsigned(user_id)),
        ],
{
    let mut q = delete_from(discord_members::Table.iden());
    del_where_is_u64(&mut q, discord_members::guild_id.iden(), guild_id);
    del_where_is_u64(&mut q, discord_members::user_id.iden(), user_id);
    assert(delete_where(q) =~= seq![
        SqlCond::Is((Seq::empty(), discord_members::guild_id.spec_iden()), SqlValue::BigUnsigned(guild_id)),
        SqlCond::Is((Seq::empty(), discord_members::user_id.spec_iden()), SqlValue::BigUnsigned(user_id)),
    ]);
    q
}

/// The values of the app row `r`: id and name.
pub open spec fn app_row_values(r: (i32, String)) -> Seq<SqlValue> {
    seq![SqlValue::Int(r.0), SqlValue::Text(Some(r.1@))]
}

/// The values of the rows `rows`, in order.
pub open spec fn app_rows_values(rows: Seq<(i32, String)>) -> Seq<Seq<SqlValue>> {
    rows.map_values(|r: (i32, String)| app_row_values(r))
}

/// The statement that stores the app rows `rows`, replacing older names.
pub open spec fn apps_upsert_model(rows: Seq<(i32, String)>) -> InsertModel {
    upsert(
        steam_apps::Table.spec_iden(),
        seq![steam_apps::id.spec_iden(), steam_apps::name.spec_iden()],
        seq![steam_apps::id.spec_iden()],
        seq![steam_apps::name.spec_iden()],
        app_rows_values(rows),
    )
}

/// Stores the apps of `rows` from `start` to `end`, replacing older names.
pub fn apps_upsert(rows: &Vec<(i32, String)>, start: usize, end: usize) -> (r: Result<InsertStatement, Error>)
    requires start <= end <= rows.len(),
    ensures r matches Ok(q) && insert_model(q) == apps_upsert_model(rows@.subrange(start as int, end as int)),
{
    let ghost t = apps_upsert_model(rows@.subrange(start as int, end as int));
    let columns = vec![steam_apps::id.iden(), steam_apps::name.iden()];
    let conflict = vec![steam_apps::id.iden()];
    let update = vec![steam_apps::name.iden()];
    let mut q = insert_into(steam_apps::Table.iden(), &columns);
    ins_on_conflict(&mut q, &conflict, &update);
    proof {
        let m = insert_model(q);
        assert(m.columns =~= t.columns);
        assert(m.conflict->Some_0.0 =~= t.conflict->Some_0.0);
        assert(m.conflict->Some_0.1 =~= t.conflict->Some_0.1);
        assert(m.conflict == t.conflict);
        assert(m.rows =~= Seq::<Seq<SqlValue>>::empty());
        assert(rows@.subrange(start as int, start as int) =~= Seq::empty());
        assert(app_rows_values(rows@.subrange(start as int, start as int)) =~= Seq::<Seq<SqlValue>>::empty());
    }
    let mut i = start;
    while i < end
        invariant
            start <= i <= end <= rows.len(),
            t == apps_upsert_model(rows@.subrange(start as int, end as int)),
            insert_model(q) == (InsertModel { rows: app_rows_values(rows@.subrange(start as int, i as int)), ..t }),
        decreases end - i,
    {
        let ok = ins_row_i32_text(&mut q, rows[i].0, rows[i].1.clone());
        assert(app_rows_values(rows@.subrange(start as int, i + 1))
            =~= app_rows_values(rows@.subrange(start as int, i as int)).push(app_row_values(rows@[i as int])));
        if !ok {
            return Err(Error::ValuesMismatch);
        }
        i += 1;
    }
    assert(insert_model(q).rows =~= t.rows);
    Ok(q)
}

/// The values of the play time row `r`: app, account and minutes.
pub open spec fn play_row_values(r: (i32, i64, i32)) -> Seq<SqlValue> {
    seq![SqlValue::Int(r.0), SqlValue::BigInt(r.1), SqlValue::Int(r.2)]
}

/// The values of the rows `rows`, in order.
pub open spec fn play_rows_values(rows: Seq<(i32, i64, i32)>) -> Seq<Seq<SqlValue>> {
    rows.map_values(|r: (i32, i64, i32)| play_row_values(r))
}

/// The statement that stores the play time rows `rows`, replacing older minutes, and hands
/// back the id and minutes of each.
pub open spec fn play_data_upsert_model(rows: Seq<(i32, i64, i32)>) -> InsertModel {
    InsertModel {
        returning: Some(seq![steam_playdata::id.spec_iden(), steam_playdata::mins.spec_iden()]),
        ..upsert(
            steam_playdata::Table.spec_iden(),
            seq![steam_playdata::app_id.spec_iden(), steam_playdata::acc_id.spec_iden(), steam_playdata::mins.spec_iden()],
            seq![steam_playdata::app_id.spec_iden(), steam_playdata::acc_id.spec_iden()],
            seq![steam_playdata::mins.spec_iden()],
            play_rows_values(rows),
        )
    }
}

/// Stores the play times of `rows` from `start` to `end`, replacing older minutes, and hands
/// back the id and minutes of each stored row.
pub fn play_data_upsert(rows: &Vec<(i32, i64, i32)>, start: usize, end: usize) -> (r: Result<InsertStatement, Error>)
    requires start <= end <= rows.len(),
    ensures r matches Ok(q) && insert_model(q) == play_data_upsert_model(rows@.subrange(start as int, end as int)),
{
    let ghost t = play_data_upsert_model(rows@.subrange(start as int, end as int));
    let columns = vec![steam_playdata::app_id.iden(), steam_playdata::acc_id.iden(), steam_playdata::mins.iden()];
    let conflict = vec![steam_playdata::app_id.iden(), steam_playdata::acc_id.iden()];
    let update = vec![steam_playdata::mins.iden()];
    let returning = vec![steam_playdata::id.iden(), steam_playdata::mins.iden()];
    let mut q = insert_into(steam_playdata::Table.iden(), &columns);
    ins_on_conflict(&mut q, &conflict, &update);
    ins_returning(&mut q, &returning);
    proof {
        let m = insert_model(q);
        assert(m.columns =~= t.columns);
        assert(m.conflict->Some_0.0 =~= t.conflict->Some_0.0);
        assert(m.conflict->Some_0.1 =~= t.conflict->Some_0.1);
        assert(m.returning->Some_0 =~= t.returning->Some_0);
        assert(m.conflict == t.conflict);
        assert(m.returning == t.returning);
        assert(m.rows =~= Seq::<Seq<SqlValue>>::empty());
        assert(rows@.subrange(start as int, start as int) =~= Seq::empty());
        assert(play_rows_values(rows@.subrange(start as int, start as int)) =~= Seq::<Seq<SqlValue>>::empty());
    }
    let mut i = start;
    while i < end
        invariant
            start <= i <= end <= rows.len(),
            t == play_data_upsert_model(rows@.subrange(start as int, end as int)),
            insert_model(q) == (InsertModel { rows: play_rows_values(rows@.subrange(start as int, i as int)), ..t }),
        decreases end - i,
    {
        let (a, b, c) = rows[i];
        let ok = ins_row_i32_i64_i32(&mut q, a, b, c);
        assert(play_rows_values(rows@.subrange(start as int, i + 1))
            =~= play_rows_values(rows@.subrange(start as int, i as int)).push(play_row_values(rows@[i as int])));
        if !ok {
            return Err(Error::ValuesMismatch);
        }
        i += 1;
    }
    assert(insert_model(q).rows =~= t.rows);
    Ok(q)
}

/// The values of the play history row `r`: play row, day and minutes.
pub open spec fn hist_row_values(r: (i32, i32, i32)) -> Seq<SqlValue> {
    seq![SqlValue::Int(r.0), SqlValue::Int(r.1), SqlValue::Int(r.2)]
}

/// The values of the rows `rows`, in order.
pub open spec fn hist_rows_values(rows: Seq<(i32, i32, i32)>) -> Seq<Seq<SqlValue>> {
    rows.map_values(|r: (i32, i32, i32)| hist_row_values(r))
}

/// The statement that stores the play history rows `rows`, replacing older minutes of the
/// same day.
pub open spec fn play_hist_upsert_model(rows: Seq<(i32, i32, i32)>) -> InsertModel {
    upsert(
        steam_playhist::Table.spec_iden(),
        seq![steam_playhist::play_id.spec_iden(), steam_playhist::utc_day.spec_iden(), steam_playhist::mins.spec_iden()],
        seq![steam_playhist::play_id.spec_iden(), steam_playhist::utc_day.spec_iden()],
        seq![steam_playhist::mins.spec_iden()],
        hist_rows_values(rows),
    )
}

/// Stores the play history rows `rows`, replacing older minutes of the same day.
pub fn play_hist_upsert(rows: &Vec<(i32, i32, i32)>) -> (r: Result<InsertStatement, Error>)
    ensures r matches Ok(q) && insert_model(q) == play_hist_upsert_model(rows@),
{
    let ghost t = play_hist_upsert_model(rows@);
    let columns = vec![steam_playhist::play_id.iden(), steam_playhist::utc_day.iden(), steam_playhist::mins.iden()];
    let conflict = vec![steam_playhist::play_id.iden(), steam_playhist::utc_day.iden()];
    let update = vec![steam_playhist::mins.iden()];
    let mut q = insert_into(steam_playhist::Table.iden(), &columns);
    ins_on_conflict(&mut q, &conflict, &update);
    proof {
        let m = insert_model(q);
        assert(m.columns =~= t.columns);
        assert(m.conflict->Some_0.0 =~= t.conflict->Some_0.0);
        assert(m.conflict->Some_0.1 =~= t.conflict->Some_0.1);
        assert(m.conflict == t.conflict);
        assert(m.rows =~= Seq::<Seq<SqlValue>>::empty());
        assert(rows@.take(0) =~= Seq::empty());
        assert(hist_rows_values(rows@.take(0)) =~= Seq::<Seq<SqlValue>>::empty());
    }
    let mut i: usize = 0;
    while i < rows.len()
        invariant
            i <= rows.len(),
            t == play_hist_upsert_model(rows@),
            insert_model(q) == (InsertModel { rows: hist_rows_values(rows@.take(i as int)), ..t }),
        decreases rows.len() - i,
    {
        let (a, b, c) = rows[i];
        let ok = ins_row_i32_i32_i32(&mut q, a, b, c);
        assert(hist_rows_values(rows@.take(i + 1))
            =~= hist_rows_values(rows@.take(i as int)).push(hist_row_values(rows@[i as int])));
        if !ok {
            return Err(Error::ValuesMismatch);
        }
        i += 1;
    }
    assert(rows@.take(rows.len() as int) =~= rows@);
    Ok(q)
}

/// The statement that links the Steam account `steam_id` to the Discord user `discord_id`.
pub open spec fn account_insert_model(steam_id: i64, discord_id: u64) -> InsertModel {
    InsertModel {
        table: Some(steam_accounts::Table.spec_iden()),
        columns: seq![steam_accounts::id.spec_iden(), steam_accounts::discord_id.spec_iden()],
        rows: seq![seq![SqlValue::BigInt(steam_id), SqlValue::BigUnsigned(discord_id)]],
        conflict: None,
        returning: None,
    }
}

/// Links the Steam account `steam_id` to the Discord user `discord_id`.
pub fn account_insert(steam_id: i64, discord_id: u64) -> (r: Result<InsertStatement, Error>)
    ensures r matches Ok(q) && insert_model(q) == account_insert_model(steam_id, discord_id),
{
    let columns = vec![steam_accounts::id.iden(), steam_accounts::discord_id.iden()];
    let mut q = insert_into(steam_accounts::Table.iden(), &columns);
    let ok = ins_row_i64_u64(&mut q, steam_id, discord_id);
    proof {
        let m = insert_model(q);
        let t = account_insert_model(steam_id, discord_id);
        assert(m.columns =~= t.columns);
        assert(m.rows =~= t.rows);
    }
    if !ok {
        return Err(Error::ValuesMismatch);
    }
    Ok(q)
}

} // verus!
