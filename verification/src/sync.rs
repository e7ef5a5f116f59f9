use vstd::prelude::*;
use sea_query::InsertStatement;
use crate::discord::member_rows;
use crate::discord::user_rows;
use crate::discord::Member;
use crate::discord::MemberRow;
use crate::discord::User;
use crate::discord::UserRow;
use crate::error::Error;
use crate::discord::member_row_spec;
use crate::discord::user_row_spec;
use crate::locale::opt_text;
use crate::sql::insert_model;
use crate::sql::InsertModel;
use crate::sql::SqlValue;
use crate::statements::app_rows_values;
use crate::statements::apps_upsert_model;
use crate::statements::member_rows_values;
use crate::statements::members_upsert_model;
use crate::statements::play_data_upsert_model;
use crate::statements::user_rows_values;
use crate::statements::users_upsert_model;
use crate::statements::apps_upsert;
use crate::statements::members_upsert;
use crate::statements::play_data_upsert;
use crate::statements::users_upsert;
use crate::statements::DISCORD_CHUNK_SIZE;
use crate::statements::STEAM_CHUNK_SIZE;
use crate::steam_api::OwnedGame;
use crate::steam_data::account_games;
use crate::steam_data::app_rows;
use crate::steam_data::chunk_bounds;
use crate::steam_data::chunks_from;
use crate::steam_data::flat_games;
use crate::steam_data::flatten_games;
use crate::steam_data::pair_with_account;
use crate::steam_data::play_data;
use crate::steam_data::play_rows;
use crate::steam_data::unique_apps;
use crate::steam_data::unique_games;

verus! {

/// How many chunks of `size` items a list of `len` items is cut into.
pub open spec fn chunk_count(len: int, size: int) -> nat {
    chunks_from(0, len, size).len()
}

/// The items of the `k`-th chunk of `size` items of `s`.
pub open spec fn chunk_of<T>(s: Seq<T>, size: int, k: int) -> Seq<T> {
    s.subrange(chunks_from(0, s.len() as int, size)[k].0, chunks_from(0, s.len() as int, size)[k].1)
}

/// The values that the row of the user `u` holds: its id, its name, no nickname, its avatar.
pub open spec fn user_values(u: User) -> Seq<SqlValue> {
    seq![SqlValue::BigUnsigned(u.id), SqlValue::Text(Some(u.name@)), SqlValue::Text(None), SqlValue::Text(opt_text(u.avatar))]
}

/// The statement that stores the users `us`, in order.
pub open spec fn users_statement(us: Seq<User>) -> InsertModel {
    InsertModel { rows: us.map_values(|u: User| user_values(u)), ..users_upsert_model(Seq::empty()) }
}

proof fn lemma_users_chunk(users: Seq<User>, rows: Seq<UserRow>, s: int, e: int)
    requires
        rows.len() == users.len(),
        0 <= s <= e <= rows.len(),
        forall|i: int| 0 <= i < rows.len() ==> user_row_spec(#[trigger] users[i], rows[i]),
    ensures users_upsert_model(rows.subrange(s, e)) == users_statement(users.subrange(s, e)),
{
    let a = user_rows_values(rows.subrange(s, e));
    let b = users.subrange(s, e).map_values(|u: User| user_values(u));
    assert forall|j: int| 0 <= j < e - s implies #[trigger] a[j] == b[j] by {
        assert(user_row_spec(users[s + j], rows[s + j]));
    }
    assert(a =~= b);
}

/// The statements that store the users of `users`, one per chunk of `DISCORD_CHUNK_SIZE`
/// users, in order; each user with its id, its name, no nickname and its avatar.
pub fn update_users(users: &Vec<User>) -> (r: Result<Vec<InsertStatement>, Error>)
    ensures
        r matches Ok(v) && v.len() == chunk_count(users.len() as int, DISCORD_CHUNK_SIZE as int)
            && forall|k: int| 0 <= k < v.len() ==>
                insert_model(#[trigger] v@[k]) == users_statement(chunk_of(users@, DISCORD_CHUNK_SIZE as int, k)),
{
    let rows: Vec<UserRow> = user_rows(users);
    let bounds = chunk_bounds(rows.len(), DISCORD_CHUNK_SIZE);
    let mut out: Vec<InsertStatement> = Vec::new();
    let mut i: usize = 0;
    while i < bounds.len()
        invariant
            i <= bounds.len(),
            out.len() == i,
            bounds.len() == chunk_count(users.len() as int, DISCORD_CHUNK_SIZE as int),
            rows.len() == users.len(),
            forall|j: int| 0 <= j < rows.len() ==> user_row_spec(#[trigger] users@[j], rows@[j]),
            forall|j: int| 0 <= j < bounds.len() ==> (#[trigger] bounds@[j]).0 < bounds@[j].1 <= rows.len(),
            forall|j: int| 0 <= j < bounds.len() ==> ((#[trigger] bounds@[j]).0 as int, bounds@[j].1 as int)
                == chunks_from(0, rows.len() as int, DISCORD_CHUNK_SIZE as int)[j],
            forall|k: int| 0 <= k < out.len() ==>
                insert_model(#[trigger] out@[k]) == users_statement(chunk_of(users@, DISCORD_CHUNK_SIZE as int, k)),
        decreases bounds.len() - i,
    {
        let (start, end) = bounds[i];
        let q = match users_upsert(&rows, start, end) {
            Ok(q) => q,
            Err(e) => return Err(e),
        };
        proof { lemma_users_chunk(users@, rows@, start as int, end as int); }
        out.push(q);
        i += 1;
    }
    Ok(out)
}

/// The values that the row of the member `m` holds: its guild, its user, its nickname and its
/// avatar.
pub open spec fn member_values(m: Member) -> Seq<SqlValue> {
    seq![SqlValue::BigUnsigned(m.guild_id), SqlValue::BigUnsigned(m.user.id), SqlValue::Text(opt_text(m.nick)), SqlValue::Text(opt_text(m.avatar))]
}

/// The statement that stores the members `ms`, in order.
pub open spec fn members_statement(ms: Seq<Member>) -> InsertModel {
    InsertModel { rows: ms.map_values(|m: Member| member_values(m)), ..members_upsert_model(Seq::empty()) }
}

proof fn lemma_members_chunk(members: Seq<Member>, rows: Seq<MemberRow>, s: int, e: int)
    requires
        rows.len() == members.len(),
        0 <= s <= e <= rows.len(),
        forall|i: int| 0 <= i < rows.len() ==> member_row_spec(#[trigger] members[i], rows[i]),
    ensures members_upsert_model(rows.subrange(s, e)) == members_statement(members.subrange(s, e)),
{
    let a = member_rows_values(rows.subrange(s, e));
    let b = members.subrange(s, e).map_values(|m: Member| member_values(m));
    assert forall|j: int| 0 <= j < e - s implies #[trigger] a[j] == b[j] by {
        assert(member_row_spec(members[s + j], rows[s + j]));
    }
    assert(a =~= b);
}

/// The statements that store the members of `members`, one per chunk of
/// `DISCORD_CHUNK_SIZE` members, in order; each member with its guild, its user, its
/// nickname and its avatar.
pub fn update_members(members: &Vec<Member>) -> (r: Result<Vec<InsertStatement>, Error>)
    ensures
        r matches Ok(v) && v.len() == chunk_count(members.len() as int, DISCORD_CHUNK_SIZE as int)
            && forall|k: int| 0 <= k < v.len() ==>
                insert_model(#[trigger] v@[k]) == members_statement(chunk_of(members@, DISCORD_CHUNK_SIZE as int, k)),
{
    let rows: Vec<MemberRow> = member_rows(members);
    let bounds = chunk_bounds(rows.len(), DISCORD_CHUNK_SIZE);
    let mut out: Vec<InsertStatement> = Vec::new();
    let mut i: usize = 0;
    while i < bounds.len()
        invariant
            i <= bounds.len(),
            out.len() == i,
            bounds.len() == chunk_count(members.len() as int, DISCORD_CHUNK_SIZE as int),
            rows.len() == members.len(),
            forall|j: int| 0 <= j < rows.len() ==> member_row_spec(#[trigger] members@[j], rows@[j]),
            forall|j: int| 0 <= j < bounds.len() ==> (#[trigger] bounds@[j]).0 < bounds@[j].1 <= rows.len(),
            forall|j: int| 0 <= j < bounds.len() ==> ((#[trigger] bounds@[j]).0 as int, bounds@[j].1 as int)
                == chunks_from(0, rows.len() as int, DISCORD_CHUNK_SIZE as int)[j],
            forall|k: int| 0 <= k < out.len() ==>
                insert_model(#[trigger] out@[k]) == members_statement(chunk_of(members@, DISCORD_CHUNK_SIZE as int, k)),
        decreases bounds.len() - i,
    {
        let (start, end) = bounds[i];
        let q = match members_upsert(&rows, start, end) {
            Ok(q) => q,
            Err(e) => return Err(e),
        };
        proof { lemma_members_chunk(members@, rows@, start as int, end as int); }
        out.push(q);
        i += 1;
    }
    Ok(out)
}

/// The values that the row of the app of `g` holds: its id and its name.
pub open spec fn app_values(g: &OwnedGame) -> Seq<SqlValue> {
    seq![SqlValue::Int(g.appid), SqlValue::Text(Some(g.name@))]
}

/// The statement that stores the apps of `gs`, in order.
pub open spec fn apps_statement(gs: Seq<&OwnedGame>) -> InsertModel {
    InsertModel { rows: gs.map_values(|g: &OwnedGame| app_values(g)), ..apps_upsert_model(Seq::empty()) }
}

proof fn lemma_apps_chunk(apps: Seq<&OwnedGame>, rows: Seq<(i32, String)>, s: int, e: int)
    requires
        rows.len() == apps.len(),
        0 <= s <= e <= rows.len(),
        forall|i: int| 0 <= i < rows.len() ==> (#[trigger] rows[i]).0 == apps[i].appid && rows[i].1@ == apps[i].name@,
    ensures apps_upsert_model(rows.subrange(s, e)) == apps_statement(apps.subrange(s, e)),
{
    let a = app_rows_values(rows.subrange(s, e));
    let b = apps.subrange(s, e).map_values(|g: &OwnedGame| app_values(g));
    assert forall|j: int| 0 <= j < e - s implies #[trigger] a[j] == b[j] by {
        assert(rows[s + j].0 == apps[s + j].appid && rows[s + j].1@ == apps[s + j].name@);
    }
    assert(a =~= b);
}

/// The statements that store the apps of `apps`, one per chunk of `STEAM_CHUNK_SIZE` apps, in
/// order; each app with its id and name.
pub fn refresh_apps(apps: &Vec<&OwnedGame>) -> (r: Result<Vec<InsertStatement>, Error>)
    ensures
        r matches Ok(v) && v.len() == chunk_count(apps.len() as int, STEAM_CHUNK_SIZE as int)
            && forall|k: int| 0 <= k < v.len() ==>
                insert_model(#[trigger] v@[k]) == apps_statement(chunk_of(apps@, STEAM_CHUNK_SIZE as int, k)),
{
    let rows: Vec<(i32, String)> = app_rows(apps);
    let bounds = chunk_bounds(rows.len(), STEAM_CHUNK_SIZE);
    let mut out: Vec<InsertStatement> = Vec::new();
    let mut i: usize = 0;
    while i < bounds.len()
        invariant
            i <= bounds.len(),
            out.len() == i,
            bounds.len() == chunk_count(apps.len() as int, STEAM_CHUNK_SIZE as int),
            rows.len() == apps.len(),
            forall|j: int| 0 <= j < rows.len() ==> (#[trigger] rows@[j]).0 == apps@[j].appid && rows@[j].1@ == apps@[j].name@,
            forall|j: int| 0 <= j < bounds.len() ==> (#[trigger] bounds@[j]).0 < bounds@[j].1 <= rows.len(),
            forall|j: int| 0 <= j < bounds.len() ==> ((#[trigger] bounds@[j]).0 as int, bounds@[j].1 as int)
                == chunks_from(0, rows.len() as int, STEAM_CHUNK_SIZE as int)[j],
            forall|k: int| 0 <= k < out.len() ==>
                insert_model(#[trigger] out@[k]) == apps_statement(chunk_of(apps@, STEAM_CHUNK_SIZE as int, k)),
        decreases bounds.len() - i,
    {
        let (start, end) = bounds[i];
        let q = match apps_upsert(&rows, start, end) {
            Ok(q) => q,
            Err(e) => return Err(e),
        };
        proof { lemma_apps_chunk(apps@, rows@, start as int, end as int); }
        out.push(q);
        i += 1;
    }
    Ok(out)
}

/// The statements that store the play times of `playdata`, one per chunk of
/// `STEAM_CHUNK_SIZE` rows, in order; each hands back the id and minutes of its rows, from
/// which the play history of the day is written.
pub fn refresh_playdata(playdata: &Vec<(i32, i64, i32)>) -> (r: Result<Vec<InsertStatement>, Error>)
    ensures
        r matches Ok(v) && v.len() == chunk_count(playdata.len() as int, STEAM_CHUNK_SIZE as int)
            && forall|k: int| 0 <= k < v.len() ==>
                insert_model(#[trigger] v@[k]) == play_data_upsert_model(chunk_of(playdata@, STEAM_CHUNK_SIZE as int, k)),
{
    let bounds = chunk_bounds(playdata.len(), STEAM_CHUNK_SIZE);
    let mut out: Vec<InsertStatement> = Vec::new();
    let mut i: usize = 0;
    while i < bounds.len()
        invariant
            i <= bounds.len(),
            out.len() == i,
            bounds.len() == chunk_count(playdata.len() as int, STEAM_CHUNK_SIZE as int),
            forall|j: int| 0 <= j < bounds.len() ==> (#[trigger] bounds@[j]).0 < bounds@[j].1 <= playdata.len(),
            forall|j: int| 0 <= j < bounds.len() ==> ((#[trigger] bounds@[j]).0 as int, bounds@[j].1 as int)
                == chunks_from(0, playdata.len() as int, STEAM_CHUNK_SIZE as int)[j],
            forall|k: int| 0 <= k < out.len() ==>
                insert_model(#[trigger] out@[k]) == play_data_upsert_model(chunk_of(playdata@, STEAM_CHUNK_SIZE as int, k)),
        decreases bounds.len() - i,
    {
        let (start, end) = bounds[i];
        let q = match play_data_upsert(playdata, start, end) {
            Ok(q) => q,
            Err(e) => return Err(e),
        };
        out.push(q);
        i += 1;
    }
    Ok(out)
}

/// What a refresh of the Steam data stores, from the games of each account: every app once,
/// in the order it first comes, and the play time of every game of every account, account
/// after account.
pub fn steam_refresh_rows(accounts: &Vec<(i64, Vec<OwnedGame>)>) -> (r: (Vec<&OwnedGame>, Vec<(i32, i64, i32)>))
    ensures
        r.0@.map_values(|g: &OwnedGame| *g) == unique_apps(flat_games(accounts@).map_values(|p: (i64, OwnedGame)| p.1)),
        r.1@ == play_rows(flat_games(accounts@)),
{
    let flat = flatten_games(accounts);
    let apps = unique_games(&flat);
    let plays = play_data(&flat);
    proof {
        let refs = flat@.map_values(|p: (i64, &OwnedGame)| *p.1);
        let owned = flat_games(accounts@).map_values(|p: (i64, OwnedGame)| p.1);
        let pairs = flat@.map_values(|p: (i64, &OwnedGame)| (p.0, *p.1));
        assert forall|i: int| 0 <= i < refs.len() implies #[trigger] refs[i] == owned[i] by {
            assert(pairs[i] == flat_games(accounts@)[i]);
        }
        assert(refs =~= owned);
    }
    (apps, plays)
}

/// What a refresh of one Steam account stores, from its games: every game's app, and the
/// play time of every game.
pub fn single_user_rows(acc: i64, games: &Vec<OwnedGame>) -> (r: (Vec<&OwnedGame>, Vec<(i32, i64, i32)>))
    ensures
        r.0@.map_values(|g: &OwnedGame| *g) == games@,
        r.1@ == play_rows(account_games((acc, *games))),
{
    let mut apps: Vec<&OwnedGame> = Vec::new();
    let mut i: usize = 0;
    while i < games.len()
        invariant
            i <= games.len(),
            apps@.map_values(|g: &OwnedGame| *g) == games@.take(i as int),
        decreases games.len() - i,
    {
        let ghost before = apps@;
        apps.push(&games[i]);
        assert(apps@.map_values(|g: &OwnedGame| *g) =~= before.map_values(|g: &OwnedGame| *g).push(games@[i as int]));
        assert(apps@.map_values(|g: &OwnedGame| *g) =~= games@.take(i + 1));
        i += 1;
    }
    assert(games@.take(games.len() as int) =~= games@);
    let paired = pair_with_account(acc, games);
    let plays = play_data(&paired);
    (apps, plays)
}

} // verus!
