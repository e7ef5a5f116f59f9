use vstd::prelude::*;
use crate::steam_api::OwnedGame;

verus! {

/// `a / b` as Rust computes it on integers: the quotient rounded toward zero.
pub open spec fn div_toward_zero(a: int, b: int) -> int {
    if a >= 0 { a / b } else { -((-a) / b) }
}

/// The day, counted from the Unix epoch in whole days of 86400 seconds, of the Unix time
/// `timestamp`, as a 32-bit integer.
pub fn utc_day(timestamp: i64) -> (d: i32)
    ensures d == div_toward_zero(timestamp as int, 86400) as i32,
{
    let q = timestamp / 86400;
    q as i32
}


/// The games of one account, each with the account's id.
pub open spec fn account_games(a: (i64, Vec<OwnedGame>)) -> Seq<(i64, OwnedGame)> {
    a.1@.map_values(|g: OwnedGame| (a.0, g))
}

/// The games of all accounts, each with its account's id, account after account.
pub open spec fn flat_games(accounts: Seq<(i64, Vec<OwnedGame>)>) -> Seq<(i64, OwnedGame)>
    decreases accounts.len(),
{
    if accounts.len() == 0 {
        Seq::empty()
    } else {
        flat_games(accounts.drop_last()) + account_games(accounts.last())
    }
}

/// The games of `s` without those whose app came earlier.
pub open spec fn unique_apps(s: Seq<OwnedGame>) -> Seq<OwnedGame>
    decreases s.len(),
{
    if s.len() == 0 {
        Seq::empty()
    } else if exists|i: int| 0 <= i < s.len() - 1 && #[trigger] s[i].appid == s.last().appid {
        unique_apps(s.drop_last())
    } else {
        unique_apps(s.drop_last()).push(s.last())
    }
}

/// The play time of each game: its app, its account, its minutes.
pub open spec fn play_rows(s: Seq<(i64, OwnedGame)>) -> Seq<(i32, i64, i32)> {
    s.map_values(|p: (i64, OwnedGame)| (p.1.appid, p.0, p.1.playtime_forever))
}

/// The games of all accounts, each with its account's id, account after account.
pub fn flatten_games(accounts: &Vec<(i64, Vec<OwnedGame>)>) -> (r: Vec<(i64, &OwnedGame)>)
    ensures r@.map_values(|p: (i64, &OwnedGame)| (p.0, *p.1)) == flat_games(accounts@),
{
    let mut r: Vec<(i64, &OwnedGame)> = Vec::new();
    let mut a: usize = 0;
    while a < accounts.len()
        invariant
            a <= accounts.len(),
            r@.map_values(|p: (i64, &OwnedGame)| (p.0, *p.1)) == flat_games(accounts@.take(a as int)),
        decreases accounts.len() - a,
    {
        let acc = accounts[a].0;
        let games = &accounts[a].1;
        let ghost start = r@.map_values(|p: (i64, &OwnedGame)| (p.0, *p.1));
        let mut g: usize = 0;
        while g < games.len()
            invariant
                g <= games.len(),
                a < accounts.len(),
                games == &accounts@[a as int].1,
                acc == accounts@[a as int].0,
                r@.map_values(|p: (i64, &OwnedGame)| (p.0, *p.1)) == start + account_games(accounts@[a as int]).take(g as int),
            decreases games.len() - g,
        {
            let ghost before = r@;
            r.push((acc, &games[g]));
            assert(r@ == before.push((acc, &games@[g as int])));
            assert(account_games(accounts@[a as int]).take(g + 1) =~= account_games(accounts@[a as int]).take(g as int).push((acc, games@[g as int])));
            assert(r@.map_values(|p: (i64, &OwnedGame)| (p.0, *p.1)) =~= before.map_values(|p: (i64, &OwnedGame)| (p.0, *p.1)).push((acc, games@[g as int])));
            assert(r@.map_values(|p: (i64, &OwnedGame)| (p.0, *p.1)) =~= start + account_games(accounts@[a as int]).take(g + 1));
            g += 1;
        }
        assert(accounts@.take(a + 1).drop_last() =~= accounts@.take(a as int));
        assert(account_games(accounts@[a as int]).take(g as int) =~= account_games(accounts@[a as int]));
        a += 1;
    }
    assert(accounts@.take(accounts.len() as int) =~= accounts@);
    r
}

/// The play time rows of `games`, in order.
pub fn play_data(games: &Vec<(i64, &OwnedGame)>) -> (r: Vec<(i32, i64, i32)>)
    ensures r@ == play_rows(games@.map_values(|p: (i64, &OwnedGame)| (p.0, *p.1))),
{
    let ghost s = games@.map_values(|p: (i64, &OwnedGame)| (p.0, *p.1));
    let mut r: Vec<(i32, i64, i32)> = Vec::new();
    let mut i: usize = 0;
    while i < games.len()
        invariant
            i <= games.len(),
            s == games@.map_values(|p: (i64, &OwnedGame)| (p.0, *p.1)),
            r@ == play_rows(s.take(i as int)),
        decreases games.len() - i,
    {
        let (acc, g) = games[i];
        r.push((g.appid, acc, g.playtime_forever));
        assert(r@ =~= play_rows(s.take(i + 1)));
        i += 1;
    }
    assert(s.take(games.len() as int) =~= s);
    r
}

proof fn lemma_unique_has(s: Seq<OwnedGame>, id: i32)
    ensures
        (exists|i: int| 0 <= i < unique_apps(s).len() && #[trigger] unique_apps(s)[i].appid == id)
            <==> (exists|i: int| 0 <= i < s.len() && #[trigger] s[i].appid == id),
    decreases s.len(),
{
    if s.len() > 0 {
        let t = s.drop_last();
        lemma_unique_has(t, id);
        let u = unique_apps(s);
        let ut = unique_apps(t);
        if exists|i: int| 0 <= i < s.len() && #[trigger] s[i].appid == id {
            let i = choose|i: int| 0 <= i < s.len() && #[trigger] s[i].appid == id;
            if i < s.len() - 1 {
                assert(t[i].appid == id);
                let k = choose|k: int| 0 <= k < ut.len() && #[trigger] ut[k].appid == id;
                if exists|j: int| 0 <= j < s.len() - 1 && #[trigger] s[j].appid == s.last().appid {
                    assert(u[k].appid == id);
                } else {
                    assert(u[k] == ut[k]);
                }
            } else {
                if exists|j: int| 0 <= j < s.len() - 1 && #[trigger] s[j].appid == s.last().appid {
                    let j = choose|j: int| 0 <= j < s.len() - 1 && #[trigger] s[j].appid == s.last().appid;
                    assert(t[j].appid == id);
                    let k = choose|k: int| 0 <= k < ut.len() && #[trigger] ut[k].appid == id;
                    assert(u[k].appid == id);
                } else {
                    assert(u[ut.len() as int].appid == id);
                }
            }
        }
        if exists|i: int| 0 <= i < u.len() && #[trigger] u[i].appid == id {
            let i = choose|i: int| 0 <= i < u.len() && #[trigger] u[i].appid == id;
            if exists|j: int| 0 <= j < s.len() - 1 && #[trigger] s[j].appid == s.last().appid {
                assert(ut[i].appid == id);
                let k = choose|k: int| 0 <= k < t.len() && #[trigger] t[k].appid == id;
                assert(s[k].appid == id);
            } else if i < ut.len() {
                assert(ut[i].appid == id);
                let k = choose|k: int| 0 <= k < t.len() && #[trigger] t[k].appid == id;
                assert(s[k].appid == id);
            } else {
                assert(s[s.len() - 1].appid == id);
            }
        }
    }
}

/// The games of `games` whose app did not come earlier, as `Itertools::unique_by` on the app
/// yields them.
pub fn unique_games<'a>(games: &Vec<(i64, &'a OwnedGame)>) -> (r: Vec<&'a OwnedGame>)
    ensures r@.map_values(|g: &OwnedGame| *g) == unique_apps(games@.map_values(|p: (i64, &OwnedGame)| *p.1)),
{
    let ghost s = games@.map_values(|p: (i64, &OwnedGame)| *p.1);
    let mut r: Vec<&'a OwnedGame> = Vec::new();
    let mut seen: Vec<i32> = Vec::new();
    let mut i: usize = 0;
    while i < games.len()
        invariant
            i <= games.len(),
            s == games@.map_values(|p: (i64, &OwnedGame)| *p.1),
            r@.map_values(|g: &OwnedGame| *g) == unique_apps(s.take(i as int)),
            seen@.len() == r@.len(),
            forall|k: int| 0 <= k < seen@.len() ==> seen@[k] == r@[k].appid,
        decreases games.len() - i,
    {
        let g = games[i].1;
        let mut found = false;
        let mut k: usize = 0;
        while k < seen.len()
            invariant
                k <= seen.len(),
                !found ==> forall|m: int| 0 <= m < k ==> seen@[m] != g.appid,
                found ==> exists|m: int| 0 <= m < seen@.len() && seen@[m] == g.appid,
            decreases seen.len() - k,
        {
            if seen[k] == g.appid {
                found = true;
            }
            k += 1;
        }
        let ghost pre = s.take(i as int);
        let ghost next = s.take(i + 1);
        proof {
            assert(next.drop_last() =~= pre);
            assert(next.last() == *g);
            lemma_unique_has(pre, g.appid);
            let u = unique_apps(pre);
            assert(r@.map_values(|x: &OwnedGame| *x).len() == r@.len());
            if found {
                let m = choose|m: int| 0 <= m < seen@.len() && seen@[m] == g.appid;
                assert(u[m].appid == g.appid);
                let j = choose|j: int| 0 <= j < pre.len() && #[trigger] pre[j].appid == g.appid;
                assert(next[j].appid == next.last().appid);
            } else {
                if exists|j: int| 0 <= j < next.len() - 1 && #[trigger] next[j].appid == next.last().appid {
                    let j = choose|j: int| 0 <= j < next.len() - 1 && #[trigger] next[j].appid == next.last().appid;
                    assert(pre[j].appid == g.appid);
                    let m = choose|m: int| 0 <= m < u.len() && #[trigger] u[m].appid == g.appid;
                    assert(seen@[m] == g.appid);
                }
            }
        }
        if !found {
            r.push(g);
            seen.push(g.appid);
        }
        assert(r@.map_values(|x: &OwnedGame| *x) =~= unique_apps(next));
        i += 1;
    }
    assert(s.take(games.len() as int) =~= s);
    r
}

/// The bounds of the consecutive chunks of `size` items from `start` on, the last one shorter
/// when fewer are left, as `slice::chunks` cuts a slice of `len` items.
pub open spec fn chunks_from(start: int, len: int, size: int) -> Seq<(int, int)>
    decreases len - start,
{
    if start >= len || size <= 0 {
        Seq::empty()
    } else {
        let end = if start + size <= len { start + size } else { len };
        seq![(start, end)] + chunks_from(end, len, size)
    }
}

/// The bounds of the chunks of `size` items of a slice of `len` items.
pub fn chunk_bounds(len: usize, size: usize) -> (r: Vec<(usize, usize)>)
    requires size > 0,
    ensures
        r@.map_values(|b: (usize, usize)| (b.0 as int, b.1 as int)) == chunks_from(0, len as int, size as int),
        r.len() == chunks_from(0, len as int, size as int).len(),
        forall|i: int| 0 <= i < r.len() ==> (#[trigger] r@[i]).0 < r@[i].1 <= len,
        forall|i: int| 0 <= i < r.len() ==> ((#[trigger] r@[i]).0 as int, r@[i].1 as int) == chunks_from(0, len as int, size as int)[i],
{
    let mut r: Vec<(usize, usize)> = Vec::new();
    let mut start: usize = 0;
    while start < len
        invariant
            size > 0,
            start <= len,
            r@.map_values(|b: (usize, usize)| (b.0 as int, b.1 as int)) + chunks_from(start as int, len as int, size as int)
                == chunks_from(0, len as int, size as int),
            forall|i: int| 0 <= i < r.len() ==> (#[trigger] r@[i]).0 < r@[i].1 <= start,
        decreases len - start,
    {
        let end = if len - start >= size { start + size } else { len };
        let ghost before = r@.map_values(|b: (usize, usize)| (b.0 as int, b.1 as int));
        r.push((start, end));
        assert(r@.map_values(|b: (usize, usize)| (b.0 as int, b.1 as int)) =~= before.push((start as int, end as int)));
        assert(before + chunks_from(start as int, len as int, size as int)
            =~= before.push((start as int, end as int)) + chunks_from(end as int, len as int, size as int));
        start = end;
    }
    assert(r@.map_values(|b: (usize, usize)| (b.0 as int, b.1 as int)) =~= chunks_from(0, len as int, size as int));
    assert forall|i: int| 0 <= i < r.len() implies ((#[trigger] r@[i]).0 as int, r@[i].1 as int) == chunks_from(0, len as int, size as int)[i] by {
        assert(r@.map_values(|b: (usize, usize)| (b.0 as int, b.1 as int))[i] == (r@[i].0 as int, r@[i].1 as int));
    }
    r
}


/// The games of the account `acc`, each with the account's id.
pub fn pair_with_account(acc: i64, games: &Vec<OwnedGame>) -> (r: Vec<(i64, &OwnedGame)>)
    ensures r@.map_values(|p: (i64, &OwnedGame)| (p.0, *p.1)) == account_games((acc, *games)),
{
    let mut r: Vec<(i64, &OwnedGame)> = Vec::new();
    let mut g: usize = 0;
    while g < games.len()
        invariant
            g <= games.len(),
            r@.map_values(|p: (i64, &OwnedGame)| (p.0, *p.1)) == account_games((acc, *games)).take(g as int),
        decreases games.len() - g,
    {
        let ghost before = r@;
        r.push((acc, &games[g]));
        assert(r@.map_values(|p: (i64, &OwnedGame)| (p.0, *p.1)) =~= before.map_values(|p: (i64, &OwnedGame)| (p.0, *p.1)).push((acc, games@[g as int])));
        assert(r@.map_values(|p: (i64, &OwnedGame)| (p.0, *p.1)) =~= account_games((acc, *games)).take(g + 1));
        g += 1;
    }
    assert(account_games((acc, *games)).take(games.len() as int) =~= account_games((acc, *games)));
    r
}

/// The rows of the table of apps for `apps`: the app's id and name.
pub open spec fn app_rows_spec(apps: Seq<OwnedGame>) -> Seq<(i32, Seq<char>)> {
    apps.map_values(|g: OwnedGame| (g.appid, g.name@))
}

/// The rows of the table of apps for `apps`, in order.
pub fn app_rows(apps: &Vec<&OwnedGame>) -> (r: Vec<(i32, String)>)
    ensures
        r@.map_values(|x: (i32, String)| (x.0, x.1@)) == app_rows_spec(apps@.map_values(|g: &OwnedGame| *g)),
        r.len() == apps.len(),
        forall|i: int| 0 <= i < r.len() ==> (#[trigger] r@[i]).0 == apps@[i].appid && r@[i].1@ == apps@[i].name@,
{
    let ghost s = apps@.map_values(|g: &OwnedGame| *g);
    let mut r: Vec<(i32, String)> = Vec::new();
    let mut i: usize = 0;
    while i < apps.len()
        invariant
            i <= apps.len(),
            s == apps@.map_values(|g: &OwnedGame| *g),
            r@.map_values(|x: (i32, String)| (x.0, x.1@)) == app_rows_spec(s.take(i as int)),
        decreases apps.len() - i,
    {
        let ghost before = r@;
        r.push((apps[i].appid, apps[i].name.clone()));
        assert(r@.map_values(|x: (i32, String)| (x.0, x.1@)) =~= before.map_values(|x: (i32, String)| (x.0, x.1@)).push((s[i as int].appid, s[i as int].name@)));
        assert(r@.map_values(|x: (i32, String)| (x.0, x.1@)) =~= app_rows_spec(s.take(i + 1)));
        i += 1;
    }
    assert(s.take(apps.len() as int) =~= s);
    assert forall|i: int| 0 <= i < r.len() implies (#[trigger] r@[i]).0 == apps@[i].appid && r@[i].1@ == apps@[i].name@ by {
        assert(r@.map_values(|x: (i32, String)| (x.0, x.1@))[i] == app_rows_spec(s)[i]);
    }
    r
}

/// The rows of the play history of day `day`, from the ids and minutes that the upsert of
/// play time returned.
pub open spec fn play_hist_rows_spec(returned: Seq<(i32, i32)>, day: i32) -> Seq<(i32, i32, i32)> {
    returned.map_values(|x: (i32, i32)| (x.0, day, x.1))
}

/// The rows of the play history of day `day`, in order.
pub fn play_hist_rows(returned: &Vec<(i32, i32)>, day: i32) -> (r: Vec<(i32, i32, i32)>)
    ensures r@ == play_hist_rows_spec(returned@, day),
{
    let mut r: Vec<(i32, i32, i32)> = Vec::new();
    let mut i: usize = 0;
    while i < returned.len()
        invariant
            i <= returned.len(),
            r@ == play_hist_rows_spec(returned@.take(i as int), day),
        decreases returned.len() - i,
    {
        let (id, mins) = returned[i];
        r.push((id, day, mins));
        assert(r@ =~= play_hist_rows_spec(returned@.take(i + 1), day));
        i += 1;
    }
    assert(returned@.take(returned.len() as int) =~= returned@);
    r
}

} // verus!
