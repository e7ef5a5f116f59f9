use vstd::prelude::*;
use vstd::string::*;
use crate::fmt::decimal;
use crate::fmt::push_decimal;
use crate::fmt::push_signed_decimal;
use crate::fmt::signed_decimal;
use crate::locale::opt_text;
use crate::numbers::parse_i32;
use crate::numbers::parse_i32_spec;
use crate::query::TopQueryArgs;
use crate::steam_data::div_toward_zero;

verus! {

/// The text of the leftmost match of the regular expression `pattern` in `s`, as the regex
/// crate finds it; `None` when there is none or `pattern` does not compile.
pub uninterp spec fn regex_first_match(pattern: Seq<char>, s: Seq<char>) -> Option<Seq<char>>;

/// `Regex::new(pattern)` then `Regex::find(s)` of the regex crate: the text of the leftmost
/// match of `pattern` in `s`, or `None` when there is none or `pattern` is no regular
/// expression. The result is named, not stated.
#[verifier::external_body]
fn regex_find(pattern: &str, s: &str) -> (r: Option<String>)
    ensures opt_text(r) == regex_first_match(pattern@, s@),
{
    regex::Regex::new(pattern).ok().and_then(|re| re.find(s).map(|m| m.as_str().to_string()))
}

/// The app id that a run of digits found in the user's text gives.
pub open spec fn app_id_from_match_spec(m: Option<Seq<char>>) -> Option<i32> {
    match m {
        Some(t) => parse_i32_spec(t),
        None => None,
    }
}

/// The app id that the first run of digits of a text gives, as an `i32`.
pub fn app_id_from_match(m: Option<String>) -> (r: Option<i32>)
    ensures r == app_id_from_match_spec(opt_text(m)),
{
    match m {
        Some(t) => parse_i32(t.as_str()),
        None => None,
    }
}

/// The app id named in the text `app`: its first run of digits, as an `i32`.
pub fn app_id_from_text(app: &str) -> (r: Option<i32>)
    ensures r == app_id_from_match_spec(regex_first_match("\\d+"@, app@)),
{
    app_id_from_match(regex_find("\\d+", app))
}

/// A row of the top guilds list.
pub struct TopGuildsRow {
    pub id: i64,
    pub name: String,
    pub mins_sum: i64,
    pub row_num: i64,
}

/// The line of a row of the top guilds list: rank, hours, name.
pub open spec fn guild_line(r: TopGuildsRow) -> Seq<char> {
    "#"@ + signed_decimal(r.row_num as int) + " | "@ + signed_decimal(div_toward_zero(r.mins_sum as int, 60))
        + " | "@ + r.name@ + "\n"@
}

/// The lines of the rows of the top guilds list.
pub open spec fn guild_lines(rows: Seq<TopGuildsRow>) -> Seq<char>
    decreases rows.len(),
{
    if rows.len() == 0 {
        Seq::empty()
    } else {
        guild_lines(rows.drop_last()) + guild_line(rows.last())
    }
}

/// The message of the top guilds list.
pub open spec fn top_guilds_message_spec(rows: Seq<TopGuildsRow>) -> Seq<char> {
    "The bot is currenly being rewritten. Fancy UI will come back shortly\n```"@ + guild_lines(rows) + "```"@
}

/// The message of the top guilds list `rows`.
pub fn top_guilds_message(rows: &Vec<TopGuildsRow>) -> (r: String)
    ensures r@ == top_guilds_message_spec(rows@),
{
    let mut s = String::from_str("The bot is currenly being rewritten. Fancy UI will come back shortly\n```");
    let ghost head = s@;
    let mut i: usize = 0;
    while i < rows.len()
        invariant
            i <= rows.len(),
            s@ == head + guild_lines(rows@.take(i as int)),
        decreases rows.len() - i,
    {
        let row = &rows[i];
        let ghost before = s@;
        s.append("#");
        push_signed_decimal(&mut s, row.row_num);
        s.append(" | ");
        push_signed_decimal(&mut s, row.mins_sum / 60);
        s.append(" | ");
        s.append(row.name.as_str());
        s.append("\n");
        assert(rows@.take(i + 1).drop_last() =~= rows@.take(i as int));
        assert(s@ =~= before + guild_line(rows@[i as int]));
        i += 1;
    }
    assert(rows@.take(rows.len() as int) =~= rows@);
    s.append("```");
    assert(s@ =~= top_guilds_message_spec(rows@));
    s
}

/// How the list of unlinked members is shown.
pub struct MissingSettings {
    /// Put before each mention so that it is not rendered.
    pub escape: bool,
    /// Members per page.
    pub page_size: u64,
    /// Members per block, each block followed by a rule.
    pub chunk: usize,
}

/// How the list of unlinked members is shown: `extra` shows 80 members per page in blocks of
/// 100, else 20 in blocks of 5.
pub fn missing_settings(escape: Option<bool>, extra: Option<bool>) -> (r: MissingSettings)
    ensures
        r.escape == (escape == Some(true)),
        r.page_size == if extra == Some(true) { 80u64 } else { 20u64 },
        r.chunk == if extra == Some(true) { 100usize } else { 5usize },
{
    let esc = match escape {
        Some(b) => b,
        None => false,
    };
    let ext = match extra {
        Some(b) => b,
        None => false,
    };
    MissingSettings { escape: esc, page_size: if ext { 80 } else { 20 }, chunk: if ext { 100 } else { 5 } }
}

/// The line of the member `id`: its mention, escaped or not.
pub open spec fn mention_line(id: i64, escape: bool) -> Seq<char> {
    (if escape { "\\"@ } else { Seq::empty() }) + "<@"@ + signed_decimal(id as int) + ">\n"@
}

/// The lines of the members `ids`.
pub open spec fn mention_lines(ids: Seq<i64>, escape: bool) -> Seq<char>
    decreases ids.len(),
{
    if ids.len() == 0 {
        Seq::empty()
    } else {
        mention_lines(ids.drop_last(), escape) + mention_line(ids.last(), escape)
    }
}

/// The page of the unlinked members `ids`: blocks of `chunk` lines, each followed by a rule.
pub open spec fn missing_page_spec(ids: Seq<i64>, escape: bool, chunk: nat) -> Seq<char>
    decreases ids.len(),
{
    if ids.len() == 0 || chunk == 0 {
        Seq::empty()
    } else {
        let k = if ids.len() < chunk { ids.len() as int } else { chunk as int };
        mention_lines(ids.take(k), escape) + "========\n"@ + missing_page_spec(ids.skip(k), escape, chunk)
    }
}

/// The page of the unlinked members `ids`, as [`missing_page_spec`] says.
pub fn missing_page(ids: &Vec<i64>, escape: bool, chunk: usize) -> (r: String)
    requires chunk > 0,
    ensures r@ == missing_page_spec(ids@, escape, chunk as nat),
{
    let mut out = String::new();
    let n = ids.len();
    let mut start: usize = 0;
    assert(ids@.skip(0) =~= ids@);
    while start < n
        invariant
            n == ids@.len(),
            chunk > 0,
            start <= n,
            out@ + missing_page_spec(ids@.skip(start as int), escape, chunk as nat) == missing_page_spec(ids@, escape, chunk as nat),
        decreases n - start,
    {
        let end = if n - start < chunk { n } else { start + chunk };
        let ghost rest = ids@.skip(start as int);
        let ghost at_block = out@;
        let mut i: usize = start;
        while i < end
            invariant
                start <= i <= end <= n,
                n == ids@.len(),
                rest == ids@.skip(start as int),
                out@ == at_block + mention_lines(rest.take(i - start), escape),
            decreases end - i,
        {
            let ghost before = out@;
            if escape {
                out.append("\\");
            }
            out.append("<@");
            push_signed_decimal(&mut out, ids[i]);
            out.append(">\n");
            assert(rest.take(i - start + 1).drop_last() =~= rest.take(i - start));
            assert(rest.take(i - start + 1).last() == ids@[i as int]);
            assert(out@ =~= before + mention_line(ids@[i as int], escape));
            i += 1;
        }
        out.append("========\n");
        proof {
            let k = end - start;
            assert(rest.skip(k) =~= ids@.skip(end as int));
            assert(out@ + missing_page_spec(ids@.skip(end as int), escape, chunk as nat)
                =~= at_block + missing_page_spec(rest, escape, chunk as nat));
        }
        start = end;
    }
    assert(ids@.skip(n as int) =~= Seq::<i64>::empty());
    assert(out@ =~= missing_page_spec(ids@, escape, chunk as nat));
    out
}

/// The arguments of the top apps list of the guild `guild_id`: everyone's when `global`,
/// the user's when one is named.
pub fn top_apps_args(guild_id: u64, global: Option<bool>, user: Option<u64>) -> (r: TopQueryArgs)
    ensures
        r == (TopQueryArgs::TopApps {
            guild_id: guild_id as i64,
            global: global == Some(true),
            user_id: match user {
                Some(u) => Some(u as i64),
                None => None,
            },
        }),
{
    TopQueryArgs::TopApps {
        guild_id: guild_id as i64,
        global: match global {
            Some(g) => g,
            None => false,
        },
        user_id: match user {
            Some(u) => Some(u as i64),
            None => None,
        },
    }
}

/// The directory where the pictures `asset` of apps are kept.
pub fn asset_cache_dir(asset: &str) -> (r: String)
    ensures r@ == ".cache/steam/"@ + asset@,
{
    let mut s = String::from_str(".cache/steam/");
    s.append(asset);
    s
}

/// The file where the picture `asset` of the app `appid` is kept.
pub fn asset_cache_path(appid: u32, asset: &str) -> (r: String)
    ensures r@ == ".cache/steam/"@ + asset@ + "/"@ + decimal(appid as nat) + ".jpg"@,
{
    let mut s = String::from_str(".cache/steam/");
    s.append(asset);
    s.append("/");
    push_decimal(&mut s, appid as u64);
    s.append(".jpg");
    assert(s@ =~= ".cache/steam/"@ + asset@ + "/"@ + decimal(appid as nat) + ".jpg"@);
    s
}

/// Where Steam serves the picture `asset` of the app `appid`.
pub fn asset_url(appid: u32, asset: &str) -> (r: String)
    ensures r@ == "https://cdn.cloudflare.steamstatic.com/steam/apps/"@ + decimal(appid as nat) + "/"@ + asset@ + ".jpg"@,
{
    let mut s = String::from_str("https://cdn.cloudflare.steamstatic.com/steam/apps/");
    push_decimal(&mut s, appid as u64);
    s.append("/");
    s.append(asset);
    s.append(".jpg");
    assert(s@ =~= "https://cdn.cloudflare.steamstatic.com/steam/apps/"@ + decimal(appid as nat) + "/"@ + asset@ + ".jpg"@);
    s
}

/// A row of the top apps list.
pub struct TopAppsRow {
    pub id: i32,
    pub name: String,
    pub mins_sum: i64,
    pub row_num: i64,
}

/// A page of the top apps list, drawn from a picture template.
pub struct TopUI {
    pub data: Vec<TopAppsRow>,
    pub page: u64,
    pub pages: u64,
}

} // verus!
