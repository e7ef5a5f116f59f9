use vstd::prelude::*;
use crate::commands::cmd_localized;
use crate::commands::description_update;
use crate::commands::localized;
use crate::commands::name_update;
use crate::commands::param_localized;
use crate::commands::Choice;
use crate::commands::Parameter;
use crate::commands::choice_localized;
use crate::locale::opt_text;
use crate::commands::Cmd;
use crate::fmt::decimal;
use crate::fmt::digit_char;
use crate::fmt::signed_decimal;
use crate::lifecycle::run_step_spec;
use crate::lifecycle::RunStep;
use crate::locale::Catalog;
use crate::numbers::digits_value;
use crate::numbers::digit_value;
use crate::numbers::is_digit;
use crate::numbers::parse_i32_spec;
use crate::numbers::parse_i64_spec;
use crate::numbers::sign_and_digits;
use crate::pages::missing_step_spec;
use crate::pages::pagination_buttons_spec;
use crate::pages::top_apps_step_spec;
use crate::query::page_window_spec;
use crate::query::top_query_spec;
use crate::query::plan_select;
use crate::query::missing_select;
use crate::sql::SelectModel;
use crate::sql::SqlCond;
use crate::sql::SqlValue;
use crate::query::Column;
use crate::query::Source;
use crate::query::Subject;
use crate::query::TopQueryArgs;
use crate::poise::GatewayIntents;
use crate::steam_data::chunks_from;
use crate::steam_data::unique_apps;
use crate::steam_api::OwnedGame;
use crate::discord::humans;
use crate::discord::discord_action_spec;
use crate::discord::DiscordAction;
use crate::discord::Event;
use crate::commands::all_lowercase;
use crate::discord::Member;

verus! {

/// The steps of a lifecycle run: the pre hooks in order, then the main hooks together, then
/// the post hooks in order, then the end.
pub proof fn law_run_order(pre: nat, post: nat)
    ensures
        forall|k: nat| k < pre ==> #[trigger] run_step_spec(pre, post, k) == RunStep::Pre(k as usize),
        run_step_spec(pre, post, pre) == RunStep::Main,
        forall|j: nat| j < post ==> #[trigger] run_step_spec(pre, post, pre + 1 + j) == RunStep::Post(j as usize),
        run_step_spec(pre, post, pre + 1 + post) == RunStep::Done,
{
}

/// Under the list of unlinked members, forward then back returns to the page, and pages stay
/// between 0 and `pages`.
pub proof fn law_missing_paging_round_trip(page: int, pages: int, prev_id: Seq<char>, next_id: Seq<char>)
    requires
        0 <= page < pages,
        prev_id != next_id,
    ensures
        missing_step_spec(page, pages, next_id, prev_id, next_id) matches Some(q)
            && 0 <= q < pages
            && missing_step_spec(q, pages, prev_id, prev_id, next_id) == Some(page),
        missing_step_spec(page, pages, prev_id, prev_id, next_id) matches Some(q)
            && 0 <= q < pages
            && missing_step_spec(q, pages, next_id, prev_id, next_id) == Some(page),
{
}

/// Under the top apps list, forward then back returns to the page.
pub proof fn law_top_apps_paging_round_trip(page: int)
    ensures top_apps_step_spec(top_apps_step_spec(page, "pg_next"@), "pg_prev"@) == page,
{
    assert("pg_next"@ != "pg_prev"@) by {
        reveal_strlit("pg_next");
        reveal_strlit("pg_prev");
        assert("pg_next"@[3] != "pg_prev"@[3]);
    }
}

/// The rows a page fetches end one row after the page, so that a next page shows; a later
/// page also fetches the row before it.
pub proof fn law_page_window_ends_after_page(size: nat, page: nat)
    requires page > 0 ==> page * size >= 1,
    ensures
        page == 0 ==> page_window_spec(size, page) == (size + 1, None::<nat>),
        page > 0 ==> (page_window_spec(size, page).1 matches Some(o)
            && o + page_window_spec(size, page).0 == (page + 1) * size + 1
            && o + 1 == page * size),
{
    if page > 0 {
        assert((page + 1) * size == page * size + size) by (nonlinear_arith);
    }
}

/// `after` is `before` with at most the key `loc` gained or given a new text.
pub open spec fn only_key_changes(before: Map<Seq<char>, Seq<char>>, after: Map<Seq<char>, Seq<char>>, loc: Seq<char>) -> bool {
    &&& after.remove(loc) == before.remove(loc)
    &&& before.contains_key(loc) ==> after.contains_key(loc)
}

/// The localizations of `after` relate to those of `before` as localizing for `loc` allows:
/// with `default` they stay as they were, else only the key `loc` changes.
pub open spec fn locs_kept(before: Map<Seq<char>, Seq<char>>, after: Map<Seq<char>, Seq<char>>, loc: Seq<char>, default: bool) -> bool {
    if default { after == before } else { only_key_changes(before, after, loc) }
}

/// The choice `after` is `before` with its name kept unless `default`, and its localizations
/// changed only as [`locs_kept`] allows.
pub open spec fn choice_kept(before: Choice, after: Choice, loc: Seq<char>, default: bool) -> bool {
    &&& !default ==> after.name@ == before.name@
    &&& locs_kept(before.localizations@, after.localizations@, loc, default)
}

/// The parameter `after` is `before` with its texts kept unless `default`, its localizations
/// changed only as [`locs_kept`] allows, and as many choices, each kept so.
pub open spec fn param_kept(before: Parameter, after: Parameter, loc: Seq<char>, default: bool) -> bool {
    &&& !default ==> after.name@ == before.name@ && opt_text(after.description) == opt_text(before.description)
    &&& locs_kept(before.name_localizations@, after.name_localizations@, loc, default)
    &&& locs_kept(before.description_localizations@, after.description_localizations@, loc, default)
    &&& after.choices.len() == before.choices.len()
    &&& forall|j: int| 0 <= j < before.choices.len() ==> choice_kept(#[trigger] before.choices@[j], after.choices@[j], loc, default)
}

/// The command tree `after` has the shape of `before`: the same identifying name and flag,
/// as many parameters and subcommands in the same places, each kept as [`param_kept`] and
/// this function say; its own texts are kept unless `default`, and its localizations change
/// only as [`locs_kept`] allows.
pub open spec fn cmd_kept(before: Cmd, after: Cmd, loc: Seq<char>, default: bool) -> bool
    decreases before,
{
    &&& after.identifying_name@ == before.identifying_name@
    &&& after.subcommand_required == before.subcommand_required
    &&& !default ==> after.name@ == before.name@ && opt_text(after.description) == opt_text(before.description)
    &&& locs_kept(before.name_localizations@, after.name_localizations@, loc, default)
    &&& locs_kept(before.description_localizations@, after.description_localizations@, loc, default)
    &&& after.parameters.len() == before.parameters.len()
    &&& forall|j: int| 0 <= j < before.parameters.len() ==> param_kept(#[trigger] before.parameters@[j], after.parameters@[j], loc, default)
    &&& after.subcommands.len() == before.subcommands.len()
    &&& forall|j: int| 0 <= j < before.subcommands.len() ==> cmd_kept(#[trigger] before.subcommands@[j], after.subcommands@[j], loc, default)
}

proof fn lemma_locs_kept(default: bool, found: Option<Seq<char>>, name: Seq<char>, locs: Map<Seq<char>, Seq<char>>, loc: Seq<char>)
    ensures
        locs_kept(locs, name_update(default, found, name, locs, loc).1, loc, default),
        !default ==> name_update(default, found, name, locs, loc).0 == name,
{
    if !default {
        if let Some(t) = found {
            assert(locs.insert(loc, t).remove(loc) =~= locs.remove(loc));
        }
    }
}

proof fn lemma_desc_kept(default: bool, found: Option<Seq<char>>, desc: Option<Seq<char>>, locs: Map<Seq<char>, Seq<char>>, loc: Seq<char>)
    ensures
        locs_kept(locs, description_update(default, found, desc, locs, loc).1, loc, default),
        !default ==> description_update(default, found, desc, locs, loc).0 == desc,
{
    if !default {
        if let Some(t) = found {
            assert(locs.insert(loc, t).remove(loc) =~= locs.remove(loc));
        }
    }
}

proof fn lemma_param_kept(before: Parameter, after: Parameter, loc: Seq<char>, cat: &Catalog, path: Seq<char>, default: bool)
    requires param_localized(before, after, loc, cat, path, default),
    ensures param_kept(before, after, loc, default),
{
    let prm_path = "prm_"@ + before.name@;
    let found = localized(cat, path, Some(prm_path), true);
    lemma_locs_kept(default, found, before.name@, before.name_localizations@, loc);
    let n = name_update(default, found, before.name@, before.name_localizations@, loc);
    lemma_desc_kept(default, localized(cat, path, Some(prm_path + "_desc"@), false), opt_text(before.description), before.description_localizations@, loc);
    assert forall|j: int| 0 <= j < before.choices.len() implies choice_kept(#[trigger] before.choices@[j], after.choices@[j], loc, default) by {
        let c = before.choices@[j];
        lemma_locs_kept(default, localized(cat, "cho_"@ + n.0, Some(c.name@), false), c.name@, c.localizations@, loc);
    }
}

proof fn lemma_same_param_kept(p: Parameter, loc: Seq<char>, default: bool)
    ensures param_kept(p, p, loc, default),
{
    assert(p.name_localizations@.remove(loc) == p.name_localizations@.remove(loc));
    assert forall|j: int| 0 <= j < p.choices.len() implies choice_kept(#[trigger] p.choices@[j], p.choices@[j], loc, default) by {}
}

/// Localizing a command tree for `loc` keeps its shape: the same commands, parameters and
/// choices in the same places. For a locale other than the default, every name and
/// description stays as it was and each localization map gains or changes only the key `loc`;
/// for the default locale no localization map changes.
pub proof fn law_localization_keeps_shape(before: Cmd, after: Cmd, loc: Seq<char>, cat: &Catalog, parent: Seq<char>, default: bool)
    requires cmd_localized(before, after, loc, cat, parent, default),
    ensures cmd_kept(before, after, loc, default),
    decreases before,
{
    let path = parent + "_"@ + before.name@;
    if before.subcommand_required {
        assert forall|j: int| 0 <= j < before.parameters.len() implies param_kept(#[trigger] before.parameters@[j], after.parameters@[j], loc, default) by {
            lemma_same_param_kept(before.parameters@[j], loc, default);
        }
    } else {
        lemma_locs_kept(default, localized(cat, path, None, true), before.name@, before.name_localizations@, loc);
        lemma_desc_kept(default, localized(cat, path, Some("desc"@), false), opt_text(before.description), before.description_localizations@, loc);
        assert forall|j: int| 0 <= j < before.parameters.len() implies param_kept(#[trigger] before.parameters@[j], after.parameters@[j], loc, default) by {
            lemma_param_kept(before.parameters@[j], after.parameters@[j], loc, cat, path, default);
        }
    }
    assert forall|j: int| 0 <= j < before.subcommands.len() implies cmd_kept(#[trigger] before.subcommands@[j], after.subcommands@[j], loc, default) by {
        law_localization_keeps_shape(before.subcommands@[j], after.subcommands@[j], loc, cat, path, default);
    }
}

proof fn lemma_decimal_digits(n: nat)
    ensures
        forall|i: int| 0 <= i < decimal(n).len() ==> is_digit(#[trigger] decimal(n)[i]),
        digits_value(decimal(n)) == n,
        decimal(n).len() >= 1,
        decimal(n)[0] != '-' && decimal(n)[0] != '+',
    decreases n,
{
    let c = digit_char(n % 10);
    assert(c as int == 48 + n % 10);
    assert('0' as int == 48);
    assert(decimal(n).last() == c);
    assert(n / 10 * 10 + n % 10 == n);
    if n >= 10 {
        lemma_decimal_digits(n / 10);
        let d = decimal(n);
        assert(d.drop_last() =~= decimal(n / 10));
        assert(d[0] == decimal(n / 10)[0]);
        assert(digits_value(d) == digits_value(d.drop_last()) * 10 + digit_value(c));
        assert(digits_value(d.drop_last()) == n / 10);
    } else {
        let d = decimal(n);
        assert(d.drop_last() =~= Seq::<char>::empty());
        assert(digits_value(d) == digits_value(d.drop_last()) * 10 + digit_value(c));
        assert(digits_value(d.drop_last()) == 0);
    }
}

/// The decimal notation of a number in the range of `i32` reads back as that number.
pub proof fn law_decimal_reads_back(n: nat)
    requires n <= i32::MAX,
    ensures parse_i32_spec(decimal(n)) == Some(n as i32),
{
    lemma_decimal_digits(n);
    let s = decimal(n);
    assert(sign_and_digits(s).1 == s);
}

/// The decimal notation of any `i64`, with a minus sign when negative, reads back as that
/// number.
pub proof fn law_signed_decimal_reads_back(i: int)
    requires i64::MIN <= i <= i64::MAX,
    ensures parse_i64_spec(signed_decimal(i)) == Some(i as i64),
{
    if i < 0 {
        let n = (-i) as nat;
        lemma_decimal_digits(n);
        let s = signed_decimal(i);
        assert(s[0] == '-');
        assert(s.skip(1) =~= decimal(n));
        assert(sign_and_digits(s).1 == decimal(n));
    } else {
        lemma_decimal_digits(i as nat);
        let s = signed_decimal(i);
        assert(sign_and_digits(s).1 == s);
    }
}


/// Every top list query reads play data, and every column it selects or compares belongs to
/// a table it lists.
pub proof fn law_top_query_tables_listed(args: TopQueryArgs)
    ensures
        top_query_spec(args).from[0] == Source::PlayData,
        forall|i: int| 0 <= i < top_query_spec(args).conds.len() ==>
            (#[trigger] top_query_spec(args).conds[i]).within(top_query_spec(args).from),
        top_query_spec(args).from.contains(top_query_spec(args).subject.spec_columns().0.source()),
        top_query_spec(args).from.contains(top_query_spec(args).subject.spec_columns().1.source()),
{
    let q = top_query_spec(args);
    let f = q.from;
    assert(f.contains(f[0]));
    assert(f.contains(f[1]));
    if f.len() > 2 {
        assert(f.contains(f[2]));
    }
    if f.len() > 3 {
        assert(f.contains(f[3]));
    }
    match args {
        TopQueryArgs::TopApps { guild_id, global, user_id } => {
            match user_id {
                Some(_) => {},
                None => {
                    if !global {
                        assert(f.contains(f[3]));
                    }
                },
            }
        },
        _ => {},
    }
}

/// A top list over everyone, or of one user, does not depend on the guild it is asked in:
/// the statement that `top_query_builder` builds is the same for any two guilds.
pub proof fn law_global_top_ignores_guild(g1: i64, g2: i64, b1: bool, b2: bool, u: i64, a: Option<i32>, c: bool)
    ensures
        plan_select(top_query_spec(TopQueryArgs::TopApps { guild_id: g1, global: true, user_id: None }))
            == plan_select(top_query_spec(TopQueryArgs::TopApps { guild_id: g2, global: true, user_id: None })),
        plan_select(top_query_spec(TopQueryArgs::TopApps { guild_id: g1, global: b1, user_id: Some(u) }))
            == plan_select(top_query_spec(TopQueryArgs::TopApps { guild_id: g2, global: b2, user_id: Some(u) })),
        plan_select(top_query_spec(TopQueryArgs::TopUsers { guild_id: g1, global: true, app_id: a, appcount: c }))
            == plan_select(top_query_spec(TopQueryArgs::TopUsers { guild_id: g2, global: true, app_id: a, appcount: c })),
{
}

/// The query of the unlinked members over every guild is the same whichever guild asks; for
/// one guild it differs from the one over every guild only by the condition on that guild.
pub proof fn law_global_missing_ignores_guild(g1: u64, g2: u64)
    ensures
        missing_select(true, g1) == missing_select(true, g2),
        missing_select(false, g1) == (SelectModel {
            wheres: seq![SqlCond::Is(Column::MembersGuildId.spec_parts(), SqlValue::BigInt(g1 as i64))],
            ..missing_select(true, g2)
        }),
{
}

/// Adding intents twice is adding them once, and the added intents are then all present.
pub proof fn law_intents_insert(a: u64, b: u64)
    ensures
        (a | b) | b == a | b,
        (a | b) & b == b,
        (a | b) & a == a,
{
    assert((a | b) | b == a | b) by (bit_vector);
    assert((a | b) & b == b) by (bit_vector);
    assert((a | b) & a == a) by (bit_vector);
}

/// The chunks of a slice follow each other without gap from its first item to its last, and
/// none is longer than the chunk size.
pub proof fn law_chunks_cover(start: int, len: int, size: int)
    requires
        0 <= start <= len,
        size > 0,
    ensures
        chunks_from(start, len, size).len() > 0 ==> chunks_from(start, len, size)[0].0 == start,
        chunks_from(start, len, size).len() > 0 ==> chunks_from(start, len, size).last().1 == len,
        forall|i: int| 0 <= i < chunks_from(start, len, size).len() - 1 ==>
            (#[trigger] chunks_from(start, len, size)[i]).1 == chunks_from(start, len, size)[i + 1].0,
        forall|i: int| 0 <= i < chunks_from(start, len, size).len() ==>
            (#[trigger] chunks_from(start, len, size)[i]).0 < chunks_from(start, len, size)[i].1
            && chunks_from(start, len, size)[i].1 - chunks_from(start, len, size)[i].0 <= size,
        start == len <==> chunks_from(start, len, size).len() == 0,
    decreases len - start,
{
    if start < len {
        let end = if start + size <= len { start + size } else { len };
        law_chunks_cover(end, len, size);
        let c = chunks_from(start, len, size);
        let rest = chunks_from(end, len, size);
        assert(c == seq![(start, end)] + rest);
        assert forall|i: int| 0 <= i < c.len() - 1 implies (#[trigger] c[i]).1 == c[i + 1].0 by {
            if i == 0 {
                if rest.len() > 0 {
                    assert(c[1] == rest[0]);
                }
            } else {
                assert(c[i] == rest[i - 1]);
                assert(c[i + 1] == rest[i]);
            }
        }
        assert forall|i: int| 0 <= i < c.len() implies
            (#[trigger] c[i]).0 < c[i].1 && c[i].1 - c[i].0 <= size by {
            if i > 0 {
                assert(c[i] == rest[i - 1]);
            }
        }
        if rest.len() > 0 {
            assert(c.last() == rest.last());
        }
    }
}

proof fn lemma_unique_from(s: Seq<OwnedGame>, i: int)
    requires 0 <= i < unique_apps(s).len(),
    ensures exists|j: int| 0 <= j < s.len() && #[trigger] s[j] == unique_apps(s)[i],
    decreases s.len(),
{
    let t = s.drop_last();
    if s.len() > 0 {
        if i < unique_apps(t).len() {
            lemma_unique_from(t, i);
            let j = choose|j: int| 0 <= j < t.len() && #[trigger] t[j] == unique_apps(t)[i];
            assert(s[j] == t[j]);
        } else {
            assert(s[s.len() - 1] == unique_apps(s)[i]);
        }
    }
}

/// The apps refreshed from many accounts hold each app at most once.
pub proof fn law_unique_apps_distinct(s: Seq<OwnedGame>)
    ensures
        forall|i: int, j: int| 0 <= i < j < unique_apps(s).len() ==>
            (#[trigger] unique_apps(s)[i]).appid != (#[trigger] unique_apps(s)[j]).appid,
    decreases s.len(),
{
    if s.len() > 0 {
        let t = s.drop_last();
        law_unique_apps_distinct(t);
        let u = unique_apps(s);
        let ut = unique_apps(t);
        if !(exists|k: int| 0 <= k < s.len() - 1 && #[trigger] s[k].appid == s.last().appid) {
            assert forall|i: int, j: int| 0 <= i < j < u.len() implies
                (#[trigger] u[i]).appid != (#[trigger] u[j]).appid by {
                if j == ut.len() {
                    lemma_unique_from(t, i);
                    let k = choose|k: int| 0 <= k < t.len() && #[trigger] t[k] == ut[i];
                    assert(s[k].appid == t[k].appid);
                } else {
                    assert(u[i] == ut[i] && u[j] == ut[j]);
                }
            }
        }
    }
}

/// No bot is among the members stored for a guild.
pub proof fn law_no_bots_stored(s: Seq<Member>)
    ensures forall|i: int| 0 <= i < humans(s).len() ==> !(#[trigger] humans(s)[i]).user.bot,
    decreases s.len(),
{
    if s.len() > 0 {
        law_no_bots_stored(s.drop_last());
    }
}


/// While no page loads, back is off exactly on the first page and forward exactly on the
/// last; the page counter is never pressable.
pub proof fn law_pagination_bounds(page: nat, pages: nat, event: Seq<char>)
    ensures
        pagination_buttons_spec(page, pages, false, event)[0].disabled == (page == 0),
        pagination_buttons_spec(page, pages, false, event)[1].disabled,
        pagination_buttons_spec(page, pages, false, event)[2].disabled == (page + 1 == pages),
        forall|i: int| 0 <= i < 3 ==> (#[trigger] pagination_buttons_spec(page, pages, true, event)[i]).disabled,
{
}

/// A command that only groups subcommands keeps its own name, description and parameters,
/// in any locale.
pub proof fn law_group_commands_keep_texts(before: Cmd, after: Cmd, loc: Seq<char>, cat: &Catalog, parent: Seq<char>, default: bool)
    requires
        before.subcommand_required,
        cmd_localized(before, after, loc, cat, parent, default),
    ensures
        after.name@ == before.name@,
        after.name_localizations@ == before.name_localizations@,
        after.parameters@ == before.parameters@,
{
}

/// The member that `e` is about, when it is a member joining or changing.
pub open spec fn event_member(e: Event) -> Option<Member> {
    match e {
        Event::GuildMemberAddition { new_member } => Some(new_member),
        Event::GuildMemberUpdate { new } => Some(new),
        _ => None,
    }
}

/// Whether `a` stores the event's member.
pub open spec fn stores_member(a: DiscordAction) -> bool {
    a is UpdateUserAndMember || a is UpdateMember
}

/// Bots are never stored: an action that stores a member arises exactly from a member who
/// joins or changes and is no bot, and any event about a bot member does nothing. A joining
/// member's user is stored with it; a changed member only is.
pub proof fn law_bot_members_never_stored(e: Event)
    ensures
        stores_member(discord_action_spec(e)) == (event_member(e) matches Some(m) && !m.user.bot),
        (event_member(e) matches Some(m) && m.user.bot) ==> discord_action_spec(e) == DiscordAction::Nothing,
        discord_action_spec(e) is UpdateUserAndMember ==> e is GuildMemberAddition,
        discord_action_spec(e) is UpdateMember ==> e is GuildMemberUpdate,
{
}

/// The text `found`, when all lowercase.
pub open spec fn lowercase_only(found: Option<Seq<char>>) -> Option<Seq<char>> {
    match found {
        Some(t) => if all_lowercase(t) { Some(t) } else { None },
        None => None,
    }
}

/// A text that was found is applied to a name: with `default` it is the name `own`, else the
/// localization of `locs` for `loc`.
pub open spec fn name_applied(found: Option<Seq<char>>, default: bool, own: Seq<char>, locs: Map<Seq<char>, Seq<char>>, loc: Seq<char>) -> bool {
    match found {
        Some(t) => if default { own == t } else { locs.contains_key(loc) && locs[loc] == t },
        None => true,
    }
}

/// A text that was found is applied to a description: with `default` it is the description
/// `own`, else the localization of `locs` for `loc`.
pub open spec fn description_applied(found: Option<Seq<char>>, default: bool, own: Option<Seq<char>>, locs: Map<Seq<char>, Seq<char>>, loc: Seq<char>) -> bool {
    match found {
        Some(t) => if default { own == Some(t) } else { locs.contains_key(loc) && locs[loc] == t },
        None => true,
    }
}

/// The texts found for the parameter `p` below the command path `path` are applied to `q`, its
/// localized form: its name and description, and each choice's name below `cho_{name}`.
pub open spec fn param_texts_applied(p: Parameter, q: Parameter, loc: Seq<char>, cat: &Catalog, path: Seq<char>, default: bool) -> bool {
    &&& name_applied(lowercase_only(cat.spec_lookup(path, Some("prm_"@ + p.name@))), default, q.name@, q.name_localizations@, loc)
    &&& description_applied(cat.spec_lookup(path, Some("prm_"@ + p.name@ + "_desc"@)), default, opt_text(q.description), q.description_localizations@, loc)
    &&& forall|c: int| 0 <= c < p.choices.len() ==>
        name_applied(cat.spec_lookup("cho_"@ + q.name@, Some((#[trigger] p.choices@[c]).name@)), default, q.choices@[c].name@, q.choices@[c].localizations@, loc)
}

/// Localizing a command that does not only group subcommands: with the default locale, every
/// text found in the catalog becomes the command's own (its name when all lowercase, its
/// description, each parameter's name when all lowercase and description, each choice's
/// name); with another locale, each such text becomes the localization for that locale.
pub proof fn law_found_texts_are_applied(before: Cmd, after: Cmd, loc: Seq<char>, cat: &Catalog, parent: Seq<char>, default: bool)
    requires
        !before.subcommand_required,
        cmd_localized(before, after, loc, cat, parent, default),
    ensures
        name_applied(lowercase_only(cat.spec_lookup(parent + "_"@ + before.name@, None)), default, after.name@, after.name_localizations@, loc),
        description_applied(cat.spec_lookup(parent + "_"@ + before.name@, Some("desc"@)), default, opt_text(after.description), after.description_localizations@, loc),
        forall|j: int| 0 <= j < before.parameters.len() ==>
            param_texts_applied(#[trigger] before.parameters@[j], after.parameters@[j], loc, cat, parent + "_"@ + before.name@, default),
{
    let path = parent + "_"@ + before.name@;
    assert forall|j: int| 0 <= j < before.parameters.len() implies
        param_texts_applied(#[trigger] before.parameters@[j], after.parameters@[j], loc, cat, path, default) by {
        let p = before.parameters@[j];
        let q = after.parameters@[j];
        assert(param_localized(p, q, loc, cat, path, default));
        let n = name_update(default, localized(cat, path, Some("prm_"@ + p.name@), true), p.name@, p.name_localizations@, loc);
        assert(q.name@ == n.0);
        assert forall|c: int| 0 <= c < p.choices.len() implies
            name_applied(cat.spec_lookup("cho_"@ + q.name@, Some((#[trigger] p.choices@[c]).name@)), default, q.choices@[c].name@, q.choices@[c].localizations@, loc) by {
            assert(choice_localized(p.choices@[c], q.choices@[c], loc, cat, "cho_"@ + n.0, default));
        }
    }
}

} // verus!
