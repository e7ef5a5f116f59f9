use nbf::commands::apply_cmd_loc;
use nbf::commands::is_all_lowercase;
use nbf::commands::localize_commands;
use nbf::commands::supported_locale;
use nbf::commands::try_cmd_loc;
use nbf::commands::Choice;
use nbf::discord::discord_action;
use nbf::discord::guild_update_steps;
use nbf::discord::human_members;
use nbf::discord::member_rows;
use nbf::discord::member_user_rows;
use nbf::discord::DiscordAction;
use nbf::discord::Event;
use nbf::discord::GuildStep;
use nbf::discord::Member;
use nbf::discord::User;
use nbf::bundles::build_catalogs;
use nbf::fluent_plugin::add_sources;
use nbf::fluent_plugin::ends_with_ftl;
use nbf::fluent_plugin::strip_ftl;
use nbf::fluent_plugin::FluentSources;
use nbf::fmt::i64_to_decimal;
use nbf::fmt::str_eq;
use nbf::fmt::starts_with;
use nbf::fmt::u64_to_decimal;
use nbf::lifecycle::first_failure;
use nbf::lifecycle::run_step;
use nbf::lifecycle::Hook;
use nbf::lifecycle::LifecycleHooks;
use nbf::lifecycle::MainHook;
use nbf::lifecycle::RunStep;
use nbf::locale::Catalog;
use nbf::locale::Localizations;
use nbf::notices::display_name;
use nbf::notices::get_avatar;
use nbf::notices::member_notice;
use nbf::numbers::parse_i32;
use nbf::numbers::parse_i64;
use nbf::pages::is_own_button;
use nbf::pages::missing_button_ids;
use nbf::pages::missing_step;
use nbf::pages::page_file_name;
use nbf::pages::pagination_buttons;
use nbf::pages::remove_attachments;
use nbf::pages::top_apps_step;
use nbf::pages::AttachmentsField;
use nbf::pages::ButtonFace;
use nbf::pages::EditMessage;
use nbf::pages::LOADING_EMOJI_ID;
use nbf::poise::bare_command;
use nbf::poise::bare_parameter;
use nbf::poise::GatewayIntents;
use nbf::steam_api::OwnedGame;
use nbf::steam_api::SteamAPI;
use nbf::steam_cmd::app_id_from_match;
use nbf::steam_cmd::app_id_from_text;
use nbf::steam_cmd::asset_cache_path;
use nbf::steam_cmd::asset_url;
use nbf::steam_cmd::missing_page;
use nbf::steam_cmd::missing_settings;
use nbf::steam_cmd::top_apps_args;
use nbf::steam_cmd::top_guilds_message;
use nbf::steam_cmd::TopGuildsRow;
use nbf::steam_data::app_rows;
use nbf::steam_data::chunk_bounds;
use nbf::steam_data::flatten_games;
use nbf::steam_data::pair_with_account;
use nbf::steam_data::play_data;
use nbf::steam_data::play_hist_rows;
use nbf::steam_data::unique_games;
use nbf::steam_data::utc_day;
use nbf::query::page_window;
use nbf::query::top_query_plan;
use nbf::query::Aggregate;
use nbf::query::Column;
use nbf::query::Cond;
use nbf::query::Source;
use nbf::query::Subject;
use nbf::query::TopQueryArgs;
use nbf::query::Bound;

#[test]
fn decimal_notation() {
    assert_eq!(u64_to_decimal(0), "0");
    assert_eq!(u64_to_decimal(1234567890), "1234567890");
    assert_eq!(u64_to_decimal(u64::MAX), u64::MAX.to_string());
    assert_eq!(i64_to_decimal(-42), "-42");
    assert_eq!(i64_to_decimal(i64::MIN), i64::MIN.to_string());
}

#[test]
fn text_comparisons() {
    assert!(str_eq("pg_prev", "pg_prev"));
    assert!(!str_eq("pg_prev", "pg_next"));
    assert!(starts_with("123_next", "123"));
    assert!(!starts_with("12", "123"));
}

#[test]
fn decimal_reads_back_as_i32() {
    for n in [0i32, 7, 730, i32::MAX] {
        assert_eq!(parse_i32(&n.to_string()), Some(n));
    }
    assert_eq!(parse_i32("-2147483648"), Some(i32::MIN));
    assert_eq!(parse_i32("2147483648"), None);
    assert_eq!(parse_i32("+12"), Some(12));
    assert_eq!(parse_i32("-"), None);
    assert_eq!(parse_i32(""), None);
    assert_eq!(parse_i32("1a"), None);
}

#[test]
fn signed_decimal_reads_back_as_i64() {
    for n in [0i64, -1, 76561198000000000, i64::MIN, i64::MAX] {
        assert_eq!(parse_i64(&i64_to_decimal(n)), Some(n));
    }
    assert_eq!(parse_i64("9223372036854775808"), None);
    assert_eq!(parse_i64("-9223372036854775809"), None);
    assert_eq!(parse_i64("76561198 000000000"), None);
    assert_eq!(parse_i64(""), None);
}

#[test]
fn app_id_from_user_text() {
    assert_eq!(app_id_from_text("https://store.steampowered.com/app/730/CS"), Some(730));
    assert_eq!(app_id_from_text("no digits"), None);
    assert_eq!(app_id_from_text("99999999999"), None);
    assert_eq!(app_id_from_match(Some("440".to_string())), Some(440));
}

#[test]
fn buttons_of_first_and_last_page() {
    let b = pagination_buttons(0, 3, false, "");
    assert_eq!(b.len(), 3);
    assert_eq!(b[0].custom_id, "pg_prev");
    assert!(b[0].disabled);
    assert!(matches!(&b[1].face, ButtonFace::Label(l) if l == "1/3"));
    assert!(!b[2].disabled);
    let b = pagination_buttons(2, 3, false, "");
    assert!(!b[0].disabled);
    assert!(b[2].disabled);
    let b = pagination_buttons(1, 3, true, "pg_next");
    assert!(b[0].disabled && b[2].disabled);
    assert!(matches!(&b[0].face, ButtonFace::Label(l) if l == "<"));
    assert!(matches!(b[2].face, ButtonFace::Emoji { id, animated: true } if id == LOADING_EMOJI_ID));
}

#[test]
fn paging_steps() {
    assert_eq!(top_apps_step(3, "pg_prev"), 2);
    assert_eq!(top_apps_step(3, "pg_next"), 4);
    assert_eq!(top_apps_step(3, "other"), 3);
    let (prev, next) = missing_button_ids(77);
    assert_eq!(prev, "77_prev");
    assert_eq!(next, "77_next");
    assert_eq!(missing_step(99, 100, &next, &prev, &next), Some(0));
    assert_eq!(missing_step(0, 100, &prev, &prev, &next), Some(99));
    assert_eq!(missing_step(5, 100, &prev, &prev, &next), Some(4));
    assert_eq!(missing_step(5, 100, "x", &prev, &next), None);
    assert!(is_own_button("77_next", 77));
    assert!(!is_own_button("78_next", 77));
    assert_eq!(page_file_name(4), "page_4.png");
}

#[test]
fn attachments_are_dropped() {
    let mut b = EditMessage { attachments: AttachmentsField::Array(vec![1, 2]) };
    remove_attachments(&mut b);
    assert!(matches!(b.attachments, AttachmentsField::Array(ref v) if v.is_empty()));
}

#[test]
fn page_windows() {
    let w = page_window(10, 0);
    assert_eq!((w.limit, w.offset), (11, None));
    let w = page_window(10, 3);
    assert_eq!((w.limit, w.offset), (12, Some(29)));
}

#[test]
fn top_apps_of_a_user() {
    let q = top_query_plan(TopQueryArgs::TopApps { guild_id: 5, global: false, user_id: Some(9) });
    assert!(q.aggregate == Aggregate::SumMins && q.subject == Subject::Apps);
    assert!(q.from == vec![Source::PlayData, Source::Apps, Source::Accounts]);
    assert!(q.conds == vec![
        Cond::Equals(Column::AppsId, Column::PlayDataAppId),
        Cond::Equals(Column::AccountsId, Column::PlayDataAccId),
        Cond::Is(Column::AccountsDiscordId, Bound::BigInt(9)),
    ]);
    let q = top_query_plan(TopQueryArgs::TopUsers { guild_id: 5, global: true, app_id: Some(730), appcount: true });
    assert!(q.aggregate == Aggregate::CountApps);
    assert!(q.from == vec![Source::PlayData, Source::Users, Source::Accounts]);
    assert!(q.conds == vec![
        Cond::Equals(Column::AccountsId, Column::PlayDataAccId),
        Cond::Is(Column::PlayDataAppId, Bound::Int(730)),
        Cond::Equals(Column::AccountsDiscordId, Column::UsersId),
    ]);
}

#[test]
fn top_guilds_text() {
    let rows = vec![
        TopGuildsRow { id: 1, name: "A".to_string(), mins_sum: 125, row_num: 1 },
        TopGuildsRow { id: 2, name: "B".to_string(), mins_sum: 59, row_num: 2 },
    ];
    assert_eq!(
        top_guilds_message(&rows),
        "The bot is currenly being rewritten. Fancy UI will come back shortly\n```#1 | 2 | A\n#2 | 0 | B\n```"
    );
}

#[test]
fn missing_members_page() {
    let s = missing_settings(Some(true), None);
    assert!(s.escape && s.page_size == 20 && s.chunk == 5);
    let s = missing_settings(None, Some(true));
    assert!(!s.escape && s.page_size == 80 && s.chunk == 100);
    assert_eq!(missing_page(&vec![1, 2, 3], false, 2), "<@1>\n<@2>\n========\n<@3>\n========\n");
    assert_eq!(missing_page(&vec![4], true, 5), "\\<@4>\n========\n");
    assert_eq!(missing_page(&vec![], true, 5), "");
}

#[test]
fn top_apps_arguments_and_assets() {
    assert!(top_apps_args(5, None, Some(9)) == TopQueryArgs::TopApps { guild_id: 5, global: false, user_id: Some(9) });
    assert_eq!(asset_cache_path(730, "library_600x900"), ".cache/steam/library_600x900/730.jpg");
    assert_eq!(asset_url(730, "library_600x900"), "https://cdn.cloudflare.steamstatic.com/steam/apps/730/library_600x900.jpg");
}

fn game(appid: i32, name: &str, mins: i32) -> OwnedGame {
    OwnedGame { appid, name: name.to_string(), playtime_forever: mins }
}

#[test]
fn steam_refresh_rows() {
    let accounts = vec![
        (1i64, vec![game(10, "A", 5), game(20, "B", 6)]),
        (2i64, vec![game(20, "B", 7), game(30, "C", 8)]),
    ];
    let flat = flatten_games(&accounts);
    assert_eq!(play_data(&flat), vec![(10, 1, 5), (20, 1, 6), (20, 2, 7), (30, 2, 8)]);
    let apps = unique_games(&flat);
    assert_eq!(app_rows(&apps), vec![(10, "A".to_string()), (20, "B".to_string()), (30, "C".to_string())]);
    let single = pair_with_account(3, &accounts[1].1);
    assert_eq!(play_data(&single), vec![(20, 3, 7), (30, 3, 8)]);
    assert_eq!(play_hist_rows(&vec![(100, 60), (101, 0)], 19000), vec![(100, 19000, 60), (101, 19000, 0)]);
    assert_eq!(utc_day(86400 * 19000 + 5), 19000);
    assert_eq!(utc_day(-1), 0);
}

#[test]
fn chunks_of_rows() {
    assert_eq!(chunk_bounds(5, 2), vec![(0, 2), (2, 4), (4, 5)]);
    assert_eq!(chunk_bounds(4, 2), vec![(0, 2), (2, 4)]);
    assert_eq!(chunk_bounds(0, 1000), vec![]);
}

#[test]
fn steam_api_addresses() {
    let api = SteamAPI::new("KEY");
    assert_eq!(
        api.owned_games_url(76561198000000000),
        "https://api.steampowered.com/IPlayerService/GetOwnedGames/v0001/?key=KEY&format=json&steamid=76561198000000000&include_appinfo=true&include_played_free_games=true"
    );
    assert_eq!(
        api.friend_list_url(5),
        "https://api.steampowered.com/ISteamUser/GetFriendList/v0001/?key=KEY&format=json&steamid=5&relationship=friend"
    );
}

fn user(id: u64, name: &str, discriminator: u16, bot: bool) -> User {
    User { id, name: name.to_string(), discriminator, avatar: Some("av".to_string()), bot }
}

fn member(guild_id: u64, u: User) -> Member {
    Member { guild_id, user: u, nick: Some("nick".to_string()), avatar: None }
}

#[test]
fn discord_events() {
    assert!(discord_action(&Event::Ready) == DiscordAction::FullUpdate);
    assert!(discord_action(&Event::GuildCreate { guild_id: 4 }) == DiscordAction::UpdateGuild(4));
    assert!(discord_action(&Event::GuildDelete { guild_id: 4 }) == DiscordAction::UpdateGuild(4));
    assert!(discord_action(&Event::GuildUpdate { guild_id: 4 }) == DiscordAction::UpdateGuildInformation(4));
    assert!(discord_action(&Event::GuildMemberAddition { new_member: member(4, user(8, "a", 0, true)) }) == DiscordAction::Nothing);
    assert!(discord_action(&Event::GuildMemberAddition { new_member: member(4, user(8, "a", 0, false)) }) == DiscordAction::UpdateUserAndMember);
    assert!(discord_action(&Event::GuildMemberUpdate { new: member(4, user(8, "a", 0, false)) }) == DiscordAction::UpdateMember);
    assert!(discord_action(&Event::GuildMemberRemoval { guild_id: 4, user: user(8, "a", 0, false) }) == DiscordAction::RemoveMember { guild_id: 4, user_id: 8 });
    assert!(discord_action(&Event::Other) == DiscordAction::Nothing);
    assert!(guild_update_steps(false) == vec![GuildStep::RemoveGuildInformation]);
    assert!(guild_update_steps(true) == vec![GuildStep::UpdateUsers, GuildStep::RemoveMembers, GuildStep::UpdateMembers]);
}

#[test]
fn discord_rows_skip_bots() {
    let ms = human_members(vec![member(1, user(1, "a", 0, false)), member(1, user(2, "bot", 0, true)), member(1, user(3, "c", 0, false))]);
    assert_eq!(ms.len(), 2);
    let users = member_user_rows(&ms);
    assert_eq!(users[1].id, 3);
    assert_eq!(users[1].username, "c");
    assert_eq!(users[1].nickname, None);
    assert_eq!(users[1].avatar, Some("av".to_string()));
    let rows = member_rows(&ms);
    assert_eq!((rows[0].guild_id, rows[0].user_id), (1, 1));
    assert_eq!(rows[0].nickname, Some("nick".to_string()));
}

#[test]
fn member_notices() {
    assert_eq!(display_name(&user(1, "ann", 7, false)), "ann#0007");
    assert_eq!(display_name(&user(1, "ann", 0, false)), "ann");
    assert_eq!(get_avatar(&user(42, "ann", 0, false)), "https://cdn.discordapp.com/avatars/42/av.webp?size=1024");
    let animated = User { id: 7, name: "b".to_string(), discriminator: 0, avatar: Some("a_12".to_string()), bot: false };
    assert_eq!(get_avatar(&animated), "https://cdn.discordapp.com/avatars/7/a_12.gif?size=1024");
    let plain = User { id: 7, name: "b".to_string(), discriminator: 1237, avatar: None, bot: false };
    assert_eq!(get_avatar(&plain), "https://cdn.discordapp.com/embed/avatars/2.png");
    let e = member_notice(&Event::GuildMemberAddition { new_member: member(1, user(42, "ann", 1234, false)) }).unwrap();
    assert_eq!(e.author_name, "ann#1234");
    assert_eq!(e.author_url, "https://discord.com/users/42");
    assert_eq!(e.author_icon_url, "https://cdn.discordapp.com/avatars/42/av.webp?size=1024");
    assert_eq!(e.description, "Welcome <@42> to the server!");
    assert_eq!(e.colour, (139, 195, 74));
    let e = member_notice(&Event::GuildMemberRemoval { guild_id: 1, user: plain }).unwrap();
    assert_eq!(e.description, "<@7> has left the server!");
    assert_eq!(e.author_icon_url, "https://cdn.discordapp.com/embed/avatars/2.png");
    assert_eq!(e.colour, (244, 67, 54));
    assert!(member_notice(&Event::Ready).is_none());
}

#[test]
fn lifecycle_order() {
    let mut hooks = LifecycleHooks::default();
    hooks.pre.push(Hook::BuildFluentBundles);
    hooks.pre.push(Hook::LocalizeCommands);
    hooks.main.push(MainHook::RunPoise);
    let steps: Vec<RunStep> = (0..4).map(|k| run_step(&hooks, k)).collect();
    assert!(steps == vec![RunStep::Pre(0), RunStep::Pre(1), RunStep::Main, RunStep::Done]);
    assert_eq!(first_failure(&vec![true, false, false]), Some(1));
    assert_eq!(first_failure(&vec![true, true]), None);
}

#[test]
fn gateway_intents() {
    let mut i = GatewayIntents::empty();
    i.insert(GatewayIntents::guilds());
    i.insert(GatewayIntents::guild_members());
    i.insert(GatewayIntents::guilds());
    assert_eq!(i.bits, 3);
    assert!(i.contains(GatewayIntents::guild_members()));
    assert!(!i.contains(GatewayIntents::guild_messages()));
}

fn catalog() -> Catalog {
    let mut c = Catalog::new();
    c.add("cmd_steam".to_string(), None, "dampf".to_string());
    c.add("cmd_steam".to_string(), Some("desc".to_string()), "Steam-Statistik".to_string());
    c.add("cmd_steam_top".to_string(), None, "Bestenliste".to_string());
    c.add("cmd_steam".to_string(), Some("prm_global".to_string()), "global".to_string());
    c.add("cmd_steam".to_string(), Some("prm_global_desc".to_string()), "Alle Server".to_string());
    c.add("cho_global".to_string(), Some("yes".to_string()), "ja".to_string());
    c
}

#[test]
fn catalog_and_localizations() {
    let c = catalog();
    assert_eq!(c.lookup("cmd_steam", None), Some("dampf".to_string()));
    assert_eq!(c.lookup("cmd_steam", Some("desc")), Some("Steam-Statistik".to_string()));
    assert_eq!(c.lookup("cmd_other", None), None);
    assert_eq!(try_cmd_loc(&c, "cmd_steam_top", None, true), None);
    assert_eq!(try_cmd_loc(&c, "cmd_steam_top", None, false), Some("Bestenliste".to_string()));
    assert!(is_all_lowercase("dampf"));
    assert!(!is_all_lowercase("top-apps"));
    let mut l = Localizations::new();
    l.insert("de".to_string(), "a".to_string());
    l.insert("fr".to_string(), "b".to_string());
    l.insert("de".to_string(), "c".to_string());
    assert_eq!(l.get("de"), Some(&"c".to_string()));
    assert_eq!(l.get("it"), None);
    assert!(supported_locale("de") && supported_locale("zh-TW") && !supported_locale("xx"));
}

#[test]
fn commands_are_localized() {
    let mut cmd = bare_command("steam");
    let mut prm = bare_parameter("global");
    prm.choices.push(Choice { name: "yes".to_string(), localizations: Localizations::new() });
    cmd.parameters.push(prm);
    cmd.subcommands.push(bare_command("top"));
    let c = catalog();
    apply_cmd_loc(&mut cmd, "de", &c, None, false);
    assert_eq!(cmd.name, "steam");
    assert_eq!(cmd.name_localizations.get("de"), Some(&"dampf".to_string()));
    assert_eq!(cmd.description_localizations.get("de"), Some(&"Steam-Statistik".to_string()));
    assert_eq!(cmd.parameters[0].name_localizations.get("de"), Some(&"global".to_string()));
    assert_eq!(cmd.parameters[0].description_localizations.get("de"), Some(&"Alle Server".to_string()));
    assert_eq!(cmd.parameters[0].choices[0].localizations.get("de"), Some(&"ja".to_string()));
    assert_eq!(cmd.subcommands[0].name_localizations.get("de"), None);

    let mut cmds = vec![bare_command("steam")];
    let bundles = vec![("xx".to_string(), catalog()), ("en-US".to_string(), catalog())];
    localize_commands(&mut cmds, &bundles);
    assert_eq!(cmds[0].name, "dampf");
    assert_eq!(cmds[0].description, Some("Steam-Statistik".to_string()));
    assert_eq!(cmds[0].name_localizations.get("en-US"), Some(&"dampf".to_string()));
    assert_eq!(cmds[0].name_localizations.get("xx"), None);
}

#[test]
fn fluent_sources_from_files() {
    assert!(ends_with_ftl("de.ftl"));
    assert!(!ends_with_ftl("de.txt"));
    assert_eq!(strip_ftl("de.ftl"), "de");
    assert_eq!(strip_ftl("a.ftl.ftl"), "a");
    let files = vec![
        ("de.ftl".to_string(), "x = 1".to_string()),
        ("readme.md".to_string(), "no".to_string()),
        ("en-US.ftl".to_string(), "y = 2".to_string()),
    ];
    let mut s = FluentSources { locales: vec![], texts: vec![] };
    assert!(add_sources(&mut s, &files).is_ok());
    assert_eq!(s.locales, vec!["de".to_string(), "en-US".to_string()]);
    assert_eq!(s.texts, vec![("de".to_string(), "x = 1".to_string()), ("en-US".to_string(), "y = 2".to_string())]);
    let bad = vec![("fr.ftl".to_string(), "!!! not a message".to_string())];
    let err = add_sources(&mut s, &bad).err().unwrap();
    assert!(err.message().starts_with("failed to parse ["));
    assert_eq!(s.locales, vec!["de".to_string(), "en-US".to_string(), "fr".to_string()]);
    assert_eq!(s.texts.len(), 2);
}

#[test]
fn catalogs_from_sources() {
    let s = FluentSources {
        locales: vec!["de".to_string(), "en-US".to_string()],
        texts: vec![
            ("de".to_string(), "cmd_steam = dampf\n    .desc = Steam-Statistik\n-term = t\n".to_string()),
            ("en-US".to_string(), "cmd_steam = steam\n".to_string()),
            ("de".to_string(), "cmd_other = anders\n".to_string()),
        ],
    };
    let cats = build_catalogs(&s).ok().unwrap();
    assert_eq!(cats.len(), 2);
    assert_eq!(cats[0].0, "de");
    assert_eq!(cats[0].1.lookup("cmd_steam", None), Some("dampf".to_string()));
    assert_eq!(cats[0].1.lookup("cmd_steam", Some("desc")), Some("Steam-Statistik".to_string()));
    assert_eq!(cats[0].1.lookup("cmd_other", None), Some("anders".to_string()));
    assert_eq!(cats[0].1.lookup("-term", None), None);
    assert_eq!(cats[1].1.lookup("cmd_steam", None), Some("steam".to_string()));
    assert_eq!(cats[1].1.lookup("cmd_other", None), None);
    let clash = FluentSources {
        locales: vec!["de".to_string()],
        texts: vec![("de".to_string(), "a = 1\n".to_string()), ("de".to_string(), "a = 2\n".to_string())],
    };
    let m = build_catalogs(&clash).err().unwrap().message();
    assert!(m.starts_with("failed to add resource to bundle: ["));
    assert!(m.contains("Overriding"));
    let invalid = FluentSources { locales: vec!["not a locale!".to_string()], texts: vec![] };
    let m = build_catalogs(&invalid).err().unwrap().message();
    assert!(!m.starts_with("failed to"));
}

#[test]
fn catalog_of_unparsable_source_fails() {
    let s = FluentSources {
        locales: vec!["de".to_string(), "en-US".to_string()],
        texts: vec![
            ("de".to_string(), "a = 1\n".to_string()),
            ("en-US".to_string(), "!!! not a message".to_string()),
        ],
    };
    assert!(build_catalogs(&s).err().unwrap().message().starts_with("failed to parse ["));
    let other = vec![("de.ftl".to_string(), "a = 1\n".to_string()), ("en-US.ftl".to_string(), "!!!".to_string())];
    let mut t = FluentSources { locales: vec![], texts: vec![] };
    assert!(add_sources(&mut t, &other).is_err());
}

#[test]
fn localize_message_and_attributes() {
    let mut fb = fluent::bundle::FluentBundle::new_concurrent(vec!["en-US".parse::<unic_langid::LanguageIdentifier>().unwrap()]);
    let text = "hello = Hi\n    .desc = Greeting\nbare =\n    .desc = Only attr\n";
    fb.add_resource(fluent::FluentResource::try_new(text.to_string()).ok().unwrap()).ok().unwrap();
    assert_eq!(nbf::bundles::localize(&fb, "hello", None), Some("Hi".to_string()));
    assert_eq!(nbf::bundles::localize(&fb, "hello", Some("desc")), Some("Greeting".to_string()));
    assert_eq!(nbf::bundles::localize(&fb, "hello", Some("x")), None);
    assert_eq!(nbf::bundles::localize(&fb, "bare", None), None);
    assert_eq!(nbf::bundles::localize(&fb, "bare", Some("desc")), Some("Only attr".to_string()));
    assert_eq!(nbf::bundles::localize(&fb, "nope", None), None);
}

#[test]
fn catalog_holds_each_listed_text() {
    let s = FluentSources {
        locales: vec!["de".to_string()],
        texts: vec![
            ("de".to_string(), "-brand = Dampf\nhello = Hallo { -brand }\n    .desc = Gruß\n".to_string()),
            ("en-US".to_string(), "other = x\n".to_string()),
        ],
    };
    let cats = build_catalogs(&s).ok().unwrap();
    let cat = &cats[0].1;
    assert_eq!(cat.lookup("hello", None), Some("Hallo Dampf".to_string()));
    assert_eq!(cat.lookup("hello", Some("desc")), Some("Gruß".to_string()));
    assert_eq!(cat.lookup("-brand", None), None);
    assert_eq!(cat.lookup("other", None), None);
}

#[test]
fn catalog_clash_counts_terms_and_messages() {
    let term_and_message = FluentSources {
        locales: vec!["de".to_string()],
        texts: vec![("de".to_string(), "-a = Begriff\n".to_string()), ("de".to_string(), "a = Nachricht\n".to_string())],
    };
    assert!(build_catalogs(&term_and_message).err().unwrap().message().starts_with("failed to add resource to bundle: ["));
    let other_locale = FluentSources {
        locales: vec!["de".to_string(), "fr".to_string()],
        texts: vec![("de".to_string(), "a = eins\n".to_string()), ("fr".to_string(), "a = un\n".to_string())],
    };
    let cats = build_catalogs(&other_locale).ok().unwrap();
    assert_eq!(cats[0].1.lookup("a", None), Some("eins".to_string()));
    assert_eq!(cats[1].1.lookup("a", None), Some("un".to_string()));
}
