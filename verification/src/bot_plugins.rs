use vstd::prelude::*;
use vstd::string::*;
use crate::commands::Cmd;
use crate::discord::User;
use crate::error::Error;
use crate::error::R;
use crate::fluent_plugin::FluentFramework;
use crate::fluent_plugin::FluentPlugin;
use crate::framework::Framework;
use crate::lifecycle::LifecycleFramework;
use crate::lifecycle::MainHook;
use crate::plugins::Plugin;
use crate::plugins::PluginLoader;
use crate::poise::bare_command;
use crate::poise::bare_parameter;
use crate::poise::EventHandler;
use crate::poise::GatewayIntents;
use crate::poise::PoiseFramework;
use crate::poise::PoisePlugin;
use crate::state::sets_one;
use crate::steam_api::SteamAPI;
use sqlx::postgres::PgConnectOptions;

verus! {

/// The plugin of the web server; it sets nothing up yet.
pub struct ActixPlugin;

impl Plugin for ActixPlugin {
    fn init(self, fw: &mut Framework) -> (r: R)
        ensures r is Ok, final(fw).state@ == old(fw).state@,
    {
        Ok(())
    }
}

/// The plugin of AniList; it sets nothing up yet.
pub struct AnilistPlugin;

impl Plugin for AnilistPlugin {
    fn init(self, fw: &mut Framework) -> (r: R)
        ensures r is Ok, final(fw).state@ == old(fw).state@,
    {
        Ok(())
    }
}

/// The plugin of the cache; it sets nothing up yet.
pub struct CachePlugin;

impl Plugin for CachePlugin {
    fn init(self, fw: &mut Framework) -> (r: R)
        ensures r is Ok, final(fw).state@ == old(fw).state@,
    {
        Ok(())
    }
}

/// The plugin of the scheduler; it sets nothing up yet.
pub struct SchedulerPlugin;

impl Default for SchedulerPlugin {
    fn default() -> (r: Self) {
        SchedulerPlugin
    }
}

impl Plugin for SchedulerPlugin {
    fn init(self, fw: &mut Framework) -> (r: R)
        ensures r is Ok, final(fw).state@ == old(fw).state@,
    {
        Ok(())
    }
}

/// The plugin of SVG pictures; it sets nothing up yet.
pub struct SvgUiPlugin;

impl Plugin for SvgUiPlugin {
    fn init(self, fw: &mut Framework) -> (r: R)
        ensures r is Ok, final(fw).state@ == old(fw).state@,
    {
        Ok(())
    }
}

/// The plugin of system monitoring; it sets nothing up yet.
pub struct SysMonPlugin;

impl Plugin for SysMonPlugin {
    fn init(self, fw: &mut Framework) -> (r: R)
        ensures r is Ok, final(fw).state@ == old(fw).state@,
    {
        Ok(())
    }
}

/// The plugin of VRChat; it sets nothing up yet.
pub struct VRCPlugin;

impl Plugin for VRCPlugin {
    fn init(self, fw: &mut Framework) -> (r: R)
        ensures r is Ok, final(fw).state@ == old(fw).state@,
    {
        Ok(())
    }
}

/// The plugin of the HTTP server.
pub struct HyperPlugin;

impl Plugin for HyperPlugin {
    /// Registers the server as a main hook; fails when the lifecycle plugin is not initialized.
    fn init(self, fw: &mut Framework) -> (r: R)
        ensures r is Err ==> r == Err::<(), Error>(Error::NotPresent),
    {
        fw.main_hook(MainHook::ServeHyper)?;
        Ok(())
    }
}

/// Where the database is.
pub struct DatabaseUrl {
    pub url: String,
}

/// Whether sqlx reads `url` as the options of a PostgreSQL connection. Whether it does
/// depends on the text alone: the environment and the password file only fill in defaults.
pub uninterp spec fn valid_db_url(url: Seq<char>) -> bool;

/// The `FromStr` of sqlx's `PgConnectOptions`, which `PoolOptions::connect_lazy` applies to
/// its address before it makes a pool: nothing, or the text of the error when `url` is no
/// valid address; which of the two, [`valid_db_url`] names. Nothing is stated of the error's
/// text.
#[verifier::external_body]
fn check_db_url(url: &str) -> (r: Result<(), String>)
    ensures r is Ok == valid_db_url(url@),
{
    match url.parse::<PgConnectOptions>() {
        Ok(_) => Ok(()),
        Err(e) => Err(e.to_string()),
    }
}

/// The plugin of the database.
pub struct SqlxPlugin {
    db_url: String,
}

impl SqlxPlugin {
    pub closed spec fn spec_db_url(&self) -> Seq<char> {
        self.db_url@
    }

    /// The plugin of the database at `db_url`.
    pub fn new(db_url: String) -> (r: SqlxPlugin)
        ensures r.spec_db_url() == db_url@,
    {
        SqlxPlugin { db_url }
    }
}

impl Default for SqlxPlugin {
    /// A plugin with no address, whose `init` fails: the database plugin is set up with
    /// [`SqlxPlugin::new`] before other plugins require it.
    fn default() -> (r: Self)
        ensures r.spec_db_url().len() == 0,
    {
        SqlxPlugin { db_url: String::new() }
    }
}

impl Plugin for SqlxPlugin {
    /// Stores where the database is, from which the pool is opened lazily; fails, storing
    /// nothing, when that is no valid address of a database.
    fn init(self, fw: &mut Framework) -> (r: R)
        ensures
            r is Ok == valid_db_url(self.spec_db_url()),
            r is Ok ==> sets_one(old(fw).state@, final(fw).state@),
            r is Err ==> final(fw).state@ == old(fw).state@ && r->Err_0 is Message,
    {
        if let Err(m) = check_db_url(self.db_url.as_str()) {
            return Err(Error::Message(m));
        }
        fw.state.put(DatabaseUrl { url: self.db_url });
        Ok(())
    }
}

/// The plugin that keeps the guilds, users and members of Discord in the database.
pub struct DiscordPlugin;

impl Default for DiscordPlugin {
    fn default() -> (r: Self) {
        DiscordPlugin
    }
}

impl Plugin for DiscordPlugin {
    /// Requires the poise and database plugins, asks for the intents of guilds and of guild
    /// members, and registers the handler that follows them.
    fn init(self, fw: &mut Framework) -> (r: R)
        ensures r is Ok ==> final(fw).state@.len() > 0,
    {
        fw.require_plugin::<PoisePlugin>()?;
        fw.require_plugin::<SqlxPlugin>()?;
        fw.add_intents(GatewayIntents::guilds())?;
        fw.add_intents(GatewayIntents::guild_members())?;
        fw.add_event_handler(EventHandler::DiscordSync)?;
        Ok(())
    }
}

/// The names of the subcommands of `c`, in order.
pub open spec fn sub_names(c: Cmd) -> Seq<Seq<char>> {
    c.subcommands@.map_values(|s: Cmd| s.name@)
}

/// The `steam` command: `top` (`apps`, `guilds`, `users`), `app`, `link` (`add`, `missing`),
/// `user` and `update`; the command itself and `top` only group subcommands.
pub fn steam_command() -> (r: Cmd)
    ensures
        r.name@ == "steam"@,
        r.subcommand_required,
        sub_names(r) == seq!["top"@, "app"@, "link"@, "user"@, "update"@],
        r.subcommands@[0].subcommand_required,
        sub_names(r.subcommands@[0]) == seq!["apps"@, "guilds"@, "users"@],
        sub_names(r.subcommands@[2]) == seq!["add"@, "missing"@],
{
    let mut apps = bare_command("apps");
    apps.parameters.push(bare_parameter("global"));
    apps.parameters.push(bare_parameter("user"));
    let mut guilds = bare_command("guilds");
    guilds.parameters.push(bare_parameter("app"));
    let users = bare_command("users");
    let mut top = bare_command("top");
    top.subcommand_required = true;
    top.subcommands.push(apps);
    top.subcommands.push(guilds);
    top.subcommands.push(users);
    let mut add = bare_command("add");
    add.parameters.push(bare_parameter("u"));
    add.parameters.push(bare_parameter("pid"));
    let mut missing = bare_command("missing");
    missing.parameters.push(bare_parameter("global"));
    missing.parameters.push(bare_parameter("escape"));
    missing.parameters.push(bare_parameter("extra"));
    let mut link = bare_command("link");
    link.subcommands.push(add);
    link.subcommands.push(missing);
    let mut steam = bare_command("steam");
    steam.subcommand_required = true;
    steam.subcommands.push(top);
    steam.subcommands.push(bare_command("app"));
    steam.subcommands.push(link);
    steam.subcommands.push(bare_command("user"));
    steam.subcommands.push(bare_command("update"));
    assert(sub_names(steam.subcommands@[0]) =~= seq!["apps"@, "guilds"@, "users"@]);
    assert(sub_names(steam.subcommands@[2]) =~= seq!["add"@, "missing"@]);
    assert(sub_names(steam) =~= seq!["top"@, "app"@, "link"@, "user"@, "update"@]);
    steam
}

/// The plugin of the Steam statistics.
pub struct SteamPlugin {
    pub api_key: String,
    /// The message sources shipped with the plugin: file name and text.
    pub locale_files: Vec<(String, String)>,
}

impl Plugin for SteamPlugin {
    /// Requires the database and Discord plugins, stores a Steam API client with the key,
    /// requires the fluent plugin and adds the plugin's message sources, requires the poise
    /// plugin and registers the `steam` command.
    fn init(self, fw: &mut Framework) -> R {
        fw.require_plugin::<SqlxPlugin>()?;
        fw.require_plugin::<DiscordPlugin>()?;
        fw.state.put(SteamAPI::new(self.api_key.as_str()));
        fw.require_plugin::<FluentPlugin>()?;
        fw.add_fluent_resources(&self.locale_files)?;
        fw.require_plugin::<PoisePlugin>()?;
        fw.add_command(steam_command())?;
        Ok(())
    }
}

} // verus!
