use vstd::prelude::*;
use vstd::string::*;
use crate::commands::Cmd;
use crate::commands::Parameter;
use crate::commands::Choice;
use crate::error::Error;
use crate::error::Res;
use crate::error::R;
use crate::framework::Framework;
use crate::lifecycle::LifecycleFramework;
use crate::lifecycle::LifecyclePlugin;
use crate::lifecycle::MainHook;
use crate::locale::Localizations;
use crate::plugins::Plugin;
use crate::plugins::PluginLoader;

verus! {

/// The gateway intents of the bot: which events Discord sends it.
#[derive(Clone, Copy, PartialEq, Eq, Structural)]
pub struct GatewayIntents {
    pub bits: u64,
}

impl GatewayIntents {
    /// No intents.
    pub fn empty() -> (r: GatewayIntents)
        ensures r.bits == 0,
    {
        GatewayIntents { bits: 0 }
    }

    /// The events of guilds.
    pub fn guilds() -> (r: GatewayIntents)
        ensures r.bits == 1,
    {
        GatewayIntents { bits: 1 }
    }

    /// The events of guild members.
    pub fn guild_members() -> (r: GatewayIntents)
        ensures r.bits == 2,
    {
        GatewayIntents { bits: 2 }
    }

    /// The events of messages in guilds.
    pub fn guild_messages() -> (r: GatewayIntents)
        ensures r.bits == 512,
    {
        GatewayIntents { bits: 512 }
    }

    /// Adds the intents of `other`.
    pub fn insert(&mut self, other: GatewayIntents)
        ensures final(self).bits == old(self).bits | other.bits,
    {
        self.bits = self.bits | other.bits;
    }

    /// Whether every intent of `other` is among these.
    pub fn contains(&self, other: GatewayIntents) -> (r: bool)
        ensures r == (self.bits & other.bits == other.bits),
    {
        self.bits & other.bits == other.bits
    }
}

/// The handlers of gateway events that plugins register.
#[derive(Clone, Copy, PartialEq, Eq, Structural)]
pub enum EventHandler {
    /// Keeps the stored guilds, users and members in step with Discord.
    DiscordSync,
    /// Announces members joining and leaving.
    MemberNotices,
}

/// Registration of bot commands, event handlers and intents on a framework.
pub trait PoiseFramework {
    fn add_command(&mut self, cmd: Cmd) -> Res<&mut Framework>;

    fn add_commands(&mut self, cmds: &mut Vec<Cmd>) -> Res<&mut Framework>;

    fn add_event_handler(&mut self, eh: EventHandler) -> Res<&mut Framework>;

    fn add_intents(&mut self, intents: GatewayIntents) -> Res<&mut Framework>;
}

impl PoiseFramework for Framework {
    /// Adds `cmd` after the registered commands; fails when the poise plugin is not
    /// initialized.
    fn add_command(&mut self, cmd: Cmd) -> (r: Res<&mut Framework>)
        ensures
            r matches Ok(fw) ==> *final(self) == *final(fw),
            r matches Ok(fw) ==> fw.state@.dom() == old(self).state@.dom(),
            r is Err ==> final(self).state@.dom() == old(self).state@.dom(),
            r is Err ==> r == Err::<&mut Framework, Error>(Error::NotPresent),
    {
        self.state.borrow_mut::<Vec<Cmd>>()?.push(cmd);
        Ok(self)
    }

    /// Moves the commands of `cmds` after the registered commands, leaving `cmds` empty.
    fn add_commands(&mut self, cmds: &mut Vec<Cmd>) -> (r: Res<&mut Framework>)
        ensures
            r matches Ok(fw) ==> *final(self) == *final(fw),
            r matches Ok(fw) ==> fw.state@.dom() == old(self).state@.dom() && final(cmds)@.len() == 0,
            r is Err ==> r == Err::<&mut Framework, Error>(Error::NotPresent) && final(cmds)@ == old(cmds)@,
    {
        self.state.borrow_mut::<Vec<Cmd>>()?.append(cmds);
        Ok(self)
    }

    /// Adds `eh` after the registered event handlers.
    fn add_event_handler(&mut self, eh: EventHandler) -> (r: Res<&mut Framework>)
        ensures
            r matches Ok(fw) ==> *final(self) == *final(fw),
            r matches Ok(fw) ==> fw.state@.dom() == old(self).state@.dom(),
            r is Err ==> final(self).state@.dom() == old(self).state@.dom(),
            r is Err ==> r == Err::<&mut Framework, Error>(Error::NotPresent),
    {
        self.state.borrow_mut::<Vec<EventHandler>>()?.push(eh);
        Ok(self)
    }

    /// Adds `intents` to the bot's intents.
    fn add_intents(&mut self, intents: GatewayIntents) -> (r: Res<&mut Framework>)
        ensures
            r matches Ok(fw) ==> *final(self) == *final(fw),
            r matches Ok(fw) ==> fw.state@.dom() == old(self).state@.dom(),
            r is Err ==> final(self).state@.dom() == old(self).state@.dom(),
            r is Err ==> r == Err::<&mut Framework, Error>(Error::NotPresent),
    {
        self.state.borrow_mut::<GatewayIntents>()?.insert(intents);
        Ok(self)
    }
}

/// The token the bot logs in with.
pub struct PoiseToken {
    pub token: String,
}

/// The plugin that runs the Discord bot.
pub struct PoisePlugin {
    token: String,
    register_commands: bool,
}

impl PoisePlugin {
    pub closed spec fn spec_token(&self) -> Seq<char> {
        self.token@
    }

    pub closed spec fn spec_register_commands(&self) -> bool {
        self.register_commands
    }

    /// The plugin that logs in with `token`; with `register_commands` it offers the command
    /// that registers the bot's commands.
    pub fn new(token: String, register_commands: bool) -> (r: PoisePlugin)
        ensures r.spec_token() == token@, r.spec_register_commands() == register_commands,
    {
        PoisePlugin { token, register_commands }
    }
}

impl Default for PoisePlugin {
    /// A plugin with no token, for when an earlier `init_plugin` set up the real one.
    fn default() -> (r: Self)
        ensures r.spec_token().len() == 0, !r.spec_register_commands(),
    {
        PoisePlugin { token: String::new(), register_commands: false }
    }
}

/// A command with `name`, known by it in the code too, and nothing else.
pub fn bare_command(name: &str) -> (r: Cmd)
    ensures
        r.identifying_name@ == name@,
        r.name@ == name@,
        r.description is None,
        !r.subcommand_required,
        r.parameters@.len() == 0,
        r.subcommands@.len() == 0,
{
    Cmd {
        identifying_name: String::from_str(name),
        name: String::from_str(name),
        description: None,
        subcommand_required: false,
        name_localizations: Localizations::new(),
        description_localizations: Localizations::new(),
        parameters: Vec::new(),
        subcommands: Vec::new(),
    }
}

/// A parameter with `name` and nothing else.
pub fn bare_parameter(name: &str) -> (r: Parameter)
    ensures r.name@ == name@, r.description is None, r.choices@.len() == 0,
{
    Parameter {
        name: String::from_str(name),
        description: None,
        name_localizations: Localizations::new(),
        description_localizations: Localizations::new(),
        choices: Vec::new(),
    }
}

/// The command that registers or unregisters the bot's commands.
pub fn register() -> (r: Cmd)
    ensures r.name@ == "register"@, r.subcommands@.len() == 0,
{
    bare_command("register")
}

impl Plugin for PoisePlugin {
    /// Requires the lifecycle plugin, stores the token and empty commands, event handlers and
    /// intents, and registers the bot as a main hook; offers the `register` command, with the
    /// intent of guild messages, when asked to.
    fn init(self, fw: &mut Framework) -> (r: R)
        ensures r is Ok ==> final(fw).state@.len() > 0,
    {
        fw.require_plugin::<LifecyclePlugin>()?;
        fw.state.put(PoiseToken { token: self.token });
        fw.state.put(Vec::<Cmd>::new());
        fw.state.put(Vec::<EventHandler>::new());
        fw.state.put(GatewayIntents::empty());
        fw.main_hook(MainHook::RunPoise)?;
        if self.register_commands {
            fw.add_intents(GatewayIntents::guild_messages())?;
            fw.add_command(register())?;
        }
        Ok(())
    }
}

} // verus!
