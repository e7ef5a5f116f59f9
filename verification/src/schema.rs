use vstd::prelude::*;

verus! {

/// The table of linked Steam accounts and its columns.
#[allow(non_camel_case_types)]
#[derive(Clone, Copy, PartialEq, Eq, Structural)]
pub enum steam_accounts {
    Table,
    id,
    discord_id,
}

/// The table of Steam apps and its columns.
#[allow(non_camel_case_types)]
#[derive(Clone, Copy, PartialEq, Eq, Structural)]
pub enum steam_apps {
    Table,
    id,
    name,
}

/// The table of play time per app and account, and its columns.
#[allow(non_camel_case_types)]
#[derive(Clone, Copy, PartialEq, Eq, Structural)]
pub enum steam_playdata {
    Table,
    id,
    app_id,
    acc_id,
    mins,
}

/// The table of play time per day, and its columns.
#[allow(non_camel_case_types)]
#[derive(Clone, Copy, PartialEq, Eq, Structural)]
pub enum steam_playhist {
    Table,
    play_id,
    utc_day,
    mins,
}

/// The table of Discord guilds and its columns.
#[allow(non_camel_case_types)]
#[derive(Clone, Copy, PartialEq, Eq, Structural)]
pub enum discord_guilds {
    Table,
    id,
    name,
    icon,
}

/// The table of Discord guild members and its columns.
#[allow(non_camel_case_types)]
#[derive(Clone, Copy, PartialEq, Eq, Structural)]
pub enum discord_members {
    Table,
    guild_id,
    user_id,
    nickname,
    avatar,
}

/// The table of Discord users and its columns.
#[allow(non_camel_case_types)]
#[derive(Clone, Copy, PartialEq, Eq, Structural)]
pub enum discord_users {
    Table,
    id,
    username,
    nickname,
    avatar,
}

/// The table of guilds the bot serves, and its column.
#[allow(non_camel_case_types)]
#[derive(Clone, Copy, PartialEq, Eq, Structural)]
pub enum discord_whitelist {
    Table,
    id,
}

impl steam_accounts {
    pub open spec fn spec_iden(self) -> Seq<char> {
        match self {
            steam_accounts::Table => "steam_accounts"@,
            steam_accounts::id => "id"@,
            steam_accounts::discord_id => "discord_id"@,
        }
    }

    /// The SQL name: the table's name for `Table`, the column's name otherwise.
    pub fn iden(self) -> (r: &'static str)
        ensures r@ == self.spec_iden(),
    {
        match self {
            steam_accounts::Table => "steam_accounts",
            steam_accounts::id => "id",
            steam_accounts::discord_id => "discord_id",
        }
    }
}

impl steam_apps {
    pub open spec fn spec_iden(self) -> Seq<char> {
        match self {
            steam_apps::Table => "steam_apps"@,
            steam_apps::id => "id"@,
            steam_apps::name => "name"@,
        }
    }

    /// The SQL name: the table's name for `Table`, the column's name otherwise.
    pub fn iden(self) -> (r: &'static str)
        ensures r@ == self.spec_iden(),
    {
        match self {
            steam_apps::Table => "steam_apps",
            steam_apps::id => "id",
            steam_apps::name => "name",
        }
    }
}

impl steam_playdata {
    pub open spec fn spec_iden(self) -> Seq<char> {
        match self {
            steam_playdata::Table => "steam_playdata"@,
            steam_playdata::id => "id"@,
            steam_playdata::app_id => "app_id"@,
            steam_playdata::acc_id => "acc_id"@,
            steam_playdata::mins => "mins"@,
        }
    }

    /// The SQL name: the table's name for `Table`, the column's name otherwise.
    pub fn iden(self) -> (r: &'static str)
        ensures r@ == self.spec_iden(),
    {
        match self {
            steam_playdata::Table => "steam_playdata",
            steam_playdata::id => "id",
            steam_playdata::app_id => "app_id",
            steam_playdata::acc_id => "acc_id",
            steam_playdata::mins => "mins",
        }
    }
}

impl steam_playhist {
    pub open spec fn spec_iden(self) -> Seq<char> {
        match self {
            steam_playhist::Table => "steam_playhist"@,
            steam_playhist::play_id => "play_id"@,
            steam_playhist::utc_day => "utc_day"@,
            steam_playhist::mins => "mins"@,
        }
    }

    /// The SQL name: the table's name for `Table`, the column's name otherwise.
    pub fn iden(self) -> (r: &'static str)
        ensures r@ == self.spec_iden(),
    {
        match self {
            steam_playhist::Table => "steam_playhist",
            steam_playhist::play_id => "play_id",
            steam_playhist::utc_day => "utc_day",
            steam_playhist::mins => "mins",
        }
    }
}

impl discord_guilds {
    pub open spec fn spec_iden(self) -> Seq<char> {
        match self {
            discord_guilds::Table => "discord_guilds"@,
            discord_guilds::id => "id"@,
            discord_guilds::name => "name"@,
            discord_guilds::icon => "icon"@,
        }
    }

    /// The SQL name: the table's name for `Table`, the column's name otherwise.
    pub fn iden(self) -> (r: &'static str)
        ensures r@ == self.spec_iden(),
    {
        match self {
            discord_guilds::Table => "discord_guilds",
            discord_guilds::id => "id",
            discord_guilds::name => "name",
            discord_guilds::icon => "icon",
        }
    }
}

impl discord_members {
    pub open spec fn spec_iden(self) -> Seq<char> {
        match self {
            discord_members::Table => "discord_members"@,
            discord_members::guild_id => "guild_id"@,
            discord_members::user_id => "user_id"@,
            discord_members::nickname => "nickname"@,
            discord_members::avatar => "avatar"@,
        }
    }

    /// The SQL name: the table's name for `Table`, the column's name otherwise.
    pub fn iden(self) -> (r: &'static str)
        ensures r@ == self.spec_iden(),
    {
        match self {
            discord_members::Table => "discord_members",
            discord_members::guild_id => "guild_id",
            discord_members::user_id => "user_id",
            discord_members::nickname => "nickname",
            discord_members::avatar => "avatar",
        }
    }
}

impl discord_users {
    pub open spec fn spec_iden(self) -> Seq<char> {
        match self {
            discord_users::Table => "discord_users"@,
            discord_users::id => "id"@,
            discord_users::username => "username"@,
            discord_users::nickname => "nickname"@,
            discord_users::avatar => "avatar"@,
        }
    }

    /// The SQL name: the table's name for `Table`, the column's name otherwise.
    pub fn iden(self) -> (r: &'static str)
        ensures r@ == self.spec_iden(),
    {
        match self {
            discord_users::Table => "discord_users",
            discord_users::id => "id",
            discord_users::username => "username",
            discord_users::nickname => "nickname",
            discord_users::avatar => "avatar",
        }
    }
}

impl discord_whitelist {
    pub open spec fn spec_iden(self) -> Seq<char> {
        match self {
            discord_whitelist::Table => "discord_whitelist"@,
            discord_whitelist::id => "id"@,
        }
    }

    /// The SQL name: the table's name for `Table`, the column's name otherwise.
    pub fn iden(self) -> (r: &'static str)
        ensures r@ == self.spec_iden(),
    {
        match self {
            discord_whitelist::Table => "discord_whitelist",
            discord_whitelist::id => "id",
        }
    }
}

} // verus!
