use vstd::prelude::*;
use crate::locale::opt_text;

verus! {

/// A Discord user.
pub struct User {
    pub id: u64,
    pub name: String,
    pub discriminator: u16,
    pub avatar: Option<String>,
    pub bot: bool,
}

/// A member of a Discord guild.
pub struct Member {
    pub guild_id: u64,
    pub user: User,
    pub nick: Option<String>,
    pub avatar: Option<String>,
}

/// The gateway events that the Discord plugin follows.
pub enum Event {
    /// The bot started or reconnected.
    Ready,
    /// The bot was added to a guild.
    GuildCreate { guild_id: u64 },
    /// A guild's information changed.
    GuildUpdate { guild_id: u64 },
    /// The bot was removed from a guild.
    GuildDelete { guild_id: u64 },
    /// A member joined a guild.
    GuildMemberAddition { new_member: Member },
    /// A member of a guild changed.
    GuildMemberUpdate { new: Member },
    /// A member left a guild.
    GuildMemberRemoval { guild_id: u64, user: User },
    /// Any other event.
    Other,
}

/// What the Discord plugin does on an event.
#[derive(Clone, Copy, PartialEq, Eq, Structural)]
pub enum DiscordAction {
    /// Update every guild of the whitelist.
    FullUpdate,
    /// Update the guild's information and its members, or drop its information.
    UpdateGuild(u64),
    /// Update the guild's information.
    UpdateGuildInformation(u64),
    /// Update the user of the event's member, then the member.
    UpdateUserAndMember,
    /// Update the event's member.
    UpdateMember,
    /// Drop the member `user_id` of the guild `guild_id`.
    RemoveMember { guild_id: u64, user_id: u64 },
    /// Nothing.
    Nothing,
}

/// What the Discord plugin does on `e`: members that are bots are left alone.
pub open spec fn discord_action_spec(e: Event) -> DiscordAction {
    match e {
        Event::Ready => DiscordAction::FullUpdate,
        Event::GuildCreate { guild_id } => DiscordAction::UpdateGuild(guild_id),
        Event::GuildUpdate { guild_id } => DiscordAction::UpdateGuildInformation(guild_id),
        Event::GuildDelete { guild_id } => DiscordAction::UpdateGuild(guild_id),
        Event::GuildMemberAddition { new_member } =>
            if new_member.user.bot { DiscordAction::Nothing } else { DiscordAction::UpdateUserAndMember },
        Event::GuildMemberUpdate { new } =>
            if new.user.bot { DiscordAction::Nothing } else { DiscordAction::UpdateMember },
        Event::GuildMemberRemoval { guild_id, user } =>
            DiscordAction::RemoveMember { guild_id, user_id: user.id },
        Event::Other => DiscordAction::Nothing,
    }
}

/// What the Discord plugin does on `e`.
pub fn discord_action(e: &Event) -> (r: DiscordAction)
    ensures r == discord_action_spec(*e),
{
    match e {
        Event::Ready => DiscordAction::FullUpdate,
        Event::GuildCreate { guild_id } => DiscordAction::UpdateGuild(*guild_id),
        Event::GuildUpdate { guild_id } => DiscordAction::UpdateGuildInformation(*guild_id),
        Event::GuildDelete { guild_id } => DiscordAction::UpdateGuild(*guild_id),
        Event::GuildMemberAddition { new_member } =>
            if new_member.user.bot { DiscordAction::Nothing } else { DiscordAction::UpdateUserAndMember },
        Event::GuildMemberUpdate { new } =>
            if new.user.bot { DiscordAction::Nothing } else { DiscordAction::UpdateMember },
        Event::GuildMemberRemoval { guild_id, user } =>
            DiscordAction::RemoveMember { guild_id: *guild_id, user_id: user.id },
        Event::Other => DiscordAction::Nothing,
    }
}

/// A step of the update of one guild.
#[derive(Clone, Copy, PartialEq, Eq, Structural)]
pub enum GuildStep {
    /// Drop the guild's information (its members go with it).
    RemoveGuildInformation,
    /// Store the users of the guild's human members.
    UpdateUsers,
    /// Drop the guild's members.
    RemoveMembers,
    /// Store the guild's human members.
    UpdateMembers,
}

/// The steps of the update of a guild after the update of its information succeeded or not.
pub open spec fn guild_update_steps_spec(info_updated: bool) -> Seq<GuildStep> {
    if info_updated {
        seq![GuildStep::UpdateUsers, GuildStep::RemoveMembers, GuildStep::UpdateMembers]
    } else {
        seq![GuildStep::RemoveGuildInformation]
    }
}

/// The steps of the update of a guild after the update of its information.
pub fn guild_update_steps(info_updated: bool) -> (r: Vec<GuildStep>)
    ensures r@ == guild_update_steps_spec(info_updated),
{
    if info_updated {
        let r = vec![GuildStep::UpdateUsers, GuildStep::RemoveMembers, GuildStep::UpdateMembers];
        assert(r@ =~= guild_update_steps_spec(info_updated));
        r
    } else {
        let r = vec![GuildStep::RemoveGuildInformation];
        assert(r@ =~= guild_update_steps_spec(info_updated));
        r
    }
}

/// The members of `s` that are not bots, in order.
pub open spec fn humans(s: Seq<Member>) -> Seq<Member>
    decreases s.len(),
{
    if s.len() == 0 {
        Seq::empty()
    } else if s.last().user.bot {
        humans(s.drop_last())
    } else {
        humans(s.drop_last()).push(s.last())
    }
}

/// The members of `members` that are not bots, in order.
pub fn human_members(members: Vec<Member>) -> (r: Vec<Member>)
    ensures r@ == humans(members@),
{
    let ghost all = members@;
    let mut rest = members;
    let mut r: Vec<Member> = Vec::new();
    let ghost mut k: int = 0;
    while rest.len() > 0
        invariant
            0 <= k <= all.len(),
            rest@ == all.skip(k),
            r@ == humans(all.take(k)),
        decreases rest.len(),
    {
        let m = rest.remove(0);
        proof {
            assert(m == all[k]);
            assert(all.take(k + 1).drop_last() =~= all.take(k));
            assert(all.take(k + 1).last() == all[k]);
        }
        if !m.user.bot {
            r.push(m);
        }
        proof {
            assert(rest@ =~= all.skip(k + 1));
            k = k + 1;
        }
    }
    assert(all.take(k) =~= all);
    r
}

fn clone_text(o: &Option<String>) -> (r: Option<String>)
    ensures opt_text(r) == opt_text(*o),
{
    match o {
        Some(s) => Some(s.clone()),
        None => None,
    }
}

/// A row of the table of users.
pub struct UserRow {
    pub id: u64,
    pub username: String,
    pub nickname: Option<String>,
    pub avatar: Option<String>,
}

/// A row of the table of guild members.
pub struct MemberRow {
    pub guild_id: u64,
    pub user_id: u64,
    pub nickname: Option<String>,
    pub avatar: Option<String>,
}

/// The row of `u`: its id, name and avatar, with no nickname.
pub open spec fn user_row_spec(u: User, r: UserRow) -> bool {
    &&& r.id == u.id
    &&& r.username@ == u.name@
    &&& r.nickname is None
    &&& opt_text(r.avatar) == opt_text(u.avatar)
}

/// The row of `m`: its guild, its user, its nickname and avatar in the guild.
pub open spec fn member_row_spec(m: Member, r: MemberRow) -> bool {
    &&& r.guild_id == m.guild_id
    &&& r.user_id == m.user.id
    &&& opt_text(r.nickname) == opt_text(m.nick)
    &&& opt_text(r.avatar) == opt_text(m.avatar)
}

/// The row of the user `u`.
pub fn user_row(u: &User) -> (r: UserRow)
    ensures user_row_spec(*u, r),
{
    UserRow { id: u.id, username: u.name.clone(), nickname: None, avatar: clone_text(&u.avatar) }
}

/// The row of the member `m`.
pub fn member_row(m: &Member) -> (r: MemberRow)
    ensures member_row_spec(*m, r),
{
    MemberRow { guild_id: m.guild_id, user_id: m.user.id, nickname: clone_text(&m.nick), avatar: clone_text(&m.avatar) }
}

/// The rows of the users of `members`, in order.
pub fn member_user_rows(members: &Vec<Member>) -> (r: Vec<UserRow>)
    ensures
        r.len() == members.len(),
        forall|i: int| 0 <= i < r.len() ==> user_row_spec(#[trigger] members@[i].user, r@[i]),
{
    let mut r: Vec<UserRow> = Vec::new();
    let mut i: usize = 0;
    while i < members.len()
        invariant
            i <= members.len(),
            r.len() == i,
            forall|j: int| 0 <= j < i ==> user_row_spec(#[trigger] members@[j].user, r@[j]),
        decreases members.len() - i,
    {
        r.push(user_row(&members[i].user));
        i += 1;
    }
    r
}

/// The rows of `users`, in order.
pub fn user_rows(users: &Vec<User>) -> (r: Vec<UserRow>)
    ensures
        r.len() == users.len(),
        forall|i: int| 0 <= i < r.len() ==> user_row_spec(#[trigger] users@[i], r@[i]),
{
    let mut r: Vec<UserRow> = Vec::new();
    let mut i: usize = 0;
    while i < users.len()
        invariant
            i <= users.len(),
            r.len() == i,
            forall|j: int| 0 <= j < i ==> user_row_spec(#[trigger] users@[j], r@[j]),
        decreases users.len() - i,
    {
        r.push(user_row(&users[i]));
        i += 1;
    }
    r
}

/// The rows of `members`, in order.
pub fn member_rows(members: &Vec<Member>) -> (r: Vec<MemberRow>)
    ensures
        r.len() == members.len(),
        forall|i: int| 0 <= i < r.len() ==> member_row_spec(#[trigger] members@[i], r@[i]),
{
    let mut r: Vec<MemberRow> = Vec::new();
    let mut i: usize = 0;
    while i < members.len()
        invariant
            i <= members.len(),
            r.len() == i,
            forall|j: int| 0 <= j < i ==> member_row_spec(#[trigger] members@[j], r@[j]),
        decreases members.len() - i,
    {
        r.push(member_row(&members[i]));
        i += 1;
    }
    r
}

} // verus!
