use vstd::prelude::*;
use vstd::string::*;
use crate::discord::Event;
use crate::discord::User;
use crate::fmt::decimal;
use crate::fmt::push_decimal;
use crate::fmt::starts_with;
use crate::fmt::push_zero_padded4;
use crate::fmt::zero_padded;

verus! {

/// The channel where members joining and leaving are announced.
pub const NOTICE_CHANNEL_ID: u64 = 1038997543515865148;

/// The address of the avatar with the hash `hash` of the user `id`, as serenity's
/// `User::avatar_url` forms it: animated avatars, whose hash starts with `a_`, as GIF, others
/// as WebP.
pub open spec fn avatar_url_spec(id: u64, hash: Seq<char>) -> Seq<char> {
    let ext = if hash.len() >= 2 && hash.subrange(0, 2) == "a_"@ { "gif"@ } else { "webp"@ };
    "https://cdn.discordapp.com/avatars/"@ + decimal(id as nat) + "/"@ + hash + "."@ + ext + "?size=1024"@
}

/// The address of Discord's default avatar for the discriminator `discriminator`, as
/// serenity's `User::default_avatar_url` forms it.
pub open spec fn default_avatar_url_spec(discriminator: u16) -> Seq<char> {
    "https://cdn.discordapp.com/embed/avatars/"@ + decimal((discriminator % 5) as nat) + ".png"@
}

/// The picture shown for `u`: their avatar when they set one, else Discord's default.
pub open spec fn avatar_spec(u: User) -> Seq<char> {
    match u.avatar {
        Some(h) => avatar_url_spec(u.id, h@),
        None => default_avatar_url_spec(u.discriminator),
    }
}

/// The address of the avatar of `u`, if they set one.
pub fn avatar_url(u: &User) -> (r: Option<String>)
    ensures
        match u.avatar {
            Some(h) => r matches Some(a) && a@ == avatar_url_spec(u.id, h@),
            None => r is None,
        },
{
    match &u.avatar {
        Some(hash) => {
            proof { reveal_strlit("a_"); }
            let animated = starts_with(hash.as_str(), "a_");
            let mut s = String::from_str("https://cdn.discordapp.com/avatars/");
            push_decimal(&mut s, u.id);
            s.append("/");
            s.append(hash.as_str());
            s.append(".");
            if animated {
                s.append("gif");
            } else {
                s.append("webp");
            }
            s.append("?size=1024");
            assert(s@ =~= avatar_url_spec(u.id, hash@));
            Some(s)
        },
        None => None,
    }
}

/// The address of Discord's default avatar for `u`.
pub fn default_avatar_url(u: &User) -> (r: String)
    ensures r@ == default_avatar_url_spec(u.discriminator),
{
    let mut s = String::from_str("https://cdn.discordapp.com/embed/avatars/");
    push_decimal(&mut s, (u.discriminator % 5) as u64);
    s.append(".png");
    assert(s@ =~= default_avatar_url_spec(u.discriminator));
    s
}

/// The picture shown for `u`: their avatar when they set one, else Discord's default.
pub fn get_avatar(u: &User) -> (r: String)
    ensures r@ == avatar_spec(*u),
{
    if let Some(avatar) = avatar_url(u) {
        return avatar;
    }
    default_avatar_url(u)
}

/// The name shown for `u`: `name#dddd` while users have discriminators, else the name.
pub open spec fn display_name_spec(u: User) -> Seq<char> {
    if u.discriminator != 0 {
        u.name@ + "#"@ + zero_padded(decimal(u.discriminator as nat), 4)
    } else {
        u.name@
    }
}

/// The name shown for `u`.
pub fn display_name(u: &User) -> (r: String)
    ensures r@ == display_name_spec(*u),
{
    if u.discriminator != 0 {
        let mut s = u.name.clone();
        s.append("#");
        push_zero_padded4(&mut s, u.discriminator as u64);
        assert(s@ =~= display_name_spec(*u));
        s
    } else {
        u.name.clone()
    }
}

/// The profile page of the user `id`.
pub fn profile_url(id: u64) -> (r: String)
    ensures r@ == "https://discord.com/users/"@ + decimal(id as nat),
{
    let mut s = String::from_str("https://discord.com/users/");
    push_decimal(&mut s, id);
    assert(s@ =~= "https://discord.com/users/"@ + decimal(id as nat));
    s
}

/// An announcement embed: its author line, colour and text.
pub struct Embed {
    pub author_name: String,
    pub author_url: String,
    pub author_icon_url: String,
    pub colour: (u8, u8, u8),
    pub description: String,
}

/// The embed that announces `u`, with the picture `icon`, the colour and the text.
pub open spec fn notice_spec(e: Embed, u: User, icon: Seq<char>, colour: (u8, u8, u8), text: Seq<char>) -> bool {
    &&& e.author_name@ == display_name_spec(u)
    &&& e.author_url@ == "https://discord.com/users/"@ + decimal(u.id as nat)
    &&& e.author_icon_url@ == icon
    &&& e.colour == colour
    &&& e.description@ == text
}

/// The text that welcomes the user `id`.
pub open spec fn welcome_text(id: u64) -> Seq<char> {
    "Welcome <@"@ + decimal(id as nat) + "> to the server!"@
}

/// The text that says the user `id` left.
pub open spec fn farewell_text(id: u64) -> Seq<char> {
    "<@"@ + decimal(id as nat) + "> has left the server!"@
}

/// The announcement of a member joining or leaving, with the user's picture; other events
/// are not announced.
pub fn member_notice(e: &Event) -> (r: Option<Embed>)
    ensures
        match *e {
            Event::GuildMemberAddition { new_member } => r matches Some(n)
                && notice_spec(n, new_member.user, avatar_spec(new_member.user), (139u8, 195u8, 74u8), welcome_text(new_member.user.id)),
            Event::GuildMemberRemoval { guild_id, user } => r matches Some(n)
                && notice_spec(n, user, avatar_spec(user), (244u8, 67u8, 54u8), farewell_text(user.id)),
            _ => r is None,
        },
{
    match e {
        Event::GuildMemberAddition { new_member } => {
            let user = &new_member.user;
            let mut text = String::from_str("Welcome <@");
            push_decimal(&mut text, user.id);
            text.append("> to the server!");
            assert(text@ =~= welcome_text(user.id));
            Some(Embed {
                author_name: display_name(user),
                author_url: profile_url(user.id),
                author_icon_url: get_avatar(user),
                colour: (139, 195, 74),
                description: text,
            })
        },
        Event::GuildMemberRemoval { guild_id, user } => {
            let mut text = String::from_str("<@");
            push_decimal(&mut text, user.id);
            text.append("> has left the server!");
            assert(text@ =~= farewell_text(user.id));
            Some(Embed {
                author_name: display_name(user),
                author_url: profile_url(user.id),
                author_icon_url: get_avatar(user),
                colour: (244, 67, 54),
                description: text,
            })
        },
        _ => None,
    }
}

} // verus!
