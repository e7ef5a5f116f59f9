use vstd::prelude::*;
use vstd::string::*;
use crate::fmt::push_signed_decimal;
use crate::fmt::signed_decimal;

verus! {

/// A client of the Steam Web API: where it is and the key it sends.
#[derive(Clone)]
pub struct SteamAPI {
    api_base: String,
    api_key: String,
}

/// The body of a Steam Web API answer.
pub struct ApiResponse<T> {
    pub response: T,
}

/// The friends of a Steam account.
pub struct FriendList {
    pub friends: Vec<Friend>,
}

/// A friend of a Steam account, by id.
pub struct Friend {
    pub steamid: i64,
}

/// The games that a Steam account owns.
pub struct OwnedGames {
    pub game_count: i32,
    pub games: Vec<OwnedGame>,
}

/// A game that a Steam account owns, and the minutes played in it.
pub struct OwnedGame {
    pub appid: i32,
    pub name: String,
    pub playtime_forever: i32,
}

pub open spec fn steam_api_base() -> Seq<char> {
    "https://api.steampowered.com"@
}

/// The address of `endpoint` with `params` appended to the query.
pub open spec fn api_url_spec(base: Seq<char>, endpoint: Seq<char>, key: Seq<char>, params: Seq<char>) -> Seq<char> {
    base + "/"@ + endpoint + "/v0001/?key="@ + key + "&format=json"@ + params
}

impl SteamAPI {
    pub closed spec fn base(&self) -> Seq<char> {
        self.api_base@
    }

    pub closed spec fn key(&self) -> Seq<char> {
        self.api_key@
    }

    /// A client of the public Steam Web API that sends `key`.
    pub fn new(key: &str) -> (r: SteamAPI)
        ensures r.base() == steam_api_base(), r.key() == key@,
    {
        SteamAPI { api_base: String::from_str("https://api.steampowered.com"), api_key: String::from_str(key) }
    }

    /// The address of `endpoint`, asking for JSON, with `params` appended.
    pub fn api_url(&self, endpoint: &str, params: &str) -> (r: String)
        ensures r@ == api_url_spec(self.base(), endpoint@, self.key(), params@),
    {
        let mut s = self.api_base.clone();
        s.append("/");
        s.append(endpoint);
        s.append("/v0001/?key=");
        s.append(self.api_key.as_str());
        s.append("&format=json");
        s.append(params);
        assert(s@ =~= api_url_spec(self.base(), endpoint@, self.key(), params@));
        s
    }

    /// The address that lists the games of the account `id`, with their names and the free
    /// games played.
    pub fn owned_games_url(&self, id: i64) -> (r: String)
        ensures
            r@ == api_url_spec(self.base(), "IPlayerService/GetOwnedGames"@, self.key(),
                "&steamid="@ + signed_decimal(id as int) + "&include_appinfo=true&include_played_free_games=true"@),
    {
        let mut p = String::from_str("&steamid=");
        push_signed_decimal(&mut p, id);
        p.append("&include_appinfo=true&include_played_free_games=true");
        assert(p@ =~= "&steamid="@ + signed_decimal(id as int) + "&include_appinfo=true&include_played_free_games=true"@);
        self.api_url("IPlayerService/GetOwnedGames", p.as_str())
    }

    /// The address that lists the friends of the account `id`.
    pub fn friend_list_url(&self, id: i64) -> (r: String)
        ensures
            r@ == api_url_spec(self.base(), "ISteamUser/GetFriendList"@, self.key(),
                "&steamid="@ + signed_decimal(id as int) + "&relationship=friend"@),
    {
        let mut p = String::from_str("&steamid=");
        push_signed_decimal(&mut p, id);
        p.append("&relationship=friend");
        assert(p@ =~= "&steamid="@ + signed_decimal(id as int) + "&relationship=friend"@);
        self.api_url("ISteamUser/GetFriendList", p.as_str())
    }
}

} // verus!
