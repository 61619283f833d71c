//! Configuration of the service, computed from the values of its settings.
//!
//! Reading the settings is left to the caller: each function takes the value
//! of a setting, or `None` where it is not set.

use crate::utils::strings::{
    decimal, join, opt_view, parse_u16, parse_u16_spec, split, split_on, u64_to_string,
};
use vstd::prelude::*;
use vstd::std_specs::cmp::PartialEqSpecImpl;
use vstd::std_specs::convert::FromSpecImpl;
use vstd::string::*;

verus! {

/// The port the service listens on where none is configured.
pub const DEFAULT_PORT: u16 = 8080;

/// The port that the setting `PORT` asks for: its value where it reads as a
/// 16-bit number, the default where it is not set or does not.
pub open spec fn port_of(port_var: Option<Seq<char>>) -> u16 {
    match port_var {
        Some(text) => match parse_u16_spec(text) {
            Some(port) => port,
            None => DEFAULT_PORT,
        },
        None => DEFAULT_PORT,
    }
}

/// The address under which the service is reached from outside: the
/// configured host, else the name of the hosting application, else the local
/// port.
pub open spec fn host_uri_of(
    host: Option<Seq<char>>,
    fly_app_name: Option<Seq<char>>,
    port_var: Option<Seq<char>>,
) -> Seq<char> {
    match host {
        Some(h) => "https://"@ + h,
        None => match fly_app_name {
            Some(app) => "https://"@ + app + ".fly.dev"@,
            None => "http://localhost:"@ + decimal(port_of(port_var) as nat),
        },
    }
}

/// See [`port_of`].
pub fn get_port(port_var: Option<&str>) -> (port: u16)
    ensures
        port == port_of(opt_view(port_var)),
{
    match port_var {
        Some(text) => match parse_u16(text) {
            Some(port) => port,
            None => DEFAULT_PORT,
        },
        None => DEFAULT_PORT,
    }
}

/// See [`host_uri_of`].
pub fn get_host_uri(host: Option<&str>, fly_app_name: Option<&str>, port_var: Option<&str>) -> (uri:
    String)
    ensures
        uri@ == host_uri_of(opt_view(host), opt_view(fly_app_name), opt_view(port_var)),
{
    match host {
        Some(h) => join("https://", h),
        None => match fly_app_name {
            Some(app) => {
                let mut uri = join("https://", app);
                uri.append(".fly.dev");
                uri
            },
            None => {
                let port = u64_to_string(get_port(port_var) as u64);
                join("http://localhost:", port.as_str())
            },
        },
    }
}

/// The id of a Discord guild.
#[derive(Debug, Clone)]
pub struct GuildID(pub String);

impl View for GuildID {
    type V = Seq<char>;

    open spec fn view(&self) -> Seq<char> {
        self.0@
    }
}

impl GuildID {
    /// The id as text.
    pub fn as_str(&self) -> (s: &str)
        ensures
            s@ == self@,
    {
        self.0.as_str()
    }
}

impl From<String> for GuildID {
    fn from(s: String) -> (id: GuildID) {
        GuildID(s)
    }
}

impl FromSpecImpl<String> for GuildID {
    open spec fn obeys_from_spec() -> bool {
        true
    }

    open spec fn from_spec(s: String) -> GuildID {
        GuildID(s)
    }
}

impl PartialEq<GuildID> for String {
    fn eq(&self, other: &GuildID) -> (equal: bool) {
        *self == other.0
    }
}

impl PartialEqSpecImpl<GuildID> for String {
    open spec fn obeys_eq_spec() -> bool {
        true
    }

    open spec fn eq_spec(&self, other: &GuildID) -> bool {
        self@ == other@
    }
}

/// The ids in a vector of guild ids.
pub open spec fn guild_views(ids: Seq<GuildID>) -> Seq<Seq<char>> {
    ids.map_values(|id: GuildID| id@)
}

/// What the service needs to know of its Discord application.
#[derive(Debug, Clone)]
pub struct DiscordConfig {
    pub client_id: String,
    pub client_secret: String,
    /// The guilds whose members may sign in. Where it is empty, every
    /// Discord account may.
    pub guilds: Vec<GuildID>,
}

/// The guild ids that the setting `DISCORD_ALLOWED_GUILDS` names: none where
/// it is not set or empty, else the pieces between its commas.
pub open spec fn allowed_guilds_of(setting: Option<Seq<char>>) -> Seq<Seq<char>> {
    match setting {
        Some(list) => if list.len() == 0 {
            Seq::empty()
        } else {
            split_on(list, ',')
        },
        None => Seq::empty(),
    }
}

impl DiscordConfig {
    /// The ids of a comma-separated list, one for each piece between commas,
    /// as they stand: nothing is trimmed and an empty piece is an empty id.
    pub fn parse_guild_ids(s: &str) -> (ids: Vec<GuildID>)
        ensures
            guild_views(ids@) == split_on(s@, ','),
    {
        let pieces = split(s, ',');
        let n = pieces.len();
        let mut ids: Vec<GuildID> = Vec::new();
        let mut i: usize = 0;
        while i < n
            invariant
                i <= n,
                n == pieces@.len(),
                ids@.len() == i,
                guild_views(ids@) == split_on(s@, ',').take(i as int),
                pieces@.map_values(|p: String| p@) == split_on(s@, ','),
            decreases n - i,
        {
            let ghost done = ids@;
            let id = GuildID::from(pieces[i].clone());
            proof {
                let all = split_on(s@, ',');
                assert(id@ == pieces@.map_values(|p: String| p@)[i as int]);
                assert(guild_views(done.push(id)) == guild_views(done).push(id@));
                assert(all.take(i as int).push(id@) == all.take(i + 1));
            }
            ids.push(id);
            i = i + 1;
        }
        proof {
            let all = split_on(s@, ',');
            assert(all.take(n as int) == all);
        }
        ids
    }
}

/// The configuration of the Discord application, from its client id, its
/// client secret and the setting that names the allowed guilds.
pub fn get_discord_config(
    client_id: String,
    client_secret: String,
    allowed_guilds: Option<&str>,
) -> (config: DiscordConfig)
    ensures
        config.client_id@ == client_id@,
        config.client_secret@ == client_secret@,
        guild_views(config.guilds@) == allowed_guilds_of(opt_view(allowed_guilds)),
{
    let guilds = match allowed_guilds {
        Some(list) => {
            if list.unicode_len() == 0 {
                let none: Vec<GuildID> = Vec::new();
                assert(guild_views(none@) == Seq::<Seq<char>>::empty());
                none
            } else {
                DiscordConfig::parse_guild_ids(list)
            }
        },
        None => {
            let none: Vec<GuildID> = Vec::new();
            assert(guild_views(none@) == Seq::<Seq<char>>::empty());
            none
        },
    };
    DiscordConfig { client_id, client_secret, guilds }
}

} // verus!
