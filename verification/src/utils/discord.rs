//! The Discord account that signs in, its guilds, and the two requests that
//! fetch them.

use crate::error::{AppError, ErrorKind};
use crate::utils::env::GuildID;
use crate::utils::strings::join;
use vstd::prelude::*;
use vstd::string::*;

verus! {

/// A guild as Discord lists it for a user.
#[derive(Debug)]
pub struct PartialGuild {
    pub id: String,
    pub name: String,
}

/// A user as Discord's "current user" endpoint describes them.
#[derive(Debug)]
pub struct PartialDiscordUser {
    pub id: String,
    pub username: String,
}

/// The guilds of a user.
pub type Guilds = Vec<PartialGuild>;

/// A Discord account with the guilds it is a member of.
pub struct DiscordUser {
    pub id: String,
    pub username: String,
    pub guilds: Vec<PartialGuild>,
}

/// One of `guilds` has the id `id`.
pub open spec fn is_member(guilds: Seq<PartialGuild>, id: Seq<char>) -> bool {
    exists|i: int| 0 <= i < guilds.len() && (#[trigger] guilds[i]).id@ == id
}

/// One of `guilds` has an id that `allowed` lists.
pub open spec fn shares_guild(guilds: Seq<PartialGuild>, allowed: Seq<GuildID>) -> bool {
    exists|j: int| 0 <= j < allowed.len() && is_member(guilds, (#[trigger] allowed[j])@)
}

/// Whether the list `guilds` holds a guild with the id `id`.
fn has_guild_id(guilds: &Vec<PartialGuild>, id: &String) -> (found: bool)
    ensures
        found == is_member(guilds@, id@),
{
    let mut i: usize = 0;
    while i < guilds.len()
        invariant
            i <= guilds@.len(),
            forall|k: int| 0 <= k < i ==> (#[trigger] guilds@[k]).id@ != id@,
        decreases guilds@.len() - i,
    {
        if guilds[i].id == *id {
            return true;
        }
        i = i + 1;
    }
    false
}

impl DiscordUser {
    /// Whether the user is a member of the guild `guild_id`.
    pub fn has_guild(&self, guild_id: GuildID) -> (found: bool)
        ensures
            found == is_member(self.guilds@, guild_id@),
    {
        has_guild_id(&self.guilds, &guild_id.0)
    }

    /// Whether the user is a member of at least one of the guilds
    /// `guild_ids`. Of no guilds, nobody is a member.
    pub fn has_any_guild(&self, guild_ids: &[GuildID]) -> (found: bool)
        ensures
            found == shares_guild(self.guilds@, guild_ids@),
    {
        let mut j: usize = 0;
        while j < guild_ids.len()
            invariant
                j <= guild_ids@.len(),
                forall|k: int| 0 <= k < j ==> !is_member(self.guilds@, (#[trigger] guild_ids@[k])@),
            decreases guild_ids@.len() - j,
        {
            if has_guild_id(&self.guilds, &guild_ids[j].0) {
                return true;
            }
            j = j + 1;
        }
        false
    }
}

/// A `GET` request to Discord's API on behalf of a user.
pub struct ApiRequest {
    pub url: String,
    /// The value of the `Authorization` header.
    pub authorization: String,
}

/// The request for the profile of the user that `token` belongs to.
pub fn profile_request(token: &str) -> (request: ApiRequest)
    ensures
        request.url@ == "https://discord.com/api/users/@me"@,
        request.authorization@ == "Bearer "@ + token@,
{
    ApiRequest {
        url: String::from_str("https://discord.com/api/users/@me"),
        authorization: join("Bearer ", token),
    }
}

/// The request for the guilds of the user that `token` belongs to.
pub fn guilds_request(token: &str) -> (request: ApiRequest)
    ensures
        request.url@ == "https://discord.com/api/users/@me/guilds"@,
        request.authorization@ == "Bearer "@ + token@,
{
    ApiRequest {
        url: String::from_str("https://discord.com/api/users/@me/guilds"),
        authorization: join("Bearer ", token),
    }
}

/// What came of a request to Discord's API whose answer is read as `T`.
#[derive(Debug)]
pub enum Fetched<T> {
    /// The answer, read.
    Ready(T),
    /// The request could not be sent, or no answer came.
    SendFailed,
    /// An answer came that does not read as `T`.
    Unreadable,
}

/// How far the fetching of a user's account has come.
#[derive(Debug)]
pub enum UserInfoState {
    /// The profile has been asked for.
    AwaitingProfile,
    /// The profile is there and the guilds have been asked for.
    AwaitingGuilds { profile: PartialDiscordUser },
}

/// What Discord answered.
#[derive(Debug)]
pub enum UserInfoEvent {
    Profile(Fetched<PartialDiscordUser>),
    Guilds(Fetched<Vec<PartialGuild>>),
}

/// What to do next to fetch a user's account.
pub enum UserInfoStep {
    /// Send the request and come back in the given state with its answer.
    Fetch(UserInfoState, ApiRequest),
    /// The account is complete.
    Done(DiscordUser),
    /// Fetching failed, for the reason given.
    Failed(AppError),
}

/// The first step of fetching the account that `token` belongs to: asking
/// for the profile.
pub fn get_user_info_by_token(token: &str) -> (step: UserInfoStep)
    ensures
        step matches UserInfoStep::Fetch(UserInfoState::AwaitingProfile, request) && request.url@
            == "https://discord.com/api/users/@me"@ && request.authorization@ == "Bearer "@
            + token@,
{
    UserInfoStep::Fetch(UserInfoState::AwaitingProfile, profile_request(token))
}

/// Why the fetching ends in `state` on `event`, where it does: a request
/// that failed is an error of the provider, with a message that says which
/// request it was, and an answer that the state does not wait for is an
/// internal error.
pub open spec fn fetch_failure(state: UserInfoState, event: UserInfoEvent) -> Option<
    (ErrorKind, Seq<char>),
> {
    match (state, event) {
        (UserInfoState::AwaitingProfile, UserInfoEvent::Profile(Fetched::Ready(_))) => None,
        (UserInfoState::AwaitingProfile, UserInfoEvent::Profile(Fetched::SendFailed)) => Some(
            (ErrorKind::UpstreamError, "failed to fetch user info from discord"@),
        ),
        (UserInfoState::AwaitingProfile, UserInfoEvent::Profile(Fetched::Unreadable)) => Some(
            (ErrorKind::UpstreamError, "failed to parse user info into structs"@),
        ),
        (UserInfoState::AwaitingGuilds { .. }, UserInfoEvent::Guilds(Fetched::Ready(_))) => None,
        (UserInfoState::AwaitingGuilds { .. }, UserInfoEvent::Guilds(Fetched::SendFailed)) => Some(
            (ErrorKind::UpstreamError, "failed to fetch guilds from discord"@),
        ),
        (UserInfoState::AwaitingGuilds { .. }, UserInfoEvent::Guilds(Fetched::Unreadable)) => Some(
            (ErrorKind::UpstreamError, "failed to parse guilds into structs"@),
        ),
        _ => Some((ErrorKind::Internal, "unexpected answer"@)),
    }
}

/// Whether `step` is what follows in `state` on `event`.
///
/// The profile is fetched first. The guilds are fetched after it only where
/// `with_guilds` asks for them: without them the account is complete with
/// the profile and has no guilds. See [`fetch_failure`] for how the fetching
/// fails.
pub open spec fn user_info_follows(
    token: Seq<char>,
    with_guilds: bool,
    state: UserInfoState,
    event: UserInfoEvent,
    step: UserInfoStep,
) -> bool {
    match fetch_failure(state, event) {
        Some((kind, message)) => step matches UserInfoStep::Failed(e) && e.kind == kind
            && e.message@ == message,
        None => match (state, event) {
            (UserInfoState::AwaitingProfile, UserInfoEvent::Profile(Fetched::Ready(profile))) => {
                if with_guilds {
                    &&& step matches UserInfoStep::Fetch(
                        UserInfoState::AwaitingGuilds { profile: kept },
                        request,
                    )
                    &&& kept == profile
                    &&& request.url@ == "https://discord.com/api/users/@me/guilds"@
                    &&& request.authorization@ == "Bearer "@ + token
                } else {
                    &&& step matches UserInfoStep::Done(user)
                    &&& user.id == profile.id
                    &&& user.username == profile.username
                    &&& user.guilds@ == Seq::<PartialGuild>::empty()
                }
            },
            (
                UserInfoState::AwaitingGuilds { profile },
                UserInfoEvent::Guilds(Fetched::Ready(guilds)),
            ) => {
                &&& step matches UserInfoStep::Done(user)
                &&& user.id == profile.id
                &&& user.username == profile.username
                &&& user.guilds == guilds
            },
            _ => false,
        },
    }
}

/// The step that follows in `state` on `event`: see [`user_info_follows`].
pub fn user_info_step(
    token: &str,
    with_guilds: bool,
    state: UserInfoState,
    event: UserInfoEvent,
) -> (step: UserInfoStep)
    ensures
        user_info_follows(token@, with_guilds, state, event, step),
{
    match (state, event) {
        (UserInfoState::AwaitingProfile, UserInfoEvent::Profile(Fetched::Ready(profile))) => {
            if with_guilds {
                UserInfoStep::Fetch(
                    UserInfoState::AwaitingGuilds { profile },
                    guilds_request(token),
                )
            } else {
                UserInfoStep::Done(
                    DiscordUser { id: profile.id, username: profile.username, guilds: Vec::new() },
                )
            }
        },
        (UserInfoState::AwaitingProfile, UserInfoEvent::Profile(Fetched::SendFailed)) => {
            UserInfoStep::Failed(
                AppError::new(ErrorKind::UpstreamError, "failed to fetch user info from discord"),
            )
        },
        (UserInfoState::AwaitingProfile, UserInfoEvent::Profile(Fetched::Unreadable)) => {
            UserInfoStep::Failed(
                AppError::new(ErrorKind::UpstreamError, "failed to parse user info into structs"),
            )
        },
        (
            UserInfoState::AwaitingGuilds { profile },
            UserInfoEvent::Guilds(Fetched::Ready(guilds)),
        ) => {
            UserInfoStep::Done(DiscordUser { id: profile.id, username: profile.username, guilds })
        },
        (UserInfoState::AwaitingGuilds { .. }, UserInfoEvent::Guilds(Fetched::SendFailed)) => {
            UserInfoStep::Failed(
                AppError::new(ErrorKind::UpstreamError, "failed to fetch guilds from discord"),
            )
        },
        (UserInfoState::AwaitingGuilds { .. }, UserInfoEvent::Guilds(Fetched::Unreadable)) => {
            UserInfoStep::Failed(
                AppError::new(ErrorKind::UpstreamError, "failed to parse guilds into structs"),
            )
        },
        _ => UserInfoStep::Failed(AppError::new(ErrorKind::Internal, "unexpected answer")),
    }
}

} // verus!
