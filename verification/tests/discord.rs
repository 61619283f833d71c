use url_shortener::utils::discord::{
    get_user_info_by_token, guilds_request, profile_request, user_info_step, DiscordUser, Fetched,
    PartialDiscordUser, PartialGuild, UserInfoEvent, UserInfoState, UserInfoStep,
};
use url_shortener::utils::env::GuildID;

fn guild(id: &str) -> PartialGuild {
    PartialGuild { id: id.to_string(), name: format!("guild {}", id) }
}

fn user(guilds: Vec<PartialGuild>) -> DiscordUser {
    DiscordUser { id: "42".to_string(), username: "ada".to_string(), guilds }
}

fn id(text: &str) -> GuildID {
    GuildID::from(text.to_string())
}

#[test]
fn has_guild_finds_a_guild_of_the_user() {
    let u = user(vec![guild("1"), guild("2")]);
    assert!(u.has_guild(id("1")));
    assert!(u.has_guild(id("2")));
    assert!(!u.has_guild(id("3")));
    assert!(!u.has_guild(id("")));
}

#[test]
fn has_guild_of_a_user_without_guilds() {
    assert!(!user(vec![]).has_guild(id("1")));
}

#[test]
fn has_any_guild_needs_one_in_common() {
    let u = user(vec![guild("1"), guild("2")]);
    assert!(u.has_any_guild(&[id("9"), id("2")]));
    assert!(u.has_any_guild(&[id("1")]));
    assert!(!u.has_any_guild(&[id("8"), id("9")]));
}

#[test]
fn has_any_guild_of_no_guilds_is_false() {
    let u = user(vec![guild("1")]);
    assert!(!u.has_any_guild(&[]));
    assert!(!user(vec![]).has_any_guild(&[id("1")]));
}

#[test]
fn requests_carry_the_bearer_token() {
    let p = profile_request("tok");
    assert_eq!(p.url, "https://discord.com/api/users/@me");
    assert_eq!(p.authorization, "Bearer tok");
    let g = guilds_request("tok");
    assert_eq!(g.url, "https://discord.com/api/users/@me/guilds");
    assert_eq!(g.authorization, "Bearer tok");
}

#[test]
fn fetching_begins_with_the_profile() {
    match get_user_info_by_token("tok") {
        UserInfoStep::Fetch(UserInfoState::AwaitingProfile, request) => {
            assert_eq!(request.url, "https://discord.com/api/users/@me");
            assert_eq!(request.authorization, "Bearer tok");
        }
        _ => panic!("expected the request for the profile"),
    }
}

fn profile() -> PartialDiscordUser {
    PartialDiscordUser { id: "42".to_string(), username: "ada".to_string() }
}

#[test]
fn fetching_asks_for_guilds_where_they_are_needed() {
    let step = user_info_step(
        "tok",
        true,
        UserInfoState::AwaitingProfile,
        UserInfoEvent::Profile(Fetched::Ready(profile())),
    );
    match step {
        UserInfoStep::Fetch(UserInfoState::AwaitingGuilds { profile }, request) => {
            assert_eq!(profile.id, "42");
            assert_eq!(profile.username, "ada");
            assert_eq!(request.url, "https://discord.com/api/users/@me/guilds");
            assert_eq!(request.authorization, "Bearer tok");
        }
        _ => panic!("expected the request for the guilds"),
    }
}

#[test]
fn fetching_is_done_with_the_profile_where_guilds_are_not_needed() {
    let step = user_info_step(
        "tok",
        false,
        UserInfoState::AwaitingProfile,
        UserInfoEvent::Profile(Fetched::Ready(profile())),
    );
    match step {
        UserInfoStep::Done(user) => {
            assert_eq!(user.id, "42");
            assert_eq!(user.username, "ada");
            assert!(user.guilds.is_empty());
        }
        _ => panic!("expected the account"),
    }
}

#[test]
fn fetching_is_done_with_the_guilds() {
    let step = user_info_step(
        "tok",
        true,
        UserInfoState::AwaitingGuilds { profile: profile() },
        UserInfoEvent::Guilds(Fetched::Ready(vec![guild("1"), guild("2")])),
    );
    match step {
        UserInfoStep::Done(user) => {
            assert_eq!(user.id, "42");
            assert_eq!(user.username, "ada");
            assert_eq!(user.guilds.len(), 2);
            assert_eq!(user.guilds[1].id, "2");
            assert_eq!(user.guilds[1].name, "guild 2");
        }
        _ => panic!("expected the account"),
    }
}

fn failure(state: UserInfoState, event: UserInfoEvent) -> String {
    match user_info_step("tok", true, state, event) {
        UserInfoStep::Failed(e) => format!("{:?}: {}", e.kind, e.message),
        _ => panic!("expected a failure"),
    }
}

#[test]
fn fetching_fails_with_a_message_that_says_what_failed() {
    assert_eq!(
        failure(UserInfoState::AwaitingProfile, UserInfoEvent::Profile(Fetched::SendFailed)),
        "UpstreamError: failed to fetch user info from discord"
    );
    assert_eq!(
        failure(UserInfoState::AwaitingProfile, UserInfoEvent::Profile(Fetched::Unreadable)),
        "UpstreamError: failed to parse user info into structs"
    );
    assert_eq!(
        failure(
            UserInfoState::AwaitingGuilds { profile: profile() },
            UserInfoEvent::Guilds(Fetched::SendFailed)
        ),
        "UpstreamError: failed to fetch guilds from discord"
    );
    assert_eq!(
        failure(
            UserInfoState::AwaitingGuilds { profile: profile() },
            UserInfoEvent::Guilds(Fetched::Unreadable)
        ),
        "UpstreamError: failed to parse guilds into structs"
    );
}

#[test]
fn fetching_fails_on_an_answer_it_does_not_wait_for() {
    assert_eq!(
        failure(UserInfoState::AwaitingProfile, UserInfoEvent::Guilds(Fetched::Ready(vec![]))),
        "Internal: unexpected answer"
    );
    assert_eq!(
        failure(
            UserInfoState::AwaitingGuilds { profile: profile() },
            UserInfoEvent::Profile(Fetched::Ready(profile()))
        ),
        "Internal: unexpected answer"
    );
}
