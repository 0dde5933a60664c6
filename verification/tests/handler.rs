use xerophi::errors::{HandlerError, Reason};
use xerophi::handler::DatabaseHandler;
use xerophi::machine::Step;
use xerophi::memory::Database;
use xerophi::payloads::{PostChannel, PostCommand, PostQuote, PostServiceAuth};
use xerophi::store::{Record, Reply, StoredState};
use xerophi::structures::{
    Alias, BotAuthorization, BotState, Command, CommandMeta, Config, ConnectedService,
    EventConfig, EventsConfig, GenericMessageData, Message, RepeatConfig, SocialService,
    SpamAction, SpamConfig, SpamConfigs, SpamKeywords, Trust, UpdateCount, UserOffences,
};

fn repository() -> DatabaseHandler {
    let mut handler = DatabaseHandler::new(
        "bot",
        "secret",
        "localhost",
        27017,
        "cactus",
        "123123123123",
        "123123123123",
    );
    assert_eq!(handler.connect("cactus", "c", "c"), Ok(()));
    handler
}

fn text(words: &str) -> Vec<Message> {
    vec![Message { data: GenericMessageData::Basic(words.to_string()), message_type: "text".to_string() }]
}

fn definition(words: &str) -> PostCommand {
    PostCommand { response: text(words), services: vec!["twitch".to_string()], role: "user".to_string() }
}

fn delta(words: &str) -> UpdateCount {
    UpdateCount { count: words.to_string() }
}

fn event(words: &str) -> EventConfig {
    EventConfig { message: words.to_string(), enabled: true }
}

fn settings(channel: &str) -> Config {
    Config {
        repeat: RepeatConfig { disabled: false, only_live: true, default_minimum: 5 },
        events: EventsConfig {
            follow: event("follow"),
            subscribe: event("subscribe"),
            host: event("host"),
            join: event("join"),
            leave: event("leave"),
        },
        spam: SpamConfig {
            allow_urls: SpamConfigs { action: SpamAction::Purge, value: false, warnings: 1 },
            max_caps_score: SpamConfigs { action: SpamAction::Timeout, value: 16, warnings: 2 },
            max_emoji: SpamConfigs { action: SpamAction::Ban, value: 6, warnings: 3 },
            keywords: SpamKeywords {
                blacklist: vec!["bad".to_string()],
                whitelist: vec![],
                urls: vec!["example.com".to_string()],
            },
        },
        channel: channel.to_string(),
    }
}

#[test]
fn new_builds_the_address() {
    let handler = DatabaseHandler::new("bot", "secret", "db.example", 27017, "admin", "k", "s");
    assert_eq!(handler.url, "mongodb://db.example:27017/admin");
    assert_eq!(handler.user, "bot");
    assert_eq!(handler.password, "secret");
    assert_eq!(handler.key, "k");
    assert_eq!(handler.salt, "s");
    assert!(handler.database.is_none());
    let zero = DatabaseHandler::new("bot", "secret", "h", 0, "d", "k", "s");
    assert_eq!(zero.url, "mongodb://h:0/d");
    let large = DatabaseHandler::new("bot", "secret", "h", 4294967295, "d", "k", "s");
    assert_eq!(large.url, "mongodb://h:4294967295/d");
}

#[test]
fn unconnected_repository_reports_internal_error() {
    let mut handler = DatabaseHandler::new("bot", "secret", "h", 1, "d", "123123123123", "123123123123");
    assert_eq!(handler.get_channel("c"), Err(HandlerError::InternalError));
    assert_eq!(handler.get_commands("c"), Err(HandlerError::InternalError));
    assert_eq!(handler.create_trust("c", "u"), Err(HandlerError::InternalError));
    assert_eq!(handler.delete_quote("c", 1), Err(HandlerError::InternalError));
    assert_eq!(handler.get_aliases("c"), Err(HandlerError::InternalError));
    assert_eq!(handler.get_random_quote("c"), Err(HandlerError::InternalError));
    assert_eq!(
        handler.create_channel(PostChannel { name: "c".to_string(), password: "p".to_string() }),
        Err(HandlerError::InternalError)
    );
    assert_eq!(
        handler.update_offence("c", "s", "u", "caps", delta("+1")),
        Err(HandlerError::InternalError)
    );
    assert!(handler.database.is_none());
}

#[test]
fn connect_attaches_an_empty_database() {
    let handler = repository();
    let database = handler.database.as_ref().unwrap();
    assert_eq!(database.name, "cactus");
    assert!(database.records.is_empty());
    assert_eq!(handler.get_channel("anyone"), Err(HandlerError::NotFound(Reason::NoChannel)));
}

#[test]
fn channel_is_created_once() {
    let mut handler = repository();
    let post = PostChannel { name: "cactus".to_string(), password: "hunter22".to_string() };
    let made = handler.create_channel(post).unwrap();
    assert_eq!(made.token, "cactus");
    assert!(made.enabled);
    assert_eq!(made.deleted_at, None);
    assert_eq!(made.created_at, made.updated_at);
    assert!(!made.created_at.is_empty());
    assert_ne!(made.password, "hunter22");
    assert!(made.password.starts_with("$argon2i$v=19$m=4096,t=3,p=1$"));
    let again = PostChannel { name: "cactus".to_string(), password: "other".to_string() };
    assert_eq!(handler.create_channel(again), Err(HandlerError::Conflict(Reason::ChannelExists)));
    assert_eq!(handler.database.as_ref().unwrap().records.len(), 1);
}

#[test]
fn channel_round_trip() {
    let mut handler = repository();
    let post = PostChannel { name: "cactus".to_string(), password: "hunter22".to_string() };
    let made = handler.create_channel(post).unwrap();
    assert_eq!(handler.get_channel("cactus"), Ok(made));
    assert_eq!(handler.get_channel("other"), Err(HandlerError::NotFound(Reason::NoChannel)));
}

#[test]
fn channels_get_different_identifiers() {
    let mut handler = repository();
    let a = handler
        .create_channel(PostChannel { name: "a".to_string(), password: "p".to_string() })
        .unwrap();
    let b = handler
        .create_channel(PostChannel { name: "b".to_string(), password: "p".to_string() })
        .unwrap();
    assert_ne!(a.id, b.id);
    assert_eq!(a.password, b.password);
}

#[test]
fn channel_needs_a_salt_of_eight_bytes() {
    let mut handler = DatabaseHandler::new("bot", "secret", "h", 1, "d", "pepper", "short");
    handler.connect("d", "", "").unwrap();
    let post = PostChannel { name: "cactus".to_string(), password: "hunter22".to_string() };
    assert_eq!(handler.create_channel(post), Err(HandlerError::InternalError));
    assert!(handler.database.as_ref().unwrap().records.is_empty());
}

#[test]
fn command_is_created_with_fresh_meta() {
    let mut handler = repository();
    let made = handler.create_command("cactus", "hello", definition("hi")).unwrap();
    assert_eq!(made.channel, "cactus");
    assert_eq!(made.name, "hello");
    assert_eq!(made.response, text("hi"));
    assert_eq!(made.services, vec!["twitch".to_string()]);
    assert_eq!(
        made.meta,
        CommandMeta {
            added_by: "".to_string(),
            cooldown: 0,
            count: 0,
            enabled: true,
            role: "user".to_string()
        }
    );
    assert_eq!(made.deleted_at, None);
    assert_eq!(made.created_at, made.updated_at);
    assert_eq!(handler.get_command("cactus", "hello"), Ok(made));
}

#[test]
fn command_names_are_unique_in_a_channel() {
    let mut handler = repository();
    handler.create_command("cactus", "hello", definition("hi")).unwrap();
    assert_eq!(
        handler.create_command("cactus", "hello", definition("again")),
        Err(HandlerError::Conflict(Reason::CommandExists))
    );
    assert!(handler.create_command("other", "hello", definition("hi")).is_ok());
    assert!(handler.create_command("cactus", "bye", definition("bye")).is_ok());
    assert_eq!(handler.get_command("cactus", "hello").unwrap().response, text("hi"));
}

#[test]
fn commands_are_listed_by_channel() {
    let mut handler = repository();
    assert_eq!(handler.get_commands("cactus"), Ok(vec![]));
    let a = handler.create_command("cactus", "a", definition("1")).unwrap();
    handler.create_command("other", "x", definition("2")).unwrap();
    let b = handler.create_command("cactus", "b", definition("3")).unwrap();
    assert_eq!(handler.get_commands("cactus"), Ok(vec![a, b]));
    assert_eq!(handler.get_commands("nobody"), Ok(vec![]));
}

#[test]
fn missing_command_is_not_found() {
    let mut handler = repository();
    assert_eq!(handler.get_command("cactus", "x"), Err(HandlerError::NotFound(Reason::NoCommand)));
    assert_eq!(
        handler.remove_command("cactus", "x"),
        Err(HandlerError::NotFound(Reason::CommandDoesNotExist))
    );
    assert_eq!(
        handler.update_command("cactus", "x", definition("y")),
        Err(HandlerError::NotFound(Reason::CommandDoesNotExist))
    );
    assert_eq!(
        handler.update_count("cactus", "x", delta("+1")),
        Err(HandlerError::NotFound(Reason::NoCommand))
    );
    assert_eq!(
        handler.update_command_state("cactus", "x", false),
        Err(HandlerError::NotFound(Reason::CommandDoesNotExist))
    );
}

#[test]
fn update_command_replaces_only_the_response() {
    let mut handler = repository();
    let made = handler.create_command("cactus", "hello", definition("hi")).unwrap();
    handler.update_count("cactus", "hello", delta("@4")).unwrap();
    let change = PostCommand { response: text("new"), services: vec![], role: "owner".to_string() };
    assert_eq!(handler.update_command("cactus", "hello", change), Ok(()));
    let read = handler.get_command("cactus", "hello").unwrap();
    assert_eq!(read.response, text("new"));
    assert_eq!(read.services, made.services);
    assert_eq!(read.meta.role, "user");
    assert_eq!(read.meta.count, 4);
    assert_eq!(read.created_at, made.created_at);
    assert_eq!(read.updated_at, made.updated_at);
}

#[test]
fn update_count_follows_the_delta_grammar() {
    let mut handler = repository();
    handler.create_command("cactus", "cmd", definition("hi")).unwrap();
    assert_eq!(handler.update_count("cactus", "cmd", delta("@3")), Ok(3));
    assert_eq!(handler.update_count("cactus", "cmd", delta("+5")), Ok(8));
    assert_eq!(handler.get_command("cactus", "cmd").unwrap().meta.count, 8);
    assert_eq!(handler.update_count("cactus", "cmd", delta("-2")), Ok(6));
    assert_eq!(handler.update_count("cactus", "cmd", delta("@10")), Ok(10));
    assert_eq!(handler.get_command("cactus", "cmd").unwrap().meta.count, 10);
    assert_eq!(
        handler.update_count("cactus", "cmd", delta("%3")),
        Err(HandlerError::Validation(Reason::InvalidOperator))
    );
    assert_eq!(
        handler.update_count("cactus", "cmd", delta("+abc")),
        Err(HandlerError::Validation(Reason::InvalidCount))
    );
    assert_eq!(
        handler.update_count("cactus", "cmd", delta("")),
        Err(HandlerError::Validation(Reason::InvalidCount))
    );
    assert_eq!(handler.get_command("cactus", "cmd").unwrap().meta.count, 10);
}

#[test]
fn update_count_keeps_the_counter_in_range() {
    let mut handler = repository();
    handler.create_command("cactus", "cmd", definition("hi")).unwrap();
    assert_eq!(handler.update_count("cactus", "cmd", delta("@2147483647")), Ok(2147483647));
    assert_eq!(
        handler.update_count("cactus", "cmd", delta("+1")),
        Err(HandlerError::Validation(Reason::InvalidCount))
    );
    assert_eq!(handler.get_command("cactus", "cmd").unwrap().meta.count, 2147483647);
}

#[test]
fn update_command_state_returns_the_previous_flag() {
    let mut handler = repository();
    handler.create_command("cactus", "cmd", definition("hi")).unwrap();
    assert_eq!(handler.update_command_state("cactus", "cmd", false), Ok(true));
    assert!(!handler.get_command("cactus", "cmd").unwrap().meta.enabled);
    assert_eq!(handler.update_command_state("cactus", "cmd", false), Ok(false));
    assert_eq!(handler.update_command_state("cactus", "cmd", true), Ok(false));
    assert!(handler.get_command("cactus", "cmd").unwrap().meta.enabled);
}

#[test]
fn removing_a_command_removes_its_aliases() {
    let mut handler = repository();
    let foo = handler.create_command("cactus", "foo", definition("foo")).unwrap();
    let bar = handler.create_command("cactus", "bar", definition("bar")).unwrap();
    handler.create_alias("cactus", "f", "foo").unwrap();
    handler.create_alias("cactus", "f2", "foo").unwrap();
    handler.create_alias("cactus", "b", "bar").unwrap();
    handler.create_alias("other", "f", "foo").unwrap();
    assert_eq!(handler.get_alias("cactus", "f"), Ok(foo));
    assert_eq!(handler.remove_command("cactus", "foo"), Ok(()));
    assert_eq!(handler.get_alias("cactus", "f"), Err(HandlerError::NotFound(Reason::NoAlias)));
    assert_eq!(handler.get_alias("cactus", "f2"), Err(HandlerError::NotFound(Reason::NoAlias)));
    assert_eq!(handler.get_alias("cactus", "b"), Ok(bar.clone()));
    assert_eq!(handler.get_command("cactus", "foo"), Err(HandlerError::NotFound(Reason::NoCommand)));
    assert_eq!(handler.get_aliases("cactus"), Ok(vec![bar]));
    let left: Vec<&Record> = handler
        .database
        .as_ref()
        .unwrap()
        .records
        .iter()
        .filter(|record| matches!(record, Record::Alias(_)))
        .collect();
    assert_eq!(left.len(), 2);
    assert_eq!(
        handler.remove_command("cactus", "foo"),
        Err(HandlerError::NotFound(Reason::CommandDoesNotExist))
    );
}

#[test]
fn alias_resolves_once() {
    let mut handler = repository();
    let foo = handler.create_command("cactus", "foo", definition("foo")).unwrap();
    let made = handler.create_alias("cactus", "f", "foo").unwrap();
    assert_eq!(
        made,
        Alias { channel: "cactus".to_string(), command: "foo".to_string(), alias: "f".to_string() }
    );
    assert_eq!(handler.get_alias("cactus", "f"), Ok(foo));
    handler.create_alias("cactus", "ff", "f").unwrap();
    assert_eq!(handler.get_alias("cactus", "ff"), Err(HandlerError::NotFound(Reason::NoCommand)));
    assert_eq!(handler.get_alias("cactus", "none"), Err(HandlerError::NotFound(Reason::NoAlias)));
}

#[test]
fn dangling_alias_is_tolerated_and_fails_to_resolve() {
    let mut handler = repository();
    assert!(handler.create_alias("cactus", "ghost", "nothing").is_ok());
    assert_eq!(handler.get_alias("cactus", "ghost"), Err(HandlerError::NotFound(Reason::NoCommand)));
    assert_eq!(handler.get_aliases("cactus"), Err(HandlerError::NotFound(Reason::NoCommand)));
    assert_eq!(handler.delete_alias("cactus", "ghost"), Ok(()));
    assert_eq!(handler.get_aliases("cactus"), Ok(vec![]));
    assert_eq!(handler.delete_alias("cactus", "ghost"), Ok(()));
}

#[test]
fn aliases_are_resolved_in_order() {
    let mut handler = repository();
    let a = handler.create_command("cactus", "a", definition("a")).unwrap();
    let b = handler.create_command("cactus", "b", definition("b")).unwrap();
    handler.create_alias("cactus", "x", "b").unwrap();
    handler.create_alias("cactus", "y", "a").unwrap();
    handler.create_alias("cactus", "z", "b").unwrap();
    assert_eq!(handler.get_aliases("cactus"), Ok(vec![b.clone(), a, b]));
    assert_eq!(handler.get_aliases("other"), Ok(vec![]));
}

#[test]
fn quotes_are_numbered_from_one() {
    let mut handler = repository();
    assert_eq!(handler.create_quote("cactus", PostQuote { response: text("one") }), Ok(1));
    assert_eq!(handler.create_quote("cactus", PostQuote { response: text("two") }), Ok(2));
    assert_eq!(handler.create_quote("other", PostQuote { response: text("first") }), Ok(1));
    assert_eq!(handler.create_quote("cactus", PostQuote { response: text("three") }), Ok(3));
    let all = handler.get_quote("cactus", None).unwrap();
    assert_eq!(all.len(), 3);
    assert_eq!(all[0].quote_id, 1);
    assert_eq!(all[1].response, text("two"));
    assert_eq!(all[2].channel, "cactus");
}

#[test]
fn quote_round_trip() {
    let mut handler = repository();
    let id = handler.create_quote("cactus", PostQuote { response: text("one") }).unwrap();
    let read = handler.get_quote("cactus", Some(id as u32)).unwrap();
    assert_eq!(read.len(), 1);
    assert_eq!(read[0].quote_id, id);
    assert_eq!(read[0].response, text("one"));
    assert_eq!(read[0].channel, "cactus");
}

#[test]
fn quote_reads_tell_one_from_all() {
    let mut handler = repository();
    assert_eq!(handler.get_quote("cactus", None), Ok(vec![]));
    assert_eq!(handler.get_quote("cactus", Some(1)), Err(HandlerError::NotFound(Reason::NoQuote)));
    handler.create_quote("cactus", PostQuote { response: text("one") }).unwrap();
    assert_eq!(handler.get_quote("cactus", Some(2)), Err(HandlerError::NotFound(Reason::NoQuote)));
    assert_eq!(handler.get_quote("other", Some(1)), Err(HandlerError::NotFound(Reason::NoQuote)));
    assert_eq!(handler.get_quote("cactus", Some(1)).unwrap().len(), 1);
}

#[test]
fn quote_is_edited_and_deleted() {
    let mut handler = repository();
    handler.create_quote("cactus", PostQuote { response: text("one") }).unwrap();
    handler.create_quote("cactus", PostQuote { response: text("two") }).unwrap();
    assert_eq!(handler.edit_quote("cactus", 2, PostQuote { response: text("deux") }), Ok(()));
    assert_eq!(handler.get_quote("cactus", Some(2)).unwrap()[0].response, text("deux"));
    assert_eq!(handler.get_quote("cactus", Some(1)).unwrap()[0].response, text("one"));
    assert_eq!(
        handler.edit_quote("cactus", 7, PostQuote { response: text("x") }),
        Err(HandlerError::NotFound(Reason::NoQuote))
    );
    assert_eq!(handler.delete_quote("cactus", 1), Ok(()));
    assert_eq!(handler.get_quote("cactus", Some(1)), Err(HandlerError::NotFound(Reason::NoQuote)));
    assert_eq!(handler.delete_quote("cactus", 1), Ok(()));
    assert_eq!(handler.get_quote("cactus", None).unwrap().len(), 1);
}

#[test]
fn quote_number_is_the_count_plus_one() {
    let mut handler = repository();
    handler.create_quote("cactus", PostQuote { response: text("one") }).unwrap();
    handler.create_quote("cactus", PostQuote { response: text("two") }).unwrap();
    handler.delete_quote("cactus", 1).unwrap();
    assert_eq!(handler.create_quote("cactus", PostQuote { response: text("again") }), Ok(2));
    assert_eq!(handler.get_quote("cactus", Some(2)).unwrap().len(), 2);
}

#[test]
fn random_quote_is_one_of_the_channel() {
    let mut handler = repository();
    assert_eq!(handler.get_random_quote("cactus"), Err(HandlerError::NotFound(Reason::NoQuotes)));
    handler.create_quote("other", PostQuote { response: text("no") }).unwrap();
    assert_eq!(handler.get_random_quote("cactus"), Err(HandlerError::NotFound(Reason::NoQuotes)));
    handler.create_quote("cactus", PostQuote { response: text("one") }).unwrap();
    handler.create_quote("cactus", PostQuote { response: text("two") }).unwrap();
    let all = handler.get_quote("cactus", None).unwrap();
    let mut seen = vec![false, false];
    for _ in 0..40 {
        let drawn = handler.get_random_quote("cactus").unwrap();
        let at = all.iter().position(|quote| *quote == drawn).unwrap();
        seen[at] = true;
    }
    assert_eq!(seen, vec![true, true]);
}

#[test]
fn trust_is_created_once() {
    let mut handler = repository();
    let made = handler.create_trust("cactus", "u").unwrap();
    assert_eq!(made, Trust { trusted: "u".to_string(), channel: "cactus".to_string() });
    let again = handler.create_trust("cactus", "u");
    assert_eq!(again, Err(HandlerError::Conflict(Reason::AlreadyTrusted)));
    assert_eq!(again.unwrap_err().message(), "already trusted");
    assert_eq!(handler.get_trust("cactus", "u"), Ok(made));
    assert!(handler.create_trust("other", "u").is_ok());
    assert!(handler.create_trust("cactus", "v").is_ok());
}

#[test]
fn trust_is_deleted_only_if_present() {
    let mut handler = repository();
    let missing = handler.delete_trust("cactus", "nonexistent");
    assert_eq!(missing, Err(HandlerError::NotFound(Reason::TrustDoesNotExist)));
    assert_eq!(missing.unwrap_err().message(), "trust does not exist");
    handler.create_trust("cactus", "u").unwrap();
    assert_eq!(handler.delete_trust("cactus", "u"), Ok(()));
    assert_eq!(handler.get_trust("cactus", "u"), Err(HandlerError::NotFound(Reason::NoTrust)));
    assert_eq!(
        handler.delete_trust("cactus", "u"),
        Err(HandlerError::NotFound(Reason::TrustDoesNotExist))
    );
    assert!(handler.create_trust("cactus", "u").is_ok());
}

#[test]
fn trusts_are_listed_by_channel() {
    let mut handler = repository();
    assert_eq!(handler.get_trusts("cactus"), Ok(vec![]));
    let a = handler.create_trust("cactus", "a").unwrap();
    handler.create_trust("other", "x").unwrap();
    let b = handler.create_trust("cactus", "b").unwrap();
    assert_eq!(handler.get_trusts("cactus"), Ok(vec![a, b]));
}

#[test]
fn social_links_are_stored_side_by_side() {
    let mut handler = repository();
    assert_eq!(handler.get_socials("cactus"), Err(HandlerError::NotFound(Reason::NoSocials)));
    assert_eq!(
        handler.get_social_service("cactus", "twitter"),
        Err(HandlerError::NotFound(Reason::NoSocialService))
    );
    let first = handler.create_social_service("cactus", "twitter", "https://t/1").unwrap();
    assert_eq!(
        first,
        SocialService {
            channel: "cactus".to_string(),
            service: "twitter".to_string(),
            url: "https://t/1".to_string()
        }
    );
    assert_eq!(handler.get_social_service("cactus", "twitter"), Ok(first.clone()));
    let second = handler.create_social_service("cactus", "twitter", "https://t/2").unwrap();
    assert_eq!(handler.get_socials("cactus"), Ok(vec![first.clone(), second.clone()]));
    assert_eq!(handler.get_social_service("cactus", "twitter"), Ok(first));
    assert_eq!(handler.remove_social("cactus", "twitter"), Ok(()));
    assert_eq!(handler.get_social_service("cactus", "twitter"), Ok(second));
    assert_eq!(handler.remove_social("cactus", "twitter"), Ok(()));
    assert_eq!(handler.remove_social("cactus", "twitter"), Ok(()));
    assert_eq!(handler.get_socials("cactus"), Err(HandlerError::NotFound(Reason::NoSocials)));
}

#[test]
fn authorization_is_upserted() {
    let mut handler = repository();
    assert_eq!(
        handler.get_service_auth("cactus", "twitch"),
        Err(HandlerError::NotFound(Reason::NoAuthorization))
    );
    let first = PostServiceAuth {
        refresh: None,
        expiration: Some("tomorrow".to_string()),
        access: "token".to_string(),
    };
    assert_eq!(handler.update_service_auth("cactus", "twitch", first), Ok(()));
    assert_eq!(
        handler.get_service_auth("cactus", "twitch"),
        Ok(BotAuthorization {
            access: "token".to_string(),
            refresh: Some("".to_string()),
            expiration: Some("tomorrow".to_string())
        })
    );
    let second = PostServiceAuth {
        refresh: Some("again".to_string()),
        expiration: None,
        access: "token2".to_string(),
    };
    assert_eq!(handler.update_service_auth("cactus", "twitch", second), Ok(()));
    assert_eq!(
        handler.get_service_auth("cactus", "twitch"),
        Ok(BotAuthorization {
            access: "token2".to_string(),
            refresh: Some("again".to_string()),
            expiration: Some("".to_string())
        })
    );
    assert_eq!(handler.database.as_ref().unwrap().records.len(), 1);
    assert_eq!(
        handler.get_service_auth("cactus", "mixer"),
        Err(HandlerError::NotFound(Reason::NoAuthorization))
    );
}

#[test]
fn first_offence_creates_the_record() {
    let mut handler = repository();
    assert_eq!(
        handler.get_offences("cactus", "twitch", "newuser"),
        Err(HandlerError::NotFound(Reason::NoOffences))
    );
    let updated = handler.update_offence("cactus", "twitch", "newuser", "caps", delta("+1"));
    let expected = UserOffences {
        channel: "cactus".to_string(),
        service: "twitch".to_string(),
        user: "newuser".to_string(),
        caps: 1,
        emoji: 0,
        urls: 0,
    };
    assert_eq!(updated, Ok(expected.clone()));
    assert_eq!(handler.get_offences("cactus", "twitch", "newuser"), Ok(expected));
    assert_eq!(handler.database.as_ref().unwrap().records.len(), 1);
}

#[test]
fn offences_follow_the_delta_grammar() {
    let mut handler = repository();
    let made = handler.create_offence("cactus", "twitch", "u").unwrap();
    assert_eq!((made.caps, made.emoji, made.urls), (0, 0, 0));
    assert_eq!(handler.get_offences("cactus", "twitch", "u"), Ok(made));
    assert_eq!(handler.update_offence("cactus", "twitch", "u", "emoji", delta("+4")).unwrap().emoji, 4);
    assert_eq!(handler.update_offence("cactus", "twitch", "u", "emoji", delta("-1")).unwrap().emoji, 3);
    assert_eq!(handler.update_offence("cactus", "twitch", "u", "urls", delta("@9")).unwrap().urls, 9);
    let read = handler.get_offences("cactus", "twitch", "u").unwrap();
    assert_eq!((read.caps, read.emoji, read.urls), (0, 3, 9));
    assert_eq!(handler.get_offence("cactus", "twitch", "u", "emoji"), Ok(3));
    assert_eq!(handler.get_offence("cactus", "twitch", "u", "urls"), Ok(9));
    assert_eq!(handler.get_offence("cactus", "twitch", "u", "unknown"), Ok(0));
    assert_eq!(
        handler.get_offence("cactus", "twitch", "v", "caps"),
        Err(HandlerError::NotFound(Reason::NoOffences))
    );
    assert_eq!(handler.database.as_ref().unwrap().records.len(), 1);
}

#[test]
fn offence_update_rejects_bad_requests() {
    let mut handler = repository();
    handler.create_offence("cactus", "twitch", "u").unwrap();
    assert_eq!(
        handler.update_offence("cactus", "twitch", "u", "swearing", delta("+1")),
        Err(HandlerError::Validation(Reason::InvalidOffenceType))
    );
    assert_eq!(
        handler.update_offence("cactus", "twitch", "u", "caps", delta("*1")),
        Err(HandlerError::Validation(Reason::InvalidOperator))
    );
    assert_eq!(
        handler.update_offence("cactus", "twitch", "u", "caps", delta("+x")),
        Err(HandlerError::Validation(Reason::InvalidCount))
    );
    let read = handler.get_offences("cactus", "twitch", "u").unwrap();
    assert_eq!((read.caps, read.emoji, read.urls), (0, 0, 0));
}

#[test]
fn rejected_first_offence_leaves_an_empty_record() {
    let mut handler = repository();
    assert_eq!(
        handler.update_offence("cactus", "twitch", "u", "swearing", delta("+1")),
        Err(HandlerError::Validation(Reason::InvalidOffenceType))
    );
    let read = handler.get_offences("cactus", "twitch", "u").unwrap();
    assert_eq!((read.caps, read.emoji, read.urls), (0, 0, 0));
}

#[test]
fn offences_are_kept_by_service_and_user() {
    let mut handler = repository();
    handler.update_offence("cactus", "twitch", "u", "caps", delta("+1")).unwrap();
    handler.update_offence("cactus", "mixer", "u", "caps", delta("+2")).unwrap();
    handler.update_offence("cactus", "twitch", "v", "caps", delta("+3")).unwrap();
    handler.update_offence("cactus", "u", "twitch", "caps", delta("+4")).unwrap();
    assert_eq!(handler.get_offence("cactus", "twitch", "u", "caps"), Ok(1));
    assert_eq!(handler.get_offence("cactus", "mixer", "u", "caps"), Ok(2));
    assert_eq!(handler.get_offence("cactus", "twitch", "v", "caps"), Ok(3));
    assert_eq!(handler.get_offence("cactus", "u", "twitch", "caps"), Ok(4));
}

#[test]
fn config_and_state_are_read() {
    let mut handler = repository();
    assert_eq!(handler.get_config("cactus"), Err(HandlerError::NotFound(Reason::NoChannel)));
    assert_eq!(handler.get_channel_state("cactus", None), Err(HandlerError::NotFound(Reason::NoState)));
    let state = BotState {
        services: vec![ConnectedService {
            service: "twitch".to_string(),
            connected: true,
            last_authorization: 12,
        }],
        token: "cactus".to_string(),
    };
    let database = Database {
        name: "cactus".to_string(),
        records: vec![
            Record::Config(settings("other")),
            Record::Config(settings("cactus")),
            Record::State(StoredState {
                channel: "cactus".to_string(),
                service: Some("twitch".to_string()),
                state: BotState { services: state.services.clone(), token: "cactus".to_string() },
            }),
        ],
    };
    handler.attach(database);
    assert_eq!(handler.get_config("cactus"), Ok(settings("cactus")));
    assert_eq!(handler.get_config("nobody"), Err(HandlerError::NotFound(Reason::NoChannel)));
    assert_eq!(handler.get_channel_state("cactus", None), Ok(state.clone()));
    assert_eq!(handler.get_channel_state("cactus", Some("twitch".to_string())), Ok(state));
    assert_eq!(
        handler.get_channel_state("cactus", Some("mixer".to_string())),
        Err(HandlerError::NotFound(Reason::NoState))
    );
    assert_eq!(
        handler.get_channel_state("other", None),
        Err(HandlerError::NotFound(Reason::NoState))
    );
}

#[test]
fn records_of_other_kinds_do_not_collide() {
    let mut handler = repository();
    handler.create_trust("cactus", "name").unwrap();
    handler.create_alias("cactus", "name", "name").unwrap();
    handler.create_social_service("cactus", "name", "url").unwrap();
    let made: Command = handler.create_command("cactus", "name", definition("hi")).unwrap();
    assert_eq!(handler.get_alias("cactus", "name"), Ok(made));
    assert_eq!(handler.get_commands("cactus").unwrap().len(), 1);
    assert_eq!(handler.get_trusts("cactus").unwrap().len(), 1);
    assert_eq!(handler.get_socials("cactus").unwrap().len(), 1);
}

#[test]
fn operations_keep_keys_unique() {
    let mut handler = repository();
    for _ in 0..3 {
        let _ = handler.create_channel(PostChannel { name: "cactus".to_string(), password: "p".to_string() });
        let _ = handler.create_command("cactus", "hello", definition("hi"));
        let _ = handler.create_trust("cactus", "u");
        let _ = handler.update_offence("cactus", "twitch", "u", "caps", delta("+1"));
        let auth = PostServiceAuth { refresh: None, expiration: None, access: "a".to_string() };
        let _ = handler.update_service_auth("cactus", "twitch", auth);
        let _ = handler.update_count("cactus", "hello", delta("+1"));
        let _ = handler.update_command_state("cactus", "hello", false);
    }
    let records = &handler.database.as_ref().unwrap().records;
    assert_eq!(records.len(), 5);
    assert_eq!(records.iter().filter(|record| matches!(record, Record::Channel(_))).count(), 1);
    assert_eq!(records.iter().filter(|record| matches!(record, Record::Command(_))).count(), 1);
    assert_eq!(records.iter().filter(|record| matches!(record, Record::Trust(_))).count(), 1);
    assert_eq!(records.iter().filter(|record| matches!(record, Record::Offences(_))).count(), 1);
    assert_eq!(records.iter().filter(|record| matches!(record, Record::Authorization(_))).count(), 1);
    assert_eq!(handler.get_offence("cactus", "twitch", "u", "caps"), Ok(3));
    assert_eq!(handler.get_command("cactus", "hello").unwrap().meta.count, 3);
}

#[test]
fn every_operation_ends_whatever_the_database_answers() {
    let replies = || {
        vec![
            Reply::Done,
            Reply::Found(None),
            Reply::Counted(3),
            Reply::Listed(vec![
                Record::Alias(Alias { channel: "c".to_string(), command: "x".to_string(), alias: "a".to_string() }),
                Record::Alias(Alias { channel: "c".to_string(), command: "y".to_string(), alias: "b".to_string() }),
            ]),
            Reply::Found(Some(Record::Trust(Trust { trusted: "u".to_string(), channel: "c".to_string() }))),
        ]
    };
    for always in 0..replies().len() {
        let starts = vec![
            Step::get_aliases("c"),
            Step::remove_command("c", "x"),
            Step::update_offence("c", "s", "u", "caps", delta("+1")),
            Step::create_trust("c", "u"),
            Step::create_quote("c", PostQuote { response: text("q") }),
        ];
        for start in starts {
            let mut step = start;
            let mut rounds = 0;
            while let Step::Ask(_, pending) = step {
                step = pending.resume(replies().swap_remove(always));
                rounds += 1;
                assert!(rounds <= 4);
            }
        }
    }
}
