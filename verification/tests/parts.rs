use xerophi::config::{Configuration, ConfigurationError, MongoConfig};
use xerophi::errors::{DatabaseFailure, HandlerError, Reason};
use xerophi::hasher::{hash_password, HashError};
use xerophi::payloads::{PostChannel, PostCommand, PostLogin, PostSocial, UpdateState};
use xerophi::structures::{
    Channel, Command, EmojiMessageData, GenericMessageData, Message, UserOffences,
};
use xerophi::text::{decimal, same_text};

fn offences() -> UserOffences {
    UserOffences {
        channel: "c".to_string(),
        service: "s".to_string(),
        user: "u".to_string(),
        caps: 1,
        emoji: 2,
        urls: 3,
    }
}

#[test]
fn hash_is_an_encoded_argon2_hash() {
    let hash = hash_password("password", "pepper", "somesalt").unwrap();
    assert!(hash.starts_with("$argon2i$v=19$m=4096,t=3,p=1$c29tZXNhbHQ$"));
    assert_ne!(hash, "password");
    assert_ne!(hash, "somesalt");
    assert_ne!(hash, "pepper");
}

#[test]
fn hash_depends_on_its_inputs_alone() {
    let hash = hash_password("password", "pepper", "somesalt").unwrap();
    assert_eq!(hash_password("password", "pepper", "somesalt"), Ok(hash.clone()));
    assert_ne!(hash_password("password", "other", "somesalt"), Ok(hash.clone()));
    assert_ne!(hash_password("password", "pepper", "othersalt"), Ok(hash.clone()));
    assert_ne!(hash_password("passwore", "pepper", "somesalt"), Ok(hash));
}

#[test]
fn hash_needs_a_salt_of_eight_bytes() {
    assert_eq!(hash_password("password", "pepper", "1234567"), Err(HashError));
    assert_eq!(hash_password("password", "pepper", ""), Err(HashError));
    assert!(hash_password("password", "pepper", "12345678").is_ok());
    assert!(hash_password("", "", "12345678").is_ok());
    assert!(hash_password("password", "pepper", "\u{e9}\u{e9}\u{e9}\u{e9}").is_ok());
    assert_eq!(hash_password("password", "pepper", "\u{e9}\u{e9}\u{e9}"), Err(HashError));
}

#[test]
fn texts_are_compared_by_their_characters() {
    assert!(same_text("", ""));
    assert!(same_text("caps", "caps"));
    assert!(!same_text("caps", "cap"));
    assert!(!same_text("caps", "capz"));
    assert!(!same_text("caps", "Caps"));
    assert!(same_text("\u{e9}t\u{e9}", "\u{e9}t\u{e9}"));
    assert!(!same_text("\u{e9}", "e"));
}

#[test]
fn numbers_are_written_in_decimal() {
    assert_eq!(decimal(0), "0");
    assert_eq!(decimal(7), "7");
    assert_eq!(decimal(10), "10");
    assert_eq!(decimal(27017), "27017");
    assert_eq!(decimal(4294967295), "4294967295");
}

#[test]
fn offence_counters_are_read_by_name() {
    let record = offences();
    assert_eq!(record.get_attribute("caps"), Some(1));
    assert_eq!(record.get_attribute("emoji"), Some(2));
    assert_eq!(record.get_attribute("urls"), Some(3));
    assert_eq!(record.get_attribute("other"), None);
    assert_eq!(record.get_attribute(""), None);
    assert_eq!(record.get_attribute("Caps"), None);
    assert_eq!(record.count("caps"), 1);
    assert_eq!(record.count("urls"), 3);
    assert_eq!(record.count("other"), 0);
}

#[test]
fn offence_counters_are_set_by_name() {
    let changed = offences().set_attribute("caps", 9).unwrap();
    assert_eq!((changed.caps, changed.emoji, changed.urls), (9, 2, 3));
    let changed = offences().set_attribute("emoji", -4).unwrap();
    assert_eq!((changed.caps, changed.emoji, changed.urls), (1, -4, 3));
    let changed = offences().set_attribute("urls", 0).unwrap();
    assert_eq!((changed.caps, changed.emoji, changed.urls), (1, 2, 0));
    assert_eq!(changed.user, "u");
    assert_eq!(offences().set_attribute("other", 9), Err(()));
}

#[test]
fn channel_is_assembled_from_its_parts() {
    let post = PostChannel { name: "cactus".to_string(), password: "clear".to_string() };
    let made = Channel::assemble(post, "hash".to_string(), Some([3; 12]), "now".to_string()).unwrap();
    assert_eq!(
        made,
        Channel {
            id: [3; 12],
            created_at: "now".to_string(),
            deleted_at: None,
            updated_at: "now".to_string(),
            token: "cactus".to_string(),
            enabled: true,
            password: "hash".to_string(),
        }
    );
    let post = PostChannel { name: "cactus".to_string(), password: "clear".to_string() };
    assert_eq!(Channel::assemble(post, "hash".to_string(), None, "now".to_string()), None);
    let post = PostChannel { name: "cactus".to_string(), password: "clear".to_string() };
    let fresh = Channel::from_post(post, "hash".to_string()).unwrap();
    assert_eq!(fresh.token, "cactus");
    assert_eq!(fresh.password, "hash");
    assert_eq!(fresh.created_at, fresh.updated_at);
    assert!(fresh.enabled);
}

#[test]
fn command_is_stamped_with_the_time() {
    let response = vec![Message {
        data: GenericMessageData::Emoji(EmojiMessageData {
            standard: "smile".to_string(),
            alternatives: vec![":)".to_string()],
        }),
        message_type: "emoji".to_string(),
    }];
    let post = PostCommand {
        response: response.clone(),
        services: vec!["twitch".to_string()],
        role: "mod".to_string(),
    };
    let made = Command::stamped(post, "cactus", "hello", "now".to_string());
    assert_eq!(made.channel, "cactus");
    assert_eq!(made.name, "hello");
    assert_eq!(made.created_at, "now");
    assert_eq!(made.updated_at, "now");
    assert_eq!(made.deleted_at, None);
    assert_eq!(made.response, response);
    assert_eq!(made.services, vec!["twitch".to_string()]);
    assert_eq!(made.meta.added_by, "");
    assert_eq!(made.meta.cooldown, 0);
    assert_eq!(made.meta.count, 0);
    assert!(made.meta.enabled);
    assert_eq!(made.meta.role, "mod");
    assert_eq!(made.clone(), made);
    let post = PostCommand { response: vec![], services: vec![], role: "mod".to_string() };
    let fresh = Command::from_post(post, "cactus", "hello");
    assert_eq!(fresh.created_at, fresh.updated_at);
    assert!(!fresh.created_at.is_empty());
}

#[test]
fn errors_are_reported_in_words() {
    assert_eq!(HandlerError::InternalError.message(), "internal error");
    assert_eq!(HandlerError::NotFound(Reason::NoChannel).message(), "no channel");
    assert_eq!(HandlerError::Conflict(Reason::ChannelExists).message(), "channel with name exists");
    assert_eq!(HandlerError::Validation(Reason::InvalidCount).message(), "invalid count");
    assert_eq!(
        HandlerError::DatabaseError(DatabaseFailure { message: "down".to_string() }).message(),
        "down"
    );
    assert_eq!(Reason::NoCommand.message(), "no command");
    assert_eq!(Reason::CommandExists.message(), "command exists");
    assert_eq!(Reason::CommandDoesNotExist.message(), "command does not exist");
    assert_eq!(Reason::InvalidOperator.message(), "invalid operator");
    assert_eq!(Reason::NoState.message(), "no state for provided channel");
    assert_eq!(Reason::NoAuthorization.message(), "no auth for service");
    assert_eq!(Reason::NoQuote.message(), "no quote");
    assert_eq!(Reason::NoQuotes.message(), "no quotes");
    assert_eq!(Reason::AlreadyTrusted.message(), "already trusted");
    assert_eq!(Reason::NoTrust.message(), "no trust for user");
    assert_eq!(Reason::TrustDoesNotExist.message(), "trust does not exist");
    assert_eq!(Reason::NoAlias.message(), "no alias");
    assert_eq!(Reason::NoSocials.message(), "no socials");
    assert_eq!(Reason::NoSocialService.message(), "no social service");
    assert_eq!(Reason::NoOffences.message(), "no offences");
    assert_eq!(Reason::InvalidOffenceType.message(), "invalid offence type");
    let error = HandlerError::NotFound(Reason::NoAlias);
    assert_eq!(error.clone(), error);
}

#[test]
fn configuration_makes_a_repository() {
    let configuration = Configuration {
        mongo: MongoConfig {
            host: "db.example".to_string(),
            port: 27017,
            username: "bot".to_string(),
            password: "secret".to_string(),
            auth_db: "admin".to_string(),
        },
    };
    let handler = configuration.handler("pepper", "saltsalt");
    assert_eq!(handler.url, "mongodb://db.example:27017/admin");
    assert_eq!(handler.user, "bot");
    assert_eq!(handler.password, "secret");
    assert_eq!(handler.key, "pepper");
    assert_eq!(handler.salt, "saltsalt");
    assert!(handler.database.is_none());
}

#[test]
fn configuration_errors_are_reported_in_words() {
    assert_eq!(ConfigurationError::FileNotFound.message(), "Could not find configuration file");
    assert_eq!(
        ConfigurationError::CouldNotRead.message(),
        "Could not read contents of configuration file"
    );
    assert_eq!(
        ConfigurationError::CouldNotParse.message(),
        "Could not parse configuration into json"
    );
}

#[test]
fn payloads_hold_what_callers_send() {
    let login = PostLogin { username: "u".to_string(), password: "p".to_string() };
    assert_eq!(login.username, "u");
    assert_eq!(login.password, "p");
    let social = PostSocial { url: "https://example.com".to_string() };
    assert_eq!(social.url, "https://example.com");
    let state = UpdateState { state: true };
    assert!(state.state);
}
