use xerophi::errors::{DatabaseFailure, HandlerError, Reason};
use xerophi::machine::{Answer, Pending, Step};
use xerophi::memory::{position, Database};
use xerophi::outcome::{
    alias, authorization, channel, command, command_list, conclude, config, count, done, id,
    offences, previous, quote, quote_list, social, social_list, state, trust, trust_list,
};
use xerophi::payloads::{PostChannel, PostCommand, PostQuote, PostServiceAuth};
use xerophi::store::{Collection, Field, Filter, Patch, Query, Record, Reply, Term, Value};
use xerophi::structures::{
    Alias, BotAuthorization, Channel, Command, CommandMeta, GenericMessageData, Message, Quote,
    ServiceAuthorization, Trust, UpdateCount, UserOffences,
};

fn text(words: &str) -> Vec<Message> {
    vec![Message { data: GenericMessageData::Basic(words.to_string()), message_type: "text".to_string() }]
}

fn key(collection: Collection, terms: Vec<(Field, &str)>) -> Filter {
    Filter {
        collection,
        terms: terms
            .into_iter()
            .map(|(field, value)| Term { field, value: Value::Text(value.to_string()) })
            .collect(),
    }
}

fn some_command(channel: &str, name: &str, count: i32) -> Command {
    Command {
        channel: channel.to_string(),
        created_at: "then".to_string(),
        deleted_at: None,
        meta: CommandMeta {
            added_by: "".to_string(),
            cooldown: 0,
            count,
            enabled: true,
            role: "user".to_string(),
        },
        name: name.to_string(),
        response: text("hi"),
        services: vec![],
        updated_at: "then".to_string(),
    }
}

fn failure() -> Reply {
    Reply::Failed(DatabaseFailure { message: "connection reset".to_string() })
}

fn ask(step: Step) -> (Query, Pending) {
    match step {
        Step::Ask(query, pending) => (query, pending),
        Step::Finish(outcome) => panic!("the operation ended: {:?}", outcome),
    }
}

#[test]
fn read_asks_for_the_first_record() {
    let (query, pending) = ask(Step::get_command("cactus", "hello"));
    assert_eq!(
        query,
        Query::FindOne(key(Collection::Commands, vec![(Field::Channel, "cactus"), (Field::Name, "hello")]))
    );
    assert_eq!(pending, Pending::Found { collection: Collection::Commands, missing: Reason::NoCommand });
    let found = some_command("cactus", "hello", 0);
    let step = pending.resume(Reply::Found(Some(Record::Command(some_command("cactus", "hello", 0)))));
    assert_eq!(command(conclude(step)), Ok(found));
}

#[test]
fn read_of_nothing_is_not_found() {
    let (_, pending) = ask(Step::get_channel("cactus"));
    let step = pending.resume(Reply::Found(None));
    assert_eq!(step, Step::Finish(Err(HandlerError::NotFound(Reason::NoChannel))));
}

#[test]
fn database_failure_ends_every_operation() {
    let steps = vec![
        Step::get_channel("c"),
        Step::get_commands("c"),
        Step::create_trust("c", "u"),
        Step::remove_command("c", "x"),
        Step::create_alias("c", "a", "x"),
        Step::create_channel(
            PostChannel { name: "c".to_string(), password: "p".to_string() },
            "pepperpepper",
            "saltsaltsalt",
        ),
        Step::update_count("c", "x", UpdateCount { count: "+1".to_string() }),
        Step::update_command_state("c", "x", true),
        Step::create_quote("c", PostQuote { response: text("q") }),
        Step::get_alias("c", "a"),
        Step::get_aliases("c"),
        Step::update_offence("c", "s", "u", "caps", UpdateCount { count: "+1".to_string() }),
    ];
    for step in steps {
        let (_, pending) = ask(step);
        let next = pending.resume(failure());
        assert_eq!(
            next,
            Step::Finish(Err(HandlerError::DatabaseError(DatabaseFailure {
                message: "connection reset".to_string()
            })))
        );
        assert_eq!(done(conclude(next)).unwrap_err().message(), "connection reset");
    }
}

#[test]
fn unasked_answer_is_an_internal_error() {
    let (_, pending) = ask(Step::get_channel("c"));
    assert_eq!(pending.resume(Reply::Done), Step::Finish(Err(HandlerError::InternalError)));
    let (_, pending) = ask(Step::get_channel("c"));
    let wrong = Record::Trust(Trust { trusted: "u".to_string(), channel: "c".to_string() });
    assert_eq!(pending.resume(Reply::Found(Some(wrong))), Step::Finish(Err(HandlerError::InternalError)));
    let (_, pending) = ask(Step::get_trusts("c"));
    let mixed = vec![
        Record::Trust(Trust { trusted: "u".to_string(), channel: "c".to_string() }),
        Record::Command(some_command("c", "x", 0)),
    ];
    assert_eq!(pending.resume(Reply::Listed(mixed)), Step::Finish(Err(HandlerError::InternalError)));
    let (_, pending) = ask(Step::create_quote("c", PostQuote { response: text("q") }));
    assert_eq!(pending.resume(Reply::Counted(-1)), Step::Finish(Err(HandlerError::InternalError)));
    let (_, pending) = ask(Step::create_quote("c", PostQuote { response: text("q") }));
    assert_eq!(
        pending.resume(Reply::Counted(9223372036854775807)),
        Step::Finish(Err(HandlerError::InternalError))
    );
    let (_, pending) = ask(Step::update_count("c", "x", UpdateCount { count: "+1".to_string() }));
    let wrong = Record::Trust(Trust { trusted: "u".to_string(), channel: "c".to_string() });
    assert_eq!(pending.resume(Reply::Found(Some(wrong))), Step::Finish(Err(HandlerError::InternalError)));
    let (_, pending) = ask(Step::delete_quote("c", 1));
    assert_eq!(pending.resume(Reply::Found(None)), Step::Finish(Err(HandlerError::InternalError)));
}

#[test]
fn creation_checks_then_inserts() {
    let trusted = Trust { trusted: "u".to_string(), channel: "c".to_string() };
    let (query, pending) = ask(Step::create_trust("c", "u"));
    assert_eq!(
        query,
        Query::FindOne(key(Collection::Trusts, vec![(Field::Channel, "c"), (Field::Trusted, "u")]))
    );
    let (query, pending) = ask(pending.resume(Reply::Found(None)));
    assert_eq!(query, Query::Insert(Record::Trust(Trust { trusted: "u".to_string(), channel: "c".to_string() })));
    let step = pending.resume(Reply::Done);
    assert_eq!(trust(conclude(step)), Ok(trusted));

    let (_, pending) = ask(Step::create_trust("c", "u"));
    let present = Record::Trust(Trust { trusted: "u".to_string(), channel: "c".to_string() });
    assert_eq!(
        pending.resume(Reply::Found(Some(present))),
        Step::Finish(Err(HandlerError::Conflict(Reason::AlreadyTrusted)))
    );
}

#[test]
fn removal_of_a_command_deletes_the_command_then_its_aliases() {
    let (query, pending) = ask(Step::remove_command("c", "foo"));
    let command_key = key(Collection::Commands, vec![(Field::Channel, "c"), (Field::Name, "foo")]);
    assert_eq!(query, Query::FindOne(key(Collection::Commands, vec![(Field::Channel, "c"), (Field::Name, "foo")])));
    let (query, pending) = ask(pending.resume(Reply::Found(Some(Record::Command(some_command("c", "foo", 0))))));
    assert_eq!(query, Query::DeleteOne(command_key));
    let (query, pending) = ask(pending.resume(Reply::Done));
    assert_eq!(
        query,
        Query::DeleteMany(key(Collection::Aliases, vec![(Field::Channel, "c"), (Field::Command, "foo")]))
    );
    assert_eq!(done(conclude(pending.resume(Reply::Done))), Ok(()));
}

#[test]
fn signup_hashes_the_password_after_the_check() {
    let post = PostChannel { name: "cactus".to_string(), password: "hunter22".to_string() };
    let (query, pending) = ask(Step::signup(post, "pepperpepper", "saltsaltsalt", Some([7; 12]), "now".to_string()));
    assert_eq!(query, Query::FindOne(key(Collection::Channels, vec![(Field::Token, "cactus")])));
    let (query, pending) = ask(pending.resume(Reply::Found(None)));
    let stored = match query {
        Query::Insert(Record::Channel(stored)) => stored,
        other => panic!("unexpected query {:?}", other),
    };
    assert_eq!(stored.id, [7; 12]);
    assert_eq!(stored.token, "cactus");
    assert_eq!(stored.created_at, "now");
    assert_eq!(stored.updated_at, "now");
    assert_eq!(stored.deleted_at, None);
    assert!(stored.enabled);
    assert!(stored.password.starts_with("$argon2i$"));
    assert_eq!(channel(conclude(pending.resume(Reply::Done))), Ok(stored));

    let post = PostChannel { name: "cactus".to_string(), password: "hunter22".to_string() };
    let (_, pending) = ask(Step::signup(post, "pepperpepper", "salt", Some([7; 12]), "now".to_string()));
    assert_eq!(pending.resume(Reply::Found(None)), Step::Finish(Err(HandlerError::InternalError)));

    let post = PostChannel { name: "cactus".to_string(), password: "hunter22".to_string() };
    let (_, pending) = ask(Step::signup(post, "pepperpepper", "salt", Some([7; 12]), "now".to_string()));
    let taken = Record::Channel(Channel {
        id: [1; 12],
        created_at: "then".to_string(),
        deleted_at: None,
        updated_at: "then".to_string(),
        token: "cactus".to_string(),
        enabled: true,
        password: "hash".to_string(),
    });
    assert_eq!(
        pending.resume(Reply::Found(Some(taken))),
        Step::Finish(Err(HandlerError::Conflict(Reason::ChannelExists)))
    );
}

#[test]
fn count_update_patches_the_new_count() {
    let (_, pending) = ask(Step::update_count("c", "x", UpdateCount { count: "+5".to_string() }));
    let (query, pending) = ask(pending.resume(Reply::Found(Some(Record::Command(some_command("c", "x", 3))))));
    assert_eq!(
        query,
        Query::Update(
            key(Collection::Commands, vec![(Field::Channel, "c"), (Field::Name, "x")]),
            Patch::Count(8)
        )
    );
    assert_eq!(count(conclude(pending.resume(Reply::Done))), Ok(8));
    let (_, pending) = ask(Step::update_count("c", "x", UpdateCount { count: "%3".to_string() }));
    let step = pending.resume(Reply::Found(Some(Record::Command(some_command("c", "x", 3)))));
    assert_eq!(count(conclude(step)), Err(HandlerError::Validation(Reason::InvalidOperator)));
}

#[test]
fn state_update_hands_back_the_old_flag() {
    let (_, pending) = ask(Step::update_command_state("c", "x", false));
    let (query, pending) = ask(pending.resume(Reply::Found(Some(Record::Command(some_command("c", "x", 3))))));
    assert_eq!(
        query,
        Query::Update(
            key(Collection::Commands, vec![(Field::Channel, "c"), (Field::Name, "x")]),
            Patch::Enabled(false)
        )
    );
    assert_eq!(previous(conclude(pending.resume(Reply::Done))), Ok(true));
}

#[test]
fn quote_gets_the_number_after_the_count() {
    let (query, pending) = ask(Step::create_quote("c", PostQuote { response: text("q") }));
    assert_eq!(query, Query::Count(key(Collection::Quotes, vec![(Field::Channel, "c")])));
    let (query, pending) = ask(pending.resume(Reply::Counted(41)));
    assert_eq!(
        query,
        Query::Insert(Record::Quote(Quote { quote_id: 42, response: text("q"), channel: "c".to_string() }))
    );
    assert_eq!(id(conclude(pending.resume(Reply::Done))), Ok(42));
}

#[test]
fn quote_filter_holds_the_number() {
    let (query, _) = ask(Step::get_quote("c", Some(7)));
    let expected = Filter {
        collection: Collection::Quotes,
        terms: vec![
            Term { field: Field::Channel, value: Value::Text("c".to_string()) },
            Term { field: Field::QuoteId, value: Value::Number(7) },
        ],
    };
    assert_eq!(query, Query::FindAll(expected));
    let (query, _) = ask(Step::get_random_quote("c"));
    assert_eq!(query, Query::Sample(key(Collection::Quotes, vec![(Field::Channel, "c")])));
}

#[test]
fn alias_is_followed_to_its_command() {
    let (query, pending) = ask(Step::get_alias("c", "f"));
    assert_eq!(query, Query::FindOne(key(Collection::Aliases, vec![(Field::Channel, "c"), (Field::Alias, "f")])));
    let found = Record::Alias(Alias { channel: "c".to_string(), command: "foo".to_string(), alias: "f".to_string() });
    let (query, pending) = ask(pending.resume(Reply::Found(Some(found))));
    assert_eq!(query, Query::FindOne(key(Collection::Commands, vec![(Field::Channel, "c"), (Field::Name, "foo")])));
    let step = pending.resume(Reply::Found(None));
    assert_eq!(command(conclude(step)), Err(HandlerError::NotFound(Reason::NoCommand)));
}

#[test]
fn aliases_are_followed_one_by_one() {
    let (_, pending) = ask(Step::get_aliases("c"));
    let listed = vec![
        Record::Alias(Alias { channel: "c".to_string(), command: "a".to_string(), alias: "x".to_string() }),
        Record::Alias(Alias { channel: "c".to_string(), command: "b".to_string(), alias: "y".to_string() }),
    ];
    let (query, pending) = ask(pending.resume(Reply::Listed(listed)));
    assert_eq!(query, Query::FindOne(key(Collection::Commands, vec![(Field::Channel, "c"), (Field::Name, "a")])));
    let (query, pending) = ask(pending.resume(Reply::Found(Some(Record::Command(some_command("c", "a", 1))))));
    assert_eq!(query, Query::FindOne(key(Collection::Commands, vec![(Field::Channel, "c"), (Field::Name, "b")])));
    let step = pending.resume(Reply::Found(Some(Record::Command(some_command("c", "b", 2)))));
    assert_eq!(command_list(conclude(step)), Ok(vec![some_command("c", "a", 1), some_command("c", "b", 2)]));
    let (_, pending) = ask(Step::get_aliases("c"));
    assert_eq!(command_list(conclude(pending.resume(Reply::Listed(vec![])))), Ok(vec![]));
}

#[test]
fn offence_update_creates_then_replaces() {
    let update = UpdateCount { count: "+1".to_string() };
    let (query, pending) = ask(Step::update_offence("c", "s", "u", "caps", update));
    let offence_key = || key(
        Collection::Offences,
        vec![(Field::Channel, "c"), (Field::User, "u"), (Field::Service, "s")],
    );
    assert_eq!(query, Query::FindOne(offence_key()));
    let (query, pending) = ask(pending.resume(Reply::Found(None)));
    let zero = UserOffences {
        channel: "c".to_string(),
        service: "s".to_string(),
        user: "u".to_string(),
        caps: 0,
        emoji: 0,
        urls: 0,
    };
    assert_eq!(query, Query::Insert(Record::Offences(zero)));
    let (query, pending) = ask(pending.resume(Reply::Done));
    let one = || UserOffences {
        channel: "c".to_string(),
        service: "s".to_string(),
        user: "u".to_string(),
        caps: 1,
        emoji: 0,
        urls: 0,
    };
    assert_eq!(query, Query::Replace(offence_key(), Record::Offences(one())));
    assert_eq!(offences(conclude(pending.resume(Reply::Done))), Ok(one()));
}

#[test]
fn authorization_update_is_one_upsert() {
    let auth = PostServiceAuth { refresh: None, expiration: None, access: "a".to_string() };
    let (query, pending) = ask(Step::update_service_auth("c", "s", auth));
    let record = ServiceAuthorization {
        channel: "c".to_string(),
        service: "s".to_string(),
        authorization: BotAuthorization {
            access: "a".to_string(),
            refresh: Some("".to_string()),
            expiration: Some("".to_string()),
        },
    };
    assert_eq!(
        query,
        Query::Upsert(
            key(Collection::Authorization, vec![(Field::Service, "s"), (Field::Channel, "c")]),
            Record::Authorization(record)
        )
    );
    assert_eq!(done(conclude(pending.resume(Reply::Done))), Ok(()));
}

#[test]
fn command_update_patches_the_response() {
    let change = PostCommand { response: text("new"), services: vec![], role: "r".to_string() };
    let (_, pending) = ask(Step::update_command("c", "x", change));
    let (query, pending) = ask(pending.resume(Reply::Found(Some(Record::Command(some_command("c", "x", 0))))));
    assert_eq!(
        query,
        Query::Update(
            key(Collection::Commands, vec![(Field::Channel, "c"), (Field::Name, "x")]),
            Patch::Response(text("new"))
        )
    );
    assert_eq!(done(conclude(pending.resume(Reply::Done))), Ok(()));
}

#[test]
fn lists_may_be_required_to_hold_something() {
    let (_, pending) = ask(Step::get_socials("c"));
    assert_eq!(
        social_list(conclude(pending.resume(Reply::Listed(vec![])))),
        Err(HandlerError::NotFound(Reason::NoSocials))
    );
    let (_, pending) = ask(Step::get_trusts("c"));
    assert_eq!(trust_list(conclude(pending.resume(Reply::Listed(vec![])))), Ok(vec![]));
    let (_, pending) = ask(Step::get_quote("c", None));
    assert_eq!(quote_list(conclude(pending.resume(Reply::Listed(vec![])))), Ok(vec![]));
    let (_, pending) = ask(Step::get_quote("c", Some(1)));
    assert_eq!(
        quote_list(conclude(pending.resume(Reply::Listed(vec![])))),
        Err(HandlerError::NotFound(Reason::NoQuote))
    );
}

#[test]
fn outcomes_of_the_wrong_kind_are_internal_errors() {
    let a_trust = || Ok(Answer::One(Record::Trust(Trust { trusted: "u".to_string(), channel: "c".to_string() })));
    assert_eq!(channel(a_trust()), Err(HandlerError::InternalError));
    assert_eq!(command(a_trust()), Err(HandlerError::InternalError));
    assert_eq!(quote(a_trust()), Err(HandlerError::InternalError));
    assert_eq!(alias(a_trust()), Err(HandlerError::InternalError));
    assert_eq!(social(a_trust()), Err(HandlerError::InternalError));
    assert_eq!(authorization(a_trust()), Err(HandlerError::InternalError));
    assert_eq!(offences(a_trust()), Err(HandlerError::InternalError));
    assert_eq!(config(a_trust()), Err(HandlerError::InternalError));
    assert_eq!(state(a_trust()), Err(HandlerError::InternalError));
    assert_eq!(done(a_trust()), Err(HandlerError::InternalError));
    assert_eq!(id(a_trust()), Err(HandlerError::InternalError));
    assert_eq!(previous(a_trust()), Err(HandlerError::InternalError));
    assert_eq!(command_list(a_trust()), Err(HandlerError::InternalError));
    assert!(trust(a_trust()).is_ok());
    assert_eq!(count(Ok(Answer::Number(2147483648))), Err(HandlerError::InternalError));
    assert_eq!(count(Ok(Answer::Number(-2147483648))), Ok(-2147483648));
    assert_eq!(id(Ok(Answer::Number(2147483648))), Ok(2147483648));
    assert_eq!(previous(Ok(Answer::Flag(true))), Ok(true));
    assert_eq!(done(Ok(Answer::Nothing)), Ok(()));
    assert_eq!(
        conclude(Step::get_channel("c")),
        Err(HandlerError::InternalError)
    );
    assert_eq!(done(Err(HandlerError::NotFound(Reason::NoAlias))), Err(HandlerError::NotFound(Reason::NoAlias)));
}

#[test]
fn database_in_memory_answers_queries() {
    let mut database = Database::new("test");
    assert_eq!(database.name, "test");
    let trusts = || key(Collection::Trusts, vec![(Field::Channel, "c")]);
    let one = |user: &str| Record::Trust(Trust { trusted: user.to_string(), channel: "c".to_string() });
    assert_eq!(database.answer(Query::Count(trusts())), Reply::Counted(0));
    assert_eq!(database.answer(Query::FindOne(trusts())), Reply::Found(None));
    assert_eq!(database.answer(Query::Sample(trusts())), Reply::Found(None));
    assert_eq!(database.answer(Query::Insert(one("a"))), Reply::Done);
    assert_eq!(database.answer(Query::Insert(one("b"))), Reply::Done);
    assert_eq!(database.answer(Query::Insert(Record::Command(some_command("c", "x", 1)))), Reply::Done);
    assert_eq!(database.answer(Query::Insert(one("c"))), Reply::Done);
    assert_eq!(database.answer(Query::Count(trusts())), Reply::Counted(3));
    assert_eq!(database.answer(Query::FindOne(trusts())), Reply::Found(Some(one("a"))));
    assert_eq!(database.answer(Query::FindAll(trusts())), Reply::Listed(vec![one("a"), one("b"), one("c")]));
    assert_eq!(database.look(&Query::DeleteOne(trusts())), None);
    assert_eq!(database.look(&Query::Count(trusts())), Some(Reply::Counted(3)));
    assert_eq!(database.answer(Query::DeleteOne(trusts())), Reply::Done);
    assert_eq!(database.answer(Query::FindAll(trusts())), Reply::Listed(vec![one("b"), one("c")]));
    let b = key(Collection::Trusts, vec![(Field::Channel, "c"), (Field::Trusted, "b")]);
    assert_eq!(database.answer(Query::Replace(b, one("z"))), Reply::Done);
    assert_eq!(database.answer(Query::FindAll(trusts())), Reply::Listed(vec![one("z"), one("c")]));
    let missing = || key(Collection::Trusts, vec![(Field::Channel, "c"), (Field::Trusted, "q")]);
    assert_eq!(database.answer(Query::Replace(missing(), one("q"))), Reply::Done);
    assert_eq!(database.answer(Query::Count(trusts())), Reply::Counted(2));
    assert_eq!(database.answer(Query::Upsert(missing(), one("q"))), Reply::Done);
    assert_eq!(database.answer(Query::Count(trusts())), Reply::Counted(3));
    assert_eq!(database.answer(Query::Upsert(missing(), one("r"))), Reply::Done);
    assert_eq!(database.answer(Query::FindAll(trusts())), Reply::Listed(vec![one("z"), one("c"), one("r")]));
    let commands = || key(Collection::Commands, vec![(Field::Channel, "c")]);
    assert_eq!(database.answer(Query::Update(commands(), Patch::Count(9))), Reply::Done);
    assert_eq!(database.answer(Query::Update(commands(), Patch::Enabled(false))), Reply::Done);
    assert_eq!(database.answer(Query::Update(commands(), Patch::Response(text("new")))), Reply::Done);
    let mut changed = some_command("c", "x", 9);
    changed.meta.enabled = false;
    changed.response = text("new");
    assert_eq!(database.answer(Query::FindOne(commands())), Reply::Found(Some(Record::Command(changed))));
    assert_eq!(database.answer(Query::Update(trusts(), Patch::Count(9))), Reply::Done);
    assert_eq!(database.answer(Query::FindOne(trusts())), Reply::Found(Some(one("z"))));
    assert_eq!(database.answer(Query::DeleteMany(trusts())), Reply::Done);
    assert_eq!(database.answer(Query::Count(trusts())), Reply::Counted(0));
    assert_eq!(database.records.len(), 1);
}

#[test]
fn database_in_memory_takes_an_operation_step_by_step() {
    let mut database = Database::new("test");
    let step = database.advance(Step::create_trust("c", "u"));
    assert!(matches!(step, Step::Ask(Query::Insert(_), _)));
    assert!(database.records.is_empty());
    let step = database.advance(step);
    assert_eq!(database.records.len(), 1);
    let step = database.advance(step);
    assert_eq!(database.records.len(), 1);
    assert_eq!(trust(conclude(step)), Ok(Trust { trusted: "u".to_string(), channel: "c".to_string() }));
    let read = database.consult(Step::get_trust("c", "u"));
    assert_eq!(trust(conclude(read)), Ok(Trust { trusted: "u".to_string(), channel: "c".to_string() }));
    let refused = database.consult(Step::delete_alias("c", "a"));
    assert_eq!(refused, Step::Finish(Err(HandlerError::InternalError)));
}

#[test]
fn names_of_collections_and_fields() {
    assert_eq!(Collection::Channels.name(), "channels");
    assert_eq!(Collection::Commands.name(), "commands");
    assert_eq!(Collection::Quotes.name(), "quotes");
    assert_eq!(Collection::Trusts.name(), "trusts");
    assert_eq!(Collection::Aliases.name(), "aliases");
    assert_eq!(Collection::Socials.name(), "socials");
    assert_eq!(Collection::Authorization.name(), "authorization");
    assert_eq!(Collection::Offences.name(), "offences");
    assert_eq!(Collection::Configs.name(), "configs");
    assert_eq!(Collection::State.name(), "state");
    assert_eq!(Field::Token.name(), "token");
    assert_eq!(Field::Channel.name(), "channel");
    assert_eq!(Field::Name.name(), "name");
    assert_eq!(Field::QuoteId.name(), "quote_id");
    assert_eq!(Field::Trusted.name(), "trusted");
    assert_eq!(Field::Alias.name(), "alias");
    assert_eq!(Field::Command.name(), "command");
    assert_eq!(Field::Service.name(), "service");
    assert_eq!(Field::User.name(), "user");
}

#[test]
fn position_is_the_counter_of_the_identifier_modulo_the_count() {
    assert_eq!(position([0, 0, 0, 0, 0, 0, 0, 0, 0, 1, 2, 3], 10), 1);
    assert_eq!(position([9, 9, 9, 9, 9, 9, 9, 9, 9, 1, 2, 3], 10), 1);
    assert_eq!(position([0, 0, 0, 0, 0, 0, 0, 0, 0, 0, 0, 5], 3), 2);
    assert_eq!(position([0, 0, 0, 0, 0, 0, 0, 0, 0, 0, 1, 0], 1000), 256);
    assert_eq!(position([0, 0, 0, 0, 0, 0, 0, 0, 0, 255, 255, 255], 16777216), 16777215);
    assert_eq!(position([0, 0, 0, 0, 0, 0, 0, 0, 0, 255, 255, 255], 1), 0);
    assert_eq!(position([0, 0, 0, 0, 0, 0, 0, 0, 0, 0, 0, 7], 8), 7);
    assert_eq!(position([0, 0, 0, 0, 0, 0, 0, 0, 0, 0, 0, 8], 8), 0);
}

#[test]
fn signup_without_an_identifier_is_an_internal_error() {
    let post = PostChannel { name: "cactus".to_string(), password: "hunter22".to_string() };
    let (query, pending) = ask(Step::signup(post, "pepperpepper", "saltsaltsalt", None, "now".to_string()));
    assert_eq!(query, Query::FindOne(key(Collection::Channels, vec![(Field::Token, "cactus")])));
    assert_eq!(pending.resume(Reply::Found(None)), Step::Finish(Err(HandlerError::InternalError)));

    let post = PostChannel { name: "cactus".to_string(), password: "hunter22".to_string() };
    let (_, pending) = ask(Step::signup(post, "pepperpepper", "saltsaltsalt", None, "now".to_string()));
    let taken = Record::Channel(Channel {
        id: [1; 12],
        created_at: "then".to_string(),
        deleted_at: None,
        updated_at: "then".to_string(),
        token: "cactus".to_string(),
        enabled: true,
        password: "hash".to_string(),
    });
    assert_eq!(
        pending.resume(Reply::Found(Some(taken))),
        Step::Finish(Err(HandlerError::Conflict(Reason::ChannelExists)))
    );
}

#[test]
fn signup_takes_an_identifier_while_the_clock_can_stamp_one() {
    let post = PostChannel { name: "cactus".to_string(), password: "hunter22".to_string() };
    let (_, pending) = ask(Step::create_channel(post, "pepperpepper", "saltsaltsalt"));
    match pending {
        Pending::Signup { id, now, name, .. } => {
            assert!(id.is_some());
            assert!(!now.is_empty());
            assert_eq!(name, "cactus");
        }
        other => panic!("unexpected state {:?}", other),
    }
}
