//! The first step of every operation of the repository.

use crate::errors::Reason;
use crate::keys::{
    alias_named, aliases_of, aliases_to, authorization_for, channel_with, command_named,
    commands_of, config_of, offences_of, quote_numbered, quotes_of, quotes_selected, social_of,
    socials_of, state_of, trust_of, trusts_of,
};
use crate::machine::{
    store_and_return, store_and_return_step, write_step, AnswerView, Answer, Pending, PendingView,
    Step, StepView,
};
use crate::payloads::{PostChannel, PostCommand, PostQuote, PostServiceAuth};
use crate::stamps::{fresh_identifier, local_time_text};
use crate::store::{
    Collection, Filter, FilterView, Patch, PatchView, Query, QueryView, Record, RecordView,
};
use crate::structures::{
    identifier_view, Alias, AliasView, BotAuthorization, BotAuthorizationView, Command, CommandView, MessageView,
    ServiceAuthorization, ServiceAuthorizationView, SocialService, SocialServiceView, Trust,
    TrustView, UpdateCount, UserOffences, UserOffencesView,
};
use vstd::prelude::*;

verus! {

/// The step that asks for the first record under `filter` and hands it
/// back, or fails with `missing`.
pub open spec fn find(filter: FilterView, missing: Reason) -> StepView {
    StepView::Ask(
        QueryView::FindOne(filter),
        PendingView::Found { collection: filter.collection, missing },
    )
}

/// The step that asks for every record under `filter` and hands them back,
/// or fails with `empty`, where that is set and there are none.
pub open spec fn list(filter: FilterView, empty: Option<Reason>) -> StepView {
    StepView::Ask(
        QueryView::FindAll(filter),
        PendingView::Listed { collection: filter.collection, empty },
    )
}

/// The step that stores `record` unless `filter` selects a record already.
pub open spec fn create(filter: FilterView, conflict: Reason, record: RecordView) -> StepView {
    StepView::Ask(QueryView::FindOne(filter), PendingView::Absent { conflict, record })
}

/// The step that sends `writes` if `filter` selects a record.
pub open spec fn change(filter: FilterView, missing: Reason, writes: Seq<QueryView>) -> StepView {
    StepView::Ask(QueryView::FindOne(filter), PendingView::Present { missing, writes })
}

/// The step that sends `query` and hands back nothing.
pub open spec fn write(query: QueryView) -> StepView {
    StepView::Ask(
        query,
        PendingView::Writes { writes: Seq::empty(), answer: AnswerView::Nothing },
    )
}

/// The first step of a signup at the time `now` with the identifier `id`,
/// if one could be made.
pub open spec fn signup(
    name: Seq<char>,
    password: Seq<char>,
    pepper: Seq<char>,
    salt: Seq<char>,
    id: Option<Seq<u8>>,
    now: Seq<char>,
) -> StepView {
    StepView::Ask(
        QueryView::FindOne(channel_with(name)),
        PendingView::Signup { name, password, pepper, salt, id, now },
    )
}

/// The first step of the creation of `command`.
pub open spec fn insert_command(command: CommandView) -> StepView {
    create(
        command_named(command.channel, command.name),
        Reason::CommandExists,
        RecordView::Command(command),
    )
}

/// The first step of the removal of a command: the command goes, and with
/// it every alias that stands for it.
pub open spec fn remove_command(channel: Seq<char>, name: Seq<char>) -> StepView {
    change(
        command_named(channel, name),
        Reason::CommandDoesNotExist,
        seq![
            QueryView::DeleteOne(command_named(channel, name)),
            QueryView::DeleteMany(aliases_to(channel, name)),
        ],
    )
}

/// The first step of the replacement of a command's response.
pub open spec fn update_command(
    channel: Seq<char>,
    name: Seq<char>,
    response: Seq<MessageView>,
) -> StepView {
    change(
        command_named(channel, name),
        Reason::CommandDoesNotExist,
        seq![QueryView::Update(command_named(channel, name), PatchView::Response(response))],
    )
}

/// The first step of a change of a command's use count.
pub open spec fn update_count(channel: Seq<char>, name: Seq<char>, delta: Seq<char>) -> StepView {
    StepView::Ask(
        QueryView::FindOne(command_named(channel, name)),
        PendingView::Recount { filter: command_named(channel, name), delta },
    )
}

/// The first step of a change of a command's enabled flag.
pub open spec fn update_command_state(
    channel: Seq<char>,
    name: Seq<char>,
    enabled: bool,
) -> StepView {
    StepView::Ask(
        QueryView::FindOne(command_named(channel, name)),
        PendingView::Toggle { filter: command_named(channel, name), enabled },
    )
}

/// What is stored for an optional token: the token, or the empty string.
pub open spec fn stored_token(token: Option<Seq<char>>) -> Option<Seq<char>> {
    match token {
        Some(text) => Some(text),
        None => Some(Seq::empty()),
    }
}

/// The authorization record that an update stores.
pub open spec fn authorization_record(
    channel: Seq<char>,
    service: Seq<char>,
    access: Seq<char>,
    refresh: Option<Seq<char>>,
    expiration: Option<Seq<char>>,
) -> RecordView {
    RecordView::Authorization(
        ServiceAuthorizationView {
            channel,
            service,
            authorization: BotAuthorizationView {
                access,
                refresh: stored_token(refresh),
                expiration: stored_token(expiration),
            },
        },
    )
}

/// The step of an update of an authorization: the record replaces the
/// stored one, or is added where there is none.
pub open spec fn update_service_auth(
    channel: Seq<char>,
    service: Seq<char>,
    access: Seq<char>,
    refresh: Option<Seq<char>>,
    expiration: Option<Seq<char>>,
) -> StepView {
    write(
        QueryView::Upsert(
            authorization_for(channel, service),
            authorization_record(channel, service, access, refresh, expiration),
        ),
    )
}

/// The first step of a read of quotes: with a number, the quote must exist.
pub open spec fn get_quote(channel: Seq<char>, id: Option<u32>) -> StepView {
    list(
        quotes_selected(channel, id),
        if id is Some {
            Some(Reason::NoQuote)
        } else {
            None
        },
    )
}

/// The first step of a draw of a quote.
pub open spec fn get_random_quote(channel: Seq<char>) -> StepView {
    StepView::Ask(
        QueryView::Sample(quotes_of(channel)),
        PendingView::Found { collection: Collection::Quotes, missing: Reason::NoQuotes },
    )
}

/// The first step of the creation of a quote.
pub open spec fn create_quote(channel: Seq<char>, response: Seq<MessageView>) -> StepView {
    StepView::Ask(QueryView::Count(quotes_of(channel)), PendingView::Number { channel, response })
}

/// The first step of the replacement of a quote's response.
pub open spec fn edit_quote(channel: Seq<char>, id: u32, response: Seq<MessageView>) -> StepView {
    change(
        quote_numbered(channel, id as i64),
        Reason::NoQuote,
        seq![
            QueryView::Update(quote_numbered(channel, id as i64), PatchView::Response(response)),
        ],
    )
}

/// The first step of the creation of a trust.
pub open spec fn create_trust(channel: Seq<char>, user: Seq<char>) -> StepView {
    create(
        trust_of(channel, user),
        Reason::AlreadyTrusted,
        RecordView::Trust(TrustView { trusted: user, channel }),
    )
}

/// The first step of the removal of a trust.
pub open spec fn delete_trust(channel: Seq<char>, user: Seq<char>) -> StepView {
    change(
        trust_of(channel, user),
        Reason::TrustDoesNotExist,
        seq![QueryView::DeleteOne(trust_of(channel, user))],
    )
}

/// The first step of the resolution of every alias of a channel.
pub open spec fn get_aliases(channel: Seq<char>) -> StepView {
    StepView::Ask(QueryView::FindAll(aliases_of(channel)), PendingView::Targets { channel })
}

/// The first step of the resolution of one alias.
pub open spec fn get_alias(channel: Seq<char>, alias: Seq<char>) -> StepView {
    StepView::Ask(QueryView::FindOne(alias_named(channel, alias)), PendingView::Target { channel })
}

/// The first step of a change of an offence counter.
pub open spec fn update_offence(
    channel: Seq<char>,
    service: Seq<char>,
    user: Seq<char>,
    attribute: Seq<char>,
    delta: Seq<char>,
) -> StepView {
    StepView::Ask(
        QueryView::FindOne(offences_of(channel, service, user)),
        PendingView::Offence { channel, service, user, attribute, delta },
    )
}

/// A copy of an optional token as it is stored.
fn token_to_store(token: Option<String>) -> (r: Option<String>)
    ensures
        r.deep_view() == stored_token(token.deep_view()),
{
    match token {
        Some(text) => Some(text),
        None => Some(String::new()),
    }
}

impl Step {
    /// The step that asks for the first record under `filter`.
    fn find(filter: Filter, missing: Reason) -> (step: Step)
        ensures
            step@ == find(filter@, missing),
    {
        let collection = filter.collection;
        Step::Ask(Query::FindOne(filter), Pending::Found { collection, missing })
    }

    /// The step that asks for every record under `filter`.
    fn list(filter: Filter, empty: Option<Reason>) -> (step: Step)
        ensures
            step@ == list(filter@, empty),
    {
        let collection = filter.collection;
        Step::Ask(Query::FindAll(filter), Pending::Listed { collection, empty })
    }

    /// The step that sends `query` and hands back nothing.
    fn write(query: Query) -> (step: Step)
        ensures
            step@ == write(query@),
    {
        write_step(query, Answer::Nothing)
    }

    /// Reads the channel with the token `name`.
    pub fn get_channel(name: &str) -> (step: Step)
        ensures
            step@ == find(channel_with(name@), Reason::NoChannel),
    {
        Step::find(Filter::channel_with(name), Reason::NoChannel)
    }

    /// Signs a channel up at the time `now` with the identifier `id`, if one
    /// could be made; without one the signup ends in an internal error,
    /// unless the token is taken.
    pub fn signup(
        channel: PostChannel,
        pepper: &str,
        salt: &str,
        id: Option<[u8; 12]>,
        now: String,
    ) -> (step: Step)
        ensures
            step@ == signup(
                channel.name@,
                channel.password@,
                pepper@,
                salt@,
                identifier_view(id),
                now@,
            ),
    {
        let filter = Filter::channel_with(channel.name.as_str());
        Step::Ask(
            Query::FindOne(filter),
            Pending::Signup {
                name: channel.name,
                password: channel.password,
                pepper: pepper.to_owned(),
                salt: salt.to_owned(),
                id,
                now,
            },
        )
    }

    /// Signs a channel up with a fresh identifier, now.
    pub fn create_channel(channel: PostChannel, pepper: &str, salt: &str) -> (step: Step)
        ensures
            step@ matches StepView::Ask(_, PendingView::Signup { id, now, .. }) && step@ == signup(
                channel.name@,
                channel.password@,
                pepper@,
                salt@,
                id,
                now,
            ),
    {
        let now = local_time_text();
        let id = fresh_identifier();
        Step::signup(channel, pepper, salt, id, now)
    }

    /// Reads the commands of `channel`.
    pub fn get_commands(channel: &str) -> (step: Step)
        ensures
            step@ == list(commands_of(channel@), None),
    {
        Step::list(Filter::commands_of(channel), None)
    }

    /// Reads the command called `name`.
    pub fn get_command(channel: &str, name: &str) -> (step: Step)
        ensures
            step@ == find(command_named(channel@, name@), Reason::NoCommand),
    {
        Step::find(Filter::command_named(channel, name), Reason::NoCommand)
    }

    /// Creates `command` unless its channel has a command of that name.
    pub fn insert_command(command: Command) -> (step: Step)
        ensures
            step@ == insert_command(command@),
    {
        let filter = Filter::command_named(command.channel.as_str(), command.name.as_str());
        Step::Ask(
            Query::FindOne(filter),
            Pending::Absent { conflict: Reason::CommandExists, record: Record::Command(command) },
        )
    }

    /// Creates the command that `command` defines, now.
    pub fn create_command(channel: &str, name: &str, command: PostCommand) -> (step: Step)
        ensures
            step@ matches StepView::Ask(
                _,
                PendingView::Absent { record: RecordView::Command(made), .. },
            ) && step@ == insert_command(made) && made == Command::fresh(
                command.response.deep_view(),
                command.services.deep_view(),
                command.role@,
                channel@,
                name@,
                made.created_at,
            ),
    {
        Step::insert_command(Command::from_post(command, channel, name))
    }

    /// Removes the command called `name` and its aliases.
    pub fn remove_command(channel: &str, name: &str) -> (step: Step)
        ensures
            step@ == remove_command(channel@, name@),
    {
        let mut writes: Vec<Query> = Vec::new();
        writes.push(Query::DeleteOne(Filter::command_named(channel, name)));
        writes.push(Query::DeleteMany(Filter::aliases_to(channel, name)));
        assert(writes.deep_view() =~= seq![
            QueryView::DeleteOne(command_named(channel@, name@)),
            QueryView::DeleteMany(aliases_to(channel@, name@)),
        ]);
        Step::Ask(
            Query::FindOne(Filter::command_named(channel, name)),
            Pending::Present { missing: Reason::CommandDoesNotExist, writes },
        )
    }

    /// Replaces the response of the command called `name`.
    pub fn update_command(channel: &str, name: &str, command: PostCommand) -> (step: Step)
        ensures
            step@ == update_command(channel@, name@, command.response.deep_view()),
    {
        let mut writes: Vec<Query> = Vec::new();
        writes.push(
            Query::Update(Filter::command_named(channel, name), Patch::Response(command.response)),
        );
        assert(writes.deep_view() =~= seq![
            QueryView::Update(
                command_named(channel@, name@),
                PatchView::Response(command.response.deep_view()),
            ),
        ]);
        Step::Ask(
            Query::FindOne(Filter::command_named(channel, name)),
            Pending::Present { missing: Reason::CommandDoesNotExist, writes },
        )
    }

    /// Changes the use count of the command called `name`.
    pub fn update_count(channel: &str, name: &str, count: UpdateCount) -> (step: Step)
        ensures
            step@ == update_count(channel@, name@, count.count@),
    {
        Step::Ask(
            Query::FindOne(Filter::command_named(channel, name)),
            Pending::Recount { filter: Filter::command_named(channel, name), delta: count.count },
        )
    }

    /// Sets the enabled flag of the command called `name`.
    pub fn update_command_state(channel: &str, name: &str, enabled: bool) -> (step: Step)
        ensures
            step@ == update_command_state(channel@, name@, enabled),
    {
        Step::Ask(
            Query::FindOne(Filter::command_named(channel, name)),
            Pending::Toggle { filter: Filter::command_named(channel, name), enabled },
        )
    }

    /// Reads the configuration of `channel`.
    pub fn get_config(channel: &str) -> (step: Step)
        ensures
            step@ == find(config_of(channel@), Reason::NoChannel),
    {
        Step::find(Filter::config_of(channel), Reason::NoChannel)
    }

    /// Reads the state of the bot of `channel`.
    pub fn get_channel_state(channel: &str, service: Option<String>) -> (step: Step)
        ensures
            step@ == find(state_of(channel@, service.deep_view()), Reason::NoState),
    {
        Step::find(Filter::state_of(channel, &service), Reason::NoState)
    }

    /// Reads the authorization of `channel` for `service`.
    pub fn get_service_auth(channel: &str, service: &str) -> (step: Step)
        ensures
            step@ == find(authorization_for(channel@, service@), Reason::NoAuthorization),
    {
        Step::find(Filter::authorization_for(channel, service), Reason::NoAuthorization)
    }

    /// Stores the authorization of `channel` for `service`.
    pub fn update_service_auth(channel: &str, service: &str, auth: PostServiceAuth) -> (step: Step)
        ensures
            step@ == update_service_auth(
                channel@,
                service@,
                auth.access@,
                auth.refresh.deep_view(),
                auth.expiration.deep_view(),
            ),
    {
        let record = ServiceAuthorization {
            channel: channel.to_owned(),
            service: service.to_owned(),
            authorization: BotAuthorization {
                access: auth.access,
                refresh: token_to_store(auth.refresh),
                expiration: token_to_store(auth.expiration),
            },
        };
        Step::write(
            Query::Upsert(
                Filter::authorization_for(channel, service),
                Record::Authorization(record),
            ),
        )
    }

    /// Reads the quotes of `channel`, or the one numbered `id`.
    pub fn get_quote(channel: &str, id: Option<u32>) -> (step: Step)
        ensures
            step@ == get_quote(channel@, id),
    {
        let empty = match id {
            Some(_) => Some(Reason::NoQuote),
            None => None,
        };
        Step::list(Filter::quotes_selected(channel, id), empty)
    }

    /// Draws a quote of `channel`.
    pub fn get_random_quote(channel: &str) -> (step: Step)
        ensures
            step@ == get_random_quote(channel@),
    {
        Step::Ask(
            Query::Sample(Filter::quotes_of(channel)),
            Pending::Found { collection: Collection::Quotes, missing: Reason::NoQuotes },
        )
    }

    /// Stores a quote under the next number of `channel`.
    pub fn create_quote(channel: &str, quote: PostQuote) -> (step: Step)
        ensures
            step@ == create_quote(channel@, quote.response.deep_view()),
    {
        Step::Ask(
            Query::Count(Filter::quotes_of(channel)),
            Pending::Number { channel: channel.to_owned(), response: quote.response },
        )
    }

    /// Replaces the response of the quote numbered `id`.
    pub fn edit_quote(channel: &str, id: u32, quote: PostQuote) -> (step: Step)
        ensures
            step@ == edit_quote(channel@, id, quote.response.deep_view()),
    {
        let mut writes: Vec<Query> = Vec::new();
        writes.push(
            Query::Update(
                Filter::quote_numbered(channel, id as i64),
                Patch::Response(quote.response),
            ),
        );
        assert(writes.deep_view() =~= seq![
            QueryView::Update(
                quote_numbered(channel@, id as i64),
                PatchView::Response(quote.response.deep_view()),
            ),
        ]);
        Step::Ask(
            Query::FindOne(Filter::quote_numbered(channel, id as i64)),
            Pending::Present { missing: Reason::NoQuote, writes },
        )
    }

    /// Removes the quote numbered `id`.
    pub fn delete_quote(channel: &str, id: u32) -> (step: Step)
        ensures
            step@ == write(QueryView::DeleteOne(quote_numbered(channel@, id as i64))),
    {
        Step::write(Query::DeleteOne(Filter::quote_numbered(channel, id as i64)))
    }

    /// Trusts `user` in `channel` unless the user is trusted already.
    pub fn create_trust(channel: &str, user: &str) -> (step: Step)
        ensures
            step@ == create_trust(channel@, user@),
    {
        let trust = Trust { trusted: user.to_owned(), channel: channel.to_owned() };
        Step::Ask(
            Query::FindOne(Filter::trust_of(channel, user)),
            Pending::Absent { conflict: Reason::AlreadyTrusted, record: Record::Trust(trust) },
        )
    }

    /// Reads the trust of `user` in `channel`.
    pub fn get_trust(channel: &str, user: &str) -> (step: Step)
        ensures
            step@ == find(trust_of(channel@, user@), Reason::NoTrust),
    {
        Step::find(Filter::trust_of(channel, user), Reason::NoTrust)
    }

    /// Reads the trusts of `channel`.
    pub fn get_trusts(channel: &str) -> (step: Step)
        ensures
            step@ == list(trusts_of(channel@), None),
    {
        Step::list(Filter::trusts_of(channel), None)
    }

    /// Removes the trust of `user` in `channel`.
    pub fn delete_trust(channel: &str, user: &str) -> (step: Step)
        ensures
            step@ == delete_trust(channel@, user@),
    {
        let mut writes: Vec<Query> = Vec::new();
        writes.push(Query::DeleteOne(Filter::trust_of(channel, user)));
        assert(writes.deep_view() =~= seq![QueryView::DeleteOne(trust_of(channel@, user@))]);
        Step::Ask(
            Query::FindOne(Filter::trust_of(channel, user)),
            Pending::Present { missing: Reason::TrustDoesNotExist, writes },
        )
    }

    /// Reads the commands that the aliases of `channel` stand for.
    pub fn get_aliases(channel: &str) -> (step: Step)
        ensures
            step@ == get_aliases(channel@),
    {
        Step::Ask(
            Query::FindAll(Filter::aliases_of(channel)),
            Pending::Targets { channel: channel.to_owned() },
        )
    }

    /// Reads the command that `alias` stands for.
    pub fn get_alias(channel: &str, alias: &str) -> (step: Step)
        ensures
            step@ == get_alias(channel@, alias@),
    {
        Step::Ask(
            Query::FindOne(Filter::alias_named(channel, alias)),
            Pending::Target { channel: channel.to_owned() },
        )
    }

    /// Stores the alias `alias` for `command`, whether or not there is such
    /// a command.
    pub fn create_alias(channel: &str, alias: &str, command: &str) -> (step: Step)
        ensures
            step@ == store_and_return(
                RecordView::Alias(
                    AliasView { channel: channel@, command: command@, alias: alias@ },
                ),
            ),
    {
        store_and_return_step(
            Record::Alias(
                Alias {
                    channel: channel.to_owned(),
                    command: command.to_owned(),
                    alias: alias.to_owned(),
                },
            ),
        )
    }

    /// Removes the alias called `alias`.
    pub fn delete_alias(channel: &str, alias: &str) -> (step: Step)
        ensures
            step@ == write(QueryView::DeleteOne(alias_named(channel@, alias@))),
    {
        Step::write(Query::DeleteOne(Filter::alias_named(channel, alias)))
    }

    /// Reads the social links of `channel`.
    pub fn get_socials(channel: &str) -> (step: Step)
        ensures
            step@ == list(socials_of(channel@), Some(Reason::NoSocials)),
    {
        Step::list(Filter::socials_of(channel), Some(Reason::NoSocials))
    }

    /// Reads the link of `channel` to `service`.
    pub fn get_social_service(channel: &str, service: &str) -> (step: Step)
        ensures
            step@ == find(social_of(channel@, service@), Reason::NoSocialService),
    {
        Step::find(Filter::social_of(channel, service), Reason::NoSocialService)
    }

    /// Stores a link of `channel` to `service`, beside any that is there.
    pub fn create_social_service(channel: &str, service: &str, url: &str) -> (step: Step)
        ensures
            step@ == store_and_return(
                RecordView::Social(
                    SocialServiceView { channel: channel@, service: service@, url: url@ },
                ),
            ),
    {
        store_and_return_step(
            Record::Social(
                SocialService {
                    channel: channel.to_owned(),
                    service: service.to_owned(),
                    url: url.to_owned(),
                },
            ),
        )
    }

    /// Removes the link of `channel` to `service`.
    pub fn remove_social(channel: &str, service: &str) -> (step: Step)
        ensures
            step@ == write(QueryView::DeleteOne(social_of(channel@, service@))),
    {
        Step::write(Query::DeleteOne(Filter::social_of(channel, service)))
    }

    /// Reads the offences of `user` on `service` in `channel`.
    pub fn get_offences(channel: &str, service: &str, user: &str) -> (step: Step)
        ensures
            step@ == find(offences_of(channel@, service@, user@), Reason::NoOffences),
    {
        Step::find(Filter::offences_of(channel, service, user), Reason::NoOffences)
    }

    /// Stores an empty offence record.
    pub fn create_offence(channel: &str, service: &str, user: &str) -> (step: Step)
        ensures
            step@ == store_and_return(
                RecordView::Offences(UserOffencesView::zero(channel@, service@, user@)),
            ),
    {
        store_and_return_step(
            Record::Offences(
                UserOffences {
                    channel: channel.to_owned(),
                    service: service.to_owned(),
                    user: user.to_owned(),
                    caps: 0,
                    emoji: 0,
                    urls: 0,
                },
            ),
        )
    }

    /// Changes one offence counter of `user`.
    pub fn update_offence(
        channel: &str,
        service: &str,
        user: &str,
        offence_type: &str,
        count: UpdateCount,
    ) -> (step: Step)
        ensures
            step@ == update_offence(channel@, service@, user@, offence_type@, count.count@),
    {
        Step::Ask(
            Query::FindOne(Filter::offences_of(channel, service, user)),
            Pending::Offence {
                channel: channel.to_owned(),
                service: service.to_owned(),
                user: user.to_owned(),
                attribute: offence_type.to_owned(),
                delta: count.count,
            },
        )
    }
}

} // verus!
