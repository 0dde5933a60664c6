//! The repository: its settings and, once connected, a database in memory
//! on which every operation runs to its end.

use crate::errors::{HandlerError, HandlerErrorView, Reason};
use crate::keys::{
    alias_named, aliases_of, authorization_for, channel_with, command_named, commands_of, config_of,
    matches_three, offences_of, quotes_of, quotes_selected, social_of, socials_of, state_of,
    trust_of, trusts_of,
};
use crate::model::{find_all, find_one, first_from_is_first};
use crate::refinement::{
    find_gives, list_gives, resolving, resolving_ends, resolving_goes_on, resolving_starts,
    selected_are_of_collection,
};
use crate::machine::{all_of, outcome_view, Step, StepView};
use crate::memory::Database;
use crate::outcome::{self, conclude, HandlerResult};
use crate::payloads::{PostChannel, PostCommand, PostQuote, PostServiceAuth};
use crate::rules::{self, target, Effect, Verdict};
use crate::store::{Collection, Field, RecordView};
use crate::structures::{
    Alias, BotAuthorization, BotState, Channel, Command, Config, Quote, SocialService, Trust,
    UpdateCount, UserOffences,
};
use crate::text::{decimal, decimal_text};
use vstd::prelude::*;

verus! {

/// Whether `result` is what `verdict` says, view for view.
pub open spec fn agrees<T: DeepView>(result: HandlerResult<T>, verdict: Verdict<T::V>) -> bool {
    match verdict {
        Ok(value) => result matches Ok(given) && given.deep_view() == value,
        Err(error) => result matches Err(given) && given@ == error,
    }
}

/// The identifier of the channel in `result`, if there is one.
pub open spec fn identifier_in(result: HandlerResult<Channel>) -> Seq<u8> {
    match result {
        Ok(channel) => channel@.id,
        Err(_) => Seq::empty(),
    }
}

/// The time at which the channel in `result` was made, if there is one.
pub open spec fn time_in(result: HandlerResult<Channel>) -> Seq<char> {
    match result {
        Ok(channel) => channel@.created_at,
        Err(_) => Seq::empty(),
    }
}

/// The time at which the command in `result` was made, if there is one.
pub open spec fn created_in(result: HandlerResult<Command>) -> Seq<char> {
    match result {
        Ok(command) => command@.created_at,
        Err(_) => Seq::empty(),
    }
}

/// The address of the database `db` on `host`.
pub open spec fn database_url(host: Seq<char>, port: u32, db: Seq<char>) -> Seq<char> {
    "mongodb://"@ + host + ":"@ + decimal_text(port as nat) + "/"@ + db
}

/// The repository.
#[derive(Debug, PartialEq, Eq)]
pub struct DatabaseHandler {
    pub url: String,
    pub user: String,
    pub password: String,
    pub database: Option<Database>,
    pub key: String,
    pub salt: String,
}

impl DatabaseHandler {
    /// The records of the database, oldest first, once the repository is
    /// connected.
    pub open spec fn stored(&self) -> Option<Seq<RecordView>> {
        match self.database {
            Some(db) => Some(db@),
            None => None,
        }
    }

    /// Whether the repository has the settings of `other`.
    pub open spec fn settings_of(&self, other: &DatabaseHandler) -> bool {
        &&& self.url == other.url
        &&& self.user == other.user
        &&& self.password == other.password
        &&& self.key == other.key
        &&& self.salt == other.salt
    }

    /// Whether `self` is `before` after an operation with the effect
    /// `effect`, which gave `result`: the settings are kept; a repository
    /// that is not connected stays so and reports an internal error.
    pub open spec fn follows<T: DeepView>(
        &self,
        before: &DatabaseHandler,
        result: HandlerResult<T>,
        effect: spec_fn(Seq<RecordView>) -> Effect<T::V>,
    ) -> bool {
        &&& self.settings_of(before)
        &&& match before.stored() {
            Some(db) => self.stored() == Some(effect(db).db) && agrees(result, effect(db).result),
            None => self.stored() is None && agrees(
                result,
                Err(HandlerErrorView::InternalError),
            ),
        }
    }

    /// Whether `result` is what a read with the verdict `verdict` gives.
    pub open spec fn gives<T: DeepView>(
        &self,
        result: HandlerResult<T>,
        verdict: spec_fn(Seq<RecordView>) -> Verdict<T::V>,
    ) -> bool {
        match self.stored() {
            Some(db) => agrees(result, verdict(db)),
            None => agrees(result, Err(HandlerErrorView::InternalError)),
        }
    }

    /// A repository for the database `db` on `host`, not yet connected.
    /// `key` is the pepper and `salt` the salt of every password hash.
    pub fn new(
        username: &str,
        password: &str,
        host: &str,
        port: u32,
        db: &str,
        key: &str,
        salt: &str,
    ) -> (r: Self)
        ensures
            r.url@ == database_url(host@, port, db@),
            r.user@ == username@,
            r.password@ == password@,
            r.database is None,
            r.key@ == key@,
            r.salt@ == salt@,
    {
        let mut url = String::from_str("mongodb://");
        url.append(host);
        url.append(":");
        let digits = decimal(port);
        url.append(digits.as_str());
        url.append("/");
        url.append(db);
        DatabaseHandler {
            url,
            user: username.to_owned(),
            password: password.to_owned(),
            database: None,
            key: key.to_owned(),
            salt: salt.to_owned(),
        }
    }

    /// Connects the repository to an empty database called `database`.
    pub fn connect(&mut self, database: &str, _username: &str, _password: &str) -> (r:
        HandlerResult<()>)
        ensures
            r is Ok,
            final(self).settings_of(old(self)),
            final(self).stored() == Some(Seq::<RecordView>::empty()),
            final(self).database->0.name@ == database@,
    {
        self.database = Some(Database::new(database));
        Ok(())
    }

    /// Connects the repository to `database` as it is.
    pub fn attach(&mut self, database: Database)
        ensures
            final(self).settings_of(old(self)),
            final(self).database == Some(database),
    {
        self.database = Some(database);
    }

    /// The channel with the token `name`.
    pub fn get_channel(&self, name: &str) -> (r: HandlerResult<Channel>)
        ensures
            self.gives(r, |db: Seq<RecordView>| rules::get_channel(db, name@)),
    {
        match &self.database {
            None => Err(HandlerError::InternalError),
            Some(db) => {
                let step = db.consult(Step::get_channel(name));
                proof {
                    find_gives(db@, channel_with(name@), Reason::NoChannel);
                }
                outcome::channel(conclude(step))
            },
        }
    }

    /// The commands of `channel`; an empty list where it has none.
    pub fn get_commands(&self, channel: &str) -> (r: HandlerResult<Vec<Command>>)
        ensures
            self.gives(r, |db: Seq<RecordView>| rules::get_commands(db, channel@)),
    {
        match &self.database {
            None => Err(HandlerError::InternalError),
            Some(db) => {
                let step = db.consult(Step::get_commands(channel));
                proof {
                    list_gives(db@, commands_of(channel@), None);
                }
                outcome::command_list(conclude(step))
            },
        }
    }

    /// The command called `command` in `channel`.
    pub fn get_command(&self, channel: &str, command: &str) -> (r: HandlerResult<Command>)
        ensures
            self.gives(r, |db: Seq<RecordView>| rules::get_command(db, channel@, command@)),
    {
        match &self.database {
            None => Err(HandlerError::InternalError),
            Some(db) => {
                let step = db.consult(Step::get_command(channel, command));
                proof {
                    find_gives(db@, command_named(channel@, command@), Reason::NoCommand);
                }
                outcome::command(conclude(step))
            },
        }
    }

    /// Removes the command called `command` and every alias that stands for it.
    pub fn remove_command(&mut self, channel: &str, command: &str) -> (r: HandlerResult<()>)
        ensures
            final(self).follows(
                old(self),
                r,
                |db: Seq<RecordView>| rules::remove_command(db, channel@, command@),
            ),
    {
        match &mut self.database {
            None => Err(HandlerError::InternalError),
            Some(db) => {
                let ghost before = db@;
                proof {
                    first_from_is_first(before, command_named(channel@, command@), 0);
                }
                let step = db.advance(Step::remove_command(channel, command));
                let step = db.advance(step);
                let step = db.advance(step);
                outcome::done(conclude(step))
            },
        }
    }

    /// Replaces the response of the command called `name`; the rest of the command stays.
    pub fn update_command(&mut self, channel: &str, name: &str, command: PostCommand) -> (r: HandlerResult<()>)
        ensures
            final(self).follows(
                old(self),
                r,
                |db: Seq<RecordView>| rules::update_command(db, channel@, name@, command.response.deep_view()),
            ),
    {
        match &mut self.database {
            None => Err(HandlerError::InternalError),
            Some(db) => {
                let step = db.advance(Step::update_command(channel, name, command));
                let step = db.advance(step);
                outcome::done(conclude(step))
            },
        }
    }

    /// Applies the delta `count` to the use count of the command called `command` and returns the new count.
    pub fn update_count(&mut self, channel: &str, command: &str, count: UpdateCount) -> (r: HandlerResult<i32>)
        ensures
            final(self).follows(
                old(self),
                r,
                |db: Seq<RecordView>| rules::update_count(db, channel@, command@, count.count@),
            ),
    {
        match &mut self.database {
            None => Err(HandlerError::InternalError),
            Some(db) => {
                let ghost before = db@;
                proof {
                    first_from_is_first(before, command_named(channel@, command@), 0);
                }
                let step = db.advance(Step::update_count(channel, command, count));
                let step = db.advance(step);
                outcome::count(conclude(step))
            },
        }
    }

    /// Sets the enabled flag of the command called `name` and returns the flag that it had.
    pub fn update_command_state(&mut self, channel: &str, name: &str, enabled: bool) -> (r: HandlerResult<bool>)
        ensures
            final(self).follows(
                old(self),
                r,
                |db: Seq<RecordView>| rules::update_command_state(db, channel@, name@, enabled),
            ),
    {
        match &mut self.database {
            None => Err(HandlerError::InternalError),
            Some(db) => {
                let ghost before = db@;
                proof {
                    first_from_is_first(before, command_named(channel@, name@), 0);
                }
                let step = db.advance(Step::update_command_state(channel, name, enabled));
                let step = db.advance(step);
                outcome::previous(conclude(step))
            },
        }
    }

    /// The configuration of `channel`.
    pub fn get_config(&self, channel: &str) -> (r: HandlerResult<Config>)
        ensures
            self.gives(r, |db: Seq<RecordView>| rules::get_config(db, channel@)),
    {
        match &self.database {
            None => Err(HandlerError::InternalError),
            Some(db) => {
                let step = db.consult(Step::get_config(channel));
                proof {
                    find_gives(db@, config_of(channel@), Reason::NoChannel);
                }
                outcome::config(conclude(step))
            },
        }
    }

    /// The authorization of `channel` for `service`.
    pub fn get_service_auth(&self, channel: &str, service: &str) -> (r: HandlerResult<BotAuthorization>)
        ensures
            self.gives(r, |db: Seq<RecordView>| rules::get_service_auth(db, channel@, service@)),
    {
        match &self.database {
            None => Err(HandlerError::InternalError),
            Some(db) => {
                let step = db.consult(Step::get_service_auth(channel, service));
                proof {
                    find_gives(db@, authorization_for(channel@, service@), Reason::NoAuthorization);
                }
                outcome::authorization(conclude(step))
            },
        }
    }

    /// Stores the authorization of `channel` for `service` in the place of the stored one, or beside the others where there is none.
    pub fn update_service_auth(&mut self, channel: &str, service: &str, auth: PostServiceAuth) -> (r: HandlerResult<()>)
        ensures
            final(self).follows(
                old(self),
                r,
                |db: Seq<RecordView>| rules::update_service_auth(db, channel@, service@, auth.access@, auth.refresh.deep_view(), auth.expiration.deep_view()),
            ),
    {
        match &mut self.database {
            None => Err(HandlerError::InternalError),
            Some(db) => {
                let step = db.advance(Step::update_service_auth(channel, service, auth));
                outcome::done(conclude(step))
            },
        }
    }

    /// The quotes of `channel`, or those numbered `id`, of which there must be one.
    pub fn get_quote(&self, channel: &str, id: Option<u32>) -> (r: HandlerResult<Vec<Quote>>)
        ensures
            self.gives(r, |db: Seq<RecordView>| rules::get_quote(db, channel@, id)),
    {
        match &self.database {
            None => Err(HandlerError::InternalError),
            Some(db) => {
                let step = db.consult(Step::get_quote(channel, id));
                proof {
                    list_gives(db@, quotes_selected(channel@, id), if id is Some { Some(Reason::NoQuote) } else { None });
                }
                outcome::quote_list(conclude(step))
            },
        }
    }

    /// Stores a quote under the number of quotes of the channel plus one, and returns the number.
    pub fn create_quote(&mut self, channel: &str, quote: PostQuote) -> (r: HandlerResult<i64>)
        ensures
            final(self).follows(
                old(self),
                r,
                |db: Seq<RecordView>| rules::create_quote(db, channel@, quote.response.deep_view()),
            ),
    {
        match &mut self.database {
            None => Err(HandlerError::InternalError),
            Some(db) => {
                let step = db.advance(Step::create_quote(channel, quote));
                let step = db.advance(step);
                outcome::id(conclude(step))
            },
        }
    }

    /// Replaces the response of the quote numbered `id`.
    pub fn edit_quote(&mut self, channel: &str, id: u32, quote: PostQuote) -> (r: HandlerResult<()>)
        ensures
            final(self).follows(
                old(self),
                r,
                |db: Seq<RecordView>| rules::edit_quote(db, channel@, id, quote.response.deep_view()),
            ),
    {
        match &mut self.database {
            None => Err(HandlerError::InternalError),
            Some(db) => {
                let step = db.advance(Step::edit_quote(channel, id, quote));
                let step = db.advance(step);
                outcome::done(conclude(step))
            },
        }
    }

    /// Removes the quote numbered `quote`, if it is there.
    pub fn delete_quote(&mut self, channel: &str, quote: u32) -> (r: HandlerResult<()>)
        ensures
            final(self).follows(
                old(self),
                r,
                |db: Seq<RecordView>| rules::delete_quote(db, channel@, quote),
            ),
    {
        match &mut self.database {
            None => Err(HandlerError::InternalError),
            Some(db) => {
                let step = db.advance(Step::delete_quote(channel, quote));
                outcome::done(conclude(step))
            },
        }
    }

    /// Trusts `user` in `channel`; a conflict if the user is trusted already.
    pub fn create_trust(&mut self, channel: &str, user: &str) -> (r: HandlerResult<Trust>)
        ensures
            final(self).follows(
                old(self),
                r,
                |db: Seq<RecordView>| rules::create_trust(db, channel@, user@),
            ),
    {
        match &mut self.database {
            None => Err(HandlerError::InternalError),
            Some(db) => {
                let step = db.advance(Step::create_trust(channel, user));
                let step = db.advance(step);
                outcome::trust(conclude(step))
            },
        }
    }

    /// The trust of `user` in `channel`.
    pub fn get_trust(&self, channel: &str, user: &str) -> (r: HandlerResult<Trust>)
        ensures
            self.gives(r, |db: Seq<RecordView>| rules::get_trust(db, channel@, user@)),
    {
        match &self.database {
            None => Err(HandlerError::InternalError),
            Some(db) => {
                let step = db.consult(Step::get_trust(channel, user));
                proof {
                    find_gives(db@, trust_of(channel@, user@), Reason::NoTrust);
                }
                outcome::trust(conclude(step))
            },
        }
    }

    /// The trusts of `channel`; an empty list where it has none.
    pub fn get_trusts(&self, channel: &str) -> (r: HandlerResult<Vec<Trust>>)
        ensures
            self.gives(r, |db: Seq<RecordView>| rules::get_trusts(db, channel@)),
    {
        match &self.database {
            None => Err(HandlerError::InternalError),
            Some(db) => {
                let step = db.consult(Step::get_trusts(channel));
                proof {
                    list_gives(db@, trusts_of(channel@), None);
                }
                outcome::trust_list(conclude(step))
            },
        }
    }

    /// Removes the trust of `user`, which must be there.
    pub fn delete_trust(&mut self, channel: &str, user: &str) -> (r: HandlerResult<()>)
        ensures
            final(self).follows(
                old(self),
                r,
                |db: Seq<RecordView>| rules::delete_trust(db, channel@, user@),
            ),
    {
        match &mut self.database {
            None => Err(HandlerError::InternalError),
            Some(db) => {
                let step = db.advance(Step::delete_trust(channel, user));
                let step = db.advance(step);
                outcome::done(conclude(step))
            },
        }
    }

    /// Stores the alias `alias` for `command`, whether or not there is such a command.
    pub fn create_alias(&mut self, channel: &str, alias: &str, command: &str) -> (r: HandlerResult<Alias>)
        ensures
            final(self).follows(
                old(self),
                r,
                |db: Seq<RecordView>| rules::create_alias(db, channel@, alias@, command@),
            ),
    {
        match &mut self.database {
            None => Err(HandlerError::InternalError),
            Some(db) => {
                let step = db.advance(Step::create_alias(channel, alias, command));
                outcome::alias(conclude(step))
            },
        }
    }

    /// Removes the alias called `command`, if it is there.
    pub fn delete_alias(&mut self, channel: &str, command: &str) -> (r: HandlerResult<()>)
        ensures
            final(self).follows(
                old(self),
                r,
                |db: Seq<RecordView>| rules::delete_alias(db, channel@, command@),
            ),
    {
        match &mut self.database {
            None => Err(HandlerError::InternalError),
            Some(db) => {
                let step = db.advance(Step::delete_alias(channel, command));
                outcome::done(conclude(step))
            },
        }
    }

    /// The social links of `channel`, of which there must be one.
    pub fn get_socials(&self, channel: &str) -> (r: HandlerResult<Vec<SocialService>>)
        ensures
            self.gives(r, |db: Seq<RecordView>| rules::get_socials(db, channel@)),
    {
        match &self.database {
            None => Err(HandlerError::InternalError),
            Some(db) => {
                let step = db.consult(Step::get_socials(channel));
                proof {
                    list_gives(db@, socials_of(channel@), Some(Reason::NoSocials));
                }
                outcome::social_list(conclude(step))
            },
        }
    }

    /// The link of `channel` to `service`.
    pub fn get_social_service(&self, channel: &str, service: &str) -> (r: HandlerResult<SocialService>)
        ensures
            self.gives(r, |db: Seq<RecordView>| rules::get_social_service(db, channel@, service@)),
    {
        match &self.database {
            None => Err(HandlerError::InternalError),
            Some(db) => {
                let step = db.consult(Step::get_social_service(channel, service));
                proof {
                    find_gives(db@, social_of(channel@, service@), Reason::NoSocialService);
                }
                outcome::social(conclude(step))
            },
        }
    }

    /// Stores a link of `channel` to `service`, beside any that is there.
    pub fn create_social_service(&mut self, channel: &str, service: &str, url: &str) -> (r: HandlerResult<SocialService>)
        ensures
            final(self).follows(
                old(self),
                r,
                |db: Seq<RecordView>| rules::create_social_service(db, channel@, service@, url@),
            ),
    {
        match &mut self.database {
            None => Err(HandlerError::InternalError),
            Some(db) => {
                let step = db.advance(Step::create_social_service(channel, service, url));
                outcome::social(conclude(step))
            },
        }
    }

    /// Removes the first link of `channel` to `service`, if there is one.
    pub fn remove_social(&mut self, channel: &str, service: &str) -> (r: HandlerResult<()>)
        ensures
            final(self).follows(
                old(self),
                r,
                |db: Seq<RecordView>| rules::remove_social(db, channel@, service@),
            ),
    {
        match &mut self.database {
            None => Err(HandlerError::InternalError),
            Some(db) => {
                let step = db.advance(Step::remove_social(channel, service));
                outcome::done(conclude(step))
            },
        }
    }

    /// The offences of `user` on `service` in `channel`.
    pub fn get_offences(&self, channel: &str, service: &str, user: &str) -> (r: HandlerResult<UserOffences>)
        ensures
            self.gives(r, |db: Seq<RecordView>| rules::get_offences(db, channel@, service@, user@)),
    {
        match &self.database {
            None => Err(HandlerError::InternalError),
            Some(db) => {
                let step = db.consult(Step::get_offences(channel, service, user));
                proof {
                    find_gives(db@, offences_of(channel@, service@, user@), Reason::NoOffences);
                }
                outcome::offences(conclude(step))
            },
        }
    }

    /// Stores an empty offence record for `user` on `service`.
    pub fn create_offence(&mut self, channel: &str, service: &str, user: &str) -> (r: HandlerResult<UserOffences>)
        ensures
            final(self).follows(
                old(self),
                r,
                |db: Seq<RecordView>| rules::create_offence(db, channel@, service@, user@),
            ),
    {
        match &mut self.database {
            None => Err(HandlerError::InternalError),
            Some(db) => {
                let step = db.advance(Step::create_offence(channel, service, user));
                outcome::offences(conclude(step))
            },
        }
    }

    /// Signs the channel `channel.name` up: a conflict if the token is
    /// taken; an internal error if the password cannot be hashed or no
    /// identifier can be made; else the channel is stored with the hash of
    /// its password, a fresh identifier and the time, and returned.
    ///
    /// Whether an identifier can be made is for the clock to decide: the
    /// signup does what the rule says with the identifier of the channel
    /// returned, or what it says without one.
    pub fn create_channel(&mut self, channel: PostChannel) -> (r: HandlerResult<Channel>)
        ensures
            final(self).follows(
                old(self),
                r,
                |db: Seq<RecordView>|
                    rules::create_channel(
                        db,
                        channel.name@,
                        channel.password@,
                        old(self).key@,
                        old(self).salt@,
                        Some(identifier_in(r)),
                        time_in(r),
                    ),
            ) || final(self).follows(
                old(self),
                r,
                |db: Seq<RecordView>|
                    rules::create_channel(
                        db,
                        channel.name@,
                        channel.password@,
                        old(self).key@,
                        old(self).salt@,
                        None,
                        time_in(r),
                    ),
            ),
    {
        let step = Step::create_channel(channel, self.key.as_str(), self.salt.as_str());
        match &mut self.database {
            None => Err(HandlerError::InternalError),
            Some(db) => {
                let step = db.advance(step);
                let step = db.advance(step);
                outcome::channel(conclude(step))
            },
        }
    }

    /// Creates the command called `name` that `command` defines: a conflict
    /// if the channel has a command of that name; else the command is
    /// stored, never used and enabled, and returned.
    pub fn create_command(&mut self, channel: &str, name: &str, command: PostCommand) -> (r:
        HandlerResult<Command>)
        ensures
            final(self).follows(
                old(self),
                r,
                |db: Seq<RecordView>|
                    rules::create_command(
                        db,
                        Command::fresh(
                            command.response.deep_view(),
                            command.services.deep_view(),
                            command.role@,
                            channel@,
                            name@,
                            created_in(r),
                        ),
                    ),
            ),
    {
        match &mut self.database {
            None => Err(HandlerError::InternalError),
            Some(db) => {
                let step = db.advance(Step::create_command(channel, name, command));
                let step = db.advance(step);
                outcome::command(conclude(step))
            },
        }
    }

    /// The state of the bot of `channel`: for `service`, or the first that
    /// is stored if none is named.
    pub fn get_channel_state(&self, channel: &str, service: Option<String>) -> (r: HandlerResult<
        BotState,
    >)
        ensures
            self.gives(
                r,
                |db: Seq<RecordView>| rules::get_channel_state(db, channel@, service.deep_view()),
            ),
    {
        match &self.database {
            None => Err(HandlerError::InternalError),
            Some(db) => {
                let step = db.consult(Step::get_channel_state(channel, service));
                proof {
                    find_gives(db@, state_of(channel@, service.deep_view()), Reason::NoState);
                }
                outcome::state(conclude(step))
            },
        }
    }

    /// One of the quotes of `channel`, drawn at random.
    pub fn get_random_quote(&self, channel: &str) -> (r: HandlerResult<Quote>)
        ensures
            match self.stored() {
                Some(db) => match r {
                    Ok(quote) => rules::random_quote(db, channel@, Ok(quote@)),
                    Err(error) => rules::random_quote(db, channel@, Err(error@)),
                },
                None => agrees(r, Err(HandlerErrorView::InternalError)),
            },
    {
        match &self.database {
            None => Err(HandlerError::InternalError),
            Some(db) => {
                let step = db.consult(Step::get_random_quote(channel));
                proof {
                    selected_are_of_collection(db@, quotes_of(channel@));
                }
                outcome::quote(conclude(step))
            },
        }
    }

    /// The command that the alias called `command` stands for.
    pub fn get_alias(&self, channel: &str, command: &str) -> (r: HandlerResult<Command>)
        ensures
            self.gives(r, |db: Seq<RecordView>| rules::get_alias(db, channel@, command@)),
    {
        match &self.database {
            None => Err(HandlerError::InternalError),
            Some(db) => {
                let step = db.consult(Step::get_alias(channel, command));
                let step = db.consult(step);
                proof {
                    let key = alias_named(channel@, command@);
                    first_from_is_first(db@, key, 0);
                    match find_one(db@, key) {
                        Some(alias) => {
                            find_gives(
                                db@,
                                command_named(channel@, alias->Alias_0.command),
                                Reason::NoCommand,
                            );
                        },
                        None => {},
                    }
                }
                outcome::command(conclude(step))
            },
        }
    }

    /// One counter of the offences of `user`; 0 for a counter that does not
    /// exist.
    pub fn get_offence(&self, channel: &str, service: &str, user: &str, ty: &str) -> (r:
        HandlerResult<i32>)
        ensures
            self.gives(
                r,
                |db: Seq<RecordView>| rules::get_offence(db, channel@, service@, user@, ty@),
            ),
    {
        match self.get_offences(channel, service, user) {
            Ok(record) => Ok(record.count(ty)),
            Err(error) => Err(error),
        }
    }

    /// Applies the delta `count` to the counter `offence_type` of the
    /// offences of `user`, which are created empty if there are none, and
    /// returns the changed record.
    pub fn update_offence(
        &mut self,
        channel: &str,
        service: &str,
        user: &str,
        offence_type: &str,
        count: UpdateCount,
    ) -> (r: HandlerResult<UserOffences>)
        ensures
            final(self).follows(
                old(self),
                r,
                |db: Seq<RecordView>|
                    rules::update_offence(
                        db,
                        channel@,
                        service@,
                        user@,
                        offence_type@,
                        count.count@,
                    ),
            ),
    {
        match &mut self.database {
            None => Err(HandlerError::InternalError),
            Some(db) => {
                let ghost before = db@;
                proof {
                    let key = offences_of(channel@, service@, user@);
                    first_from_is_first(before, key, 0);
                    match find_one(before, key) {
                        Some(record) => {
                            matches_three(
                                record,
                                Collection::Offences,
                                Field::Channel,
                                channel@,
                                Field::User,
                                user@,
                                Field::Service,
                                service@,
                            );
                        },
                        None => {},
                    }
                }
                let step = db.advance(
                    Step::update_offence(channel, service, user, offence_type, count),
                );
                let step = db.advance(step);
                let step = db.advance(step);
                outcome::offences(conclude(step))
            },
        }
    }

    /// The commands that the aliases of `channel` stand for, in the order
    /// of the aliases; `NotFound` if the command of any alias is not there.
    pub fn get_aliases(&self, channel: &str) -> (r: HandlerResult<Vec<Command>>)
        ensures
            self.gives(r, |db: Seq<RecordView>| rules::get_aliases(db, channel@)),
    {
        match &self.database {
            None => Err(HandlerError::InternalError),
            Some(db) => {
                let ghost aliases = find_all(db@, aliases_of(channel@));
                let ghost mut k: int = 0;
                let mut step = db.consult(Step::get_aliases(channel));
                proof {
                    selected_are_of_collection(db@, aliases_of(channel@));
                    resolving_starts(db@, channel@, aliases);
                }
                loop
                    invariant
                        aliases == find_all(db@, aliases_of(channel@)),
                        all_of(aliases, Collection::Aliases),
                        0 <= k <= aliases.len(),
                        resolving(db@, channel@, aliases, k, step@),
                        self.database == Some(*db),
                    decreases
                            aliases.len() - k + if step is Ask {
                                1int
                            } else {
                                0int
                            },
                {
                    match step {
                        Step::Finish(outcome) => {
                            proof {
                                resolving_ends(
                                    db@,
                                    channel@,
                                    aliases,
                                    k,
                                    StepView::Finish(outcome_view(outcome)),
                                );
                            }
                            return outcome::command_list(outcome);
                        },
                        asking => {
                            proof {
                                resolving_goes_on(db@, channel@, aliases, k, asking@);
                                if target(db@, channel@, aliases[k]) is Some {
                                    k = k + 1;
                                }
                            }
                            step = db.consult(asking);
                        },
                    }
                }
            },
        }
    }
}

} // verus!
