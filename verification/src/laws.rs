//! What holds of the operations of the repository taken together.

use crate::delta::{
    all_digits, delta_outcome, digits_value, integer_of, unsigned_part, DeltaError,
};
use crate::errors::{HandlerErrorView, Reason};
use crate::hasher::{argon2_accepts, argon2_encoding};
use crate::keys::{
    alias_named, aliases_to, authorization_for, channel_with, command_named, matches_one,
    matches_text_number, matches_three, matches_two, offences_of, quote_numbered, quotes_of,
    social_of, trust_of,
};
use crate::model::{
    find_all, find_one, first_from_is_first, first_index, first_index_is, has_match, kept,
    kept_is_part, kept_push, without_first,
};
use crate::rules;
use crate::steps::{authorization_record, stored_token};
use crate::machine::{resumed, PendingView, StepView};
use crate::store::{Collection, Field, FilterView, RecordView, ReplyView};
use crate::structures::{
    AliasView, BotAuthorizationView, Channel, CommandView, MessageView, QuoteView,
    SocialServiceView, TrustView, UserOffencesView,
};
use vstd::prelude::*;

verus! {

/// A record that joins the database is found under every filter that
/// selects it, unless an older record is: the older one is found first.
pub proof fn joined_is_found(db: Seq<RecordView>, record: RecordView, filter: FilterView)
    requires
        record.matches(filter),
    ensures
        has_match(db.push(record), filter),
        find_one(db.push(record), filter) == if has_match(db, filter) {
            find_one(db, filter)
        } else {
            Some(record)
        },
{
    let after = db.push(record);
    first_from_is_first(db, filter, 0);
    let i = first_index(db, filter);
    assert forall|k: int| 0 <= k < i implies !(#[trigger] after[k]).matches(filter) by {
        assert(after[k] == db[k]);
    }
    if i < db.len() {
        assert(after[i] == db[i]);
    }
    first_index_is(after, filter, i);
}

/// Signing up twice under one token: where the token is not taken, the
/// password can be hashed and an identifier is made, the first signup
/// succeeds and the second is a conflict that leaves the database as the
/// first left it.
pub proof fn second_signup_conflicts(
    db: Seq<RecordView>,
    name: Seq<char>,
    first_password: Seq<char>,
    second_password: Seq<char>,
    pepper: Seq<char>,
    salt: Seq<char>,
    first_id: Seq<u8>,
    first_time: Seq<char>,
    second_id: Option<Seq<u8>>,
    second_time: Seq<char>,
)
    requires
        !has_match(db, channel_with(name)),
        argon2_accepts(first_password, salt, pepper),
    ensures
        ({
            let first = rules::create_channel(
                db,
                name,
                first_password,
                pepper,
                salt,
                Some(first_id),
                first_time,
            );
            let second = rules::create_channel(
                first.db,
                name,
                second_password,
                pepper,
                salt,
                second_id,
                second_time,
            );
            &&& first.result is Ok
            &&& second.result == Err::<crate::structures::ChannelView, HandlerErrorView>(
                HandlerErrorView::Conflict(Reason::ChannelExists),
            )
            &&& second.db == first.db
        }),
{
    let channel = Channel::signed_up(
        name,
        argon2_encoding(first_password, salt, pepper),
        first_id,
        first_time,
    );
    matches_one(RecordView::Channel(channel), Collection::Channels, Field::Token, name);
    joined_is_found(db, RecordView::Channel(channel), channel_with(name));
}

/// A channel that was signed up is read back as it was written.
pub proof fn channel_round_trip(
    db: Seq<RecordView>,
    name: Seq<char>,
    password: Seq<char>,
    pepper: Seq<char>,
    salt: Seq<char>,
    id: Option<Seq<u8>>,
    now: Seq<char>,
)
    requires
        rules::create_channel(db, name, password, pepper, salt, id, now).result is Ok,
    ensures
        ({
            let made = rules::create_channel(db, name, password, pepper, salt, id, now);
            &&& rules::get_channel(made.db, name) == made.result
            &&& made.result->Ok_0.token == name
            &&& id == Some(made.result->Ok_0.id)
            &&& made.result->Ok_0.created_at == now
            &&& made.result->Ok_0.updated_at == now
        }),
{
    let made = rules::create_channel(db, name, password, pepper, salt, id, now);
    let channel = made.result->Ok_0;
    matches_one(RecordView::Channel(channel), Collection::Channels, Field::Token, name);
    joined_is_found(db, RecordView::Channel(channel), channel_with(name));
}

/// A command that was created is read back as it was written, and a second
/// creation under its name is a conflict.
pub proof fn command_round_trip(db: Seq<RecordView>, command: CommandView)
    requires
        rules::create_command(db, command).result is Ok,
    ensures
        ({
            let made = rules::create_command(db, command);
            &&& rules::get_command(made.db, command.channel, command.name) == Ok::<
                _,
                HandlerErrorView,
            >(command)
            &&& rules::create_command(made.db, command).result == Err::<
                CommandView,
                HandlerErrorView,
            >(
                HandlerErrorView::Conflict(Reason::CommandExists),
            )
        }),
{
    matches_two(
        RecordView::Command(command),
        Collection::Commands,
        Field::Channel,
        command.channel,
        Field::Name,
        command.name,
    );
    joined_is_found(
        db,
        RecordView::Command(command),
        command_named(command.channel, command.name),
    );
}

/// Removing a command takes its aliases with it: an alias whose every
/// record stands for the command resolves to nothing afterwards.
pub proof fn removal_cascades(
    db: Seq<RecordView>,
    channel: Seq<char>,
    name: Seq<char>,
    alias: Seq<char>,
)
    requires
        forall|i: int|
            0 <= i < db.len() && (#[trigger] db[i]).matches(alias_named(channel, alias))
                ==> db[i]->Alias_0.command == name,
    ensures
        rules::get_alias(rules::remove_command(db, channel, name).db, channel, alias) is Err,
        rules::get_alias(rules::remove_command(db, channel, name).db, channel, alias)->Err_0
            is NotFound,
{
    let command_key = command_named(channel, name);
    let alias_key = alias_named(channel, alias);
    let after = rules::remove_command(db, channel, name).db;
    first_from_is_first(after, alias_key, 0);
    first_from_is_first(db, command_key, 0);
    if has_match(db, command_key) {
        if has_match(after, alias_key) {
            let found = after[first_index(after, alias_key)];
            let rest = without_first(db, command_key);
            kept_is_part(rest, aliases_to(channel, name), false);
            assert(kept(rest, aliases_to(channel, name), false).contains(found));
            assert(rest.contains(found));
            let j = choose|j: int| 0 <= j < rest.len() && rest[j] == found;
            let i = first_index(db, command_key);
            assert(rest[j] == if j < i {
                db[j]
            } else {
                db[j + 1]
            });
            matches_two(
                found,
                Collection::Aliases,
                Field::Channel,
                channel,
                Field::Alias,
                alias,
            );
            matches_two(
                found,
                Collection::Aliases,
                Field::Channel,
                channel,
                Field::Command,
                name,
            );
            assert(found->Alias_0.command == name);
            assert(false);
        }
    } else {
        if has_match(db, alias_key) {
            let found = db[first_index(db, alias_key)];
            assert(found->Alias_0.command == name);
        }
    }
}

/// Adding a record adds one to the count of every filter that selects it.
pub proof fn joined_is_counted(db: Seq<RecordView>, record: RecordView, filter: FilterView)
    requires
        record.matches(filter),
    ensures
        find_all(db.push(record), filter) == find_all(db, filter).push(record),
{
    kept_push(db, record, filter, true);
}

/// Quotes are numbered from one: in a channel without quotes the first
/// quote gets the number 1 and the next the number 2.
pub proof fn quotes_are_numbered_from_one(
    db: Seq<RecordView>,
    channel: Seq<char>,
    first: Seq<MessageView>,
    second: Seq<MessageView>,
)
    requires
        find_all(db, quotes_of(channel)).len() == 0,
    ensures
        rules::create_quote(db, channel, first).result == Ok::<i64, HandlerErrorView>(1),
        rules::create_quote(rules::create_quote(db, channel, first).db, channel, second).result
            == Ok::<i64, HandlerErrorView>(2),
{
    let quote = RecordView::Quote(QuoteView { quote_id: 1, response: first, channel });
    matches_one(quote, Collection::Quotes, Field::Channel, channel);
    joined_is_counted(db, quote, quotes_of(channel));
}

/// A quote that was created is the last of the quotes read under its
/// number.
pub proof fn quote_round_trip(db: Seq<RecordView>, channel: Seq<char>, response: Seq<MessageView>)
    requires
        rules::create_quote(db, channel, response).result is Ok,
        rules::create_quote(db, channel, response).result->Ok_0 <= u32::MAX,
    ensures
        ({
            let made = rules::create_quote(db, channel, response);
            let number = made.result->Ok_0;
            let read = rules::get_quote(made.db, channel, Some(number as u32));
            &&& read is Ok
            &&& read->Ok_0.len() > 0
            &&& read->Ok_0.last() == QuoteView { quote_id: number, response, channel }
        }),
{
    let made = rules::create_quote(db, channel, response);
    let number = made.result->Ok_0;
    let quote = RecordView::Quote(QuoteView { quote_id: number, response, channel });
    matches_text_number(
        quote,
        Collection::Quotes,
        Field::Channel,
        channel,
        Field::QuoteId,
        number,
    );
    joined_is_counted(db, quote, quote_numbered(channel, number));
}

/// Trusting a user twice: the second time is a conflict, "already
/// trusted", whatever the first came to.
pub proof fn second_trust_conflicts(db: Seq<RecordView>, channel: Seq<char>, user: Seq<char>)
    ensures
        rules::create_trust(rules::create_trust(db, channel, user).db, channel, user).result
            == Err::<TrustView, HandlerErrorView>(
            HandlerErrorView::Conflict(Reason::AlreadyTrusted),
        ),
        Reason::AlreadyTrusted.text() == "already trusted"@,
{
    let trust = RecordView::Trust(TrustView { trusted: user, channel });
    matches_two(trust, Collection::Trusts, Field::Channel, channel, Field::Trusted, user);
    joined_is_found(db, trust, trust_of(channel, user));
}

/// Removing a trust that is not there is `NotFound` and changes nothing.
pub proof fn missing_trust_is_not_removed(db: Seq<RecordView>, channel: Seq<char>, user: Seq<char>)
    requires
        !has_match(db, trust_of(channel, user)),
    ensures
        rules::delete_trust(db, channel, user).result == Err::<(), HandlerErrorView>(
            HandlerErrorView::NotFound(Reason::TrustDoesNotExist),
        ),
        rules::delete_trust(db, channel, user).db == db,
        rules::get_trust(db, channel, user) is Err,
{
}

/// A trust that was created is read back as it was written.
pub proof fn trust_round_trip(db: Seq<RecordView>, channel: Seq<char>, user: Seq<char>)
    requires
        rules::create_trust(db, channel, user).result is Ok,
    ensures
        rules::get_trust(rules::create_trust(db, channel, user).db, channel, user)
            == rules::create_trust(db, channel, user).result,
        rules::create_trust(db, channel, user).result->Ok_0 == (TrustView {
            trusted: user,
            channel,
        }),
{
    let trust = RecordView::Trust(TrustView { trusted: user, channel });
    matches_two(trust, Collection::Trusts, Field::Channel, channel, Field::Trusted, user);
    joined_is_found(db, trust, trust_of(channel, user));
}

/// A social link that was created is read back as it was written, where
/// the channel had no link to the service before.
pub proof fn social_round_trip(
    db: Seq<RecordView>,
    channel: Seq<char>,
    service: Seq<char>,
    url: Seq<char>,
)
    requires
        !has_match(db, social_of(channel, service)),
    ensures
        rules::get_social_service(
            rules::create_social_service(db, channel, service, url).db,
            channel,
            service,
        ) == rules::create_social_service(db, channel, service, url).result,
        rules::create_social_service(db, channel, service, url).result == Ok::<
            _,
            HandlerErrorView,
        >(SocialServiceView { channel, service, url }),
{
    let social = RecordView::Social(SocialServiceView { channel, service, url });
    matches_two(social, Collection::Socials, Field::Channel, channel, Field::Service, service);
    joined_is_found(db, social, social_of(channel, service));
}

/// An alias that was created resolves to the command that it stands for,
/// where that command is there and the channel had no alias of that name.
pub proof fn alias_round_trip(
    db: Seq<RecordView>,
    channel: Seq<char>,
    alias: Seq<char>,
    command: Seq<char>,
)
    requires
        !has_match(db, alias_named(channel, alias)),
        has_match(db, command_named(channel, command)),
    ensures
        rules::create_alias(db, channel, alias, command).result == Ok::<_, HandlerErrorView>(
            AliasView { channel, command, alias },
        ),
        rules::get_alias(rules::create_alias(db, channel, alias, command).db, channel, alias)
            == rules::get_command(db, channel, command),
{
    let made = RecordView::Alias(AliasView { channel, command, alias });
    matches_two(made, Collection::Aliases, Field::Channel, channel, Field::Alias, alias);
    joined_is_found(db, made, alias_named(channel, alias));
    let key = command_named(channel, command);
    first_from_is_first(db, key, 0);
    let after = db.push(made);
    let i = first_index(db, key);
    assert forall|k: int| 0 <= k < i implies !(#[trigger] after[k]).matches(key) by {
        assert(after[k] == db[k]);
    }
    assert(after[i] == db[i]);
    first_index_is(after, key, i);
}

/// An authorization that was stored is read back as it was stored, with an
/// empty string for each token that was not given.
pub proof fn authorization_round_trip(
    db: Seq<RecordView>,
    channel: Seq<char>,
    service: Seq<char>,
    access: Seq<char>,
    refresh: Option<Seq<char>>,
    expiration: Option<Seq<char>>,
)
    ensures
        rules::get_service_auth(
            rules::update_service_auth(db, channel, service, access, refresh, expiration).db,
            channel,
            service,
        ) == Ok::<_, HandlerErrorView>(
            BotAuthorizationView {
                access,
                refresh: stored_token(refresh),
                expiration: stored_token(expiration),
            },
        ),
{
    let key = authorization_for(channel, service);
    let record = authorization_record(channel, service, access, refresh, expiration);
    matches_two(record, Collection::Authorization, Field::Service, service, Field::Channel, channel);
    first_from_is_first(db, key, 0);
    let after = rules::update_service_auth(db, channel, service, access, refresh, expiration).db;
    if has_match(db, key) {
        let i = first_index(db, key);
        assert forall|k: int| 0 <= k < i implies !(#[trigger] after[k]).matches(key) by {
            assert(after[k] == db[k]);
        }
        first_index_is(after, key, i);
    } else {
        joined_is_found(db, record, key);
    }
}

/// An offence record that was created is read back empty, where the user
/// had none before.
pub proof fn offences_round_trip(
    db: Seq<RecordView>,
    channel: Seq<char>,
    service: Seq<char>,
    user: Seq<char>,
)
    requires
        !has_match(db, offences_of(channel, service, user)),
    ensures
        rules::get_offences(
            rules::create_offence(db, channel, service, user).db,
            channel,
            service,
            user,
        ) == rules::create_offence(db, channel, service, user).result,
        rules::create_offence(db, channel, service, user).result == Ok::<_, HandlerErrorView>(
            UserOffencesView::zero(channel, service, user),
        ),
{
    let record = RecordView::Offences(UserOffencesView::zero(channel, service, user));
    matches_three(
        record,
        Collection::Offences,
        Field::Channel,
        channel,
        Field::User,
        user,
        Field::Service,
        service,
    );
    joined_is_found(db, record, offences_of(channel, service, user));
}

/// The first offence of a user: a user without a record has no offences
/// to read; counting one `caps` offence creates the record with that one
/// offence and no other, and the record is read back so.
pub proof fn first_offence_creates_the_record(
    db: Seq<RecordView>,
    channel: Seq<char>,
    service: Seq<char>,
    user: Seq<char>,
)
    requires
        !has_match(db, offences_of(channel, service, user)),
    ensures
        rules::get_offences(db, channel, service, user) == Err::<
            UserOffencesView,
            HandlerErrorView,
        >(
            HandlerErrorView::NotFound(Reason::NoOffences),
        ),
        ({
            let counted = rules::update_offence(db, channel, service, user, "caps"@, "+1"@);
            let record = UserOffencesView { channel, service, user, caps: 1, emoji: 0, urls: 0 };
            &&& counted.result == Ok::<_, HandlerErrorView>(record)
            &&& rules::get_offences(counted.db, channel, service, user) == Ok::<
                _,
                HandlerErrorView,
            >(record)
        }),
{
    one_more(0);
    let key = offences_of(channel, service, user);
    let zero = RecordView::Offences(UserOffencesView::zero(channel, service, user));
    let record = RecordView::Offences(
        UserOffencesView { channel, service, user, caps: 1, emoji: 0, urls: 0 },
    );
    matches_three(
        zero,
        Collection::Offences,
        Field::Channel,
        channel,
        Field::User,
        user,
        Field::Service,
        service,
    );
    matches_three(
        record,
        Collection::Offences,
        Field::Channel,
        channel,
        Field::User,
        user,
        Field::Service,
        service,
    );
    joined_is_found(db, zero, key);
    let base = db.push(zero);
    first_from_is_first(base, key, 0);
    first_from_is_first(db, key, 0);
    assert(first_index(base, key) == db.len()) by {
        first_index_is(base, key, db.len() as int);
    }
    let after = base.update(db.len() as int, record);
    assert forall|k: int| 0 <= k < db.len() implies !(#[trigger] after[k]).matches(key) by {
        assert(after[k] == db[k]);
    }
    first_index_is(after, key, db.len() as int);
}

/// The delta `+1` adds one to a counter that has room for it.
pub proof fn one_more(current: int)
    requires
        i32::MIN <= current + 1 <= i32::MAX,
    ensures
        delta_outcome(current, "+1"@) == Ok::<int, DeltaError>(current + 1),
{
    reveal_strlit("+1");
    let text = "+1"@;
    let digits = text.subrange(1, 2);
    assert(digits.len() == 1 && digits[0] == '1');
    assert(unsigned_part(digits) == digits);
    assert(all_digits(digits));
    assert(digits.drop_last().len() == 0);
    assert(digits_value(digits.drop_last()) == 0);
    assert(digits_value(digits) == 1);
    assert(integer_of(digits) == Some(1int));
}


/// A delta that sets a counter gives the same count whatever the counter
/// held.
pub proof fn set_ignores_the_counter(first: int, second: int, text: Seq<char>)
    requires
        text.len() > 0,
        text[0] == '@',
    ensures
        delta_outcome(first, text) == delta_outcome(second, text),
{
}

/// A failure of the database ends every operation with that failure, as
/// it came.
pub proof fn database_failure_is_handed_on(pending: PendingView, failure: Seq<char>)
    ensures
        resumed(pending, ReplyView::Failed(failure)) == StepView::Finish(
            Err(HandlerErrorView::DatabaseError(failure)),
        ),
{
}


/// How far an operation that stands at `pending` is from its end, as a
/// pair that is compared first by its first part: while the aliases of a
/// channel are not yet listed, nothing bounds the queries to come; after
/// that, the second part bounds them.
pub open spec fn distance(pending: PendingView) -> (nat, nat) {
    match pending {
        PendingView::Found { .. } => (0, 1),
        PendingView::Listed { .. } => (0, 1),
        PendingView::Absent { .. } => (0, 2),
        PendingView::Present { writes, .. } => (0, writes.len() + 1),
        PendingView::Writes { writes, .. } => (0, writes.len() + 1),
        PendingView::Signup { .. } => (0, 2),
        PendingView::Recount { .. } => (0, 2),
        PendingView::Toggle { .. } => (0, 2),
        PendingView::Number { .. } => (0, 2),
        PendingView::Target { .. } => (0, 2),
        PendingView::Targets { .. } => (1, 0),
        PendingView::Resolving { aliases, .. } => (0, aliases.len() + 1),
        PendingView::Offence { .. } => (0, 3),
        PendingView::OffenceStored { .. } => (0, 2),
    }
}

/// Whether the distance `near` is less than the distance `far`.
pub open spec fn nearer(near: (nat, nat), far: (nat, nat)) -> bool {
    near.0 < far.0 || (near.0 == far.0 && near.1 < far.1)
}

/// Every operation ends: whatever the database replies, the operation is
/// over or nearer to its end than it was.
pub proof fn every_reply_brings_the_end_nearer(pending: PendingView, reply: ReplyView)
    ensures
        match resumed(pending, reply) {
            StepView::Finish(_) => true,
            StepView::Ask(_, next) => nearer(distance(next), distance(pending)),
        },
{
}

} // verus!
