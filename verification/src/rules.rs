//! What every operation of the repository returns and how it changes the
//! database, stated on the database as the sequence of its records.

use crate::delta::delta_outcome;
use crate::errors::{HandlerErrorView, Reason};
use crate::hasher::hash_outcome;
use crate::keys::{
    alias_named, aliases_of, aliases_to, authorization_for, channel_with, command_named,
    commands_of, config_of, offences_of, quote_numbered, quotes_of, quotes_selected, social_of,
    socials_of, state_of, trust_of, trusts_of,
};
use crate::machine::delta_error;
use crate::model::{
    find_all, find_one, has_match, with_patch, with_replacement, with_upsert, without_all,
    without_first,
};
use crate::steps::authorization_record;
use crate::store::{FilterView, PatchView, RecordView};
use crate::structures::{
    AliasView, BotAuthorizationView, BotStateView, Channel, ChannelView, CommandView, ConfigView,
    MessageView, QuoteView, SocialServiceView, TrustView, UserOffencesView,
};
use vstd::prelude::*;

verus! {

/// The result of an operation.
pub type Verdict<T> = Result<T, HandlerErrorView>;

/// The result of an operation together with the database that it leaves.
pub struct Effect<T> {
    pub db: Seq<RecordView>,
    pub result: Verdict<T>,
}

/// The first record that `filter` selects, or the error `missing`.
pub open spec fn found(db: Seq<RecordView>, filter: FilterView, missing: Reason) -> Verdict<
    RecordView,
> {
    match find_one(db, filter) {
        Some(record) => Ok(record),
        None => Err(HandlerErrorView::NotFound(missing)),
    }
}

/// The commands among `records`, which are all commands.
pub open spec fn commands(records: Seq<RecordView>) -> Seq<CommandView> {
    Seq::new(records.len(), |i: int| records[i]->Command_0)
}

/// The quotes among `records`, which are all quotes.
pub open spec fn quotes(records: Seq<RecordView>) -> Seq<QuoteView> {
    Seq::new(records.len(), |i: int| records[i]->Quote_0)
}

/// The trusts among `records`, which are all trusts.
pub open spec fn trusts(records: Seq<RecordView>) -> Seq<TrustView> {
    Seq::new(records.len(), |i: int| records[i]->Trust_0)
}

/// The social links among `records`, which are all social links.
pub open spec fn socials(records: Seq<RecordView>) -> Seq<SocialServiceView> {
    Seq::new(records.len(), |i: int| records[i]->Social_0)
}

/// `get_channel`: the channel with the token `name`.
pub open spec fn get_channel(db: Seq<RecordView>, name: Seq<char>) -> Verdict<ChannelView> {
    match found(db, channel_with(name), Reason::NoChannel) {
        Ok(record) => Ok(record->Channel_0),
        Err(error) => Err(error),
    }
}

/// `create_channel`: a conflict if the token is taken; an internal error if
/// the password cannot be hashed or no identifier could be made; else the
/// new channel joins the database.
pub open spec fn create_channel(
    db: Seq<RecordView>,
    name: Seq<char>,
    password: Seq<char>,
    pepper: Seq<char>,
    salt: Seq<char>,
    id: Option<Seq<u8>>,
    now: Seq<char>,
) -> Effect<ChannelView> {
    if has_match(db, channel_with(name)) {
        Effect { db, result: Err(HandlerErrorView::Conflict(Reason::ChannelExists)) }
    } else {
        match (hash_outcome(password, pepper, salt), id) {
            (Ok(hash), Some(bytes)) => {
                let channel = Channel::signed_up(name, hash, bytes, now);
                Effect { db: db.push(RecordView::Channel(channel)), result: Ok(channel) }
            },
            _ => Effect { db, result: Err(HandlerErrorView::InternalError) },
        }
    }
}

/// `get_commands`: the commands of `channel`, possibly none.
pub open spec fn get_commands(db: Seq<RecordView>, channel: Seq<char>) -> Verdict<Seq<CommandView>> {
    Ok(commands(find_all(db, commands_of(channel))))
}

/// `get_command`: the command called `name`.
pub open spec fn get_command(db: Seq<RecordView>, channel: Seq<char>, name: Seq<char>) -> Verdict<
    CommandView,
> {
    match found(db, command_named(channel, name), Reason::NoCommand) {
        Ok(record) => Ok(record->Command_0),
        Err(error) => Err(error),
    }
}

/// `create_command`: a conflict if the channel has a command of that name;
/// else the command joins the database.
pub open spec fn create_command(db: Seq<RecordView>, command: CommandView) -> Effect<CommandView> {
    if has_match(db, command_named(command.channel, command.name)) {
        Effect { db, result: Err(HandlerErrorView::Conflict(Reason::CommandExists)) }
    } else {
        Effect { db: db.push(RecordView::Command(command)), result: Ok(command) }
    }
}

/// `remove_command`: the command goes, and with it every alias of the
/// channel that stands for it.
pub open spec fn remove_command(db: Seq<RecordView>, channel: Seq<char>, name: Seq<char>) -> Effect<
    (),
> {
    if has_match(db, command_named(channel, name)) {
        Effect {
            db: without_all(
                without_first(db, command_named(channel, name)),
                aliases_to(channel, name),
            ),
            result: Ok(()),
        }
    } else {
        Effect { db, result: Err(HandlerErrorView::NotFound(Reason::CommandDoesNotExist)) }
    }
}

/// `update_command`: the response of the command is replaced and nothing
/// else of it.
pub open spec fn update_command(
    db: Seq<RecordView>,
    channel: Seq<char>,
    name: Seq<char>,
    response: Seq<MessageView>,
) -> Effect<()> {
    if has_match(db, command_named(channel, name)) {
        Effect {
            db: with_patch(db, command_named(channel, name), PatchView::Response(response)),
            result: Ok(()),
        }
    } else {
        Effect { db, result: Err(HandlerErrorView::NotFound(Reason::CommandDoesNotExist)) }
    }
}

/// `update_count`: the delta is applied to the use count of the command;
/// the new count is stored and returned.
pub open spec fn update_count(
    db: Seq<RecordView>,
    channel: Seq<char>,
    name: Seq<char>,
    delta: Seq<char>,
) -> Effect<i32> {
    match find_one(db, command_named(channel, name)) {
        None => Effect { db, result: Err(HandlerErrorView::NotFound(Reason::NoCommand)) },
        Some(record) => match delta_outcome(record->Command_0.meta.count as int, delta) {
            Err(error) => Effect { db, result: Err(delta_error(error)) },
            Ok(count) => Effect {
                db: with_patch(
                    db,
                    command_named(channel, name),
                    PatchView::Count(count as i32),
                ),
                result: Ok(count as i32),
            },
        },
    }
}

/// `update_command_state`: the enabled flag of the command is set; the
/// flag that it had is returned.
pub open spec fn update_command_state(
    db: Seq<RecordView>,
    channel: Seq<char>,
    name: Seq<char>,
    enabled: bool,
) -> Effect<bool> {
    match find_one(db, command_named(channel, name)) {
        None => Effect { db, result: Err(HandlerErrorView::NotFound(Reason::CommandDoesNotExist)) },
        Some(record) => Effect {
            db: with_patch(db, command_named(channel, name), PatchView::Enabled(enabled)),
            result: Ok(record->Command_0.meta.enabled),
        },
    }
}

/// `get_config`: the configuration of `channel`.
pub open spec fn get_config(db: Seq<RecordView>, channel: Seq<char>) -> Verdict<ConfigView> {
    match found(db, config_of(channel), Reason::NoChannel) {
        Ok(record) => Ok(record->Config_0),
        Err(error) => Err(error),
    }
}

/// `get_channel_state`: the state of the bot of `channel`.
pub open spec fn get_channel_state(
    db: Seq<RecordView>,
    channel: Seq<char>,
    service: Option<Seq<char>>,
) -> Verdict<BotStateView> {
    match found(db, state_of(channel, service), Reason::NoState) {
        Ok(record) => Ok(record->State_0.state),
        Err(error) => Err(error),
    }
}

/// `get_service_auth`: the authorization of `channel` for `service`.
pub open spec fn get_service_auth(
    db: Seq<RecordView>,
    channel: Seq<char>,
    service: Seq<char>,
) -> Verdict<BotAuthorizationView> {
    match found(db, authorization_for(channel, service), Reason::NoAuthorization) {
        Ok(record) => Ok(record->Authorization_0.authorization),
        Err(error) => Err(error),
    }
}

/// `update_service_auth`: the authorization replaces the stored one, or is
/// added where there is none; a token that is not given is stored empty.
pub open spec fn update_service_auth(
    db: Seq<RecordView>,
    channel: Seq<char>,
    service: Seq<char>,
    access: Seq<char>,
    refresh: Option<Seq<char>>,
    expiration: Option<Seq<char>>,
) -> Effect<()> {
    Effect {
        db: with_upsert(
            db,
            authorization_for(channel, service),
            authorization_record(channel, service, access, refresh, expiration),
        ),
        result: Ok(()),
    }
}

/// `get_quote`: the quotes of `channel`, possibly none; with a number, the
/// quotes under that number, of which there must be one.
pub open spec fn get_quote(db: Seq<RecordView>, channel: Seq<char>, id: Option<u32>) -> Verdict<
    Seq<QuoteView>,
> {
    let selected = find_all(db, quotes_selected(channel, id));
    if id is Some && selected.len() == 0 {
        Err(HandlerErrorView::NotFound(Reason::NoQuote))
    } else {
        Ok(quotes(selected))
    }
}

/// `get_random_quote`: whether `result` is one of the results allowed: any
/// quote of `channel`, or `NotFound` where the channel has none.
pub open spec fn random_quote(
    db: Seq<RecordView>,
    channel: Seq<char>,
    result: Verdict<QuoteView>,
) -> bool {
    match result {
        Ok(quote) => find_all(db, quotes_of(channel)).contains(RecordView::Quote(quote)),
        Err(error) => error == HandlerErrorView::NotFound(Reason::NoQuotes) && find_all(
            db,
            quotes_of(channel),
        ).len() == 0,
    }
}

/// `create_quote`: the quote joins the database under the number of quotes
/// that the channel has, plus one, and that number is returned.
pub open spec fn create_quote(
    db: Seq<RecordView>,
    channel: Seq<char>,
    response: Seq<MessageView>,
) -> Effect<i64> {
    let count = find_all(db, quotes_of(channel)).len();
    if count < i64::MAX {
        let quote_id = (count + 1) as i64;
        Effect {
            db: db.push(RecordView::Quote(QuoteView { quote_id, response, channel })),
            result: Ok(quote_id),
        }
    } else {
        Effect { db, result: Err(HandlerErrorView::InternalError) }
    }
}

/// `edit_quote`: the response of the quote is replaced.
pub open spec fn edit_quote(
    db: Seq<RecordView>,
    channel: Seq<char>,
    id: u32,
    response: Seq<MessageView>,
) -> Effect<()> {
    if has_match(db, quote_numbered(channel, id as i64)) {
        Effect {
            db: with_patch(db, quote_numbered(channel, id as i64), PatchView::Response(response)),
            result: Ok(()),
        }
    } else {
        Effect { db, result: Err(HandlerErrorView::NotFound(Reason::NoQuote)) }
    }
}

/// `delete_quote`: the quote goes, if it is there.
pub open spec fn delete_quote(db: Seq<RecordView>, channel: Seq<char>, id: u32) -> Effect<()> {
    Effect { db: without_first(db, quote_numbered(channel, id as i64)), result: Ok(()) }
}

/// `create_trust`: a conflict if the user is trusted; else the trust joins
/// the database.
pub open spec fn create_trust(db: Seq<RecordView>, channel: Seq<char>, user: Seq<char>) -> Effect<
    TrustView,
> {
    if has_match(db, trust_of(channel, user)) {
        Effect { db, result: Err(HandlerErrorView::Conflict(Reason::AlreadyTrusted)) }
    } else {
        let trust = TrustView { trusted: user, channel };
        Effect { db: db.push(RecordView::Trust(trust)), result: Ok(trust) }
    }
}

/// `get_trust`: the trust of `user`.
pub open spec fn get_trust(db: Seq<RecordView>, channel: Seq<char>, user: Seq<char>) -> Verdict<
    TrustView,
> {
    match found(db, trust_of(channel, user), Reason::NoTrust) {
        Ok(record) => Ok(record->Trust_0),
        Err(error) => Err(error),
    }
}

/// `get_trusts`: the trusts of `channel`, possibly none.
pub open spec fn get_trusts(db: Seq<RecordView>, channel: Seq<char>) -> Verdict<Seq<TrustView>> {
    Ok(trusts(find_all(db, trusts_of(channel))))
}

/// `delete_trust`: the trust goes; there must be one.
pub open spec fn delete_trust(db: Seq<RecordView>, channel: Seq<char>, user: Seq<char>) -> Effect<
    (),
> {
    if has_match(db, trust_of(channel, user)) {
        Effect { db: without_first(db, trust_of(channel, user)), result: Ok(()) }
    } else {
        Effect { db, result: Err(HandlerErrorView::NotFound(Reason::TrustDoesNotExist)) }
    }
}

/// The command that the alias record `alias` stands for in `channel`, if
/// there is one.
pub open spec fn target(db: Seq<RecordView>, channel: Seq<char>, alias: RecordView) -> Option<
    RecordView,
> {
    find_one(db, command_named(channel, alias->Alias_0.command))
}

/// `get_aliases`: the commands that the aliases of `channel` stand for, one
/// for each alias, in the order of the aliases; `NotFound` if any alias
/// stands for a command that is not there.
pub open spec fn get_aliases(db: Seq<RecordView>, channel: Seq<char>) -> Verdict<Seq<CommandView>> {
    let aliases = find_all(db, aliases_of(channel));
    if exists|i: int| 0 <= i < aliases.len() && target(db, channel, #[trigger] aliases[i]) is None {
        Err(HandlerErrorView::NotFound(Reason::NoCommand))
    } else {
        Ok(Seq::new(aliases.len(), |i: int| target(db, channel, aliases[i])->0->Command_0))
    }
}

/// `get_alias`: the command that `alias` stands for; the alias is followed
/// once.
pub open spec fn get_alias(db: Seq<RecordView>, channel: Seq<char>, alias: Seq<char>) -> Verdict<
    CommandView,
> {
    match find_one(db, alias_named(channel, alias)) {
        None => Err(HandlerErrorView::NotFound(Reason::NoAlias)),
        Some(record) => match target(db, channel, record) {
            None => Err(HandlerErrorView::NotFound(Reason::NoCommand)),
            Some(command) => Ok(command->Command_0),
        },
    }
}

/// `create_alias`: the alias joins the database, whatever it stands for.
pub open spec fn create_alias(
    db: Seq<RecordView>,
    channel: Seq<char>,
    alias: Seq<char>,
    command: Seq<char>,
) -> Effect<AliasView> {
    let made = AliasView { channel, command, alias };
    Effect { db: db.push(RecordView::Alias(made)), result: Ok(made) }
}

/// `delete_alias`: the alias goes, if it is there.
pub open spec fn delete_alias(db: Seq<RecordView>, channel: Seq<char>, alias: Seq<char>) -> Effect<
    (),
> {
    Effect { db: without_first(db, alias_named(channel, alias)), result: Ok(()) }
}

/// `get_socials`: the social links of `channel`, of which there must be one.
pub open spec fn get_socials(db: Seq<RecordView>, channel: Seq<char>) -> Verdict<
    Seq<SocialServiceView>,
> {
    let selected = find_all(db, socials_of(channel));
    if selected.len() == 0 {
        Err(HandlerErrorView::NotFound(Reason::NoSocials))
    } else {
        Ok(socials(selected))
    }
}

/// `get_social_service`: the link of `channel` to `service`.
pub open spec fn get_social_service(
    db: Seq<RecordView>,
    channel: Seq<char>,
    service: Seq<char>,
) -> Verdict<SocialServiceView> {
    match found(db, social_of(channel, service), Reason::NoSocialService) {
        Ok(record) => Ok(record->Social_0),
        Err(error) => Err(error),
    }
}

/// `create_social_service`: the link joins the database, beside any link
/// to the same service that is there.
pub open spec fn create_social_service(
    db: Seq<RecordView>,
    channel: Seq<char>,
    service: Seq<char>,
    url: Seq<char>,
) -> Effect<SocialServiceView> {
    let made = SocialServiceView { channel, service, url };
    Effect { db: db.push(RecordView::Social(made)), result: Ok(made) }
}

/// `remove_social`: the first link to `service` goes, if there is one.
pub open spec fn remove_social(db: Seq<RecordView>, channel: Seq<char>, service: Seq<char>) -> Effect<
    (),
> {
    Effect { db: without_first(db, social_of(channel, service)), result: Ok(()) }
}

/// `get_offences`: the offences of `user` on `service`.
pub open spec fn get_offences(
    db: Seq<RecordView>,
    channel: Seq<char>,
    service: Seq<char>,
    user: Seq<char>,
) -> Verdict<UserOffencesView> {
    match found(db, offences_of(channel, service, user), Reason::NoOffences) {
        Ok(record) => Ok(record->Offences_0),
        Err(error) => Err(error),
    }
}

/// `get_offence`: one counter of the offences of `user`; 0 for a counter
/// that does not exist.
pub open spec fn get_offence(
    db: Seq<RecordView>,
    channel: Seq<char>,
    service: Seq<char>,
    user: Seq<char>,
    attribute: Seq<char>,
) -> Verdict<i32> {
    match get_offences(db, channel, service, user) {
        Ok(record) => Ok(record.count(attribute)),
        Err(error) => Err(error),
    }
}

/// `create_offence`: an empty offence record joins the database.
pub open spec fn create_offence(
    db: Seq<RecordView>,
    channel: Seq<char>,
    service: Seq<char>,
    user: Seq<char>,
) -> Effect<UserOffencesView> {
    let made = UserOffencesView::zero(channel, service, user);
    Effect { db: db.push(RecordView::Offences(made)), result: Ok(made) }
}

/// `update_offence`: where the user has no offence record, an empty one
/// joins the database first; then the delta is applied to the counter, and
/// the changed record is stored and returned.  The empty record stays
/// where the counter or the delta is rejected.
pub open spec fn update_offence(
    db: Seq<RecordView>,
    channel: Seq<char>,
    service: Seq<char>,
    user: Seq<char>,
    attribute: Seq<char>,
    delta: Seq<char>,
) -> Effect<UserOffencesView> {
    let key = offences_of(channel, service, user);
    let record = match find_one(db, key) {
        Some(stored) => stored->Offences_0,
        None => UserOffencesView::zero(channel, service, user),
    };
    let base = if has_match(db, key) {
        db
    } else {
        db.push(RecordView::Offences(record))
    };
    match record.attribute(attribute) {
        None => Effect {
            db: base,
            result: Err(HandlerErrorView::Validation(Reason::InvalidOffenceType)),
        },
        Some(current) => match delta_outcome(current as int, delta) {
            Err(error) => Effect { db: base, result: Err(delta_error(error)) },
            Ok(count) => {
                let changed = record.with_attribute(attribute, count as i32)->0;
                Effect {
                    db: with_replacement(base, key, RecordView::Offences(changed)),
                    result: Ok(changed),
                }
            },
        },
    }
}

} // verus!
