//! What the operations of the repository keep true of the database.
//!
//! Channels, commands, trusts, authorizations and offence records are
//! unique under their keys as long as they are written by the operations
//! that look before they write.  `create_offence` does not look: it keeps
//! the database unique only for a user who has no record yet.  Quotes,
//! aliases and social links are not unique by rule.

use crate::keys::{
    authorization_for, channel_with, command_named, matches_one, matches_three, matches_two,
    offences_of, trust_of,
};
use crate::model::{
    first_from_is_first, first_index, has_match, kept, kept_is_part, with_patch, without_first,
};
use crate::rules;
use crate::steps::authorization_record;
use crate::store::{Collection, Field, FilterView, PatchView, RecordView};
use crate::structures::{CommandView, MessageView, UserOffencesView};
use vstd::prelude::*;

verus! {

/// Whether `a` and `b` are two records under one key that admits one
/// record only: two channels of one token, two commands of one name in
/// one channel, two trusts of one user in one channel, two authorizations
/// of one channel for one service, or the offences of one user on one
/// service in one channel twice.
pub open spec fn same_key(a: RecordView, b: RecordView) -> bool {
    match (a, b) {
        (RecordView::Channel(x), RecordView::Channel(y)) => x.token == y.token,
        (RecordView::Command(x), RecordView::Command(y)) => x.channel == y.channel && x.name
            == y.name,
        (RecordView::Trust(x), RecordView::Trust(y)) => x.channel == y.channel && x.trusted
            == y.trusted,
        (RecordView::Authorization(x), RecordView::Authorization(y)) => x.channel == y.channel
            && x.service == y.service,
        (RecordView::Offences(x), RecordView::Offences(y)) => x.channel == y.channel && x.service
            == y.service && x.user == y.user,
        _ => false,
    }
}

/// Whether no key that admits one record only has two in `db`.
pub open spec fn unique(db: Seq<RecordView>) -> bool {
    forall|i: int, j: int|
        0 <= i < j < db.len() ==> !same_key(#[trigger] db[i], #[trigger] db[j])
}

/// A record joins a database without breaking uniqueness if no record
/// there is under its key.
pub proof fn unique_with(db: Seq<RecordView>, record: RecordView)
    requires
        unique(db),
        forall|i: int| 0 <= i < db.len() ==> !same_key(#[trigger] db[i], record),
    ensures
        unique(db.push(record)),
{
    let after = db.push(record);
    assert forall|i: int, j: int| 0 <= i < j < after.len() implies !same_key(
        #[trigger] after[i],
        #[trigger] after[j],
    ) by {
        assert(after[i] == db[i]);
        if j < db.len() {
            assert(after[j] == db[j]);
        }
    }
}

/// A record leaves a database without breaking uniqueness.
pub proof fn unique_without(db: Seq<RecordView>, at: int)
    requires
        unique(db),
        0 <= at < db.len(),
    ensures
        unique(db.remove(at)),
{
    let after = db.remove(at);
    assert forall|i: int, j: int| 0 <= i < j < after.len() implies !same_key(
        #[trigger] after[i],
        #[trigger] after[j],
    ) by {
        let a = if i < at {
            i
        } else {
            i + 1
        };
        let b = if j < at {
            j
        } else {
            j + 1
        };
        assert(after[i] == db[a]);
        assert(after[j] == db[b]);
    }
}

/// A selection of a database is unique if the database is.
pub proof fn unique_kept(db: Seq<RecordView>, filter: FilterView, wanted: bool)
    requires
        unique(db),
    ensures
        unique(kept(db, filter, wanted)),
    decreases db.len(),
{
    if db.len() > 0 {
        let rest = db.drop_last();
        assert forall|i: int, j: int| 0 <= i < j < rest.len() implies !same_key(
            #[trigger] rest[i],
            #[trigger] rest[j],
        ) by {
            assert(rest[i] == db[i]);
            assert(rest[j] == db[j]);
        }
        unique_kept(rest, filter, wanted);
        if db.last().matches(filter) == wanted {
            let selected = kept(rest, filter, wanted);
            kept_is_part(rest, filter, wanted);
            assert forall|i: int| 0 <= i < selected.len() implies !same_key(
                #[trigger] selected[i],
                db.last(),
            ) by {
                assert(rest.contains(selected[i]));
                let k = choose|k: int| 0 <= k < rest.len() && rest[k] == selected[i];
                assert(db[k] == selected[i]);
                assert(!same_key(db[k], db[db.len() - 1]));
            }
            unique_with(selected, db.last());
        }
    }
}

/// A record takes the place of another without breaking uniqueness if it
/// is under the same keys.
pub proof fn unique_replaced(db: Seq<RecordView>, at: int, record: RecordView)
    requires
        unique(db),
        0 <= at < db.len(),
        forall|other: RecordView| same_key(record, other) == same_key(db[at], other),
        forall|other: RecordView| same_key(other, record) == same_key(other, db[at]),
    ensures
        unique(db.update(at, record)),
{
    let after = db.update(at, record);
    assert forall|i: int, j: int| 0 <= i < j < after.len() implies !same_key(
        #[trigger] after[i],
        #[trigger] after[j],
    ) by {
        assert(!same_key(db[i], db[j]));
        if i != at {
            assert(after[i] == db[i]);
        }
        if j != at {
            assert(after[j] == db[j]);
        }
    }
}

/// A patch leaves the keys of a record as they are.
pub proof fn patch_keeps_keys(record: RecordView, patch: PatchView)
    ensures
        forall|other: RecordView| same_key(record.patched(patch), other) == same_key(record, other),
        forall|other: RecordView| same_key(other, record.patched(patch)) == same_key(other, record),
{
}

/// Patching the first record under a filter keeps uniqueness.
pub proof fn unique_patched(db: Seq<RecordView>, filter: FilterView, patch: PatchView)
    requires
        unique(db),
    ensures
        unique(with_patch(db, filter, patch)),
{
    first_from_is_first(db, filter, 0);
    if has_match(db, filter) {
        let at = first_index(db, filter);
        patch_keeps_keys(db[at], patch);
        unique_replaced(db, at, db[at].patched(patch));
    }
}

/// Removing the first record under a filter keeps uniqueness.
pub proof fn unique_without_first(db: Seq<RecordView>, filter: FilterView)
    requires
        unique(db),
    ensures
        unique(without_first(db, filter)),
{
    first_from_is_first(db, filter, 0);
    if has_match(db, filter) {
        unique_without(db, first_index(db, filter));
    }
}

/// Where a filter selects nothing, no record meets it.
pub proof fn nothing_matches(db: Seq<RecordView>, filter: FilterView)
    requires
        !has_match(db, filter),
    ensures
        forall|i: int| 0 <= i < db.len() ==> !(#[trigger] db[i]).matches(filter),
{
    first_from_is_first(db, filter, 0);
}

/// Every operation on channels, commands and their counters keeps the
/// database unique.
pub proof fn commands_and_channels_stay_unique(
    db: Seq<RecordView>,
    channel: Seq<char>,
    name: Seq<char>,
    password: Seq<char>,
    pepper: Seq<char>,
    salt: Seq<char>,
    id: Option<Seq<u8>>,
    now: Seq<char>,
    command: CommandView,
    response: Seq<MessageView>,
    delta: Seq<char>,
    enabled: bool,
)
    requires
        unique(db),
    ensures
        unique(rules::create_channel(db, name, password, pepper, salt, id, now).db),
        unique(rules::create_command(db, command).db),
        unique(rules::remove_command(db, channel, name).db),
        unique(rules::update_command(db, channel, name, response).db),
        unique(rules::update_count(db, channel, name, delta).db),
        unique(rules::update_command_state(db, channel, name, enabled).db),
{
    let made = rules::create_channel(db, name, password, pepper, salt, id, now);
    if made.result is Ok {
        let record = RecordView::Channel(made.result->Ok_0);
        nothing_matches(db, channel_with(name));
        assert forall|i: int| 0 <= i < db.len() implies !same_key(#[trigger] db[i], record) by {
            matches_one(db[i], Collection::Channels, Field::Token, name);
        }
        unique_with(db, record);
    }
    if rules::create_command(db, command).result is Ok {
        let record = RecordView::Command(command);
        nothing_matches(db, command_named(command.channel, command.name));
        assert forall|i: int| 0 <= i < db.len() implies !same_key(#[trigger] db[i], record) by {
            matches_two(
                db[i],
                Collection::Commands,
                Field::Channel,
                command.channel,
                Field::Name,
                command.name,
            );
        }
        unique_with(db, record);
    }
    let key = command_named(channel, name);
    unique_without_first(db, key);
    unique_kept(without_first(db, key), crate::keys::aliases_to(channel, name), false);
    unique_patched(db, key, PatchView::Response(response));
    unique_patched(db, key, PatchView::Enabled(enabled));
    match rules::update_count(db, channel, name, delta).result {
        Ok(count) => {
            unique_patched(db, key, PatchView::Count(count));
        },
        Err(_) => {},
    }
}

/// Every operation on quotes, trusts, aliases and social links keeps the
/// database unique.
pub proof fn quotes_trusts_aliases_and_socials_stay_unique(
    db: Seq<RecordView>,
    channel: Seq<char>,
    name: Seq<char>,
    other: Seq<char>,
    id: u32,
    response: Seq<MessageView>,
)
    requires
        unique(db),
    ensures
        unique(rules::create_quote(db, channel, response).db),
        unique(rules::edit_quote(db, channel, id, response).db),
        unique(rules::delete_quote(db, channel, id).db),
        unique(rules::create_trust(db, channel, name).db),
        unique(rules::delete_trust(db, channel, name).db),
        unique(rules::create_alias(db, channel, name, other).db),
        unique(rules::delete_alias(db, channel, name).db),
        unique(rules::create_social_service(db, channel, name, other).db),
        unique(rules::remove_social(db, channel, name).db),
{
    if rules::create_quote(db, channel, response).result is Ok {
        unique_with(db, rules::create_quote(db, channel, response).db.last());
    }
    unique_patched(
        db,
        crate::keys::quote_numbered(channel, id as i64),
        PatchView::Response(response),
    );
    unique_without_first(db, crate::keys::quote_numbered(channel, id as i64));
    if rules::create_trust(db, channel, name).result is Ok {
        let record = rules::create_trust(db, channel, name).db.last();
        nothing_matches(db, trust_of(channel, name));
        assert forall|i: int| 0 <= i < db.len() implies !same_key(#[trigger] db[i], record) by {
            matches_two(db[i], Collection::Trusts, Field::Channel, channel, Field::Trusted, name);
        }
        unique_with(db, record);
    }
    unique_without_first(db, trust_of(channel, name));
    unique_with(db, rules::create_alias(db, channel, name, other).db.last());
    unique_without_first(db, crate::keys::alias_named(channel, name));
    unique_with(db, rules::create_social_service(db, channel, name, other).db.last());
    unique_without_first(db, crate::keys::social_of(channel, name));
}

/// Storing an authorization keeps the database unique: the record takes
/// the place of the one under its key, or joins where there is none.
pub proof fn authorizations_stay_unique(
    db: Seq<RecordView>,
    channel: Seq<char>,
    service: Seq<char>,
    access: Seq<char>,
    refresh: Option<Seq<char>>,
    expiration: Option<Seq<char>>,
)
    requires
        unique(db),
    ensures
        unique(rules::update_service_auth(db, channel, service, access, refresh, expiration).db),
{
    let key = authorization_for(channel, service);
    let record = authorization_record(channel, service, access, refresh, expiration);
    first_from_is_first(db, key, 0);
    if has_match(db, key) {
        let at = first_index(db, key);
        matches_two(db[at], Collection::Authorization, Field::Service, service, Field::Channel, channel);
        unique_replaced(db, at, record);
    } else {
        assert forall|i: int| 0 <= i < db.len() implies !same_key(#[trigger] db[i], record) by {
            matches_two(
                db[i],
                Collection::Authorization,
                Field::Service,
                service,
                Field::Channel,
                channel,
            );
        }
        unique_with(db, record);
    }
}

/// Changing an offence counter keeps the database unique: the record of a
/// user is created once, and changed in its place afterwards.
pub proof fn offences_stay_unique(
    db: Seq<RecordView>,
    channel: Seq<char>,
    service: Seq<char>,
    user: Seq<char>,
    attribute: Seq<char>,
    delta: Seq<char>,
)
    requires
        unique(db),
    ensures
        unique(rules::update_offence(db, channel, service, user, attribute, delta).db),
{
    let key = offences_of(channel, service, user);
    let zero = RecordView::Offences(UserOffencesView::zero(channel, service, user));
    first_from_is_first(db, key, 0);
    let base = if has_match(db, key) {
        db
    } else {
        db.push(zero)
    };
    if !has_match(db, key) {
        assert forall|i: int| 0 <= i < db.len() implies !same_key(#[trigger] db[i], zero) by {
            matches_three(
                db[i],
                Collection::Offences,
                Field::Channel,
                channel,
                Field::User,
                user,
                Field::Service,
                service,
            );
        }
        unique_with(db, zero);
        matches_three(
            zero,
            Collection::Offences,
            Field::Channel,
            channel,
            Field::User,
            user,
            Field::Service,
            service,
        );
    }
    first_from_is_first(base, key, 0);
    let after = rules::update_offence(db, channel, service, user, attribute, delta);
    if after.result is Ok {
        if has_match(base, key) {
            let at = first_index(base, key);
            matches_three(
                base[at],
                Collection::Offences,
                Field::Channel,
                channel,
                Field::User,
                user,
                Field::Service,
                service,
            );
            unique_replaced(base, at, RecordView::Offences(after.result->Ok_0));
        }
    }
}


/// Creating an offence record keeps the database unique where the user has
/// no record yet.
pub proof fn new_offences_stay_unique(
    db: Seq<RecordView>,
    channel: Seq<char>,
    service: Seq<char>,
    user: Seq<char>,
)
    requires
        unique(db),
        !has_match(db, offences_of(channel, service, user)),
    ensures
        unique(rules::create_offence(db, channel, service, user).db),
{
    let zero = RecordView::Offences(UserOffencesView::zero(channel, service, user));
    nothing_matches(db, offences_of(channel, service, user));
    assert forall|i: int| 0 <= i < db.len() implies !same_key(#[trigger] db[i], zero) by {
        matches_three(
            db[i],
            Collection::Offences,
            Field::Channel,
            channel,
            Field::User,
            user,
            Field::Service,
            service,
        );
    }
    unique_with(db, zero);
}

/// The use count of the record at `at`, if it is a command.
pub open spec fn use_count(db: Seq<RecordView>, at: int) -> Option<i32> {
    match db[at] {
        RecordView::Command(command) => Some(command.meta.count),
        _ => None,
    }
}

/// Use counts change through deltas only: replacing the response of a
/// command or setting its state leaves every use count as it is.
pub proof fn use_counts_survive_other_updates(
    db: Seq<RecordView>,
    channel: Seq<char>,
    name: Seq<char>,
    response: Seq<MessageView>,
    enabled: bool,
)
    ensures
        rules::update_command(db, channel, name, response).db.len() == db.len(),
        rules::update_command_state(db, channel, name, enabled).db.len() == db.len(),
        forall|i: int|
            0 <= i < db.len() ==> #[trigger] use_count(
                rules::update_command(db, channel, name, response).db,
                i,
            ) == use_count(db, i),
        forall|i: int|
            0 <= i < db.len() ==> #[trigger] use_count(
                rules::update_command_state(db, channel, name, enabled).db,
                i,
            ) == use_count(db, i),
{
    first_from_is_first(db, command_named(channel, name), 0);
}

} // verus!
