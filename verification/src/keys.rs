//! The filters by which the repository finds its records.

use crate::store::{Collection, Field, Filter, FilterView, RecordView, TermView, ValueView};
use vstd::prelude::*;

verus! {

/// The channel with the token `token`.
pub open spec fn channel_with(token: Seq<char>) -> FilterView {
    FilterView::all(Collection::Channels).text(Field::Token, token)
}

/// The commands of `channel`.
pub open spec fn commands_of(channel: Seq<char>) -> FilterView {
    FilterView::all(Collection::Commands).text(Field::Channel, channel)
}

/// The command called `name` in `channel`.
pub open spec fn command_named(channel: Seq<char>, name: Seq<char>) -> FilterView {
    commands_of(channel).text(Field::Name, name)
}

/// The configuration of `channel`.
pub open spec fn config_of(channel: Seq<char>) -> FilterView {
    FilterView::all(Collection::Configs).text(Field::Channel, channel)
}

/// The state of the bot of `channel`: for `service`, or any if none is named.
pub open spec fn state_of(channel: Seq<char>, service: Option<Seq<char>>) -> FilterView {
    match service {
        Some(service) => FilterView::all(Collection::State).text(Field::Service, service).text(
            Field::Channel,
            channel,
        ),
        None => FilterView::all(Collection::State).text(Field::Channel, channel),
    }
}

/// The authorization of `channel` for `service`.
pub open spec fn authorization_for(channel: Seq<char>, service: Seq<char>) -> FilterView {
    FilterView::all(Collection::Authorization).text(Field::Service, service).text(
        Field::Channel,
        channel,
    )
}

/// The quotes of `channel`.
pub open spec fn quotes_of(channel: Seq<char>) -> FilterView {
    FilterView::all(Collection::Quotes).text(Field::Channel, channel)
}

/// The quote numbered `id` in `channel`.
pub open spec fn quote_numbered(channel: Seq<char>, id: i64) -> FilterView {
    quotes_of(channel).number(Field::QuoteId, id)
}

/// The quotes of `channel`: the one numbered `id`, or all if no number is given.
pub open spec fn quotes_selected(channel: Seq<char>, id: Option<u32>) -> FilterView {
    match id {
        Some(id) => quote_numbered(channel, id as i64),
        None => quotes_of(channel),
    }
}

/// The trusts of `channel`.
pub open spec fn trusts_of(channel: Seq<char>) -> FilterView {
    FilterView::all(Collection::Trusts).text(Field::Channel, channel)
}

/// The trust of `user` in `channel`.
pub open spec fn trust_of(channel: Seq<char>, user: Seq<char>) -> FilterView {
    trusts_of(channel).text(Field::Trusted, user)
}

/// The aliases of `channel`.
pub open spec fn aliases_of(channel: Seq<char>) -> FilterView {
    FilterView::all(Collection::Aliases).text(Field::Channel, channel)
}

/// The alias called `alias` in `channel`.
pub open spec fn alias_named(channel: Seq<char>, alias: Seq<char>) -> FilterView {
    aliases_of(channel).text(Field::Alias, alias)
}

/// The aliases of the command `command` in `channel`.
pub open spec fn aliases_to(channel: Seq<char>, command: Seq<char>) -> FilterView {
    aliases_of(channel).text(Field::Command, command)
}

/// The social links of `channel`.
pub open spec fn socials_of(channel: Seq<char>) -> FilterView {
    FilterView::all(Collection::Socials).text(Field::Channel, channel)
}

/// The link of `channel` to `service`.
pub open spec fn social_of(channel: Seq<char>, service: Seq<char>) -> FilterView {
    socials_of(channel).text(Field::Service, service)
}

/// The offences of `user` on `service` in `channel`.
pub open spec fn offences_of(channel: Seq<char>, service: Seq<char>, user: Seq<char>) -> FilterView {
    FilterView::all(Collection::Offences).text(Field::Channel, channel).text(
        Field::User,
        user,
    ).text(Field::Service, service)
}

/// A filter of one text term selects the records of its collection that
/// hold the text in the field.
pub proof fn matches_one(r: RecordView, collection: Collection, field: Field, text: Seq<char>)
    ensures
        r.matches(FilterView::all(collection).text(field, text)) <==> r.collection() == collection
            && r.text_field(field) == Some(text),
{
    let filter = FilterView::all(collection).text(field, text);
    assert(filter.terms.len() == 1);
    assert(filter.terms[0] == TermView { field, value: ValueView::Text(text) });
}

/// A filter of two text terms selects the records that meet both.
pub proof fn matches_two(
    r: RecordView,
    collection: Collection,
    first: Field,
    a: Seq<char>,
    second: Field,
    b: Seq<char>,
)
    ensures
        r.matches(FilterView::all(collection).text(first, a).text(second, b)) <==> r.collection()
            == collection && r.text_field(first) == Some(a) && r.text_field(second) == Some(b),
{
    let filter = FilterView::all(collection).text(first, a).text(second, b);
    assert(filter.terms.len() == 2);
    assert(filter.terms[0] == TermView { field: first, value: ValueView::Text(a) });
    assert(filter.terms[1] == TermView { field: second, value: ValueView::Text(b) });
}

/// A filter of three text terms selects the records that meet all three.
pub proof fn matches_three(
    r: RecordView,
    collection: Collection,
    first: Field,
    a: Seq<char>,
    second: Field,
    b: Seq<char>,
    third: Field,
    c: Seq<char>,
)
    ensures
        r.matches(FilterView::all(collection).text(first, a).text(second, b).text(third, c)) <==> 
            r.collection() == collection && r.text_field(first) == Some(a) && r.text_field(second)
            == Some(b) && r.text_field(third) == Some(c),
{
    let filter = FilterView::all(collection).text(first, a).text(second, b).text(third, c);
    assert(filter.terms.len() == 3);
    assert(filter.terms[0] == TermView { field: first, value: ValueView::Text(a) });
    assert(filter.terms[1] == TermView { field: second, value: ValueView::Text(b) });
    assert(filter.terms[2] == TermView { field: third, value: ValueView::Text(c) });
}

/// A filter of a text term and a number term selects the records that meet
/// both.
pub proof fn matches_text_number(
    r: RecordView,
    collection: Collection,
    first: Field,
    a: Seq<char>,
    second: Field,
    n: i64,
)
    ensures
        r.matches(FilterView::all(collection).text(first, a).number(second, n)) <==> r.collection()
            == collection && r.text_field(first) == Some(a) && r.field(second) == Some(
            ValueView::Number(n),
        ),
{
    let filter = FilterView::all(collection).text(first, a).number(second, n);
    assert(filter.terms.len() == 2);
    assert(filter.terms[0] == TermView { field: first, value: ValueView::Text(a) });
    assert(filter.terms[1] == TermView { field: second, value: ValueView::Number(n) });
}

impl Filter {
    /// The channel with the token `token`.
    pub fn channel_with(token: &str) -> (r: Filter)
        ensures
            r@ == channel_with(token@),
    {
        Filter::all(Collection::Channels).text(Field::Token, token)
    }

    /// The commands of `channel`.
    pub fn commands_of(channel: &str) -> (r: Filter)
        ensures
            r@ == commands_of(channel@),
    {
        Filter::all(Collection::Commands).text(Field::Channel, channel)
    }

    /// The command called `name` in `channel`.
    pub fn command_named(channel: &str, name: &str) -> (r: Filter)
        ensures
            r@ == command_named(channel@, name@),
    {
        Filter::commands_of(channel).text(Field::Name, name)
    }

    /// The configuration of `channel`.
    pub fn config_of(channel: &str) -> (r: Filter)
        ensures
            r@ == config_of(channel@),
    {
        Filter::all(Collection::Configs).text(Field::Channel, channel)
    }

    /// The state of the bot of `channel`: for `service`, or any if none is named.
    pub fn state_of(channel: &str, service: &Option<String>) -> (r: Filter)
        ensures
            r@ == state_of(channel@, service.deep_view()),
    {
        match service {
            Some(service) => Filter::all(Collection::State).text(
                Field::Service,
                service.as_str(),
            ).text(Field::Channel, channel),
            None => Filter::all(Collection::State).text(Field::Channel, channel),
        }
    }

    /// The authorization of `channel` for `service`.
    pub fn authorization_for(channel: &str, service: &str) -> (r: Filter)
        ensures
            r@ == authorization_for(channel@, service@),
    {
        Filter::all(Collection::Authorization).text(Field::Service, service).text(
            Field::Channel,
            channel,
        )
    }

    /// The quotes of `channel`.
    pub fn quotes_of(channel: &str) -> (r: Filter)
        ensures
            r@ == quotes_of(channel@),
    {
        Filter::all(Collection::Quotes).text(Field::Channel, channel)
    }

    /// The quote numbered `id` in `channel`.
    pub fn quote_numbered(channel: &str, id: i64) -> (r: Filter)
        ensures
            r@ == quote_numbered(channel@, id),
    {
        Filter::quotes_of(channel).number(Field::QuoteId, id)
    }

    /// The quotes of `channel`: the one numbered `id`, or all if no number is given.
    pub fn quotes_selected(channel: &str, id: Option<u32>) -> (r: Filter)
        ensures
            r@ == quotes_selected(channel@, id),
    {
        match id {
            Some(id) => Filter::quote_numbered(channel, id as i64),
            None => Filter::quotes_of(channel),
        }
    }

    /// The trusts of `channel`.
    pub fn trusts_of(channel: &str) -> (r: Filter)
        ensures
            r@ == trusts_of(channel@),
    {
        Filter::all(Collection::Trusts).text(Field::Channel, channel)
    }

    /// The trust of `user` in `channel`.
    pub fn trust_of(channel: &str, user: &str) -> (r: Filter)
        ensures
            r@ == trust_of(channel@, user@),
    {
        Filter::trusts_of(channel).text(Field::Trusted, user)
    }

    /// The aliases of `channel`.
    pub fn aliases_of(channel: &str) -> (r: Filter)
        ensures
            r@ == aliases_of(channel@),
    {
        Filter::all(Collection::Aliases).text(Field::Channel, channel)
    }

    /// The alias called `alias` in `channel`.
    pub fn alias_named(channel: &str, alias: &str) -> (r: Filter)
        ensures
            r@ == alias_named(channel@, alias@),
    {
        Filter::aliases_of(channel).text(Field::Alias, alias)
    }

    /// The aliases of the command `command` in `channel`.
    pub fn aliases_to(channel: &str, command: &str) -> (r: Filter)
        ensures
            r@ == aliases_to(channel@, command@),
    {
        Filter::aliases_of(channel).text(Field::Command, command)
    }

    /// The social links of `channel`.
    pub fn socials_of(channel: &str) -> (r: Filter)
        ensures
            r@ == socials_of(channel@),
    {
        Filter::all(Collection::Socials).text(Field::Channel, channel)
    }

    /// The link of `channel` to `service`.
    pub fn social_of(channel: &str, service: &str) -> (r: Filter)
        ensures
            r@ == social_of(channel@, service@),
    {
        Filter::socials_of(channel).text(Field::Service, service)
    }

    /// The offences of `user` on `service` in `channel`.
    pub fn offences_of(channel: &str, service: &str, user: &str) -> (r: Filter)
        ensures
            r@ == offences_of(channel@, service@, user@),
    {
        Filter::all(Collection::Offences).text(Field::Channel, channel).text(
            Field::User,
            user,
        ).text(Field::Service, service)
    }
}

} // verus!
