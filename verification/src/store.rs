//! The language in which the repository talks to its document database:
//! records, filters, queries and replies, each with its view.

use crate::errors::DatabaseFailure;
use crate::structures::{
    clone_optional_text, clone_response, Message, MessageView, Alias, AliasView, BotState, BotStateView, Channel, ChannelView, Command,
    CommandView, Config, ConfigView, Quote, QuoteView, ServiceAuthorization,
    ServiceAuthorizationView, SocialService, SocialServiceView, Trust, TrustView, UserOffences,
    UserOffencesView,
};
use crate::text::same_text;
use vstd::prelude::*;

verus! {

/// The collections of the database.
#[derive(Clone, Copy, Debug, PartialEq, Eq, Structural)]
pub enum Collection {
    Channels,
    Commands,
    Quotes,
    Trusts,
    Aliases,
    Socials,
    Authorization,
    Offences,
    Configs,
    State,
}

impl Collection {
    /// The name under which the database holds the collection.
    pub open spec fn label(self) -> Seq<char> {
        match self {
            Collection::Channels => "channels"@,
            Collection::Commands => "commands"@,
            Collection::Quotes => "quotes"@,
            Collection::Trusts => "trusts"@,
            Collection::Aliases => "aliases"@,
            Collection::Socials => "socials"@,
            Collection::Authorization => "authorization"@,
            Collection::Offences => "offences"@,
            Collection::Configs => "configs"@,
            Collection::State => "state"@,
        }
    }

    /// The name under which the database holds the collection.
    pub fn name(&self) -> (r: &'static str)
        ensures
            r@ == self.label(),
    {
        match self {
            Collection::Channels => "channels",
            Collection::Commands => "commands",
            Collection::Quotes => "quotes",
            Collection::Trusts => "trusts",
            Collection::Aliases => "aliases",
            Collection::Socials => "socials",
            Collection::Authorization => "authorization",
            Collection::Offences => "offences",
            Collection::Configs => "configs",
            Collection::State => "state",
        }
    }
}

/// The fields by which records are found.
#[derive(Clone, Copy, Debug, PartialEq, Eq, Structural)]
pub enum Field {
    Token,
    Channel,
    Name,
    QuoteId,
    Trusted,
    Alias,
    Command,
    Service,
    User,
}

impl Field {
    /// The name of the field in a stored document.
    pub open spec fn label(self) -> Seq<char> {
        match self {
            Field::Token => "token"@,
            Field::Channel => "channel"@,
            Field::Name => "name"@,
            Field::QuoteId => "quote_id"@,
            Field::Trusted => "trusted"@,
            Field::Alias => "alias"@,
            Field::Command => "command"@,
            Field::Service => "service"@,
            Field::User => "user"@,
        }
    }

    /// The name of the field in a stored document.
    pub fn name(&self) -> (r: &'static str)
        ensures
            r@ == self.label(),
    {
        match self {
            Field::Token => "token",
            Field::Channel => "channel",
            Field::Name => "name",
            Field::QuoteId => "quote_id",
            Field::Trusted => "trusted",
            Field::Alias => "alias",
            Field::Command => "command",
            Field::Service => "service",
            Field::User => "user",
        }
    }
}

/// The value of a field in a filter.
#[derive(Debug, PartialEq, Eq)]
pub enum Value {
    Text(String),
    Number(i64),
}

pub enum ValueView {
    Text(Seq<char>),
    Number(i64),
}

impl DeepView for Value {
    type V = ValueView;

    open spec fn deep_view(&self) -> ValueView {
        match self {
            Value::Text(text) => ValueView::Text(text@),
            Value::Number(number) => ValueView::Number(*number),
        }
    }
}

impl View for Value {
    type V = ValueView;

    open spec fn view(&self) -> ValueView {
        self.deep_view()
    }
}

impl Value {
    /// Whether the value is the text `text`.
    pub fn is_text(&self, text: &str) -> (r: bool)
        ensures
            r == (self@ == ValueView::Text(text@)),
    {
        match self {
            Value::Text(own) => same_text(own.as_str(), text),
            Value::Number(_) => false,
        }
    }

    /// Whether the value is the number `number`.
    pub fn is_number(&self, number: i64) -> (r: bool)
        ensures
            r == (self@ == ValueView::Number(number)),
    {
        match self {
            Value::Text(_) => false,
            Value::Number(own) => *own == number,
        }
    }
}

/// One condition of a filter: the field holds the value.
#[derive(Debug, PartialEq, Eq)]
pub struct Term {
    pub field: Field,
    pub value: Value,
}

pub struct TermView {
    pub field: Field,
    pub value: ValueView,
}

impl DeepView for Term {
    type V = TermView;

    open spec fn deep_view(&self) -> TermView {
        TermView { field: self.field, value: self.value@ }
    }
}

impl View for Term {
    type V = TermView;

    open spec fn view(&self) -> TermView {
        self.deep_view()
    }
}

/// A filter: the records of one collection that meet every term.
#[derive(Debug, PartialEq, Eq)]
pub struct Filter {
    pub collection: Collection,
    pub terms: Vec<Term>,
}

pub struct FilterView {
    pub collection: Collection,
    pub terms: Seq<TermView>,
}

impl DeepView for Filter {
    type V = FilterView;

    open spec fn deep_view(&self) -> FilterView {
        FilterView { collection: self.collection, terms: self.terms.deep_view() }
    }
}

impl View for Filter {
    type V = FilterView;

    open spec fn view(&self) -> FilterView {
        self.deep_view()
    }
}

impl FilterView {
    /// The filter that every record of `collection` meets.
    pub open spec fn all(collection: Collection) -> FilterView {
        FilterView { collection, terms: Seq::empty() }
    }

    /// The filter with one more term: `field` holds the text `text`.
    pub open spec fn text(self, field: Field, text: Seq<char>) -> FilterView {
        FilterView {
            collection: self.collection,
            terms: self.terms.push(TermView { field, value: ValueView::Text(text) }),
        }
    }

    /// The filter with one more term: `field` holds the number `number`.
    pub open spec fn number(self, field: Field, number: i64) -> FilterView {
        FilterView {
            collection: self.collection,
            terms: self.terms.push(TermView { field, value: ValueView::Number(number) }),
        }
    }
}

impl Filter {
    /// The filter that every record of `collection` meets.
    pub fn all(collection: Collection) -> (r: Filter)
        ensures
            r@ == FilterView::all(collection),
    {
        let r = Filter { collection, terms: Vec::new() };
        assert(r.terms.deep_view() =~= Seq::empty());
        r
    }

    /// Adds the term that `field` holds the text `text`.
    pub fn text(self, field: Field, text: &str) -> (r: Filter)
        ensures
            r@ == self@.text(field, text@),
    {
        let mut terms = self.terms;
        let ghost before = terms.deep_view();
        terms.push(Term { field, value: Value::Text(text.to_owned()) });
        assert(terms.deep_view() =~= before.push(
            TermView { field, value: ValueView::Text(text@) },
        ));
        Filter { collection: self.collection, terms }
    }

    /// Adds the term that `field` holds the number `number`.
    pub fn number(self, field: Field, number: i64) -> (r: Filter)
        ensures
            r@ == self@.number(field, number),
    {
        let mut terms = self.terms;
        let ghost before = terms.deep_view();
        terms.push(Term { field, value: Value::Number(number) });
        assert(terms.deep_view() =~= before.push(
            TermView { field, value: ValueView::Number(number) },
        ));
        Filter { collection: self.collection, terms }
    }
}

/// The state of the bot of one channel as it is stored: for the channel as
/// a whole, or for one of its services.
#[derive(Debug, PartialEq, Eq)]
pub struct StoredState {
    pub channel: String,
    pub service: Option<String>,
    pub state: BotState,
}

pub struct StoredStateView {
    pub channel: Seq<char>,
    pub service: Option<Seq<char>>,
    pub state: BotStateView,
}

impl DeepView for StoredState {
    type V = StoredStateView;

    open spec fn deep_view(&self) -> StoredStateView {
        StoredStateView {
            channel: self.channel@,
            service: self.service.deep_view(),
            state: self.state@,
        }
    }
}

impl View for StoredState {
    type V = StoredStateView;

    open spec fn view(&self) -> StoredStateView {
        self.deep_view()
    }
}

impl Clone for StoredState {
    fn clone(&self) -> (r: Self)
        ensures
            r@ == self@,
    {
        StoredState {
            channel: self.channel.clone(),
            service: clone_optional_text(&self.service),
            state: self.state.clone(),
        }
    }
}

/// A record of the database: an entity in its collection.
#[derive(Debug, PartialEq, Eq)]
pub enum Record {
    Channel(Channel),
    Command(Command),
    Quote(Quote),
    Trust(Trust),
    Alias(Alias),
    Social(SocialService),
    Authorization(ServiceAuthorization),
    Offences(UserOffences),
    Config(Config),
    State(StoredState),
}

pub enum RecordView {
    Channel(ChannelView),
    Command(CommandView),
    Quote(QuoteView),
    Trust(TrustView),
    Alias(AliasView),
    Social(SocialServiceView),
    Authorization(ServiceAuthorizationView),
    Offences(UserOffencesView),
    Config(ConfigView),
    State(StoredStateView),
}

impl DeepView for Record {
    type V = RecordView;

    open spec fn deep_view(&self) -> RecordView {
        match self {
            Record::Channel(x) => RecordView::Channel(x@),
            Record::Command(x) => RecordView::Command(x@),
            Record::Quote(x) => RecordView::Quote(x@),
            Record::Trust(x) => RecordView::Trust(x@),
            Record::Alias(x) => RecordView::Alias(x@),
            Record::Social(x) => RecordView::Social(x@),
            Record::Authorization(x) => RecordView::Authorization(x@),
            Record::Offences(x) => RecordView::Offences(x@),
            Record::Config(x) => RecordView::Config(x@),
            Record::State(x) => RecordView::State(x@),
        }
    }
}

impl View for Record {
    type V = RecordView;

    open spec fn view(&self) -> RecordView {
        self.deep_view()
    }
}

impl Clone for Record {
    fn clone(&self) -> (r: Self)
        ensures
            r@ == self@,
    {
        match self {
            Record::Channel(x) => Record::Channel(x.clone()),
            Record::Command(x) => Record::Command(x.clone()),
            Record::Quote(x) => Record::Quote(x.clone()),
            Record::Trust(x) => Record::Trust(x.clone()),
            Record::Alias(x) => Record::Alias(x.clone()),
            Record::Social(x) => Record::Social(x.clone()),
            Record::Authorization(x) => Record::Authorization(x.clone()),
            Record::Offences(x) => Record::Offences(x.clone()),
            Record::Config(x) => Record::Config(x.clone()),
            Record::State(x) => Record::State(x.clone()),
        }
    }
}

impl RecordView {
    /// The collection that holds the record.
    pub open spec fn collection(self) -> Collection {
        match self {
            RecordView::Channel(_) => Collection::Channels,
            RecordView::Command(_) => Collection::Commands,
            RecordView::Quote(_) => Collection::Quotes,
            RecordView::Trust(_) => Collection::Trusts,
            RecordView::Alias(_) => Collection::Aliases,
            RecordView::Social(_) => Collection::Socials,
            RecordView::Authorization(_) => Collection::Authorization,
            RecordView::Offences(_) => Collection::Offences,
            RecordView::Config(_) => Collection::Configs,
            RecordView::State(_) => Collection::State,
        }
    }

    /// The text that `field` holds in the record, if it is one of the text
    /// fields by which records of its kind are found.
    pub open spec fn text_field(self, field: Field) -> Option<Seq<char>> {
        match (self, field) {
            (RecordView::Channel(x), Field::Token) => Some(x.token),
            (RecordView::Command(x), Field::Channel) => Some(x.channel),
            (RecordView::Command(x), Field::Name) => Some(x.name),
            (RecordView::Quote(x), Field::Channel) => Some(x.channel),
            (RecordView::Trust(x), Field::Channel) => Some(x.channel),
            (RecordView::Trust(x), Field::Trusted) => Some(x.trusted),
            (RecordView::Alias(x), Field::Channel) => Some(x.channel),
            (RecordView::Alias(x), Field::Alias) => Some(x.alias),
            (RecordView::Alias(x), Field::Command) => Some(x.command),
            (RecordView::Social(x), Field::Channel) => Some(x.channel),
            (RecordView::Social(x), Field::Service) => Some(x.service),
            (RecordView::Authorization(x), Field::Channel) => Some(x.channel),
            (RecordView::Authorization(x), Field::Service) => Some(x.service),
            (RecordView::Offences(x), Field::Channel) => Some(x.channel),
            (RecordView::Offences(x), Field::Service) => Some(x.service),
            (RecordView::Offences(x), Field::User) => Some(x.user),
            (RecordView::Config(x), Field::Channel) => Some(x.channel),
            (RecordView::State(x), Field::Channel) => Some(x.channel),
            (RecordView::State(x), Field::Service) => x.service,
            _ => None,
        }
    }

    /// What `field` holds in the record, if records of its kind are found
    /// by that field.
    pub open spec fn field(self, field: Field) -> Option<ValueView> {
        match (self, field) {
            (RecordView::Quote(x), Field::QuoteId) => Some(ValueView::Number(x.quote_id)),
            _ => match self.text_field(field) {
                Some(text) => Some(ValueView::Text(text)),
                None => None,
            },
        }
    }

    /// Whether the record meets the term.
    pub open spec fn satisfies(self, term: TermView) -> bool {
        self.field(term.field) == Some(term.value)
    }

    /// Whether the record is one of those that the filter selects.
    pub open spec fn matches(self, filter: FilterView) -> bool {
        &&& self.collection() == filter.collection
        &&& forall|i: int| 0 <= i < filter.terms.len() ==> self.satisfies(#[trigger] filter.terms[i])
    }
}

impl Record {
    /// The collection that holds the record.
    pub fn collection(&self) -> (r: Collection)
        ensures
            r == self@.collection(),
    {
        match self {
            Record::Channel(_) => Collection::Channels,
            Record::Command(_) => Collection::Commands,
            Record::Quote(_) => Collection::Quotes,
            Record::Trust(_) => Collection::Trusts,
            Record::Alias(_) => Collection::Aliases,
            Record::Social(_) => Collection::Socials,
            Record::Authorization(_) => Collection::Authorization,
            Record::Offences(_) => Collection::Offences,
            Record::Config(_) => Collection::Configs,
            Record::State(_) => Collection::State,
        }
    }

    /// The text that `field` holds in the record.
    fn text_field(&self, field: Field) -> (r: Option<&str>)
        ensures
            match r {
                Some(text) => self@.text_field(field) == Some(text@),
                None => self@.text_field(field) is None,
            },
    {
        match (self, field) {
            (Record::Channel(x), Field::Token) => Some(x.token.as_str()),
            (Record::Command(x), Field::Channel) => Some(x.channel.as_str()),
            (Record::Command(x), Field::Name) => Some(x.name.as_str()),
            (Record::Quote(x), Field::Channel) => Some(x.channel.as_str()),
            (Record::Trust(x), Field::Channel) => Some(x.channel.as_str()),
            (Record::Trust(x), Field::Trusted) => Some(x.trusted.as_str()),
            (Record::Alias(x), Field::Channel) => Some(x.channel.as_str()),
            (Record::Alias(x), Field::Alias) => Some(x.alias.as_str()),
            (Record::Alias(x), Field::Command) => Some(x.command.as_str()),
            (Record::Social(x), Field::Channel) => Some(x.channel.as_str()),
            (Record::Social(x), Field::Service) => Some(x.service.as_str()),
            (Record::Authorization(x), Field::Channel) => Some(x.channel.as_str()),
            (Record::Authorization(x), Field::Service) => Some(x.service.as_str()),
            (Record::Offences(x), Field::Channel) => Some(x.channel.as_str()),
            (Record::Offences(x), Field::Service) => Some(x.service.as_str()),
            (Record::Offences(x), Field::User) => Some(x.user.as_str()),
            (Record::Config(x), Field::Channel) => Some(x.channel.as_str()),
            (Record::State(x), Field::Channel) => Some(x.channel.as_str()),
            (Record::State(x), Field::Service) => match &x.service {
                Some(service) => Some(service.as_str()),
                None => None,
            },
            _ => None,
        }
    }

    /// Whether the record meets the term.
    pub fn satisfies(&self, term: &Term) -> (r: bool)
        ensures
            r == self@.satisfies(term@),
    {
        match (self, term.field) {
            (Record::Quote(x), Field::QuoteId) => term.value.is_number(x.quote_id),
            _ => match self.text_field(term.field) {
                Some(text) => term.value.is_text(text),
                None => false,
            },
        }
    }

    /// Whether the record is one of those that the filter selects.
    pub fn matches(&self, filter: &Filter) -> (r: bool)
        ensures
            r == self@.matches(filter@),
    {
        if self.collection() != filter.collection {
            return false;
        }
        let mut i: usize = 0;
        while i < filter.terms.len()
            invariant
                0 <= i <= filter.terms.len(),
                forall|k: int| 0 <= k < i ==> self@.satisfies(#[trigger] filter@.terms[k]),
            decreases filter.terms.len() - i,
        {
            assert(filter@.terms[i as int] == filter.terms[i as int]@);
            if !self.satisfies(&filter.terms[i]) {
                return false;
            }
            i = i + 1;
        }
        true
    }
}


/// A change of one field of a record.
#[derive(Debug, PartialEq, Eq)]
pub enum Patch {
    /// A new response, for a command or a quote.
    Response(Vec<Message>),
    /// A new use count, for a command.
    Count(i32),
    /// A new enabled flag, for a command.
    Enabled(bool),
}

pub enum PatchView {
    Response(Seq<MessageView>),
    Count(i32),
    Enabled(bool),
}

impl DeepView for Patch {
    type V = PatchView;

    open spec fn deep_view(&self) -> PatchView {
        match self {
            Patch::Response(response) => PatchView::Response(response.deep_view()),
            Patch::Count(count) => PatchView::Count(*count),
            Patch::Enabled(enabled) => PatchView::Enabled(*enabled),
        }
    }
}

impl View for Patch {
    type V = PatchView;

    open spec fn view(&self) -> PatchView {
        self.deep_view()
    }
}

impl RecordView {
    /// The record after the patch; a patch for a field that the record
    /// lacks leaves it as it is.
    pub open spec fn patched(self, patch: PatchView) -> RecordView {
        match (self, patch) {
            (RecordView::Command(x), PatchView::Response(response)) => RecordView::Command(
                CommandView { response, ..x },
            ),
            (RecordView::Quote(x), PatchView::Response(response)) => RecordView::Quote(
                QuoteView { response, ..x },
            ),
            (RecordView::Command(x), PatchView::Count(count)) => RecordView::Command(
                CommandView { meta: crate::structures::CommandMetaView { count, ..x.meta }, ..x },
            ),
            (RecordView::Command(x), PatchView::Enabled(enabled)) => RecordView::Command(
                CommandView { meta: crate::structures::CommandMetaView { enabled, ..x.meta }, ..x },
            ),
            _ => self,
        }
    }
}

impl Record {
    /// The record after the patch.
    pub fn patched(self, patch: &Patch) -> (r: Record)
        ensures
            r@ == self@.patched(patch@),
    {
        match self {
            Record::Command(command) => {
                let mut command = command;
                match patch {
                    Patch::Response(response) => {
                        command.response = clone_response(response);
                    },
                    Patch::Count(count) => {
                        command.meta.count = *count;
                    },
                    Patch::Enabled(enabled) => {
                        command.meta.enabled = *enabled;
                    },
                }
                Record::Command(command)
            },
            Record::Quote(quote) => {
                let mut quote = quote;
                match patch {
                    Patch::Response(response) => {
                        quote.response = clone_response(response);
                    },
                    _ => {},
                }
                Record::Quote(quote)
            },
            other => other,
        }
    }
}

/// What the repository asks of the database.
#[derive(Debug, PartialEq, Eq)]
pub enum Query {
    /// The first record that the filter selects.
    FindOne(Filter),
    /// Every record that the filter selects, in stored order.
    FindAll(Filter),
    /// How many records the filter selects.
    Count(Filter),
    /// One of the records that the filter selects, drawn at random.
    Sample(Filter),
    /// Store the record.
    Insert(Record),
    /// Remove the first record that the filter selects.
    DeleteOne(Filter),
    /// Remove every record that the filter selects.
    DeleteMany(Filter),
    /// Patch the first record that the filter selects.
    Update(Filter, Patch),
    /// Put the record in the place of the first that the filter selects.
    Replace(Filter, Record),
    /// As `Replace`; where the filter selects nothing, store the record.
    Upsert(Filter, Record),
}

pub enum QueryView {
    FindOne(FilterView),
    FindAll(FilterView),
    Count(FilterView),
    Sample(FilterView),
    Insert(RecordView),
    DeleteOne(FilterView),
    DeleteMany(FilterView),
    Update(FilterView, PatchView),
    Replace(FilterView, RecordView),
    Upsert(FilterView, RecordView),
}

impl DeepView for Query {
    type V = QueryView;

    open spec fn deep_view(&self) -> QueryView {
        match self {
            Query::FindOne(f) => QueryView::FindOne(f@),
            Query::FindAll(f) => QueryView::FindAll(f@),
            Query::Count(f) => QueryView::Count(f@),
            Query::Sample(f) => QueryView::Sample(f@),
            Query::Insert(r) => QueryView::Insert(r@),
            Query::DeleteOne(f) => QueryView::DeleteOne(f@),
            Query::DeleteMany(f) => QueryView::DeleteMany(f@),
            Query::Update(f, p) => QueryView::Update(f@, p@),
            Query::Replace(f, r) => QueryView::Replace(f@, r@),
            Query::Upsert(f, r) => QueryView::Upsert(f@, r@),
        }
    }
}

impl View for Query {
    type V = QueryView;

    open spec fn view(&self) -> QueryView {
        self.deep_view()
    }
}

/// What the database answers.
#[derive(Debug, PartialEq, Eq)]
pub enum Reply {
    /// The record asked for, if there is one.
    Found(Option<Record>),
    /// The records asked for.
    Listed(Vec<Record>),
    /// The number asked for.
    Counted(i64),
    /// The write was made.
    Done,
    /// The database failed.
    Failed(DatabaseFailure),
}

pub enum ReplyView {
    Found(Option<RecordView>),
    Listed(Seq<RecordView>),
    Counted(i64),
    Done,
    Failed(Seq<char>),
}

impl DeepView for Reply {
    type V = ReplyView;

    open spec fn deep_view(&self) -> ReplyView {
        match self {
            Reply::Found(record) => ReplyView::Found(record.deep_view()),
            Reply::Listed(records) => ReplyView::Listed(records.deep_view()),
            Reply::Counted(count) => ReplyView::Counted(*count),
            Reply::Done => ReplyView::Done,
            Reply::Failed(failure) => ReplyView::Failed(failure@),
        }
    }
}

impl View for Reply {
    type V = ReplyView;

    open spec fn view(&self) -> ReplyView {
        self.deep_view()
    }
}

} // verus!
