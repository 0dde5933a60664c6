//! Every operation of the repository as a conversation with the database:
//! a step either asks a query and says how to go on with the reply, or
//! finishes with the outcome.  Whoever holds the database sends each query
//! and hands the reply to `Pending::resume`.

use crate::delta::{apply_delta, delta_outcome, DeltaError};
use crate::errors::{HandlerError, HandlerErrorView, Reason};
use crate::hasher::{hash_outcome, hash_password};
use crate::keys::{command_named, offences_of};
use crate::payloads::PostChannel;
use crate::store::{
    Collection, Filter, FilterView, Patch, PatchView, Query, QueryView, Record, RecordView, Reply,
    ReplyView,
};
use crate::structures::{
    identifier_view, Channel, Message, MessageView, Quote, QuoteView, UserOffences, UserOffencesView,
};
use vstd::prelude::*;

verus! {

/// What an operation hands back when it succeeds.
#[derive(Debug, PartialEq, Eq)]
pub enum Answer {
    Nothing,
    Flag(bool),
    Number(i64),
    One(Record),
    Many(Vec<Record>),
}

pub enum AnswerView {
    Nothing,
    Flag(bool),
    Number(i64),
    One(RecordView),
    Many(Seq<RecordView>),
}

impl DeepView for Answer {
    type V = AnswerView;

    open spec fn deep_view(&self) -> AnswerView {
        match self {
            Answer::Nothing => AnswerView::Nothing,
            Answer::Flag(flag) => AnswerView::Flag(*flag),
            Answer::Number(number) => AnswerView::Number(*number),
            Answer::One(record) => AnswerView::One(record@),
            Answer::Many(records) => AnswerView::Many(records.deep_view()),
        }
    }
}

impl View for Answer {
    type V = AnswerView;

    open spec fn view(&self) -> AnswerView {
        self.deep_view()
    }
}

/// The outcome of an operation.
pub type Outcome = Result<Answer, HandlerError>;

/// The view of an outcome.
pub open spec fn outcome_view(outcome: Outcome) -> Result<AnswerView, HandlerErrorView> {
    match outcome {
        Ok(answer) => Ok(answer@),
        Err(error) => Err(error@),
    }
}

/// How an operation goes on once the database has replied.
#[derive(Debug, PartialEq, Eq)]
pub enum Pending {
    /// Hand back the record found, which is of `collection`; fail with
    /// `missing` if there is none.
    Found { collection: Collection, missing: Reason },
    /// Hand back the records listed, which are of `collection`; fail with
    /// `empty`, if that is set, where there are none.
    Listed { collection: Collection, empty: Option<Reason> },
    /// Fail with `conflict` if a record was found; else store `record` and
    /// hand it back.
    Absent { conflict: Reason, record: Record },
    /// Fail with `missing` if no record was found; else send `writes` in turn.
    Present { missing: Reason, writes: Vec<Query> },
    /// Send the writes that are left, then hand back `answer`.
    Writes { writes: Vec<Query>, answer: Answer },
    /// Sign a channel up unless its token is taken.  `id` is the identifier
    /// for it, if one could be made.
    Signup {
        name: String,
        password: String,
        pepper: String,
        salt: String,
        id: Option<[u8; 12]>,
        now: String,
    },
    /// Apply `delta` to the use count of the command found.
    Recount { filter: Filter, delta: String },
    /// Set the enabled flag of the command found and hand back the old one.
    Toggle { filter: Filter, enabled: bool },
    /// Store a quote under the number after the count.
    Number { channel: String, response: Vec<Message> },
    /// Look up the command of the alias found.
    Target { channel: String },
    /// Look up the commands of the aliases listed.
    Targets { channel: String },
    /// Take the command found for one alias and look up the next.
    Resolving { channel: String, aliases: Vec<Record>, resolved: Vec<Record> },
    /// Apply `delta` to a counter of the offences found; without a record,
    /// store an empty one first.
    Offence { channel: String, service: String, user: String, attribute: String, delta: String },
    /// Apply `delta` to a counter of the record that was just stored.
    OffenceStored { offences: UserOffences, attribute: String, delta: String },
}

pub enum PendingView {
    Found { collection: Collection, missing: Reason },
    Listed { collection: Collection, empty: Option<Reason> },
    Absent { conflict: Reason, record: RecordView },
    Present { missing: Reason, writes: Seq<QueryView> },
    Writes { writes: Seq<QueryView>, answer: AnswerView },
    Signup {
        name: Seq<char>,
        password: Seq<char>,
        pepper: Seq<char>,
        salt: Seq<char>,
        id: Option<Seq<u8>>,
        now: Seq<char>,
    },
    Recount { filter: FilterView, delta: Seq<char> },
    Toggle { filter: FilterView, enabled: bool },
    Number { channel: Seq<char>, response: Seq<MessageView> },
    Target { channel: Seq<char> },
    Targets { channel: Seq<char> },
    Resolving { channel: Seq<char>, aliases: Seq<RecordView>, resolved: Seq<RecordView> },
    Offence {
        channel: Seq<char>,
        service: Seq<char>,
        user: Seq<char>,
        attribute: Seq<char>,
        delta: Seq<char>,
    },
    OffenceStored { offences: UserOffencesView, attribute: Seq<char>, delta: Seq<char> },
}

impl DeepView for Pending {
    type V = PendingView;

    open spec fn deep_view(&self) -> PendingView {
        match self {
            Pending::Found { collection, missing } => PendingView::Found {
                collection: *collection,
                missing: *missing,
            },
            Pending::Listed { collection, empty } => PendingView::Listed {
                collection: *collection,
                empty: *empty,
            },
            Pending::Absent { conflict, record } => PendingView::Absent {
                conflict: *conflict,
                record: record@,
            },
            Pending::Present { missing, writes } => PendingView::Present {
                missing: *missing,
                writes: writes.deep_view(),
            },
            Pending::Writes { writes, answer } => PendingView::Writes {
                writes: writes.deep_view(),
                answer: answer@,
            },
            Pending::Signup { name, password, pepper, salt, id, now } => PendingView::Signup {
                name: name@,
                password: password@,
                pepper: pepper@,
                salt: salt@,
                id: identifier_view(*id),
                now: now@,
            },
            Pending::Recount { filter, delta } => PendingView::Recount {
                filter: filter@,
                delta: delta@,
            },
            Pending::Toggle { filter, enabled } => PendingView::Toggle {
                filter: filter@,
                enabled: *enabled,
            },
            Pending::Number { channel, response } => PendingView::Number {
                channel: channel@,
                response: response.deep_view(),
            },
            Pending::Target { channel } => PendingView::Target { channel: channel@ },
            Pending::Targets { channel } => PendingView::Targets { channel: channel@ },
            Pending::Resolving { channel, aliases, resolved } => PendingView::Resolving {
                channel: channel@,
                aliases: aliases.deep_view(),
                resolved: resolved.deep_view(),
            },
            Pending::Offence { channel, service, user, attribute, delta } => PendingView::Offence {
                channel: channel@,
                service: service@,
                user: user@,
                attribute: attribute@,
                delta: delta@,
            },
            Pending::OffenceStored { offences, attribute, delta } => PendingView::OffenceStored {
                offences: offences@,
                attribute: attribute@,
                delta: delta@,
            },
        }
    }
}

impl View for Pending {
    type V = PendingView;

    open spec fn view(&self) -> PendingView {
        self.deep_view()
    }
}

/// One step of an operation.
#[derive(Debug, PartialEq, Eq)]
pub enum Step {
    /// Send the query and resume with the reply.
    Ask(Query, Pending),
    /// The operation is over.
    Finish(Outcome),
}

pub enum StepView {
    Ask(QueryView, PendingView),
    Finish(Result<AnswerView, HandlerErrorView>),
}

impl DeepView for Step {
    type V = StepView;

    open spec fn deep_view(&self) -> StepView {
        match self {
            Step::Ask(query, pending) => StepView::Ask(query@, pending@),
            Step::Finish(outcome) => StepView::Finish(outcome_view(*outcome)),
        }
    }
}

impl View for Step {
    type V = StepView;

    open spec fn view(&self) -> StepView {
        self.deep_view()
    }
}

/// The step that ends an operation with `error`.
pub open spec fn fails(error: HandlerErrorView) -> StepView {
    StepView::Finish(Err(error))
}

/// The step that ends an operation because the database answered what it
/// was not asked.
pub open spec fn confused() -> StepView {
    fails(HandlerErrorView::InternalError)
}

/// The step that sends the first of `writes`, or hands back `answer` when
/// none is left.
pub open spec fn next_write(writes: Seq<QueryView>, answer: AnswerView) -> StepView {
    if writes.len() == 0 {
        StepView::Finish(Ok(answer))
    } else {
        StepView::Ask(writes[0], PendingView::Writes { writes: writes.drop_first(), answer })
    }
}

/// The step that stores `record` and then hands it back.
pub open spec fn store_and_return(record: RecordView) -> StepView {
    StepView::Ask(
        QueryView::Insert(record),
        PendingView::Writes { writes: Seq::empty(), answer: AnswerView::One(record) },
    )
}

/// Whether every one of `records` is of `collection`.
pub open spec fn all_of(records: Seq<RecordView>, collection: Collection) -> bool {
    forall|i: int| 0 <= i < records.len() ==> (#[trigger] records[i]).collection() == collection
}

/// The error that a rejected delta becomes.
pub open spec fn delta_error(error: DeltaError) -> HandlerErrorView {
    match error {
        DeltaError::InvalidCount => HandlerErrorView::Validation(Reason::InvalidCount),
        DeltaError::InvalidOperator => HandlerErrorView::Validation(Reason::InvalidOperator),
    }
}

/// After `Found`: the record, or `missing`.
pub open spec fn after_found(collection: Collection, missing: Reason, reply: ReplyView) -> StepView {
    match reply {
        ReplyView::Found(Some(record)) => if record.collection() == collection {
            StepView::Finish(Ok(AnswerView::One(record)))
        } else {
            confused()
        },
        ReplyView::Found(None) => fails(HandlerErrorView::NotFound(missing)),
        _ => confused(),
    }
}

/// After `Listed`: the records, or `empty` where that is set and there are none.
pub open spec fn after_listed(
    collection: Collection,
    empty: Option<Reason>,
    reply: ReplyView,
) -> StepView {
    match reply {
        ReplyView::Listed(records) => if !all_of(records, collection) {
            confused()
        } else if records.len() == 0 && empty is Some {
            fails(HandlerErrorView::NotFound(empty->0))
        } else {
            StepView::Finish(Ok(AnswerView::Many(records)))
        },
        _ => confused(),
    }
}

/// After `Absent`: `conflict` if something was found, else the insertion.
pub open spec fn after_absent(conflict: Reason, record: RecordView, reply: ReplyView) -> StepView {
    match reply {
        ReplyView::Found(Some(_)) => fails(HandlerErrorView::Conflict(conflict)),
        ReplyView::Found(None) => store_and_return(record),
        _ => confused(),
    }
}

/// After `Present`: `missing` if nothing was found, else the writes.
pub open spec fn after_present(missing: Reason, writes: Seq<QueryView>, reply: ReplyView) -> StepView {
    match reply {
        ReplyView::Found(Some(_)) => next_write(writes, AnswerView::Nothing),
        ReplyView::Found(None) => fails(HandlerErrorView::NotFound(missing)),
        _ => confused(),
    }
}

/// After `Writes`: the next write, or the answer.
pub open spec fn after_writes(writes: Seq<QueryView>, answer: AnswerView, reply: ReplyView) -> StepView {
    match reply {
        ReplyView::Done => next_write(writes, answer),
        _ => confused(),
    }
}

/// After `Signup`: a conflict if the token is taken; an internal error if
/// the password cannot be hashed or no identifier could be made; else the
/// insertion of the new channel.
pub open spec fn after_signup(
    name: Seq<char>,
    password: Seq<char>,
    pepper: Seq<char>,
    salt: Seq<char>,
    id: Option<Seq<u8>>,
    now: Seq<char>,
    reply: ReplyView,
) -> StepView {
    match reply {
        ReplyView::Found(Some(_)) => fails(HandlerErrorView::Conflict(Reason::ChannelExists)),
        ReplyView::Found(None) => match (hash_outcome(password, pepper, salt), id) {
            (Ok(hash), Some(bytes)) => store_and_return(
                RecordView::Channel(Channel::signed_up(name, hash, bytes, now)),
            ),
            _ => confused(),
        },
        _ => confused(),
    }
}

/// After `Recount`: the update of the use count, which is handed back.
pub open spec fn after_recount(filter: FilterView, delta: Seq<char>, reply: ReplyView) -> StepView {
    match reply {
        ReplyView::Found(Some(RecordView::Command(command))) => match delta_outcome(
            command.meta.count as int,
            delta,
        ) {
            Ok(count) => StepView::Ask(
                QueryView::Update(filter, PatchView::Count(count as i32)),
                PendingView::Writes {
                    writes: Seq::empty(),
                    answer: AnswerView::Number(count as i64),
                },
            ),
            Err(error) => fails(delta_error(error)),
        },
        ReplyView::Found(Some(_)) => confused(),
        ReplyView::Found(None) => fails(HandlerErrorView::NotFound(Reason::NoCommand)),
        _ => confused(),
    }
}

/// After `Toggle`: the update of the flag; the old flag is handed back.
pub open spec fn after_toggle(filter: FilterView, enabled: bool, reply: ReplyView) -> StepView {
    match reply {
        ReplyView::Found(Some(RecordView::Command(command))) => StepView::Ask(
            QueryView::Update(filter, PatchView::Enabled(enabled)),
            PendingView::Writes {
                writes: Seq::empty(),
                answer: AnswerView::Flag(command.meta.enabled),
            },
        ),
        ReplyView::Found(Some(_)) => confused(),
        ReplyView::Found(None) => fails(HandlerErrorView::NotFound(Reason::CommandDoesNotExist)),
        _ => confused(),
    }
}

/// After `Number`: the insertion of the quote under the count plus one,
/// and that number is handed back.
pub open spec fn after_number(
    channel: Seq<char>,
    response: Seq<MessageView>,
    reply: ReplyView,
) -> StepView {
    match reply {
        ReplyView::Counted(count) => if 0 <= count < i64::MAX {
            StepView::Ask(
                QueryView::Insert(
                    RecordView::Quote(
                        QuoteView { quote_id: (count + 1) as i64, response, channel },
                    ),
                ),
                PendingView::Writes {
                    writes: Seq::empty(),
                    answer: AnswerView::Number((count + 1) as i64),
                },
            )
        } else {
            confused()
        },
        _ => confused(),
    }
}

/// The step that looks up the command called `name` in `channel`.
pub open spec fn look_up(channel: Seq<char>, name: Seq<char>, then: PendingView) -> StepView {
    StepView::Ask(QueryView::FindOne(command_named(channel, name)), then)
}

/// After `Target`: the lookup of the command that the alias stands for.
pub open spec fn after_target(channel: Seq<char>, reply: ReplyView) -> StepView {
    match reply {
        ReplyView::Found(Some(RecordView::Alias(alias))) => look_up(
            channel,
            alias.command,
            PendingView::Found { collection: Collection::Commands, missing: Reason::NoCommand },
        ),
        ReplyView::Found(Some(_)) => confused(),
        ReplyView::Found(None) => fails(HandlerErrorView::NotFound(Reason::NoAlias)),
        _ => confused(),
    }
}

/// The step that looks up the command of the first of `aliases`, or hands
/// back `resolved` when none is left.
pub open spec fn resolve_next(
    channel: Seq<char>,
    aliases: Seq<RecordView>,
    resolved: Seq<RecordView>,
) -> StepView {
    if aliases.len() == 0 {
        StepView::Finish(Ok(AnswerView::Many(resolved)))
    } else {
        match aliases[0] {
            RecordView::Alias(alias) => look_up(
                channel,
                alias.command,
                PendingView::Resolving { channel, aliases: aliases.drop_first(), resolved },
            ),
            _ => confused(),
        }
    }
}

/// After `Targets`: the lookup of the first alias's command.
pub open spec fn after_targets(channel: Seq<char>, reply: ReplyView) -> StepView {
    match reply {
        ReplyView::Listed(aliases) => resolve_next(channel, aliases, Seq::empty()),
        _ => confused(),
    }
}

/// After `Resolving`: the command found joins the others; a missing command
/// ends the operation.
pub open spec fn after_resolving(
    channel: Seq<char>,
    aliases: Seq<RecordView>,
    resolved: Seq<RecordView>,
    reply: ReplyView,
) -> StepView {
    match reply {
        ReplyView::Found(Some(RecordView::Command(command))) => resolve_next(
            channel,
            aliases,
            resolved.push(RecordView::Command(command)),
        ),
        ReplyView::Found(Some(_)) => confused(),
        ReplyView::Found(None) => fails(HandlerErrorView::NotFound(Reason::NoCommand)),
        _ => confused(),
    }
}

/// The step that applies `delta` to the counter `attribute` of `record`:
/// the replacement of the stored record by the changed one, which is
/// handed back.
pub open spec fn adjust(record: UserOffencesView, attribute: Seq<char>, delta: Seq<char>) -> StepView {
    match record.attribute(attribute) {
        None => fails(HandlerErrorView::Validation(Reason::InvalidOffenceType)),
        Some(current) => match delta_outcome(current as int, delta) {
            Err(error) => fails(delta_error(error)),
            Ok(count) => {
                let changed = RecordView::Offences(
                    record.with_attribute(attribute, count as i32)->0,
                );
                StepView::Ask(
                    QueryView::Replace(
                        offences_of(record.channel, record.service, record.user),
                        changed,
                    ),
                    PendingView::Writes { writes: Seq::empty(), answer: AnswerView::One(changed) },
                )
            },
        },
    }
}

/// After `Offence`: the change of the record found; without one, the
/// insertion of an empty record first.
pub open spec fn after_offence(
    channel: Seq<char>,
    service: Seq<char>,
    user: Seq<char>,
    attribute: Seq<char>,
    delta: Seq<char>,
    reply: ReplyView,
) -> StepView {
    match reply {
        ReplyView::Found(Some(RecordView::Offences(record))) => adjust(record, attribute, delta),
        ReplyView::Found(Some(_)) => confused(),
        ReplyView::Found(None) => {
            let record = UserOffencesView::zero(channel, service, user);
            StepView::Ask(
                QueryView::Insert(RecordView::Offences(record)),
                PendingView::OffenceStored { offences: record, attribute, delta },
            )
        },
        _ => confused(),
    }
}

/// After `OffenceStored`: the change of the record that was stored.
pub open spec fn after_offence_stored(
    record: UserOffencesView,
    attribute: Seq<char>,
    delta: Seq<char>,
    reply: ReplyView,
) -> StepView {
    match reply {
        ReplyView::Done => adjust(record, attribute, delta),
        _ => confused(),
    }
}

/// The step that follows when the database answers `reply` to the query of
/// a step that left `pending`.  A failure of the database ends every
/// operation with that failure.
pub open spec fn resumed(pending: PendingView, reply: ReplyView) -> StepView {
    match reply {
        ReplyView::Failed(failure) => fails(HandlerErrorView::DatabaseError(failure)),
        _ => match pending {
            PendingView::Found { collection, missing } => after_found(collection, missing, reply),
            PendingView::Listed { collection, empty } => after_listed(collection, empty, reply),
            PendingView::Absent { conflict, record } => after_absent(conflict, record, reply),
            PendingView::Present { missing, writes } => after_present(missing, writes, reply),
            PendingView::Writes { writes, answer } => after_writes(writes, answer, reply),
            PendingView::Signup { name, password, pepper, salt, id, now } => after_signup(
                name,
                password,
                pepper,
                salt,
                id,
                now,
                reply,
            ),
            PendingView::Recount { filter, delta } => after_recount(filter, delta, reply),
            PendingView::Toggle { filter, enabled } => after_toggle(filter, enabled, reply),
            PendingView::Number { channel, response } => after_number(channel, response, reply),
            PendingView::Target { channel } => after_target(channel, reply),
            PendingView::Targets { channel } => after_targets(channel, reply),
            PendingView::Resolving { channel, aliases, resolved } => after_resolving(
                channel,
                aliases,
                resolved,
                reply,
            ),
            PendingView::Offence { channel, service, user, attribute, delta } => after_offence(
                channel,
                service,
                user,
                attribute,
                delta,
                reply,
            ),
            PendingView::OffenceStored { offences, attribute, delta } => after_offence_stored(
                offences,
                attribute,
                delta,
                reply,
            ),
        },
    }
}


/// The step that ends an operation with `error`.
fn failing(error: HandlerError) -> (step: Step)
    ensures
        step@ == fails(error@),
{
    Step::Finish(Err(error))
}

/// The step that ends an operation on an answer that was not asked for.
fn confused_step() -> (step: Step)
    ensures
        step@ == confused(),
{
    Step::Finish(Err(HandlerError::InternalError))
}

/// The step that sends the first of `writes`, or hands back `answer`.
fn next_write_step(writes: Vec<Query>, answer: Answer) -> (step: Step)
    ensures
        step@ == next_write(writes.deep_view(), answer@),
{
    let mut writes = writes;
    if writes.len() == 0 {
        Step::Finish(Ok(answer))
    } else {
        let ghost before = writes.deep_view();
        let first = writes.remove(0);
        assert(writes.deep_view() =~= before.drop_first());
        assert(before[0] == first@);
        Step::Ask(first, Pending::Writes { writes, answer })
    }
}

/// The step that sends `query` and then hands back `answer`.
pub(crate) fn write_step(query: Query, answer: Answer) -> (step: Step)
    ensures
        step@ == StepView::Ask(
            query@,
            PendingView::Writes { writes: Seq::empty(), answer: answer@ },
        ),
{
    let writes: Vec<Query> = Vec::new();
    assert(writes.deep_view() =~= Seq::empty());
    Step::Ask(query, Pending::Writes { writes, answer })
}

/// The step that stores `record` and then hands it back.
pub(crate) fn store_and_return_step(record: Record) -> (step: Step)
    ensures
        step@ == store_and_return(record@),
{
    let copy = record.clone();
    write_step(Query::Insert(record), Answer::One(copy))
}

/// Whether every one of `records` is of `collection`.
fn every_one_of(records: &Vec<Record>, collection: Collection) -> (r: bool)
    ensures
        r == all_of(records.deep_view(), collection),
{
    let mut i: usize = 0;
    while i < records.len()
        invariant
            0 <= i <= records.len(),
            forall|k: int| 0 <= k < i ==> (#[trigger] records.deep_view()[k]).collection() == collection,
        decreases records.len() - i,
    {
        assert(records.deep_view()[i as int] == records[i as int]@);
        if records[i].collection() != collection {
            return false;
        }
        i = i + 1;
    }
    true
}

/// The error that a rejected delta becomes.
fn delta_failure(error: DeltaError) -> (r: HandlerError)
    ensures
        r@ == delta_error(error),
{
    match error {
        DeltaError::InvalidCount => HandlerError::Validation(Reason::InvalidCount),
        DeltaError::InvalidOperator => HandlerError::Validation(Reason::InvalidOperator),
    }
}

/// What `apply_delta` gives, with the error as the repository reports it.
fn changed_counter(current: i32, delta: &str) -> (r: Result<i32, HandlerError>)
    ensures
        match r {
            Ok(count) => delta_outcome(current as int, delta@) == Ok::<int, DeltaError>(
                count as int,
            ),
            Err(error) => delta_outcome(current as int, delta@) is Err && error@ == delta_error(
                delta_outcome(current as int, delta@)->Err_0,
            ),
        },
{
    match apply_delta(current, delta) {
        Ok(count) => Ok(count),
        Err(error) => Err(delta_failure(error)),
    }
}

/// The step that looks up the command called `name` in `channel`.
fn look_up_step(channel: &str, name: &str, then: Pending) -> (step: Step)
    ensures
        step@ == look_up(channel@, name@, then@),
{
    Step::Ask(Query::FindOne(Filter::command_named(channel, name)), then)
}

/// The step that looks up the command of the first of `aliases`, or hands
/// back `resolved`.
fn resolve_next_step(channel: String, aliases: Vec<Record>, resolved: Vec<Record>) -> (step: Step)
    ensures
        step@ == resolve_next(channel@, aliases.deep_view(), resolved.deep_view()),
{
    let mut aliases = aliases;
    if aliases.len() == 0 {
        Step::Finish(Ok(Answer::Many(resolved)))
    } else {
        let ghost before = aliases.deep_view();
        let first = aliases.remove(0);
        assert(aliases.deep_view() =~= before.drop_first());
        assert(before[0] == first@);
        match first {
            Record::Alias(alias) => {
                let query = Query::FindOne(
                    Filter::command_named(channel.as_str(), alias.command.as_str()),
                );
                Step::Ask(query, Pending::Resolving { channel, aliases, resolved })
            },
            _ => confused_step(),
        }
    }
}

/// The step that applies `delta` to the counter `attribute` of `record`.
fn adjust_step(record: UserOffences, attribute: &str, delta: &str) -> (step: Step)
    ensures
        step@ == adjust(record@, attribute@, delta@),
{
    match record.get_attribute(attribute) {
        None => failing(HandlerError::Validation(Reason::InvalidOffenceType)),
        Some(current) => match changed_counter(current, delta) {
            Err(error) => failing(error),
            Ok(count) => {
                let filter = Filter::offences_of(
                    record.channel.as_str(),
                    record.service.as_str(),
                    record.user.as_str(),
                );
                match record.set_attribute(attribute, count) {
                    Ok(changed) => {
                        let copy = changed.clone();
                        write_step(
                            Query::Replace(filter, Record::Offences(changed)),
                            Answer::One(Record::Offences(copy)),
                        )
                    },
                    Err(_) => failing(HandlerError::Validation(Reason::InvalidOffenceType)),
                }
            },
        },
    }
}

impl Pending {
    /// The step that follows when the database has answered `reply`.
    pub fn resume(self, reply: Reply) -> (step: Step)
        ensures
            step@ == resumed(self@, reply@),
    {
        let reply = match reply {
            Reply::Failed(failure) => {
                return failing(HandlerError::DatabaseError(failure));
            },
            other => other,
        };
        match self {
            Pending::Found { collection, missing } => match reply {
                Reply::Found(Some(record)) => if record.collection() == collection {
                    Step::Finish(Ok(Answer::One(record)))
                } else {
                    confused_step()
                },
                Reply::Found(None) => failing(HandlerError::NotFound(missing)),
                _ => confused_step(),
            },
            Pending::Listed { collection, empty } => match reply {
                Reply::Listed(records) => if !every_one_of(&records, collection) {
                    confused_step()
                } else {
                    match empty {
                        Some(reason) => if records.len() == 0 {
                            failing(HandlerError::NotFound(reason))
                        } else {
                            Step::Finish(Ok(Answer::Many(records)))
                        },
                        None => Step::Finish(Ok(Answer::Many(records))),
                    }
                },
                _ => confused_step(),
            },
            Pending::Absent { conflict, record } => match reply {
                Reply::Found(Some(_)) => failing(HandlerError::Conflict(conflict)),
                Reply::Found(None) => store_and_return_step(record),
                _ => confused_step(),
            },
            Pending::Present { missing, writes } => match reply {
                Reply::Found(Some(_)) => next_write_step(writes, Answer::Nothing),
                Reply::Found(None) => failing(HandlerError::NotFound(missing)),
                _ => confused_step(),
            },
            Pending::Writes { writes, answer } => match reply {
                Reply::Done => next_write_step(writes, answer),
                _ => confused_step(),
            },
            Pending::Signup { name, password, pepper, salt, id, now } => match reply {
                Reply::Found(Some(_)) => failing(HandlerError::Conflict(Reason::ChannelExists)),
                Reply::Found(None) => match hash_password(
                    password.as_str(),
                    pepper.as_str(),
                    salt.as_str(),
                ) {
                    Ok(hash) => {
                        let post = PostChannel { name, password };
                        match Channel::assemble(post, hash, id, now) {
                            Some(channel) => store_and_return_step(Record::Channel(channel)),
                            None => confused_step(),
                        }
                    },
                    Err(_) => confused_step(),
                },
                _ => confused_step(),
            },
            Pending::Recount { filter, delta } => match reply {
                Reply::Found(Some(Record::Command(command))) => match changed_counter(
                    command.meta.count,
                    delta.as_str(),
                ) {
                    Ok(count) => write_step(
                        Query::Update(filter, Patch::Count(count)),
                        Answer::Number(count as i64),
                    ),
                    Err(error) => failing(error),
                },
                Reply::Found(Some(_)) => confused_step(),
                Reply::Found(None) => failing(HandlerError::NotFound(Reason::NoCommand)),
                _ => confused_step(),
            },
            Pending::Toggle { filter, enabled } => match reply {
                Reply::Found(Some(Record::Command(command))) => write_step(
                    Query::Update(filter, Patch::Enabled(enabled)),
                    Answer::Flag(command.meta.enabled),
                ),
                Reply::Found(Some(_)) => confused_step(),
                Reply::Found(None) => failing(
                    HandlerError::NotFound(Reason::CommandDoesNotExist),
                ),
                _ => confused_step(),
            },
            Pending::Number { channel, response } => match reply {
                Reply::Counted(count) => if 0 <= count && count < 0x7fff_ffff_ffff_ffff {
                    let quote = Quote { quote_id: count + 1, response, channel };
                    write_step(
                        Query::Insert(Record::Quote(quote)),
                        Answer::Number(count + 1),
                    )
                } else {
                    confused_step()
                },
                _ => confused_step(),
            },
            Pending::Target { channel } => match reply {
                Reply::Found(Some(Record::Alias(alias))) => look_up_step(
                    channel.as_str(),
                    alias.command.as_str(),
                    Pending::Found { collection: Collection::Commands, missing: Reason::NoCommand },
                ),
                Reply::Found(Some(_)) => confused_step(),
                Reply::Found(None) => failing(HandlerError::NotFound(Reason::NoAlias)),
                _ => confused_step(),
            },
            Pending::Targets { channel } => match reply {
                Reply::Listed(aliases) => {
                    let resolved: Vec<Record> = Vec::new();
                    assert(resolved.deep_view() =~= Seq::empty());
                    resolve_next_step(channel, aliases, resolved)
                },
                _ => confused_step(),
            },
            Pending::Resolving { channel, aliases, resolved } => match reply {
                Reply::Found(Some(Record::Command(command))) => {
                    let mut resolved = resolved;
                    let ghost before = resolved.deep_view();
                    let ghost found = command@;
                    resolved.push(Record::Command(command));
                    assert(resolved.deep_view() =~= before.push(RecordView::Command(found)));
                    resolve_next_step(channel, aliases, resolved)
                },
                Reply::Found(Some(_)) => confused_step(),
                Reply::Found(None) => failing(HandlerError::NotFound(Reason::NoCommand)),
                _ => confused_step(),
            },
            Pending::Offence { channel, service, user, attribute, delta } => match reply {
                Reply::Found(Some(Record::Offences(record))) => adjust_step(
                    record,
                    attribute.as_str(),
                    delta.as_str(),
                ),
                Reply::Found(Some(_)) => confused_step(),
                Reply::Found(None) => {
                    let record = UserOffences {
                        channel,
                        service,
                        user,
                        caps: 0,
                        emoji: 0,
                        urls: 0,
                    };
                    let copy = record.clone();
                    Step::Ask(
                        Query::Insert(Record::Offences(record)),
                        Pending::OffenceStored { offences: copy, attribute, delta },
                    )
                },
                _ => confused_step(),
            },
            Pending::OffenceStored { offences, attribute, delta } => match reply {
                Reply::Done => adjust_step(offences, attribute.as_str(), delta.as_str()),
                _ => confused_step(),
            },
        }
    }
}

} // verus!
