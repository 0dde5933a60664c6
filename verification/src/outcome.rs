//! From the outcome of an operation to the value that its caller gets.

use crate::errors::{HandlerError, HandlerErrorView};
use crate::machine::{all_of, outcome_view, Answer, AnswerView, Outcome, Step, StepView};
use crate::rules::{commands, quotes, socials, trusts, Verdict};
use crate::store::{Collection, Record, RecordView};
use crate::structures::{
    Alias, BotAuthorization, BotState, Channel, Command, Config, Quote, SocialService, Trust,
    UserOffences,
};
use vstd::prelude::*;

verus! {

/// The result of an operation of the repository.
pub type HandlerResult<T> = Result<T, HandlerError>;

/// The outcome of an operation that has come to `step`; an operation that
/// still asks has no outcome, which is an internal error.
pub open spec fn ended(step: StepView) -> Verdict<AnswerView> {
    match step {
        StepView::Finish(outcome) => outcome,
        StepView::Ask(_, _) => Err(HandlerErrorView::InternalError),
    }
}

/// The one record of `collection` that the operation hands back.
pub open spec fn one(outcome: Verdict<AnswerView>, collection: Collection) -> Verdict<RecordView> {
    match outcome {
        Ok(AnswerView::One(record)) => if record.collection() == collection {
            Ok(record)
        } else {
            Err(HandlerErrorView::InternalError)
        },
        Ok(_) => Err(HandlerErrorView::InternalError),
        Err(error) => Err(error),
    }
}

/// The records of `collection` that the operation hands back.
pub open spec fn many(outcome: Verdict<AnswerView>, collection: Collection) -> Verdict<
    Seq<RecordView>,
> {
    match outcome {
        Ok(AnswerView::Many(records)) => if all_of(records, collection) {
            Ok(records)
        } else {
            Err(HandlerErrorView::InternalError)
        },
        Ok(_) => Err(HandlerErrorView::InternalError),
        Err(error) => Err(error),
    }
}

/// The number that the operation hands back.
pub open spec fn number(outcome: Verdict<AnswerView>) -> Verdict<i64> {
    match outcome {
        Ok(AnswerView::Number(value)) => Ok(value),
        Ok(_) => Err(HandlerErrorView::InternalError),
        Err(error) => Err(error),
    }
}

/// The 32-bit counter that the operation hands back.
pub open spec fn counter(outcome: Verdict<AnswerView>) -> Verdict<i32> {
    match number(outcome) {
        Ok(value) => if i32::MIN <= value <= i32::MAX {
            Ok(value as i32)
        } else {
            Err(HandlerErrorView::InternalError)
        },
        Err(error) => Err(error),
    }
}

/// The flag that the operation hands back.
pub open spec fn flag(outcome: Verdict<AnswerView>) -> Verdict<bool> {
    match outcome {
        Ok(AnswerView::Flag(value)) => Ok(value),
        Ok(_) => Err(HandlerErrorView::InternalError),
        Err(error) => Err(error),
    }
}

/// The success of an operation that hands back nothing.
pub open spec fn nothing(outcome: Verdict<AnswerView>) -> Verdict<()> {
    match outcome {
        Ok(AnswerView::Nothing) => Ok(()),
        Ok(_) => Err(HandlerErrorView::InternalError),
        Err(error) => Err(error),
    }
}

/// The outcome of an operation that has come to `step`.
pub fn conclude(step: Step) -> (outcome: Outcome)
    ensures
        outcome_view(outcome) == ended(step@),
{
    match step {
        Step::Finish(outcome) => outcome,
        Step::Ask(_, _) => Err(HandlerError::InternalError),
    }
}

/// The one record that the operation hands back.
fn record(outcome: Outcome) -> (r: HandlerResult<Record>)
    ensures
        match r {
            Ok(record) => outcome_view(outcome) == Ok::<AnswerView, HandlerErrorView>(
                AnswerView::One(record@),
            ),
            Err(error) => match outcome_view(outcome) {
                Ok(AnswerView::One(_)) => false,
                Ok(_) => error@ == HandlerErrorView::InternalError,
                Err(e) => error@ == e,
            },
        },
{
    match outcome {
        Ok(Answer::One(record)) => Ok(record),
        Ok(_) => Err(HandlerError::InternalError),
        Err(error) => Err(error),
    }
}

/// The records that the operation hands back.
fn records(outcome: Outcome) -> (r: HandlerResult<Vec<Record>>)
    ensures
        match r {
            Ok(records) => outcome_view(outcome) == Ok::<AnswerView, HandlerErrorView>(
                AnswerView::Many(records.deep_view()),
            ),
            Err(error) => match outcome_view(outcome) {
                Ok(AnswerView::Many(_)) => false,
                Ok(_) => error@ == HandlerErrorView::InternalError,
                Err(e) => error@ == e,
            },
        },
{
    match outcome {
        Ok(Answer::Many(records)) => Ok(records),
        Ok(_) => Err(HandlerError::InternalError),
        Err(error) => Err(error),
    }
}

/// The channel that the operation hands back.
pub fn channel(outcome: Outcome) -> (r: HandlerResult<Channel>)
    ensures
        match one(outcome_view(outcome), Collection::Channels) {
            Ok(record) => r matches Ok(value) && value@ == record->Channel_0,
            Err(e) => r matches Err(error) && error@ == e,
        },
{
    match record(outcome) {
        Ok(Record::Channel(value)) => Ok(value),
        Ok(_) => Err(HandlerError::InternalError),
        Err(error) => Err(error),
    }
}

/// The command that the operation hands back.
pub fn command(outcome: Outcome) -> (r: HandlerResult<Command>)
    ensures
        match one(outcome_view(outcome), Collection::Commands) {
            Ok(record) => r matches Ok(value) && value@ == record->Command_0,
            Err(e) => r matches Err(error) && error@ == e,
        },
{
    match record(outcome) {
        Ok(Record::Command(value)) => Ok(value),
        Ok(_) => Err(HandlerError::InternalError),
        Err(error) => Err(error),
    }
}

/// The quote that the operation hands back.
pub fn quote(outcome: Outcome) -> (r: HandlerResult<Quote>)
    ensures
        match one(outcome_view(outcome), Collection::Quotes) {
            Ok(record) => r matches Ok(value) && value@ == record->Quote_0,
            Err(e) => r matches Err(error) && error@ == e,
        },
{
    match record(outcome) {
        Ok(Record::Quote(value)) => Ok(value),
        Ok(_) => Err(HandlerError::InternalError),
        Err(error) => Err(error),
    }
}

/// The trust that the operation hands back.
pub fn trust(outcome: Outcome) -> (r: HandlerResult<Trust>)
    ensures
        match one(outcome_view(outcome), Collection::Trusts) {
            Ok(record) => r matches Ok(value) && value@ == record->Trust_0,
            Err(e) => r matches Err(error) && error@ == e,
        },
{
    match record(outcome) {
        Ok(Record::Trust(value)) => Ok(value),
        Ok(_) => Err(HandlerError::InternalError),
        Err(error) => Err(error),
    }
}

/// The alias that the operation hands back.
pub fn alias(outcome: Outcome) -> (r: HandlerResult<Alias>)
    ensures
        match one(outcome_view(outcome), Collection::Aliases) {
            Ok(record) => r matches Ok(value) && value@ == record->Alias_0,
            Err(e) => r matches Err(error) && error@ == e,
        },
{
    match record(outcome) {
        Ok(Record::Alias(value)) => Ok(value),
        Ok(_) => Err(HandlerError::InternalError),
        Err(error) => Err(error),
    }
}

/// The social link that the operation hands back.
pub fn social(outcome: Outcome) -> (r: HandlerResult<SocialService>)
    ensures
        match one(outcome_view(outcome), Collection::Socials) {
            Ok(record) => r matches Ok(value) && value@ == record->Social_0,
            Err(e) => r matches Err(error) && error@ == e,
        },
{
    match record(outcome) {
        Ok(Record::Social(value)) => Ok(value),
        Ok(_) => Err(HandlerError::InternalError),
        Err(error) => Err(error),
    }
}

/// The authorization that the operation hands back.
pub fn authorization(outcome: Outcome) -> (r: HandlerResult<BotAuthorization>)
    ensures
        match one(outcome_view(outcome), Collection::Authorization) {
            Ok(record) => r matches Ok(value) && value@ == record->Authorization_0.authorization,
            Err(e) => r matches Err(error) && error@ == e,
        },
{
    match record(outcome) {
        Ok(Record::Authorization(value)) => Ok(value.authorization),
        Ok(_) => Err(HandlerError::InternalError),
        Err(error) => Err(error),
    }
}

/// The offences that the operation hands back.
pub fn offences(outcome: Outcome) -> (r: HandlerResult<UserOffences>)
    ensures
        match one(outcome_view(outcome), Collection::Offences) {
            Ok(record) => r matches Ok(value) && value@ == record->Offences_0,
            Err(e) => r matches Err(error) && error@ == e,
        },
{
    match record(outcome) {
        Ok(Record::Offences(value)) => Ok(value),
        Ok(_) => Err(HandlerError::InternalError),
        Err(error) => Err(error),
    }
}

/// The configuration that the operation hands back.
pub fn config(outcome: Outcome) -> (r: HandlerResult<Config>)
    ensures
        match one(outcome_view(outcome), Collection::Configs) {
            Ok(record) => r matches Ok(value) && value@ == record->Config_0,
            Err(e) => r matches Err(error) && error@ == e,
        },
{
    match record(outcome) {
        Ok(Record::Config(value)) => Ok(value),
        Ok(_) => Err(HandlerError::InternalError),
        Err(error) => Err(error),
    }
}

/// The state of the bot that the operation hands back.
pub fn state(outcome: Outcome) -> (r: HandlerResult<BotState>)
    ensures
        match one(outcome_view(outcome), Collection::State) {
            Ok(record) => r matches Ok(value) && value@ == record->State_0.state,
            Err(e) => r matches Err(error) && error@ == e,
        },
{
    match record(outcome) {
        Ok(Record::State(value)) => Ok(value.state),
        Ok(_) => Err(HandlerError::InternalError),
        Err(error) => Err(error),
    }
}

/// The number that the operation hands back.
pub fn id(outcome: Outcome) -> (r: HandlerResult<i64>)
    ensures
        match number(outcome_view(outcome)) {
            Ok(value) => r matches Ok(n) && n == value,
            Err(e) => r matches Err(error) && error@ == e,
        },
{
    match outcome {
        Ok(Answer::Number(value)) => Ok(value),
        Ok(_) => Err(HandlerError::InternalError),
        Err(error) => Err(error),
    }
}

/// The counter that the operation hands back.
pub fn count(outcome: Outcome) -> (r: HandlerResult<i32>)
    ensures
        match counter(outcome_view(outcome)) {
            Ok(value) => r matches Ok(n) && n == value,
            Err(e) => r matches Err(error) && error@ == e,
        },
{
    match outcome {
        Ok(Answer::Number(value)) => if -0x8000_0000 <= value && value <= 0x7fff_ffff {
            Ok(value as i32)
        } else {
            Err(HandlerError::InternalError)
        },
        Ok(_) => Err(HandlerError::InternalError),
        Err(error) => Err(error),
    }
}

/// The flag that the operation hands back.
pub fn previous(outcome: Outcome) -> (r: HandlerResult<bool>)
    ensures
        match flag(outcome_view(outcome)) {
            Ok(value) => r matches Ok(b) && b == value,
            Err(e) => r matches Err(error) && error@ == e,
        },
{
    match outcome {
        Ok(Answer::Flag(value)) => Ok(value),
        Ok(_) => Err(HandlerError::InternalError),
        Err(error) => Err(error),
    }
}

/// The success of an operation that hands back nothing.
pub fn done(outcome: Outcome) -> (r: HandlerResult<()>)
    ensures
        match nothing(outcome_view(outcome)) {
            Ok(_) => r is Ok,
            Err(e) => r matches Err(error) && error@ == e,
        },
{
    match outcome {
        Ok(Answer::Nothing) => Ok(()),
        Ok(_) => Err(HandlerError::InternalError),
        Err(error) => Err(error),
    }
}

/// The commands that the operation hands back.
pub fn command_list(outcome: Outcome) -> (r: HandlerResult<Vec<Command>>)
    ensures
        match many(outcome_view(outcome), Collection::Commands) {
            Ok(records) => r matches Ok(values) && values.deep_view() == commands(records),
            Err(e) => r matches Err(error) && error@ == e,
        },
{
    let listed = match records(outcome) {
        Ok(listed) => listed,
        Err(error) => {
            return Err(error);
        },
    };
    let ghost all = listed.deep_view();
    let mut out: Vec<Command> = Vec::new();
    let mut i: usize = 0;
    while i < listed.len()
        invariant
            0 <= i <= listed.len(),
            all == listed.deep_view(),
            outcome_view(outcome) == Ok::<AnswerView, HandlerErrorView>(AnswerView::Many(all)),
            out.len() == i,
            forall|k: int|
                0 <= k < i ==> (#[trigger] all[k]).collection() == Collection::Commands && out[k]@
                    == all[k]->Command_0,
        decreases listed.len() - i,
    {
        assert(all[i as int] == listed[i as int]@);
        match &listed[i] {
            Record::Command(value) => {
                out.push(value.clone());
            },
            _ => {
                assert(all[i as int].collection() != Collection::Commands);
                return Err(HandlerError::InternalError);
            },
        }
        i = i + 1;
    }
    assert(out.deep_view() =~= commands(all));
    Ok(out)
}

/// The quotes that the operation hands back.
pub fn quote_list(outcome: Outcome) -> (r: HandlerResult<Vec<Quote>>)
    ensures
        match many(outcome_view(outcome), Collection::Quotes) {
            Ok(records) => r matches Ok(values) && values.deep_view() == quotes(records),
            Err(e) => r matches Err(error) && error@ == e,
        },
{
    let listed = match records(outcome) {
        Ok(listed) => listed,
        Err(error) => {
            return Err(error);
        },
    };
    let ghost all = listed.deep_view();
    let mut out: Vec<Quote> = Vec::new();
    let mut i: usize = 0;
    while i < listed.len()
        invariant
            0 <= i <= listed.len(),
            all == listed.deep_view(),
            outcome_view(outcome) == Ok::<AnswerView, HandlerErrorView>(AnswerView::Many(all)),
            out.len() == i,
            forall|k: int|
                0 <= k < i ==> (#[trigger] all[k]).collection() == Collection::Quotes && out[k]@
                    == all[k]->Quote_0,
        decreases listed.len() - i,
    {
        assert(all[i as int] == listed[i as int]@);
        match &listed[i] {
            Record::Quote(value) => {
                out.push(value.clone());
            },
            _ => {
                assert(all[i as int].collection() != Collection::Quotes);
                return Err(HandlerError::InternalError);
            },
        }
        i = i + 1;
    }
    assert(out.deep_view() =~= quotes(all));
    Ok(out)
}

/// The trusts that the operation hands back.
pub fn trust_list(outcome: Outcome) -> (r: HandlerResult<Vec<Trust>>)
    ensures
        match many(outcome_view(outcome), Collection::Trusts) {
            Ok(records) => r matches Ok(values) && values.deep_view() == trusts(records),
            Err(e) => r matches Err(error) && error@ == e,
        },
{
    let listed = match records(outcome) {
        Ok(listed) => listed,
        Err(error) => {
            return Err(error);
        },
    };
    let ghost all = listed.deep_view();
    let mut out: Vec<Trust> = Vec::new();
    let mut i: usize = 0;
    while i < listed.len()
        invariant
            0 <= i <= listed.len(),
            all == listed.deep_view(),
            outcome_view(outcome) == Ok::<AnswerView, HandlerErrorView>(AnswerView::Many(all)),
            out.len() == i,
            forall|k: int|
                0 <= k < i ==> (#[trigger] all[k]).collection() == Collection::Trusts && out[k]@
                    == all[k]->Trust_0,
        decreases listed.len() - i,
    {
        assert(all[i as int] == listed[i as int]@);
        match &listed[i] {
            Record::Trust(value) => {
                out.push(value.clone());
            },
            _ => {
                assert(all[i as int].collection() != Collection::Trusts);
                return Err(HandlerError::InternalError);
            },
        }
        i = i + 1;
    }
    assert(out.deep_view() =~= trusts(all));
    Ok(out)
}

/// The social links that the operation hands back.
pub fn social_list(outcome: Outcome) -> (r: HandlerResult<Vec<SocialService>>)
    ensures
        match many(outcome_view(outcome), Collection::Socials) {
            Ok(records) => r matches Ok(values) && values.deep_view() == socials(records),
            Err(e) => r matches Err(error) && error@ == e,
        },
{
    let listed = match records(outcome) {
        Ok(listed) => listed,
        Err(error) => {
            return Err(error);
        },
    };
    let ghost all = listed.deep_view();
    let mut out: Vec<SocialService> = Vec::new();
    let mut i: usize = 0;
    while i < listed.len()
        invariant
            0 <= i <= listed.len(),
            all == listed.deep_view(),
            outcome_view(outcome) == Ok::<AnswerView, HandlerErrorView>(AnswerView::Many(all)),
            out.len() == i,
            forall|k: int|
                0 <= k < i ==> (#[trigger] all[k]).collection() == Collection::Socials && out[k]@
                    == all[k]->Social_0,
        decreases listed.len() - i,
    {
        assert(all[i as int] == listed[i as int]@);
        match &listed[i] {
            Record::Social(value) => {
                out.push(value.clone());
            },
            _ => {
                assert(all[i as int].collection() != Collection::Socials);
                return Err(HandlerError::InternalError);
            },
        }
        i = i + 1;
    }
    assert(out.deep_view() =~= socials(all));
    Ok(out)
}

} // verus!
