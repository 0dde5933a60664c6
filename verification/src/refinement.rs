//! Why the conversations of the operations come to what the rules say.

use crate::errors::{HandlerErrorView, Reason};
use crate::keys::{aliases_of, command_named};
use crate::machine::{all_of, fails, resolve_next, resumed, PendingView, StepView};
use crate::model::{decided, find_all, first_from_is_first, kept_is_part, reads, reply_to};
use crate::outcome::{ended, many, one};
use crate::rules::{commands, found, get_aliases, target, Verdict};
use crate::store::{Collection, FilterView, QueryView, RecordView};
use vstd::prelude::*;

verus! {

/// What a filter selects is of the filter's collection.
pub proof fn selected_are_of_collection(db: Seq<RecordView>, filter: FilterView)
    ensures
        all_of(find_all(db, filter), filter.collection),
{
    kept_is_part(db, filter, true);
}

/// A read of one record hands back the first record that the filter
/// selects, or the error for a missing one.
pub proof fn find_gives(db: Seq<RecordView>, filter: FilterView, missing: Reason)
    ensures
        one(
            ended(
                resumed(
                    PendingView::Found { collection: filter.collection, missing },
                    reply_to(db, QueryView::FindOne(filter)),
                ),
            ),
            filter.collection,
        ) == found(db, filter, missing),
{
    first_from_is_first(db, filter, 0);
}

/// What a read of many records hands back.
pub open spec fn listed(db: Seq<RecordView>, filter: FilterView, empty: Option<Reason>) -> Verdict<
    Seq<RecordView>,
> {
    if find_all(db, filter).len() == 0 && empty is Some {
        Err(HandlerErrorView::NotFound(empty->0))
    } else {
        Ok(find_all(db, filter))
    }
}

/// A read of many records hands back all that the filter selects; where
/// `empty` is set, there must be one.
pub proof fn list_gives(db: Seq<RecordView>, filter: FilterView, empty: Option<Reason>)
    ensures
        many(
            ended(
                resumed(
                    PendingView::Listed { collection: filter.collection, empty },
                    reply_to(db, QueryView::FindAll(filter)),
                ),
            ),
            filter.collection,
        ) == listed(db, filter, empty),
{
    selected_are_of_collection(db, filter);
}


/// The commands found for the first `k` of `aliases`.
pub open spec fn targets(
    db: Seq<RecordView>,
    channel: Seq<char>,
    aliases: Seq<RecordView>,
    k: int,
) -> Seq<RecordView> {
    Seq::new(k as nat, |i: int| target(db, channel, aliases[i])->0)
}

/// Whether `step` is where the resolution of `aliases` stands when the
/// first `k` are done: it goes on with the rest, or it has ended on an
/// alias whose command is not there.
pub open spec fn resolving(
    db: Seq<RecordView>,
    channel: Seq<char>,
    aliases: Seq<RecordView>,
    k: int,
    step: StepView,
) -> bool {
    ||| {
        &&& forall|i: int| 0 <= i < k ==> target(db, channel, #[trigger] aliases[i]) is Some
        &&& step == resolve_next(channel, aliases.skip(k), targets(db, channel, aliases, k))
    }
    ||| {
        &&& step == fails(HandlerErrorView::NotFound(Reason::NoCommand))
        &&& exists|i: int|
            0 <= i < aliases.len() && target(db, channel, #[trigger] aliases[i]) is None
    }
}

/// The resolution starts with no alias done.
pub proof fn resolving_starts(db: Seq<RecordView>, channel: Seq<char>, aliases: Seq<RecordView>)
    ensures
        resolving(db, channel, aliases, 0, resolve_next(channel, aliases, Seq::empty())),
{
    assert(aliases.skip(0) =~= aliases);
    assert(targets(db, channel, aliases, 0) =~= Seq::empty());
}

/// A step of the resolution that asks, asks for the command of the next
/// alias; the answer takes the resolution one alias on, or ends it.
pub proof fn resolving_goes_on(
    db: Seq<RecordView>,
    channel: Seq<char>,
    aliases: Seq<RecordView>,
    k: int,
    step: StepView,
)
    requires
        all_of(aliases, Collection::Aliases),
        0 <= k <= aliases.len(),
        resolving(db, channel, aliases, k, step),
        step is Ask,
    ensures
        k < aliases.len(),
        decided(step->Ask_0),
        reads(step->Ask_0),
        target(db, channel, aliases[k]) is Some ==> resolving(
            db,
            channel,
            aliases,
            k + 1,
            resumed(step->Ask_1, reply_to(db, step->Ask_0)),
        ),
        target(db, channel, aliases[k]) is None ==> resolving(
            db,
            channel,
            aliases,
            k,
            resumed(step->Ask_1, reply_to(db, step->Ask_0)),
        ) && resumed(step->Ask_1, reply_to(db, step->Ask_0)) is Finish,
{
    let rest = aliases.skip(k);
    assert(rest.len() > 0);
    assert(rest[0] == aliases[k]);
    assert(aliases[k].collection() == Collection::Aliases);
    let key = command_named(channel, aliases[k]->Alias_0.command);
    first_from_is_first(db, key, 0);
    let next = resumed(step->Ask_1, reply_to(db, step->Ask_0));
    match target(db, channel, aliases[k]) {
        Some(command) => {
            assert(command.collection() == Collection::Commands);
            assert(rest.drop_first() =~= aliases.skip(k + 1));
            assert(targets(db, channel, aliases, k).push(command) =~= targets(
                db,
                channel,
                aliases,
                k + 1,
            ));
            assert forall|i: int| 0 <= i < k + 1 implies target(
                db,
                channel,
                #[trigger] aliases[i],
            ) is Some by {}
        },
        None => {},
    }
}

/// A resolution that has ended hands back what the rule for `get_aliases`
/// says.
pub proof fn resolving_ends(
    db: Seq<RecordView>,
    channel: Seq<char>,
    aliases: Seq<RecordView>,
    k: int,
    step: StepView,
)
    requires
        aliases == find_all(db, aliases_of(channel)),
        0 <= k <= aliases.len(),
        resolving(db, channel, aliases, k, step),
        step is Finish,
    ensures
        match get_aliases(db, channel) {
            Ok(found) => many(ended(step), Collection::Commands) matches Ok(records) && commands(
                records,
            ) == found,
            Err(error) => many(ended(step), Collection::Commands) == Err::<
                Seq<RecordView>,
                HandlerErrorView,
            >(error),
        },
{
    selected_are_of_collection(db, aliases_of(channel));
    if step == fails(HandlerErrorView::NotFound(Reason::NoCommand)) {
    } else {
        let rest = aliases.skip(k);
        if rest.len() > 0 {
            assert(rest[0] == aliases[k]);
            assert(aliases[k].collection() == Collection::Aliases);
        }
        assert(k == aliases.len());
        let all = targets(db, channel, aliases, k);
        assert forall|i: int| 0 <= i < all.len() implies (#[trigger] all[i]).collection()
            == Collection::Commands by {
            assert(target(db, channel, aliases[i]) is Some);
            first_from_is_first(db, command_named(channel, aliases[i]->Alias_0.command), 0);
        }
        assert(commands(all) =~= get_aliases(db, channel)->Ok_0);
    }
}

} // verus!
