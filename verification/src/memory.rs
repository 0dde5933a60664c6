//! A document database held in memory: the records in a vector, oldest
//! first.  It answers every query as the model says.

use crate::errors::HandlerError;
use crate::machine::{confused, resumed, Step, StepView};
use crate::model::{
    after, answers, decided, find_all, first_from, first_index, kept, kept_push, reads, reply_to,
};
use crate::stamps::fresh_identifier;
use crate::store::{Filter, Query, Record, RecordView, Reply, ReplyView};
use vstd::prelude::*;

verus! {

/// A position below `count`, drawn anew at every call.
///
/// The position is the one that a fresh identifier gives, and the first
/// where no identifier can be made.  The counter of an identifier advances
/// by one with every identifier, so draws go round the positions.
fn draw(count: usize) -> (i: usize)
    requires
        count > 0,
    ensures
        i < count,
        exists|seed: Seq<u8>| seed.len() == 12 && i == #[trigger] position_of(seed, count as int),
{
    match fresh_identifier() {
        Some(seed) => {
            let i = position(seed, count);
            assert(seed@.len() == 12 && i == position_of(seed@, count as int));
            i
        },
        None => {
            let ghost zeros = Seq::new(12, |k: int| 0u8);
            assert(zeros.len() == 12 && counter_of(zeros) == 0);
            assert(position_of(zeros, count as int) == 0);
            0
        },
    }
}

/// The counter that the last three bytes of an identifier hold, the first
/// of the three weighing most.
pub open spec fn counter_of(seed: Seq<u8>) -> int {
    seed[9] * 65536 + seed[10] * 256 + seed[11]
}

/// The position below `count` that the identifier `seed` gives: what is
/// left of its counter after division by `count`.
pub open spec fn position_of(seed: Seq<u8>, count: int) -> int {
    counter_of(seed) % count
}

/// The position below `count` that the identifier `seed` gives.
pub fn position(seed: [u8; 12], count: usize) -> (i: usize)
    requires
        count > 0,
    ensures
        i == position_of(seed@, count as int),
        i < count,
{
    let counter: usize = (seed[9] as usize) * 65536 + (seed[10] as usize) * 256 + (
    seed[11] as usize);
    counter % count
}

/// A database in memory.
#[derive(Debug, PartialEq, Eq)]
pub struct Database {
    pub name: String,
    pub records: Vec<Record>,
}

impl DeepView for Database {
    type V = Seq<RecordView>;

    open spec fn deep_view(&self) -> Seq<RecordView> {
        self.records.deep_view()
    }
}

impl View for Database {
    type V = Seq<RecordView>;

    open spec fn view(&self) -> Seq<RecordView> {
        self.deep_view()
    }
}

impl Database {
    /// An empty database called `name`.
    pub fn new(name: &str) -> (r: Database)
        ensures
            r@ == Seq::<RecordView>::empty(),
            r.name@ == name@,
    {
        let r = Database { name: name.to_owned(), records: Vec::new() };
        assert(r.records.deep_view() =~= Seq::empty());
        r
    }

    /// The position of the first record that `filter` selects.
    fn first_match(&self, filter: &Filter) -> (i: usize)
        ensures
            i == first_index(self@, filter@),
            i <= self.records.len(),
    {
        let mut i: usize = 0;
        while i < self.records.len()
            invariant
                0 <= i <= self.records.len(),
                first_index(self@, filter@) == first_from(self@, filter@, i as int),
            decreases self.records.len() - i,
        {
            assert(self@[i as int] == self.records[i as int]@);
            if self.records[i].matches(filter) {
                return i;
            }
            i = i + 1;
        }
        i
    }

    /// Copies of the records that `filter` selects or, with `wanted` false,
    /// of all the others.
    fn collect(&self, filter: &Filter, wanted: bool) -> (r: Vec<Record>)
        ensures
            r.deep_view() == kept(self@, filter@, wanted),
    {
        let mut out: Vec<Record> = Vec::new();
        let mut i: usize = 0;
        assert(self@.subrange(0, 0) =~= Seq::empty());
        assert(out.deep_view() =~= Seq::empty());
        while i < self.records.len()
            invariant
                0 <= i <= self.records.len(),
                out.deep_view() == kept(self@.subrange(0, i as int), filter@, wanted),
            decreases self.records.len() - i,
        {
            let ghost before = out.deep_view();
            assert(self@[i as int] == self.records[i as int]@);
            proof {
                kept_push(self@.subrange(0, i as int), self@[i as int], filter@, wanted);
                assert(self@.subrange(0, i as int).push(self@[i as int]) =~= self@.subrange(
                    0,
                    i + 1,
                ));
            }
            if self.records[i].matches(filter) == wanted {
                out.push(self.records[i].clone());
                assert(out.deep_view() =~= before.push(self@[i as int]));
            }
            i = i + 1;
        }
        assert(self@.subrange(0, i as int) =~= self@);
        out
    }

    /// How many records `filter` selects.
    fn tally(&self, filter: &Filter) -> (n: usize)
        ensures
            n == find_all(self@, filter@).len(),
    {
        let mut n: usize = 0;
        let mut i: usize = 0;
        assert(self@.subrange(0, 0) =~= Seq::empty());
        while i < self.records.len()
            invariant
                0 <= i <= self.records.len(),
                n <= i,
                n == kept(self@.subrange(0, i as int), filter@, true).len(),
            decreases self.records.len() - i,
        {
            assert(self@[i as int] == self.records[i as int]@);
            proof {
                kept_push(self@.subrange(0, i as int), self@[i as int], filter@, true);
                assert(self@.subrange(0, i as int).push(self@[i as int]) =~= self@.subrange(
                    0,
                    i + 1,
                ));
            }
            if self.records[i].matches(filter) {
                n = n + 1;
            }
            i = i + 1;
        }
        assert(self@.subrange(0, i as int) =~= self@);
        n
    }

    /// Puts `record` in the place of the record at `i`.
    fn put(&mut self, i: usize, record: Record)
        requires
            i < old(self).records.len(),
        ensures
            final(self)@ == old(self)@.update(i as int, record@),
            final(self).name == old(self).name,
    {
        let _ = self.records.remove(i);
        self.records.insert(i, record);
        assert(self.records.deep_view() =~= old(self)@.update(i as int, record@));
    }

    /// Answers a query that only reads; `None` for one that writes.  A draw
    /// is answered with one of the records selected, at a position drawn
    /// anew at every call.
    pub fn look(&self, query: &Query) -> (reply: Option<Reply>)
        ensures
            reply is Some <==> reads(query@),
            reply matches Some(answer) ==> answers(self@, query@, answer@),
    {
        match query {
            Query::FindOne(filter) => {
                let i = self.first_match(filter);
                if i < self.records.len() {
                    assert(self@[i as int] == self.records[i as int]@);
                    Some(Reply::Found(Some(self.records[i].clone())))
                } else {
                    Some(Reply::Found(None))
                }
            },
            Query::FindAll(filter) => Some(Reply::Listed(self.collect(filter, true))),
            Query::Count(filter) => {
                let n = self.tally(filter);
                if n as u64 <= 0x7fff_ffff_ffff_ffffu64 {
                    Some(Reply::Counted(n as i64))
                } else {
                    Some(Reply::Counted(0x7fff_ffff_ffff_ffff))
                }
            },
            Query::Sample(filter) => {
                let chosen = self.collect(filter, true);
                if chosen.len() == 0 {
                    Some(Reply::Found(None))
                } else {
                    let i = draw(chosen.len());
                    assert(chosen.deep_view()[i as int] == chosen[i as int]@);
                    Some(Reply::Found(Some(chosen[i].clone())))
                }
            },
            _ => None,
        }
    }

    /// Answers `query` and changes the database as the query asks.
    pub fn answer(&mut self, query: Query) -> (reply: Reply)
        ensures
            final(self)@ == after(old(self)@, query@),
            answers(old(self)@, query@, reply@),
            final(self).name == old(self).name,
    {
        match self.look(&query) {
            Some(reply) => {
                return reply;
            },
            None => {},
        }
        match query {
            Query::Insert(record) => {
                let ghost before = self@;
                self.records.push(record);
                assert(self.records.deep_view() =~= before.push(record@));
            },
            Query::DeleteOne(filter) => {
                let i = self.first_match(&filter);
                if i < self.records.len() {
                    let _ = self.records.remove(i);
                    assert(self.records.deep_view() =~= old(self)@.remove(i as int));
                }
            },
            Query::DeleteMany(filter) => {
                let rest = self.collect(&filter, false);
                self.records = rest;
            },
            Query::Update(filter, patch) => {
                let i = self.first_match(&filter);
                if i < self.records.len() {
                    assert(self@[i as int] == self.records[i as int]@);
                    let record = self.records[i].clone().patched(&patch);
                    self.put(i, record);
                }
            },
            Query::Replace(filter, record) => {
                let i = self.first_match(&filter);
                if i < self.records.len() {
                    self.put(i, record);
                }
            },
            Query::Upsert(filter, record) => {
                let i = self.first_match(&filter);
                if i < self.records.len() {
                    self.put(i, record);
                } else {
                    let ghost before = self@;
                    self.records.push(record);
                    assert(self.records.deep_view() =~= before.push(record@));
                }
            },
            _ => {},
        }
        Reply::Done
    }

    /// Takes an operation one step on without changing the database: the
    /// query of `step` is answered if it only reads.
    pub fn consult(&self, step: Step) -> (next: Step)
        ensures
            match step@ {
                StepView::Ask(query, pending) => if reads(query) {
                    &&& exists|reply: ReplyView|
                        answers(self@, query, reply) && next@ == resumed(pending, reply)
                    &&& decided(query) ==> next@ == resumed(pending, reply_to(self@, query))
                } else {
                    next@ == confused()
                },
                StepView::Finish(_) => next@ == step@,
            },
    {
        match step {
            Step::Ask(query, pending) => match self.look(&query) {
                Some(reply) => pending.resume(reply),
                None => Step::Finish(Err(HandlerError::InternalError)),
            },
            Step::Finish(outcome) => Step::Finish(outcome),
        }
    }

    /// Takes an operation one step on: the query of `step`, if it has one,
    /// is answered and the operation resumed.
    pub fn advance(&mut self, step: Step) -> (next: Step)
        ensures
            final(self).name == old(self).name,
            match step@ {
                StepView::Ask(query, pending) => {
                    &&& final(self)@ == after(old(self)@, query)
                    &&& exists|reply: ReplyView|
                        answers(old(self)@, query, reply) && next@ == resumed(pending, reply)
                    &&& decided(query) ==> next@ == resumed(pending, reply_to(old(self)@, query))
                },
                StepView::Finish(_) => next@ == step@ && final(self)@ == old(self)@,
            },
    {
        match step {
            Step::Ask(query, pending) => {
                let reply = self.answer(query);
                pending.resume(reply)
            },
            Step::Finish(outcome) => Step::Finish(outcome),
        }
    }
}

} // verus!
