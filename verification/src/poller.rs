//! The poller's sweep state machine: one cycle walks the catalog in order,
//! asks the transport for each register's words, decodes every successful
//! response, and turns every failure into an error record without aborting
//! the sweep.

use vstd::prelude::*;
use crate::catalog::{RegisterDescriptor, spec_word_count, word_count};
use crate::codec::{decode, decoded};

verus! {

/// What one poll of one register produced.
#[derive(Clone, Copy, PartialEq, Eq, Structural, Debug)]
pub enum PollOutcome {
    /// The decoded register value.
    Value(i32),
    /// The error marker: the transport call for this register failed.
    Error,
}

/// One line of a published sweep: a register's name with its outcome.
#[derive(Clone, Copy, Debug)]
pub struct PollRecord {
    pub name: &'static str,
    pub outcome: PollOutcome,
}

/// The record a sweep owes for one register, given the transport's response
/// (`None` is a transport failure or protocol fault).
pub open spec fn expected_record(d: RegisterDescriptor, resp: Option<Seq<u16>>) -> PollRecord {
    match resp {
        Some(words) => PollRecord { name: d.name, outcome: PollOutcome::Value(decoded(d.kind, words)) },
        None => PollRecord { name: d.name, outcome: PollOutcome::Error },
    }
}

/// The full record list a sweep owes, register by register, in catalog order.
pub open spec fn sweep_spec(
    cat: Seq<RegisterDescriptor>,
    resp: Seq<Option<Seq<u16>>>,
) -> Seq<PollRecord> {
    Seq::new(cat.len(), |i: int| expected_record(cat[i], resp[i]))
}

/// The view of a transport response handed to the poller.
pub open spec fn response_view(resp: Option<Vec<u16>>) -> Option<Seq<u16>> {
    match resp {
        Some(words) => Some(words@),
        None => None,
    }
}

/// The sweep state machine. One cycle is: while `next_request` yields a
/// register, perform the read outside and hand the outcome to
/// `record_response`; then `publish` the full ordered record list, which
/// returns the machine to the idle state for the next cycle. The ghost
/// `responses` field logs the outcomes a cycle has consumed so far, so the
/// published list is pinned to them record by record.
pub struct Poller {
    pub catalog: Vec<RegisterDescriptor>,
    pub cursor: usize,
    pub results: Vec<PollRecord>,
    pub responses: Ghost<Seq<Option<Seq<u16>>>>,
}

impl Poller {
    /// Holds between any two steps of a cycle: the records so far are
    /// exactly what the consumed responses owe, in catalog order.
    pub open spec fn inv(&self) -> bool {
        &&& self.cursor <= self.catalog@.len()
        &&& self.results@.len() == self.cursor
        &&& self.responses@.len() == self.cursor
        &&& self.results@ == sweep_spec(
            self.catalog@.take(self.cursor as int),
            self.responses@,
        )
    }

    /// Start a poller in the idle state at the head of the catalog.
    pub fn new(catalog: Vec<RegisterDescriptor>) -> (p: Poller)
        ensures
            p.inv(),
            p.catalog@ == catalog@,
            p.cursor == 0,
            p.responses@ =~= Seq::<Option<Seq<u16>>>::empty(),
    {
        let p = Poller {
            catalog,
            cursor: 0,
            results: Vec::new(),
            responses: Ghost(Seq::empty()),
        };
        proof {
            assert(p.results@ =~= sweep_spec(p.catalog@.take(0), p.responses@));
        }
        p
    }

    /// The read the current register asks for: its address and the word
    /// count its encoding kind fixes. `None` when the sweep is complete.
    pub fn next_request(&self) -> (r: Option<(u16, u16)>)
        ensures
            match r {
                Some(req) => {
                    &&& self.cursor < self.catalog@.len()
                    &&& req.0 == self.catalog@[self.cursor as int].address
                    &&& req.1 as nat == spec_word_count(self.catalog@[self.cursor as int].kind)
                },
                None => self.cursor >= self.catalog@.len(),
            },
    {
        if self.cursor < self.catalog.len() {
            let d = self.catalog[self.cursor];
            Some((d.address, word_count(d.kind)))
        } else {
            None
        }
    }

    /// Consume the outcome of the current register's read: a successful
    /// response is decoded, a failed one (`None`) becomes the error record,
    /// and the sweep moves on to the next register either way.
    pub fn record_response(&mut self, resp: Option<Vec<u16>>)
        requires
            old(self).inv(),
            old(self).cursor < old(self).catalog@.len(),
        ensures
            final(self).inv(),
            final(self).catalog@ == old(self).catalog@,
            final(self).cursor == old(self).cursor + 1,
            final(self).responses@ == old(self).responses@.push(response_view(resp)),
            final(self).results@ == old(self).results@.push(
                expected_record(
                    old(self).catalog@[old(self).cursor as int],
                    response_view(resp),
                ),
            ),
    {
        let ghost resp_v = response_view(resp);
        let d = self.catalog[self.cursor];
        let rec = match resp {
            Some(words) => PollRecord {
                name: d.name,
                outcome: PollOutcome::Value(decode(d.kind, &words)),
            },
            None => PollRecord { name: d.name, outcome: PollOutcome::Error },
        };
        self.results.push(rec);
        let n = self.catalog.len();
        assert(self.cursor < n);
        self.cursor = self.cursor + 1;
        proof {
            self.responses@ = self.responses@.push(resp_v);
            assert(self.results@ =~= sweep_spec(
                self.catalog@.take(self.cursor as int),
                self.responses@,
            ));
        }
    }

    /// Whether the sweep has consumed a response for every register.
    pub fn is_done(&self) -> (b: bool)
        ensures
            b == (self.cursor >= self.catalog@.len()),
    {
        self.cursor >= self.catalog.len()
    }

    /// Publish the completed sweep: hand out the full ordered record list —
    /// one record per catalog entry, pinned to the consumed responses — and
    /// return to the idle state for the next cycle.
    pub fn publish(&mut self) -> (r: Vec<PollRecord>)
        requires
            old(self).inv(),
            old(self).cursor == old(self).catalog@.len(),
        ensures
            r@ == sweep_spec(old(self).catalog@, old(self).responses@),
            final(self).inv(),
            final(self).catalog@ == old(self).catalog@,
            final(self).cursor == 0,
            final(self).responses@ =~= Seq::<Option<Seq<u16>>>::empty(),
    {
        let mut out: Vec<PollRecord> = Vec::new();
        std::mem::swap(&mut out, &mut self.results);
        self.cursor = 0;
        proof {
            self.responses@ = Seq::empty();
            assert(old(self).catalog@.take(old(self).cursor as int) =~= old(self).catalog@);
            assert(self.results@ =~= sweep_spec(
                self.catalog@.take(0),
                self.responses@,
            ));
        }
        out
    }
}

/// Sweep isolation law: when exactly one register's transport call fails
/// and every other one succeeds, the published sweep still has one record
/// per catalog entry, in catalog order and under each register's own name;
/// the failed register alone carries the error marker, and every other
/// record carries exactly the decoding of its own response.
pub proof fn lemma_sweep_isolation(
    cat: Seq<RegisterDescriptor>,
    resp: Seq<Option<Seq<u16>>>,
    k: int,
)
    requires
        resp.len() == cat.len(),
        0 <= k < cat.len(),
        resp[k] is None,
        forall|i: int| 0 <= i < cat.len() && i != k ==> (#[trigger] resp[i]) is Some,
    ensures
        sweep_spec(cat, resp).len() == cat.len(),
        forall|i: int| 0 <= i < cat.len()
            ==> (#[trigger] sweep_spec(cat, resp)[i]).name == cat[i].name,
        sweep_spec(cat, resp)[k].outcome == PollOutcome::Error,
        forall|i: int| 0 <= i < cat.len() && i != k
            ==> (#[trigger] sweep_spec(cat, resp)[i]).outcome
                == PollOutcome::Value(decoded(cat[i].kind, resp[i]->0)),
{
}

} // verus!
