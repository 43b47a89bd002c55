//! The decisions of the watch loop. The loop itself receives notifications
//! and resolves transactions; here each event yields the next action.
use vstd::prelude::*;
use crate::dedup::Deduplicator;
use crate::extract::{any_malformed, extract, pairs_of};
use crate::model::{Address, LogNotification, PoolTokenPair, TransactionRecord};

verus! {

/// Why a transaction could not be resolved.
#[derive(Clone, Copy, Debug, PartialEq, Eq, Structural)]
pub enum ResolveError {
    /// The node has not indexed the transaction yet.
    NotFound,
    /// The request failed on the network or in decoding.
    Transport,
}

/// What to do with a notification.
#[derive(Clone, Debug)]
pub enum Action {
    /// Fetch the transaction with this signature.
    Resolve(String),
    /// Already handled: drop it.
    Drop,
}

/// What to do once a transaction has been resolved, or failed to.
#[derive(Clone, Debug)]
pub enum Step {
    /// Hand these pairs to the reporter.
    Report(Vec<PoolTokenPair>),
    /// The node has not indexed the transaction: skip it.
    SkipNotIndexed,
    /// The transaction breaks the watched program's layout: skip it.
    SkipMalformed,
    /// The lookup failed on the transport: stop, or retry from the caller.
    TransportFailure,
}

impl Step {
    /// Whether the loop goes on to the next notification.
    pub fn continues(&self) -> (r: bool)
        ensures
            r == !(self is TransportFailure),
    {
        match self {
            Step::TransportFailure => false,
            _ => true,
        }
    }
}

/// The step owed for a resolved transaction, or a failed lookup.
pub open spec fn step_for(
    resolved: Result<TransactionRecord, ResolveError>,
    program: Address,
    r: Step,
) -> bool {
    match resolved {
        Err(ResolveError::NotFound) => r is SkipNotIndexed,
        Err(ResolveError::Transport) => r is TransportFailure,
        Ok(record) => if any_malformed(record.instructions@, program) {
            r is SkipMalformed
        } else {
            r is Report && r->Report_0@ == pairs_of(record.instructions@, program)
        },
    }
}

/// The watch session: the program watched and the notifications handled.
pub struct Watcher {
    program: Address,
    dedup: Deduplicator,
}

impl Watcher {
    /// The signatures of the notifications handled so far.
    pub closed spec fn seen(&self) -> Set<Seq<char>> {
        self.dedup@
    }

    /// The program watched.
    pub closed spec fn watched(&self) -> Address {
        self.program
    }

    pub fn program(&self) -> (r: Address)
        ensures
            r == self.watched(),
    {
        self.program
    }

    pub fn new(program: Address) -> (r: Watcher)
        ensures
            r.watched() == program,
            r.seen() == Set::<Seq<char>>::empty(),
    {
        Watcher { program, dedup: Deduplicator::new() }
    }

    /// A notification arrived: resolve its transaction the first time its
    /// signature is seen, drop it on every later delivery. The seen set grows
    /// as `dedup::observed_all` describes, so the laws stated there hold of a
    /// run of notifications.
    pub fn on_notification(&mut self, n: &LogNotification) -> (r: Action)
        ensures
            final(self).watched() == old(self).watched(),
            final(self).seen() == old(self).seen().insert(n.signature@),
            !old(self).seen().contains(n.signature@) ==> r is Resolve && r->Resolve_0@
                == n.signature@,
            old(self).seen().contains(n.signature@) ==> r is Drop,
    {
        if self.dedup.observe(&n.signature) {
            Action::Resolve(n.signature.clone())
        } else {
            Action::Drop
        }
    }

    /// A lookup finished: report the pairs it holds, or skip or stop.
    pub fn on_resolved(&self, resolved: Result<TransactionRecord, ResolveError>) -> (r: Step)
        ensures
            step_for(resolved, self.watched(), r),
    {
        match resolved {
            Err(ResolveError::NotFound) => Step::SkipNotIndexed,
            Err(ResolveError::Transport) => Step::TransportFailure,
            Ok(record) => match extract(&record, &self.program) {
                Ok(pairs) => Step::Report(pairs),
                Err(_) => Step::SkipMalformed,
            },
        }
    }
}

} // verus!
