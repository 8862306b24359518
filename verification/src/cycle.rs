//! One build cycle, as the decisions between its waits.
//!
//! A cycle asks for three things in turn: the shared auction client, the
//! oracle's word that real time has passed the auction deadline, and the
//! bids of that deadline. The caller does each and reports how it went;
//! [`Cycle::advance`] says what comes next.

use crate::deadline::{
    auction_deadline, deadline_of, wait_target, wait_target_of, EARLIEST_TARGET_SECS,
    MICROS_PER_SEC, ORACLE_WAIT_MICROS,
};
use crate::diagnostics::Diagnostic;
use crate::pipeline::{select, selected, selection_reports, Bid, BidModel, Selection};
use crate::cursor::Transactions;
use crate::transaction::TxModel;
use vstd::prelude::*;

verus! {

/// Why a cycle ended without transactions.
#[derive(Clone, Copy, Debug, PartialEq, Eq, Structural)]
pub enum CycleError {
    /// The auction client could not be created. A later cycle may try again.
    ClientUnavailable,
    /// The time oracle could not be asked, so the deadline is unconfirmed.
    OracleUnreachable,
    /// An event was reported that the cycle had not asked for.
    OutOfTurn,
}

/// What a cycle is waiting for.
#[derive(Clone, Copy, Debug, PartialEq, Eq, Structural)]
pub enum Stage {
    /// For the auction client.
    Connecting,
    /// For the oracle to confirm the deadline.
    Waiting,
    /// For the bids.
    Fetching,
    /// For nothing: the cycle is over.
    Finished,
}

/// A build cycle in progress.
#[derive(Clone, Copy, Debug, PartialEq, Eq, Structural)]
pub struct Cycle {
    /// What the cycle is waiting for.
    pub stage: Stage,
    /// The auction deadline of the cycle, in seconds.
    pub deadline_secs: u64,
}

/// How what the cycle asked for went.
#[derive(Clone, Debug, PartialEq, Eq)]
pub enum Event {
    /// The auction client is there.
    Connected,
    /// The auction client could not be created.
    ConnectionFailed,
    /// The oracle confirmed that real time has passed the moment asked for.
    DeadlineReached,
    /// The oracle could not be asked.
    OracleFailed,
    /// The provider listed these bids.
    BidsFetched(Vec<Bid>),
    /// The provider could not be asked, or answered with what is no list of bids.
    ProviderFailed,
}

/// The mathematical value of an [`Event`].
pub enum EventModel {
    /// The auction client is there.
    Connected,
    /// The auction client could not be created.
    ConnectionFailed,
    /// The oracle confirmed the moment asked for.
    DeadlineReached,
    /// The oracle could not be asked.
    OracleFailed,
    /// The provider listed these bids.
    BidsFetched(Seq<BidModel>),
    /// The provider could not be asked.
    ProviderFailed,
}

impl View for Event {
    type V = EventModel;

    open spec fn view(&self) -> EventModel {
        match *self {
            Event::Connected => EventModel::Connected,
            Event::ConnectionFailed => EventModel::ConnectionFailed,
            Event::DeadlineReached => EventModel::DeadlineReached,
            Event::OracleFailed => EventModel::OracleFailed,
            Event::BidsFetched(bids) => EventModel::BidsFetched(bids.deep_view()),
            Event::ProviderFailed => EventModel::ProviderFailed,
        }
    }
}

/// What the cycle asks of its caller next, or how it ended.
#[derive(Debug)]
pub enum Step {
    /// Obtain the shared auction client, creating it if it is not there.
    Connect,
    /// Wait until the oracle confirms that real time has passed this moment.
    AwaitPastPerfectTime {
        /// The moment, in microseconds.
        target_micros: u128,
    },
    /// Ask the provider for the bids settled by this deadline.
    FetchBids {
        /// The deadline, in seconds.
        deadline_secs: u64,
    },
    /// The cycle is over: these are its transactions.
    Deliver(Selection),
    /// The cycle is over and has failed.
    Abort(CycleError),
}

/// The mathematical value of a [`Step`].
pub enum StepModel {
    /// Obtain the shared auction client.
    Connect,
    /// Wait until real time has passed this moment.
    AwaitPastPerfectTime {
        /// The moment, in microseconds.
        target_micros: int,
    },
    /// Ask for the bids settled by this deadline.
    FetchBids {
        /// The deadline, in seconds.
        deadline_secs: int,
    },
    /// The cycle is over with these transactions and reports.
    Deliver {
        /// The transactions, in the order of inclusion.
        transactions: Seq<TxModel>,
        /// What was dropped or flagged on the way.
        diagnostics: Seq<Diagnostic>,
    },
    /// The cycle is over and has failed.
    Abort(CycleError),
}

impl View for Step {
    type V = StepModel;

    open spec fn view(&self) -> StepModel {
        match *self {
            Step::Connect => StepModel::Connect,
            Step::AwaitPastPerfectTime { target_micros } => StepModel::AwaitPastPerfectTime {
                target_micros: target_micros as int,
            },
            Step::FetchBids { deadline_secs } => StepModel::FetchBids {
                deadline_secs: deadline_secs as int,
            },
            Step::Deliver(selection) => StepModel::Deliver {
                transactions: selection.transactions@,
                diagnostics: selection.diagnostics@,
            },
            Step::Abort(error) => StepModel::Abort(error),
        }
    }
}

/// The cycle that `event` leaves behind.
pub open spec fn stage_after(stage: Stage, event: EventModel) -> Stage {
    match (stage, event) {
        (Stage::Connecting, EventModel::Connected) => Stage::Waiting,
        (Stage::Waiting, EventModel::DeadlineReached) => Stage::Fetching,
        _ => Stage::Finished,
    }
}

/// What a cycle with the given deadline, waiting at `stage`, asks for after
/// `event`.
pub open spec fn step_after(stage: Stage, deadline_secs: int, event: EventModel) -> StepModel {
    match (stage, event) {
        (Stage::Connecting, EventModel::Connected) => StepModel::AwaitPastPerfectTime {
            target_micros: wait_target_of(deadline_secs),
        },
        (Stage::Connecting, EventModel::ConnectionFailed) => StepModel::Abort(
            CycleError::ClientUnavailable,
        ),
        (Stage::Waiting, EventModel::DeadlineReached) => StepModel::FetchBids { deadline_secs },
        (Stage::Waiting, EventModel::OracleFailed) => StepModel::Abort(
            CycleError::OracleUnreachable,
        ),
        (Stage::Fetching, EventModel::BidsFetched(bids)) => StepModel::Deliver {
            transactions: selected(bids),
            diagnostics: selection_reports(bids),
        },
        (Stage::Fetching, EventModel::ProviderFailed) => StepModel::Deliver {
            transactions: Seq::empty(),
            diagnostics: seq![Diagnostic::ProviderUnreachable],
        },
        _ => StepModel::Abort(CycleError::OutOfTurn),
    }
}

impl Cycle {
    /// Whether the cycle's deadline leaves room for the time that the
    /// oracle waits.
    pub open spec fn is_valid(&self) -> bool {
        self.deadline_secs * MICROS_PER_SEC >= ORACLE_WAIT_MICROS
    }

    /// Begins the cycle of the block with the given target time. The first
    /// thing it asks for is the auction client.
    pub fn begin(target_secs: u64) -> (start: (Cycle, Step))
        requires
            target_secs >= EARLIEST_TARGET_SECS,
        ensures
            start.0.stage == Stage::Connecting,
            start.0.deadline_secs == deadline_of(target_secs as int),
            start.0.is_valid(),
            start.1@ == StepModel::Connect,
    {
        let deadline_secs = auction_deadline(target_secs);
        (Cycle { stage: Stage::Connecting, deadline_secs }, Step::Connect)
    }

    /// Takes the cycle one step on: given how what it asked for went, says
    /// what it asks for next, or how it ends.
    ///
    /// Without the client, and without the oracle's word, the cycle fails.
    /// Without an answer of the provider it goes on with no bids. An event
    /// that the cycle did not ask for ends it.
    pub fn advance(self, event: Event) -> (next: (Cycle, Step))
        requires
            self.is_valid(),
        ensures
            next.0.stage == stage_after(self.stage, event@),
            next.0.deadline_secs == self.deadline_secs,
            next.0.is_valid(),
            next.1@ == step_after(self.stage, self.deadline_secs as int, event@),
    {
        let deadline_secs = self.deadline_secs;
        let finished = Cycle { stage: Stage::Finished, deadline_secs };
        match self.stage {
            Stage::Connecting => match event {
                Event::Connected => {
                    let target_micros = wait_target(deadline_secs);
                    (
                        Cycle { stage: Stage::Waiting, deadline_secs },
                        Step::AwaitPastPerfectTime { target_micros },
                    )
                },
                Event::ConnectionFailed => (finished, Step::Abort(CycleError::ClientUnavailable)),
                _ => (finished, Step::Abort(CycleError::OutOfTurn)),
            },
            Stage::Waiting => match event {
                Event::DeadlineReached => (
                    Cycle { stage: Stage::Fetching, deadline_secs },
                    Step::FetchBids { deadline_secs },
                ),
                Event::OracleFailed => (finished, Step::Abort(CycleError::OracleUnreachable)),
                _ => (finished, Step::Abort(CycleError::OutOfTurn)),
            },
            Stage::Fetching => match event {
                Event::BidsFetched(bids) => (finished, Step::Deliver(select(bids))),
                Event::ProviderFailed => {
                    let mut diagnostics: Vec<Diagnostic> = Vec::new();
                    diagnostics.push(Diagnostic::ProviderUnreachable);
                    let transactions = Transactions::new(Vec::new());
                    assert(diagnostics@ =~= seq![Diagnostic::ProviderUnreachable]);
                    assert(transactions@ =~= Seq::empty());
                    (finished, Step::Deliver(Selection { transactions, diagnostics }))
                },
                _ => (finished, Step::Abort(CycleError::OutOfTurn)),
            },
            Stage::Finished => (finished, Step::Abort(CycleError::OutOfTurn)),
        }
    }
}

/// An unreachable provider never fails a cycle: a cycle that waits for bids
/// and hears that the provider failed delivers, with no transactions.
pub proof fn lemma_provider_failure_delivers_nothing(deadline_secs: int)
    ensures
        step_after(Stage::Fetching, deadline_secs, EventModel::ProviderFailed)
            == (StepModel::Deliver {
            transactions: Seq::empty(),
            diagnostics: seq![Diagnostic::ProviderUnreachable],
        }),
        stage_after(Stage::Fetching, EventModel::ProviderFailed) == Stage::Finished,
{
}

/// A finished cycle stays finished, and asks for nothing more.
pub proof fn lemma_finished_is_final(deadline_secs: int, event: EventModel)
    ensures
        stage_after(Stage::Finished, event) == Stage::Finished,
        step_after(Stage::Finished, deadline_secs, event) == StepModel::Abort(
            CycleError::OutOfTurn,
        ),
{
}

} // verus!
