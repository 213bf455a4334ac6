//! The confirmation poller: a state machine over one transaction
//! identifier, driven by the answers to receipt queries.
//!
//! The machine decides; the caller waits and queries. `next_action` says
//! whether to query again and how long to wait first, `observe` takes the
//! answer. Every query counts against the budget, and the time waited is
//! the number of queries times the interval.

use vstd::prelude::*;
use crate::amount::Wei;
use crate::error::TransferError;
use crate::txid::TransactionId;

verus! {

/// Status that a receipt carries for a transaction that succeeded.
pub const STATUS_SUCCESS: u64 = 1;

/// How often and how long to poll.
#[derive(Clone, Copy, Debug, PartialEq, Eq)]
pub struct PollPolicy {
    /// Time units to wait before each query.
    pub interval: u64,
    /// The most queries to make.
    pub budget: u32,
}

/// What the chain records of an included transaction.
#[derive(Clone, Copy, Debug, PartialEq, Eq)]
pub struct Receipt {
    pub block_number: u64,
    pub gas_used: Wei,
    pub status: u64,
}

/// The answer to one receipt query.
#[derive(Clone, Debug, PartialEq, Eq)]
pub enum PollEvent {
    /// The chain holds no receipt yet.
    Absent,
    /// The chain holds this receipt.
    Included(Receipt),
    /// The query itself failed.
    QueryFailed(String),
}

/// Where the poller stands.
#[derive(Clone, Debug, PartialEq, Eq)]
pub enum PollState {
    /// The identifier is known and nothing has been asked yet.
    Submitted,
    /// The last answer held no receipt.
    Pending,
    /// A receipt reported success.
    Confirmed { block_number: u64, gas_used: Wei },
    /// A receipt reported failure.
    Failed { block_number: u64, gas_used: Wei },
    /// The budget is spent and no receipt was seen.
    TimedOut,
    /// A query failed; the fate of the transaction is unknown.
    PollError { reason: String },
}

/// How polling ended, where it ended without an error.
#[derive(Clone, Copy, Debug, PartialEq, Eq)]
pub enum Outcome {
    /// The transaction was included and succeeded.
    Confirmed { block_number: u64, gas_used: Wei },
    /// The transaction was included and failed.
    Failed { block_number: u64, gas_used: Wei },
    /// No receipt was seen within the budget; the transaction may still
    /// land.
    TimedOut,
}

/// What the caller is to do next.
#[derive(Clone, Copy, Debug, PartialEq, Eq)]
pub enum PollAction {
    /// Wait `wait` time units, query the receipt, and hand in the answer.
    Query { wait: u64 },
    /// The poller has reached a terminal state.
    Stop,
}

/// The poller as contracts see it.
pub struct PollerView {
    pub tx_id: TransactionId,
    pub policy: PollPolicy,
    pub state: PollState,
    /// Queries answered so far.
    pub ticks: nat,
}

/// `state` is terminal: no further query is made.
pub open spec fn is_terminal(state: PollState) -> bool {
    !(state is Submitted || state is Pending)
}

/// The poller before its first query. With an empty budget there is none.
pub open spec fn start(tx_id: TransactionId, policy: PollPolicy) -> PollerView {
    PollerView {
        tx_id,
        policy,
        state: if policy.budget == 0 {
            PollState::TimedOut
        } else {
            PollState::Submitted
        },
        ticks: 0,
    }
}

/// The terminal state that an answer other than `Absent` leads to.
pub open spec fn verdict(event: PollEvent) -> PollState {
    match event {
        PollEvent::Absent => PollState::Pending,
        PollEvent::Included(receipt) => if receipt.status == STATUS_SUCCESS {
            PollState::Confirmed { block_number: receipt.block_number, gas_used: receipt.gas_used }
        } else {
            PollState::Failed { block_number: receipt.block_number, gas_used: receipt.gas_used }
        },
        PollEvent::QueryFailed(reason) => PollState::PollError { reason },
    }
}

/// `event` is a receipt that reports success.
pub open spec fn reports_success(event: PollEvent) -> bool {
    match event {
        PollEvent::Included(receipt) => receipt.status == STATUS_SUCCESS,
        _ => false,
    }
}

/// What a state amounts to for the caller of the pipeline: nothing yet
/// while polling goes on; else how it ended, a failed query being an error
/// and never a failed transaction.
pub open spec fn outcome_of(state: PollState) -> Option<Result<Outcome, TransferError>> {
    match state {
        PollState::Submitted => None,
        PollState::Pending => None,
        PollState::Confirmed { block_number, gas_used } => Some(
            Ok(Outcome::Confirmed { block_number, gas_used }),
        ),
        PollState::Failed { block_number, gas_used } => Some(
            Ok(Outcome::Failed { block_number, gas_used }),
        ),
        PollState::TimedOut => Some(Ok(Outcome::TimedOut)),
        PollState::PollError { reason } => Some(Err(TransferError::PollError { reason })),
    }
}

/// The poller after one answer. A terminal poller stays as it is.
pub open spec fn step(v: PollerView, event: PollEvent) -> PollerView {
    if is_terminal(v.state) {
        v
    } else if event is Absent {
        PollerView {
            state: if v.ticks + 1 >= v.policy.budget {
                PollState::TimedOut
            } else {
                PollState::Pending
            },
            ticks: v.ticks + 1,
            ..v
        }
    } else {
        PollerView { state: verdict(event), ticks: v.ticks + 1, ..v }
    }
}

/// The poller after a sequence of answers, taken in order.
pub open spec fn run(v: PollerView, events: Seq<PollEvent>) -> PollerView
    decreases events.len(),
{
    if events.len() == 0 {
        v
    } else {
        step(run(v, events.drop_last()), events.last())
    }
}

/// The number of answers at the head of `events` that hold no receipt.
pub open spec fn leading_absents(events: Seq<PollEvent>) -> nat
    decreases events.len(),
{
    if events.len() == 0 {
        0
    } else if leading_absents(events.drop_last()) == events.len() - 1 && events.last() is Absent {
        events.len()
    } else {
        leading_absents(events.drop_last())
    }
}

/// The time that the caller has waited: the interval before each query.
pub open spec fn waited(v: PollerView) -> nat {
    v.ticks * (v.policy.interval as nat)
}

/// The counters of a poller agree with its state.
pub open spec fn consistent(v: PollerView) -> bool {
    match v.state {
        PollState::Submitted => v.ticks == 0 && v.policy.budget > 0,
        PollState::Pending => 0 < v.ticks < v.policy.budget,
        PollState::TimedOut => v.ticks == v.policy.budget,
        _ => 0 < v.ticks <= v.policy.budget,
    }
}

/// A poller over one transaction identifier.
pub struct Poller {
    tx_id: TransactionId,
    policy: PollPolicy,
    state: PollState,
    ticks: u32,
}

impl View for Poller {
    type V = PollerView;

    closed spec fn view(&self) -> PollerView {
        PollerView {
            tx_id: self.tx_id,
            policy: self.policy,
            state: self.state,
            ticks: self.ticks as nat,
        }
    }
}

impl PollPolicy {
    /// Twelve queries, five time units apart: about sixty in all.
    pub fn standard() -> (r: PollPolicy)
        ensures
            r.interval == 5,
            r.budget == 12,
    {
        PollPolicy { interval: 5, budget: 12 }
    }
}

impl Receipt {
    /// Tells whether the receipt reports success.
    pub fn succeeded(&self) -> (r: bool)
        ensures
            r == (self.status == STATUS_SUCCESS),
    {
        self.status == STATUS_SUCCESS
    }
}

impl Poller {
    /// The counters agree with the state.
    #[verifier::type_invariant]
    spec fn sound(self) -> bool {
        consistent(self@)
    }

    /// A poller for `tx_id` that has asked nothing yet.
    pub fn new(tx_id: TransactionId, policy: PollPolicy) -> (r: Poller)
        ensures
            r@ == start(tx_id, policy),
    {
        let state: PollState = if policy.budget == 0 {
            PollState::TimedOut
        } else {
            PollState::Submitted
        };
        Poller { tx_id, policy, state, ticks: 0 }
    }

    /// The identifier that the poller asks about. It stays valid in every
    /// state, for a later look-up.
    pub fn tx_id(&self) -> (r: TransactionId)
        ensures
            r == self@.tx_id,
    {
        self.tx_id
    }

    /// The policy that the poller was made with.
    pub fn policy(&self) -> (r: PollPolicy)
        ensures
            r == self@.policy,
    {
        self.policy
    }

    /// Where the poller stands.
    pub fn state(&self) -> (r: &PollState)
        ensures
            *r == self@.state,
    {
        &self.state
    }

    /// The number of queries answered so far; never more than the budget.
    pub fn ticks(&self) -> (r: u32)
        ensures
            r == self@.ticks,
            r <= self@.policy.budget,
            consistent(self@),
    {
        proof {
            use_type_invariant(self);
        }
        self.ticks
    }

    /// Tells whether the poller has reached a terminal state.
    pub fn is_done(&self) -> (r: bool)
        ensures
            r == is_terminal(self@.state),
    {
        match self.state {
            PollState::Submitted => false,
            PollState::Pending => false,
            _ => true,
        }
    }

    /// How polling ended, or `None` while it goes on.
    pub fn outcome(&self) -> (r: Option<Result<Outcome, TransferError>>)
        ensures
            r == outcome_of(self@.state),
    {
        match &self.state {
            PollState::Submitted => None,
            PollState::Pending => None,
            PollState::Confirmed { block_number, gas_used } => Some(
                Ok(Outcome::Confirmed { block_number: *block_number, gas_used: *gas_used }),
            ),
            PollState::Failed { block_number, gas_used } => Some(
                Ok(Outcome::Failed { block_number: *block_number, gas_used: *gas_used }),
            ),
            PollState::TimedOut => Some(Ok(Outcome::TimedOut)),
            PollState::PollError { reason } => Some(
                Err(TransferError::PollError { reason: reason.clone() }),
            ),
        }
    }

    /// What to do next: stop in a terminal state, else wait the policy's
    /// interval and query.
    pub fn next_action(&self) -> (r: PollAction)
        ensures
            is_terminal(self@.state) ==> r == PollAction::Stop,
            !is_terminal(self@.state) ==> r == (PollAction::Query { wait: self@.policy.interval }),
            r is Query ==> self@.ticks < self@.policy.budget,
    {
        proof {
            use_type_invariant(self);
        }
        if self.is_done() {
            PollAction::Stop
        } else {
            PollAction::Query { wait: self.policy.interval }
        }
    }

    /// Takes the answer to one query.
    pub fn observe(&mut self, event: &PollEvent)
        ensures
            final(self)@ == step(old(self)@, *event),
    {
        proof {
            use_type_invariant(&*self);
        }
        if self.is_done() {
            return ;
        }
        let ticks: u32 = self.ticks + 1;
        let state: PollState = match event {
            PollEvent::Absent => {
                if ticks >= self.policy.budget {
                    PollState::TimedOut
                } else {
                    PollState::Pending
                }
            },
            PollEvent::Included(receipt) => {
                if receipt.succeeded() {
                    PollState::Confirmed {
                        block_number: receipt.block_number,
                        gas_used: receipt.gas_used,
                    }
                } else {
                    PollState::Failed {
                        block_number: receipt.block_number,
                        gas_used: receipt.gas_used,
                    }
                }
            },
            PollEvent::QueryFailed(reason) => PollState::PollError { reason: reason.clone() },
        };
        *self = Poller { tx_id: self.tx_id, policy: self.policy, state, ticks };
    }

    /// The poller for `tx_id` after the answers `events`, taken in order.
    /// Answers behind the one that ends the polling are not looked at.
    pub fn replay(tx_id: TransactionId, policy: PollPolicy, events: &Vec<PollEvent>) -> (r: Poller)
        ensures
            r@ == run(start(tx_id, policy), events@),
    {
        let mut poller: Poller = Poller::new(tx_id, policy);
        let mut i: usize = 0;
        while i < events.len()
            invariant
                i <= events.len(),
                poller@ == run(start(tx_id, policy), events@.take(i as int)),
            decreases events.len() - i,
        {
            proof {
                let next = events@.take(i + 1);
                assert(next.drop_last() == events@.take(i as int));
                assert(next.last() == events@[i as int]);
            }
            poller.observe(&events[i]);
            i = i + 1;
        }
        assert(events@.take(i as int) == events@);
        poller
    }
}

/// The answers at the head of a sequence that `leading_absents` counts hold
/// no receipt, and the one behind them, if any, is another answer.
pub proof fn lemma_leading_absents(events: Seq<PollEvent>)
    ensures
        leading_absents(events) <= events.len(),
        forall|i: int| 0 <= i < leading_absents(events) ==> (#[trigger] events[i]) is Absent,
        leading_absents(events) < events.len() ==> !(events[leading_absents(events) as int]
            is Absent),
    decreases events.len(),
{
    if events.len() > 0 {
        lemma_leading_absents(events.drop_last());
        let head = events.drop_last();
        assert forall|i: int| 0 <= i < leading_absents(events) implies (#[trigger] events[i])
            is Absent by {
            if i < head.len() {
                assert(events[i] == head[i]);
            }
        }
        if leading_absents(events) < events.len() {
            let k = leading_absents(events) as int;
            if k < head.len() {
                assert(events[k] == head[k]);
            }
        }
    }
}

/// What polling comes to. Let `k` be the number of answers without a
/// receipt at the head of `events`. If the budget is spent within them, the
/// poller has timed out after exactly `budget` queries. Else, if there is
/// no other answer, it is still waiting after `k` queries. Else the answer
/// behind them decided: the poller holds its verdict after `k + 1` queries,
/// and so is `Confirmed` exactly when that answer is a receipt that reports
/// success.
pub proof fn lemma_run_is_first_answer(
    tx_id: TransactionId,
    policy: PollPolicy,
    events: Seq<PollEvent>,
)
    ensures
        ({
            let k = leading_absents(events);
            let end = run(start(tx_id, policy), events);
            &&& end.tx_id == tx_id
            &&& end.policy == policy
            &&& consistent(end)
            &&& k >= policy.budget ==> end.state == PollState::TimedOut && end.ticks
                == policy.budget
            &&& k < policy.budget && k == events.len() ==> end.ticks == k && end.state == (if k
                == 0 {
                PollState::Submitted
            } else {
                PollState::Pending
            })
            &&& k < policy.budget && k < events.len() ==> end.ticks == k + 1 && end.state
                == verdict(events[k as int])
        }),
    decreases events.len(),
{
    if events.len() > 0 {
        let head = events.drop_last();
        lemma_run_is_first_answer(tx_id, policy, head);
        lemma_leading_absents(head);
        lemma_leading_absents(events);
        let k = leading_absents(events);
        if k < events.len() && k < head.len() {
            assert(events[k as int] == head[k as int]);
        }
    }
}

/// The poller never makes more queries than its budget, whatever the
/// answers; and when it has timed out it has made exactly that many, so
/// that the time waited is the budget times the interval.
pub proof fn lemma_budget_bounds_queries(
    tx_id: TransactionId,
    policy: PollPolicy,
    events: Seq<PollEvent>,
)
    ensures
        run(start(tx_id, policy), events).ticks <= policy.budget,
        run(start(tx_id, policy), events).state == PollState::TimedOut ==> waited(
            run(start(tx_id, policy), events),
        ) == policy.budget * policy.interval,
{
    lemma_run_is_first_answer(tx_id, policy, events);
}

/// The poller is `Confirmed` exactly when the first answer that is not
/// `Absent` is a receipt that reports success and comes within the budget;
/// it has then made one query for each `Absent` before it, and one more.
pub proof fn lemma_confirmed_exactly(
    tx_id: TransactionId,
    policy: PollPolicy,
    events: Seq<PollEvent>,
)
    ensures
        ({
            let k = leading_absents(events);
            let end = run(start(tx_id, policy), events);
            &&& end.state is Confirmed <==> (k < policy.budget && k < events.len()
                && reports_success(events[k as int]))
            &&& end.state is Confirmed ==> end.ticks == k + 1
        }),
{
    lemma_run_is_first_answer(tx_id, policy, events);
    lemma_leading_absents(events);
}

} // verus!
