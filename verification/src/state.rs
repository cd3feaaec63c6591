//! The five persistent record types and their invariants.
//!
//! Records are plain snapshots: the host ledger stores each one at an
//! address and hands copies to the engine. An `Address` stands for the
//! host's account identity; the engine only ever compares addresses, so
//! they are opaque numbers here.

use vstd::prelude::*;

verus! {

/// An account identity on the host ledger, opaque to the engine.
pub type Address = u64;

/// Bytes the host reserves for a record's type tag.
pub const DISCRIMINATOR_LEN: usize = 8;

/// Maximum title length of a task, in characters.
pub const MAX_TITLE_LEN: usize = 100;

/// Maximum description length of a task, in characters.
pub const MAX_DESC_LEN: usize = 5000;

/// Maximum number of milestones of a task.
pub const MAX_MILESTONES: usize = 10;

/// Maximum proposal length of a bid, in characters.
pub const MAX_PROPOSAL_LEN: usize = 2000;

/// Maximum name length of an agent profile, in characters.
pub const MAX_NAME_LEN: usize = 50;

/// Maximum review text length, in characters.
pub const MAX_REVIEW_LEN: usize = 1000;

/// Bytes reserved for one serialized milestone: a length-prefixed
/// description of at most 200 bytes, the amount, and the two flags.
pub const MILESTONE_SIZE: usize = 4 + 200 + 8 + 1 + 1;

/// Bytes of one serialized escrow record.
pub const ESCROW_SIZE: usize = 8 + 32 + 32 + 32 + 8 + 8 + 32 + 1;

/// Where a task stands in its lifecycle.
///
/// `Disputed` is declared as a future extension point: no operation
/// transitions into or out of it.
#[derive(Clone, Copy, PartialEq, Eq, Structural, Debug)]
pub enum TaskStatus {
    Open,
    InProgress,
    Completed,
    Cancelled,
    Disputed,
}

/// Where a bid stands in its lifecycle.
#[derive(Clone, Copy, PartialEq, Eq, Structural, Debug)]
pub enum BidStatus {
    Pending,
    Accepted,
    Rejected,
    Withdrawn,
}

/// A sub-deliverable of a task with its own payable amount.
///
/// Both flags move from `false` to `true` only and are never reset;
/// a milestone is paid only after it was completed.
#[derive(Clone, Debug)]
pub struct Milestone {
    pub description: String,
    pub amount: u64,
    pub completed: bool,
    pub paid: bool,
}

/// A postable unit of work, owned by its creator.
#[derive(Clone, Debug)]
pub struct Task {
    pub owner: Address,
    pub title: String,
    pub description: String,
    pub budget: u64,
    pub milestones: Vec<Milestone>,
    pub deadline: i64,
    pub status: TaskStatus,
    pub accepted_bid: Option<Address>,
    pub escrow_account: Option<Address>,
    pub created_at: i64,
    pub updated_at: i64,
}

/// A freelancer's proposal against one task.
#[derive(Clone, Debug)]
pub struct Bid {
    pub task: Address,
    pub bidder: Address,
    pub amount: u64,
    pub timeline: i64,
    pub proposal: String,
    pub status: BidStatus,
    pub created_at: i64,
}

/// Custodial holding of funds for one task between acceptance and full
/// payout or refund.
///
/// `released_amount` records every outflow of the escrow, payments and
/// refund alike, so that the custodied balance always equals
/// `total_amount - released_amount`.
#[derive(Clone, Copy, PartialEq, Eq, Structural, Debug)]
pub struct Escrow {
    pub task: Address,
    pub client: Address,
    pub freelancer: Address,
    pub total_amount: u64,
    pub released_amount: u64,
    pub token_mint: Address,
    pub bump: u8,
}

/// Per-address reputation aggregate, created once per participant.
///
/// Only the rating fields are ever incremented; the posted, completed,
/// earned and spent counters are declared but not maintained by any
/// operation of this engine.
#[derive(Clone, Debug)]
pub struct AgentProfile {
    pub owner: Address,
    pub name: String,
    pub tasks_posted: u32,
    pub tasks_completed: u32,
    pub total_earned: u64,
    pub total_spent: u64,
    pub rating_sum: u32,
    pub rating_count: u32,
    pub created_at: i64,
}

/// An immutable rating of one party by the other after task completion.
#[derive(Clone, Debug)]
pub struct Review {
    pub reviewer: Address,
    pub reviewee: Address,
    pub task: Address,
    pub rating: u8,
    pub review_text: String,
    pub created_at: i64,
}

/// The sum of the milestone amounts, as an unbounded integer.
pub open spec fn sum_of_amounts(ms: Seq<Milestone>) -> int
    decreases ms.len(),
{
    if ms.len() == 0 {
        0
    } else {
        sum_of_amounts(ms.drop_last()) + ms.last().amount
    }
}

/// A milestone is paid only after it was completed.
pub open spec fn milestone_wf(m: Milestone) -> bool {
    m.paid ==> m.completed
}

/// Well-formedness of a task: the bounds checked at creation and kept by
/// every operation, and the per-milestone invariant.
///
/// The budget is not tied to the milestone sum here: the sum is checked
/// once at creation, and the budget may later be updated without
/// re-validation.
pub open spec fn task_wf(t: Task) -> bool {
    &&& 0 < t.title@.len() <= MAX_TITLE_LEN
    &&& t.description@.len() <= MAX_DESC_LEN
    &&& 0 < t.milestones@.len() <= MAX_MILESTONES
    &&& forall|i: int| 0 <= i < t.milestones@.len() ==> milestone_wf(#[trigger] t.milestones@[i])
}

/// Well-formedness of a bid: the bounds checked at submission.
pub open spec fn bid_wf(b: Bid) -> bool {
    &&& b.amount > 0
    &&& b.timeline > 0
    &&& b.proposal@.len() <= MAX_PROPOSAL_LEN
}

/// Well-formedness of an escrow: outflows never exceed what was funded.
pub open spec fn escrow_wf(e: Escrow) -> bool {
    e.released_amount <= e.total_amount
}

/// Well-formedness of an agent profile.
pub open spec fn profile_wf(p: AgentProfile) -> bool {
    p.name@.len() <= MAX_NAME_LEN
}

/// Well-formedness of a review: the bounds checked at submission.
pub open spec fn review_wf(r: Review) -> bool {
    &&& 1 <= r.rating <= 5
    &&& r.review_text@.len() <= MAX_REVIEW_LEN
}

impl Task {
    /// Bytes the host must reserve for a task record with the given
    /// number of milestones: the type tag, then every field at its
    /// worst-case serialized size.
    pub fn space(milestone_count: usize) -> (r: usize)
        requires
            milestone_count <= MAX_MILESTONES,
        ensures
            r == 8 + 32 + (4 + MAX_TITLE_LEN) + (4 + MAX_DESC_LEN) + 8 + (4 + milestone_count
                * MILESTONE_SIZE) + 8 + 1 + (1 + 32) + (1 + 32) + 8 + 8,
    {
        proof {
            assert(milestone_count * MILESTONE_SIZE <= MAX_MILESTONES * MILESTONE_SIZE)
                by (nonlinear_arith)
                requires
                    milestone_count <= MAX_MILESTONES,
            ;
        }
        8 + // discriminator
        32 + // owner
        4 + MAX_TITLE_LEN + // title
        4 + MAX_DESC_LEN + // description
        8 + // budget
        4 + (milestone_count * MILESTONE_SIZE) + // milestones
        8 + // deadline
        1 + // status
        1 + 32 + // accepted_bid option
        1 + 32 + // escrow_account option
        8 + // created_at
        8 // updated_at
    }
}

impl Bid {
    /// Bytes the host must reserve for a bid record.
    pub fn space() -> (r: usize)
        ensures
            r == 8 + 32 + 32 + 8 + 8 + (4 + MAX_PROPOSAL_LEN) + 1 + 8,
    {
        8 + // discriminator
        32 + // task
        32 + // bidder
        8 + // amount
        8 + // timeline
        4 + MAX_PROPOSAL_LEN + // proposal
        1 + // status
        8 // created_at
    }
}

impl AgentProfile {
    /// Bytes the host must reserve for an agent profile record.
    pub fn space() -> (r: usize)
        ensures
            r == 8 + 32 + (4 + MAX_NAME_LEN) + 4 + 4 + 8 + 8 + 4 + 4 + 8,
    {
        8 + // discriminator
        32 + // owner
        4 + MAX_NAME_LEN + // name
        4 + // tasks_posted
        4 + // tasks_completed
        8 + // total_earned
        8 + // total_spent
        4 + // rating_sum
        4 + // rating_count
        8 // created_at
    }
}

impl Review {
    /// Bytes the host must reserve for a review record.
    pub fn space() -> (r: usize)
        ensures
            r == 8 + 32 + 32 + 32 + 1 + (4 + MAX_REVIEW_LEN) + 8,
    {
        8 + // discriminator
        32 + // reviewing party
        32 + // reviewee
        32 + // task
        1 + // rating
        4 + MAX_REVIEW_LEN + // review_text
        8 // created_at
    }
}

} // verus!
