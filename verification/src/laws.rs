//! The engine's cross-operation guarantees, stated and proved once over
//! all inputs: exact budgeting at posting, exclusive bid acceptance,
//! completion exactly at the last paid milestone, and the custody bound
//! that keeps release and refund from ever drawing the same funds twice.

use vstd::prelude::*;
use crate::errors::AgoraError;
use crate::bid_ops::accept_bid_error;
use crate::bid_ops::accept_bid_task_post;
use crate::escrow_ops::all_paid;
use crate::escrow_ops::custody_intact;
use crate::escrow_ops::refund_amount;
use crate::state::Address;
use crate::state::Bid;
use crate::state::Escrow;
use crate::state::MAX_DESC_LEN;
use crate::state::MAX_MILESTONES;
use crate::state::MAX_TITLE_LEN;
use crate::state::Milestone;
use crate::state::Task;
use crate::state::escrow_wf;
use crate::state::sum_of_amounts;
use crate::task_ops::post_task_error;
use crate::token::TokenAccount;

verus! {

/// A task comes into being only with milestone amounts that sum exactly
/// to its budget: `post_task` rejects every input whose sums mismatch,
/// creating nothing, and when the other bounds are in order the
/// rejection is `MilestoneAmountMismatch` itself.
pub proof fn lemma_post_task_exact_budget(
    title: Seq<char>,
    description: Seq<char>,
    budget: u64,
    milestones: Seq<Milestone>,
    deadline: i64,
    now: i64,
)
    ensures
        sum_of_amounts(milestones) != budget ==> post_task_error(
            title,
            description,
            budget,
            milestones,
            deadline,
            now,
        ) is Some,
        (0 < title.len() <= MAX_TITLE_LEN && description.len() <= MAX_DESC_LEN && 0
            < milestones.len() <= MAX_MILESTONES && sum_of_amounts(milestones) != budget)
            ==> post_task_error(title, description, budget, milestones, deadline, now) == Some(
            AgoraError::MilestoneAmountMismatch,
        ),
{
}

/// Accepting a bid is exclusive: one successful acceptance leaves the
/// task `InProgress`, so a second `accept_bid` on the same task — by any
/// caller, with any bid — is rejected; for the owner the rejection is the
/// task's status.
pub proof fn lemma_accept_bid_exclusive(
    task: Task,
    bid: Bid,
    caller: Address,
    task_address: Address,
    bid_address: Address,
    now: i64,
    second_bid: Bid,
    second_caller: Address,
)
    requires
        accept_bid_error(task, bid, caller, task_address) is None,
    ensures
        accept_bid_error(
            accept_bid_task_post(task, bid_address, now),
            second_bid,
            second_caller,
            task_address,
        ) is Some,
        second_caller == task.owner ==> accept_bid_error(
            accept_bid_task_post(task, bid_address, now),
            second_bid,
            second_caller,
            task_address,
        ) == Some(AgoraError::InvalidTaskStatus),
{
}

/// Paying one unpaid milestone completes the task's milestone set
/// exactly when every other milestone was already paid — so releasing
/// every index exactly once, in any order, reaches the all-paid state at
/// the last release and never before.
pub proof fn lemma_release_completes_exactly_at_last(ms: Seq<Milestone>, i: int)
    requires
        0 <= i < ms.len(),
        !ms[i].paid,
    ensures
        all_paid(ms.update(i, (Milestone { paid: true, ..ms[i] }))) <==> (forall|j: int|
            0 <= j < ms.len() && j != i ==> (#[trigger] ms[j]).paid),
{
    let updated = ms.update(i, (Milestone { paid: true, ..ms[i] }));
    assert forall|j: int| 0 <= j < ms.len() && j != i implies updated[j] == ms[j] by {}
}

/// Release and refund are mutually exclusive on the same funds: whatever
/// the escrow still owes as a refund, together with everything already
/// released, is exactly the funded total — the two outflows can never
/// add up past it. Once the refund is taken it is recorded like a
/// release, and nothing remains to refund.
pub proof fn lemma_refund_release_exclusive(e: Escrow)
    requires
        escrow_wf(e),
    ensures
        refund_amount(e) + e.released_amount == e.total_amount,
        refund_amount(Escrow { released_amount: e.total_amount, ..e }) == 0,
{
}

/// `released_amount` only ever grows, and while custody is intact it
/// never passes `total_amount`: an outflow of `amount` is possible only
/// out of the custodied balance, and it moves the counter up by exactly
/// `amount` while keeping custody intact.
pub proof fn lemma_outflow_monotonic_bounded(e: Escrow, tokens: TokenAccount, amount: u64)
    requires
        custody_intact(e, tokens),
        amount <= tokens.amount,
    ensures
        e.released_amount + amount >= e.released_amount,
        e.released_amount + amount <= e.total_amount,
        custody_intact(
            Escrow { released_amount: (e.released_amount + amount) as u64, ..e },
            TokenAccount { amount: (tokens.amount - amount) as u64, ..tokens },
        ),
{
}

} // verus!
