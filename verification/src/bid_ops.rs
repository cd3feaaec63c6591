//! Bid lifecycle: submitting against an open task, and the one-of-many
//! acceptance that moves the task to `InProgress`.
//!
//! Acceptance is exclusive by construction: it requires the task to be
//! `Open` and leaves it `InProgress`, so its own precondition is false for
//! every later call on the same task. Other pending bids are not rejected
//! automatically; their owners reject or withdraw them separately.

use vstd::prelude::*;
use vstd::string::StrSliceExecFns;
use crate::errors::AgoraError;
use crate::state::Address;
use crate::state::Bid;
use crate::state::BidStatus;
use crate::state::MAX_PROPOSAL_LEN;
use crate::state::Task;
use crate::state::TaskStatus;
use crate::state::bid_wf;
use crate::state::task_wf;

verus! {

/// The checks of `submit_bid`, in order. A timeline whose completion time
/// `now + timeline` would overflow the time arithmetic exceeds every
/// deadline, so the overflow case is rejected with the same error.
pub open spec fn submit_bid_error(
    task: Task,
    bidder: Address,
    amount: u64,
    timeline: i64,
    proposal: Seq<char>,
    now: i64,
) -> Option<AgoraError> {
    if task.status != TaskStatus::Open {
        Some(AgoraError::InvalidTaskStatus)
    } else if bidder == task.owner {
        Some(AgoraError::Unauthorized)
    } else if proposal.len() > MAX_PROPOSAL_LEN {
        Some(AgoraError::ProposalTooLong)
    } else if amount == 0 {
        Some(AgoraError::InvalidAmount)
    } else if timeline <= 0 {
        Some(AgoraError::InvalidTimeline)
    } else if now + timeline > task.deadline {
        Some(AgoraError::TimelineExceedsDeadline)
    } else {
        None
    }
}

/// Create a `Pending` bid by a non-owner against an open task.
///
/// `task_address` is the address the host stores `task` at; the bid
/// records it as the task it references.
pub fn submit_bid(
    task: &Task,
    task_address: Address,
    bidder: Address,
    amount: u64,
    timeline: i64,
    proposal: String,
    now: i64,
) -> (r: Result<Bid, AgoraError>)
    ensures
        r is Ok <==> submit_bid_error(*task, bidder, amount, timeline, proposal@, now) is None,
        r matches Err(e) ==> Some(e) == submit_bid_error(
            *task,
            bidder,
            amount,
            timeline,
            proposal@,
            now,
        ),
        r matches Ok(b) ==> {
            &&& b == (Bid {
                task: task_address,
                bidder,
                amount,
                timeline,
                proposal: proposal,
                status: BidStatus::Pending,
                created_at: now,
            })
            &&& bid_wf(b)
        },
{
    if task.status != TaskStatus::Open {
        return Err(AgoraError::InvalidTaskStatus);
    }
    if bidder == task.owner {
        return Err(AgoraError::Unauthorized);
    }
    if proposal.as_str().unicode_len() > MAX_PROPOSAL_LEN {
        return Err(AgoraError::ProposalTooLong);
    }
    if amount == 0 {
        return Err(AgoraError::InvalidAmount);
    }
    if timeline <= 0 {
        return Err(AgoraError::InvalidTimeline);
    }
    let completion_time = match now.checked_add(timeline) {
        Some(t) => t,
        None => {
            return Err(AgoraError::TimelineExceedsDeadline);
        },
    };
    if completion_time > task.deadline {
        return Err(AgoraError::TimelineExceedsDeadline);
    }
    Ok(
        Bid {
            task: task_address,
            bidder,
            amount,
            timeline,
            proposal,
            status: BidStatus::Pending,
            created_at: now,
        },
    )
}

/// The checks of `accept_bid`, in order: only the task's owner, only
/// while the task is `Open`, only on a pending bid that references this
/// task.
pub open spec fn accept_bid_error(
    task: Task,
    bid: Bid,
    caller: Address,
    task_address: Address,
) -> Option<AgoraError> {
    if caller != task.owner {
        Some(AgoraError::Unauthorized)
    } else if task.status != TaskStatus::Open {
        Some(AgoraError::InvalidTaskStatus)
    } else if bid.task != task_address {
        Some(AgoraError::AccountMismatch)
    } else if bid.status != BidStatus::Pending {
        Some(AgoraError::InvalidBidStatus)
    } else {
        None
    }
}

/// The task state a successful acceptance leaves behind.
pub open spec fn accept_bid_task_post(task: Task, bid_address: Address, now: i64) -> Task {
    Task {
        status: TaskStatus::InProgress,
        accepted_bid: Some(bid_address),
        updated_at: now,
        ..task
    }
}

/// Accept a pending bid on an open task.
///
/// The bid becomes `Accepted`, the task records it and moves to
/// `InProgress` — after which no further bid can ever be accepted on this
/// task, because the `Open` check above fails for every later call.
pub fn accept_bid(
    task: &mut Task,
    bid: &mut Bid,
    caller: Address,
    task_address: Address,
    bid_address: Address,
    now: i64,
) -> (r: Result<(), AgoraError>)
    requires
        task_wf(*old(task)),
    ensures
        r is Ok <==> accept_bid_error(*old(task), *old(bid), caller, task_address) is None,
        r matches Err(e) ==> Some(e) == accept_bid_error(
            *old(task),
            *old(bid),
            caller,
            task_address,
        ),
        r is Err ==> *final(task) == *old(task) && *final(bid) == *old(bid),
        r is Ok ==> *final(task) == accept_bid_task_post(*old(task), bid_address, now),
        r is Ok ==> *final(bid) == (Bid { status: BidStatus::Accepted, ..*old(bid) }),
        task_wf(*final(task)),
{
    if caller != task.owner {
        return Err(AgoraError::Unauthorized);
    }
    if task.status != TaskStatus::Open {
        return Err(AgoraError::InvalidTaskStatus);
    }
    if bid.task != task_address {
        return Err(AgoraError::AccountMismatch);
    }
    if bid.status != BidStatus::Pending {
        return Err(AgoraError::InvalidBidStatus);
    }
    bid.status = BidStatus::Accepted;
    task.accepted_bid = Some(bid_address);
    task.status = TaskStatus::InProgress;
    task.updated_at = now;
    Ok(())
}

/// The checks of `reject_bid`: only the task's owner, only on a pending
/// bid that references that very task.
pub open spec fn reject_bid_error(
    task: Task,
    bid: Bid,
    caller: Address,
    task_address: Address,
) -> Option<AgoraError> {
    if caller != task.owner {
        Some(AgoraError::Unauthorized)
    } else if bid.task != task_address {
        Some(AgoraError::AccountMismatch)
    } else if bid.status != BidStatus::Pending {
        Some(AgoraError::InvalidBidStatus)
    } else {
        None
    }
}

/// Move a pending bid to the terminal `Rejected` status. The task itself
/// is not touched.
pub fn reject_bid(
    task: &Task,
    bid: &mut Bid,
    caller: Address,
    task_address: Address,
) -> (r: Result<(), AgoraError>)
    ensures
        r is Ok <==> reject_bid_error(*task, *old(bid), caller, task_address) is None,
        r matches Err(e) ==> Some(e) == reject_bid_error(*task, *old(bid), caller, task_address),
        r is Err ==> *final(bid) == *old(bid),
        r is Ok ==> *final(bid) == (Bid { status: BidStatus::Rejected, ..*old(bid) }),
{
    if caller != task.owner {
        return Err(AgoraError::Unauthorized);
    }
    if bid.task != task_address {
        return Err(AgoraError::AccountMismatch);
    }
    if bid.status != BidStatus::Pending {
        return Err(AgoraError::InvalidBidStatus);
    }
    bid.status = BidStatus::Rejected;
    Ok(())
}

/// The checks of `withdraw_bid`: only the bidder, only while pending.
pub open spec fn withdraw_bid_error(bid: Bid, caller: Address) -> Option<AgoraError> {
    if caller != bid.bidder {
        Some(AgoraError::Unauthorized)
    } else if bid.status != BidStatus::Pending {
        Some(AgoraError::InvalidBidStatus)
    } else {
        None
    }
}

/// Move a pending bid to the terminal `Withdrawn` status. Reclaiming the
/// record's storage is the host's part.
pub fn withdraw_bid(bid: &mut Bid, caller: Address) -> (r: Result<(), AgoraError>)
    ensures
        r is Ok <==> withdraw_bid_error(*old(bid), caller) is None,
        r matches Err(e) ==> Some(e) == withdraw_bid_error(*old(bid), caller),
        r is Err ==> *final(bid) == *old(bid),
        r is Ok ==> *final(bid) == (Bid { status: BidStatus::Withdrawn, ..*old(bid) }),
{
    if caller != bid.bidder {
        return Err(AgoraError::Unauthorized);
    }
    if bid.status != BidStatus::Pending {
        return Err(AgoraError::InvalidBidStatus);
    }
    bid.status = BidStatus::Withdrawn;
    Ok(())
}

} // verus!
