//! Reputation: one profile per participant, and reviews after completion.
//!
//! A review may be submitted by either party of a completed task about
//! the other; nothing prevents the same pair from reviewing repeatedly.
//! Only the rating aggregate of the reviewee's profile moves; the other
//! profile counters are never incremented by any operation.

use vstd::prelude::*;
use vstd::string::StrSliceExecFns;
use crate::errors::AgoraError;
use crate::state::Address;
use crate::state::AgentProfile;
use crate::state::Bid;
use crate::state::MAX_NAME_LEN;
use crate::state::MAX_REVIEW_LEN;
use crate::state::Review;
use crate::state::Task;
use crate::state::TaskStatus;
use crate::state::profile_wf;
use crate::state::review_wf;

verus! {

/// The one check of `initialize_agent_profile`: the name's length.
pub open spec fn initialize_agent_profile_error(name: Seq<char>) -> Option<AgoraError> {
    if name.len() > MAX_NAME_LEN {
        Some(AgoraError::NameTooLong)
    } else {
        None
    }
}

/// Create a participant's profile with every counter at zero.
///
/// That it is created at most once per address is the host's storage
/// guarantee: the profile lives at an address derived from its owner.
pub fn initialize_agent_profile(owner: Address, name: String, now: i64) -> (r: Result<
    AgentProfile,
    AgoraError,
>)
    ensures
        r is Ok <==> initialize_agent_profile_error(name@) is None,
        r matches Err(e) ==> Some(e) == initialize_agent_profile_error(name@),
        r matches Ok(p) ==> {
            &&& p == (AgentProfile {
                owner,
                name: name,
                tasks_posted: 0,
                tasks_completed: 0,
                total_earned: 0,
                total_spent: 0,
                rating_sum: 0,
                rating_count: 0,
                created_at: now,
            })
            &&& profile_wf(p)
        },
{
    if name.as_str().unicode_len() > MAX_NAME_LEN {
        return Err(AgoraError::NameTooLong);
    }
    Ok(
        AgentProfile {
            owner,
            name,
            tasks_posted: 0,
            tasks_completed: 0,
            total_earned: 0,
            total_spent: 0,
            rating_sum: 0,
            rating_count: 0,
            created_at: now,
        },
    )
}

/// The checks of `submit_review`, in order: the task must be completed;
/// the bid passed in must be the task's accepted bid; the reviewing and
/// reviewed parties must be distinct and be the task's two parties, each
/// rating the other; the profile must belong to the reviewed party; the rating and
/// text must be in bounds; and the profile's aggregate must not wrap.
pub open spec fn submit_review_error(
    task: Task,
    bid: Bid,
    reviewer: Address,
    reviewee: Address,
    profile: AgentProfile,
    rating: u8,
    review_text: Seq<char>,
    task_address: Address,
    bid_address: Address,
) -> Option<AgoraError> {
    if task.status != TaskStatus::Completed {
        Some(AgoraError::InvalidTaskStatus)
    } else if bid.task != task_address || task.accepted_bid != Some(bid_address) {
        Some(AgoraError::AccountMismatch)
    } else if reviewer == reviewee || !((reviewer == task.owner && reviewee == bid.bidder) || (
    reviewer == bid.bidder && reviewee == task.owner)) {
        Some(AgoraError::Unauthorized)
    } else if profile.owner != reviewee {
        Some(AgoraError::AccountMismatch)
    } else if rating < 1 || rating > 5 {
        Some(AgoraError::InvalidRating)
    } else if review_text.len() > MAX_REVIEW_LEN {
        Some(AgoraError::ReviewTooLong)
    } else if profile.rating_sum + rating > u32::MAX {
        Some(AgoraError::ArithmeticOverflow)
    } else if profile.rating_count + 1 > u32::MAX {
        Some(AgoraError::ArithmeticOverflow)
    } else {
        None
    }
}

/// Record an immutable review of one party of a completed task by the
/// other, and fold the rating into the reviewee's profile.
pub fn submit_review(
    task: &Task,
    bid: &Bid,
    reviewer: Address,
    reviewee: Address,
    profile: &mut AgentProfile,
    rating: u8,
    review_text: String,
    task_address: Address,
    bid_address: Address,
    now: i64,
) -> (r: Result<Review, AgoraError>)
    requires
        profile_wf(*old(profile)),
    ensures
        r is Ok <==> submit_review_error(
            *task,
            *bid,
            reviewer,
            reviewee,
            *old(profile),
            rating,
            review_text@,
            task_address,
            bid_address,
        ) is None,
        r matches Err(e) ==> Some(e) == submit_review_error(
            *task,
            *bid,
            reviewer,
            reviewee,
            *old(profile),
            rating,
            review_text@,
            task_address,
            bid_address,
        ),
        r is Err ==> *final(profile) == *old(profile),
        r matches Ok(rev) ==> {
            &&& rev == (Review {
                reviewer,
                reviewee,
                task: task_address,
                rating,
                review_text: review_text,
                created_at: now,
            })
            &&& review_wf(rev)
        },
        r is Ok ==> *final(profile) == (AgentProfile {
            rating_sum: (old(profile).rating_sum + rating) as u32,
            rating_count: (old(profile).rating_count + 1) as u32,
            ..*old(profile)
        }),
        profile_wf(*final(profile)),
{
    if task.status != TaskStatus::Completed {
        return Err(AgoraError::InvalidTaskStatus);
    }
    let accepted_matches = match task.accepted_bid {
        Some(a) => a == bid_address,
        None => false,
    };
    if bid.task != task_address || !accepted_matches {
        return Err(AgoraError::AccountMismatch);
    }
    let proper_pair = (reviewer == task.owner && reviewee == bid.bidder) || (reviewer == bid.bidder
        && reviewee == task.owner);
    if reviewer == reviewee || !proper_pair {
        return Err(AgoraError::Unauthorized);
    }
    if profile.owner != reviewee {
        return Err(AgoraError::AccountMismatch);
    }
    if rating < 1 || rating > 5 {
        return Err(AgoraError::InvalidRating);
    }
    if review_text.as_str().unicode_len() > MAX_REVIEW_LEN {
        return Err(AgoraError::ReviewTooLong);
    }
    let new_sum = match profile.rating_sum.checked_add(rating as u32) {
        Some(v) => v,
        None => {
            return Err(AgoraError::ArithmeticOverflow);
        },
    };
    let new_count = match profile.rating_count.checked_add(1) {
        Some(v) => v,
        None => {
            return Err(AgoraError::ArithmeticOverflow);
        },
    };
    profile.rating_sum = new_sum;
    profile.rating_count = new_count;
    Ok(
        Review {
            reviewer,
            reviewee,
            task: task_address,
            rating,
            review_text,
            created_at: now,
        },
    )
}

} // verus!
