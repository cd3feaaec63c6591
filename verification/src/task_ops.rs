//! Task lifecycle: posting, updating while open, and cancelling.
//!
//! Each operation validates the snapshot it was given and either applies
//! all of its mutations or returns the first failing check's error with
//! nothing changed. The caller's identity and the current time come from
//! the host as plain values.

use vstd::prelude::*;
use vstd::string::StrSliceExecFns;
use crate::errors::AgoraError;
use crate::state::Address;
use crate::state::MAX_DESC_LEN;
use crate::state::MAX_MILESTONES;
use crate::state::MAX_TITLE_LEN;
use crate::state::Milestone;
use crate::state::Task;
use crate::state::TaskStatus;
use crate::state::milestone_wf;
use crate::state::sum_of_amounts;
use crate::state::task_wf;

verus! {

/// The checks of `post_task`, in the order they are made: the first one
/// that fails names the error; `None` means the task is created.
pub open spec fn post_task_error(
    title: Seq<char>,
    description: Seq<char>,
    budget: u64,
    milestones: Seq<Milestone>,
    deadline: i64,
    now: i64,
) -> Option<AgoraError> {
    if title.len() == 0 {
        Some(AgoraError::EmptyTitle)
    } else if title.len() > MAX_TITLE_LEN {
        Some(AgoraError::TitleTooLong)
    } else if description.len() > MAX_DESC_LEN {
        Some(AgoraError::DescriptionTooLong)
    } else if milestones.len() == 0 {
        Some(AgoraError::NoMilestones)
    } else if milestones.len() > MAX_MILESTONES {
        Some(AgoraError::TooManyMilestones)
    } else if sum_of_amounts(milestones) != budget {
        Some(AgoraError::MilestoneAmountMismatch)
    } else if deadline <= now {
        Some(AgoraError::InvalidDeadline)
    } else {
        None
    }
}

/// Create a task in `Open` status.
///
/// The milestone amounts must sum exactly to the budget and the deadline
/// must lie strictly after `now`. The created task carries the given
/// milestones with both progress flags cleared, no accepted bid and no
/// escrow.
pub fn post_task(
    owner: Address,
    title: String,
    description: String,
    budget: u64,
    milestones: Vec<Milestone>,
    deadline: i64,
    now: i64,
) -> (r: Result<Task, AgoraError>)
    ensures
        r is Ok <==> post_task_error(title@, description@, budget, milestones@, deadline, now)
            is None,
        r matches Err(e) ==> Some(e) == post_task_error(
            title@,
            description@,
            budget,
            milestones@,
            deadline,
            now,
        ),
        r matches Ok(t) ==> {
            &&& t.owner == owner
            &&& t.title == title
            &&& t.description == description
            &&& t.budget == budget
            &&& t.milestones@.len() == milestones@.len()
            &&& forall|i: int|
                0 <= i < milestones@.len() ==> (#[trigger] t.milestones@[i]) == (Milestone {
                    completed: false,
                    paid: false,
                    ..milestones@[i]
                })
            &&& t.deadline == deadline
            &&& t.status == TaskStatus::Open
            &&& t.accepted_bid is None
            &&& t.escrow_account is None
            &&& t.created_at == now
            &&& t.updated_at == now
            &&& sum_of_amounts(t.milestones@) == budget
            &&& task_wf(t)
        },
{
    if title.as_str().unicode_len() == 0 {
        return Err(AgoraError::EmptyTitle);
    }
    if title.as_str().unicode_len() > MAX_TITLE_LEN {
        return Err(AgoraError::TitleTooLong);
    }
    if description.as_str().unicode_len() > MAX_DESC_LEN {
        return Err(AgoraError::DescriptionTooLong);
    }
    if milestones.len() == 0 {
        return Err(AgoraError::NoMilestones);
    }
    if milestones.len() > MAX_MILESTONES {
        return Err(AgoraError::TooManyMilestones);
    }

    // A u128 accumulator cannot wrap on at most ten u64 amounts, so the
    // exact-sum comparison needs no early overflow exit.
    let mut total: u128 = 0;
    for i in 0..milestones.len()
        invariant
            milestones@.len() <= MAX_MILESTONES,
            total == sum_of_amounts(milestones@.take(i as int)),
            total <= i * (u64::MAX as int),
    {
        proof {
            assert(milestones@.take(i + 1).drop_last() =~= milestones@.take(i as int));
        }
        total = total + milestones[i].amount as u128;
    }
    proof {
        assert(milestones@.take(milestones@.len() as int) =~= milestones@);
    }
    if total != budget as u128 {
        return Err(AgoraError::MilestoneAmountMismatch);
    }

    if deadline <= now {
        return Err(AgoraError::InvalidDeadline);
    }

    let mut fresh: Vec<Milestone> = Vec::new();
    for i in 0..milestones.len()
        invariant
            fresh@.len() == i,
            forall|j: int|
                0 <= j < i ==> (#[trigger] fresh@[j]) == (Milestone {
                    completed: false,
                    paid: false,
                    ..milestones@[j]
                }),
            sum_of_amounts(fresh@) == sum_of_amounts(milestones@.take(i as int)),
    {
        proof {
            assert(milestones@.take(i + 1).drop_last() =~= milestones@.take(i as int));
        }
        let m = Milestone {
            description: milestones[i].description.clone(),
            amount: milestones[i].amount,
            completed: false,
            paid: false,
        };
        let ghost pre = fresh@;
        fresh.push(m);
        proof {
            assert(fresh@.drop_last() =~= pre);
        }
    }
    proof {
        assert(milestones@.take(milestones@.len() as int) =~= milestones@);
    }

    Ok(
        Task {
            owner,
            title,
            description,
            budget,
            milestones: fresh,
            deadline,
            status: TaskStatus::Open,
            accepted_bid: None,
            escrow_account: None,
            created_at: now,
            updated_at: now,
        },
    )
}

/// The checks of `update_task`: only the owner may update, only while the
/// task is `Open`, and each provided field is validated independently.
/// A provided budget is applied without re-validation against the
/// milestone sum.
pub open spec fn update_task_error(
    task: Task,
    caller: Address,
    description: Option<Seq<char>>,
    deadline: Option<i64>,
    now: i64,
) -> Option<AgoraError> {
    if caller != task.owner {
        Some(AgoraError::Unauthorized)
    } else if task.status != TaskStatus::Open {
        Some(AgoraError::InvalidTaskStatus)
    } else if description matches Some(d) && d.len() > MAX_DESC_LEN {
        Some(AgoraError::DescriptionTooLong)
    } else if deadline matches Some(dl) && dl <= now {
        Some(AgoraError::InvalidDeadline)
    } else {
        None
    }
}

/// Apply the provided fields to an open task owned by the caller.
///
/// Unset fields stay as they were; on success `updated_at` moves to
/// `now`; on any rejection the task is unchanged.
pub fn update_task(
    task: &mut Task,
    caller: Address,
    description: Option<String>,
    budget: Option<u64>,
    deadline: Option<i64>,
    now: i64,
) -> (r: Result<(), AgoraError>)
    requires
        task_wf(*old(task)),
    ensures
        r is Ok <==> update_task_error(*old(task), caller, description.deep_view(), deadline, now)
            is None,
        r matches Err(e) ==> Some(e) == update_task_error(
            *old(task),
            caller,
            description.deep_view(),
            deadline,
            now,
        ),
        r is Err ==> *final(task) == *old(task),
        r is Ok ==> *final(task) == (Task {
            description: (match description {
                Some(d) => d,
                None => old(task).description,
            }),
            budget: (match budget {
                Some(b) => b,
                None => old(task).budget,
            }),
            deadline: (match deadline {
                Some(dl) => dl,
                None => old(task).deadline,
            }),
            updated_at: now,
            ..*old(task)
        }),
        task_wf(*final(task)),
{
    if caller != task.owner {
        return Err(AgoraError::Unauthorized);
    }
    if task.status != TaskStatus::Open {
        return Err(AgoraError::InvalidTaskStatus);
    }
    if let Some(d) = &description {
        if d.as_str().unicode_len() > MAX_DESC_LEN {
            return Err(AgoraError::DescriptionTooLong);
        }
    }
    if let Some(dl) = &deadline {
        if *dl <= now {
            return Err(AgoraError::InvalidDeadline);
        }
    }

    if let Some(d) = description {
        task.description = d;
    }
    if let Some(b) = budget {
        task.budget = b;
    }
    if let Some(dl) = deadline {
        task.deadline = dl;
    }
    task.updated_at = now;
    Ok(())
}

/// The checks of `cancel_task`: only the owner may cancel, only while the
/// task is `Open` or `InProgress`, and never once an escrow exists —
/// escrowed funds leave only through payment release or a refund.
pub open spec fn cancel_task_error(task: Task, caller: Address) -> Option<AgoraError> {
    if caller != task.owner {
        Some(AgoraError::Unauthorized)
    } else if task.status != TaskStatus::Open && task.status != TaskStatus::InProgress {
        Some(AgoraError::InvalidTaskStatus)
    } else if task.escrow_account is Some {
        Some(AgoraError::EscrowExists)
    } else {
        None
    }
}

/// Move an unescrowed task to `Cancelled`.
pub fn cancel_task(task: &mut Task, caller: Address, now: i64) -> (r: Result<(), AgoraError>)
    requires
        task_wf(*old(task)),
    ensures
        r is Ok <==> cancel_task_error(*old(task), caller) is None,
        r matches Err(e) ==> Some(e) == cancel_task_error(*old(task), caller),
        r is Err ==> *final(task) == *old(task),
        r is Ok ==> *final(task) == (Task {
            status: TaskStatus::Cancelled,
            updated_at: now,
            ..*old(task)
        }),
        task_wf(*final(task)),
{
    if caller != task.owner {
        return Err(AgoraError::Unauthorized);
    }
    if task.status != TaskStatus::Open && task.status != TaskStatus::InProgress {
        return Err(AgoraError::InvalidTaskStatus);
    }
    if task.escrow_account.is_some() {
        return Err(AgoraError::EscrowExists);
    }
    task.status = TaskStatus::Cancelled;
    task.updated_at = now;
    Ok(())
}

} // verus!
