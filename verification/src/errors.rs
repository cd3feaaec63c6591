//! The failure taxonomy of the engine.
//!
//! Every operation rejects before any mutation: an error means the record
//! snapshot the operation was given is unchanged and no value moved.

use vstd::prelude::*;

verus! {

/// Why an operation was rejected.
///
/// The first group are input-validation failures; the second are
/// authorization and account-wiring failures that the host's account
/// constraints reported in kind; the third are state-machine failures; the
/// last are checked-arithmetic guards.
#[derive(Clone, Copy, PartialEq, Eq, Structural, Debug)]
pub enum AgoraError {
    EmptyTitle,
    TitleTooLong,
    DescriptionTooLong,
    NoMilestones,
    TooManyMilestones,
    MilestoneAmountMismatch,
    InvalidDeadline,
    ProposalTooLong,
    InvalidAmount,
    InvalidTimeline,
    TimelineExceedsDeadline,
    InvalidMilestoneIndex,
    InvalidRating,
    ReviewTooLong,
    NameTooLong,
    /// The caller is not the owner, bidder or freelancer the operation requires.
    Unauthorized,
    /// A record passed in does not reference the record it must belong to.
    AccountMismatch,
    /// A transfer's authority is not the owner of the paying account.
    InvalidAuthority,
    /// A token account's mint differs from the mint the operation requires.
    MintMismatch,
    /// The task's status does not admit the operation.
    InvalidTaskStatus,
    /// The bid's status does not admit the operation.
    InvalidBidStatus,
    /// The task has no accepted bid yet.
    NoAcceptedBid,
    /// An escrow for the task already exists.
    EscrowExists,
    MilestoneNotCompleted,
    MilestoneAlreadyPaid,
    MilestoneAlreadyCompleted,
    RefundNotAllowed,
    NoFundsToRefund,
    /// The paying account's balance is below the requested amount.
    InsufficientFunds,
    /// A checked addition or subtraction would wrap.
    ArithmeticOverflow,
}

/// The four classes of failure: out-of-bounds input, a caller or account
/// that is not the one required, an operation not valid for the current
/// record state, and a checked-arithmetic guard tripping.
#[derive(Clone, Copy, PartialEq, Eq, Structural, Debug)]
pub enum ErrorClass {
    Validation,
    Authorization,
    State,
    Arithmetic,
}

/// The class an error belongs to, as a spec-level function.
pub open spec fn class_of(e: AgoraError) -> ErrorClass {
    match e {
        AgoraError::EmptyTitle => ErrorClass::Validation,
        AgoraError::TitleTooLong => ErrorClass::Validation,
        AgoraError::DescriptionTooLong => ErrorClass::Validation,
        AgoraError::NoMilestones => ErrorClass::Validation,
        AgoraError::TooManyMilestones => ErrorClass::Validation,
        AgoraError::MilestoneAmountMismatch => ErrorClass::Validation,
        AgoraError::InvalidDeadline => ErrorClass::Validation,
        AgoraError::ProposalTooLong => ErrorClass::Validation,
        AgoraError::InvalidAmount => ErrorClass::Validation,
        AgoraError::InvalidTimeline => ErrorClass::Validation,
        AgoraError::TimelineExceedsDeadline => ErrorClass::Validation,
        AgoraError::InvalidMilestoneIndex => ErrorClass::Validation,
        AgoraError::InvalidRating => ErrorClass::Validation,
        AgoraError::ReviewTooLong => ErrorClass::Validation,
        AgoraError::NameTooLong => ErrorClass::Validation,
        AgoraError::Unauthorized => ErrorClass::Authorization,
        AgoraError::AccountMismatch => ErrorClass::Authorization,
        AgoraError::InvalidAuthority => ErrorClass::Authorization,
        AgoraError::MintMismatch => ErrorClass::Authorization,
        AgoraError::InvalidTaskStatus => ErrorClass::State,
        AgoraError::InvalidBidStatus => ErrorClass::State,
        AgoraError::NoAcceptedBid => ErrorClass::State,
        AgoraError::EscrowExists => ErrorClass::State,
        AgoraError::MilestoneNotCompleted => ErrorClass::State,
        AgoraError::MilestoneAlreadyPaid => ErrorClass::State,
        AgoraError::MilestoneAlreadyCompleted => ErrorClass::State,
        AgoraError::RefundNotAllowed => ErrorClass::State,
        AgoraError::NoFundsToRefund => ErrorClass::State,
        AgoraError::InsufficientFunds => ErrorClass::State,
        AgoraError::ArithmeticOverflow => ErrorClass::Arithmetic,
    }
}

impl AgoraError {
    /// The class this error belongs to.
    pub fn class(&self) -> (c: ErrorClass)
        ensures
            c == class_of(*self),
    {
        match self {
            AgoraError::EmptyTitle => ErrorClass::Validation,
            AgoraError::TitleTooLong => ErrorClass::Validation,
            AgoraError::DescriptionTooLong => ErrorClass::Validation,
            AgoraError::NoMilestones => ErrorClass::Validation,
            AgoraError::TooManyMilestones => ErrorClass::Validation,
            AgoraError::MilestoneAmountMismatch => ErrorClass::Validation,
            AgoraError::InvalidDeadline => ErrorClass::Validation,
            AgoraError::ProposalTooLong => ErrorClass::Validation,
            AgoraError::InvalidAmount => ErrorClass::Validation,
            AgoraError::InvalidTimeline => ErrorClass::Validation,
            AgoraError::TimelineExceedsDeadline => ErrorClass::Validation,
            AgoraError::InvalidMilestoneIndex => ErrorClass::Validation,
            AgoraError::InvalidRating => ErrorClass::Validation,
            AgoraError::ReviewTooLong => ErrorClass::Validation,
            AgoraError::NameTooLong => ErrorClass::Validation,
            AgoraError::Unauthorized => ErrorClass::Authorization,
            AgoraError::AccountMismatch => ErrorClass::Authorization,
            AgoraError::InvalidAuthority => ErrorClass::Authorization,
            AgoraError::MintMismatch => ErrorClass::Authorization,
            AgoraError::InvalidTaskStatus => ErrorClass::State,
            AgoraError::InvalidBidStatus => ErrorClass::State,
            AgoraError::NoAcceptedBid => ErrorClass::State,
            AgoraError::EscrowExists => ErrorClass::State,
            AgoraError::MilestoneNotCompleted => ErrorClass::State,
            AgoraError::MilestoneAlreadyPaid => ErrorClass::State,
            AgoraError::MilestoneAlreadyCompleted => ErrorClass::State,
            AgoraError::RefundNotAllowed => ErrorClass::State,
            AgoraError::NoFundsToRefund => ErrorClass::State,
            AgoraError::InsufficientFunds => ErrorClass::State,
            AgoraError::ArithmeticOverflow => ErrorClass::Arithmetic,
        }
    }
}

} // verus!
