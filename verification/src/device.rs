//! Classification of the disk-management service's replies around the one
//! operation that matters, the raw write. Unmounting, rescanning and ejecting
//! are best-effort steps: their failures are advisory and never abort a job.

use vstd::prelude::*;

verus! {

/// What the disk-management service answered to a forced unmount of one
/// partition.
#[derive(Debug)]
pub enum UnmountReply {
    /// The partition was mounted and has been unmounted.
    Unmounted,
    /// The partition was not mounted in the first place.
    NotMounted,
    /// The service reported some other error.
    Failed { details: String },
}

/// How the engine treats an unmount reply: success, or an advisory failure
/// that is logged and ignored.
#[derive(Debug)]
pub enum UnmountOutcome {
    Success,
    Advisory { details: String },
}

pub enum UnmountReplyView {
    Unmounted,
    NotMounted,
    Failed { details: Seq<char> },
}

pub enum UnmountOutcomeView {
    Success,
    Advisory { details: Seq<char> },
}

impl View for UnmountReply {
    type V = UnmountReplyView;

    open spec fn view(&self) -> UnmountReplyView {
        match self {
            UnmountReply::Unmounted => UnmountReplyView::Unmounted,
            UnmountReply::NotMounted => UnmountReplyView::NotMounted,
            UnmountReply::Failed { details } => UnmountReplyView::Failed { details: details@ },
        }
    }
}

impl View for UnmountOutcome {
    type V = UnmountOutcomeView;

    open spec fn view(&self) -> UnmountOutcomeView {
        match self {
            UnmountOutcome::Success => UnmountOutcomeView::Success,
            UnmountOutcome::Advisory { details } => UnmountOutcomeView::Advisory {
                details: details@,
            },
        }
    }
}

/// How each unmount reply is classified: both a completed unmount and a
/// "not mounted" reply count as success; anything else is advisory.
pub open spec fn outcome_of(reply: UnmountReplyView) -> UnmountOutcomeView {
    match reply {
        UnmountReplyView::Unmounted => UnmountOutcomeView::Success,
        UnmountReplyView::NotMounted => UnmountOutcomeView::Success,
        UnmountReplyView::Failed { details } => UnmountOutcomeView::Advisory { details },
    }
}

/// Classifies one unmount reply. No reply is ever fatal: the outcome type has
/// no variant that could abort the job.
pub fn unmount_outcome(reply: &UnmountReply) -> (r: UnmountOutcome)
    ensures
        r@ == outcome_of(reply@),
{
    match reply {
        UnmountReply::Unmounted => UnmountOutcome::Success,
        UnmountReply::NotMounted => UnmountOutcome::Success,
        UnmountReply::Failed { details } => UnmountOutcome::Advisory {
            details: details.clone(),
        },
    }
}

/// Classifies the replies for a whole device, one per partition, in order.
/// Every partition is classified: an advisory failure on one partition does
/// not stop the walk over the others.
pub fn unmount_all_outcome(replies: &Vec<UnmountReply>) -> (r: Vec<UnmountOutcome>)
    ensures
        r@.len() == replies@.len(),
        forall|i: int| 0 <= i < r@.len() ==> r@[i]@ == outcome_of(replies@[i]@),
{
    let mut outcomes: Vec<UnmountOutcome> = Vec::new();
    let mut i: usize = 0;
    while i < replies.len()
        invariant
            i <= replies@.len(),
            outcomes@.len() == i,
            forall|j: int| 0 <= j < i ==> outcomes@[j]@ == outcome_of(replies@[j]@),
        decreases replies@.len() - i,
    {
        let outcome = unmount_outcome(&replies[i]);
        outcomes.push(outcome);
        i = i + 1;
    }
    outcomes
}

/// Law: unmounting an already-unmounted partition reports success, not
/// failure. Together with the job machine's unmount event, which carries no
/// failure at all, no unmount reply can abort a job.
pub proof fn lemma_unmount_idempotent(reply: UnmountReplyView)
    requires
        reply is NotMounted,
    ensures
        outcome_of(reply) is Success,
{
}

} // verus!
