//! The commit of a run: the staged tree replaces the workspace's committed
//! tree through renames, with a rollback where the swap fails.
use vstd::prelude::*;

verus! {

/// One filesystem operation of the commit.
#[derive(PartialEq, Eq, Structural, Clone, Copy, Debug)]
pub enum CommitAction {
    /// Rename the committed tree to a fresh trash directory.
    MoveBaseToTrash,
    /// Rename the staged tree to the committed tree's place.
    MoveStagingToBase,
    /// Rename the trash back to the committed tree's place.
    MoveTrashToBase,
    /// Delete the trash.
    RemoveTrash,
}

#[derive(PartialEq, Eq, Structural, Clone, Copy, Debug)]
pub enum CommitOutcome {
    /// The staged tree is now the committed tree.
    Committed,
    /// The commit failed and the committed tree is as it was.
    Failed,
    /// The swap and its rollback both failed: the old tree is left in the trash.
    RollbackFailed,
}

#[derive(PartialEq, Eq, Structural, Clone, Copy, Debug)]
pub enum CommitStep {
    Run(CommitAction),
    Finish(CommitOutcome),
}

/// The first step of a commit.
pub fn commit_start(base_exists: bool) -> (r: CommitStep)
    ensures
        r == spec_commit_start(base_exists),
{
    if base_exists {
        CommitStep::Run(CommitAction::MoveBaseToTrash)
    } else {
        CommitStep::Run(CommitAction::MoveStagingToBase)
    }
}

pub open spec fn spec_commit_start(base_exists: bool) -> CommitStep {
    if base_exists {
        CommitStep::Run(CommitAction::MoveBaseToTrash)
    } else {
        CommitStep::Run(CommitAction::MoveStagingToBase)
    }
}

/// What follows `last`, given whether it succeeded and whether the old
/// committed tree was moved to the trash.
pub open spec fn spec_commit_next(last: CommitAction, succeeded: bool, trashed: bool) -> CommitStep {
    match last {
        CommitAction::MoveBaseToTrash => if succeeded {
            CommitStep::Run(CommitAction::MoveStagingToBase)
        } else {
            CommitStep::Finish(CommitOutcome::Failed)
        },
        CommitAction::MoveStagingToBase => if succeeded {
            if trashed { CommitStep::Run(CommitAction::RemoveTrash) } else { CommitStep::Finish(CommitOutcome::Committed) }
        } else {
            if trashed { CommitStep::Run(CommitAction::MoveTrashToBase) } else { CommitStep::Finish(CommitOutcome::Failed) }
        },
        CommitAction::MoveTrashToBase => if succeeded {
            CommitStep::Finish(CommitOutcome::Failed)
        } else {
            CommitStep::Finish(CommitOutcome::RollbackFailed)
        },
        CommitAction::RemoveTrash => CommitStep::Finish(CommitOutcome::Committed),
    }
}

pub fn commit_next(last: CommitAction, succeeded: bool, trashed: bool) -> (r: CommitStep)
    ensures
        r == spec_commit_next(last, succeeded, trashed),
{
    match last {
        CommitAction::MoveBaseToTrash => if succeeded {
            CommitStep::Run(CommitAction::MoveStagingToBase)
        } else {
            CommitStep::Finish(CommitOutcome::Failed)
        },
        CommitAction::MoveStagingToBase => if succeeded {
            if trashed { CommitStep::Run(CommitAction::RemoveTrash) } else { CommitStep::Finish(CommitOutcome::Committed) }
        } else {
            if trashed { CommitStep::Run(CommitAction::MoveTrashToBase) } else { CommitStep::Finish(CommitOutcome::Failed) }
        },
        CommitAction::MoveTrashToBase => if succeeded {
            CommitStep::Finish(CommitOutcome::Failed)
        } else {
            CommitStep::Finish(CommitOutcome::RollbackFailed)
        },
        CommitAction::RemoveTrash => CommitStep::Finish(CommitOutcome::Committed),
    }
}

/// The three directories a commit touches, each absent or holding a tree
/// (a tree is named by a number).
pub struct Dirs {
    pub base: Option<int>,
    pub staging: Option<int>,
    pub trash: Option<int>,
}

/// A rename either happens whole or not at all.
pub open spec fn apply_action(d: Dirs, a: CommitAction, succeeded: bool) -> Dirs {
    if !succeeded {
        d
    } else {
        match a {
            CommitAction::MoveBaseToTrash => Dirs { base: None, trash: d.base, ..d },
            CommitAction::MoveStagingToBase => Dirs { base: d.staging, staging: None, ..d },
            CommitAction::MoveTrashToBase => Dirs { base: d.trash, trash: None, ..d },
            CommitAction::RemoveTrash => Dirs { trash: None, ..d },
        }
    }
}

pub open spec fn trashed_after(trashed: bool, a: CommitAction, succeeded: bool) -> bool {
    trashed || (a == CommitAction::MoveBaseToTrash && succeeded)
}

/// Runs the commit from `step` with the outcomes `oks` of its operations;
/// `None` where the outcomes run out first.
pub open spec fn run_commit(d: Dirs, step: CommitStep, trashed: bool, oks: Seq<bool>) -> (Dirs, Option<CommitOutcome>)
    decreases oks.len(),
{
    match step {
        CommitStep::Finish(o) => (d, Some(o)),
        CommitStep::Run(a) => if oks.len() == 0 {
            (d, None)
        } else {
            run_commit(
                apply_action(d, a, oks[0]),
                spec_commit_next(a, oks[0], trashed),
                trashed_after(trashed, a, oks[0]),
                oks.drop_first(),
            )
        },
    }
}

/// What holds at each step of a commit that began with `base0` committed and
/// `staged` staged.
pub open spec fn commit_inv(d: Dirs, step: CommitStep, trashed: bool, base0: Option<int>, staged: int) -> bool {
    match step {
        CommitStep::Run(CommitAction::MoveBaseToTrash) => d.base == base0 && base0 is Some && d.staging == Some(staged)
            && d.trash is None && !trashed,
        CommitStep::Run(CommitAction::MoveStagingToBase) => d.staging == Some(staged) && (if trashed {
            d.base is None && d.trash == base0
        } else {
            d.base == base0 && base0 is None && d.trash is None
        }),
        CommitStep::Run(CommitAction::MoveTrashToBase) => d.base is None && d.trash == base0 && trashed,
        CommitStep::Run(CommitAction::RemoveTrash) => d.base == Some(staged) && trashed,
        CommitStep::Finish(CommitOutcome::Committed) => d.base == Some(staged),
        CommitStep::Finish(CommitOutcome::Failed) => d.base == base0,
        CommitStep::Finish(CommitOutcome::RollbackFailed) => d.trash == base0,
    }
}

proof fn lemma_commit_inv(d: Dirs, step: CommitStep, trashed: bool, base0: Option<int>, staged: int, oks: Seq<bool>)
    requires
        commit_inv(d, step, trashed, base0, staged),
    ensures
        run_commit(d, step, trashed, oks).1 matches Some(o) ==> commit_inv(
            run_commit(d, step, trashed, oks).0,
            CommitStep::Finish(o),
            true,
            base0,
            staged,
        ),
    decreases oks.len(),
{
    match step {
        CommitStep::Finish(_) => {},
        CommitStep::Run(a) => if oks.len() > 0 {
            lemma_commit_inv(
                apply_action(d, a, oks[0]),
                spec_commit_next(a, oks[0], trashed),
                trashed_after(trashed, a, oks[0]),
                base0,
                staged,
                oks.drop_first(),
            );
        },
    }
}

/// Whatever the outcome of each rename: a commit that fails leaves the
/// committed tree as it was before the run, and one that succeeds leaves the
/// staged tree committed. (Where the swap and its rollback both fail, the old
/// tree stays in the trash.)
pub proof fn law_commit_atomic(base0: Option<int>, staged: int, oks: Seq<bool>)
    ensures
        ({
            let d0 = Dirs { base: base0, staging: Some(staged), trash: None };
            let (d, o) = run_commit(d0, spec_commit_start(base0 is Some), false, oks);
            &&& o == Some(CommitOutcome::Failed) ==> d.base == base0
            &&& o == Some(CommitOutcome::Committed) ==> d.base == Some(staged)
            &&& o == Some(CommitOutcome::RollbackFailed) ==> d.trash == base0
        }),
{
    let d0 = Dirs { base: base0, staging: Some(staged), trash: None };
    lemma_commit_inv(d0, spec_commit_start(base0 is Some), false, base0, staged, oks);
}

/// A commit ends within three operations.
pub proof fn law_commit_ends(base0: Option<int>, staged: int, oks: Seq<bool>)
    requires
        oks.len() >= 3,
    ensures
        run_commit(Dirs { base: base0, staging: Some(staged), trash: None }, spec_commit_start(base0 is Some), false, oks).1 is Some,
{
    let dirs_a = Dirs { base: base0, staging: Some(staged), trash: None };
    let step_a = spec_commit_start(base0 is Some);
    let act_a = step_a->Run_0;
    let dirs_b = apply_action(dirs_a, act_a, oks[0]);
    let step_b = spec_commit_next(act_a, oks[0], false);
    let trashed_b = trashed_after(false, act_a, oks[0]);
    let rest_b = oks.drop_first();
    assert(run_commit(dirs_a, step_a, false, oks) == run_commit(dirs_b, step_b, trashed_b, rest_b));
    if step_b is Run {
        let act_b = step_b->Run_0;
        let dirs_c = apply_action(dirs_b, act_b, rest_b[0]);
        let step_c = spec_commit_next(act_b, rest_b[0], trashed_b);
        let trashed_c = trashed_after(trashed_b, act_b, rest_b[0]);
        let rest_c = rest_b.drop_first();
        assert(run_commit(dirs_b, step_b, trashed_b, rest_b) == run_commit(dirs_c, step_c, trashed_c, rest_c));
        if step_c is Run {
            let act_c = step_c->Run_0;
            let step_d = spec_commit_next(act_c, rest_c[0], trashed_c);
            let dirs_d = apply_action(dirs_c, act_c, rest_c[0]);
            let trashed_d = trashed_after(trashed_c, act_c, rest_c[0]);
            assert(step_d is Finish);
            assert(run_commit(dirs_c, step_c, trashed_c, rest_c) == run_commit(dirs_d, step_d, trashed_d, rest_c.drop_first()));
        }
    }
}

} // verus!
