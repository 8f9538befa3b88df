//! The stages of an install run, in the order the orchestrator must keep:
//! every provider operation finishes before executables are collected, the
//! bin-map is checked and saved before any link is made, links precede the
//! cache, and all of it precedes the commit. A failure at any stage abandons
//! the staged tree and leaves the committed one alone.
use vstd::prelude::*;

verus! {

#[derive(PartialEq, Eq, Structural, Clone, Copy, Debug)]
pub enum InstallStage {
    /// Run every target's install or uninstall.
    Execute,
    /// Rebuild the bin-map and check that no file name is produced twice.
    CollectBins,
    /// Persist the bin-map in the staged tree.
    SaveBinMap,
    /// Link the installed tools' executables into the staged bin directory.
    LinkBins,
    /// Persist the new manifest cache in the staged tree.
    SaveCache,
    /// Swap the staged tree in.
    Commit,
    /// Committed; report each target done.
    Finished,
    /// Discard the staged tree; the committed tree is untouched.
    Abandoned,
}

pub open spec fn stage_order(s: InstallStage) -> nat {
    match s {
        InstallStage::Execute => 0,
        InstallStage::CollectBins => 1,
        InstallStage::SaveBinMap => 2,
        InstallStage::LinkBins => 3,
        InstallStage::SaveCache => 4,
        InstallStage::Commit => 5,
        InstallStage::Finished => 6,
        InstallStage::Abandoned => 6,
    }
}

/// The stage after `stage`, given whether it succeeded.
pub open spec fn spec_next_stage(stage: InstallStage, succeeded: bool) -> InstallStage {
    if !succeeded && stage != InstallStage::Finished && stage != InstallStage::Abandoned {
        InstallStage::Abandoned
    } else {
        match stage {
            InstallStage::Execute => InstallStage::CollectBins,
            InstallStage::CollectBins => InstallStage::SaveBinMap,
            InstallStage::SaveBinMap => InstallStage::LinkBins,
            InstallStage::LinkBins => InstallStage::SaveCache,
            InstallStage::SaveCache => InstallStage::Commit,
            InstallStage::Commit => InstallStage::Finished,
            InstallStage::Finished => InstallStage::Finished,
            InstallStage::Abandoned => InstallStage::Abandoned,
        }
    }
}

pub fn next_stage(stage: InstallStage, succeeded: bool) -> (r: InstallStage)
    ensures
        r == spec_next_stage(stage, succeeded),
{
    if !succeeded && stage != InstallStage::Finished && stage != InstallStage::Abandoned {
        return InstallStage::Abandoned;
    }
    match stage {
        InstallStage::Execute => InstallStage::CollectBins,
        InstallStage::CollectBins => InstallStage::SaveBinMap,
        InstallStage::SaveBinMap => InstallStage::LinkBins,
        InstallStage::LinkBins => InstallStage::SaveCache,
        InstallStage::SaveCache => InstallStage::Commit,
        InstallStage::Commit => InstallStage::Finished,
        InstallStage::Finished => InstallStage::Finished,
        InstallStage::Abandoned => InstallStage::Abandoned,
    }
}

/// The stage reached from `stage` after the outcomes `oks`.
pub open spec fn run_stages(stage: InstallStage, oks: Seq<bool>) -> InstallStage
    decreases oks.len(),
{
    if oks.len() == 0 {
        stage
    } else {
        run_stages(spec_next_stage(stage, oks[0]), oks.drop_first())
    }
}

/// The first `n` outcomes all succeeded.
pub open spec fn all_succeeded(oks: Seq<bool>, n: int) -> bool {
    forall|i: int| 0 <= i < n ==> #[trigger] oks[i]
}

proof fn lemma_run_stages(stage: InstallStage, oks: Seq<bool>)
    requires
        stage != InstallStage::Abandoned,
        stage != InstallStage::Finished,
    ensures
        ({
            let k = 6 - stage_order(stage);
            let end = run_stages(stage, oks);
            &&& oks.len() < k && all_succeeded(oks, oks.len() as int) ==> stage_order(end) == stage_order(stage) + oks.len()
                && end != InstallStage::Abandoned
            &&& oks.len() >= k && all_succeeded(oks, k) ==> end == InstallStage::Finished
            &&& (exists|i: int| 0 <= i < k && i < oks.len() && !#[trigger] oks[i]) ==> end == InstallStage::Abandoned
        }),
    decreases oks.len(),
{
    if oks.len() > 0 {
        let next = spec_next_stage(stage, oks[0]);
        let rest = oks.drop_first();
        assert forall|i: int| 0 <= i < rest.len() implies #[trigger] rest[i] == oks[i + 1] by {}
        if !oks[0] {
            lemma_stays(InstallStage::Abandoned, rest);
        } else if next == InstallStage::Finished {
            lemma_stays(InstallStage::Finished, rest);
            if exists|i: int| 0 <= i < 6 - stage_order(stage) && i < oks.len() && !#[trigger] oks[i] {
                let i = choose|i: int| 0 <= i < 6 - stage_order(stage) && i < oks.len() && !#[trigger] oks[i];
                assert(i == 0);
            }
        } else {
            lemma_run_stages(next, rest);
            if exists|i: int| 0 <= i < 6 - stage_order(stage) && i < oks.len() && !#[trigger] oks[i] {
                let i = choose|i: int| 0 <= i < 6 - stage_order(stage) && i < oks.len() && !#[trigger] oks[i];
                assert(i > 0);
                assert(!rest[i - 1]);
            }
            if oks.len() >= 6 - stage_order(stage) && all_succeeded(oks, 6 - stage_order(stage)) {
                assert(all_succeeded(rest, 6 - stage_order(next)));
            }
            if oks.len() < 6 - stage_order(stage) && all_succeeded(oks, oks.len() as int) {
                assert(all_succeeded(rest, rest.len() as int));
            }
        }
    }
}

proof fn lemma_stays(stage: InstallStage, oks: Seq<bool>)
    requires
        stage == InstallStage::Abandoned || stage == InstallStage::Finished,
    ensures
        run_stages(stage, oks) == stage,
    decreases oks.len(),
{
    if oks.len() > 0 {
        lemma_stays(stage, oks.drop_first());
    }
}

/// A run commits only after all five earlier stages succeeded, finishes
/// once the commit succeeds too, and is abandoned (its staged tree
/// discarded) as soon as any stage fails.
pub proof fn law_stages_in_order(oks: Seq<bool>)
    ensures
        oks.len() >= 6 && all_succeeded(oks, 6) ==> run_stages(InstallStage::Execute, oks) == InstallStage::Finished,
        oks.len() == 5 && all_succeeded(oks, 5) ==> run_stages(InstallStage::Execute, oks) == InstallStage::Commit,
        (exists|i: int| 0 <= i < 6 && i < oks.len() && !#[trigger] oks[i]) ==> run_stages(InstallStage::Execute, oks)
            == InstallStage::Abandoned,
{
    lemma_run_stages(InstallStage::Execute, oks);
    if oks.len() == 5 && all_succeeded(oks, 5) {
        let end = run_stages(InstallStage::Execute, oks);
        assert(stage_order(end) == 5);
    }
}

} // verus!
