//! The staged dataset-generation pipeline, as a state machine.
//!
//! The pipeline decides which stage runs next; the caller performs the stage
//! against the terrain engine and reports back whether it succeeded. Stages
//! run strictly in the order heightmaps, albedos, roughness, and the first
//! failure ends the run.

use vstd::prelude::*;

verus! {

/// One stage of dataset generation.
#[derive(Clone, Copy, PartialEq, Eq, Structural, Debug)]
pub enum GenerationTask {
    Heightmaps,
    Albedos,
    Roughness,
}

impl GenerationTask {
    /// Position of the stage in the fixed order.
    pub open spec fn rank(self) -> nat {
        match self {
            GenerationTask::Heightmaps => 0,
            GenerationTask::Albedos => 1,
            GenerationTask::Roughness => 2,
        }
    }

    /// The stage that may start once this one has succeeded.
    pub open spec fn spec_successor(self) -> Option<GenerationTask> {
        match self {
            GenerationTask::Heightmaps => Some(GenerationTask::Albedos),
            GenerationTask::Albedos => Some(GenerationTask::Roughness),
            GenerationTask::Roughness => None,
        }
    }

    /// Names, relative to the dataset directory, of the sources a stage reads.
    pub open spec fn spec_source_names(self) -> Seq<Seq<char>> {
        match self {
            GenerationTask::Heightmaps => seq!["ETOPO1_Ice_c_geotiff.zip"@, "strm3"@],
            GenerationTask::Albedos => seq!["bluemarble"@],
            GenerationTask::Roughness => Seq::empty(),
        }
    }

    /// The name under which a stage is reported to the user.
    pub open spec fn spec_name(self) -> Seq<char> {
        match self {
            GenerationTask::Heightmaps => "heightmaps"@,
            GenerationTask::Albedos => "albedos"@,
            GenerationTask::Roughness => "roughness"@,
        }
    }

    pub fn name(self) -> (n: &'static str)
        ensures
            n@ == self.spec_name(),
    {
        match self {
            GenerationTask::Heightmaps => "heightmaps",
            GenerationTask::Albedos => "albedos",
            GenerationTask::Roughness => "roughness",
        }
    }

    /// The stage every run starts with.
    pub fn first() -> (t: GenerationTask)
        ensures
            t == GenerationTask::Heightmaps,
            t.rank() == 0,
    {
        GenerationTask::Heightmaps
    }

    #[verifier::when_used_as_spec(spec_successor)]
    pub fn successor(self) -> (next: Option<GenerationTask>)
        ensures
            next == self.spec_successor(),
    {
        match self {
            GenerationTask::Heightmaps => Some(GenerationTask::Albedos),
            GenerationTask::Albedos => Some(GenerationTask::Roughness),
            GenerationTask::Roughness => None,
        }
    }

    /// The sources of this stage, in the order the terrain engine takes them:
    /// the elevation archive and the tile directory for heightmaps, the
    /// imagery directory for albedos, nothing for roughness.
    pub fn source_names(self) -> (names: Vec<&'static str>)
        ensures
            names@.len() == self.spec_source_names().len(),
            forall|i: int| 0 <= i < names@.len() ==> names@[i]@ == self.spec_source_names()[i],
    {
        match self {
            GenerationTask::Heightmaps => vec!["ETOPO1_Ice_c_geotiff.zip", "strm3"],
            GenerationTask::Albedos => vec!["bluemarble"],
            GenerationTask::Roughness => Vec::new(),
        }
    }
}

/// A stage of the run failed; the run is over and later stages never start.
#[derive(Clone, Copy, PartialEq, Eq, Structural, Debug)]
pub struct GenerationStageFailure {
    pub stage: GenerationTask,
}

/// Where a run stands.
#[derive(Clone, Copy, PartialEq, Eq, Structural, Debug)]
pub enum Phase {
    /// Nothing has been asked of the pipeline yet.
    Ready,
    /// The given stage has been handed out and its outcome is awaited.
    Running(GenerationTask),
    /// The run ended without a failure.
    Finished,
    /// The given stage failed.
    Aborted(GenerationTask),
}

/// What the caller does next.
#[derive(Clone, Copy, PartialEq, Eq, Structural, Debug)]
pub enum Step {
    /// Run this stage to completion, then report its outcome.
    Run(GenerationTask),
    /// Nothing is left to do.
    Complete,
    /// Stop: this stage failed.
    Abort(GenerationTask),
}

/// Beginning a run: with a dataset directory the first stage is handed out,
/// without one the run is over at once. A run that has begun cannot begin again.
pub open spec fn spec_begin(phase: Phase, dataset_present: bool) -> (Phase, Option<Step>) {
    match phase {
        Phase::Ready => if dataset_present {
            (Phase::Running(GenerationTask::Heightmaps), Some(Step::Run(GenerationTask::Heightmaps)))
        } else {
            (Phase::Finished, Some(Step::Complete))
        },
        _ => (phase, None),
    }
}

/// Reporting the outcome of the running stage: success hands out the successor
/// or completes the run, failure aborts it. Without a running stage nothing happens.
pub open spec fn spec_report(phase: Phase, succeeded: bool) -> (Phase, Option<Step>) {
    match phase {
        Phase::Running(stage) => if !succeeded {
            (Phase::Aborted(stage), Some(Step::Abort(stage)))
        } else {
            match stage.spec_successor() {
                Some(next) => (Phase::Running(next), Some(Step::Run(next))),
                None => (Phase::Finished, Some(Step::Complete)),
            }
        },
        _ => (phase, None),
    }
}

/// The result of a run, once it is over.
pub open spec fn spec_outcome(phase: Phase) -> Option<Result<(), GenerationStageFailure>> {
    match phase {
        Phase::Finished => Some(Ok(())),
        Phase::Aborted(stage) => Some(Err(GenerationStageFailure { stage })),
        _ => None,
    }
}

/// The stages handed out while `outcomes` are reported one after another,
/// starting in `phase`.
pub open spec fn started(phase: Phase, outcomes: Seq<bool>) -> Seq<GenerationTask>
    decreases outcomes.len(),
{
    if outcomes.len() == 0 {
        Seq::empty()
    } else {
        let (next, step) = spec_report(phase, outcomes[0]);
        let rest = started(next, outcomes.drop_first());
        match step {
            Some(Step::Run(stage)) => seq![stage] + rest,
            _ => rest,
        }
    }
}

/// The phase reached after `outcomes` have been reported, starting in `phase`.
pub open spec fn phase_after(phase: Phase, outcomes: Seq<bool>) -> Phase
    decreases outcomes.len(),
{
    if outcomes.len() == 0 {
        phase
    } else {
        phase_after(spec_report(phase, outcomes[0]).0, outcomes.drop_first())
    }
}

/// Every stage handed out over a whole run: the run begins, then the outcomes
/// are reported in turn.
pub open spec fn run_started(dataset_present: bool, outcomes: Seq<bool>) -> Seq<GenerationTask> {
    let (phase, step) = spec_begin(Phase::Ready, dataset_present);
    match step {
        Some(Step::Run(stage)) => seq![stage] + started(phase, outcomes),
        _ => started(phase, outcomes),
    }
}

/// The phase a whole run ends in.
pub open spec fn run_phase(dataset_present: bool, outcomes: Seq<bool>) -> Phase {
    phase_after(spec_begin(Phase::Ready, dataset_present).0, outcomes)
}

/// Drives one generation run. It hands out at most one stage at a time and
/// never hands out a stage before its predecessor was reported successful.
pub struct Orchestrator {
    phase: Phase,
}

impl View for Orchestrator {
    type V = Phase;

    closed spec fn view(&self) -> Phase {
        self.phase
    }
}

impl Orchestrator {
    pub fn new() -> (o: Orchestrator)
        ensures
            o@ == Phase::Ready,
    {
        Orchestrator { phase: Phase::Ready }
    }

    pub fn phase(&self) -> (p: Phase)
        ensures
            p == self@,
    {
        self.phase
    }

    /// Begins the run. Returns `None`, and changes nothing, exactly when the
    /// run had already begun.
    pub fn begin(&mut self, dataset_present: bool) -> (step: Option<Step>)
        ensures
            (final(self)@, step) == spec_begin(old(self)@, dataset_present),
            step is None <==> old(self)@ != Phase::Ready,
    {
        match self.phase {
            Phase::Ready => {
                if dataset_present {
                    let stage = GenerationTask::first();
                    self.phase = Phase::Running(stage);
                    Some(Step::Run(stage))
                } else {
                    self.phase = Phase::Finished;
                    Some(Step::Complete)
                }
            },
            _ => None,
        }
    }

    /// Takes the outcome of the running stage. Returns `None`, and changes
    /// nothing, exactly when no stage is running.
    pub fn report(&mut self, succeeded: bool) -> (step: Option<Step>)
        ensures
            (final(self)@, step) == spec_report(old(self)@, succeeded),
            step is None <==> !(old(self)@ is Running),
    {
        match self.phase {
            Phase::Running(stage) => {
                if !succeeded {
                    self.phase = Phase::Aborted(stage);
                    Some(Step::Abort(stage))
                } else {
                    match stage.successor() {
                        Some(next) => {
                            self.phase = Phase::Running(next);
                            Some(Step::Run(next))
                        },
                        None => {
                            self.phase = Phase::Finished;
                            Some(Step::Complete)
                        },
                    }
                }
            },
            _ => None,
        }
    }

    /// The result of the run: `None` while it is not over, the failing stage
    /// once one has failed.
    pub fn outcome(&self) -> (r: Option<Result<(), GenerationStageFailure>>)
        ensures
            r == spec_outcome(self@),
    {
        match self.phase {
            Phase::Finished => Some(Ok(())),
            Phase::Aborted(stage) => Some(Err(GenerationStageFailure { stage })),
            _ => None,
        }
    }
}

/// A run begins at most once: no step leads back to `Ready`, and beginning
/// in any other phase hands out nothing and changes nothing.
pub proof fn law_begins_once(phase: Phase, dataset_present: bool, succeeded: bool)
    ensures
        spec_begin(phase, dataset_present).0 != Phase::Ready,
        phase != Phase::Ready ==> spec_report(phase, succeeded).0 != Phase::Ready,
        phase != Phase::Ready ==> spec_begin(phase, dataset_present) == (phase, None::<Step>),
{
}

/// Once no stage is running, reports hand out nothing and change nothing.
pub proof fn lemma_idle_stays_idle(phase: Phase, outcomes: Seq<bool>)
    requires
        !(phase is Running),
    ensures
        started(phase, outcomes).len() == 0,
        phase_after(phase, outcomes) == phase,
    decreases outcomes.len(),
{
    if outcomes.len() > 0 {
        lemma_idle_stays_idle(phase, outcomes.drop_first());
    }
}

/// While `stage` runs, every stage handed out afterwards follows it in rank
/// without a gap, and each is handed out only after a success was reported.
pub proof fn lemma_started_after(stage: GenerationTask, outcomes: Seq<bool>)
    ensures
        started(Phase::Running(stage), outcomes).len() + stage.rank() <= 2,
        started(Phase::Running(stage), outcomes).len() <= outcomes.len(),
        forall|i: int|
            0 <= i < started(Phase::Running(stage), outcomes).len() ==> {
                &&& (#[trigger] started(Phase::Running(stage), outcomes)[i]).rank() == stage.rank()
                    + 1 + i
                &&& outcomes[i]
            },
    decreases outcomes.len(),
{
    if outcomes.len() > 0 {
        let (next, step) = spec_report(Phase::Running(stage), outcomes[0]);
        let rest = outcomes.drop_first();
        match step {
            Some(Step::Run(follower)) => {
                lemma_started_after(follower, rest);
                let tail = started(Phase::Running(follower), rest);
                let all = started(Phase::Running(stage), outcomes);
                assert(all =~= seq![follower] + tail);
                assert forall|i: int| 0 <= i < all.len() implies {
                    &&& (#[trigger] all[i]).rank() == stage.rank() + 1 + i
                    &&& outcomes[i]
                } by {
                    if i > 0 {
                        assert(all[i] == tail[i - 1]);
                        assert(rest[i - 1] == outcomes[i]);
                    }
                }
            },
            _ => {
                lemma_idle_stays_idle(next, rest);
            },
        }
    }
}

/// Ordering law: over any run, the stages handed out are an initial part of
/// heightmaps, albedos, roughness, in that order, and each stage but the first
/// is handed out only after its predecessor was reported successful.
pub proof fn law_generation_order(dataset_present: bool, outcomes: Seq<bool>)
    ensures
        run_started(dataset_present, outcomes).len() <= 3,
        !dataset_present ==> run_started(dataset_present, outcomes).len() == 0,
        forall|i: int|
            0 <= i < run_started(dataset_present, outcomes).len() ==> {
                &&& (#[trigger] run_started(dataset_present, outcomes)[i]).rank() == i
                &&& i > 0 ==> 0 <= i - 1 < outcomes.len() && outcomes[i - 1]
            },
{
    if dataset_present {
        lemma_started_after(GenerationTask::Heightmaps, outcomes);
        let tail = started(Phase::Running(GenerationTask::Heightmaps), outcomes);
        let all = run_started(dataset_present, outcomes);
        assert(all =~= seq![GenerationTask::Heightmaps] + tail);
        assert forall|i: int| 0 <= i < all.len() implies {
            &&& (#[trigger] all[i]).rank() == i
            &&& i > 0 ==> 0 <= i - 1 < outcomes.len() && outcomes[i - 1]
        } by {
            if i > 0 {
                assert(all[i] == tail[i - 1]);
            }
        }
    } else {
        lemma_idle_stays_idle(Phase::Finished, outcomes);
    }
}

/// While `stage` runs and the next `k` outcomes are successes followed by a
/// failure, exactly `k` further stages are handed out and the run ends aborted
/// at the stage that is `k` ranks later.
pub proof fn lemma_first_failure_after(stage: GenerationTask, outcomes: Seq<bool>, k: int)
    requires
        0 <= k < outcomes.len(),
        k + stage.rank() <= 2,
        !outcomes[k],
        forall|j: int| 0 <= j < k ==> outcomes[j],
    ensures
        started(Phase::Running(stage), outcomes).len() == k,
        phase_after(Phase::Running(stage), outcomes) is Aborted,
        phase_after(Phase::Running(stage), outcomes)->Aborted_0.rank() == stage.rank() + k,
    decreases outcomes.len(),
{
    let rest = outcomes.drop_first();
    if k == 0 {
        lemma_idle_stays_idle(Phase::Aborted(stage), rest);
    } else {
        let follower = stage.spec_successor()->0;
        assert(outcomes[0]);
        assert(rest[k - 1] == outcomes[k]);
        assert forall|j: int| 0 <= j < k - 1 implies rest[j] by {
            assert(rest[j] == outcomes[j + 1]);
        }
        lemma_first_failure_after(follower, rest, k - 1);
        assert(started(Phase::Running(stage), outcomes) =~= seq![follower] + started(
            Phase::Running(follower),
            rest,
        ));
    }
}

/// Failure law: when the stage of rank `k` is the first to fail, the stages
/// handed out are exactly those of rank `0` to `k`, no later stage ever
/// starts, and the run reports the failure of that stage.
pub proof fn law_failure_is_fatal(outcomes: Seq<bool>, k: int)
    requires
        0 <= k < outcomes.len(),
        k <= 2,
        !outcomes[k],
        forall|j: int| 0 <= j < k ==> outcomes[j],
    ensures
        run_started(true, outcomes).len() == k + 1,
        spec_outcome(run_phase(true, outcomes)) is Some,
        spec_outcome(run_phase(true, outcomes))->0 is Err,
        spec_outcome(run_phase(true, outcomes))->0->Err_0.stage.rank() == k,
{
    lemma_first_failure_after(GenerationTask::Heightmaps, outcomes, k);
    assert(run_started(true, outcomes) =~= seq![GenerationTask::Heightmaps] + started(
        Phase::Running(GenerationTask::Heightmaps),
        outcomes,
    ));
}

/// Success law: when the first three outcomes are successes, all three stages
/// are handed out and the run ends without a failure, whatever is reported
/// afterwards.
pub proof fn law_three_successes_finish(outcomes: Seq<bool>)
    requires
        outcomes.len() >= 3,
        outcomes[0] && outcomes[1] && outcomes[2],
    ensures
        run_started(true, outcomes).len() == 3,
        spec_outcome(run_phase(true, outcomes)) == Some(Ok::<(), GenerationStageFailure>(())),
{
    let o1 = outcomes.drop_first();
    let o2 = o1.drop_first();
    let o3 = o2.drop_first();
    assert(o1[0] == outcomes[1]);
    assert(o2[0] == outcomes[2]);
    lemma_idle_stays_idle(Phase::Finished, o3);
    reveal_with_fuel(started, 4);
    reveal_with_fuel(phase_after, 4);
    assert(started(Phase::Running(GenerationTask::Roughness), o2) =~= Seq::empty());
    assert(started(Phase::Running(GenerationTask::Albedos), o1) =~= seq![GenerationTask::Roughness]);
    assert(started(Phase::Running(GenerationTask::Heightmaps), outcomes) =~= seq![
        GenerationTask::Albedos,
        GenerationTask::Roughness,
    ]);
}

/// Without a dataset directory the run is over at once and no stage starts.
pub proof fn law_absent_dataset_is_noop(outcomes: Seq<bool>)
    ensures
        run_started(false, outcomes).len() == 0,
        spec_outcome(run_phase(false, outcomes)) == Some(Ok::<(), GenerationStageFailure>(())),
{
    lemma_idle_stays_idle(Phase::Finished, outcomes);
}

} // verus!
