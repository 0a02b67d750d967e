//! The four-stage pipeline run on one compiled artifact.
//!
//! The stages form a fixed graph: two independent branches — the metadata
//! generator on one side, the executable converter followed by the signer
//! on the other — that join in the final packer. Before a stage runs, the
//! staleness oracle may declare it cached, in which case it is skipped but
//! still counts as completed for the join. A failed stage forecloses every
//! stage not yet started; stages already under way are left to finish.
//!
//! [`PipelineState`] tracks one run's progress and enforces the graph:
//! a stage can only be started (or skipped) when its dependencies have
//! completed and nothing has failed, an invariant every transition
//! preserves. [`run_schedule`] is the sequential reference schedule over
//! given oracle answers and tool results; a concurrent driver interleaves
//! the same transitions.

use vstd::prelude::*;

use crate::paths::{file_stem, file_stem_spec, ArtifactPaths, with_ext_spec};
use crate::strutil::dec_rep;
use crate::toolchain::{
    strs_view, VitaElfCreate, VitaMakeFself, VitaMksfoex, VitaPackVpk, AUTHID_DEFAULT,
};

verus! {

/// One of the four pipeline stages, in their fixed reporting order.
#[derive(Copy, Clone, Debug, PartialEq, Eq, Structural)]
pub enum Stage {
    /// Generate the package metadata file.
    Sfo,
    /// Convert the executable to the platform's loadable format.
    Velf,
    /// Sign (and optionally compress) the converted executable.
    Fself,
    /// Pack metadata and signed executable into the final package.
    Vpk,
}

/// Why one stage failed.
#[derive(Copy, Clone, Debug, PartialEq, Eq, Structural)]
pub enum StageFailureKind {
    /// The external tool exited abnormally; the exit code, if there was one.
    ToolFailed { exit: Option<i32> },
    /// The staleness check found the input at this index missing.
    MissingInput { input: usize },
}

/// Progress of one stage within one run.
#[derive(Copy, Clone, Debug, PartialEq, Eq, Structural)]
pub enum StageStatus {
    /// Not yet started.
    Pending,
    /// The external tool is running.
    Running,
    /// Completed: either its tool ran and succeeded, or it was cached and
    /// skipped (`ran` says which).
    Done { ran: bool },
    /// Its tool ran and failed, or its staleness check could not answer.
    Failed(StageFailureKind),
}

impl StageStatus {
    /// Completed successfully, by running or by being cached.
    pub open spec fn is_done(self) -> bool {
        self is Done
    }
}

/// The outcome of one artifact's whole pipeline run.
#[derive(Copy, Clone, Debug, PartialEq, Eq, Structural)]
pub enum PipelineOutcome {
    Success,
    Failed { stage: Stage, kind: StageFailureKind },
}

/// The state of one artifact's pipeline run.
#[derive(Copy, Clone, Debug, PartialEq, Eq, Structural)]
pub struct PipelineState {
    pub sfo: StageStatus,
    pub velf: StageStatus,
    pub fself: StageStatus,
    pub vpk: StageStatus,
}

impl PipelineState {
    /// The status of one stage.
    pub open spec fn stage_of(self, s: Stage) -> StageStatus {
        match s {
            Stage::Sfo => self.sfo,
            Stage::Velf => self.velf,
            Stage::Fself => self.fself,
            Stage::Vpk => self.vpk,
        }
    }

    /// This state with one stage's status replaced.
    pub open spec fn with_stage(self, s: Stage, st: StageStatus) -> PipelineState {
        match s {
            Stage::Sfo => PipelineState { sfo: st, ..self },
            Stage::Velf => PipelineState { velf: st, ..self },
            Stage::Fself => PipelineState { fself: st, ..self },
            Stage::Vpk => PipelineState { vpk: st, ..self },
        }
    }

    /// Whether some stage has failed.
    pub open spec fn has_failure(self) -> bool {
        self.sfo is Failed || self.velf is Failed || self.fself is Failed || self.vpk is Failed
    }

    /// Whether every stage a stage depends on has completed. The metadata
    /// stage and the converter stage have no in-pipeline dependencies; the
    /// signer needs the converter; the packer needs the metadata stage and
    /// the signer.
    pub open spec fn deps_done(self, s: Stage) -> bool {
        match s {
            Stage::Sfo => true,
            Stage::Velf => true,
            Stage::Fself => self.velf.is_done(),
            Stage::Vpk => self.sfo.is_done() && self.fself.is_done(),
        }
    }

    /// Whether a stage may be started or skipped now: it has not run yet,
    /// its dependencies have completed, and no stage has failed.
    pub open spec fn ready(self, s: Stage) -> bool {
        self.stage_of(s) is Pending && self.deps_done(s) && !self.has_failure()
    }

    /// The structural invariant of every reachable state: a stage is only
    /// ever past `Pending` once its dependencies completed.
    pub open spec fn wf(self) -> bool {
        &&& (!(self.fself is Pending) ==> self.velf.is_done())
        &&& (!(self.vpk is Pending) ==> self.sfo.is_done() && self.fself.is_done())
    }

    /// A fresh run: nothing started yet.
    pub fn new() -> (r: PipelineState)
        ensures
            r == (PipelineState {
                sfo: StageStatus::Pending,
                velf: StageStatus::Pending,
                fself: StageStatus::Pending,
                vpk: StageStatus::Pending,
            }),
            r.wf(),
            !r.has_failure(),
    {
        PipelineState {
            sfo: StageStatus::Pending,
            velf: StageStatus::Pending,
            fself: StageStatus::Pending,
            vpk: StageStatus::Pending,
        }
    }

    /// Whether `s` may be started or skipped now.
    pub fn is_ready(&self, s: Stage) -> (r: bool)
        ensures
            r == self.ready(s),
    {
        let pending = matches!(self.get_stage(s), StageStatus::Pending);
        let deps = match s {
            Stage::Sfo => true,
            Stage::Velf => true,
            Stage::Fself => matches!(self.velf, StageStatus::Done { .. }),
            Stage::Vpk => matches!(self.sfo, StageStatus::Done { .. }) && matches!(
                self.fself,
                StageStatus::Done { .. },
            ),
        };
        pending && deps && !self.any_failed()
    }

    /// The status of one stage.
    pub fn get_stage(&self, s: Stage) -> (r: StageStatus)
        ensures
            r == self.stage_of(s),
    {
        match s {
            Stage::Sfo => self.sfo,
            Stage::Velf => self.velf,
            Stage::Fself => self.fself,
            Stage::Vpk => self.vpk,
        }
    }

    /// Whether some stage has failed.
    pub fn any_failed(&self) -> (r: bool)
        ensures
            r == self.has_failure(),
    {
        matches!(self.sfo, StageStatus::Failed(_)) || matches!(self.velf, StageStatus::Failed(_))
            || matches!(self.fself, StageStatus::Failed(_)) || matches!(
            self.vpk,
            StageStatus::Failed(_),
        )
    }

    /// Whether all four stages completed successfully.
    pub fn all_done(&self) -> (r: bool)
        ensures
            r == (self.sfo.is_done() && self.velf.is_done() && self.fself.is_done()
                && self.vpk.is_done()),
    {
        matches!(self.sfo, StageStatus::Done { .. }) && matches!(self.velf, StageStatus::Done { .. })
            && matches!(self.fself, StageStatus::Done { .. }) && matches!(
            self.vpk,
            StageStatus::Done { .. },
        )
    }

    /// Records that `s`'s external tool was launched.
    pub fn start(&mut self, s: Stage)
        requires
            old(self).wf(),
            old(self).ready(s),
        ensures
            *final(self) == old(self).with_stage(s, StageStatus::Running),
            final(self).wf(),
    {
        self.set_stage(s, StageStatus::Running);
    }

    /// Records that `s` was found cached and is skipped: it completes
    /// without its tool ever being invoked.
    pub fn skip(&mut self, s: Stage)
        requires
            old(self).wf(),
            old(self).ready(s),
        ensures
            *final(self) == old(self).with_stage(s, StageStatus::Done { ran: false }),
            final(self).wf(),
    {
        self.set_stage(s, StageStatus::Done { ran: false });
    }

    /// Records the verdict of `s`'s finished tool invocation.
    pub fn finish(&mut self, s: Stage, result: Result<(), StageFailureKind>)
        requires
            old(self).wf(),
            old(self).stage_of(s) is Running,
        ensures
            *final(self) == old(self).with_stage(
                s,
                match result {
                    Ok(()) => StageStatus::Done { ran: true },
                    Err(k) => StageStatus::Failed(k),
                },
            ),
            final(self).wf(),
    {
        match result {
            Ok(()) => self.set_stage(s, StageStatus::Done { ran: true }),
            Err(k) => self.set_stage(s, StageStatus::Failed(k)),
        }
    }

    fn set_stage(&mut self, s: Stage, st: StageStatus)
        ensures
            *final(self) == old(self).with_stage(s, st),
    {
        match s {
            Stage::Sfo => self.sfo = st,
            Stage::Velf => self.velf = st,
            Stage::Fself => self.fself = st,
            Stage::Vpk => self.vpk = st,
        }
    }

    /// The first failed stage in reporting order, with its failure.
    pub open spec fn first_failure_spec(self) -> Option<(Stage, StageFailureKind)> {
        if self.sfo is Failed {
            Some((Stage::Sfo, self.sfo->Failed_0))
        } else if self.velf is Failed {
            Some((Stage::Velf, self.velf->Failed_0))
        } else if self.fself is Failed {
            Some((Stage::Fself, self.fself->Failed_0))
        } else if self.vpk is Failed {
            Some((Stage::Vpk, self.vpk->Failed_0))
        } else {
            None
        }
    }

    /// The first failed stage in reporting order, with its failure.
    pub fn first_failure(&self) -> (r: Option<(Stage, StageFailureKind)>)
        ensures
            r == self.first_failure_spec(),
    {
        match self.sfo {
            StageStatus::Failed(k) => {
                return Some((Stage::Sfo, k));
            },
            _ => (),
        }
        match self.velf {
            StageStatus::Failed(k) => {
                return Some((Stage::Velf, k));
            },
            _ => (),
        }
        match self.fself {
            StageStatus::Failed(k) => {
                return Some((Stage::Fself, k));
            },
            _ => (),
        }
        match self.vpk {
            StageStatus::Failed(k) => {
                return Some((Stage::Vpk, k));
            },
            _ => (),
        }
        None
    }

    /// The run's outcome, once it is decided: success when all four stages
    /// completed, or the first failure in reporting order.
    pub fn outcome(&self) -> (r: Option<PipelineOutcome>)
        ensures
            match r {
                Some(PipelineOutcome::Success) => self.sfo.is_done() && self.velf.is_done()
                    && self.fself.is_done() && self.vpk.is_done(),
                Some(PipelineOutcome::Failed { stage, kind }) => self.first_failure_spec() == Some(
                    (stage, kind),
                ),
                None => !self.has_failure() && !(self.sfo.is_done() && self.velf.is_done()
                    && self.fself.is_done() && self.vpk.is_done()),
            },
    {
        match self.first_failure() {
            Some((stage, kind)) => Some(PipelineOutcome::Failed { stage, kind }),
            None => if self.all_done() {
                Some(PipelineOutcome::Success)
            } else {
                None
            },
        }
    }
}

/// The join stage never gets under way before both branches have completed:
/// in every reachable state where the packer is past `Pending`, the metadata
/// stage, the converter and the signer have all completed.
pub proof fn lemma_join_waits_for_branches(st: PipelineState)
    requires
        st.wf(),
        !(st.vpk is Pending),
    ensures
        st.sfo.is_done(),
        st.velf.is_done(),
        st.fself.is_done(),
{
}

/// The staleness oracle's answers for the four stages of one run.
#[derive(Copy, Clone, Debug, PartialEq, Eq, Structural)]
pub struct CacheAnswers {
    pub sfo: bool,
    pub velf: bool,
    pub fself: bool,
    pub vpk: bool,
}

impl CacheAnswers {
    pub open spec fn of(self, s: Stage) -> bool {
        match s {
            Stage::Sfo => self.sfo,
            Stage::Velf => self.velf,
            Stage::Fself => self.fself,
            Stage::Vpk => self.vpk,
        }
    }
}

/// The verdict each stage's tool would produce, were it invoked.
#[derive(Copy, Clone, Debug, PartialEq, Eq)]
pub struct StageVerdicts {
    pub sfo: Result<(), StageFailureKind>,
    pub velf: Result<(), StageFailureKind>,
    pub fself: Result<(), StageFailureKind>,
    pub vpk: Result<(), StageFailureKind>,
}

impl StageVerdicts {
    pub open spec fn of(self, s: Stage) -> Result<(), StageFailureKind> {
        match s {
            Stage::Sfo => self.sfo,
            Stage::Velf => self.velf,
            Stage::Fself => self.fself,
            Stage::Vpk => self.vpk,
        }
    }
}

/// Whether a stage gets past the oracle and its tool: it is cached, or its
/// tool succeeds.
pub open spec fn stage_passes(cached: CacheAnswers, verdicts: StageVerdicts, s: Stage) -> bool {
    cached.of(s) || verdicts.of(s) is Ok
}

/// The stages whose tools the sequential reference schedule invokes, in
/// order: every non-cached stage, up to and including the first failure.
pub open spec fn invoked_spec(cached: CacheAnswers, verdicts: StageVerdicts) -> Seq<Stage> {
    let sfo = if !cached.sfo {
        seq![Stage::Sfo]
    } else {
        Seq::empty()
    };
    if !stage_passes(cached, verdicts, Stage::Sfo) {
        sfo
    } else {
        let velf = sfo + if !cached.velf {
            seq![Stage::Velf]
        } else {
            Seq::empty()
        };
        if !stage_passes(cached, verdicts, Stage::Velf) {
            velf
        } else {
            let fself = velf + if !cached.fself {
                seq![Stage::Fself]
            } else {
                Seq::empty()
            };
            if !stage_passes(cached, verdicts, Stage::Fself) {
                fself
            } else {
                fself + if !cached.vpk {
                    seq![Stage::Vpk]
                } else {
                    Seq::empty()
                }
            }
        }
    }
}

/// What one reference run did: which tools it invoked, in order, the final
/// pipeline state, and the outcome.
pub struct ScheduleReport {
    pub invoked: Vec<Stage>,
    pub state: PipelineState,
    pub outcome: PipelineOutcome,
}

/// Runs the pipeline's sequential reference schedule against the given
/// oracle answers and tool verdicts: each stage in reporting order is
/// skipped when cached, run otherwise, and a failure forecloses everything
/// after it.
///
/// When every stage is cached, no tool at all is invoked and the run still
/// succeeds. The outcome is success exactly when every stage passes, and
/// otherwise names the first failing stage with its tool's verdict.
pub fn run_schedule(cached: &CacheAnswers, verdicts: &StageVerdicts) -> (r: ScheduleReport)
    ensures
        r.state.wf(),
        r.invoked@ == invoked_spec(*cached, *verdicts),
        r.outcome is Success <==> (forall|s: Stage| stage_passes(*cached, *verdicts, s)),
        cached.sfo && cached.velf && cached.fself && cached.vpk ==> r.invoked@
            == Seq::<Stage>::empty() && r.outcome is Success,
        r.outcome matches PipelineOutcome::Failed { stage, kind } ==> !stage_passes(
            *cached,
            *verdicts,
            stage,
        ) && verdicts.of(stage) == Err::<(), StageFailureKind>(kind) && (forall|s: Stage|
            stage_order(s) < stage_order(stage) ==> stage_passes(*cached, *verdicts, s)),
{
    let mut state = PipelineState::new();
    let mut invoked: Vec<Stage> = Vec::new();
    advance_stage(&mut state, &mut invoked, Stage::Sfo, cached.sfo, verdicts.sfo);
    advance_stage(&mut state, &mut invoked, Stage::Velf, cached.velf, verdicts.velf);
    advance_stage(&mut state, &mut invoked, Stage::Fself, cached.fself, verdicts.fself);
    advance_stage(&mut state, &mut invoked, Stage::Vpk, cached.vpk, verdicts.vpk);
    let outcome = match state.first_failure() {
        Some((stage, kind)) => PipelineOutcome::Failed { stage, kind },
        None => PipelineOutcome::Success,
    };
    proof {
        assert(invoked@ =~= invoked_spec(*cached, *verdicts));
        if forall|s: Stage| stage_passes(*cached, *verdicts, s) {
            assert(stage_passes(*cached, *verdicts, Stage::Sfo));
            assert(stage_passes(*cached, *verdicts, Stage::Velf));
            assert(stage_passes(*cached, *verdicts, Stage::Fself));
            assert(stage_passes(*cached, *verdicts, Stage::Vpk));
            assert(outcome is Success);
        }
        if outcome is Success {
            assert(forall|s: Stage| stage_passes(*cached, *verdicts, s)) by {
                assert(stage_passes(*cached, *verdicts, Stage::Sfo));
                assert(stage_passes(*cached, *verdicts, Stage::Velf));
                assert(stage_passes(*cached, *verdicts, Stage::Fself));
                assert(stage_passes(*cached, *verdicts, Stage::Vpk));
            }
        }
    }
    ScheduleReport { invoked, state, outcome }
}

/// The reporting order of the stages.
pub open spec fn stage_order(s: Stage) -> int {
    match s {
        Stage::Sfo => 0,
        Stage::Velf => 1,
        Stage::Fself => 2,
        Stage::Vpk => 3,
    }
}

/// Advances one stage of the reference schedule: if the stage is ready it
/// is skipped when cached, otherwise its tool is invoked (recorded in
/// `invoked`) and its verdict applied. A stage that is not ready — a
/// dependency or an earlier stage failed — is left pending.
fn advance_stage(
    state: &mut PipelineState,
    invoked: &mut Vec<Stage>,
    s: Stage,
    is_cached: bool,
    verdict: Result<(), StageFailureKind>,
)
    requires
        old(state).wf(),
        old(state).stage_of(s) is Pending,
    ensures
        final(state).wf(),
        old(state).ready(s) && is_cached ==> *final(state) == old(state).with_stage(
            s,
            StageStatus::Done { ran: false },
        ) && final(invoked)@ == old(invoked)@,
        old(state).ready(s) && !is_cached ==> *final(state) == old(state).with_stage(
            s,
            match verdict {
                Ok(()) => StageStatus::Done { ran: true },
                Err(k) => StageStatus::Failed(k),
            },
        ) && final(invoked)@ == old(invoked)@.push(s),
        !old(state).ready(s) ==> *final(state) == *old(state) && final(invoked)@ == old(invoked)@,
{
    if state.is_ready(s) {
        if is_cached {
            state.skip(s);
        } else {
            state.start(s);
            invoked.push(s);
            state.finish(s, verdict);
        }
    }
}

/// When all four stage outputs are already up to date, the whole run
/// invokes no tool and succeeds.
pub proof fn lemma_all_cached_skips_everything(cached: CacheAnswers, verdicts: StageVerdicts)
    requires
        cached.sfo && cached.velf && cached.fself && cached.vpk,
    ensures
        invoked_spec(cached, verdicts) == Seq::<Stage>::empty(),
        forall|s: Stage| stage_passes(cached, verdicts, s),
{
    assert(invoked_spec(cached, verdicts) =~= Seq::<Stage>::empty());
    assert forall|s: Stage| stage_passes(cached, verdicts, s) by {
        match s {
            Stage::Sfo => assert(cached.of(Stage::Sfo)),
            Stage::Velf => assert(cached.of(Stage::Velf)),
            Stage::Fself => assert(cached.of(Stage::Fself)),
            Stage::Vpk => assert(cached.of(Stage::Vpk)),
        }
    }
}

/// Everything the pipeline needs to know about one artifact: its path, the
/// package title (the executable's file stem), and the four derived
/// sibling paths.
#[derive(Debug)]
pub struct ArtifactPlan {
    pub elf: String,
    pub title: String,
    pub paths: ArtifactPaths,
}

/// Why a pipeline run could not even be planned.
#[derive(Copy, Clone, Debug, PartialEq, Eq, Structural)]
pub enum PlanError {
    /// The executable's path has no file stem to derive a title from.
    NoFileStem,
}

impl ArtifactPlan {
    /// Plans the run for the executable at `elf`: derives the title and the
    /// four sibling paths. Fails exactly when the path has no file stem.
    pub fn new(elf: &str) -> (r: Result<ArtifactPlan, PlanError>)
        ensures
            r is Ok <==> file_stem_spec(elf@).len() > 0,
            r matches Ok(plan) ==> plan.elf@ == elf@ && plan.title@ == file_stem_spec(elf@)
                && plan.paths.velf@ == with_ext_spec(elf@, "velf"@) && plan.paths.sfo@
                == with_ext_spec(elf@, "sfo"@) && plan.paths.eboot_bin@ == with_ext_spec(
                elf@,
                "eboot-bin"@,
            ) && plan.paths.vpk@ == with_ext_spec(elf@, "vpk"@),
            r is Err ==> r == Err::<ArtifactPlan, PlanError>(PlanError::NoFileStem),
    {
        let title = match file_stem(elf) {
            Some(t) => t,
            None => {
                return Err(PlanError::NoFileStem);
            },
        };
        Ok(ArtifactPlan { elf: elf.to_owned(), title, paths: ArtifactPaths::derive(elf) })
    }

    /// The output file of one stage.
    pub fn stage_output<'a>(&'a self, s: Stage) -> (r: &'a String)
        ensures
            match s {
                Stage::Sfo => r == &self.paths.sfo,
                Stage::Velf => r == &self.paths.velf,
                Stage::Fself => r == &self.paths.eboot_bin,
                Stage::Vpk => r == &self.paths.vpk,
            },
    {
        match s {
            Stage::Sfo => &self.paths.sfo,
            Stage::Velf => &self.paths.velf,
            Stage::Fself => &self.paths.eboot_bin,
            Stage::Vpk => &self.paths.vpk,
        }
    }

    /// The input files whose modification times gate one stage. The
    /// metadata stage has none: its true input, the title, is not a file —
    /// so once its output exists it counts as cached for good, a known gap
    /// in the staleness tracking.
    pub fn stage_inputs(&self, s: Stage) -> (r: Vec<String>)
        ensures
            match s {
                Stage::Sfo => strs_view(r@) == Seq::<Seq<char>>::empty(),
                Stage::Velf => strs_view(r@) == seq![self.elf@],
                Stage::Fself => strs_view(r@) == seq![self.paths.velf@],
                Stage::Vpk => strs_view(r@) == seq![self.paths.sfo@, self.paths.eboot_bin@],
            },
    {
        let mut r: Vec<String> = Vec::new();
        match s {
            Stage::Sfo => (),
            Stage::Velf => r.push(self.elf.clone()),
            Stage::Fself => r.push(self.paths.velf.clone()),
            Stage::Vpk => {
                r.push(self.paths.sfo.clone());
                r.push(self.paths.eboot_bin.clone());
            },
        }
        proof {
            match s {
                Stage::Sfo => assert(strs_view(r@) =~= Seq::<Seq<char>>::empty()),
                Stage::Velf => assert(strs_view(r@) =~= seq![self.elf@]),
                Stage::Fself => assert(strs_view(r@) =~= seq![self.paths.velf@]),
                Stage::Vpk => assert(strs_view(r@) =~= seq![self.paths.sfo@, self.paths.eboot_bin@]),
            }
        }
        r
    }

    /// The file name of the external tool that runs one stage.
    pub fn stage_tool(s: Stage) -> (r: &'static str)
        ensures
            match s {
                Stage::Sfo => r@ == "vita-mksfoex"@,
                Stage::Velf => r@ == "vita-elf-create"@,
                Stage::Fself => r@ == "vita-make-fself"@,
                Stage::Vpk => r@ == "vita-pack-vpk"@,
            },
    {
        match s {
            Stage::Sfo => "vita-mksfoex",
            Stage::Velf => "vita-elf-create",
            Stage::Fself => "vita-make-fself",
            Stage::Vpk => "vita-pack-vpk",
        }
    }

    /// The argument list of one stage's tool invocation, exactly as the
    /// default builders produce it.
    pub fn stage_args(&self, s: Stage) -> (r: Vec<String>)
        ensures
            match s {
                Stage::Sfo => strs_view(r@) == seq![self.title@, self.paths.sfo@],
                Stage::Velf => strs_view(r@) == seq![self.elf@, self.paths.velf@],
                Stage::Fself => strs_view(r@) == seq![
                    "-a"@,
                    dec_rep(AUTHID_DEFAULT as nat),
                    self.paths.velf@,
                    self.paths.eboot_bin@,
                ],
                Stage::Vpk => strs_view(r@) == seq![
                    "--sfo"@,
                    self.paths.sfo@,
                    "--eboot"@,
                    self.paths.eboot_bin@,
                    self.paths.vpk@,
                ],
            },
    {
        match s {
            Stage::Sfo => {
                let t = VitaMksfoex::new(self.title.as_str(), self.paths.sfo.as_str());
                let r = t.args();
                assert(strs_view(r@) =~= seq![self.title@, self.paths.sfo@]);
                r
            },
            Stage::Velf => {
                let t = VitaElfCreate::new(self.elf.as_str(), self.paths.velf.as_str());
                let r = t.args();
                assert(strs_view(r@) =~= seq![self.elf@, self.paths.velf@]);
                r
            },
            Stage::Fself => {
                let t = VitaMakeFself::new(self.paths.velf.as_str(), self.paths.eboot_bin.as_str());
                let r = t.args();
                assert(strs_view(r@) =~= seq![
                    "-a"@,
                    dec_rep(AUTHID_DEFAULT as nat),
                    self.paths.velf@,
                    self.paths.eboot_bin@,
                ]);
                r
            },
            Stage::Vpk => {
                let t = VitaPackVpk::new(
                    self.paths.sfo.as_str(),
                    self.paths.eboot_bin.as_str(),
                    self.paths.vpk.as_str(),
                );
                let r = t.args();
                assert(strs_view(r@) =~= seq![
                    "--sfo"@,
                    self.paths.sfo@,
                    "--eboot"@,
                    self.paths.eboot_bin@,
                    self.paths.vpk@,
                ]);
                r
            },
        }
    }
}

} // verus!
