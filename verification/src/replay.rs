//! Replaying a packaging run against scripted provider responses.
//!
//! A packaging run is a pure function of its inputs and the provider
//! responses: `run_scripted` folds `step` over a script of events and
//! returns every action the pipeline requested together with the outcome.
//! The laws at the end pin the pipeline's fail-fast behaviour: once a run
//! has failed or completed, no further action is requested, whatever
//! responses follow.

use vstd::prelude::*;

use crate::error::PackageTaskError;
use crate::error::SpecPackageTaskError;
use crate::pipeline::Action;
use crate::pipeline::Event;
use crate::pipeline::SpecAction;
use crate::pipeline::SpecStepOutcome;
use crate::pipeline::Stage;
use crate::pipeline::StepOutcome;
use crate::pipeline::spec_action_for;
use crate::pipeline::spec_after_inf_verification;
use crate::pipeline::spec_build_lacks_samples_flag;
use crate::pipeline::spec_expects;
use crate::pipeline::spec_goto;
use crate::pipeline::spec_step;
use crate::task::PackageTask;

verus! {

/// What replaying a script yields: the actions requested after the opening
/// one, and the outcome, `None` when the script ended first or a response
/// did not fit its stage.
pub type SpecReplay = (Seq<SpecAction>, Option<Result<(), SpecPackageTaskError>>);

/// Folds the transition relation over a script of events, starting in
/// `stage`.
pub open spec fn spec_replay_from(task: PackageTask, stage: Stage, events: Seq<Event>) -> SpecReplay
    decreases events.len(),
{
    if events.len() == 0 {
        (seq![], None)
    } else if !spec_expects(stage, events[0]) {
        (seq![], None)
    } else {
        match spec_step(task, stage, events[0]) {
            SpecStepOutcome::Continue { next, action } => {
                let rest = spec_replay_from(task, next, events.skip(1));
                (seq![action] + rest.0, rest.1)
            },
            SpecStepOutcome::Failed { error } => (seq![], Some(Err(error))),
            SpecStepOutcome::Complete => (seq![], Some(Ok(()))),
        }
    }
}

/// A whole run replayed from the first stage.
pub open spec fn spec_replay(task: PackageTask, events: Seq<Event>) -> SpecReplay {
    spec_replay_from(task, Stage::CheckPackageDir, events)
}

/// The element-wise views of a sequence of actions.
pub open spec fn spec_actions_view(v: Seq<Action>) -> Seq<SpecAction> {
    v.map_values(|a: Action| a@)
}

/// The view of a replay outcome.
pub open spec fn spec_outcome_view(o: Option<Result<(), PackageTaskError>>) -> Option<
    Result<(), SpecPackageTaskError>,
> {
    match o {
        None => None,
        Some(Ok(_)) => Some(Ok(())),
        Some(Err(e)) => Some(Err(e@)),
    }
}

/// Everything one replayed run produced.
#[derive(Debug)]
pub struct ScriptedRun {
    /// Every action the pipeline requested, the opening one included, in
    /// order.
    pub actions: Vec<Action>,
    /// `Some` when the run failed or completed; `None` when the script
    /// ended first or a response did not fit its stage.
    pub outcome: Option<Result<(), PackageTaskError>>,
}

/// Executable test of `spec_expects`.
pub fn event_fits_stage(stage: Stage, event: &Event) -> (r: bool)
    ensures
        r == spec_expects(stage, *event),
{
    match stage {
        Stage::CheckPackageDir | Stage::CheckInx | Stage::CheckCertFile => matches!(
            event,
            Event::Exists { .. }
        ),
        Stage::CreatePackageDir | Stage::RenameBinary | Stage::CopyBinary | Stage::CopyPdb
            | Stage::CopyInf | Stage::CopyMap | Stage::CopyCert => matches!(
            event,
            Event::FileOp { .. }
        ),
        Stage::RunStampinf | Stage::RunInf2Cat | Stage::CheckCertStore
            | Stage::ExportCertFromStore | Stage::GenerateCertInStore | Stage::SignBinary
            | Stage::SignCat | Stage::RunInfVerif { .. } | Stage::VerifySignatureBinary
            | Stage::VerifySignatureCat => matches!(event, Event::ToolRun { .. }),
        Stage::ReadInxForVerif => matches!(event, Event::FileRead { .. }),
        Stage::DetectWdkBuild => matches!(event, Event::BuildNumber { .. }),
    }
}

impl PackageTask {
    /// Replays the pipeline against a script of provider responses: the
    /// result holds every requested action in order and the outcome the
    /// script drove the run to.
    pub fn run_scripted(&self, events: Vec<Event>) -> (r: ScriptedRun)
        ensures
            spec_actions_view(r.actions@) == seq![
                spec_action_for(*self, Stage::CheckPackageDir),
            ] + spec_replay(*self, events@).0,
            spec_outcome_view(r.outcome) == spec_replay(*self, events@).1,
    {
        let ghost task = *self;
        let ghost script = events@;
        let mut events = events;
        let (start_stage, first_action) = self.start();
        let mut stage = start_stage;
        let mut actions: Vec<Action> = Vec::new();
        actions.push(first_action);
        let mut outcome: Option<Result<(), PackageTaskError>> = None;
        proof {
            assert(spec_actions_view(actions@) =~= seq![
                spec_action_for(task, Stage::CheckPackageDir),
            ]);
        }
        while events.len() > 0
            invariant_except_break
                task == *self,
                outcome is None,
                seq![spec_action_for(task, Stage::CheckPackageDir)] + spec_replay(
                    task,
                    script,
                ).0 == spec_actions_view(actions@) + spec_replay_from(task, stage, events@).0,
                spec_replay(task, script).1 == spec_replay_from(task, stage, events@).1,
            ensures
                spec_actions_view(actions@) == seq![
                    spec_action_for(task, Stage::CheckPackageDir),
                ] + spec_replay(task, script).0,
                spec_outcome_view(outcome) == spec_replay(task, script).1,
            decreases events@.len(),
        {
            if !event_fits_stage(stage, &events[0]) {
                proof {
                    assert(spec_replay_from(task, stage, events@).0 =~= seq![]);
                    assert(spec_actions_view(actions@) + seq![] =~= spec_actions_view(actions@));
                }
                break;
            }
            let ghost before = events@;
            let ev = events.remove(0);
            proof {
                assert(before.subrange(1, before.len() as int) =~= before.skip(1));
            }
            let outcome_now = self.step(stage, ev);
            match outcome_now {
                StepOutcome::Continue { next, action } => {
                    let ghost prev_actions = spec_actions_view(actions@);
                    let ghost act = action@;
                    actions.push(action);
                    proof {
                        assert(spec_actions_view(actions@) =~= prev_actions.push(act));
                        let rest = spec_replay_from(task, next, before.skip(1));
                        assert(spec_replay_from(task, stage, before).0 =~= seq![act] + rest.0);
                        assert(prev_actions + (seq![act] + rest.0) =~= prev_actions.push(act)
                            + rest.0);
                    }
                    stage = next;
                },
                StepOutcome::Failed { error } => {
                    proof {
                        assert(spec_replay_from(task, stage, before).0 =~= seq![]);
                        assert(spec_actions_view(actions@) + seq![] =~= spec_actions_view(
                            actions@,
                        ));
                    }
                    outcome = Some(Err(error));
                    break;
                },
                StepOutcome::Complete => {
                    proof {
                        assert(spec_replay_from(task, stage, before).0 =~= seq![]);
                        assert(spec_actions_view(actions@) + seq![] =~= spec_actions_view(
                            actions@,
                        ));
                    }
                    outcome = Some(Ok(()));
                    break;
                },
            }
        }
        ScriptedRun { actions, outcome }
    }
}

/// Fail-fast: once a replay has reached an outcome, later provider
/// responses change nothing, and in particular no further action is
/// requested of any provider.
pub proof fn lemma_outcome_is_terminal(
    task: PackageTask,
    stage: Stage,
    events: Seq<Event>,
    extra: Seq<Event>,
)
    requires
        spec_replay_from(task, stage, events).1 is Some,
    ensures
        spec_replay_from(task, stage, events + extra) == spec_replay_from(task, stage, events),
    decreases events.len(),
{
    assert(events.len() > 0);
    let whole = events + extra;
    assert(whole[0] == events[0]);
    assert(spec_expects(stage, events[0]));
    match spec_step(task, stage, events[0]) {
        SpecStepOutcome::Continue { next, action } => {
            assert(whole.skip(1) =~= events.skip(1) + extra);
            lemma_outcome_is_terminal(task, next, events.skip(1), extra);
            assert(spec_replay_from(task, stage, whole).0 =~= spec_replay_from(
                task,
                stage,
                events,
            ).0);
        },
        SpecStepOutcome::Failed { error } => {
            assert(whole.len() > 0);
        },
        SpecStepOutcome::Complete => {
            assert(whole.len() > 0);
        },
    }
}

/// Certificate idempotence: when the certificate file already exists, the
/// pipeline moves straight to copying it into the package folder; the
/// certificate stages request no tool run at all.
pub proof fn lemma_existing_cert_file_is_reused(task: PackageTask)
    ensures
        spec_step(task, Stage::CheckCertFile, Event::Exists { yes: true }) == spec_goto(
            task,
            Stage::CopyCert,
        ),
        spec_action_for(task, Stage::CopyCert) is Copy,
{
}

/// The sample-class workaround: on a WDK build whose `infverif` lacks the
/// samples flag, INF verification is skipped outright and the run proceeds
/// to optional signature verification, or completes.
pub proof fn lemma_buggy_build_skips_inf_verification(task: PackageTask, build: u32)
    requires
        spec_build_lacks_samples_flag(build),
    ensures
        spec_step(task, Stage::DetectWdkBuild, Event::BuildNumber { outcome: Ok(build) })
            == spec_after_inf_verification(task),
        task.verify_signature ==> spec_after_inf_verification(task) == spec_goto(
            task,
            Stage::VerifySignatureBinary,
        ),
        !task.verify_signature ==> spec_after_inf_verification(task) is Complete,
{
}

} // verus!
