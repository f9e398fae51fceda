use crate::failure::Failure;
use vstd::prelude::*;

verus! {

/// Where the one-shot setup stands. The fallible steps run in this order;
/// the first one that fails ends setup for good.
#[derive(Clone, Copy, Debug, PartialEq, Eq, Structural)]
pub enum SetupStage {
    RequestAdapter,
    RequestDevice,
    ChooseFormat,
    CompileShader,
    BuildPipeline,
    Ready,
    Failed(Failure),
}

impl SetupStage {
    /// The failure that ends setup when the step of this stage fails.
    pub open spec fn step_failure(self) -> Failure {
        match self {
            SetupStage::RequestAdapter => Failure::AdapterUnavailable,
            SetupStage::RequestDevice => Failure::DeviceUnsupported,
            SetupStage::ChooseFormat => Failure::NoSurfaceFormat,
            SetupStage::CompileShader => Failure::ShaderRejected,
            _ => Failure::PipelineRejected,
        }
    }

    /// The step after this one, when it succeeds.
    pub open spec fn next_step(self) -> SetupStage {
        match self {
            SetupStage::RequestAdapter => SetupStage::RequestDevice,
            SetupStage::RequestDevice => SetupStage::ChooseFormat,
            SetupStage::ChooseFormat => SetupStage::CompileShader,
            SetupStage::CompileShader => SetupStage::BuildPipeline,
            _ => SetupStage::Ready,
        }
    }

    pub open spec fn is_settled(self) -> bool {
        self is Ready || self is Failed
    }

    pub open spec fn spec_advance(self, succeeded: bool) -> SetupStage {
        if self.is_settled() {
            self
        } else if succeeded {
            self.next_step()
        } else {
            SetupStage::Failed(self.step_failure())
        }
    }

    /// The stage before any step has run.
    pub fn start() -> (r: SetupStage)
        ensures
            r == SetupStage::RequestAdapter,
    {
        SetupStage::RequestAdapter
    }

    /// The stage once the current step has run and `succeeded` tells how it
    /// went. A settled stage (ready or failed) stays as it is.
    pub fn advance(self, succeeded: bool) -> (r: SetupStage)
        ensures
            r == self.spec_advance(succeeded),
    {
        match self {
            SetupStage::RequestAdapter => if succeeded {
                SetupStage::RequestDevice
            } else {
                SetupStage::Failed(Failure::AdapterUnavailable)
            },
            SetupStage::RequestDevice => if succeeded {
                SetupStage::ChooseFormat
            } else {
                SetupStage::Failed(Failure::DeviceUnsupported)
            },
            SetupStage::ChooseFormat => if succeeded {
                SetupStage::CompileShader
            } else {
                SetupStage::Failed(Failure::NoSurfaceFormat)
            },
            SetupStage::CompileShader => if succeeded {
                SetupStage::BuildPipeline
            } else {
                SetupStage::Failed(Failure::ShaderRejected)
            },
            SetupStage::BuildPipeline => if succeeded {
                SetupStage::Ready
            } else {
                SetupStage::Failed(Failure::PipelineRejected)
            },
            SetupStage::Ready => SetupStage::Ready,
            SetupStage::Failed(f) => SetupStage::Failed(f),
        }
    }

    /// The failure that ended setup, if one did.
    pub fn failure(self) -> (r: Option<Failure>)
        ensures
            r == (match self {
                SetupStage::Failed(f) => Some(f),
                _ => None,
            }),
    {
        match self {
            SetupStage::Failed(f) => Some(f),
            _ => None,
        }
    }
}

/// The stage reached from `stage` when the steps report `outcomes`, in order.
pub open spec fn stage_after(stage: SetupStage, outcomes: Seq<bool>) -> SetupStage
    decreases outcomes.len(),
{
    if outcomes.len() == 0 {
        stage
    } else {
        stage_after(stage.spec_advance(outcomes[0]), outcomes.drop_first())
    }
}

/// A settled stage is final: no later report changes it.
pub proof fn lemma_settled_is_final(stage: SetupStage, outcomes: Seq<bool>)
    requires
        stage.is_settled(),
    ensures
        stage_after(stage, outcomes) == stage,
    decreases outcomes.len(),
{
    if outcomes.len() > 0 {
        lemma_settled_is_final(stage, outcomes.drop_first());
    }
}

/// Setup is ready exactly when the first five reports are all successes:
/// it is all or nothing.
pub proof fn lemma_ready_iff_all_succeed(outcomes: Seq<bool>)
    requires
        outcomes.len() >= 5,
    ensures
        stage_after(SetupStage::RequestAdapter, outcomes) == SetupStage::Ready <==> (forall|
            i: int,
        |
            0 <= i < 5 ==> outcomes[i]),
{
    let s5 = stage_after(SetupStage::RequestAdapter, outcomes.take(5));
    lemma_stage_after_split(SetupStage::RequestAdapter, outcomes, 5);
    lemma_first_five(outcomes);
    lemma_settled_is_final(s5, outcomes.skip(5));
}

/// The stage after five reports, one for each step, from the start.
proof fn lemma_first_five(outcomes: Seq<bool>)
    requires
        outcomes.len() >= 5,
    ensures
        stage_after(SetupStage::RequestAdapter, outcomes.take(5)) == SetupStage::RequestAdapter
            .spec_advance(outcomes[0]).spec_advance(outcomes[1]).spec_advance(outcomes[2])
            .spec_advance(outcomes[3]).spec_advance(outcomes[4]),
{
    let t = outcomes.take(5);
    let o1 = t.drop_first();
    let o2 = o1.drop_first();
    let o3 = o2.drop_first();
    let o4 = o3.drop_first();
    let o5 = o4.drop_first();
    let s1 = SetupStage::RequestAdapter.spec_advance(t[0]);
    let s2 = s1.spec_advance(o1[0]);
    let s3 = s2.spec_advance(o2[0]);
    let s4 = s3.spec_advance(o3[0]);
    let s5 = s4.spec_advance(o4[0]);
    assert(stage_after(SetupStage::RequestAdapter, t) == stage_after(s1, o1));
    assert(stage_after(s1, o1) == stage_after(s2, o2));
    assert(stage_after(s2, o2) == stage_after(s3, o3));
    assert(stage_after(s3, o3) == stage_after(s4, o4));
    assert(stage_after(s4, o4) == stage_after(s5, o5));
    assert(o5.len() == 0);
}

/// Reporting `outcomes` in one go reaches the stage reached by reporting its
/// first `k` outcomes and then the rest.
pub proof fn lemma_stage_after_split(stage: SetupStage, outcomes: Seq<bool>, k: int)
    requires
        0 <= k <= outcomes.len(),
    ensures
        stage_after(stage, outcomes) == stage_after(
            stage_after(stage, outcomes.take(k)),
            outcomes.skip(k),
        ),
    decreases k,
{
    if k > 0 {
        lemma_stage_after_split(stage.spec_advance(outcomes[0]), outcomes.drop_first(), k - 1);
        assert(outcomes.take(k).drop_first() =~= outcomes.drop_first().take(k - 1));
        assert(outcomes.skip(k) =~= outcomes.drop_first().skip(k - 1));
    } else {
        assert(outcomes.skip(0) =~= outcomes);
    }
}

/// A pipeline that the backend refuses (for one, a shader without the
/// fragment entry point) fails setup with `PipelineRejected`, and setup
/// stays failed whatever is reported afterwards: it never becomes ready.
pub proof fn lemma_pipeline_refusal_is_fatal(outcomes: Seq<bool>)
    requires
        outcomes.len() >= 5,
        outcomes[0] && outcomes[1] && outcomes[2] && outcomes[3],
        !outcomes[4],
    ensures
        stage_after(SetupStage::RequestAdapter, outcomes) == SetupStage::Failed(
            Failure::PipelineRejected,
        ),
{
    lemma_ready_iff_all_succeed(outcomes);
    lemma_stage_after_split(SetupStage::RequestAdapter, outcomes, 5);
    lemma_first_five(outcomes);
    lemma_settled_is_final(SetupStage::Failed(Failure::PipelineRejected), outcomes.skip(5));
}

} // verus!
