//! The decisions of one polling cycle: how a pipeline is classified, which
//! request comes next, what a finished cycle shows and whom it notifies.

use crate::bitbucket::client::{BitbucketError, BitbucketErrorView};
use crate::bitbucket::types::{Pipeline, PipelineStep, PipelineStepView, PipelineView};
use crate::config::{
    lemma_healthy_iff_no_failure, AppState, AppStateView, FailedPipelineInfo,
    FailedPipelineInfoView, MonitoredPipeline, MonitoredPipelineView, OverallStatus,
    OverallStatusView, PipelineState, PipelineStatusInfo, PipelineStatusInfoView,
};
use crate::outside::{local_time_label, uppercase_of};
use crate::text::{decimal, decimal_digits, has_substring, is_clock_time, str_eq};
use crate::tray::TrayStatus;
use vstd::prelude::*;
use vstd::string::*;

verus! {

/// The health class of a pipeline. The first rule that applies decides:
/// failed, then paused, then in progress; anything else is healthy.
pub open spec fn classification(pipeline: PipelineView) -> PipelineState {
    if pipeline.failed() {
        PipelineState::Failed
    } else if pipeline.paused() {
        PipelineState::Paused
    } else if pipeline.in_progress() {
        PipelineState::InProgress
    } else {
        PipelineState::Healthy
    }
}

/// A pipeline whose result is `FAILED`, `ERROR` or `EXPIRED` is classified
/// as failed, whatever its state name and pause signal say.
pub proof fn lemma_failed_result_classifies_failed(pipeline: PipelineView)
    requires
        pipeline.state.result matches Some(r) && (r.name == "FAILED"@ || r.name == "ERROR"@
            || r.name == "EXPIRED"@),
    ensures
        classification(pipeline) == PipelineState::Failed,
{
}

/// A pipeline that has not failed and shows a pause signal is classified as
/// paused, even where its state name says that it is running.
pub proof fn lemma_pause_signal_classifies_paused(pipeline: PipelineView)
    requires
        !pipeline.failed(),
        ({
            ||| pipeline.state.state_type matches Some(t) && has_substring(t, "paused"@)
            ||| pipeline.state.stage matches Some(stage) && stage.name matches Some(name)
                && uppercase_of(name) == "PAUSED"@
        }),
    ensures
        classification(pipeline) == PipelineState::Paused,
{
}

/// A pipeline that has not failed, is not paused and is named `IN_PROGRESS`
/// or `PENDING` is classified as in progress.
pub proof fn lemma_running_classifies_in_progress(pipeline: PipelineView)
    requires
        !pipeline.failed(),
        !pipeline.paused(),
        pipeline.state.name == "IN_PROGRESS"@ || pipeline.state.name == "PENDING"@,
    ensures
        classification(pipeline) == PipelineState::InProgress,
{
}

/// The health class of `pipeline`.
pub fn classify(pipeline: &Pipeline) -> (r: PipelineState)
    ensures
        r == classification(pipeline@),
{
    if pipeline.is_failed() {
        PipelineState::Failed
    } else if pipeline.is_paused() {
        PipelineState::Paused
    } else if pipeline.is_in_progress() {
        PipelineState::InProgress
    } else {
        PipelineState::Healthy
    }
}

/// The name of the first pending step, if there is such a step and it has
/// a name.
pub open spec fn first_pending_name(steps: Seq<PipelineStepView>) -> Option<Seq<char>>
    decreases steps.len(),
{
    if steps.len() == 0 {
        None
    } else if steps.first().pending() {
        steps.first().name
    } else {
        first_pending_name(steps.drop_first())
    }
}

/// The label of the stage that blocks a paused pipeline: the name of its
/// first pending step, or `paused` where the steps could not be fetched,
/// none is pending, or the pending one has no name.
pub open spec fn stage_label(steps: Option<Seq<PipelineStepView>>) -> Seq<char> {
    match steps {
        Some(steps) => match first_pending_name(steps) {
            Some(name) => name,
            None => "paused"@,
        },
        None => "paused"@,
    }
}

/// The label of the stage that blocks a paused pipeline, from its steps
/// (`None` where they could not be fetched).
pub fn pending_stage_label(steps: Option<&Vec<PipelineStep>>) -> (r: String)
    ensures
        r@ == stage_label(steps.deep_view()),
{
    match steps {
        Some(list) => {
            let ghost all = list.deep_view();
            let mut i: usize = 0;
            assert(all.skip(0) =~= all);
            while i < list.len()
                invariant
                    i <= list.len(),
                    steps == Some(list),
                    all == list.deep_view(),
                    first_pending_name(all) == first_pending_name(all.skip(i as int)),
                decreases list.len() - i,
            {
                proof {
                    assert(all.skip(i as int).first() == list[i as int]@);
                    assert(all.skip(i as int).drop_first() =~= all.skip(i + 1));
                }
                if list[i].is_pending() {
                    return match &list[i].name {
                        Some(name) => name.clone(),
                        None => String::from_str("paused"),
                    };
                }
                i += 1;
            }
            String::from_str("paused")
        },
        None => String::from_str("paused"),
    }
}

/// The page that shows one run of a repository's pipeline.
pub open spec fn pipeline_result_url(
    workspace: Seq<char>,
    repo_slug: Seq<char>,
    build_number: u32,
) -> Seq<char> {
    "https://bitbucket.org/"@ + workspace + "/"@ + repo_slug + "/pipelines/results/"@
        + decimal_digits(build_number as nat)
}

/// The page that lists the pipelines of a repository.
pub open spec fn pipelines_page_url(workspace: Seq<char>, repo_slug: Seq<char>) -> Seq<char> {
    "https://bitbucket.org/"@ + workspace + "/"@ + repo_slug + "/pipelines"@
}

impl MonitoredPipelineView {
    /// An entry for this target; the identity fields are the target's.
    pub open spec fn entry(
        self,
        state: PipelineState,
        failure_reason: Option<Seq<char>>,
        pipeline_url: Option<Seq<char>>,
        stage_name: Option<Seq<char>>,
    ) -> PipelineStatusInfoView {
        PipelineStatusInfoView {
            workspace: self.workspace,
            project_key: self.project_key,
            project_name: self.project_name,
            repo_slug: self.repo_slug,
            repo_name: self.repo_name,
            state,
            failure_reason,
            pipeline_url,
            stage_name,
        }
    }

    /// The entry for a target whose latest pipeline is `pipeline`. A failed
    /// pipeline records the name of its result; a paused one records the
    /// label of the stage it waits at, taken from `steps`.
    pub open spec fn found(
        self,
        pipeline: PipelineView,
        steps: Option<Seq<PipelineStepView>>,
    ) -> PipelineStatusInfoView {
        let state = classification(pipeline);
        self.entry(
            state,
            if state == PipelineState::Failed {
                Some(pipeline.state.result->0.name)
            } else {
                None
            },
            Some(pipeline_result_url(self.workspace, self.repo_slug, pipeline.build_number)),
            if state == PipelineState::Paused {
                Some(stage_label(steps))
            } else {
                None
            },
        )
    }

    /// The entry for a target that has no pipeline, or none on its branch.
    pub open spec fn not_found(self) -> PipelineStatusInfoView {
        self.entry(
            PipelineState::Unknown,
            None,
            Some(pipelines_page_url(self.workspace, self.repo_slug)),
            None,
        )
    }

    /// The entry for a target whose fetch failed with `error`.
    pub open spec fn fetch_failed(self, error: BitbucketErrorView) -> PipelineStatusInfoView {
        self.entry(PipelineState::Unknown, Some("Error: "@ + error.message()), None, None)
    }
}

fn entry_for(
    target: &MonitoredPipeline,
    state: PipelineState,
    failure_reason: Option<String>,
    pipeline_url: Option<String>,
    stage_name: Option<String>,
) -> (r: PipelineStatusInfo)
    ensures
        r@ == target@.entry(
            state,
            failure_reason.deep_view(),
            pipeline_url.deep_view(),
            stage_name.deep_view(),
        ),
{
    PipelineStatusInfo {
        workspace: target.workspace.clone(),
        project_key: target.project_key.clone(),
        project_name: target.project_name.clone(),
        repo_slug: target.repo_slug.clone(),
        repo_name: target.repo_name.clone(),
        state,
        failure_reason,
        pipeline_url,
        stage_name,
    }
}

/// The entry for a target whose latest pipeline is `pipeline`; `steps` are
/// the pipeline's steps, or `None` where they were not or could not be
/// fetched.
pub fn status_for_pipeline(
    target: &MonitoredPipeline,
    pipeline: &Pipeline,
    steps: Option<&Vec<PipelineStep>>,
) -> (r: PipelineStatusInfo)
    ensures
        r@ == target@.found(pipeline@, steps.deep_view()),
{
    let state = classify(pipeline);
    let failure_reason = match state {
        PipelineState::Failed => match &pipeline.state.result {
            Some(result) => Some(result.name.clone()),
            None => None,
        },
        _ => None,
    };
    let stage_name = match state {
        PipelineState::Paused => Some(pending_stage_label(steps)),
        _ => None,
    };
    let mut url = String::from_str("https://bitbucket.org/");
    url.append(target.workspace.as_str());
    url.append("/");
    url.append(target.repo_slug.as_str());
    url.append("/pipelines/results/");
    url.append(decimal(pipeline.build_number as u64).as_str());
    entry_for(target, state, failure_reason, Some(url), stage_name)
}

/// The entry for a target that has no pipeline, or none on its branch.
pub fn status_without_pipeline(target: &MonitoredPipeline) -> (r: PipelineStatusInfo)
    ensures
        r@ == target@.not_found(),
{
    let mut url = String::from_str("https://bitbucket.org/");
    url.append(target.workspace.as_str());
    url.append("/");
    url.append(target.repo_slug.as_str());
    url.append("/pipelines");
    entry_for(target, PipelineState::Unknown, None, Some(url), None)
}

/// The entry for a target whose fetch failed: unknown, with the failure's
/// message as the reason.
pub fn status_for_error(
    target: &MonitoredPipeline,
    error: &BitbucketError,
) -> (r: PipelineStatusInfo)
    ensures
        r@ == target@.fetch_failed(error@),
{
    let mut reason = String::from_str("Error: ");
    reason.append(error.message().as_str());
    entry_for(target, PipelineState::Unknown, Some(reason), None, None)
}

/// What a check cycle asks its caller to fetch next.
#[derive(Debug, PartialEq, Eq)]
pub enum CheckRequest {
    /// The latest pipeline of a repository, on `branch` where one is given.
    LatestPipeline { workspace: String, repo_slug: String, branch: Option<String> },
    /// The steps of one pipeline.
    PipelineSteps { workspace: String, repo_slug: String, pipeline_uuid: String },
    /// Nothing: every target has its entry.
    Finished,
}

/// What came back for the request of a check cycle.
#[derive(Debug, PartialEq, Eq)]
pub enum CheckEvent {
    LatestPipeline(Result<Option<Pipeline>, BitbucketError>),
    PipelineSteps(Result<Vec<PipelineStep>, BitbucketError>),
}

pub enum CheckRequestView {
    LatestPipeline { workspace: Seq<char>, repo_slug: Seq<char>, branch: Option<Seq<char>> },
    PipelineSteps { workspace: Seq<char>, repo_slug: Seq<char>, pipeline_uuid: Seq<char> },
    Finished,
}

pub enum CheckEventView {
    LatestPipeline(Result<Option<PipelineView>, BitbucketErrorView>),
    PipelineSteps(Result<Seq<PipelineStepView>, BitbucketErrorView>),
}

impl DeepView for CheckRequest {
    type V = CheckRequestView;

    open spec fn deep_view(&self) -> CheckRequestView {
        match self {
            CheckRequest::LatestPipeline { workspace, repo_slug, branch } => {
                CheckRequestView::LatestPipeline {
                    workspace: workspace@,
                    repo_slug: repo_slug@,
                    branch: branch.deep_view(),
                }
            },
            CheckRequest::PipelineSteps { workspace, repo_slug, pipeline_uuid } => {
                CheckRequestView::PipelineSteps {
                    workspace: workspace@,
                    repo_slug: repo_slug@,
                    pipeline_uuid: pipeline_uuid@,
                }
            },
            CheckRequest::Finished => CheckRequestView::Finished,
        }
    }
}

impl View for CheckRequest {
    type V = CheckRequestView;

    open spec fn view(&self) -> CheckRequestView {
        self.deep_view()
    }
}

impl DeepView for CheckEvent {
    type V = CheckEventView;

    open spec fn deep_view(&self) -> CheckEventView {
        match self {
            CheckEvent::LatestPipeline(outcome) => CheckEventView::LatestPipeline(
                match outcome {
                    Ok(found) => Ok(found.deep_view()),
                    Err(e) => Err(e@),
                },
            ),
            CheckEvent::PipelineSteps(outcome) => CheckEventView::PipelineSteps(
                match outcome {
                    Ok(steps) => Ok(steps.deep_view()),
                    Err(e) => Err(e@),
                },
            ),
        }
    }
}

impl View for CheckEvent {
    type V = CheckEventView;

    open spec fn view(&self) -> CheckEventView {
        self.deep_view()
    }
}

impl PipelineStatusInfoView {
    /// The entry carries the identity of `target`.
    pub open spec fn describes(self, target: MonitoredPipelineView) -> bool {
        &&& self.workspace == target.workspace
        &&& self.project_key == target.project_key
        &&& self.project_name == target.project_name
        &&& self.repo_slug == target.repo_slug
        &&& self.repo_name == target.repo_name
    }
}

/// The state of a check cycle: the targets, the entries of those already
/// checked, and the paused pipeline whose steps are being fetched.
pub struct CheckCycleView {
    pub targets: Seq<MonitoredPipelineView>,
    pub statuses: Seq<PipelineStatusInfoView>,
    pub awaiting_steps: Option<PipelineView>,
}

impl CheckCycleView {
    /// The cycle before its first request.
    pub open spec fn start(targets: Seq<MonitoredPipelineView>) -> CheckCycleView {
        CheckCycleView { targets, statuses: Seq::empty(), awaiting_steps: None }
    }

    /// Entries exist for a prefix of the targets, in the targets' order, and
    /// steps are only awaited for a target that has no entry yet.
    pub open spec fn well_formed(self) -> bool {
        &&& self.statuses.len() <= self.targets.len()
        &&& self.awaiting_steps is Some ==> self.statuses.len() < self.targets.len()
        &&& forall|i: int|
            0 <= i < self.statuses.len() ==> (#[trigger] self.statuses[i]).describes(
                self.targets[i],
            )
    }

    /// Every target has its entry.
    pub open spec fn finished(self) -> bool {
        self.statuses.len() >= self.targets.len()
    }

    /// The target that is being checked.
    pub open spec fn current(self) -> MonitoredPipelineView {
        self.targets[self.statuses.len() as int]
    }

    /// The request that the caller serves next.
    pub open spec fn request(self) -> CheckRequestView {
        if self.finished() {
            CheckRequestView::Finished
        } else {
            match self.awaiting_steps {
                Some(pipeline) => CheckRequestView::PipelineSteps {
                    workspace: self.current().workspace,
                    repo_slug: self.current().repo_slug,
                    pipeline_uuid: pipeline.uuid,
                },
                None => CheckRequestView::LatestPipeline {
                    workspace: self.current().workspace,
                    repo_slug: self.current().repo_slug,
                    branch: self.current().branch,
                },
            }
        }
    }

    /// The cycle once the current target has `entry`.
    pub open spec fn record(self, entry: PipelineStatusInfoView) -> CheckCycleView {
        CheckCycleView {
            targets: self.targets,
            statuses: self.statuses.push(entry),
            awaiting_steps: None,
        }
    }

    /// `event` is an answer to the request that is outstanding.
    pub open spec fn answers(self, event: CheckEventView) -> bool {
        !self.finished() && match event {
            CheckEventView::LatestPipeline(_) => self.awaiting_steps is None,
            CheckEventView::PipelineSteps(_) => self.awaiting_steps is Some,
        }
    }

    /// The cycle after `event`. A failed fetch and a missing pipeline give
    /// the current target an unknown entry; a pipeline that is not paused
    /// gives it its entry at once; a paused one waits for its steps, and
    /// whatever comes back for them, steps or failure, completes the entry.
    /// An event that does not answer the outstanding request changes
    /// nothing.
    pub open spec fn after(self, event: CheckEventView) -> CheckCycleView {
        if !self.answers(event) {
            self
        } else {
            match event {
                CheckEventView::LatestPipeline(Err(error)) => self.record(
                    self.current().fetch_failed(error),
                ),
                CheckEventView::LatestPipeline(Ok(None)) => self.record(
                    self.current().not_found(),
                ),
                CheckEventView::LatestPipeline(Ok(Some(pipeline))) => if classification(pipeline)
                    == PipelineState::Paused {
                    CheckCycleView {
                        targets: self.targets,
                        statuses: self.statuses,
                        awaiting_steps: Some(pipeline),
                    }
                } else {
                    self.record(self.current().found(pipeline, None))
                },
                CheckEventView::PipelineSteps(Ok(steps)) => self.record(
                    self.current().found(self.awaiting_steps->0, Some(steps)),
                ),
                CheckEventView::PipelineSteps(Err(_)) => self.record(
                    self.current().found(self.awaiting_steps->0, None),
                ),
            }
        }
    }

    /// An upper bound on the requests that are still to come.
    pub open spec fn remaining(self) -> int {
        2 * (self.targets.len() - self.statuses.len()) - if self.awaiting_steps is Some {
            1int
        } else {
            0int
        }
    }
}

/// Every answer to the outstanding request brings the cycle closer to its
/// end, whether it reports a pipeline, none, or a failure: no target can
/// hold up the others.
pub proof fn lemma_every_answer_makes_progress(cycle: CheckCycleView, event: CheckEventView)
    requires
        cycle.well_formed(),
        cycle.answers(event),
    ensures
        cycle.after(event).well_formed(),
        cycle.after(event).targets == cycle.targets,
        0 <= cycle.after(event).remaining() < cycle.remaining(),
{
    let next = cycle.after(event);
    assert forall|i: int| 0 <= i < next.statuses.len() implies (#[trigger] next.statuses[i]).describes(
        next.targets[i],
    ) by {
        if i < cycle.statuses.len() {
            assert(next.statuses[i] == cycle.statuses[i]);
        }
    }
}

/// A well-formed cycle that has finished holds exactly one entry per
/// target, in the targets' order, errors included.
pub proof fn lemma_finished_cycle_covers_every_target(cycle: CheckCycleView)
    requires
        cycle.well_formed(),
        cycle.finished(),
    ensures
        cycle.statuses.len() == cycle.targets.len(),
        forall|i: int|
            0 <= i < cycle.targets.len() ==> (#[trigger] cycle.statuses[i]).describes(
                cycle.targets[i],
            ),
{
}

/// One pass over the monitored pipelines. The caller serves `request` and
/// hands the answer to `advance` until the request is `Finished`.
#[derive(Debug)]
pub struct CheckCycle {
    targets: Vec<MonitoredPipeline>,
    statuses: Vec<PipelineStatusInfo>,
    awaiting_steps: Option<Pipeline>,
}

impl View for CheckCycle {
    type V = CheckCycleView;

    closed spec fn view(&self) -> CheckCycleView {
        CheckCycleView {
            targets: self.targets.deep_view(),
            statuses: self.statuses.deep_view(),
            awaiting_steps: self.awaiting_steps.deep_view(),
        }
    }
}

impl CheckCycle {
    #[verifier::type_invariant]
    spec fn inv(&self) -> bool {
        self@.well_formed()
    }

    /// A cycle over `targets`, before its first request.
    pub fn new(targets: Vec<MonitoredPipeline>) -> (r: Self)
        ensures
            r@ == CheckCycleView::start(targets.deep_view()),
            r@.well_formed(),
    {
        let r = CheckCycle { targets, statuses: Vec::new(), awaiting_steps: None };
        assert(r.statuses.deep_view() =~= Seq::empty());
        r
    }

    /// Whether every target has its entry.
    pub fn is_finished(&self) -> (r: bool)
        ensures
            r == self@.finished(),
            self@.well_formed(),
    {
        proof {
            use_type_invariant(self);
        }
        self.statuses.len() >= self.targets.len()
    }

    /// The request that the caller serves next.
    pub fn request(&self) -> (r: CheckRequest)
        ensures
            r@ == self@.request(),
            self@.well_formed(),
    {
        proof {
            use_type_invariant(self);
        }
        if self.statuses.len() >= self.targets.len() {
            return CheckRequest::Finished;
        }
        let target = &self.targets[self.statuses.len()];
        match &self.awaiting_steps {
            Some(pipeline) => CheckRequest::PipelineSteps {
                workspace: target.workspace.clone(),
                repo_slug: target.repo_slug.clone(),
                pipeline_uuid: pipeline.uuid.clone(),
            },
            None => CheckRequest::LatestPipeline {
                workspace: target.workspace.clone(),
                repo_slug: target.repo_slug.clone(),
                branch: target.branch.clone(),
            },
        }
    }

    fn record(self, entry: PipelineStatusInfo) -> (r: Self)
        requires
            !self@.finished(),
            entry@.describes(self@.current()),
        ensures
            r@ == self@.record(entry@),
    {
        proof {
            use_type_invariant(&self);
        }
        let ghost before = self@;
        let CheckCycle { targets, statuses, awaiting_steps: _ } = self;
        let mut statuses = statuses;
        statuses.push(entry);
        assert(statuses.deep_view() =~= before.statuses.push(entry@));
        assert forall|i: int| 0 <= i < statuses.deep_view().len() implies (
        #[trigger] statuses.deep_view()[i]).describes(targets.deep_view()[i]) by {
            if i < before.statuses.len() {
                assert(statuses.deep_view()[i] == before.statuses[i]);
            }
        }
        CheckCycle { targets, statuses, awaiting_steps: None }
    }

    /// The cycle after `event`, the answer to `request`.
    pub fn advance(self, event: CheckEvent) -> (r: Self)
        ensures
            r@ == self@.after(event@),
            r@.well_formed(),
    {
        proof {
            use_type_invariant(&self);
            if self@.answers(event@) {
                lemma_every_answer_makes_progress(self@, event@);
            }
        }
        if self.statuses.len() >= self.targets.len() {
            return self;
        }
        match event {
            CheckEvent::LatestPipeline(outcome) => {
                if self.awaiting_steps.is_some() {
                    return self;
                }
                match outcome {
                    Err(error) => {
                        let entry = status_for_error(&self.targets[self.statuses.len()], &error);
                        self.record(entry)
                    },
                    Ok(None) => {
                        let entry = status_without_pipeline(&self.targets[self.statuses.len()]);
                        self.record(entry)
                    },
                    Ok(Some(pipeline)) => {
                        match classify(&pipeline) {
                            PipelineState::Paused => {
                                let CheckCycle { targets, statuses, awaiting_steps: _ } = self;
                                CheckCycle { targets, statuses, awaiting_steps: Some(pipeline) }
                            },
                            _ => {
                                let entry = status_for_pipeline(
                                    &self.targets[self.statuses.len()],
                                    &pipeline,
                                    None,
                                );
                                self.record(entry)
                            },
                        }
                    },
                }
            },
            CheckEvent::PipelineSteps(outcome) => {
                let entry = match &self.awaiting_steps {
                    Some(pipeline) => {
                        let target = &self.targets[self.statuses.len()];
                        match &outcome {
                            Ok(steps) => status_for_pipeline(target, pipeline, Some(steps)),
                            Err(_) => status_for_pipeline(target, pipeline, None),
                        }
                    },
                    None => {
                        return self;
                    },
                };
                self.record(entry)
            },
        }
    }
}

impl CheckCycle {
    /// The snapshot of a finished cycle, taken at `timestamp`; `None` while
    /// targets are still unchecked.
    pub fn finish(self, timestamp: String) -> (r: Option<OverallStatus>)
        ensures
            match r {
                Some(status) => {
                    &&& self@.finished()
                    &&& status@ == OverallStatusView::aggregate(self@.statuses, timestamp@)
                    &&& status.pipeline_statuses.len() == self@.targets.len()
                    &&& forall|i: int|
                        0 <= i < self@.targets.len() ==> (
                        #[trigger] status@.pipeline_statuses[i]).describes(self@.targets[i])
                },
                None => !self@.finished(),
            },
    {
        proof {
            use_type_invariant(&self);
        }
        if self.statuses.len() >= self.targets.len() {
            Some(OverallStatus::new(self.statuses, timestamp))
        } else {
            None
        }
    }

    /// The snapshot of a finished cycle, stamped with the local time of the
    /// call; `None` while targets are still unchecked.
    pub fn finish_now(self) -> (r: Option<OverallStatus>)
        ensures
            match r {
                Some(status) => {
                    &&& self@.finished()
                    &&& status@ == OverallStatusView::aggregate(
                        self@.statuses,
                        status@.last_checked,
                    )
                    &&& is_clock_time(status@.last_checked)
                    &&& status.pipeline_statuses.len() == self@.targets.len()
                },
                None => !self@.finished(),
            },
    {
        if !self.is_finished() {
            return None;
        }
        self.finish(local_time_label())
    }
}

/// The icon and the tooltip of the tray.
#[derive(Debug, PartialEq, Eq)]
pub struct TrayDisplay {
    pub icon: TrayStatus,
    pub tooltip: String,
}

pub struct TrayDisplayView {
    pub icon: TrayStatus,
    pub tooltip: Seq<char>,
}

impl DeepView for TrayDisplay {
    type V = TrayDisplayView;

    open spec fn deep_view(&self) -> TrayDisplayView {
        TrayDisplayView { icon: self.icon, tooltip: self.tooltip@ }
    }
}

impl View for TrayDisplay {
    type V = TrayDisplayView;

    open spec fn view(&self) -> TrayDisplayView {
        self.deep_view()
    }
}

/// The parts, with `separator` between each two neighbours.
pub open spec fn joined(parts: Seq<Seq<char>>, separator: Seq<char>) -> Seq<char>
    decreases parts.len(),
{
    if parts.len() == 0 {
        Seq::empty()
    } else if parts.len() == 1 {
        parts[0]
    } else {
        joined(parts.drop_last(), separator) + separator + parts.last()
    }
}

impl FailedPipelineInfoView {
    /// Workspace and repository, joined by a slash.
    pub open spec fn path(self) -> Seq<char> {
        self.workspace + "/"@ + self.repo_slug
    }
}

/// How many failed pipelines a tooltip names.
pub const TOOLTIP_NAMES: usize = 3;

/// The paths of the first `count` failed pipelines.
pub open spec fn first_paths(failed: Seq<FailedPipelineInfoView>, count: int) -> Seq<Seq<char>> {
    Seq::new(count as nat, |i: int| failed[i].path())
}

impl OverallStatusView {
    /// The tooltip of a healthy snapshot.
    pub open spec fn healthy_tooltip(self) -> Seq<char> {
        let running = if self.in_progress_count > 0 {
            "\n"@ + decimal_digits(self.in_progress_count) + " in progress"@
        } else {
            Seq::empty()
        };
        "cdMenu\n"@ + decimal_digits(self.total_monitored) + " pipeline(s) healthy"@ + running
            + "\nLast checked: "@ + self.last_checked
    }

    /// The tooltip of a snapshot with failures: their number, the first
    /// three by path, and how many more there are.
    pub open spec fn failed_tooltip(self) -> Seq<char> {
        let count = self.failed_pipelines.len();
        let shown = if count > TOOLTIP_NAMES {
            TOOLTIP_NAMES as int
        } else {
            count as int
        };
        let names = joined(first_paths(self.failed_pipelines, shown), ", "@);
        let more = if count > TOOLTIP_NAMES {
            " +"@ + decimal_digits((count - TOOLTIP_NAMES) as nat) + " more"@
        } else {
            Seq::empty()
        };
        "cdMenu\n"@ + decimal_digits(count) + " pipeline(s) FAILED"@ + "\n"@ + names + more
            + "\nLast checked: "@ + self.last_checked
    }

    /// What the tray shows for this snapshot: green while it is healthy,
    /// red otherwise.
    pub open spec fn display(self) -> TrayDisplayView {
        if self.is_healthy {
            TrayDisplayView { icon: TrayStatus::Green, tooltip: self.healthy_tooltip() }
        } else {
            TrayDisplayView { icon: TrayStatus::Red, tooltip: self.failed_tooltip() }
        }
    }
}

fn joined_paths(failed: &Vec<FailedPipelineInfo>, count: usize) -> (r: String)
    requires
        count <= failed.len(),
    ensures
        r@ == joined(first_paths(failed.deep_view(), count as int), ", "@),
{
    let ghost all = failed.deep_view();
    let mut names = String::new();
    let mut i: usize = 0;
    assert(first_paths(all, 0) =~= Seq::empty());
    while i < count
        invariant
            i <= count <= failed.len(),
            all == failed.deep_view(),
            names@ == joined(first_paths(all, i as int), ", "@),
        decreases count - i,
    {
        proof {
            assert(first_paths(all, i + 1).drop_last() =~= first_paths(all, i as int));
            assert(first_paths(all, i + 1).last() == failed[i as int]@.path());
        }
        if i > 0 {
            names.append(", ");
        }
        names.append(failed[i].workspace.as_str());
        names.append("/");
        names.append(failed[i].repo_slug.as_str());
        assert(names@ =~= joined(first_paths(all, i + 1), ", "@));
        i += 1;
    }
    names
}

/// What the tray shows for `status`.
pub fn tray_display(status: &OverallStatus) -> (r: TrayDisplay)
    ensures
        r@ == status@.display(),
{
    let mut tooltip = String::from_str("cdMenu\n");
    if status.is_healthy {
        tooltip.append(decimal(status.total_monitored as u64).as_str());
        tooltip.append(" pipeline(s) healthy");
        if status.in_progress_count > 0 {
            tooltip.append("\n");
            tooltip.append(decimal(status.in_progress_count as u64).as_str());
            tooltip.append(" in progress");
        }
        tooltip.append("\nLast checked: ");
        tooltip.append(status.last_checked.as_str());
        assert(tooltip@ =~= status@.healthy_tooltip());
        TrayDisplay { icon: TrayStatus::Green, tooltip }
    } else {
        let count = status.failed_pipelines.len();
        let shown = if count > TOOLTIP_NAMES {
            TOOLTIP_NAMES
        } else {
            count
        };
        tooltip.append(decimal(count as u64).as_str());
        tooltip.append(" pipeline(s) FAILED");
        tooltip.append("\n");
        tooltip.append(joined_paths(&status.failed_pipelines, shown).as_str());
        if count > TOOLTIP_NAMES {
            tooltip.append(" +");
            tooltip.append(decimal((count - TOOLTIP_NAMES) as u64).as_str());
            tooltip.append(" more");
        }
        tooltip.append("\nLast checked: ");
        tooltip.append(status.last_checked.as_str());
        assert(tooltip@ =~= status@.failed_tooltip());
        TrayDisplay { icon: TrayStatus::Red, tooltip }
    }
}

/// The kinds of notification.
#[derive(Clone, Copy, Debug, PartialEq, Eq, Structural)]
pub enum NotificationKind {
    /// A pipeline that had not failed before has failed.
    Failed,
    /// A pipeline that had failed is healthy again.
    Fixed,
}

/// A message to the user about one monitored pipeline.
#[derive(Debug, PartialEq, Eq)]
pub struct Notification {
    pub kind: NotificationKind,
    pub workspace: String,
    pub repo_slug: String,
    pub title: String,
    pub body: String,
    pub link: Option<String>,
}

pub struct NotificationView {
    pub kind: NotificationKind,
    pub workspace: Seq<char>,
    pub repo_slug: Seq<char>,
    pub title: Seq<char>,
    pub body: Seq<char>,
    pub link: Option<Seq<char>>,
}

impl DeepView for Notification {
    type V = NotificationView;

    open spec fn deep_view(&self) -> NotificationView {
        NotificationView {
            kind: self.kind,
            workspace: self.workspace@,
            repo_slug: self.repo_slug@,
            title: self.title@,
            body: self.body@,
            link: self.link.deep_view(),
        }
    }
}

impl View for Notification {
    type V = NotificationView;

    open spec fn view(&self) -> NotificationView {
        self.deep_view()
    }
}

/// The notification that a change of class calls for: `Failed` when a
/// pipeline that had not failed fails, `Fixed` when a failed one becomes
/// healthy, and none otherwise.
pub open spec fn transition_kind(was: PipelineState, now: PipelineState) -> Option<
    NotificationKind,
> {
    if was != PipelineState::Failed && now == PipelineState::Failed {
        Some(NotificationKind::Failed)
    } else if was == PipelineState::Failed && now == PipelineState::Healthy {
        Some(NotificationKind::Fixed)
    } else {
        None
    }
}

impl PipelineStatusInfoView {
    /// Both entries are about the same repository of the same workspace.
    pub open spec fn same_target(self, other: PipelineStatusInfoView) -> bool {
        self.workspace == other.workspace && self.repo_slug == other.repo_slug
    }

    /// The name shown for the repository: its display name, or its slug
    /// where it has none.
    pub open spec fn display_name(self) -> Seq<char> {
        if self.repo_name.len() == 0 {
            self.repo_slug
        } else {
            self.repo_name
        }
    }

    /// The notification of `kind` about this entry.
    pub open spec fn notification(self, kind: NotificationKind) -> NotificationView {
        NotificationView {
            kind,
            workspace: self.workspace,
            repo_slug: self.repo_slug,
            title: match kind {
                NotificationKind::Failed => "Pipeline Failed"@,
                NotificationKind::Fixed => "Pipeline Fixed"@,
            },
            body: self.display_name() + (match kind {
                NotificationKind::Failed => " has failed"@,
                NotificationKind::Fixed => " is now healthy"@,
            }) + (match self.pipeline_url {
                Some(url) => "\n"@ + url,
                None => Seq::empty(),
            }),
            link: self.pipeline_url,
        }
    }
}

/// The first entry of `previous` that is about the same target as `entry`.
pub open spec fn previous_entry(
    previous: Seq<PipelineStatusInfoView>,
    entry: PipelineStatusInfoView,
) -> Option<PipelineStatusInfoView>
    decreases previous.len(),
{
    if previous.len() == 0 {
        None
    } else if previous.first().same_target(entry) {
        Some(previous.first())
    } else {
        previous_entry(previous.drop_first(), entry)
    }
}

/// The notification that `entry` calls for, given the entries of the poll
/// before: none where the target was not polled before.
pub open spec fn transition(
    previous: Seq<PipelineStatusInfoView>,
    entry: PipelineStatusInfoView,
) -> Option<NotificationView> {
    match previous_entry(previous, entry) {
        Some(old) => match transition_kind(old.state, entry.state) {
            Some(kind) => Some(entry.notification(kind)),
            None => None,
        },
        None => None,
    }
}

/// Maps an entry to its notification, for use with `Seq::filter_map`.
pub open spec fn transition_from(previous: Seq<PipelineStatusInfoView>) -> spec_fn(
    PipelineStatusInfoView,
) -> Option<NotificationView> {
    |entry: PipelineStatusInfoView| transition(previous, entry)
}

/// The notifications that a new snapshot calls for, in the order of its
/// entries. The first snapshot notifies nobody.
pub open spec fn notifications(
    previous: Option<OverallStatusView>,
    current: OverallStatusView,
) -> Seq<NotificationView> {
    match previous {
        Some(old) => current.pipeline_statuses.filter_map(transition_from(old.pipeline_statuses)),
        None => Seq::empty(),
    }
}

/// Whether what is displayed differs between two snapshots: the health
/// flag, the number of entries, or the class of some entry. Timestamps,
/// reasons and links do not count.
pub open spec fn display_changed(
    previous: Option<OverallStatusView>,
    current: OverallStatusView,
) -> bool {
    match previous {
        Some(old) => {
            ||| old.is_healthy != current.is_healthy
            ||| old.pipeline_statuses.len() != current.pipeline_statuses.len()
            ||| exists|i: int|
                0 <= i < old.pipeline_statuses.len() && (#[trigger] old.pipeline_statuses[i]).state
                    != current.pipeline_statuses[i].state
        },
        None => true,
    }
}

/// Two snapshots aggregated from entries with the same classes, position
/// by position, display the same, whatever their timestamps, reasons and
/// links are.
pub proof fn lemma_same_classes_display_unchanged(
    before: Seq<PipelineStatusInfoView>,
    before_timestamp: Seq<char>,
    after: Seq<PipelineStatusInfoView>,
    after_timestamp: Seq<char>,
)
    requires
        before.len() == after.len(),
        forall|i: int| 0 <= i < before.len() ==> before[i].state == after[i].state,
    ensures
        !display_changed(
            Some(OverallStatusView::aggregate(before, before_timestamp)),
            OverallStatusView::aggregate(after, after_timestamp),
        ),
{
    lemma_healthy_iff_no_failure(before, before_timestamp);
    lemma_healthy_iff_no_failure(after, after_timestamp);
}

/// A target's change of class notifies at most once: a new failure gives
/// `Failed`, a recovery to healthy gives `Fixed`, and a failure that
/// persists or turns into anything but healthy gives nothing.
pub proof fn lemma_transition_kinds(was: PipelineState, now: PipelineState)
    ensures
        transition_kind(was, now) == Some(NotificationKind::Failed) <==> (was
            != PipelineState::Failed && now == PipelineState::Failed),
        transition_kind(was, now) == Some(NotificationKind::Fixed) <==> (was
            == PipelineState::Failed && now == PipelineState::Healthy),
        was == PipelineState::Failed && now != PipelineState::Healthy ==> transition_kind(was, now)
            is None,
{
}

fn find_previous<'a>(
    previous: &'a Vec<PipelineStatusInfo>,
    entry: &PipelineStatusInfo,
) -> (r: Option<&'a PipelineStatusInfo>)
    ensures
        r.deep_view() == previous_entry(previous.deep_view(), entry@),
{
    let ghost all = previous.deep_view();
    let mut i: usize = 0;
    assert(all.skip(0) =~= all);
    while i < previous.len()
        invariant
            i <= previous.len(),
            all == previous.deep_view(),
            previous_entry(all, entry@) == previous_entry(all.skip(i as int), entry@),
        decreases previous.len() - i,
    {
        proof {
            assert(all.skip(i as int).first() == previous[i as int]@);
            assert(all.skip(i as int).drop_first() =~= all.skip(i + 1));
        }
        let old = &previous[i];
        if str_eq(old.workspace.as_str(), entry.workspace.as_str()) && str_eq(
            old.repo_slug.as_str(),
            entry.repo_slug.as_str(),
        ) {
            return Some(old);
        }
        i += 1;
    }
    None
}

/// The notification of `kind` about `entry`.
pub fn notification_for(entry: &PipelineStatusInfo, kind: NotificationKind) -> (r: Notification)
    ensures
        r@ == entry@.notification(kind),
{
    let mut body = if entry.repo_name.as_str().is_empty() {
        entry.repo_slug.clone()
    } else {
        entry.repo_name.clone()
    };
    let title = match kind {
        NotificationKind::Failed => {
            body.append(" has failed");
            String::from_str("Pipeline Failed")
        },
        NotificationKind::Fixed => {
            body.append(" is now healthy");
            String::from_str("Pipeline Fixed")
        },
    };
    match &entry.pipeline_url {
        Some(url) => {
            body.append("\n");
            body.append(url.as_str());
        },
        None => {},
    }
    assert(body@ =~= entry@.notification(kind).body);
    Notification {
        kind,
        workspace: entry.workspace.clone(),
        repo_slug: entry.repo_slug.clone(),
        title,
        body,
        link: entry.pipeline_url.clone(),
    }
}

/// The notification that a change of class calls for.
pub fn notification_kind(was: PipelineState, now: PipelineState) -> (r: Option<NotificationKind>)
    ensures
        r == transition_kind(was, now),
{
    if was != PipelineState::Failed && now == PipelineState::Failed {
        Some(NotificationKind::Failed)
    } else if was == PipelineState::Failed && now == PipelineState::Healthy {
        Some(NotificationKind::Fixed)
    } else {
        None
    }
}

/// The notifications that the snapshot `current` calls for after
/// `previous`.
pub fn notifications_for(
    previous: Option<&OverallStatus>,
    current: &OverallStatus,
) -> (r: Vec<Notification>)
    ensures
        r.deep_view() == notifications(previous.deep_view(), current@),
{
    let mut out: Vec<Notification> = Vec::new();
    match previous {
        Some(old) => {
            let ghost f = transition_from(old@.pipeline_statuses);
            let ghost all = current@.pipeline_statuses;
            let mut i: usize = 0;
            assert(out.deep_view() =~= all.take(0).filter_map(f));
            while i < current.pipeline_statuses.len()
                invariant
                    i <= current.pipeline_statuses.len(),
                    all == current.pipeline_statuses.deep_view(),
                    f == transition_from(old@.pipeline_statuses),
                    out.deep_view() == all.take(i as int).filter_map(f),
                decreases current.pipeline_statuses.len() - i,
            {
                let entry = &current.pipeline_statuses[i];
                let ghost before = out.deep_view();
                proof {
                    all.lemma_filter_map_take_succ(f, i as int);
                    assert(all[i as int] == entry@);
                }
                match find_previous(&old.pipeline_statuses, entry) {
                    Some(was) => match notification_kind(was.state, entry.state) {
                        Some(kind) => {
                            let n = notification_for(entry, kind);
                            out.push(n);
                            assert(out.deep_view() =~= before + seq![n@]);
                        },
                        None => {},
                    },
                    None => {},
                }
                i += 1;
            }
            assert(all.take(i as int) =~= all);
            out
        },
        None => {
            assert(out.deep_view() =~= Seq::empty());
            out
        },
    }
}

/// Whether the menu has to be rebuilt for `current` after `previous`.
pub fn status_changed(previous: Option<&OverallStatus>, current: &OverallStatus) -> (r: bool)
    ensures
        r == display_changed(previous.deep_view(), current@),
{
    match previous {
        Some(old) => {
            if old.is_healthy != current.is_healthy {
                return true;
            }
            if old.pipeline_statuses.len() != current.pipeline_statuses.len() {
                return true;
            }
            let mut i: usize = 0;
            while i < old.pipeline_statuses.len()
                invariant
                    i <= old.pipeline_statuses.len(),
                    previous == Some(old),
                    old.is_healthy == current.is_healthy,
                    old.pipeline_statuses.len() == current.pipeline_statuses.len(),
                    forall|j: int|
                        0 <= j < i ==> (#[trigger] old@.pipeline_statuses[j]).state
                            == current@.pipeline_statuses[j].state,
                decreases old.pipeline_statuses.len() - i,
            {
                if old.pipeline_statuses[i].state != current.pipeline_statuses[i].state {
                    assert(old@.pipeline_statuses[i as int].state
                        != current@.pipeline_statuses[i as int].state);
                    return true;
                }
                i += 1;
            }
            false
        },
        None => true,
    }
}

/// What a finished cycle hands to its surroundings.
#[derive(Debug, PartialEq, Eq)]
pub struct CycleReport {
    /// The icon and the tooltip of the tray.
    pub display: TrayDisplay,
    /// The messages to show, in the order of the snapshot's entries.
    pub notifications: Vec<Notification>,
    /// Whether the menu has to be rebuilt. The snapshot itself is stored
    /// and published after every cycle, changed or not.
    pub refresh_menu: bool,
}

pub struct CycleReportView {
    pub display: TrayDisplayView,
    pub notifications: Seq<NotificationView>,
    pub refresh_menu: bool,
}

impl DeepView for CycleReport {
    type V = CycleReportView;

    open spec fn deep_view(&self) -> CycleReportView {
        CycleReportView {
            display: self.display@,
            notifications: self.notifications.deep_view(),
            refresh_menu: self.refresh_menu,
        }
    }
}

impl View for CycleReport {
    type V = CycleReportView;

    open spec fn view(&self) -> CycleReportView {
        self.deep_view()
    }
}

impl AppStateView {
    /// The report of a cycle that ended with `status`.
    pub open spec fn report(self, status: OverallStatusView) -> CycleReportView {
        CycleReportView {
            display: status.display(),
            notifications: notifications(self.last_status, status),
            refresh_menu: display_changed(self.last_status, status),
        }
    }

    /// The state once `status` has replaced the stored snapshot.
    pub open spec fn with_status(self, status: OverallStatusView) -> AppStateView {
        AppStateView {
            credentials: self.credentials,
            monitored_pipelines: self.monitored_pipelines,
            polling_interval_seconds: self.polling_interval_seconds,
            last_status: Some(status),
        }
    }
}

/// Ends a cycle: compares `status` with the stored snapshot, then stores
/// it in its place. The stored snapshot is replaced whether or not the
/// display changed.
pub fn reconcile(state: &mut AppState, status: OverallStatus) -> (r: CycleReport)
    ensures
        r@ == old(state)@.report(status@),
        final(state)@ == old(state)@.with_status(status@),
{
    let display = tray_display(&status);
    let (notifications, refresh_menu) = match &state.last_status {
        Some(previous) => (
            notifications_for(Some(previous), &status),
            status_changed(Some(previous), &status),
        ),
        None => (notifications_for(None, &status), status_changed(None, &status)),
    };
    state.last_status = Some(status);
    CycleReport { display, notifications, refresh_menu }
}

/// Reconciling a snapshot with the classes of the stored one leaves the
/// menu alone, yet the snapshot is stored all the same.
pub proof fn lemma_unchanged_cycle_still_stores(
    state: AppStateView,
    before: Seq<PipelineStatusInfoView>,
    before_timestamp: Seq<char>,
    after: Seq<PipelineStatusInfoView>,
    after_timestamp: Seq<char>,
)
    requires
        state.last_status == Some(OverallStatusView::aggregate(before, before_timestamp)),
        before.len() == after.len(),
        forall|i: int| 0 <= i < before.len() ==> before[i].state == after[i].state,
    ensures
        !state.report(OverallStatusView::aggregate(after, after_timestamp)).refresh_menu,
        state.with_status(OverallStatusView::aggregate(after, after_timestamp)).last_status
            == Some(OverallStatusView::aggregate(after, after_timestamp)),
{
    lemma_same_classes_display_unchanged(before, before_timestamp, after, after_timestamp);
}

/// How a cycle begins.
#[derive(Debug, PartialEq, Eq)]
pub enum CycleStart {
    /// Nothing to check: show this and make no request.
    Idle(TrayDisplay),
    /// Check `targets` as `username`.
    Check { username: String, targets: Vec<MonitoredPipeline> },
}

pub enum CycleStartView {
    Idle(TrayDisplayView),
    Check { username: Seq<char>, targets: Seq<MonitoredPipelineView> },
}

impl DeepView for CycleStart {
    type V = CycleStartView;

    open spec fn deep_view(&self) -> CycleStartView {
        match self {
            CycleStart::Idle(display) => CycleStartView::Idle(display@),
            CycleStart::Check { username, targets } => CycleStartView::Check {
                username: username@,
                targets: targets.deep_view(),
            },
        }
    }
}

impl View for CycleStart {
    type V = CycleStartView;

    open spec fn view(&self) -> CycleStartView {
        self.deep_view()
    }
}

/// A gray tray with `tooltip`.
pub open spec fn idle_display(tooltip: Seq<char>) -> TrayDisplayView {
    TrayDisplayView { icon: TrayStatus::Gray, tooltip }
}

impl AppStateView {
    /// How a cycle begins in this state: idle while no account is
    /// configured or no pipeline is selected, else a check of every
    /// monitored pipeline.
    pub open spec fn cycle_start(self) -> CycleStartView {
        match self.credentials {
            None => CycleStartView::Idle(idle_display("cdMenu - Not configured"@)),
            Some(credentials) => if self.monitored_pipelines.len() == 0 {
                CycleStartView::Idle(idle_display("cdMenu - No pipelines selected"@))
            } else {
                CycleStartView::Check {
                    username: credentials.username,
                    targets: self.monitored_pipelines,
                }
            },
        }
    }
}

/// How a cycle begins in `state`.
pub fn start_cycle(state: &AppState) -> (r: CycleStart)
    ensures
        r@ == state@.cycle_start(),
{
    match &state.credentials {
        None => CycleStart::Idle(
            TrayDisplay {
                icon: TrayStatus::Gray,
                tooltip: String::from_str("cdMenu - Not configured"),
            },
        ),
        Some(credentials) => {
            if state.monitored_pipelines.len() == 0 {
                CycleStart::Idle(
                    TrayDisplay {
                        icon: TrayStatus::Gray,
                        tooltip: String::from_str("cdMenu - No pipelines selected"),
                    },
                )
            } else {
                let targets = state.monitored_pipelines.clone();
                assert(targets.deep_view() =~= state.monitored_pipelines.deep_view());
                CycleStart::Check { username: credentials.username.clone(), targets }
            }
        },
    }
}

/// The app password of a cycle, or what the tray shows while none is
/// stored.
pub fn require_password(app_password: Option<String>) -> (r: Result<String, TrayDisplay>)
    ensures
        match app_password {
            Some(password) => r == Ok::<String, TrayDisplay>(password),
            None => r is Err && r->Err_0@ == idle_display("cdMenu - Auth required"@),
        },
{
    match app_password {
        Some(password) => Ok(password),
        None => Err(
            TrayDisplay {
                icon: TrayStatus::Gray,
                tooltip: String::from_str("cdMenu - Auth required"),
            },
        ),
    }
}

/// Seconds between the start of the loop and its first cycle.
pub const STARTUP_DELAY_SECONDS: u64 = 2;

/// The seconds to wait before the next cycle: the interval configured at
/// this moment, which may have changed since the last cycle.
pub fn next_interval(state: &AppState) -> (r: u64)
    ensures
        r == state.polling_interval_seconds,
{
    state.polling_interval_seconds
}

} // verus!
