//! Records returned by the API, their mathematical views and the
//! predicates that read a pipeline's state.

use crate::outside::{to_uppercase, uppercase_of};
use crate::text::{contains, has_substring, str_eq};
use vstd::prelude::*;

verus! {

/// One page of a listing. Only `values` is consumed; further pages are not
/// followed.
#[derive(Debug)]
pub struct PaginatedResponse<T> {
    pub values: Vec<T>,
    pub page: Option<u32>,
    pub size: Option<u32>,
    pub next: Option<String>,
}

impl<T> PaginatedResponse<T> {
    /// The records of this page, in server order.
    pub fn into_values(self) -> (r: Vec<T>)
        ensures
            r == self.values,
    {
        self.values
    }
}

/// A workspace the authenticated user can see.
#[derive(Debug, PartialEq, Eq)]
pub struct Workspace {
    pub uuid: String,
    pub slug: String,
    pub name: String,
}

/// A project within a workspace.
#[derive(Debug, PartialEq, Eq)]
pub struct Project {
    pub uuid: String,
    pub key: String,
    pub name: String,
}

/// A repository within a workspace.
#[derive(Debug, PartialEq, Eq)]
pub struct Repository {
    pub uuid: String,
    pub slug: String,
    pub name: String,
    pub full_name: String,
    pub project: Option<Project>,
}

/// One run of a repository's pipeline.
#[derive(Debug, PartialEq, Eq)]
pub struct Pipeline {
    pub uuid: String,
    pub build_number: u32,
    pub state: PipelineState,
    pub target: PipelineTarget,
    pub created_on: String,
    pub completed_on: Option<String>,
}

/// The state of a pipeline as the API reports it.
#[derive(Debug, PartialEq, Eq)]
pub struct PipelineState {
    /// `PENDING`, `IN_PROGRESS` or `COMPLETED`.
    pub name: String,
    /// Fine-grained state, such as `pipeline_state_in_progress_paused`.
    pub state_type: Option<String>,
    pub result: Option<PipelineResult>,
    /// Present while the pipeline waits for a manual step.
    pub stage: Option<PipelineStage>,
}

/// The stage a paused pipeline is waiting at.
#[derive(Debug, PartialEq, Eq)]
pub struct PipelineStage {
    pub name: Option<String>,
    pub stage_type: Option<String>,
}

/// The result of a completed pipeline.
#[derive(Debug, PartialEq, Eq)]
pub struct PipelineResult {
    /// `SUCCESSFUL`, `FAILED`, `STOPPED`, `EXPIRED` or `ERROR`.
    pub name: String,
}

/// The branch or tag a pipeline ran against.
#[derive(Debug, PartialEq, Eq)]
pub struct PipelineTarget {
    pub ref_type: Option<String>,
    pub ref_name: Option<String>,
}

/// One step of a pipeline.
#[derive(Debug, PartialEq, Eq)]
pub struct PipelineStep {
    pub uuid: String,
    pub name: Option<String>,
    pub state: Option<StepState>,
}

/// The state of a pipeline step.
#[derive(Debug, PartialEq, Eq)]
pub struct StepState {
    pub name: Option<String>,
    pub state_type: Option<String>,
}

pub struct WorkspaceView {
    pub uuid: Seq<char>,
    pub slug: Seq<char>,
    pub name: Seq<char>,
}

pub struct ProjectView {
    pub uuid: Seq<char>,
    pub key: Seq<char>,
    pub name: Seq<char>,
}

pub struct RepositoryView {
    pub uuid: Seq<char>,
    pub slug: Seq<char>,
    pub name: Seq<char>,
    pub full_name: Seq<char>,
    pub project: Option<ProjectView>,
}

pub struct PipelineView {
    pub uuid: Seq<char>,
    pub build_number: u32,
    pub state: PipelineStateView,
    pub target: PipelineTargetView,
    pub created_on: Seq<char>,
    pub completed_on: Option<Seq<char>>,
}

pub struct PipelineStateView {
    pub name: Seq<char>,
    pub state_type: Option<Seq<char>>,
    pub result: Option<PipelineResultView>,
    pub stage: Option<PipelineStageView>,
}

pub struct PipelineStageView {
    pub name: Option<Seq<char>>,
    pub stage_type: Option<Seq<char>>,
}

pub struct PipelineResultView {
    pub name: Seq<char>,
}

pub struct PipelineTargetView {
    pub ref_type: Option<Seq<char>>,
    pub ref_name: Option<Seq<char>>,
}

pub struct PipelineStepView {
    pub uuid: Seq<char>,
    pub name: Option<Seq<char>>,
    pub state: Option<StepStateView>,
}

pub struct StepStateView {
    pub name: Option<Seq<char>>,
    pub state_type: Option<Seq<char>>,
}

impl DeepView for Workspace {
    type V = WorkspaceView;

    open spec fn deep_view(&self) -> WorkspaceView {
        WorkspaceView { uuid: self.uuid@, slug: self.slug@, name: self.name@ }
    }
}

impl View for Workspace {
    type V = WorkspaceView;

    open spec fn view(&self) -> WorkspaceView {
        self.deep_view()
    }
}

impl DeepView for Project {
    type V = ProjectView;

    open spec fn deep_view(&self) -> ProjectView {
        ProjectView { uuid: self.uuid@, key: self.key@, name: self.name@ }
    }
}

impl View for Project {
    type V = ProjectView;

    open spec fn view(&self) -> ProjectView {
        self.deep_view()
    }
}

impl DeepView for Repository {
    type V = RepositoryView;

    open spec fn deep_view(&self) -> RepositoryView {
        RepositoryView {
            uuid: self.uuid@,
            slug: self.slug@,
            name: self.name@,
            full_name: self.full_name@,
            project: self.project.deep_view(),
        }
    }
}

impl View for Repository {
    type V = RepositoryView;

    open spec fn view(&self) -> RepositoryView {
        self.deep_view()
    }
}

impl DeepView for PipelineResult {
    type V = PipelineResultView;

    open spec fn deep_view(&self) -> PipelineResultView {
        PipelineResultView { name: self.name@ }
    }
}

impl View for PipelineResult {
    type V = PipelineResultView;

    open spec fn view(&self) -> PipelineResultView {
        self.deep_view()
    }
}

impl DeepView for PipelineStage {
    type V = PipelineStageView;

    open spec fn deep_view(&self) -> PipelineStageView {
        PipelineStageView {
            name: self.name.deep_view(),
            stage_type: self.stage_type.deep_view(),
        }
    }
}

impl View for PipelineStage {
    type V = PipelineStageView;

    open spec fn view(&self) -> PipelineStageView {
        self.deep_view()
    }
}

impl DeepView for PipelineState {
    type V = PipelineStateView;

    open spec fn deep_view(&self) -> PipelineStateView {
        PipelineStateView {
            name: self.name@,
            state_type: self.state_type.deep_view(),
            result: self.result.deep_view(),
            stage: self.stage.deep_view(),
        }
    }
}

impl View for PipelineState {
    type V = PipelineStateView;

    open spec fn view(&self) -> PipelineStateView {
        self.deep_view()
    }
}

impl DeepView for PipelineTarget {
    type V = PipelineTargetView;

    open spec fn deep_view(&self) -> PipelineTargetView {
        PipelineTargetView {
            ref_type: self.ref_type.deep_view(),
            ref_name: self.ref_name.deep_view(),
        }
    }
}

impl View for PipelineTarget {
    type V = PipelineTargetView;

    open spec fn view(&self) -> PipelineTargetView {
        self.deep_view()
    }
}

impl DeepView for Pipeline {
    type V = PipelineView;

    open spec fn deep_view(&self) -> PipelineView {
        PipelineView {
            uuid: self.uuid@,
            build_number: self.build_number,
            state: self.state.deep_view(),
            target: self.target.deep_view(),
            created_on: self.created_on@,
            completed_on: self.completed_on.deep_view(),
        }
    }
}

impl View for Pipeline {
    type V = PipelineView;

    open spec fn view(&self) -> PipelineView {
        self.deep_view()
    }
}

impl DeepView for StepState {
    type V = StepStateView;

    open spec fn deep_view(&self) -> StepStateView {
        StepStateView {
            name: self.name.deep_view(),
            state_type: self.state_type.deep_view(),
        }
    }
}

impl View for StepState {
    type V = StepStateView;

    open spec fn view(&self) -> StepStateView {
        self.deep_view()
    }
}

impl DeepView for PipelineStep {
    type V = PipelineStepView;

    open spec fn deep_view(&self) -> PipelineStepView {
        PipelineStepView {
            uuid: self.uuid@,
            name: self.name.deep_view(),
            state: self.state.deep_view(),
        }
    }
}

impl View for PipelineStep {
    type V = PipelineStepView;

    open spec fn view(&self) -> PipelineStepView {
        self.deep_view()
    }
}

impl Clone for Workspace {
    fn clone(&self) -> (r: Self)
        ensures
            r == *self,
    {
        Workspace { uuid: self.uuid.clone(), slug: self.slug.clone(), name: self.name.clone() }
    }
}

impl Clone for Project {
    fn clone(&self) -> (r: Self)
        ensures
            r == *self,
    {
        Project { uuid: self.uuid.clone(), key: self.key.clone(), name: self.name.clone() }
    }
}

impl Clone for Repository {
    fn clone(&self) -> (r: Self)
        ensures
            r == *self,
    {
        Repository {
            uuid: self.uuid.clone(),
            slug: self.slug.clone(),
            name: self.name.clone(),
            full_name: self.full_name.clone(),
            project: self.project.clone(),
        }
    }
}

impl Clone for PipelineResult {
    fn clone(&self) -> (r: Self)
        ensures
            r == *self,
    {
        PipelineResult { name: self.name.clone() }
    }
}

impl Clone for PipelineStage {
    fn clone(&self) -> (r: Self)
        ensures
            r == *self,
    {
        PipelineStage { name: self.name.clone(), stage_type: self.stage_type.clone() }
    }
}

impl Clone for PipelineState {
    fn clone(&self) -> (r: Self)
        ensures
            r == *self,
    {
        PipelineState {
            name: self.name.clone(),
            state_type: self.state_type.clone(),
            result: self.result.clone(),
            stage: self.stage.clone(),
        }
    }
}

impl Clone for PipelineTarget {
    fn clone(&self) -> (r: Self)
        ensures
            r == *self,
    {
        PipelineTarget { ref_type: self.ref_type.clone(), ref_name: self.ref_name.clone() }
    }
}

impl Clone for Pipeline {
    fn clone(&self) -> (r: Self)
        ensures
            r == *self,
    {
        Pipeline {
            uuid: self.uuid.clone(),
            build_number: self.build_number,
            state: self.state.clone(),
            target: self.target.clone(),
            created_on: self.created_on.clone(),
            completed_on: self.completed_on.clone(),
        }
    }
}

impl Clone for StepState {
    fn clone(&self) -> (r: Self)
        ensures
            r == *self,
    {
        StepState { name: self.name.clone(), state_type: self.state_type.clone() }
    }
}

impl Clone for PipelineStep {
    fn clone(&self) -> (r: Self)
        ensures
            r == *self,
    {
        PipelineStep {
            uuid: self.uuid.clone(),
            name: self.name.clone(),
            state: self.state.clone(),
        }
    }
}

/// The pause signal of a pipeline state: its fine-grained type mentions
/// `paused`, or its stage name, once upper-cased, reads `PAUSED`.
pub open spec fn pause_signal(state_type: Option<Seq<char>>, upper_stage_name: Option<Seq<char>>) -> bool {
    ||| state_type matches Some(t) && has_substring(t, "paused"@)
    ||| upper_stage_name == Some("PAUSED"@)
}

impl PipelineStateView {
    /// The stage name in upper case, where the state names a stage.
    pub open spec fn upper_stage_name(self) -> Option<Seq<char>> {
        match self.stage {
            Some(stage) => match stage.name {
                Some(name) => Some(uppercase_of(name)),
                None => None,
            },
            None => None,
        }
    }
}

impl PipelineView {
    /// A result is present and it is `FAILED`, `ERROR` or `EXPIRED`.
    pub open spec fn failed(self) -> bool {
        self.state.result matches Some(r) && (r.name == "FAILED"@ || r.name == "ERROR"@ || r.name
            == "EXPIRED"@)
    }

    /// A result is present and it is `SUCCESSFUL`.
    pub open spec fn successful(self) -> bool {
        self.state.result matches Some(r) && r.name == "SUCCESSFUL"@
    }

    /// The pipeline waits for a manual step.
    pub open spec fn paused(self) -> bool {
        pause_signal(self.state.state_type, self.state.upper_stage_name())
    }

    /// The pipeline is pending or running, and not paused.
    pub open spec fn in_progress(self) -> bool {
        (self.state.name == "IN_PROGRESS"@ || self.state.name == "PENDING"@) && !self.paused()
    }
}

impl PipelineStepView {
    /// The step's state is named `PENDING`, or its fine-grained type
    /// mentions `pending`.
    pub open spec fn pending(self) -> bool {
        self.state matches Some(state) && {
            ||| state.name == Some("PENDING"@)
            ||| state.state_type matches Some(t) && has_substring(t, "pending"@)
        }
    }
}

impl PipelineStep {
    /// Whether this step waits to be started.
    pub fn is_pending(&self) -> (r: bool)
        ensures
            r == self@.pending(),
    {
        match &self.state {
            Some(state) => {
                let named = match &state.name {
                    Some(name) => str_eq(name.as_str(), "PENDING"),
                    None => false,
                };
                named || match &state.state_type {
                    Some(state_type) => contains(state_type.as_str(), "pending"),
                    None => false,
                }
            },
            None => false,
        }
    }
}

impl PipelineState {
    /// The pause signal of this state, given its stage name in upper case
    /// (`None` where it names no stage).
    pub fn is_paused_given(&self, upper_stage_name: Option<&str>) -> (r: bool)
        ensures
            r == pause_signal(self@.state_type, upper_stage_name.deep_view()),
    {
        let by_type = match &self.state_type {
            Some(state_type) => contains(state_type.as_str(), "paused"),
            None => false,
        };
        by_type || match upper_stage_name {
            Some(name) => str_eq(name, "PAUSED"),
            None => false,
        }
    }
}

impl Pipeline {
    /// Whether the pipeline ended in failure.
    pub fn is_failed(&self) -> (r: bool)
        ensures
            r == self@.failed(),
    {
        match &self.state.result {
            Some(result) => {
                let name = result.name.as_str();
                str_eq(name, "FAILED") || str_eq(name, "ERROR") || str_eq(name, "EXPIRED")
            },
            None => false,
        }
    }

    /// Whether the pipeline completed successfully.
    pub fn is_successful(&self) -> (r: bool)
        ensures
            r == self@.successful(),
    {
        match &self.state.result {
            Some(result) => str_eq(result.name.as_str(), "SUCCESSFUL"),
            None => false,
        }
    }

    /// Whether the pipeline waits for a manual step.
    pub fn is_paused(&self) -> (r: bool)
        ensures
            r == self@.paused(),
    {
        match &self.state.stage {
            Some(stage) => match &stage.name {
                Some(name) => {
                    let upper = to_uppercase(name.as_str());
                    self.state.is_paused_given(Some(upper.as_str()))
                },
                None => self.state.is_paused_given(None),
            },
            None => self.state.is_paused_given(None),
        }
    }

    /// Whether the pipeline is pending or running, and not paused.
    pub fn is_in_progress(&self) -> (r: bool)
        ensures
            r == self@.in_progress(),
    {
        let name = self.state.name.as_str();
        let in_progress = str_eq(name, "IN_PROGRESS") || str_eq(name, "PENDING");
        in_progress && !self.is_paused()
    }

    /// The branch or tag name, where the target has one.
    pub fn branch(&self) -> (r: Option<&str>)
        ensures
            r.deep_view() == self@.target.ref_name,
    {
        match &self.target.ref_name {
            Some(name) => Some(name.as_str()),
            None => None,
        }
    }
}

} // verus!
