//! What the user configured, what one poll found, and the snapshot that
//! aggregates a whole poll.

use vstd::prelude::*;
use vstd::string::*;

verus! {

/// The shortest polling interval that is accepted, in seconds.
pub const MIN_POLLING_INTERVAL_SECONDS: u64 = 30;

/// The polling interval of a fresh configuration, in seconds.
pub const DEFAULT_POLLING_INTERVAL_SECONDS: u64 = 60;

/// State shared by the polling loop and the configuration commands.
#[derive(Debug)]
pub struct AppState {
    pub credentials: Option<Credentials>,
    pub monitored_pipelines: Vec<MonitoredPipeline>,
    pub polling_interval_seconds: u64,
    pub last_status: Option<OverallStatus>,
}

/// The account that requests are made for. The password is kept elsewhere.
#[derive(Debug, PartialEq, Eq)]
pub struct Credentials {
    pub username: String,
}

/// A repository, and optionally one branch of it, that the user watches.
#[derive(Debug, PartialEq, Eq, Hash)]
pub struct MonitoredPipeline {
    pub workspace: String,
    pub project_key: Option<String>,
    pub project_name: Option<String>,
    pub repo_slug: String,
    pub repo_name: String,
    /// Watch only this branch.
    pub branch: Option<String>,
}

/// The health classes of a monitored pipeline.
#[derive(Clone, Copy, Debug, PartialEq, Eq, Structural)]
pub enum PipelineState {
    Healthy,
    Failed,
    InProgress,
    Paused,
    Unknown,
}

/// What one poll found for one monitored pipeline.
#[derive(Debug, PartialEq, Eq)]
pub struct PipelineStatusInfo {
    pub workspace: String,
    pub project_key: Option<String>,
    pub project_name: Option<String>,
    pub repo_slug: String,
    pub repo_name: String,
    pub state: PipelineState,
    pub failure_reason: Option<String>,
    pub pipeline_url: Option<String>,
    /// The step a paused pipeline waits at.
    pub stage_name: Option<String>,
}

/// The snapshot of one poll over all monitored pipelines.
#[derive(Debug, PartialEq, Eq)]
pub struct OverallStatus {
    pub is_healthy: bool,
    pub failed_pipelines: Vec<FailedPipelineInfo>,
    pub pipeline_statuses: Vec<PipelineStatusInfo>,
    pub in_progress_count: usize,
    pub total_monitored: usize,
    pub last_checked: String,
}

/// The summary of a failed pipeline.
#[derive(Debug, PartialEq, Eq)]
pub struct FailedPipelineInfo {
    pub workspace: String,
    pub repo_slug: String,
    pub repo_name: String,
    pub branch: Option<String>,
    pub build_number: u32,
    pub failure_reason: String,
}

/// The part of the state that is written to disk.
#[derive(Debug, PartialEq, Eq)]
pub struct PersistedConfig {
    pub username: Option<String>,
    pub monitored_pipelines: Vec<MonitoredPipeline>,
    pub polling_interval_seconds: u64,
}

pub struct CredentialsView {
    pub username: Seq<char>,
}

pub struct MonitoredPipelineView {
    pub workspace: Seq<char>,
    pub project_key: Option<Seq<char>>,
    pub project_name: Option<Seq<char>>,
    pub repo_slug: Seq<char>,
    pub repo_name: Seq<char>,
    pub branch: Option<Seq<char>>,
}

pub struct PipelineStatusInfoView {
    pub workspace: Seq<char>,
    pub project_key: Option<Seq<char>>,
    pub project_name: Option<Seq<char>>,
    pub repo_slug: Seq<char>,
    pub repo_name: Seq<char>,
    pub state: PipelineState,
    pub failure_reason: Option<Seq<char>>,
    pub pipeline_url: Option<Seq<char>>,
    pub stage_name: Option<Seq<char>>,
}

pub struct FailedPipelineInfoView {
    pub workspace: Seq<char>,
    pub repo_slug: Seq<char>,
    pub repo_name: Seq<char>,
    pub branch: Option<Seq<char>>,
    pub build_number: u32,
    pub failure_reason: Seq<char>,
}

pub struct OverallStatusView {
    pub is_healthy: bool,
    pub failed_pipelines: Seq<FailedPipelineInfoView>,
    pub pipeline_statuses: Seq<PipelineStatusInfoView>,
    pub in_progress_count: nat,
    pub total_monitored: nat,
    pub last_checked: Seq<char>,
}

pub struct PersistedConfigView {
    pub username: Option<Seq<char>>,
    pub monitored_pipelines: Seq<MonitoredPipelineView>,
    pub polling_interval_seconds: u64,
}

pub struct AppStateView {
    pub credentials: Option<CredentialsView>,
    pub monitored_pipelines: Seq<MonitoredPipelineView>,
    pub polling_interval_seconds: u64,
    pub last_status: Option<OverallStatusView>,
}

impl DeepView for Credentials {
    type V = CredentialsView;

    open spec fn deep_view(&self) -> CredentialsView {
        CredentialsView { username: self.username@ }
    }
}

impl View for Credentials {
    type V = CredentialsView;

    open spec fn view(&self) -> CredentialsView {
        self.deep_view()
    }
}

impl DeepView for MonitoredPipeline {
    type V = MonitoredPipelineView;

    open spec fn deep_view(&self) -> MonitoredPipelineView {
        MonitoredPipelineView {
            workspace: self.workspace@,
            project_key: self.project_key.deep_view(),
            project_name: self.project_name.deep_view(),
            repo_slug: self.repo_slug@,
            repo_name: self.repo_name@,
            branch: self.branch.deep_view(),
        }
    }
}

impl View for MonitoredPipeline {
    type V = MonitoredPipelineView;

    open spec fn view(&self) -> MonitoredPipelineView {
        self.deep_view()
    }
}

impl DeepView for PipelineStatusInfo {
    type V = PipelineStatusInfoView;

    open spec fn deep_view(&self) -> PipelineStatusInfoView {
        PipelineStatusInfoView {
            workspace: self.workspace@,
            project_key: self.project_key.deep_view(),
            project_name: self.project_name.deep_view(),
            repo_slug: self.repo_slug@,
            repo_name: self.repo_name@,
            state: self.state,
            failure_reason: self.failure_reason.deep_view(),
            pipeline_url: self.pipeline_url.deep_view(),
            stage_name: self.stage_name.deep_view(),
        }
    }
}

impl View for PipelineStatusInfo {
    type V = PipelineStatusInfoView;

    open spec fn view(&self) -> PipelineStatusInfoView {
        self.deep_view()
    }
}

impl DeepView for FailedPipelineInfo {
    type V = FailedPipelineInfoView;

    open spec fn deep_view(&self) -> FailedPipelineInfoView {
        FailedPipelineInfoView {
            workspace: self.workspace@,
            repo_slug: self.repo_slug@,
            repo_name: self.repo_name@,
            branch: self.branch.deep_view(),
            build_number: self.build_number,
            failure_reason: self.failure_reason@,
        }
    }
}

impl View for FailedPipelineInfo {
    type V = FailedPipelineInfoView;

    open spec fn view(&self) -> FailedPipelineInfoView {
        self.deep_view()
    }
}

impl DeepView for OverallStatus {
    type V = OverallStatusView;

    open spec fn deep_view(&self) -> OverallStatusView {
        OverallStatusView {
            is_healthy: self.is_healthy,
            failed_pipelines: self.failed_pipelines.deep_view(),
            pipeline_statuses: self.pipeline_statuses.deep_view(),
            in_progress_count: self.in_progress_count as nat,
            total_monitored: self.total_monitored as nat,
            last_checked: self.last_checked@,
        }
    }
}

impl View for OverallStatus {
    type V = OverallStatusView;

    open spec fn view(&self) -> OverallStatusView {
        self.deep_view()
    }
}

impl DeepView for PersistedConfig {
    type V = PersistedConfigView;

    open spec fn deep_view(&self) -> PersistedConfigView {
        PersistedConfigView {
            username: self.username.deep_view(),
            monitored_pipelines: self.monitored_pipelines.deep_view(),
            polling_interval_seconds: self.polling_interval_seconds,
        }
    }
}

impl View for PersistedConfig {
    type V = PersistedConfigView;

    open spec fn view(&self) -> PersistedConfigView {
        self.deep_view()
    }
}

impl DeepView for AppState {
    type V = AppStateView;

    open spec fn deep_view(&self) -> AppStateView {
        AppStateView {
            credentials: self.credentials.deep_view(),
            monitored_pipelines: self.monitored_pipelines.deep_view(),
            polling_interval_seconds: self.polling_interval_seconds,
            last_status: self.last_status.deep_view(),
        }
    }
}

impl View for AppState {
    type V = AppStateView;

    open spec fn view(&self) -> AppStateView {
        self.deep_view()
    }
}

impl Clone for Credentials {
    fn clone(&self) -> (r: Self)
        ensures
            r == *self,
    {
        Credentials { username: self.username.clone() }
    }
}

impl Clone for MonitoredPipeline {
    fn clone(&self) -> (r: Self)
        ensures
            r == *self,
    {
        MonitoredPipeline {
            workspace: self.workspace.clone(),
            project_key: self.project_key.clone(),
            project_name: self.project_name.clone(),
            repo_slug: self.repo_slug.clone(),
            repo_name: self.repo_name.clone(),
            branch: self.branch.clone(),
        }
    }
}

impl Clone for PipelineStatusInfo {
    fn clone(&self) -> (r: Self)
        ensures
            r == *self,
    {
        PipelineStatusInfo {
            workspace: self.workspace.clone(),
            project_key: self.project_key.clone(),
            project_name: self.project_name.clone(),
            repo_slug: self.repo_slug.clone(),
            repo_name: self.repo_name.clone(),
            state: self.state,
            failure_reason: self.failure_reason.clone(),
            pipeline_url: self.pipeline_url.clone(),
            stage_name: self.stage_name.clone(),
        }
    }
}

impl Clone for FailedPipelineInfo {
    fn clone(&self) -> (r: Self)
        ensures
            r == *self,
    {
        FailedPipelineInfo {
            workspace: self.workspace.clone(),
            repo_slug: self.repo_slug.clone(),
            repo_name: self.repo_name.clone(),
            branch: self.branch.clone(),
            build_number: self.build_number,
            failure_reason: self.failure_reason.clone(),
        }
    }
}

impl Clone for OverallStatus {
    fn clone(&self) -> (r: Self)
        ensures
            r@ == self@,
    {
        let failed_pipelines = self.failed_pipelines.clone();
        let pipeline_statuses = self.pipeline_statuses.clone();
        assert(failed_pipelines.deep_view() =~= self.failed_pipelines.deep_view());
        assert(pipeline_statuses.deep_view() =~= self.pipeline_statuses.deep_view());
        OverallStatus {
            is_healthy: self.is_healthy,
            failed_pipelines,
            pipeline_statuses,
            in_progress_count: self.in_progress_count,
            total_monitored: self.total_monitored,
            last_checked: self.last_checked.clone(),
        }
    }
}

impl Clone for PersistedConfig {
    fn clone(&self) -> (r: Self)
        ensures
            r@ == self@,
    {
        let monitored_pipelines = self.monitored_pipelines.clone();
        assert(monitored_pipelines.deep_view() =~= self.monitored_pipelines.deep_view());
        PersistedConfig {
            username: self.username.clone(),
            monitored_pipelines,
            polling_interval_seconds: self.polling_interval_seconds,
        }
    }
}

impl Clone for AppState {
    fn clone(&self) -> (r: Self)
        ensures
            r@ == self@,
    {
        let monitored_pipelines = self.monitored_pipelines.clone();
        assert(monitored_pipelines.deep_view() =~= self.monitored_pipelines.deep_view());
        let last_status = match &self.last_status {
            Some(status) => Some(status.clone()),
            None => None,
        };
        AppState {
            credentials: self.credentials.clone(),
            monitored_pipelines,
            polling_interval_seconds: self.polling_interval_seconds,
            last_status,
        }
    }
}

impl PipelineStatusInfoView {
    /// The failure reason that a summary shows: the recorded one, or
    /// `Unknown` where none was recorded.
    pub open spec fn shown_failure_reason(self) -> Seq<char> {
        match self.failure_reason {
            Some(reason) => reason,
            None => "Unknown"@,
        }
    }

    /// The summary of this entry if it is classified as failed.
    pub open spec fn failure_summary(self) -> Option<FailedPipelineInfoView> {
        if self.state == PipelineState::Failed {
            Some(
                FailedPipelineInfoView {
                    workspace: self.workspace,
                    repo_slug: self.repo_slug,
                    repo_name: self.repo_name,
                    branch: None,
                    build_number: 0,
                    failure_reason: self.shown_failure_reason(),
                },
            )
        } else {
            None
        }
    }
}

/// Maps an entry to its failure summary, for use with `Seq::filter_map`.
pub open spec fn failure_summary_of() -> spec_fn(PipelineStatusInfoView) -> Option<
    FailedPipelineInfoView,
> {
    |p: PipelineStatusInfoView| p.failure_summary()
}

/// Selects the entries that are in progress, for use with `Seq::filter`.
pub open spec fn is_in_progress_entry() -> spec_fn(PipelineStatusInfoView) -> bool {
    |p: PipelineStatusInfoView| p.state == PipelineState::InProgress
}

impl OverallStatusView {
    /// The snapshot that aggregates `statuses`: the failed entries are
    /// summarised in input order, the entries in progress are counted, and
    /// the whole list is kept as it came.
    pub open spec fn aggregate(
        statuses: Seq<PipelineStatusInfoView>,
        timestamp: Seq<char>,
    ) -> OverallStatusView {
        let failed = statuses.filter_map(failure_summary_of());
        OverallStatusView {
            is_healthy: failed.len() == 0,
            failed_pipelines: failed,
            pipeline_statuses: statuses,
            in_progress_count: statuses.filter(is_in_progress_entry()).len(),
            total_monitored: statuses.len(),
            last_checked: timestamp,
        }
    }

    /// The health flag agrees with the failed list, and every monitored
    /// pipeline has its entry.
    pub open spec fn well_formed(self) -> bool {
        &&& self.is_healthy == (self.failed_pipelines.len() == 0)
        &&& self.pipeline_statuses.len() == self.total_monitored
    }
}

impl PersistedConfigView {
    /// The configuration that holds nothing: no account, no pipeline, and
    /// an interval of zero, which loading replaces by the default.
    pub open spec fn empty() -> PersistedConfigView {
        PersistedConfigView {
            username: None,
            monitored_pipelines: Seq::empty(),
            polling_interval_seconds: 0,
        }
    }
}

impl AppStateView {
    /// The state that holds nothing: no account, no pipeline, no snapshot,
    /// and an interval of zero.
    pub open spec fn empty() -> AppStateView {
        AppStateView {
            credentials: None,
            monitored_pipelines: Seq::empty(),
            polling_interval_seconds: 0,
            last_status: None,
        }
    }
}

impl Default for PersistedConfig {
    /// The configuration that holds nothing.
    fn default() -> (r: Self)
        ensures
            r@ == PersistedConfigView::empty(),
    {
        let r = PersistedConfig {
            username: None,
            monitored_pipelines: Vec::new(),
            polling_interval_seconds: 0,
        };
        assert(r.monitored_pipelines.deep_view() =~= Seq::empty());
        r
    }
}

impl Default for AppState {
    /// The state that holds nothing. It differs from `new` in its
    /// interval, which is zero.
    fn default() -> (r: Self)
        ensures
            r@ == AppStateView::empty(),
    {
        let r = AppState {
            credentials: None,
            monitored_pipelines: Vec::new(),
            polling_interval_seconds: 0,
            last_status: None,
        };
        assert(r.monitored_pipelines.deep_view() =~= Seq::empty());
        r
    }
}

impl PersistedConfigView {
    /// The interval that a loaded configuration runs with: the persisted one
    /// if it respects the floor, else the default.
    pub open spec fn effective_interval(self) -> u64 {
        if self.polling_interval_seconds >= MIN_POLLING_INTERVAL_SECONDS {
            self.polling_interval_seconds
        } else {
            DEFAULT_POLLING_INTERVAL_SECONDS
        }
    }
}

impl AppStateView {
    /// The state of a fresh installation.
    pub open spec fn initial() -> AppStateView {
        AppStateView {
            credentials: None,
            monitored_pipelines: Seq::empty(),
            polling_interval_seconds: DEFAULT_POLLING_INTERVAL_SECONDS,
            last_status: None,
        }
    }

    /// What is written to disk of this state.
    pub open spec fn persisted(self) -> PersistedConfigView {
        PersistedConfigView {
            username: match self.credentials {
                Some(c) => Some(c.username),
                None => None,
            },
            monitored_pipelines: self.monitored_pipelines,
            polling_interval_seconds: self.polling_interval_seconds,
        }
    }

    /// The state that a configuration read from disk starts with.
    pub open spec fn loaded(config: PersistedConfigView) -> AppStateView {
        AppStateView {
            credentials: match config.username {
                Some(username) => Some(CredentialsView { username }),
                None => None,
            },
            monitored_pipelines: config.monitored_pipelines,
            polling_interval_seconds: config.effective_interval(),
            last_status: None,
        }
    }
}

/// A sequence has no failure summary exactly when none of its entries is
/// classified as failed.
proof fn lemma_no_summary_iff_no_failure(statuses: Seq<PipelineStatusInfoView>)
    ensures
        statuses.filter_map(failure_summary_of()).len() == 0 <==> forall|i: int|
            0 <= i < statuses.len() ==> (#[trigger] statuses[i]).state != PipelineState::Failed,
    decreases statuses.len(),
{
    if statuses.len() > 0 {
        let rest = statuses.drop_last();
        lemma_no_summary_iff_no_failure(rest);
        if statuses.filter_map(failure_summary_of()).len() == 0 {
            assert forall|i: int| 0 <= i < statuses.len() implies (#[trigger] statuses[i]).state
                != PipelineState::Failed by {
                if i < rest.len() {
                    assert(rest[i] == statuses[i]);
                }
            }
        } else if statuses.last().state != PipelineState::Failed {
            let j = choose|j: int|
                0 <= j < rest.len() && (#[trigger] rest[j]).state == PipelineState::Failed;
            assert(statuses[j] == rest[j]);
        }
    }
}

/// An aggregated snapshot is healthy exactly when none of its inputs is
/// classified as failed; paused, unknown and running pipelines do not count
/// against health.
pub proof fn lemma_healthy_iff_no_failure(
    statuses: Seq<PipelineStatusInfoView>,
    timestamp: Seq<char>,
)
    ensures
        OverallStatusView::aggregate(statuses, timestamp).is_healthy <==> forall|i: int|
            0 <= i < statuses.len() ==> (#[trigger] statuses[i]).state != PipelineState::Failed,
{
    lemma_no_summary_iff_no_failure(statuses);
}

/// An aggregated snapshot keeps one entry per input, in input order, and
/// its health flag agrees with its failed list.
pub proof fn lemma_aggregate_well_formed(
    statuses: Seq<PipelineStatusInfoView>,
    timestamp: Seq<char>,
)
    ensures
        OverallStatusView::aggregate(statuses, timestamp).well_formed(),
        OverallStatusView::aggregate(statuses, timestamp).pipeline_statuses == statuses,
        OverallStatusView::aggregate(statuses, timestamp).total_monitored == statuses.len(),
        OverallStatusView::aggregate(statuses, timestamp).in_progress_count <= statuses.len(),
{
    statuses.lemma_filter_len(is_in_progress_entry());
}

/// Saving a state and loading it again keeps the monitored pipelines and
/// the user name, and yields an interval that respects the floor: the saved
/// one if it does, else the default.
pub proof fn lemma_save_load_round_trip(state: AppStateView)
    ensures
        AppStateView::loaded(state.persisted()).monitored_pipelines == state.monitored_pipelines,
        AppStateView::loaded(state.persisted()).credentials == state.credentials,
        AppStateView::loaded(state.persisted()).polling_interval_seconds
            >= MIN_POLLING_INTERVAL_SECONDS,
        state.polling_interval_seconds >= MIN_POLLING_INTERVAL_SECONDS ==> AppStateView::loaded(
            state.persisted(),
        ).polling_interval_seconds == state.polling_interval_seconds,
        state.polling_interval_seconds < MIN_POLLING_INTERVAL_SECONDS ==> AppStateView::loaded(
            state.persisted(),
        ).polling_interval_seconds == DEFAULT_POLLING_INTERVAL_SECONDS,
{
}

impl AppState {
    /// The state of a fresh installation: nothing configured, polling once
    /// a minute.
    pub fn new() -> (r: Self)
        ensures
            r@ == AppStateView::initial(),
    {
        let r = AppState {
            credentials: None,
            monitored_pipelines: Vec::new(),
            polling_interval_seconds: DEFAULT_POLLING_INTERVAL_SECONDS,
            last_status: None,
        };
        assert(r.monitored_pipelines.deep_view() =~= Seq::empty());
        r
    }

    /// What is written to disk of this state.
    pub fn to_persisted(&self) -> (r: PersistedConfig)
        ensures
            r@ == self@.persisted(),
    {
        let monitored_pipelines = self.monitored_pipelines.clone();
        assert(monitored_pipelines.deep_view() =~= self.monitored_pipelines.deep_view());
        PersistedConfig {
            username: match &self.credentials {
                Some(c) => Some(c.username.clone()),
                None => None,
            },
            monitored_pipelines,
            polling_interval_seconds: self.polling_interval_seconds,
        }
    }

    /// The state that a configuration read from disk starts with. An
    /// interval below the floor is replaced by the default.
    pub fn from_persisted(config: PersistedConfig) -> (r: Self)
        ensures
            r@ == AppStateView::loaded(config@),
            r.polling_interval_seconds >= MIN_POLLING_INTERVAL_SECONDS,
    {
        AppState {
            credentials: match config.username {
                Some(username) => Some(Credentials { username }),
                None => None,
            },
            monitored_pipelines: config.monitored_pipelines,
            polling_interval_seconds: if config.polling_interval_seconds
                >= MIN_POLLING_INTERVAL_SECONDS {
                config.polling_interval_seconds
            } else {
                DEFAULT_POLLING_INTERVAL_SECONDS
            },
            last_status: None,
        }
    }
}

impl OverallStatus {
    /// Aggregates the entries of one poll into a snapshot taken at
    /// `timestamp`.
    pub fn new(pipeline_statuses: Vec<PipelineStatusInfo>, timestamp: String) -> (r: Self)
        ensures
            r@ == OverallStatusView::aggregate(pipeline_statuses.deep_view(), timestamp@),
            r@.well_formed(),
            r.is_healthy <==> forall|i: int|
                0 <= i < pipeline_statuses.len() ==> (#[trigger] pipeline_statuses[i]).state
                    != PipelineState::Failed,
            r.pipeline_statuses == pipeline_statuses,
    {
        let ghost all = pipeline_statuses.deep_view();
        let mut failed_pipelines: Vec<FailedPipelineInfo> = Vec::new();
        let mut in_progress_count: usize = 0;
        let mut i: usize = 0;
        assert(failed_pipelines.deep_view() =~= all.take(0).filter_map(failure_summary_of()));
        while i < pipeline_statuses.len()
            invariant
                i <= pipeline_statuses.len(),
                all == pipeline_statuses.deep_view(),
                failed_pipelines.deep_view() == all.take(i as int).filter_map(
                    failure_summary_of(),
                ),
                in_progress_count == all.take(i as int).filter(is_in_progress_entry()).len(),
                in_progress_count <= i,
            decreases pipeline_statuses.len() - i,
        {
            let p = &pipeline_statuses[i];
            let ghost before = failed_pipelines.deep_view();
            proof {
                all.lemma_filter_map_take_succ(failure_summary_of(), i as int);
                assert(all.take(i + 1) =~= all.take(i as int).push(all[i as int]));
                all.take(i as int).lemma_filter_push(all[i as int], is_in_progress_entry());
                assert(all[i as int] == p@);
            }
            match p.state {
                PipelineState::Failed => {
                    let failure_reason = match &p.failure_reason {
                        Some(reason) => reason.clone(),
                        None => String::from_str("Unknown"),
                    };
                    let summary = FailedPipelineInfo {
                        workspace: p.workspace.clone(),
                        repo_slug: p.repo_slug.clone(),
                        repo_name: p.repo_name.clone(),
                        branch: None,
                        build_number: 0,
                        failure_reason,
                    };
                    assert(Some(summary@) == p@.failure_summary());
                    failed_pipelines.push(summary);
                    assert(failed_pipelines.deep_view() =~= before + seq![summary@]);
                },
                PipelineState::InProgress => {
                    in_progress_count += 1;
                },
                _ => {},
            }
            i += 1;
        }
        assert(all.take(i as int) =~= all);
        proof {
            lemma_healthy_iff_no_failure(all, timestamp@);
            assert forall|k: int| 0 <= k < pipeline_statuses.len() implies (
            #[trigger] pipeline_statuses[k]).state == all[k].state by {}
        }
        let is_healthy = failed_pipelines.len() == 0;
        let total_monitored = pipeline_statuses.len();
        OverallStatus {
            is_healthy,
            failed_pipelines,
            pipeline_statuses,
            in_progress_count,
            total_monitored,
            last_checked: timestamp,
        }
    }
}

} // verus!
