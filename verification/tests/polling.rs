use cdmenu::bitbucket::client::BitbucketError;
use cdmenu::bitbucket::types::{
    Pipeline, PipelineResult, PipelineStage, PipelineState as ApiState, PipelineStep,
    PipelineTarget, StepState,
};
use cdmenu::config::{
    AppState, Credentials, FailedPipelineInfo, MonitoredPipeline, OverallStatus, PipelineState,
    PipelineStatusInfo,
};
use cdmenu::polling::{
    classify, next_interval, notification_for, notification_kind, notifications_for,
    pending_stage_label, reconcile, require_password, start_cycle, status_changed,
    status_for_error, status_for_pipeline, status_without_pipeline, tray_display, CheckCycle,
    CheckEvent, CheckRequest, CycleStart, Notification, NotificationKind, TrayDisplay,
    STARTUP_DELAY_SECONDS,
};
use cdmenu::tray::TrayStatus;

fn pipeline(name: &str, state_type: Option<&str>, result: Option<&str>, stage: Option<&str>) -> Pipeline {
    Pipeline {
        uuid: "{run}".to_string(),
        build_number: 42,
        state: ApiState {
            name: name.to_string(),
            state_type: state_type.map(|s| s.to_string()),
            result: result.map(|r| PipelineResult { name: r.to_string() }),
            stage: stage.map(|s| PipelineStage { name: Some(s.to_string()), stage_type: None }),
        },
        target: PipelineTarget { ref_type: None, ref_name: Some("main".to_string()) },
        created_on: "2024-01-01T00:00:00Z".to_string(),
        completed_on: None,
    }
}

fn step(name: Option<&str>, state_name: Option<&str>) -> PipelineStep {
    PipelineStep {
        uuid: "{s}".to_string(),
        name: name.map(|s| s.to_string()),
        state: Some(StepState { name: state_name.map(|s| s.to_string()), state_type: None }),
    }
}

fn target(repo: &str) -> MonitoredPipeline {
    MonitoredPipeline {
        workspace: "acme".to_string(),
        project_key: Some("WEB".to_string()),
        project_name: Some("Web".to_string()),
        repo_slug: repo.to_string(),
        repo_name: format!("{} service", repo),
        branch: Some("main".to_string()),
    }
}

fn entry(repo: &str, state: PipelineState) -> PipelineStatusInfo {
    PipelineStatusInfo {
        workspace: "acme".to_string(),
        project_key: Some("WEB".to_string()),
        project_name: Some("Web".to_string()),
        repo_slug: repo.to_string(),
        repo_name: format!("{} service", repo),
        state,
        failure_reason: None,
        pipeline_url: Some(format!("https://bitbucket.org/acme/{}/pipelines/results/42", repo)),
        stage_name: None,
    }
}

fn snapshot(states: &[(&str, PipelineState)], timestamp: &str) -> OverallStatus {
    OverallStatus::new(
        states.iter().map(|(repo, state)| entry(repo, *state)).collect(),
        timestamp.to_string(),
    )
}

fn kinds(list: &[Notification]) -> Vec<NotificationKind> {
    list.iter().map(|n| n.kind).collect()
}

#[test]
fn failed_result_classifies_failed_whatever_the_state_name() {
    for name in ["COMPLETED", "IN_PROGRESS", "PENDING", "anything"] {
        for result in ["FAILED", "ERROR", "EXPIRED"] {
            assert_eq!(classify(&pipeline(name, None, Some(result), None)), PipelineState::Failed);
        }
    }
}

#[test]
fn failure_wins_over_a_pause_signal() {
    let p = pipeline("IN_PROGRESS", Some("pipeline_state_in_progress_paused"), Some("FAILED"), Some("PAUSED"));
    assert_eq!(classify(&p), PipelineState::Failed);
}

#[test]
fn pause_signal_classifies_paused_even_while_in_progress() {
    let by_type = pipeline("IN_PROGRESS", Some("pipeline_state_in_progress_paused"), None, None);
    assert_eq!(classify(&by_type), PipelineState::Paused);
    let by_stage = pipeline("IN_PROGRESS", None, None, Some("Paused"));
    assert_eq!(classify(&by_stage), PipelineState::Paused);
    let completed = pipeline("COMPLETED", None, Some("SUCCESSFUL"), Some("paused"));
    assert_eq!(classify(&completed), PipelineState::Paused);
}

#[test]
fn running_names_classify_in_progress() {
    assert_eq!(classify(&pipeline("IN_PROGRESS", None, None, None)), PipelineState::InProgress);
    assert_eq!(classify(&pipeline("PENDING", None, None, None)), PipelineState::InProgress);
    assert_eq!(
        classify(&pipeline("IN_PROGRESS", Some("pipeline_state_in_progress_running"), None, None)),
        PipelineState::InProgress
    );
}

#[test]
fn everything_else_classifies_healthy() {
    assert_eq!(classify(&pipeline("COMPLETED", None, Some("SUCCESSFUL"), None)), PipelineState::Healthy);
    assert_eq!(classify(&pipeline("COMPLETED", None, Some("STOPPED"), None)), PipelineState::Healthy);
    assert_eq!(classify(&pipeline("COMPLETED", None, None, None)), PipelineState::Healthy);
}

#[test]
fn stage_label_is_the_first_pending_step() {
    let steps = vec![
        step(Some("build"), Some("COMPLETED")),
        step(Some("deploy to staging"), Some("PENDING")),
        step(Some("deploy to production"), Some("PENDING")),
    ];
    assert_eq!(pending_stage_label(Some(&steps)), "deploy to staging");
}

#[test]
fn stage_label_falls_back_to_paused() {
    assert_eq!(pending_stage_label(None), "paused");
    assert_eq!(pending_stage_label(Some(&vec![])), "paused");
    let none_pending = vec![step(Some("build"), Some("COMPLETED"))];
    assert_eq!(pending_stage_label(Some(&none_pending)), "paused");
    let unnamed_first = vec![step(None, Some("PENDING")), step(Some("later"), Some("PENDING"))];
    assert_eq!(pending_stage_label(Some(&unnamed_first)), "paused");
}

#[test]
fn status_of_a_failed_pipeline_records_the_result() {
    let status = status_for_pipeline(&target("api"), &pipeline("COMPLETED", None, Some("ERROR"), None), None);
    assert_eq!(
        status,
        PipelineStatusInfo {
            workspace: "acme".to_string(),
            project_key: Some("WEB".to_string()),
            project_name: Some("Web".to_string()),
            repo_slug: "api".to_string(),
            repo_name: "api service".to_string(),
            state: PipelineState::Failed,
            failure_reason: Some("ERROR".to_string()),
            pipeline_url: Some("https://bitbucket.org/acme/api/pipelines/results/42".to_string()),
            stage_name: None,
        }
    );
}

#[test]
fn status_of_a_paused_pipeline_records_the_stage() {
    let p = pipeline("IN_PROGRESS", Some("pipeline_state_in_progress_paused"), None, None);
    let steps = vec![step(Some("approve"), Some("PENDING"))];
    let with_steps = status_for_pipeline(&target("api"), &p, Some(&steps));
    assert_eq!(with_steps.state, PipelineState::Paused);
    assert_eq!(with_steps.stage_name, Some("approve".to_string()));
    assert_eq!(with_steps.failure_reason, None);
    let without = status_for_pipeline(&target("api"), &p, None);
    assert_eq!(without.stage_name, Some("paused".to_string()));
}

#[test]
fn status_of_other_pipelines_has_no_reason_and_no_stage() {
    let steps = vec![step(Some("approve"), Some("PENDING"))];
    let running = status_for_pipeline(&target("api"), &pipeline("IN_PROGRESS", None, None, None), Some(&steps));
    assert_eq!(running.state, PipelineState::InProgress);
    assert_eq!(running.failure_reason, None);
    assert_eq!(running.stage_name, None);
    let healthy = status_for_pipeline(&target("api"), &pipeline("COMPLETED", None, Some("SUCCESSFUL"), None), None);
    assert_eq!(healthy.state, PipelineState::Healthy);
    assert_eq!(healthy.failure_reason, None);
    assert_eq!(
        healthy.pipeline_url,
        Some("https://bitbucket.org/acme/api/pipelines/results/42".to_string())
    );
}

#[test]
fn status_without_pipeline_is_unknown_with_the_listing_page() {
    assert_eq!(
        status_without_pipeline(&target("api")),
        PipelineStatusInfo {
            workspace: "acme".to_string(),
            project_key: Some("WEB".to_string()),
            project_name: Some("Web".to_string()),
            repo_slug: "api".to_string(),
            repo_name: "api service".to_string(),
            state: PipelineState::Unknown,
            failure_reason: None,
            pipeline_url: Some("https://bitbucket.org/acme/api/pipelines".to_string()),
            stage_name: None,
        }
    );
}

#[test]
fn status_for_error_is_unknown_with_the_message() {
    let status = status_for_error(&target("api"), &BitbucketError::RateLimited);
    assert_eq!(status.state, PipelineState::Unknown);
    assert_eq!(
        status.failure_reason,
        Some("Error: Rate limited - please wait before retrying".to_string())
    );
    assert_eq!(status.pipeline_url, None);
    assert_eq!(status.stage_name, None);
    assert_eq!(status.repo_slug, "api");
    let status = status_for_error(&target("api"), &BitbucketError::ApiError(502, "bad gateway".to_string()));
    assert_eq!(status.failure_reason, Some("Error: API error: Status 502: bad gateway".to_string()));
}

#[test]
fn cycle_without_targets_is_finished_at_once() {
    let cycle = CheckCycle::new(vec![]);
    assert!(cycle.is_finished());
    assert_eq!(cycle.request(), CheckRequest::Finished);
    let status = cycle.finish("08:00:00".to_string()).unwrap();
    assert!(status.is_healthy);
    assert_eq!(status.total_monitored, 0);
}

#[test]
fn cycle_asks_for_each_target_in_order() {
    let cycle = CheckCycle::new(vec![target("api"), target("web")]);
    assert!(!cycle.is_finished());
    assert_eq!(
        cycle.request(),
        CheckRequest::LatestPipeline {
            workspace: "acme".to_string(),
            repo_slug: "api".to_string(),
            branch: Some("main".to_string()),
        }
    );
    let cycle = cycle.advance(CheckEvent::LatestPipeline(Ok(None)));
    assert_eq!(
        cycle.request(),
        CheckRequest::LatestPipeline {
            workspace: "acme".to_string(),
            repo_slug: "web".to_string(),
            branch: Some("main".to_string()),
        }
    );
    let cycle = cycle.advance(CheckEvent::LatestPipeline(Ok(Some(pipeline("COMPLETED", None, Some("SUCCESSFUL"), None)))));
    assert!(cycle.is_finished());
    assert_eq!(cycle.request(), CheckRequest::Finished);
}

#[test]
fn cycle_fetches_the_steps_of_a_paused_pipeline() {
    let paused = pipeline("IN_PROGRESS", Some("pipeline_state_in_progress_paused"), None, None);
    let cycle = CheckCycle::new(vec![target("api")]).advance(CheckEvent::LatestPipeline(Ok(Some(paused))));
    assert!(!cycle.is_finished());
    assert_eq!(
        cycle.request(),
        CheckRequest::PipelineSteps {
            workspace: "acme".to_string(),
            repo_slug: "api".to_string(),
            pipeline_uuid: "{run}".to_string(),
        }
    );
    let cycle = cycle.advance(CheckEvent::PipelineSteps(Ok(vec![step(Some("approve"), Some("PENDING"))])));
    assert!(cycle.is_finished());
    let status = cycle.finish("08:00:00".to_string()).unwrap();
    assert_eq!(status.pipeline_statuses[0].state, PipelineState::Paused);
    assert_eq!(status.pipeline_statuses[0].stage_name, Some("approve".to_string()));
}

#[test]
fn failed_step_fetch_only_degrades_the_label() {
    let paused = pipeline("IN_PROGRESS", None, None, Some("paused"));
    let cycle = CheckCycle::new(vec![target("api"), target("web")])
        .advance(CheckEvent::LatestPipeline(Ok(Some(paused))))
        .advance(CheckEvent::PipelineSteps(Err(BitbucketError::RateLimited)));
    assert_eq!(
        cycle.request(),
        CheckRequest::LatestPipeline {
            workspace: "acme".to_string(),
            repo_slug: "web".to_string(),
            branch: Some("main".to_string()),
        }
    );
    let status = cycle
        .advance(CheckEvent::LatestPipeline(Ok(None)))
        .finish("08:00:00".to_string())
        .unwrap();
    assert_eq!(status.pipeline_statuses[0].state, PipelineState::Paused);
    assert_eq!(status.pipeline_statuses[0].stage_name, Some("paused".to_string()));
    assert_eq!(status.pipeline_statuses[1].state, PipelineState::Unknown);
}

#[test]
fn failed_fetch_gives_an_unknown_entry_and_the_cycle_goes_on() {
    let status = CheckCycle::new(vec![target("api"), target("web"), target("db")])
        .advance(CheckEvent::LatestPipeline(Err(BitbucketError::Http("timed out".to_string()))))
        .advance(CheckEvent::LatestPipeline(Ok(Some(pipeline("COMPLETED", None, Some("FAILED"), None)))))
        .advance(CheckEvent::LatestPipeline(Err(BitbucketError::AuthenticationFailed)))
        .finish("08:00:00".to_string())
        .unwrap();
    assert_eq!(status.total_monitored, 3);
    assert_eq!(status.pipeline_statuses.len(), 3);
    assert_eq!(status.pipeline_statuses[0].state, PipelineState::Unknown);
    assert_eq!(
        status.pipeline_statuses[0].failure_reason,
        Some("Error: HTTP error: timed out".to_string())
    );
    assert_eq!(status.pipeline_statuses[1].state, PipelineState::Failed);
    assert_eq!(status.pipeline_statuses[2].state, PipelineState::Unknown);
    assert_eq!(
        status.pipeline_statuses.iter().map(|s| s.repo_slug.as_str()).collect::<Vec<_>>(),
        vec!["api", "web", "db"]
    );
    assert!(!status.is_healthy);
    assert_eq!(
        status.failed_pipelines,
        vec![FailedPipelineInfo {
            workspace: "acme".to_string(),
            repo_slug: "web".to_string(),
            repo_name: "web service".to_string(),
            branch: None,
            build_number: 0,
            failure_reason: "FAILED".to_string(),
        }]
    );
}

#[test]
fn events_that_answer_nothing_change_nothing() {
    let cycle = CheckCycle::new(vec![target("api")])
        .advance(CheckEvent::PipelineSteps(Ok(vec![])));
    assert!(!cycle.is_finished());
    assert_eq!(
        cycle.request(),
        CheckRequest::LatestPipeline {
            workspace: "acme".to_string(),
            repo_slug: "api".to_string(),
            branch: Some("main".to_string()),
        }
    );
    let paused = pipeline("IN_PROGRESS", None, None, Some("paused"));
    let cycle = cycle
        .advance(CheckEvent::LatestPipeline(Ok(Some(paused))))
        .advance(CheckEvent::LatestPipeline(Ok(None)));
    assert_eq!(
        cycle.request(),
        CheckRequest::PipelineSteps {
            workspace: "acme".to_string(),
            repo_slug: "api".to_string(),
            pipeline_uuid: "{run}".to_string(),
        }
    );
    let done = cycle.advance(CheckEvent::PipelineSteps(Ok(vec![])));
    assert!(done.is_finished());
    let still_done = done.advance(CheckEvent::LatestPipeline(Ok(None)));
    assert_eq!(still_done.finish("t".to_string()).unwrap().total_monitored, 1);
}

#[test]
fn unfinished_cycle_has_no_snapshot() {
    assert_eq!(CheckCycle::new(vec![target("api")]).finish("08:00:00".to_string()), None);
    assert_eq!(CheckCycle::new(vec![target("api")]).finish_now(), None);
}

#[test]
fn finish_now_stamps_a_clock_time() {
    let status = CheckCycle::new(vec![target("api")])
        .advance(CheckEvent::LatestPipeline(Ok(None)))
        .finish_now()
        .unwrap();
    assert_eq!(status.total_monitored, 1);
    let stamp: Vec<char> = status.last_checked.chars().collect();
    assert_eq!(stamp.len(), 8);
    assert_eq!(stamp[2], ':');
    assert_eq!(stamp[5], ':');
    for i in [0usize, 1, 3, 4, 6, 7] {
        assert!(stamp[i].is_ascii_digit());
    }
}

#[test]
fn healthy_tooltip() {
    let status = snapshot(&[("a", PipelineState::Healthy), ("b", PipelineState::Unknown)], "12:00:01");
    assert_eq!(
        tray_display(&status),
        TrayDisplay {
            icon: TrayStatus::Green,
            tooltip: "cdMenu\n2 pipeline(s) healthy\nLast checked: 12:00:01".to_string(),
        }
    );
}

#[test]
fn healthy_tooltip_counts_pipelines_in_progress() {
    let status = snapshot(
        &[("a", PipelineState::InProgress), ("b", PipelineState::Healthy), ("c", PipelineState::InProgress)],
        "12:00:01",
    );
    assert_eq!(
        tray_display(&status).tooltip,
        "cdMenu\n3 pipeline(s) healthy\n2 in progress\nLast checked: 12:00:01"
    );
}

#[test]
fn failed_tooltip_names_up_to_three() {
    let status = snapshot(&[("a", PipelineState::Failed), ("b", PipelineState::Healthy), ("c", PipelineState::Failed)], "12:00:01");
    assert_eq!(
        tray_display(&status),
        TrayDisplay {
            icon: TrayStatus::Red,
            tooltip: "cdMenu\n2 pipeline(s) FAILED\nacme/a, acme/c\nLast checked: 12:00:01".to_string(),
        }
    );
    let one = snapshot(&[("a", PipelineState::Failed)], "12:00:01");
    assert_eq!(
        tray_display(&one).tooltip,
        "cdMenu\n1 pipeline(s) FAILED\nacme/a\nLast checked: 12:00:01"
    );
    let three = snapshot(
        &[("a", PipelineState::Failed), ("b", PipelineState::Failed), ("c", PipelineState::Failed)],
        "12:00:01",
    );
    assert_eq!(
        tray_display(&three).tooltip,
        "cdMenu\n3 pipeline(s) FAILED\nacme/a, acme/b, acme/c\nLast checked: 12:00:01"
    );
}

#[test]
fn failed_tooltip_counts_the_rest() {
    let status = snapshot(
        &[
            ("a", PipelineState::Failed),
            ("b", PipelineState::Failed),
            ("c", PipelineState::Failed),
            ("d", PipelineState::Failed),
            ("e", PipelineState::Failed),
        ],
        "12:00:01",
    );
    assert_eq!(
        tray_display(&status).tooltip,
        "cdMenu\n5 pipeline(s) FAILED\nacme/a, acme/b, acme/c +2 more\nLast checked: 12:00:01"
    );
}

#[test]
fn healthy_to_failed_notifies_failed_once() {
    let old = snapshot(&[("api", PipelineState::Healthy)], "1");
    let new = snapshot(&[("api", PipelineState::Failed)], "2");
    let list = notifications_for(Some(&old), &new);
    assert_eq!(
        list,
        vec![Notification {
            kind: NotificationKind::Failed,
            workspace: "acme".to_string(),
            repo_slug: "api".to_string(),
            title: "Pipeline Failed".to_string(),
            body: "api service has failed\nhttps://bitbucket.org/acme/api/pipelines/results/42".to_string(),
            link: Some("https://bitbucket.org/acme/api/pipelines/results/42".to_string()),
        }]
    );
}

#[test]
fn failed_to_failed_notifies_nobody() {
    let old = snapshot(&[("api", PipelineState::Failed)], "1");
    let new = snapshot(&[("api", PipelineState::Failed)], "2");
    assert!(notifications_for(Some(&old), &new).is_empty());
}

#[test]
fn failed_to_healthy_notifies_fixed_once() {
    let old = snapshot(&[("api", PipelineState::Failed)], "1");
    let new = snapshot(&[("api", PipelineState::Healthy)], "2");
    let list = notifications_for(Some(&old), &new);
    assert_eq!(list.len(), 1);
    assert_eq!(list[0].kind, NotificationKind::Fixed);
    assert_eq!(list[0].title, "Pipeline Fixed");
    assert_eq!(
        list[0].body,
        "api service is now healthy\nhttps://bitbucket.org/acme/api/pipelines/results/42"
    );
}

#[test]
fn failed_to_paused_notifies_neither() {
    let old = snapshot(&[("api", PipelineState::Failed)], "1");
    for state in [PipelineState::Paused, PipelineState::InProgress, PipelineState::Unknown] {
        let new = snapshot(&[("api", state)], "2");
        assert!(notifications_for(Some(&old), &new).is_empty());
    }
}

#[test]
fn every_non_failed_class_can_turn_into_a_failure() {
    for was in [PipelineState::Healthy, PipelineState::InProgress, PipelineState::Paused, PipelineState::Unknown] {
        let old = snapshot(&[("api", was)], "1");
        let new = snapshot(&[("api", PipelineState::Failed)], "2");
        assert_eq!(kinds(&notifications_for(Some(&old), &new)), vec![NotificationKind::Failed]);
    }
}

#[test]
fn notification_kind_table() {
    let all = [
        PipelineState::Healthy,
        PipelineState::Failed,
        PipelineState::InProgress,
        PipelineState::Paused,
        PipelineState::Unknown,
    ];
    for was in all {
        for now in all {
            let expected = if was != PipelineState::Failed && now == PipelineState::Failed {
                Some(NotificationKind::Failed)
            } else if was == PipelineState::Failed && now == PipelineState::Healthy {
                Some(NotificationKind::Fixed)
            } else {
                None
            };
            assert_eq!(notification_kind(was, now), expected);
        }
    }
}

#[test]
fn first_snapshot_and_new_targets_notify_nobody() {
    let new = snapshot(&[("api", PipelineState::Failed)], "2");
    assert!(notifications_for(None, &new).is_empty());
    let old = snapshot(&[("web", PipelineState::Healthy)], "1");
    assert!(notifications_for(Some(&old), &new).is_empty());
}

#[test]
fn notifications_follow_the_order_of_the_new_snapshot() {
    let old = snapshot(
        &[("a", PipelineState::Failed), ("b", PipelineState::Healthy), ("c", PipelineState::Healthy)],
        "1",
    );
    let new = snapshot(
        &[("c", PipelineState::Failed), ("b", PipelineState::Healthy), ("a", PipelineState::Healthy)],
        "2",
    );
    let list = notifications_for(Some(&old), &new);
    assert_eq!(kinds(&list), vec![NotificationKind::Failed, NotificationKind::Fixed]);
    assert_eq!(list[0].repo_slug, "c");
    assert_eq!(list[1].repo_slug, "a");
}

#[test]
fn previous_entry_is_the_first_with_the_same_target() {
    let old = snapshot(&[("api", PipelineState::Healthy), ("api", PipelineState::Failed)], "1");
    let new = snapshot(&[("api", PipelineState::Failed)], "2");
    assert_eq!(kinds(&notifications_for(Some(&old), &new)), vec![NotificationKind::Failed]);
}

#[test]
fn notification_uses_the_slug_where_the_name_is_empty() {
    let mut e = entry("api", PipelineState::Failed);
    e.repo_name = String::new();
    e.pipeline_url = None;
    let n = notification_for(&e, NotificationKind::Failed);
    assert_eq!(n.body, "api has failed");
    assert_eq!(n.link, None);
    let n = notification_for(&e, NotificationKind::Fixed);
    assert_eq!(n.body, "api is now healthy");
    assert_eq!(n.title, "Pipeline Fixed");
}

#[test]
fn same_classes_are_reported_unchanged() {
    let old = snapshot(&[("a", PipelineState::Healthy), ("b", PipelineState::Failed)], "10:00:00");
    let mut new = snapshot(&[("a", PipelineState::Healthy), ("b", PipelineState::Failed)], "10:01:00");
    new.pipeline_statuses[1].failure_reason = Some("ERROR".to_string());
    new.pipeline_statuses[0].pipeline_url = None;
    assert!(!status_changed(Some(&old), &new));
}

#[test]
fn a_changed_class_count_or_flag_is_reported() {
    let old = snapshot(&[("a", PipelineState::Healthy), ("b", PipelineState::Paused)], "10:00:00");
    let class = snapshot(&[("a", PipelineState::Healthy), ("b", PipelineState::InProgress)], "10:00:00");
    assert!(status_changed(Some(&old), &class));
    let count = snapshot(&[("a", PipelineState::Healthy)], "10:00:00");
    assert!(status_changed(Some(&old), &count));
    let mut flag = snapshot(&[("a", PipelineState::Healthy), ("b", PipelineState::Paused)], "10:00:00");
    flag.is_healthy = false;
    assert!(status_changed(Some(&old), &flag));
    assert!(status_changed(None, &old));
}

#[test]
fn reconcile_stores_the_snapshot_even_when_nothing_changed() {
    let mut state = AppState::new();
    let first = snapshot(&[("a", PipelineState::Healthy)], "10:00:00");
    let report = reconcile(&mut state, first.clone());
    assert!(report.refresh_menu);
    assert!(report.notifications.is_empty());
    assert_eq!(report.display.icon, TrayStatus::Green);
    assert_eq!(state.last_status, Some(first));

    let second = snapshot(&[("a", PipelineState::Healthy)], "10:01:00");
    let report = reconcile(&mut state, second.clone());
    assert!(!report.refresh_menu);
    assert!(report.notifications.is_empty());
    assert_eq!(report.display.tooltip, "cdMenu\n1 pipeline(s) healthy\nLast checked: 10:01:00");
    assert_eq!(state.last_status, Some(second));
}

#[test]
fn reconcile_reports_failures_and_recoveries() {
    let mut state = AppState::new();
    state.polling_interval_seconds = 90;
    reconcile(&mut state, snapshot(&[("a", PipelineState::Healthy)], "10:00:00"));
    let report = reconcile(&mut state, snapshot(&[("a", PipelineState::Failed)], "10:01:00"));
    assert!(report.refresh_menu);
    assert_eq!(kinds(&report.notifications), vec![NotificationKind::Failed]);
    assert_eq!(report.display.icon, TrayStatus::Red);
    let report = reconcile(&mut state, snapshot(&[("a", PipelineState::Healthy)], "10:02:00"));
    assert_eq!(kinds(&report.notifications), vec![NotificationKind::Fixed]);
    assert_eq!(report.display.icon, TrayStatus::Green);
    assert_eq!(state.polling_interval_seconds, 90);
    assert!(state.credentials.is_none());
}

#[test]
fn cycle_is_idle_without_credentials() {
    let mut state = AppState::new();
    state.monitored_pipelines = vec![target("api")];
    assert_eq!(
        start_cycle(&state),
        CycleStart::Idle(TrayDisplay {
            icon: TrayStatus::Gray,
            tooltip: "cdMenu - Not configured".to_string(),
        })
    );
    assert_eq!(
        start_cycle(&AppState::new()),
        CycleStart::Idle(TrayDisplay {
            icon: TrayStatus::Gray,
            tooltip: "cdMenu - Not configured".to_string(),
        })
    );
}

#[test]
fn cycle_is_idle_without_pipelines() {
    let mut state = AppState::new();
    state.credentials = Some(Credentials { username: "ada".to_string() });
    assert_eq!(
        start_cycle(&state),
        CycleStart::Idle(TrayDisplay {
            icon: TrayStatus::Gray,
            tooltip: "cdMenu - No pipelines selected".to_string(),
        })
    );
}

#[test]
fn configured_cycle_checks_every_target() {
    let mut state = AppState::new();
    state.credentials = Some(Credentials { username: "ada".to_string() });
    state.monitored_pipelines = vec![target("api"), target("web")];
    assert_eq!(
        start_cycle(&state),
        CycleStart::Check {
            username: "ada".to_string(),
            targets: vec![target("api"), target("web")],
        }
    );
}

#[test]
fn missing_password_asks_for_authentication() {
    assert_eq!(require_password(Some("pw".to_string())), Ok("pw".to_string()));
    assert_eq!(
        require_password(None),
        Err(TrayDisplay { icon: TrayStatus::Gray, tooltip: "cdMenu - Auth required".to_string() })
    );
}

#[test]
fn interval_is_read_from_the_state() {
    let mut state = AppState::new();
    assert_eq!(next_interval(&state), 60);
    state.polling_interval_seconds = 120;
    assert_eq!(next_interval(&state), 120);
    assert_eq!(STARTUP_DELAY_SECONDS, 2);
}
