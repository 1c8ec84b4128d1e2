use cdmenu::config::{OverallStatus, PipelineState, PipelineStatusInfo};
use cdmenu::tray::{
    build_initial_menu, build_status_menu, menu_action, pipeline_entry, project_header,
    MenuAction, MenuEntry, MenuIcon, MenuLink, TRAY_ID,
};

fn item(id: &str, text: &str, enabled: bool, icon: Option<MenuIcon>) -> MenuEntry {
    MenuEntry::Item { id: id.to_string(), text: text.to_string(), enabled, icon }
}

fn commands() -> Vec<MenuEntry> {
    vec![
        MenuEntry::Separator,
        item("refresh", "Refresh Now", true, None),
        item("settings", "Settings...", true, None),
        item("quit", "Quit", true, None),
    ]
}

fn entry(project: Option<&str>, repo: &str, name: &str, state: PipelineState, url: bool) -> PipelineStatusInfo {
    PipelineStatusInfo {
        workspace: "acme".to_string(),
        project_key: None,
        project_name: project.map(|p| p.to_string()),
        repo_slug: repo.to_string(),
        repo_name: name.to_string(),
        state,
        failure_reason: None,
        pipeline_url: if url { Some(format!("https://bitbucket.org/acme/{}/pipelines", repo)) } else { None },
        stage_name: None,
    }
}

#[test]
fn tray_identifier() {
    assert_eq!(TRAY_ID, "main");
}

#[test]
fn initial_menu_says_loading() {
    let mut expected = vec![item("status", "Loading...", false, None)];
    expected.extend(commands());
    assert_eq!(build_initial_menu(), expected);
}

#[test]
fn menu_without_snapshot_says_nothing_is_configured() {
    let menu = build_status_menu(None);
    let mut expected = vec![item("no_status", "No pipelines configured", false, None)];
    expected.extend(commands());
    assert_eq!(menu.entries, expected);
    assert!(menu.links.is_empty());
}

#[test]
fn menu_of_an_empty_snapshot_shows_the_time() {
    let status = OverallStatus::new(vec![], "07:08:09".to_string());
    let menu = build_status_menu(Some(&status));
    let mut expected = vec![
        MenuEntry::Separator,
        item("last_checked", "Last checked: 07:08:09", false, None),
    ];
    expected.extend(commands());
    assert_eq!(menu.entries, expected);
    assert!(menu.links.is_empty());
}

#[test]
fn menu_groups_pipelines_by_project() {
    let status = OverallStatus::new(
        vec![
            entry(Some("Web"), "site", "Site", PipelineState::Healthy, true),
            entry(Some("Data"), "etl", "", PipelineState::Failed, true),
            entry(Some("Web"), "api", "API", PipelineState::InProgress, false),
            entry(None, "tools", "Tools", PipelineState::Unknown, true),
        ],
        "07:08:09".to_string(),
    );
    let menu = build_status_menu(Some(&status));
    let mut expected = vec![
        item("proj_header_0", "WEB", false, None),
        item("pipeline_0", "  Site", true, Some(MenuIcon::Green)),
        item("pipeline_2", "  API - running", false, Some(MenuIcon::Blue)),
        MenuEntry::Separator,
        item("proj_header_1", "DATA", false, None),
        item("pipeline_1", "  etl - FAILED", true, Some(MenuIcon::Red)),
        MenuEntry::Separator,
        item("proj_header_2", "ACME", false, None),
        item("pipeline_3", "  Tools", true, Some(MenuIcon::Gray)),
        MenuEntry::Separator,
        item("last_checked", "Last checked: 07:08:09", false, None),
    ];
    expected.extend(commands());
    assert_eq!(menu.entries, expected);
    assert_eq!(
        menu.links,
        vec![
            MenuLink { id: "pipeline_0".to_string(), url: "https://bitbucket.org/acme/site/pipelines".to_string() },
            MenuLink { id: "pipeline_1".to_string(), url: "https://bitbucket.org/acme/etl/pipelines".to_string() },
            MenuLink { id: "pipeline_3".to_string(), url: "https://bitbucket.org/acme/tools/pipelines".to_string() },
        ]
    );
}

#[test]
fn paused_entry_shows_its_stage() {
    let mut paused = entry(Some("Web"), "site", "Site", PipelineState::Paused, true);
    paused.stage_name = Some("deploy to production".to_string());
    assert_eq!(
        pipeline_entry(&paused, 4),
        item("pipeline_4", "  Site - (deploy to production)", true, Some(MenuIcon::Green))
    );
    paused.stage_name = None;
    assert_eq!(
        pipeline_entry(&paused, 11),
        item("pipeline_11", "  Site - (paused)", true, Some(MenuIcon::Green))
    );
}

#[test]
fn header_carries_the_upper_cased_title() {
    assert_eq!(
        project_header(3, "WEB".to_string()),
        item("proj_header_3", "WEB", false, None)
    );
}

#[test]
fn clicks_on_commands() {
    let links = vec![];
    assert_eq!(menu_action("refresh", &links), MenuAction::Refresh);
    assert_eq!(menu_action("settings", &links), MenuAction::OpenSettings);
    assert_eq!(menu_action("quit", &links), MenuAction::Quit);
    assert_eq!(menu_action("status", &links), MenuAction::Ignore);
    assert_eq!(menu_action("last_checked", &links), MenuAction::Ignore);
    assert_eq!(menu_action("", &links), MenuAction::Ignore);
}

#[test]
fn clicks_on_pipelines_open_their_page() {
    let status = OverallStatus::new(
        vec![
            entry(Some("Web"), "site", "Site", PipelineState::Healthy, true),
            entry(Some("Web"), "api", "API", PipelineState::Unknown, false),
            entry(Some("Data"), "etl", "ETL", PipelineState::Failed, true),
        ],
        "07:08:09".to_string(),
    );
    let menu = build_status_menu(Some(&status));
    assert_eq!(
        menu_action("pipeline_0", &menu.links),
        MenuAction::OpenUrl("https://bitbucket.org/acme/site/pipelines".to_string())
    );
    assert_eq!(menu_action("pipeline_1", &menu.links), MenuAction::Ignore);
    assert_eq!(
        menu_action("pipeline_2", &menu.links),
        MenuAction::OpenUrl("https://bitbucket.org/acme/etl/pipelines".to_string())
    );
    assert_eq!(menu_action("pipeline_3", &menu.links), MenuAction::Ignore);
    assert_eq!(menu_action("proj_header_0", &menu.links), MenuAction::Ignore);
}

#[test]
fn only_pipeline_entries_are_looked_up() {
    let links = vec![
        MenuLink { id: "other".to_string(), url: "https://a".to_string() },
        MenuLink { id: "pipeline_7".to_string(), url: "https://b".to_string() },
        MenuLink { id: "pipeline_7".to_string(), url: "https://c".to_string() },
    ];
    assert_eq!(menu_action("other", &links), MenuAction::Ignore);
    assert_eq!(menu_action("pipeline_7", &links), MenuAction::OpenUrl("https://b".to_string()));
}

#[test]
fn links_never_repeat_an_identifier() {
    let status = OverallStatus::new(
        (0..25)
            .map(|i| entry(Some("Web"), "site", "Site", PipelineState::Healthy, i % 3 != 0))
            .collect(),
        "07:08:09".to_string(),
    );
    let menu = build_status_menu(Some(&status));
    assert_eq!(menu.links.len(), 16);
    for (i, a) in menu.links.iter().enumerate() {
        for b in &menu.links[i + 1..] {
            assert_ne!(a.id, b.id);
        }
    }
    assert_eq!(menu.links[0].id, "pipeline_1");
    assert_eq!(menu.links[15].id, "pipeline_23");
}
