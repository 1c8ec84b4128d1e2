//! What the system tray shows: the icon, and the menu with one entry per
//! monitored pipeline, grouped by project.

use crate::config::{
    OverallStatus, OverallStatusView, PipelineState, PipelineStatusInfo, PipelineStatusInfoView,
};
use crate::outside::{to_uppercase, uppercase_of};
use crate::text::{
    decimal, decimal_digits, is_prefix, lemma_decimal_injective, starts_with, str_eq,
};
use vstd::prelude::*;
use vstd::string::*;

verus! {

/// The identifier of the tray icon.
pub const TRAY_ID: &'static str = "main";

/// The colour of the tray icon.
#[derive(Clone, Copy, Debug, PartialEq, Eq, Structural)]
pub enum TrayStatus {
    /// No monitored pipeline has failed.
    Green,
    /// At least one monitored pipeline has failed.
    Red,
    /// Still loading, or nothing is configured.
    Gray,
}

/// The colour of the dot in front of a pipeline's menu entry.
#[derive(Clone, Copy, Debug, PartialEq, Eq, Structural)]
pub enum MenuIcon {
    Green,
    Red,
    Blue,
    Gray,
}

/// One line of the tray menu.
#[derive(Debug, PartialEq, Eq)]
pub enum MenuEntry {
    Item { id: String, text: String, enabled: bool, icon: Option<MenuIcon> },
    Separator,
}

/// The page that a click on a menu entry opens. The links of a menu are
/// kept in a list in which no identifier occurs twice.
#[derive(Debug, PartialEq, Eq)]
pub struct MenuLink {
    pub id: String,
    pub url: String,
}

/// The tray menu, and the pages that its pipeline entries open.
#[derive(Debug, PartialEq, Eq)]
pub struct StatusMenu {
    pub entries: Vec<MenuEntry>,
    pub links: Vec<MenuLink>,
}

pub enum MenuEntryView {
    Item { id: Seq<char>, text: Seq<char>, enabled: bool, icon: Option<MenuIcon> },
    Separator,
}

pub struct MenuLinkView {
    pub id: Seq<char>,
    pub url: Seq<char>,
}

pub struct StatusMenuView {
    pub entries: Seq<MenuEntryView>,
    pub links: Seq<MenuLinkView>,
}

impl DeepView for MenuEntry {
    type V = MenuEntryView;

    open spec fn deep_view(&self) -> MenuEntryView {
        match self {
            MenuEntry::Item { id, text, enabled, icon } => MenuEntryView::Item {
                id: id@,
                text: text@,
                enabled: *enabled,
                icon: *icon,
            },
            MenuEntry::Separator => MenuEntryView::Separator,
        }
    }
}

impl View for MenuEntry {
    type V = MenuEntryView;

    open spec fn view(&self) -> MenuEntryView {
        self.deep_view()
    }
}

impl DeepView for MenuLink {
    type V = MenuLinkView;

    open spec fn deep_view(&self) -> MenuLinkView {
        MenuLinkView { id: self.id@, url: self.url@ }
    }
}

impl View for MenuLink {
    type V = MenuLinkView;

    open spec fn view(&self) -> MenuLinkView {
        self.deep_view()
    }
}

impl DeepView for StatusMenu {
    type V = StatusMenuView;

    open spec fn deep_view(&self) -> StatusMenuView {
        StatusMenuView { entries: self.entries.deep_view(), links: self.links.deep_view() }
    }
}

impl View for StatusMenu {
    type V = StatusMenuView;

    open spec fn view(&self) -> StatusMenuView {
        self.deep_view()
    }
}

/// A line without icon.
pub open spec fn plain_item(id: Seq<char>, text: Seq<char>, enabled: bool) -> MenuEntryView {
    MenuEntryView::Item { id, text, enabled, icon: None }
}

/// The lines that close every menu: a separator and the three commands.
pub open spec fn command_entries() -> Seq<MenuEntryView> {
    seq![
        MenuEntryView::Separator,
        plain_item("refresh"@, "Refresh Now"@, true),
        plain_item("settings"@, "Settings..."@, true),
        plain_item("quit"@, "Quit"@, true),
    ]
}

/// The menu shown before the first poll has ended.
pub open spec fn initial_menu() -> Seq<MenuEntryView> {
    seq![plain_item("status"@, "Loading..."@, false)] + command_entries()
}

/// The identifier of the entry of the pipeline at `index`.
pub open spec fn pipeline_entry_id(index: nat) -> Seq<char> {
    "pipeline_"@ + decimal_digits(index)
}

impl PipelineStatusInfoView {
    /// The project that the entry is grouped under: the project's name, or
    /// the workspace where the pipeline has none.
    pub open spec fn project_label(self) -> Seq<char> {
        match self.project_name {
            Some(name) => name,
            None => self.workspace,
        }
    }

    /// What follows the repository's name in the menu.
    pub open spec fn status_suffix(self) -> Seq<char> {
        match self.state {
            PipelineState::Healthy => Seq::empty(),
            PipelineState::Failed => " - FAILED"@,
            PipelineState::InProgress => " - running"@,
            PipelineState::Paused => " - ("@ + (match self.stage_name {
                Some(stage) => stage,
                None => "paused"@,
            }) + ")"@,
            PipelineState::Unknown => Seq::empty(),
        }
    }

    /// The colour of the entry's dot.
    pub open spec fn menu_icon(self) -> MenuIcon {
        match self.state {
            PipelineState::Healthy => MenuIcon::Green,
            PipelineState::Failed => MenuIcon::Red,
            PipelineState::InProgress => MenuIcon::Blue,
            PipelineState::Paused => MenuIcon::Green,
            PipelineState::Unknown => MenuIcon::Gray,
        }
    }

    /// The menu line of this entry, the `index`-th of its snapshot. It can
    /// be clicked where the entry has a page to open.
    pub open spec fn menu_item(self, index: nat) -> MenuEntryView {
        MenuEntryView::Item {
            id: pipeline_entry_id(index),
            text: "  "@ + self.display_name() + self.status_suffix(),
            enabled: self.pipeline_url is Some,
            icon: Some(self.menu_icon()),
        }
    }
}

/// The project labels of `statuses`, each once, in the order in which they
/// first occur.
pub open spec fn project_labels(statuses: Seq<PipelineStatusInfoView>) -> Seq<Seq<char>>
    decreases statuses.len(),
{
    if statuses.len() == 0 {
        Seq::empty()
    } else {
        let rest = project_labels(statuses.drop_last());
        let label = statuses.last().project_label();
        if rest.contains(label) {
            rest
        } else {
            rest.push(label)
        }
    }
}

/// The menu lines of the entries grouped under `label`, in the order of
/// the snapshot. Each line keeps the index that its entry has in the
/// snapshot.
pub open spec fn group_items(statuses: Seq<PipelineStatusInfoView>, label: Seq<char>) -> Seq<
    MenuEntryView,
>
    decreases statuses.len(),
{
    if statuses.len() == 0 {
        Seq::empty()
    } else {
        let rest = group_items(statuses.drop_last(), label);
        if statuses.last().project_label() == label {
            rest.push(statuses.last().menu_item((statuses.len() - 1) as nat))
        } else {
            rest
        }
    }
}

/// The heading of the `index`-th project, whose title is given in upper
/// case.
pub open spec fn project_heading(index: nat, upper_title: Seq<char>) -> MenuEntryView {
    plain_item("proj_header_"@ + decimal_digits(index), upper_title, false)
}

/// The sections of the first `count` projects: for each its heading in
/// upper case and its pipelines, with a separator after every project but
/// the last of all.
pub open spec fn project_sections(
    statuses: Seq<PipelineStatusInfoView>,
    labels: Seq<Seq<char>>,
    count: nat,
) -> Seq<MenuEntryView>
    decreases count,
{
    if count == 0 {
        Seq::empty()
    } else {
        let k = (count - 1) as nat;
        project_sections(statuses, labels, k) + seq![
            project_heading(k, uppercase_of(labels[k as int])),
        ] + group_items(statuses, labels[k as int]) + (if k + 1 < labels.len() {
            seq![MenuEntryView::Separator]
        } else {
            Seq::empty()
        })
    }
}

/// The pages that the entries of `statuses` open, by entry identifier, in
/// the order of the snapshot.
pub open spec fn menu_links(statuses: Seq<PipelineStatusInfoView>) -> Seq<MenuLinkView>
    decreases statuses.len(),
{
    if statuses.len() == 0 {
        Seq::empty()
    } else {
        let rest = menu_links(statuses.drop_last());
        match statuses.last().pipeline_url {
            Some(url) => rest.push(
                MenuLinkView { id: pipeline_entry_id((statuses.len() - 1) as nat), url },
            ),
            None => rest,
        }
    }
}

/// No identifier occurs twice among `links`, so each identifier leads to at
/// most one page, as a key of a map does.
pub open spec fn distinct_ids(links: Seq<MenuLinkView>) -> bool {
    forall|i: int, j: int|
        0 <= i < j < links.len() ==> (#[trigger] links[i]).id != (#[trigger] links[j]).id
}

/// The menu for a snapshot, or for none: the projects' sections and the
/// time of the poll, then the commands.
pub open spec fn status_menu(status: Option<OverallStatusView>) -> StatusMenuView {
    match status {
        Some(s) => {
            let labels = project_labels(s.pipeline_statuses);
            StatusMenuView {
                entries: project_sections(s.pipeline_statuses, labels, labels.len()) + seq![
                    MenuEntryView::Separator,
                    plain_item("last_checked"@, "Last checked: "@ + s.last_checked, false),
                ] + command_entries(),
                links: menu_links(s.pipeline_statuses),
            }
        },
        None => StatusMenuView {
            entries: seq![plain_item("no_status"@, "No pipelines configured"@, false)]
                + command_entries(),
            links: Seq::empty(),
        },
    }
}

fn plain(id: &str, text: &str, enabled: bool) -> (r: MenuEntry)
    ensures
        r@ == plain_item(id@, text@, enabled),
{
    MenuEntry::Item { id: String::from_str(id), text: String::from_str(text), enabled, icon: None }
}

fn push_commands(entries: &mut Vec<MenuEntry>)
    ensures
        final(entries).deep_view() == old(entries).deep_view() + command_entries(),
{
    entries.push(MenuEntry::Separator);
    entries.push(plain("refresh", "Refresh Now", true));
    entries.push(plain("settings", "Settings...", true));
    entries.push(plain("quit", "Quit", true));
    assert(entries.deep_view() =~= old(entries).deep_view() + command_entries());
}

/// The menu shown before the first poll has ended.
pub fn build_initial_menu() -> (r: Vec<MenuEntry>)
    ensures
        r.deep_view() == initial_menu(),
{
    let mut entries: Vec<MenuEntry> = Vec::new();
    entries.push(plain("status", "Loading...", false));
    assert(entries.deep_view() =~= seq![plain_item("status"@, "Loading..."@, false)]);
    push_commands(&mut entries);
    entries
}

fn project_label(entry: &PipelineStatusInfo) -> (r: &str)
    ensures
        r@ == entry@.project_label(),
{
    match &entry.project_name {
        Some(name) => name.as_str(),
        None => entry.workspace.as_str(),
    }
}

fn has_label(labels: &Vec<String>, label: &str) -> (r: bool)
    ensures
        r == labels.deep_view().contains(label@),
{
    let mut i: usize = 0;
    while i < labels.len()
        invariant
            i <= labels.len(),
            forall|j: int| 0 <= j < i ==> labels.deep_view()[j] != label@,
        decreases labels.len() - i,
    {
        if str_eq(labels[i].as_str(), label) {
            assert(labels.deep_view()[i as int] == label@);
            return true;
        }
        i += 1;
    }
    false
}

fn labels_of(statuses: &Vec<PipelineStatusInfo>) -> (r: Vec<String>)
    ensures
        r.deep_view() == project_labels(statuses.deep_view()),
{
    let ghost all = statuses.deep_view();
    let mut labels: Vec<String> = Vec::new();
    let mut i: usize = 0;
    assert(labels.deep_view() =~= project_labels(all.take(0)));
    while i < statuses.len()
        invariant
            i <= statuses.len(),
            all == statuses.deep_view(),
            labels.deep_view() == project_labels(all.take(i as int)),
        decreases statuses.len() - i,
    {
        proof {
            assert(all.take(i + 1).drop_last() =~= all.take(i as int));
            assert(all.take(i + 1).last() == statuses[i as int]@);
        }
        let label = project_label(&statuses[i]);
        if !has_label(&labels, label) {
            let ghost before = labels.deep_view();
            labels.push(String::from_str(label));
            assert(labels.deep_view() =~= before.push(label@));
        }
        i += 1;
    }
    assert(all.take(i as int) =~= all);
    labels
}

/// The menu line of `entry`, the `index`-th of its snapshot.
pub fn pipeline_entry(entry: &PipelineStatusInfo, index: usize) -> (r: MenuEntry)
    ensures
        r@ == entry@.menu_item(index as nat),
{
    let mut id = String::from_str("pipeline_");
    id.append(decimal(index as u64).as_str());
    let mut text = String::from_str("  ");
    if entry.repo_name.as_str().is_empty() {
        text.append(entry.repo_slug.as_str());
    } else {
        text.append(entry.repo_name.as_str());
    }
    let icon = match entry.state {
        PipelineState::Healthy => MenuIcon::Green,
        PipelineState::Failed => {
            text.append(" - FAILED");
            MenuIcon::Red
        },
        PipelineState::InProgress => {
            text.append(" - running");
            MenuIcon::Blue
        },
        PipelineState::Paused => {
            text.append(" - (");
            match &entry.stage_name {
                Some(stage) => text.append(stage.as_str()),
                None => text.append("paused"),
            }
            text.append(")");
            MenuIcon::Green
        },
        PipelineState::Unknown => MenuIcon::Gray,
    };
    assert(text@ =~= "  "@ + entry@.display_name() + entry@.status_suffix());
    MenuEntry::Item { id, text, enabled: entry.pipeline_url.is_some(), icon: Some(icon) }
}

/// The heading of the `index`-th project; `upper_title` is the project's
/// label in upper case.
pub fn project_header(index: usize, upper_title: String) -> (r: MenuEntry)
    ensures
        r@ == project_heading(index as nat, upper_title@),
{
    let mut id = String::from_str("proj_header_");
    id.append(decimal(index as u64).as_str());
    MenuEntry::Item { id, text: upper_title, enabled: false, icon: None }
}

fn push_group(entries: &mut Vec<MenuEntry>, statuses: &Vec<PipelineStatusInfo>, label: &str)
    ensures
        final(entries).deep_view() == old(entries).deep_view() + group_items(
            statuses.deep_view(),
            label@,
        ),
{
    let ghost all = statuses.deep_view();
    let ghost start = entries.deep_view();
    let mut i: usize = 0;
    assert(entries.deep_view() =~= start + group_items(all.take(0), label@));
    while i < statuses.len()
        invariant
            i <= statuses.len(),
            all == statuses.deep_view(),
            entries.deep_view() == start + group_items(all.take(i as int), label@),
        decreases statuses.len() - i,
    {
        proof {
            assert(all.take(i + 1).drop_last() =~= all.take(i as int));
            assert(all.take(i + 1).last() == statuses[i as int]@);
        }
        if str_eq(project_label(&statuses[i]), label) {
            let ghost before = entries.deep_view();
            let item = pipeline_entry(&statuses[i], i);
            entries.push(item);
            assert(entries.deep_view() =~= before.push(item@));
            assert(entries.deep_view() =~= start + group_items(all.take(i + 1), label@));
        }
        i += 1;
    }
    assert(all.take(i as int) =~= all);
}

fn links_of(statuses: &Vec<PipelineStatusInfo>) -> (r: Vec<MenuLink>)
    ensures
        r.deep_view() == menu_links(statuses.deep_view()),
{
    let ghost all = statuses.deep_view();
    let mut links: Vec<MenuLink> = Vec::new();
    let mut i: usize = 0;
    assert(links.deep_view() =~= menu_links(all.take(0)));
    while i < statuses.len()
        invariant
            i <= statuses.len(),
            all == statuses.deep_view(),
            links.deep_view() == menu_links(all.take(i as int)),
        decreases statuses.len() - i,
    {
        proof {
            assert(all.take(i + 1).drop_last() =~= all.take(i as int));
            assert(all.take(i + 1).last() == statuses[i as int]@);
        }
        match &statuses[i].pipeline_url {
            Some(url) => {
                let ghost before = links.deep_view();
                let mut id = String::from_str("pipeline_");
                id.append(decimal(i as u64).as_str());
                let link = MenuLink { id, url: url.clone() };
                links.push(link);
                assert(links.deep_view() =~= before.push(link@));
            },
            None => {},
        }
        i += 1;
    }
    assert(all.take(i as int) =~= all);
    links
}

/// The menu for the snapshot `status`, or the menu that says that nothing
/// is configured.
pub fn build_status_menu(status: Option<&OverallStatus>) -> (r: StatusMenu)
    ensures
        r@ == status_menu(status.deep_view()),
        distinct_ids(r@.links),
{
    proof {
        if let Some(s) = status {
            lemma_menu_links_are_distinct(s@.pipeline_statuses);
        }
    }
    let mut entries: Vec<MenuEntry> = Vec::new();
    match status {
        Some(s) => {
            let statuses = &s.pipeline_statuses;
            let labels = labels_of(statuses);
            let ghost all = statuses.deep_view();
            let ghost names = labels.deep_view();
            let mut k: usize = 0;
            assert(entries.deep_view() =~= project_sections(all, names, 0));
            while k < labels.len()
                invariant
                    k <= labels.len(),
                    all == statuses.deep_view(),
                    names == labels.deep_view(),
                    entries.deep_view() == project_sections(all, names, k as nat),
                decreases labels.len() - k,
            {
                let ghost before = entries.deep_view();
                let header = project_header(k, to_uppercase(labels[k].as_str()));
                entries.push(header);
                assert(entries.deep_view() =~= before.push(header@));
                push_group(&mut entries, statuses, labels[k].as_str());
                let ghost grouped = entries.deep_view();
                if k + 1 < labels.len() {
                    entries.push(MenuEntry::Separator);
                    assert(entries.deep_view() =~= grouped.push(MenuEntryView::Separator));
                }
                assert(names[k as int] == labels[k as int]@);
                assert(entries.deep_view() =~= project_sections(all, names, (k + 1) as nat));
                k += 1;
            }
            let ghost sections = entries.deep_view();
            entries.push(MenuEntry::Separator);
            let mut text = String::from_str("Last checked: ");
            text.append(s.last_checked.as_str());
            entries.push(
                MenuEntry::Item {
                    id: String::from_str("last_checked"),
                    text,
                    enabled: false,
                    icon: None,
                },
            );
            assert(entries.deep_view() =~= sections + seq![
                MenuEntryView::Separator,
                plain_item("last_checked"@, "Last checked: "@ + s@.last_checked, false),
            ]);
            push_commands(&mut entries);
            StatusMenu { entries, links: links_of(statuses) }
        },
        None => {
            entries.push(plain("no_status", "No pipelines configured", false));
            assert(entries.deep_view() =~= seq![
                plain_item("no_status"@, "No pipelines configured"@, false),
            ]);
            push_commands(&mut entries);
            let links: Vec<MenuLink> = Vec::new();
            assert(links.deep_view() =~= Seq::empty());
            StatusMenu { entries, links }
        },
    }
}

/// What a click on a menu entry asks for.
#[derive(Debug, PartialEq, Eq)]
pub enum MenuAction {
    /// Poll now.
    Refresh,
    /// Show the settings window.
    OpenSettings,
    /// Leave the application.
    Quit,
    /// Open this page in the browser.
    OpenUrl(String),
    /// The entry has nothing to do.
    Ignore,
}

pub enum MenuActionView {
    Refresh,
    OpenSettings,
    Quit,
    OpenUrl(Seq<char>),
    Ignore,
}

impl DeepView for MenuAction {
    type V = MenuActionView;

    open spec fn deep_view(&self) -> MenuActionView {
        match self {
            MenuAction::Refresh => MenuActionView::Refresh,
            MenuAction::OpenSettings => MenuActionView::OpenSettings,
            MenuAction::Quit => MenuActionView::Quit,
            MenuAction::OpenUrl(url) => MenuActionView::OpenUrl(url@),
            MenuAction::Ignore => MenuActionView::Ignore,
        }
    }
}

impl View for MenuAction {
    type V = MenuActionView;

    open spec fn view(&self) -> MenuActionView {
        self.deep_view()
    }
}

/// The page of the first link whose identifier is `id`.
pub open spec fn linked_url(links: Seq<MenuLinkView>, id: Seq<char>) -> Option<Seq<char>>
    decreases links.len(),
{
    if links.len() == 0 {
        None
    } else if links.first().id == id {
        Some(links.first().url)
    } else {
        linked_url(links.drop_first(), id)
    }
}

/// What a click on the entry `id` asks for: one of the three commands, or
/// the page of a pipeline entry that has one.
pub open spec fn clicked(id: Seq<char>, links: Seq<MenuLinkView>) -> MenuActionView {
    if id == "refresh"@ {
        MenuActionView::Refresh
    } else if id == "settings"@ {
        MenuActionView::OpenSettings
    } else if id == "quit"@ {
        MenuActionView::Quit
    } else if is_prefix("pipeline_"@, id) {
        match linked_url(links, id) {
            Some(url) => MenuActionView::OpenUrl(url),
            None => MenuActionView::Ignore,
        }
    } else {
        MenuActionView::Ignore
    }
}

/// Adding a link at the end only matters to identifiers that had none.
proof fn lemma_linked_url_push(links: Seq<MenuLinkView>, link: MenuLinkView, id: Seq<char>)
    ensures
        linked_url(links.push(link), id) == match linked_url(links, id) {
            Some(url) => Some(url),
            None => if link.id == id {
                Some(link.url)
            } else {
                None
            },
        },
    decreases links.len(),
{
    if links.len() == 0 {
        assert(links.push(link).drop_first() =~= links);
    } else {
        assert(links.push(link).first() == links.first());
        assert(links.push(link).drop_first() =~= links.drop_first().push(link));
        lemma_linked_url_push(links.drop_first(), link, id);
    }
}

/// Entries at different positions have different identifiers.
pub proof fn lemma_entry_ids_differ(a: nat, b: nat)
    requires
        pipeline_entry_id(a) == pipeline_entry_id(b),
    ensures
        a == b,
{
    let head = "pipeline_"@;
    assert(pipeline_entry_id(a).subrange(head.len() as int, pipeline_entry_id(a).len() as int)
        =~= decimal_digits(a));
    assert(pipeline_entry_id(b).subrange(head.len() as int, pipeline_entry_id(b).len() as int)
        =~= decimal_digits(b));
    lemma_decimal_injective(a, b);
}

/// Every link of a snapshot belongs to one of its entries.
proof fn lemma_link_belongs_to_entry(statuses: Seq<PipelineStatusInfoView>, i: int) -> (k: nat)
    requires
        0 <= i < menu_links(statuses).len(),
    ensures
        k < statuses.len(),
        menu_links(statuses)[i].id == pipeline_entry_id(k),
    decreases statuses.len(),
{
    let rest = menu_links(statuses.drop_last());
    if i < rest.len() {
        let k = lemma_link_belongs_to_entry(statuses.drop_last(), i);
        if statuses.last().pipeline_url is Some {
            assert(menu_links(statuses)[i] == rest[i]);
        }
        k
    } else {
        (statuses.len() - 1) as nat
    }
}

/// The links of a snapshot never repeat an identifier: a click leads to at
/// most one page.
pub proof fn lemma_menu_links_are_distinct(statuses: Seq<PipelineStatusInfoView>)
    ensures
        distinct_ids(menu_links(statuses)),
    decreases statuses.len(),
{
    if statuses.len() > 0 {
        let rest = menu_links(statuses.drop_last());
        let links = menu_links(statuses);
        let last = (statuses.len() - 1) as nat;
        lemma_menu_links_are_distinct(statuses.drop_last());
        assert forall|i: int, j: int| 0 <= i < j < links.len() implies (#[trigger] links[i]).id != (
        #[trigger] links[j]).id by {
            if j < rest.len() {
                assert(links[i] == rest[i]);
                assert(links[j] == rest[j]);
            } else {
                assert(links[i] == rest[i]);
                let k = lemma_link_belongs_to_entry(statuses.drop_last(), i);
                if links[i].id == links[j].id {
                    lemma_entry_ids_differ(k, last);
                }
            }
        }
    }
}

/// The link of the entry at `index`, if the snapshot is long enough to
/// have one, is the page of that entry.
proof fn lemma_link_of_entry(statuses: Seq<PipelineStatusInfoView>, index: nat)
    ensures
        linked_url(menu_links(statuses), pipeline_entry_id(index)) == if index < statuses.len() {
            statuses[index as int].pipeline_url
        } else {
            None
        },
    decreases statuses.len(),
{
    if statuses.len() > 0 {
        let rest = statuses.drop_last();
        let last = (statuses.len() - 1) as nat;
        lemma_link_of_entry(rest, index);
        match statuses.last().pipeline_url {
            Some(url) => {
                let link = MenuLinkView { id: pipeline_entry_id(last), url };
                lemma_linked_url_push(menu_links(rest), link, pipeline_entry_id(index));
                if index != last && pipeline_entry_id(last) == pipeline_entry_id(index) {
                    lemma_entry_ids_differ(last, index);
                }
            },
            None => {},
        }
        if index < rest.len() {
            assert(rest[index as int] == statuses[index as int]);
        }
    }
}

/// A click on the menu entry of a pipeline opens the page of that
/// pipeline, and does nothing where the pipeline has no page.
pub proof fn lemma_pipeline_entry_opens_its_page(
    status: OverallStatusView,
    index: int,
)
    requires
        0 <= index < status.pipeline_statuses.len(),
    ensures
        clicked(pipeline_entry_id(index as nat), status_menu(Some(status)).links)
            == match status.pipeline_statuses[index].pipeline_url {
            Some(url) => MenuActionView::OpenUrl(url),
            None => MenuActionView::Ignore,
        },
{
    let id = pipeline_entry_id(index as nat);
    let head = "pipeline_"@;
    reveal_strlit("pipeline_");
    reveal_strlit("refresh");
    reveal_strlit("settings");
    reveal_strlit("quit");
    assert(id[0] == 'p');
    assert("refresh"@[0] == 'r');
    assert("settings"@[0] == 's');
    assert("quit"@[0] == 'q');
    assert(id.subrange(0, head.len() as int) =~= head);
    lemma_link_of_entry(status.pipeline_statuses, index as nat);
}

/// What is in one of two sequences is in their concatenation.
proof fn lemma_concat_contains<A>(a: Seq<A>, b: Seq<A>, x: A)
    requires
        a.contains(x) || b.contains(x),
    ensures
        (a + b).contains(x),
{
    if a.contains(x) {
        let i = choose|i: int| 0 <= i < a.len() && a[i] == x;
        assert((a + b)[i] == x);
    } else {
        let i = choose|i: int| 0 <= i < b.len() && b[i] == x;
        assert((a + b)[a.len() + i] == x);
    }
}

/// The project of every entry is among the project labels.
proof fn lemma_labels_cover(statuses: Seq<PipelineStatusInfoView>, index: int)
    requires
        0 <= index < statuses.len(),
    ensures
        project_labels(statuses).contains(statuses[index].project_label()),
    decreases statuses.len(),
{
    let rest = project_labels(statuses.drop_last());
    let label = statuses.last().project_label();
    if index < statuses.len() - 1 {
        lemma_labels_cover(statuses.drop_last(), index);
        assert(statuses.drop_last()[index] == statuses[index]);
        let j = choose|j: int| 0 <= j < rest.len() && rest[j] == statuses[index].project_label();
        if !rest.contains(label) {
            assert(rest.push(label)[j] == rest[j]);
        }
    } else if !rest.contains(label) {
        assert(rest.push(label)[rest.len() as int] == label);
    }
}

/// The line of every entry is in the group of its project.
proof fn lemma_group_has_item(statuses: Seq<PipelineStatusInfoView>, index: int)
    requires
        0 <= index < statuses.len(),
    ensures
        group_items(statuses, statuses[index].project_label()).contains(
            statuses[index].menu_item(index as nat),
        ),
    decreases statuses.len(),
{
    let label = statuses[index].project_label();
    let item = statuses[index].menu_item(index as nat);
    let rest = group_items(statuses.drop_last(), label);
    if index < statuses.len() - 1 {
        lemma_group_has_item(statuses.drop_last(), index);
        assert(statuses.drop_last()[index] == statuses[index]);
        let j = choose|j: int| 0 <= j < rest.len() && rest[j] == item;
        if statuses.last().project_label() == label {
            assert(rest.push(statuses.last().menu_item((statuses.len() - 1) as nat))[j] == item);
        }
    } else {
        assert(rest.push(item)[rest.len() as int] == item);
    }
}

/// What is in the group of one of the first `count` projects is in their
/// sections.
proof fn lemma_sections_have_groups(
    statuses: Seq<PipelineStatusInfoView>,
    labels: Seq<Seq<char>>,
    count: nat,
    k: int,
    item: MenuEntryView,
)
    requires
        0 <= k < count <= labels.len(),
        group_items(statuses, labels[k]).contains(item),
    ensures
        project_sections(statuses, labels, count).contains(item),
    decreases count,
{
    let last = (count - 1) as nat;
    let before = project_sections(statuses, labels, last);
    let heading = seq![project_heading(last, uppercase_of(labels[last as int]))];
    let group = group_items(statuses, labels[last as int]);
    let tail = if last + 1 < labels.len() {
        seq![MenuEntryView::Separator]
    } else {
        Seq::empty()
    };
    if k < last {
        lemma_sections_have_groups(statuses, labels, last, k, item);
        lemma_concat_contains(before, heading, item);
    }
    lemma_concat_contains(before + heading, group, item);
    lemma_concat_contains(before + heading + group, tail, item);
}

/// Every entry of a snapshot has its line in the menu.
pub proof fn lemma_every_pipeline_is_on_the_menu(status: OverallStatusView, index: int)
    requires
        0 <= index < status.pipeline_statuses.len(),
    ensures
        status_menu(Some(status)).entries.contains(
            status.pipeline_statuses[index].menu_item(index as nat),
        ),
{
    let statuses = status.pipeline_statuses;
    let labels = project_labels(statuses);
    let item = statuses[index].menu_item(index as nat);
    lemma_labels_cover(statuses, index);
    let k = choose|k: int| 0 <= k < labels.len() && labels[k] == statuses[index].project_label();
    lemma_group_has_item(statuses, index);
    lemma_sections_have_groups(statuses, labels, labels.len(), k, item);
    let sections = project_sections(statuses, labels, labels.len());
    let time = seq![
        MenuEntryView::Separator,
        plain_item("last_checked"@, "Last checked: "@ + status.last_checked, false),
    ];
    lemma_concat_contains(sections, time, item);
    lemma_concat_contains(sections + time, command_entries(), item);
}

/// What a click on the entry `id` asks for, given the links of the menu
/// that is shown.
pub fn menu_action(id: &str, links: &Vec<MenuLink>) -> (r: MenuAction)
    ensures
        r@ == clicked(id@, links.deep_view()),
{
    if str_eq(id, "refresh") {
        MenuAction::Refresh
    } else if str_eq(id, "settings") {
        MenuAction::OpenSettings
    } else if str_eq(id, "quit") {
        MenuAction::Quit
    } else if starts_with(id, "pipeline_") {
        let ghost all = links.deep_view();
        let mut i: usize = 0;
        assert(all.skip(0) =~= all);
        while i < links.len()
            invariant
                i <= links.len(),
                all == links.deep_view(),
                id@ != "refresh"@,
                id@ != "settings"@,
                id@ != "quit"@,
                is_prefix("pipeline_"@, id@),
                linked_url(all, id@) == linked_url(all.skip(i as int), id@),
            decreases links.len() - i,
        {
            proof {
                assert(all.skip(i as int).first() == links[i as int]@);
                assert(all.skip(i as int).drop_first() =~= all.skip(i + 1));
            }
            if str_eq(links[i].id.as_str(), id) {
                return MenuAction::OpenUrl(links[i].url.clone());
            }
            i += 1;
        }
        MenuAction::Ignore
    } else {
        MenuAction::Ignore
    }
}

} // verus!
