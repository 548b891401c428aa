//! systemd service management: a searchable list of services and an action
//! menu (status, start, stop, restart, enable, disable) for the selected one.

use vstd::prelude::*;
use crate::commands::{CommandToExecute, is_command, opt_view};
use crate::keys::{
    KeyCode, KeyEvent, is_up, is_down, is_refresh, key_is_up, key_is_down, key_is_refresh,
};
use crate::text::{
    views, lemma_views_push, lines, words, trim, trim_start_by, is_char, contains,
    lowercase, to_lowercase, has_substring, split_lines, split_words, trim_ws, trim_start_char,
    cat, cat3, str_eq, without_last, with_char, ok_or, result_or, decimal, decimal_string,
};
use crate::tui::widgets::{SelectableList, next_sel, prev_sel, index_of, clamp_sel};
use crate::modules::optimizations::{RiskLevel, risk_note, make_risk_note};

verus! {

#[derive(Clone, Copy, Debug, PartialEq, Eq, Structural)]
pub enum SystemdView {
    /// Main list of services
    ServiceList,
    /// Action menu for selected service
    ActionMenu,
}

pub struct ServiceInfo {
    pub name: String,
    /// "active", "inactive", "failed", ...
    pub status: String,
    /// "enabled", "disabled", ...
    pub enabled: String,
}

pub const SYSTEMD_ACTION_ITEMS: [&'static str; 7] = [
    "查看状态 (status)",
    "启动 (start)",
    "停止 (stop)",
    "重启 (restart)",
    "启用开机自启 (enable)",
    "禁用开机自启 (disable)",
    "返回服务列表",
];

pub const SYSTEMD_ACTION_NAMES: [&'static str; 6] = [
    "查看状态",
    "启动服务",
    "停止服务",
    "重启服务",
    "启用开机自启",
    "禁用开机自启",
];

pub const SYSTEMD_VERBS: [&'static str; 6] = [
    "status",
    "start",
    "stop",
    "restart",
    "enable",
    "disable",
];

/// What to expect from each action.
pub const SYSTEMD_WARNINGS: [&'static str; 6] = [
    "只读操作，不修改系统",
    "启动服务可能影响系统运行",
    "停止服务可能导致功能不可用",
    "重启服务会导致短暂中断",
    "服务将在开机时自动启动",
    "禁用后重启系统服务将不会自动启动",
];

/// The risk level of each action.
pub const SYSTEMD_LEVELS: [RiskLevel; 6] = [
    RiskLevel::Low,
    RiskLevel::Medium,
    RiskLevel::High,
    RiskLevel::Medium,
    RiskLevel::Low,
    RiskLevel::Medium,
];

/// The menu entry that leads back to the service list.
pub const BACK_ACTION: usize = 6;

/// The risk note of action `i`: its level, then what to expect.
pub open spec fn systemd_warning(i: int) -> Seq<char> {
    risk_note(SYSTEMD_LEVELS[i], SYSTEMD_WARNINGS[i]@)
}

/// A service name matches the search when the search is empty or occurs in
/// the name, both in lower case.
pub open spec fn name_matches(name: Seq<char>, query: Seq<char>) -> bool {
    query.len() == 0 || contains(lowercase(name), lowercase(query))
}

/// The services that match the search, in their order.
pub open spec fn filtered(s: Seq<ServiceInfo>, q: Seq<char>) -> Seq<ServiceInfo>
    decreases s.len(),
{
    if s.len() == 0 {
        seq![]
    } else {
        let r = filtered(s.drop_last(), q);
        if name_matches(s.last().name@, q) {
            r.push(s.last())
        } else {
            r
        }
    }
}

pub open spec fn status_icon(status: Seq<char>) -> Seq<char> {
    if status == "active"@ {
        "🟢"@
    } else if status == "inactive"@ {
        "⚪"@
    } else if status == "failed"@ {
        "🔴"@
    } else {
        "⚫"@
    }
}

/// The list item of a service: status icon, name, status and enablement.
pub open spec fn service_item(s: ServiceInfo) -> Seq<char> {
    status_icon(s.status@) + " "@ + s.name@ + " ["@ + s.status@ + "] ["@ + s.enabled@ + "]"@
}

pub open spec fn service_items(f: Seq<ServiceInfo>) -> Seq<Seq<char>> {
    f.map_values(|s: ServiceInfo| service_item(s))
}

/// The row of one line of `systemctl list-units` output with at least four
/// words: the unit name (without a leading `●` and white space) and its
/// active state (the third word).
pub open spec fn unit_row(line: Seq<char>) -> Option<(Seq<char>, Seq<char>)> {
    let p = words(line);
    if p.len() >= 4 {
        Some((trim(trim_start_by(p[0], is_char('●'))), p[2]))
    } else {
        None
    }
}

pub open spec fn unit_rows(ls: Seq<Seq<char>>) -> Seq<(Seq<char>, Seq<char>)>
    decreases ls.len(),
{
    if ls.len() == 0 {
        seq![]
    } else {
        let rest = unit_rows(ls.drop_last());
        match unit_row(ls.last()) {
            Some(r) => rest.push(r),
            None => rest,
        }
    }
}

/// The units of a listing: none when the listing failed.
pub open spec fn units_of(listing: Result<String, String>) -> Seq<(Seq<char>, Seq<char>)> {
    match listing {
        Ok(t) => unit_rows(lines(t@)),
        Err(_) => seq![],
    }
}

pub open spec fn pair_views(v: Seq<(String, String)>) -> Seq<(Seq<char>, Seq<char>)> {
    v.map_values(|p: (String, String)| (p.0@, p.1@))
}

fn matches_search(name: &str, lower_query: &str, query_empty: bool) -> (b: bool)
    ensures
        query_empty ==> b,
        !query_empty ==> b == contains(lowercase(name@), lower_query@),
{
    if query_empty {
        true
    } else {
        let lower = to_lowercase(name);
        has_substring(lower.as_str(), lower_query)
    }
}

fn service_item_of(s: &ServiceInfo) -> (item: String)
    ensures
        item@ == service_item(*s),
{
    let icon = if str_eq(s.status.as_str(), "active") {
        "🟢"
    } else if str_eq(s.status.as_str(), "inactive") {
        "⚪"
    } else if str_eq(s.status.as_str(), "failed") {
        "🔴"
    } else {
        "⚫"
    };
    let a = cat3(icon, " ", s.name.as_str());
    let b = cat3(a.as_str(), " [", s.status.as_str());
    let c = cat3(b.as_str(), "] [", s.enabled.as_str());
    cat(c.as_str(), "]")
}

/// The services that match `query`: their list items and their names.
fn filter_services(services: &Vec<ServiceInfo>, query: &str) -> (r: (Vec<String>, Vec<String>))
    ensures
        views(r.0@) == service_items(filtered(services@, query@)),
        views(r.1@) == filtered(services@, query@).map_values(|s: ServiceInfo| s.name@),
{
    let lower_query = to_lowercase(query);
    let query_empty = query.is_empty();
    let mut items: Vec<String> = Vec::new();
    let mut names: Vec<String> = Vec::new();
    let mut i: usize = 0;
    assert(services@.take(0) =~= seq![]);
    while i < services.len()
        invariant
            i <= services.len(),
            lower_query@ == lowercase(query@),
            query_empty == (query@.len() == 0),
            views(items@) == service_items(filtered(services@.take(i as int), query@)),
            views(names@) == filtered(services@.take(i as int), query@).map_values(
                |s: ServiceInfo| s.name@,
            ),
        decreases services.len() - i,
    {
        let s = &services[i];
        let ghost pre = services@.take(i + 1);
        assert(pre.drop_last() =~= services@.take(i as int));
        assert(pre.last() == *s);
        let ghost f = filtered(services@.take(i as int), query@);
        if matches_search(s.name.as_str(), lower_query.as_str(), query_empty) {
            let item = service_item_of(s);
            let name = s.name.clone();
            proof {
                lemma_views_push(items@, item);
                lemma_views_push(names@, name);
            }
            assert(service_items(f.push(*s)) =~= service_items(f).push(item@));
            assert(f.push(*s).map_values(|s: ServiceInfo| s.name@) =~= f.map_values(
                |s: ServiceInfo| s.name@,
            ).push(name@));
            items.push(item);
            names.push(name);
        }
        i += 1;
    }
    assert(services@.take(services.len() as int) =~= services@);
    (items, names)
}

fn unit_rows_of(text: &str) -> (rows: Vec<(String, String)>)
    ensures
        pair_views(rows@) == unit_rows(lines(text@)),
{
    let ls = split_lines(text);
    let mut rows: Vec<(String, String)> = Vec::new();
    let mut i: usize = 0;
    assert(views(ls@).take(0) =~= seq![]);
    assert(pair_views(rows@) =~= seq![]);
    while i < ls.len()
        invariant
            i <= ls.len(),
            views(ls@) == lines(text@),
            pair_views(rows@) == unit_rows(views(ls@).take(i as int)),
        decreases ls.len() - i,
    {
        let ghost pre = views(ls@).take(i + 1);
        assert(pre.drop_last() =~= views(ls@).take(i as int));
        assert(pre.last() == ls@[i as int]@);
        let parts = split_words(ls[i].as_str());
        assert(views(parts@).len() == parts@.len());
        if parts.len() >= 4 {
            let stripped = trim_start_char(parts[0].as_str(), '●');
            let name = trim_ws(stripped.as_str());
            let active = parts[2].clone();
            let row = (name, active);
            assert(pair_views(rows@.push(row)) =~= pair_views(rows@).push((row.0@, row.1@)));
            rows.push(row);
        }
        i += 1;
    }
    assert(views(ls@).take(ls.len() as int) =~= views(ls@));
    rows
}

pub struct SystemdModule {
    pub selected_index: usize,
    pub services: Vec<ServiceInfo>,
    pub list: SelectableList,
    pub action_list: SelectableList,
    pub view: SystemdView,
    pub search_query: String,
    pub is_searching: bool,
    /// The services are to be listed anew (see `parse_units` and
    /// `load_services`).
    pub wants_data: bool,
}

impl SystemdModule {
    /// The list shows exactly the services that match the search.
    pub open spec fn wf(&self) -> bool {
        self.list.item_views() == service_items(filtered(self.services@, self.search_query@))
    }

    /// The name of the service that the list selection stands for, if any.
    pub open spec fn selected_name(&self) -> Option<Seq<char>> {
        let f = filtered(self.services@, self.search_query@);
        let i = index_of(self.list.sel());
        if i < f.len() {
            Some(f[i as int].name@)
        } else {
            None
        }
    }

    /// `new` lists the services that match its search, the first selected.
    pub open spec fn list_rebuilt(new: Self) -> bool {
        let n = filtered(new.services@, new.search_query@).len();
        &&& new.list.item_views() == service_items(filtered(new.services@, new.search_query@))
        &&& new.list.sel() == (if n > 0 {
            Some(0usize)
        } else {
            None
        })
    }

    /// What one key does.
    ///
    /// While searching: Esc and Enter stop searching; Backspace deletes and
    /// other characters are typed, the list then showing the matching
    /// services. In the service list: `↑↓`/`jk` move the selection, `/`
    /// starts searching, `r`/`R` refreshes (see `refresh_step`), Enter opens the action menu (its first entry
    /// selected) when a service is selected. In the action menu: `↑↓`/`jk`
    /// move, Esc and the last entry go back, Enter on another entry asks for
    /// that `systemctl` action on the selected service, with its risk note; `r`/`R` does nothing
    /// there, so that the service under the open menu stays the same.
    pub open spec fn key_step(
        old: Self,
        new: Self,
        key: KeyEvent,
        out: Option<CommandToExecute>,
    ) -> bool {
        if old.is_searching {
            &&& out is None
            &&& match key.code {
                KeyCode::Esc | KeyCode::Enter => new == (SystemdModule {
                    is_searching: false,
                    ..old
                }),
                KeyCode::Backspace => {
                    &&& new.search_query@ == (if old.search_query@.len() > 0 {
                        old.search_query@.drop_last()
                    } else {
                        old.search_query@
                    })
                    &&& Self::list_rebuilt(new)
                    &&& new == (SystemdModule {
                        search_query: new.search_query,
                        list: new.list,
                        ..old
                    })
                },
                KeyCode::Char(c) => {
                    &&& new.search_query@ == old.search_query@.push(c)
                    &&& Self::list_rebuilt(new)
                    &&& new == (SystemdModule {
                        search_query: new.search_query,
                        list: new.list,
                        ..old
                    })
                },
                _ => new == old,
            }
        } else if old.view == SystemdView::ServiceList {
            &&& out is None
            &&& if is_up(key.code) || is_down(key.code) {
                let len = old.list.item_views().len();
                &&& new.list.item_views() == old.list.item_views()
                &&& new.list.sel() == if is_up(key.code) {
                    prev_sel(old.list.sel(), len)
                } else {
                    next_sel(old.list.sel(), len)
                }
                &&& new.selected_index == index_of(new.list.sel())
                &&& new == (SystemdModule {
                    list: new.list,
                    selected_index: new.selected_index,
                    ..old
                })
            } else if key.code == KeyCode::Char('/') {
                new == (SystemdModule { is_searching: true, ..old })
            } else if is_refresh(key.code) {
                Self::refresh_step(old, new)
            } else if key.code == KeyCode::Enter {
                if old.selected_name() is Some {
                    &&& new.view == SystemdView::ActionMenu
                    &&& new.action_list.item_views() == old.action_list.item_views()
                    &&& new.action_list.sel() == clamp_sel(
                        Some(0usize),
                        old.action_list.item_views().len(),
                    )
                    &&& new == (SystemdModule {
                        view: new.view,
                        action_list: new.action_list,
                        ..old
                    })
                } else {
                    new == old
                }
            } else {
                new == old
            }
        } else {
            let ai = index_of(old.action_list.sel());
            if is_up(key.code) || is_down(key.code) {
                let len = old.action_list.item_views().len();
                &&& out is None
                &&& new.action_list.item_views() == old.action_list.item_views()
                &&& new.action_list.sel() == if is_up(key.code) {
                    prev_sel(old.action_list.sel(), len)
                } else {
                    next_sel(old.action_list.sel(), len)
                }
                &&& new == (SystemdModule { action_list: new.action_list, ..old })
            } else if key.code == KeyCode::Esc || (key.code == KeyCode::Enter && ai == BACK_ACTION) {
                out is None && new == (SystemdModule { view: SystemdView::ServiceList, ..old })
            } else if key.code == KeyCode::Enter {
                &&& new == old
                &&& match old.selected_name() {
                    Some(name) => if ai < BACK_ACTION {
                        out matches Some(c) && is_command(
                            c,
                            SYSTEMD_ACTION_NAMES[ai as int]@ + ": "@ + name,
                            "systemctl "@ + SYSTEMD_VERBS[ai as int]@ + " "@ + name,
                            Some(systemd_warning(ai as int)),
                        )
                    } else {
                        out is None
                    },
                    None => out is None,
                }
            } else {
                out is None && new == old
            }
        }
    }

    /// No services yet; the service list is shown.
    pub fn new() -> (m: Self)
        ensures
            m.wf(),
            m.services@.len() == 0,
            m.search_query@.len() == 0,
            m.view == SystemdView::ServiceList,
            !m.is_searching,
            !m.wants_data,
            m.selected_index == 0,
            m.action_list.item_views() == Seq::new(7, |i: int| SYSTEMD_ACTION_ITEMS[i]@),
    {
        let mut actions: Vec<String> = Vec::new();
        let mut i: usize = 0;
        while i < 7
            invariant
                i <= 7,
                views(actions@) == Seq::new(i as nat, |k: int| SYSTEMD_ACTION_ITEMS[k]@),
            decreases 7 - i,
        {
            let t = SYSTEMD_ACTION_ITEMS[i];
            assert(t == SYSTEMD_ACTION_ITEMS[i as int]);
            let item = String::from_str(t);
            proof {
                lemma_views_push(actions@, item);
            }
            assert(views(actions@).push(item@) =~= Seq::new(
                (i + 1) as nat,
                |k: int| SYSTEMD_ACTION_ITEMS[k]@,
            ));
            actions.push(item);
            i += 1;
        }
        let services: Vec<ServiceInfo> = Vec::new();
        let m = SystemdModule {
            selected_index: 0,
            services,
            list: SelectableList::new(Vec::new()),
            action_list: SelectableList::new(actions),
            view: SystemdView::ServiceList,
            search_query: String::new(),
            is_searching: false,
            wants_data: false,
        };
        assert(views(Seq::<String>::empty()) =~= seq![]);
        assert(service_items(filtered(m.services@, m.search_query@)) =~= seq![]);
        m
    }

    /// Rebuilds the list from the services that match the search.
    pub fn update_list_items(&mut self)
        ensures
            Self::list_rebuilt(*final(self)),
            final(self).wf(),
            *final(self) == (SystemdModule { list: final(self).list, ..*old(self) }),
    {
        let (items, _) = filter_services(&self.services, self.search_query.as_str());
        assert(views(items@).len() == items@.len());
        self.list = SelectableList::new(items);
    }

    /// The text of the search bar: the search (with a cursor while typing),
    /// or how to search and how many services there are.
    pub fn search_bar_text(&self) -> (t: String)
        ensures
            t@ == (if self.search_query@.len() == 0 {
                if self.is_searching {
                    "  搜索: _"@
                } else {
                    "  按 / 搜索  │  共 "@ + decimal(self.services@.len()) + " 个服务"@
                }
            } else {
                "  搜索: "@ + self.search_query@ + (if self.is_searching {
                    "_"@
                } else {
                    ""@
                })
            }),
    {
        if self.search_query.as_str().is_empty() {
            if self.is_searching {
                String::from_str("  搜索: _")
            } else {
                let n = decimal_string(self.services.len() as u64);
                cat3("  按 / 搜索  │  共 ", n.as_str(), " 个服务")
            }
        } else {
            let cursor = if self.is_searching {
                "_"
            } else {
                ""
            };
            cat3("  搜索: ", self.search_query.as_str(), cursor)
        }
    }

    /// The title of the action menu: the selected service (none: empty).
    pub fn menu_title(&self) -> (t: String)
        ensures
            t@ == "⚙ "@ + (match self.selected_name() {
                Some(n) => n,
                None => ""@,
            }) + " - 操作"@,
    {
        let name = match self.get_selected_service_name() {
            Some(n) => n,
            None => String::from_str(""),
        };
        cat3("⚙ ", name.as_str(), " - 操作")
    }

    /// The name of the selected service among those that match the search.
    pub fn get_selected_service_name(&self) -> (r: Option<String>)
        ensures
            opt_view(r) == self.selected_name(),
    {
        let idx = self.list.selected_index();
        let (_, names) = filter_services(&self.services, self.search_query.as_str());
        let ghost f = filtered(self.services@, self.search_query@);
        assert(views(names@).len() == names@.len());
        assert(f.map_values(|s: ServiceInfo| s.name@).len() == f.len());
        if idx < names.len() {
            assert(views(names@)[idx as int] == names@[idx as int]@);
            assert(f.map_values(|s: ServiceInfo| s.name@)[idx as int] == f[idx as int].name@);
            Some(names[idx].clone())
        } else {
            None
        }
    }

    /// The units of a `systemctl list-units` listing: name and active state
    /// of every line with at least four words.
    pub fn parse_units(listing: &Result<String, String>) -> (units: Vec<(String, String)>)
        ensures
            pair_views(units@) == units_of(*listing),
    {
        match listing {
            Ok(text) => unit_rows_of(text.as_str()),
            Err(_) => {
                let v: Vec<(String, String)> = Vec::new();
                assert(pair_views(v@) =~= seq![]);
                v
            },
        }
    }

    /// The command that tells whether the unit `name` is enabled.
    pub fn enabled_query(name: &str) -> (q: String)
        ensures
            q@ == "systemctl is-enabled "@ + name@ + " 2>/dev/null"@,
    {
        cat3("systemctl is-enabled ", name, " 2>/dev/null")
    }

    /// Takes the listed units with the answers of their enablement queries
    /// ("unknown" where a query failed) and rebuilds the list.
    pub fn load_services(&mut self, units: &Vec<(String, String)>, enabled: &Vec<Result<String, String>>)
        requires
            units.len() == enabled.len(),
        ensures
            final(self).services@.len() == units@.len(),
            forall|i: int|
                0 <= i < units@.len() ==> {
                    &&& (#[trigger] final(self).services@[i]).name@ == units@[i].0@
                    &&& final(self).services@[i].status@ == units@[i].1@
                    &&& final(self).services@[i].enabled@ == ok_or(enabled@[i], "unknown"@)
                },
            Self::list_rebuilt(*final(self)),
            final(self).wf(),
            !final(self).wants_data,
            final(self).search_query == old(self).search_query,
            final(self).view == old(self).view,
            final(self).is_searching == old(self).is_searching,
            final(self).action_list == old(self).action_list,
            final(self).selected_index == old(self).selected_index,
    {
        let mut services: Vec<ServiceInfo> = Vec::new();
        let mut i: usize = 0;
        while i < units.len()
            invariant
                units.len() == enabled.len(),
                i <= units.len(),
                services@.len() == i,
                forall|k: int|
                    0 <= k < i ==> {
                        &&& (#[trigger] services@[k]).name@ == units@[k].0@
                        &&& services@[k].status@ == units@[k].1@
                        &&& services@[k].enabled@ == ok_or(enabled@[k], "unknown"@)
                    },
            decreases units.len() - i,
        {
            let info = ServiceInfo {
                name: units[i].0.clone(),
                status: units[i].1.clone(),
                enabled: result_or(&enabled[i], "unknown"),
            };
            services.push(info);
            i += 1;
        }
        self.services = services;
        self.wants_data = false;
        self.update_list_items();
    }

    pub fn handle_key_event(&mut self, key: KeyEvent) -> (out: Option<CommandToExecute>)
        ensures
            Self::key_step(*old(self), *final(self), key, out),
            old(self).wf() ==> final(self).wf(),
    {
        if self.is_searching {
            match key.code {
                KeyCode::Esc | KeyCode::Enter => {
                    self.is_searching = false;
                },
                KeyCode::Backspace => {
                    self.search_query = without_last(self.search_query.as_str());
                    self.update_list_items();
                },
                KeyCode::Char(c) => {
                    self.search_query = with_char(self.search_query.as_str(), c);
                    self.update_list_items();
                },
                _ => {},
            }
            return None;
        }
        match self.view {
            SystemdView::ServiceList => {
                if key_is_up(key.code) {
                    self.list.previous();
                    self.selected_index = self.list.selected_index();
                } else if key_is_down(key.code) {
                    self.list.next();
                    self.selected_index = self.list.selected_index();
                } else if key.code == KeyCode::Char('/') {
                    self.is_searching = true;
                } else if key_is_refresh(key.code) {
                    self.refresh();
                } else if key.code == KeyCode::Enter {
                    if self.get_selected_service_name().is_some() {
                        self.view = SystemdView::ActionMenu;
                        self.action_list.select(Some(0));
                    }
                }
                None
            },
            SystemdView::ActionMenu => {
                if key_is_up(key.code) {
                    self.action_list.previous();
                    None
                } else if key_is_down(key.code) {
                    self.action_list.next();
                    None
                } else if key.code == KeyCode::Esc {
                    self.view = SystemdView::ServiceList;
                    None
                } else if key.code == KeyCode::Enter {
                    let action_idx = self.action_list.selected_index();
                    if action_idx == BACK_ACTION {
                        self.view = SystemdView::ServiceList;
                        return None;
                    }
                    match self.get_selected_service_name() {
                        Some(svc_name) => {
                            if action_idx < BACK_ACTION {
                                let warning = make_risk_note(
                                    SYSTEMD_LEVELS[action_idx],
                                    SYSTEMD_WARNINGS[action_idx],
                                );
                                let display = cat3(
                                    SYSTEMD_ACTION_NAMES[action_idx],
                                    ": ",
                                    svc_name.as_str(),
                                );
                                let head = cat3("systemctl ", SYSTEMD_VERBS[action_idx], " ");
                                let cmd = cat(head.as_str(), svc_name.as_str());
                                Some(
                                    CommandToExecute {
                                        display_name: display,
                                        command_string: cmd,
                                        risk_warning: Some(warning),
                                    },
                                )
                            } else {
                                None
                            }
                        },
                        None => None,
                    }
                } else {
                    None
                }
            },
        }
    }

    /// What `refresh` does: ask for the services to be listed anew.
    pub open spec fn refresh_step(old: Self, new: Self) -> bool {
        new == (SystemdModule { wants_data: true, ..old })
    }

    pub fn refresh(&mut self)
        ensures
            Self::refresh_step(*old(self), *final(self)),
    {
        self.wants_data = true;
    }
}

/// With an empty search every service is listed, in order.
pub proof fn lemma_empty_search_lists_all(s: Seq<ServiceInfo>, q: Seq<char>)
    requires
        q.len() == 0,
    ensures
        filtered(s, q) == s,
    decreases s.len(),
{
    if s.len() > 0 {
        lemma_empty_search_lists_all(s.drop_last(), q);
        assert(s.drop_last().push(s.last()) =~= s);
    }
}

/// Every listed service matches the search and is one of the services; the
/// list is no longer than the services.
pub proof fn lemma_listed_services_match(s: Seq<ServiceInfo>, q: Seq<char>)
    ensures
        filtered(s, q).len() <= s.len(),
        forall|i: int|
            0 <= i < filtered(s, q).len() ==> name_matches(#[trigger] filtered(s, q)[i].name@, q)
                && s.contains(filtered(s, q)[i]),
    decreases s.len(),
{
    if s.len() > 0 {
        lemma_listed_services_match(s.drop_last(), q);
        let r = filtered(s.drop_last(), q);
        assert forall|i: int| 0 <= i < filtered(s, q).len() implies name_matches(
            #[trigger] filtered(s, q)[i].name@,
            q,
        ) && s.contains(filtered(s, q)[i]) by {
            if i < r.len() {
                assert(filtered(s, q)[i] == r[i]);
                assert(name_matches(r[i].name@, q));
                assert(s.drop_last().contains(r[i]));
                let j = choose|j: int| 0 <= j < s.drop_last().len() && s.drop_last()[j] == r[i];
                assert(s[j] == r[i]);
            } else {
                assert(filtered(s, q)[i] == s.last());
                assert(s[s.len() - 1] == s.last());
            }
        }
    }
}

/// A command asked for from the action menu acts on the selected service
/// with the verb that its menu entry names: status, start, stop, restart,
/// enable or disable, in the order of the menu; its name is the action's
/// name and the service.
pub proof fn lemma_menu_entry_names_the_verb(
    old: SystemdModule,
    new: SystemdModule,
    key: KeyEvent,
    c: CommandToExecute,
)
    requires
        SystemdModule::key_step(old, new, key, Some(c)),
    ensures
        old.view == SystemdView::ActionMenu,
        !old.is_searching,
        key.code == KeyCode::Enter,
        new == old,
        old.selected_name() is Some,
        ({
            let ai = index_of(old.action_list.sel());
            let n = old.selected_name()->0;
            let verb = if ai == 0 {
                "status"@
            } else if ai == 1 {
                "start"@
            } else if ai == 2 {
                "stop"@
            } else if ai == 3 {
                "restart"@
            } else if ai == 4 {
                "enable"@
            } else {
                "disable"@
            };
            &&& ai < 6
            &&& c.command_string@ == "systemctl "@ + verb + " "@ + n
            &&& c.display_name@ == SYSTEMD_ACTION_NAMES[ai as int]@ + ": "@ + n
        }),
{
}


/// Searching hides no match: every service whose name matches the search
/// is listed.
pub proof fn lemma_every_match_is_listed(s: Seq<ServiceInfo>, q: Seq<char>)
    ensures
        forall|i: int|
            0 <= i < s.len() && name_matches(#[trigger] s[i].name@, q) ==> filtered(s, q).contains(
                s[i],
            ),
    decreases s.len(),
{
    if s.len() > 0 {
        let r = filtered(s.drop_last(), q);
        lemma_every_match_is_listed(s.drop_last(), q);
        assert forall|i: int|
            0 <= i < s.len() && name_matches(#[trigger] s[i].name@, q) implies filtered(
            s,
            q,
        ).contains(s[i]) by {
            if i < s.len() - 1 {
                assert(s.drop_last()[i] == s[i]);
                assert(r.contains(s[i]));
                let j = choose|j: int| 0 <= j < r.len() && r[j] == s[i];
                if name_matches(s.last().name@, q) {
                    assert(filtered(s, q)[j] == s[i]);
                } else {
                    assert(filtered(s, q)[j] == s[i]);
                }
            } else {
                assert(s[i] == s.last());
                let f = filtered(s, q);
                assert(f[f.len() - 1] == s.last());
            }
        }
    }
}

} // verus!
