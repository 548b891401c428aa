//! Package maintenance for the package manager that the system has.

use vstd::prelude::*;
use crate::commands::{CommandToExecute, is_command};
use crate::keys::{
    KeyCode, KeyEvent, is_up, is_down, is_refresh, key_is_up, key_is_down, key_is_refresh,
};
use crate::text::{views, lemma_views_push, cat, cat3, decimal, decimal_string};
use crate::tui::widgets::{SelectableList, next_sel, prev_sel, index_of};
use crate::modules::optimizations::{RiskLevel, risk_note, make_risk_note};

verus! {

#[derive(Debug, Clone, Copy, PartialEq, Eq, Structural)]
pub enum PackageManager {
    Pacman,
    Dnf,
    Apt,
    Zypper,
    Unknown,
}

pub const PACMAN_NAMES: [&'static str; 7] = [
    "刷新软件源",
    "检查可更新包",
    "升级系统",
    "清理包缓存",
    "查看已安装包数量",
    "查看孤立包",
    "删除孤立包",
];

pub const PACMAN_COMMANDS: [&'static str; 7] = [
    "pacman -Sy",
    "pacman -Qu",
    "pacman -Syu --noconfirm",
    "pacman -Sc --noconfirm",
    "pacman -Q | wc -l",
    "pacman -Qdt",
    "pacman -Rns $(pacman -Qdtq) --noconfirm",
];

pub const PACMAN_WARNINGS: [&'static str; 7] = [
    "将从网络同步软件源索引",
    "只读操作，不修改系统",
    "将升级所有软件包，可能影响系统稳定性",
    "将删除旧版本包缓存",
    "只读操作，不修改系统",
    "只读操作，不修改系统",
    "将移除所有不再被依赖的包",
];

pub const PACMAN_LEVELS: [RiskLevel; 7] = [
    RiskLevel::Low,
    RiskLevel::Low,
    RiskLevel::High,
    RiskLevel::Low,
    RiskLevel::Low,
    RiskLevel::Low,
    RiskLevel::High,
];

pub const DNF_NAMES: [&'static str; 6] = [
    "刷新软件源",
    "检查可更新包",
    "升级系统",
    "清理缓存",
    "查看已安装包数量",
    "自动移除依赖",
];

pub const DNF_COMMANDS: [&'static str; 6] = [
    "dnf makecache",
    "dnf check-update",
    "dnf upgrade -y",
    "dnf clean all",
    "dnf list installed | wc -l",
    "dnf autoremove -y",
];

pub const DNF_WARNINGS: [&'static str; 6] = [
    "将从网络下载软件源元数据",
    "只读操作，不修改系统",
    "将升级所有软件包",
    "将删除所有缓存的元数据和软件包",
    "只读操作，不修改系统",
    "将删除不再需要的依赖包",
];

pub const DNF_LEVELS: [RiskLevel; 6] = [
    RiskLevel::Low,
    RiskLevel::Low,
    RiskLevel::High,
    RiskLevel::Low,
    RiskLevel::Low,
    RiskLevel::Medium,
];

pub const APT_NAMES: [&'static str; 5] = [
    "刷新软件源",
    "检查可更新包",
    "升级系统",
    "清理缓存",
    "自动移除依赖",
];

pub const APT_COMMANDS: [&'static str; 5] = [
    "apt update",
    "apt list --upgradable 2>/dev/null",
    "apt upgrade -y",
    "apt clean",
    "apt autoremove -y",
];

pub const APT_WARNINGS: [&'static str; 5] = [
    "将从网络下载软件源索引",
    "只读操作，不修改系统",
    "将升级所有软件包",
    "将删除已下载的软件包缓存",
    "将删除不再需要的依赖包",
];

pub const APT_LEVELS: [RiskLevel; 5] = [
    RiskLevel::Low,
    RiskLevel::Low,
    RiskLevel::High,
    RiskLevel::Low,
    RiskLevel::Medium,
];

pub const ZYPPER_NAMES: [&'static str; 4] = ["刷新软件源", "检查可更新包", "升级系统", "清理缓存"];

pub const ZYPPER_COMMANDS: [&'static str; 4] = [
    "zypper refresh",
    "zypper list-updates",
    "zypper update -y",
    "zypper clean --all",
];

pub const ZYPPER_WARNINGS: [&'static str; 4] = [
    "将从网络刷新软件源",
    "只读操作，不修改系统",
    "将升级所有软件包",
    "将删除所有缓存的元数据和软件包",
];

pub const ZYPPER_LEVELS: [RiskLevel; 4] = [
    RiskLevel::Low,
    RiskLevel::Low,
    RiskLevel::High,
    RiskLevel::Low,
];

pub open spec fn name_spec(pm: PackageManager) -> Seq<char> {
    match pm {
        PackageManager::Pacman => "pacman"@,
        PackageManager::Dnf => "dnf"@,
        PackageManager::Apt => "apt"@,
        PackageManager::Zypper => "zypper"@,
        PackageManager::Unknown => "unknown"@,
    }
}

/// How many actions the manager offers.
pub open spec fn action_count(pm: PackageManager) -> nat {
    match pm {
        PackageManager::Pacman => 7,
        PackageManager::Dnf => 6,
        PackageManager::Apt => 5,
        PackageManager::Zypper => 4,
        PackageManager::Unknown => 0,
    }
}

/// Name, command and what to expect of action `i`.
pub open spec fn action_texts(pm: PackageManager, i: int) -> (&'static str, &'static str, &'static str) {
    match pm {
        PackageManager::Pacman => (PACMAN_NAMES[i], PACMAN_COMMANDS[i], PACMAN_WARNINGS[i]),
        PackageManager::Dnf => (DNF_NAMES[i], DNF_COMMANDS[i], DNF_WARNINGS[i]),
        PackageManager::Apt => (APT_NAMES[i], APT_COMMANDS[i], APT_WARNINGS[i]),
        PackageManager::Zypper => (ZYPPER_NAMES[i], ZYPPER_COMMANDS[i], ZYPPER_WARNINGS[i]),
        PackageManager::Unknown => ("", "", ""),
    }
}

/// The risk level of action `i`.
pub open spec fn action_level(pm: PackageManager, i: int) -> RiskLevel {
    match pm {
        PackageManager::Pacman => PACMAN_LEVELS[i],
        PackageManager::Dnf => DNF_LEVELS[i],
        PackageManager::Apt => APT_LEVELS[i],
        PackageManager::Zypper => ZYPPER_LEVELS[i],
        PackageManager::Unknown => RiskLevel::Low,
    }
}

/// The risk note of action `i`: its level, then what to expect.
pub open spec fn action_warning(pm: PackageManager, i: int) -> Seq<char> {
    risk_note(action_level(pm, i), action_texts(pm, i).2@)
}

/// The list item of action `i`: its name, then its command in brackets.
pub open spec fn action_item(pm: PackageManager, i: int) -> Seq<char> {
    action_texts(pm, i).0@ + " ("@ + action_texts(pm, i).1@ + ")"@
}

pub open spec fn action_items(pm: PackageManager) -> Seq<Seq<char>> {
    Seq::new(action_count(pm), |i: int| action_item(pm, i))
}

/// The manager found first, in the order pacman, dnf, apt, zypper.
pub open spec fn detect_spec(pacman: bool, dnf: bool, apt: bool, zypper: bool) -> PackageManager {
    if pacman {
        PackageManager::Pacman
    } else if dnf {
        PackageManager::Dnf
    } else if apt {
        PackageManager::Apt
    } else if zypper {
        PackageManager::Zypper
    } else {
        PackageManager::Unknown
    }
}

impl PackageManager {
    /// The manager, given which of the four commands exist (`command -v`).
    pub fn detect(has_pacman: bool, has_dnf: bool, has_apt: bool, has_zypper: bool) -> (pm: Self)
        ensures
            pm == detect_spec(has_pacman, has_dnf, has_apt, has_zypper),
    {
        if has_pacman {
            PackageManager::Pacman
        } else if has_dnf {
            PackageManager::Dnf
        } else if has_apt {
            PackageManager::Apt
        } else if has_zypper {
            PackageManager::Zypper
        } else {
            PackageManager::Unknown
        }
    }

    pub fn name(&self) -> (s: &'static str)
        ensures
            s@ == name_spec(*self),
    {
        match self {
            PackageManager::Pacman => "pacman",
            PackageManager::Dnf => "dnf",
            PackageManager::Apt => "apt",
            PackageManager::Zypper => "zypper",
            PackageManager::Unknown => "unknown",
        }
    }

    pub fn action_count(&self) -> (n: usize)
        ensures
            n == action_count(*self),
    {
        match self {
            PackageManager::Pacman => 7,
            PackageManager::Dnf => 6,
            PackageManager::Apt => 5,
            PackageManager::Zypper => 4,
            PackageManager::Unknown => 0,
        }
    }

    /// The risk level of action `i`.
    pub fn level(&self, i: usize) -> (l: RiskLevel)
        requires
            i < action_count(*self),
        ensures
            l == action_level(*self, i as int),
    {
        match self {
            PackageManager::Pacman => PACMAN_LEVELS[i],
            PackageManager::Dnf => DNF_LEVELS[i],
            PackageManager::Apt => APT_LEVELS[i],
            PackageManager::Zypper => ZYPPER_LEVELS[i],
            PackageManager::Unknown => RiskLevel::Low,
        }
    }

    /// Name, command and what to expect of action `i`.
    pub fn action(&self, i: usize) -> (t: (&'static str, &'static str, &'static str))
        requires
            i < action_count(*self),
        ensures
            t == action_texts(*self, i as int),
    {
        match self {
            PackageManager::Pacman => (PACMAN_NAMES[i], PACMAN_COMMANDS[i], PACMAN_WARNINGS[i]),
            PackageManager::Dnf => (DNF_NAMES[i], DNF_COMMANDS[i], DNF_WARNINGS[i]),
            PackageManager::Apt => (APT_NAMES[i], APT_COMMANDS[i], APT_WARNINGS[i]),
            PackageManager::Zypper => (ZYPPER_NAMES[i], ZYPPER_COMMANDS[i], ZYPPER_WARNINGS[i]),
            PackageManager::Unknown => ("", "", ""),
        }
    }

    /// All actions: (display name, command, what to expect). Every action
    /// has the last.
    pub fn actions(&self) -> (v: Vec<(&'static str, &'static str, Option<&'static str>)>)
        ensures
            v@.len() == action_count(*self),
            forall|i: int|
                0 <= i < v@.len() ==> {
                    &&& (#[trigger] v@[i]).0 == action_texts(*self, i).0
                    &&& v@[i].1 == action_texts(*self, i).1
                    &&& v@[i].2 == Some(action_texts(*self, i).2)
                },
    {
        let n = self.action_count();
        let mut v: Vec<(&'static str, &'static str, Option<&'static str>)> = Vec::new();
        let mut i: usize = 0;
        while i < n
            invariant
                n == action_count(*self),
                i <= n,
                v@.len() == i,
                forall|k: int|
                    0 <= k < i ==> {
                        &&& (#[trigger] v@[k]).0 == action_texts(*self, k).0
                        &&& v@[k].1 == action_texts(*self, k).1
                        &&& v@[k].2 == Some(action_texts(*self, k).2)
                    },
            decreases n - i,
        {
            let (name, cmd, w) = self.action(i);
            v.push((name, cmd, Some(w)));
            i += 1;
        }
        v
    }
}

/// The list of the manager's actions, each shown as "name (command)".
fn action_list_items(pm: PackageManager) -> (items: Vec<String>)
    ensures
        views(items@) == action_items(pm),
        items@.len() == action_count(pm),
{
    let n = pm.action_count();
    let mut items: Vec<String> = Vec::new();
    let mut i: usize = 0;
    while i < n
        invariant
            n == action_count(pm),
            i <= n,
            views(items@) == Seq::new(i as nat, |k: int| action_item(pm, k)),
        decreases n - i,
    {
        let (name, cmd, _) = pm.action(i);
        let head = cat(name, " (");
        let item = cat3(head.as_str(), cmd, ")");
        assert(item@ == action_item(pm, i as int));
        proof {
            lemma_views_push(items@, item);
        }
        assert(views(items@).push(item@) =~= Seq::new((i + 1) as nat, |k: int| action_item(pm, k)));
        items.push(item);
        i += 1;
    }
    assert(views(items@).len() == items@.len());
    items
}

pub struct PackageManagerModule {
    pub selected_index: usize,
    pub pkg_mgr: PackageManager,
    pub list: SelectableList,
    /// The package manager is to be detected anew (see `apply_detection`).
    pub wants_detection: bool,
}

impl PackageManagerModule {
    /// What one key does: `↑`/`k` and `↓`/`j` move the selection (wrapping);
    /// `r`/`R` refreshes (see `refresh_step`); Enter asks for the selected
    /// action of the package manager, with its risk note; any other key does
    /// nothing.
    pub open spec fn key_step(
        old: Self,
        new: Self,
        key: KeyEvent,
        out: Option<CommandToExecute>,
    ) -> bool {
        let len = old.list.item_views().len();
        if is_up(key.code) || is_down(key.code) {
            &&& new.list.item_views() == old.list.item_views()
            &&& new.list.sel() == if is_up(key.code) {
                prev_sel(old.list.sel(), len)
            } else {
                next_sel(old.list.sel(), len)
            }
            &&& new.selected_index == index_of(new.list.sel())
            &&& new.pkg_mgr == old.pkg_mgr
            &&& new.wants_detection == old.wants_detection
            &&& out is None
        } else if is_refresh(key.code) {
            Self::refresh_step(old, new) && out is None
        } else if key.code == KeyCode::Enter {
            let i = index_of(old.list.sel()) as int;
            let t = action_texts(old.pkg_mgr, i);
            &&& new == old
            &&& if i < action_count(old.pkg_mgr) {
                out matches Some(c) && is_command(
                    c,
                    t.0@,
                    t.1@,
                    Some(action_warning(old.pkg_mgr, i)),
                )
            } else {
                out is None
            }
        } else {
            new == old && out is None
        }
    }

    /// The header text: the detected manager and how many actions it offers.
    pub fn header_text(&self) -> (t: String)
        ensures
            t@ == "  检测到包管理器: "@ + name_spec(self.pkg_mgr) + "  │  共 "@ + decimal(
                action_count(self.pkg_mgr),
            ) + " 个可用操作"@,
    {
        let n = decimal_string(self.pkg_mgr.action_count() as u64);
        let a = cat3("  检测到包管理器: ", self.pkg_mgr.name(), "  │  共 ");
        cat3(a.as_str(), n.as_str(), " 个可用操作")
    }

    /// The actions of `pkg_mgr` (the detected package manager), the first
    /// selected.
    pub fn new(pkg_mgr: PackageManager) -> (m: Self)
        ensures
            m.pkg_mgr == pkg_mgr,
            m.list.item_views() == action_items(pkg_mgr),
            m.list.sel() == (if action_count(pkg_mgr) > 0 {
                Some(0usize)
            } else {
                None
            }),
            m.selected_index == 0,
            !m.wants_detection,
    {
        let items = action_list_items(pkg_mgr);
        PackageManagerModule {
            selected_index: 0,
            pkg_mgr,
            list: SelectableList::new(items),
            wants_detection: false,
        }
    }

    pub fn handle_key_event(&mut self, key: KeyEvent) -> (out: Option<CommandToExecute>)
        ensures
            Self::key_step(*old(self), *final(self), key, out),
    {
        if key_is_up(key.code) {
            self.list.previous();
            self.selected_index = self.list.selected_index();
            None
        } else if key_is_down(key.code) {
            self.list.next();
            self.selected_index = self.list.selected_index();
            None
        } else if key_is_refresh(key.code) {
            self.refresh();
            None
        } else if key.code == KeyCode::Enter {
            let idx = self.list.selected_index();
            if idx < self.pkg_mgr.action_count() {
                let (name, cmd, w) = self.pkg_mgr.action(idx);
                let warning = Some(make_risk_note(self.pkg_mgr.level(idx), w));
                Some(
                    CommandToExecute {
                        display_name: String::from_str(name),
                        command_string: String::from_str(cmd),
                        risk_warning: warning,
                    },
                )
            } else {
                None
            }
        } else {
            None
        }
    }

    /// What `refresh` does: ask for the package manager to be detected anew.
    pub open spec fn refresh_step(old: Self, new: Self) -> bool {
        new == (PackageManagerModule { wants_detection: true, ..old })
    }

    pub fn refresh(&mut self)
        ensures
            Self::refresh_step(*old(self), *final(self)),
    {
        self.wants_detection = true;
    }

    /// Takes a fresh detection: a different manager replaces the action list
    /// (selecting its first action); the same manager keeps list and selection.
    pub fn apply_detection(&mut self, detected: PackageManager)
        ensures
            final(self).pkg_mgr == detected,
            !final(self).wants_detection,
            detected == old(self).pkg_mgr ==> final(self).list == old(self).list
                && final(self).selected_index == old(self).selected_index,
            detected != old(self).pkg_mgr ==> final(self).list.item_views() == action_items(
                detected,
            ) && final(self).list.sel() == (if action_count(detected) > 0 {
                Some(0usize)
            } else {
                None
            }) && final(self).selected_index == old(self).selected_index,
    {
        if detected != self.pkg_mgr {
            self.pkg_mgr = detected;
            self.list = SelectableList::new(action_list_items(detected));
        }
        self.wants_detection = false;
    }
}

/// Detection prefers pacman, then dnf, then apt, then zypper: a system
/// with pacman is a pacman system whatever else it has; each later manager
/// is chosen exactly when it exists and no earlier one does; with none of
/// the four, no manager is known.
pub proof fn lemma_detection_order(p: bool, d: bool, a: bool, z: bool)
    ensures
        p ==> detect_spec(p, d, a, z) == PackageManager::Pacman,
        detect_spec(p, d, a, z) == PackageManager::Pacman <==> p,
        detect_spec(p, d, a, z) == PackageManager::Dnf <==> !p && d,
        detect_spec(p, d, a, z) == PackageManager::Apt <==> !p && !d && a,
        detect_spec(p, d, a, z) == PackageManager::Zypper <==> !p && !d && !a && z,
        detect_spec(p, d, a, z) == PackageManager::Unknown <==> !p && !d && !a && !z,
{
}


/// What is asked for is what the list shows: the command asked for by Enter
/// is the one written in the selected list item, under the name written
/// there.
pub proof fn lemma_asked_action_is_the_one_shown(
    old: PackageManagerModule,
    new: PackageManagerModule,
    key: KeyEvent,
    c: CommandToExecute,
)
    requires
        PackageManagerModule::key_step(old, new, key, Some(c)),
        old.list.item_views() == action_items(old.pkg_mgr),
    ensures
        key.code == KeyCode::Enter,
        ({
            let i = index_of(old.list.sel()) as int;
            &&& i < old.list.item_views().len()
            &&& old.list.item_views()[i] == c.display_name@ + " ("@ + c.command_string@ + ")"@
        }),
{
}

} // verus!
