//! One-step system optimisations, each with a risk level and a warning.

use vstd::prelude::*;
use crate::commands::{CommandToExecute, is_command};
use crate::keys::{
    KeyCode, KeyEvent, is_up, is_down, is_refresh, key_is_up, key_is_down, key_is_refresh,
};
use crate::text::{cat, cat3, views, lemma_views_push};
use crate::tui::widgets::{SelectableList, next_sel, prev_sel, index_of};

verus! {

#[derive(Clone, Copy, Debug, PartialEq, Eq, Structural)]
pub enum RiskLevel {
    Low,
    Medium,
    High,
}

pub open spec fn label_spec(r: RiskLevel) -> Seq<char> {
    match r {
        RiskLevel::Low => "低风险"@,
        RiskLevel::Medium => "中风险"@,
        RiskLevel::High => "高风险"@,
    }
}

pub open spec fn tag_spec(r: RiskLevel) -> Seq<char> {
    match r {
        RiskLevel::Low => "[低]"@,
        RiskLevel::Medium => "[中]"@,
        RiskLevel::High => "[高]"@,
    }
}

impl RiskLevel {
    /// The level as shown in warnings.
    pub fn label(&self) -> (s: &'static str)
        ensures
            s@ == label_spec(*self),
    {
        match self {
            RiskLevel::Low => "低风险",
            RiskLevel::Medium => "中风险",
            RiskLevel::High => "高风险",
        }
    }

    /// The short tag in front of a list item.
    pub fn tag(&self) -> (s: &'static str)
        ensures
            s@ == tag_spec(*self),
    {
        match self {
            RiskLevel::Low => "[低]",
            RiskLevel::Medium => "[中]",
            RiskLevel::High => "[高]",
        }
    }
}

/// The risk note of an operation: its level in brackets, then what to expect.
pub open spec fn risk_note(level: RiskLevel, text: Seq<char>) -> Seq<char> {
    "["@ + label_spec(level) + "] "@ + text
}

/// Builds a risk note (see `risk_note`).
pub fn make_risk_note(level: RiskLevel, text: &str) -> (s: String)
    ensures
        s@ == risk_note(level, text@),
{
    let head = cat3("[", level.label(), "] ");
    cat(head.as_str(), text)
}

pub const OPTIMIZATION_COUNT: usize = 8;

pub const OPT_NAMES: [&'static str; 8] = [
    "降低 Swappiness (10)",
    "清理系统日志 (保留7天)",
    "清理系统日志 (限制500MB)",
    "清理临时文件",
    "启用 fstrim (SSD优化)",
    "提高文件监视上限",
    "禁用 core dump",
    "清理用户缓存",
];

pub const OPT_DESCRIPTIONS: [&'static str; 8] = [
    "将 vm.swappiness 设为 10，减少使用交换空间，优先使用物理内存。适合内存充足的桌面系统。",
    "使用 journalctl --vacuum-time=7d 清理超过 7 天的系统日志，释放磁盘空间。",
    "限制系统日志总大小不超过 500MB。",
    "清理 /tmp 和用户缓存中的临时文件。",
    "启用 fstrim.timer 定时 TRIM 服务，延长 SSD 寿命并维持性能。",
    "增加 inotify 文件监视数量上限到 524288，解决 VSCode 等编辑器的监视限制警告。",
    "禁用核心转储文件生成，节省磁盘空间。",
    "清理 ~/.cache 下超过 30 天的缓存文件。",
];

pub const OPT_COMMANDS: [&'static str; 8] = [
    "sysctl -w vm.swappiness=10",
    "journalctl --vacuum-time=7d",
    "journalctl --vacuum-size=500M",
    "rm -rf /tmp/* 2>/dev/null; rm -rf ~/.cache/tmp/* 2>/dev/null",
    "systemctl enable --now fstrim.timer",
    "sysctl -w fs.inotify.max_user_watches=524288",
    "ulimit -c 0 && echo 'kernel.core_pattern=/dev/null' | tee /etc/sysctl.d/50-coredump.conf && sysctl -p /etc/sysctl.d/50-coredump.conf",
    "find ~/.cache -type f -atime +30 -delete 2>/dev/null",
];

pub const OPT_WARNINGS: [&'static str; 8] = [
    "仅在当前会话生效，重启后恢复默认值。如需永久生效需修改 /etc/sysctl.conf",
    "超过7天的日志将被永久删除",
    "多余日志将被永久删除",
    "正在运行的程序可能依赖 /tmp 中的文件",
    "仅适用于 SSD 存储设备，机械硬盘不需要",
    "仅当前会话生效。如需永久生效需写入 /etc/sysctl.d/",
    "禁用后程序崩溃时将无法生成调试信息",
    "部分应用可能需要重新生成缓存",
];

pub const OPT_LEVELS: [RiskLevel; 8] = [
    RiskLevel::Low,
    RiskLevel::Low,
    RiskLevel::Low,
    RiskLevel::Medium,
    RiskLevel::Low,
    RiskLevel::Low,
    RiskLevel::Medium,
    RiskLevel::Low,
];

/// The list item of optimisation `i`: its risk tag and its name.
pub open spec fn opt_item(i: int) -> Seq<char> {
    tag_spec(OPT_LEVELS[i]) + " "@ + OPT_NAMES[i]@
}

/// The warning shown for optimisation `i`: its risk level, then its warning.
pub open spec fn opt_warning(i: int) -> Seq<char> {
    risk_note(OPT_LEVELS[i], OPT_WARNINGS[i]@)
}

/// What the detail panel shows of an optimisation.
pub struct OptimizationDetail {
    /// The description, indented.
    pub description: String,
    /// The command that will be run, in full.
    pub command: String,
    /// The risk note, after a warning sign.
    pub warning: String,
    pub level: RiskLevel,
}

pub struct OptimizationsModule {
    pub selected_index: usize,
    pub list: SelectableList,
}

impl OptimizationsModule {
    /// What one key does: `↑`/`k` and `↓`/`j` move the selection (wrapping);
    /// `r`/`R` refreshes (see `refresh_step`: there is nothing to reload);
    /// Enter asks for the selected optimisation, with its risk level in the
    /// warning; any other key does nothing.
    pub open spec fn key_step(
        old: Self,
        new: Self,
        key: KeyEvent,
        out: Option<CommandToExecute>,
    ) -> bool {
        let len = old.list.item_views().len();
        if is_up(key.code) || is_down(key.code) {
            &&& new.list.item_views() == old.list.item_views()
            &&& new.list.sel() == if is_up(key.code) {
                prev_sel(old.list.sel(), len)
            } else {
                next_sel(old.list.sel(), len)
            }
            &&& new.selected_index == index_of(new.list.sel())
            &&& out is None
        } else if is_refresh(key.code) {
            Self::refresh_step(old, new) && out is None
        } else if key.code == KeyCode::Enter {
            let i = index_of(old.list.sel());
            &&& new == old
            &&& if i < OPTIMIZATION_COUNT {
                out matches Some(c) && is_command(
                    c,
                    OPT_NAMES[i as int]@,
                    OPT_COMMANDS[i as int]@,
                    Some(opt_warning(i as int)),
                )
            } else {
                out is None
            }
        } else {
            new == old && out is None
        }
    }

    /// A list of all optimisations, each shown with its risk tag, the first
    /// one selected.
    pub fn new() -> (m: Self)
        ensures
            m.list.item_views() == Seq::new(8, |i: int| opt_item(i)),
            m.list.sel() == Some(0usize),
            m.selected_index == 0,
    {
        let mut items: Vec<String> = Vec::new();
        let mut i: usize = 0;
        while i < OPTIMIZATION_COUNT
            invariant
                i <= OPTIMIZATION_COUNT,
                views(items@) == Seq::new(i as nat, |k: int| opt_item(k)),
            decreases OPTIMIZATION_COUNT - i,
        {
            let level = OPT_LEVELS[i];
            let name = OPT_NAMES[i];
            assert(level == OPT_LEVELS[i as int]);
            assert(name == OPT_NAMES[i as int]);
            let item = cat3(level.tag(), " ", name);
            assert(item@ == opt_item(i as int));
            proof {
                lemma_views_push(items@, item);
            }
            assert(views(items@).push(item@) =~= Seq::new((i + 1) as nat, |k: int| opt_item(k)));
            items.push(item);
            i += 1;
        }
        OptimizationsModule { selected_index: 0, list: SelectableList::new(items) }
    }

    pub fn handle_key_event(&mut self, key: KeyEvent) -> (out: Option<CommandToExecute>)
        ensures
            Self::key_step(*old(self), *final(self), key, out),
    {
        if key_is_up(key.code) {
            self.list.previous();
            self.selected_index = self.list.selected_index();
            None
        } else if key_is_down(key.code) {
            self.list.next();
            self.selected_index = self.list.selected_index();
            None
        } else if key_is_refresh(key.code) {
            self.refresh();
            None
        } else if key.code == KeyCode::Enter {
            let idx = self.list.selected_index();
            if idx < OPTIMIZATION_COUNT {
                let warning = make_risk_note(OPT_LEVELS[idx], OPT_WARNINGS[idx]);
                Some(
                    CommandToExecute {
                        display_name: String::from_str(OPT_NAMES[idx]),
                        command_string: String::from_str(OPT_COMMANDS[idx]),
                        risk_warning: Some(warning),
                    },
                )
            } else {
                None
            }
        } else {
            None
        }
    }

    /// The detail panel of the selected optimisation: its description, its
    /// command and its risk note; nothing when none is selected.
    pub fn detail(&self) -> (d: Option<OptimizationDetail>)
        ensures
            ({
                let i = index_of(self.list.sel()) as int;
                match d {
                    Some(t) => {
                        &&& i < OPTIMIZATION_COUNT
                        &&& t.description@ == "  "@ + OPT_DESCRIPTIONS[i]@
                        &&& t.command@ == OPT_COMMANDS[i]@
                        &&& t.warning@ == "  ⚠ "@ + opt_warning(i)
                        &&& t.level == OPT_LEVELS[i]
                    },
                    None => i >= OPTIMIZATION_COUNT,
                }
            }),
    {
        let idx = self.list.selected_index();
        if idx < OPTIMIZATION_COUNT {
            let note = make_risk_note(OPT_LEVELS[idx], OPT_WARNINGS[idx]);
            Some(
                OptimizationDetail {
                    description: cat("  ", OPT_DESCRIPTIONS[idx]),
                    command: String::from_str(OPT_COMMANDS[idx]),
                    warning: cat("  ⚠ ", note.as_str()),
                    level: OPT_LEVELS[idx],
                },
            )
        } else {
            None
        }
    }

    /// What `refresh` does: nothing, there is nothing to reload.
    pub open spec fn refresh_step(old: Self, new: Self) -> bool {
        new == old
    }

    pub fn refresh(&mut self)
        ensures
            Self::refresh_step(*old(self), *final(self)),
    {
    }
}

/// Every optimisation that a key asks for comes with a warning that starts
/// with its risk level.
pub proof fn lemma_optimizations_always_warn(
    old: OptimizationsModule,
    new: OptimizationsModule,
    key: KeyEvent,
    c: CommandToExecute,
)
    requires
        OptimizationsModule::key_step(old, new, key, Some(c)),
    ensures
        c.risk_warning is Some,
        ({
            let i = index_of(old.list.sel()) as int;
            &&& i < OPTIMIZATION_COUNT
            &&& c.risk_warning->0@ == "["@ + label_spec(OPT_LEVELS[i]) + "] "@ + OPT_WARNINGS[i]@
        }),
{
}

} // verus!
