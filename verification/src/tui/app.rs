//! The application state: seven screens behind tabs, a confirmation dialog
//! in front of every command, the command running in the background and the
//! dialog that shows its result.

use vstd::prelude::*;
use crate::commands::{CommandExecutor, CommandResult, CommandToExecute, opt_view};
use crate::keys::{KeyCode, KeyEvent, is_up, is_down, key_is_up, key_is_down};
use crate::modules::desktop_fixes::DesktopFixesModule;
use crate::modules::log_viewer::{LogViewerModule, LineSeverity, max_scroll, window, window_end};
use crate::modules::network::NetworkModule;
use crate::modules::optimizations::OptimizationsModule;
use crate::modules::package_manager::{PackageManager, PackageManagerModule, action_items};
use crate::modules::system_info::SystemInfoModule;
use crate::modules::systemd::{SystemdModule, SystemdView};
use crate::text::{
    lines, views, split_lines, cat3, cat, lowercase, to_lowercase, contains, has_substring, decimal,
    decimal_string,
};

verus! {

pub const TAB_COUNT: usize = 7;

pub const TAB_TITLES: [&'static str; 7] = [
    "1·系统信息",
    "2·软件包",
    "3·systemd",
    "4·网络",
    "5·桌面修复",
    "6·日志",
    "7·优化",
];

pub enum CommandExecutionState {
    Idle,
    /// A confirmed command runs in the background.
    Running { display_name: String, command_string: String },
}

/// What the confirmation dialog shows, line by line.
pub struct ConfirmationText {
    pub operation: String,
    /// The command that will be run, in full.
    pub command: String,
    pub warning: Option<String>,
    pub dry_run_notice: Option<String>,
    pub keys: String,
}

pub struct App {
    pub active_tab: usize,
    pub sys_info: SystemInfoModule,
    pub pkg_mgr: PackageManagerModule,
    pub systemd: SystemdModule,
    pub network: NetworkModule,
    pub desktop_fixes: DesktopFixesModule,
    pub log_viewer: LogViewerModule,
    pub optimizations: OptimizationsModule,
    pub executor: CommandExecutor,
    /// The confirmation dialog is shown for `pending_command`.
    pub modal_active: bool,
    pub pending_command: Option<CommandToExecute>,
    pub execution_state: CommandExecutionState,
    /// The dialog with the result of the last command is shown.
    pub result_modal_active: bool,
    pub executed_command_name: String,
    pub executed_command_result: String,
    pub executed_command_success: bool,
    pub result_scroll_offset: usize,
    pub status_message: String,
    pub should_quit: bool,
    pub dry_run: bool,
}

/// The tab to the right, from the last back to the first.
pub open spec fn next_tab(t: usize) -> usize {
    ((t + 1) % 7) as usize
}

/// The tab to the left, from the first round to the last.
pub open spec fn prev_tab(t: usize) -> usize {
    if t == 0 {
        6
    } else {
        (t - 1) as usize
    }
}

/// The tab that a digit key selects: `1` the first, ..., `7` the last.
pub open spec fn digit_tab(k: KeyCode) -> Option<usize> {
    match k {
        KeyCode::Char(c) => if '1' as u32 <= c as u32 <= '7' as u32 {
            Some((c as u32 - '1' as u32) as usize)
        } else {
            None
        },
        _ => None,
    }
}

/// Keys that close the result dialog.
pub open spec fn is_close_key(k: KeyCode) -> bool {
    k == KeyCode::Esc || k == KeyCode::Enter || k == KeyCode::Char('q') || k == KeyCode::Char('y')
        || k == KeyCode::Char('n')
}

/// Keys that confirm the command in the confirmation dialog.
pub open spec fn is_confirm_key(k: KeyCode) -> bool {
    k == KeyCode::Char('y') || k == KeyCode::Enter
}

/// Keys that cancel the command in the confirmation dialog.
pub open spec fn is_cancel_key(k: KeyCode) -> bool {
    k == KeyCode::Char('n') || k == KeyCode::Esc
}

/// Ctrl+C: quits the application whatever is shown or running.
pub open spec fn is_force_quit(key: KeyEvent) -> bool {
    key.code == KeyCode::Char('c') && key.ctrl
}

/// Keys that quit the application (outside the dialogs).
pub open spec fn is_quit_key(key: KeyEvent) -> bool {
    key.code == KeyCode::Char('q') || is_force_quit(key)
}

pub open spec fn status_running(name: Seq<char>) -> Seq<char> {
    "正在执行: "@ + name + "..."@
}

pub open spec fn status_done(name: Seq<char>) -> Seq<char> {
    "就绪 - 上次操作: "@ + name
}

pub open spec fn initial_status(dry_run: bool) -> Seq<char> {
    if dry_run {
        "模式: DRY-RUN (命令不会实际执行)"@
    } else {
        "就绪"@
    }
}

/// A line of a command's output is an error when, in lower case, it mentions
/// `error` or `failed`, else a warning when it mentions `warn`.
pub open spec fn result_severity(l: Seq<char>) -> LineSeverity {
    let lower = lowercase(l);
    if contains(lower, "error"@) || contains(lower, "failed"@) {
        LineSeverity::Error
    } else if contains(lower, "warn"@) {
        LineSeverity::Warning
    } else {
        LineSeverity::Normal
    }
}

pub fn result_line_severity(line: &str) -> (s: LineSeverity)
    ensures
        s == result_severity(line@),
{
    let lower = to_lowercase(line);
    if has_substring(lower.as_str(), "error") || has_substring(lower.as_str(), "failed") {
        LineSeverity::Error
    } else if has_substring(lower.as_str(), "warn") {
        LineSeverity::Warning
    } else {
        LineSeverity::Normal
    }
}

pub open spec fn spinner_spec(elapsed: u64) -> Seq<char> {
    if elapsed % 4 == 0 {
        "⠋"@
    } else if elapsed % 4 == 1 {
        "⠙"@
    } else if elapsed % 4 == 2 {
        "⠹"@
    } else {
        "⠸"@
    }
}

/// The spinner frame after `elapsed` seconds.
pub fn spinner(elapsed: u64) -> (s: &'static str)
    ensures
        s@ == spinner_spec(elapsed),
{
    let k = elapsed % 4;
    if k == 0 {
        "⠋"
    } else if k == 1 {
        "⠙"
    } else if k == 2 {
        "⠹"
    } else {
        "⠸"
    }
}

impl App {
    /// The tab is one of the seven, the log stays scrolled onto a line, and
    /// the result dialog stays scrolled onto a line of the result.
    pub open spec fn wf(&self) -> bool {
        &&& self.active_tab < TAB_COUNT
        &&& self.log_viewer.wf()
        &&& self.result_scroll_offset <= max_scroll(lines(self.executed_command_result@).len())
    }

    /// `new` is `old` with the active screen refreshed (each screen as its
    /// own `refresh_step` says) and nothing else changed.
    pub open spec fn refresh_step(old: Self, new: Self) -> bool {
        let t = old.active_tab;
        &&& new == (App {
            sys_info: new.sys_info,
            pkg_mgr: new.pkg_mgr,
            systemd: new.systemd,
            network: new.network,
            desktop_fixes: new.desktop_fixes,
            log_viewer: new.log_viewer,
            optimizations: new.optimizations,
            ..old
        })
        &&& if t == 0 {
            SystemInfoModule::refresh_step(old.sys_info, new.sys_info)
        } else {
            new.sys_info == old.sys_info
        }
        &&& if t == 1 {
            PackageManagerModule::refresh_step(old.pkg_mgr, new.pkg_mgr)
        } else {
            new.pkg_mgr == old.pkg_mgr
        }
        &&& if t == 2 {
            SystemdModule::refresh_step(old.systemd, new.systemd)
        } else {
            new.systemd == old.systemd
        }
        &&& if t == 3 {
            NetworkModule::refresh_step(old.network, new.network)
        } else {
            new.network == old.network
        }
        &&& if t == 4 {
            DesktopFixesModule::refresh_step(old.desktop_fixes, new.desktop_fixes)
        } else {
            new.desktop_fixes == old.desktop_fixes
        }
        &&& if t == 5 {
            LogViewerModule::refresh_step(old.log_viewer, new.log_viewer)
        } else {
            new.log_viewer == old.log_viewer
        }
        &&& if t == 6 {
            OptimizationsModule::refresh_step(old.optimizations, new.optimizations)
        } else {
            new.optimizations == old.optimizations
        }
    }

    /// The key goes to the active screen; a command that the screen asks for
    /// becomes the pending command, shown in the confirmation dialog.
    pub open spec fn route_step(old: Self, new: Self, key: KeyEvent) -> bool {
        let t = old.active_tab;
        let o = if new.modal_active {
            new.pending_command
        } else {
            None
        };
        &&& new.modal_active ==> new.pending_command is Some
        &&& !new.modal_active ==> new.pending_command == old.pending_command
        &&& t >= TAB_COUNT ==> !new.modal_active
        &&& new == (App {
            sys_info: new.sys_info,
            pkg_mgr: new.pkg_mgr,
            systemd: new.systemd,
            network: new.network,
            desktop_fixes: new.desktop_fixes,
            log_viewer: new.log_viewer,
            optimizations: new.optimizations,
            pending_command: new.pending_command,
            modal_active: new.modal_active,
            ..old
        })
        &&& if t == 0 {
            SystemInfoModule::key_step(old.sys_info, new.sys_info, key, o)
        } else {
            new.sys_info == old.sys_info
        }
        &&& if t == 1 {
            PackageManagerModule::key_step(old.pkg_mgr, new.pkg_mgr, key, o)
        } else {
            new.pkg_mgr == old.pkg_mgr
        }
        &&& if t == 2 {
            SystemdModule::key_step(old.systemd, new.systemd, key, o)
        } else {
            new.systemd == old.systemd
        }
        &&& if t == 3 {
            NetworkModule::key_step(old.network, new.network, key, o)
        } else {
            new.network == old.network
        }
        &&& if t == 4 {
            DesktopFixesModule::key_step(old.desktop_fixes, new.desktop_fixes, key, o)
        } else {
            new.desktop_fixes == old.desktop_fixes
        }
        &&& if t == 5 {
            LogViewerModule::key_step(old.log_viewer, new.log_viewer, key) && o is None
        } else {
            new.log_viewer == old.log_viewer
        }
        &&& if t == 6 {
            OptimizationsModule::key_step(old.optimizations, new.optimizations, key, o)
        } else {
            new.optimizations == old.optimizations
        }
    }

    /// A key while the result dialog is shown: close keys close it, the
    /// others scroll it (by a line, or by 10), staying on a line.
    pub open spec fn result_key_step(old: Self, new: Self, key: KeyEvent) -> bool {
        let last = max_scroll(lines(old.executed_command_result@).len());
        let off = old.result_scroll_offset;
        let scrolled = |o: usize| new == (App { result_scroll_offset: o, ..old });
        if is_close_key(key.code) {
            new == (App { result_modal_active: false, ..old })
        } else if is_up(key.code) {
            scrolled(
                if off > 0 {
                    (off - 1) as usize
                } else {
                    off
                },
            )
        } else if is_down(key.code) {
            scrolled(
                if off < last {
                    (off + 1) as usize
                } else {
                    off
                },
            )
        } else if key.code == KeyCode::PageUp {
            scrolled(
                if off >= 10 {
                    (off - 10) as usize
                } else {
                    0usize
                },
            )
        } else if key.code == KeyCode::PageDown {
            scrolled(
                if off + 10 <= last {
                    (off + 10) as usize
                } else {
                    last as usize
                },
            )
        } else {
            new == old
        }
    }

    /// A key while the confirmation dialog is shown: `y`/Enter starts the
    /// pending command in the background (it is recorded in the history and
    /// handed out), `n`/Esc drops it; both close the dialog.
    pub open spec fn confirm_step(
        old: Self,
        new: Self,
        key: KeyEvent,
        out: Option<CommandToExecute>,
    ) -> bool {
        if is_confirm_key(key.code) {
            match old.pending_command {
                Some(cmd) => {
                    &&& out == Some(cmd)
                    &&& new.executor == (CommandExecutor {
                        history: new.executor.history,
                        ..old.executor
                    })
                    &&& new.executor.history@ == old.executor.history@.push(cmd.command_string)
                    &&& new.status_message@ == status_running(cmd.display_name@)
                    &&& new.execution_state == (CommandExecutionState::Running {
                        display_name: cmd.display_name,
                        command_string: cmd.command_string,
                    })
                    &&& new == (App {
                        pending_command: None,
                        modal_active: false,
                        executor: new.executor,
                        status_message: new.status_message,
                        execution_state: new.execution_state,
                        ..old
                    })
                },
                None => out is None && new == (App { modal_active: false, ..old }),
            }
        } else if is_cancel_key(key.code) {
            &&& out is None
            &&& new.status_message@ == "操作已取消"@
            &&& new == (App {
                pending_command: None,
                modal_active: false,
                status_message: new.status_message,
                ..old
            })
        } else {
            out is None && new == old
        }
    }

    /// A key with no dialog shown: `q` and Ctrl+C quit; Tab/→ and
    /// BackTab/← move between tabs (wrapping) and `1`–`7` pick one, the new
    /// screen then refreshed; any other key goes to the active screen.
    pub open spec fn global_step(
        old: Self,
        new: Self,
        key: KeyEvent,
        out: Option<CommandToExecute>,
    ) -> bool {
        &&& out is None
        &&& if is_quit_key(key) {
            new == (App { should_quit: true, ..old })
        } else if key.code == KeyCode::Tab || key.code == KeyCode::Right {
            Self::refresh_step(App { active_tab: next_tab(old.active_tab), ..old }, new)
        } else if key.code == KeyCode::BackTab || key.code == KeyCode::Left {
            Self::refresh_step(App { active_tab: prev_tab(old.active_tab), ..old }, new)
        } else if digit_tab(key.code) is Some {
            Self::refresh_step(App { active_tab: digit_tab(key.code)->0, ..old }, new)
        } else {
            Self::route_step(old, new, key)
        }
    }

    /// What one key does. Ctrl+C quits, whatever is shown or running, and
    /// changes nothing else. Otherwise: while a command runs, nothing; else
    /// the result dialog, then the confirmation dialog, then the tabs and
    /// screens.
    pub open spec fn key_step(
        old: Self,
        new: Self,
        key: KeyEvent,
        out: Option<CommandToExecute>,
    ) -> bool {
        if is_force_quit(key) {
            new == (App { should_quit: true, ..old }) && out is None
        } else if old.execution_state is Running {
            new == old && out is None
        } else if old.result_modal_active {
            out is None && Self::result_key_step(old, new, key)
        } else if old.modal_active {
            Self::confirm_step(old, new, key, out)
        } else {
            Self::global_step(old, new, key, out)
        }
    }

    /// What a tick does: once the running command has answered, its name,
    /// answer and success are shown in the result dialog (from the top) and
    /// recorded as the last result; the active screen is then refreshed.
    /// Otherwise nothing changes.
    pub open spec fn tick_step(old: Self, new: Self, received: Option<Result<String, String>>) -> bool {
        match old.execution_state {
            CommandExecutionState::Running { display_name, .. } => match received {
                Some(res) => {
                    let success = res is Ok;
                    let output = match res {
                        Ok(o) => o,
                        Err(e) => e,
                    };
                    &&& new.executed_command_name == display_name
                    &&& new.executed_command_result == output
                    &&& new.executed_command_success == success
                    &&& new.executor == (CommandExecutor {
                        last_result: Some(CommandResult { success, output }),
                        ..old.executor
                    })
                    &&& new.execution_state is Idle
                    &&& new.status_message@ == status_done(display_name@)
                    &&& Self::refresh_step(
                        App {
                            executed_command_name: new.executed_command_name,
                            executed_command_result: new.executed_command_result,
                            executed_command_success: success,
                            result_scroll_offset: 0,
                            result_modal_active: true,
                            executor: new.executor,
                            execution_state: new.execution_state,
                            status_message: new.status_message,
                            ..old
                        },
                        new,
                    )
                },
                None => new == old,
            },
            CommandExecutionState::Idle => new == old,
        }
    }

    /// The first screen, no dialog, nothing running; `pkg_mgr` is the
    /// detected package manager and `desktop` the value of
    /// `XDG_CURRENT_DESKTOP` (empty when unset).
    pub fn new(dry_run: bool, pkg_mgr: PackageManager, desktop: &str) -> (a: Self)
        ensures
            a.wf(),
            a.active_tab == 0,
            a.dry_run == dry_run,
            a.executor.dry_run == dry_run,
            a.executor.history@.len() == 0,
            a.executor.last_result is None,
            a.pkg_mgr.pkg_mgr == pkg_mgr,
            a.pkg_mgr.list.item_views() == action_items(pkg_mgr),
            !a.pkg_mgr.wants_detection,
            a.desktop_fixes.current_de@ == lowercase(desktop@),
            !a.desktop_fixes.wants_data,
            a.sys_info.info_lines@.len() == 0 && !a.sys_info.loaded && !a.sys_info.wants_data,
            a.network.info_lines@.len() == 0 && !a.network.loaded && !a.network.wants_data,
            a.systemd.services@.len() == 0 && a.systemd.view == SystemdView::ServiceList
                && !a.systemd.is_searching && !a.systemd.wants_data,
            a.log_viewer.log_content@.len() == 0 && !a.log_viewer.loaded
                && a.log_viewer.pending_query is None,
            a.optimizations.list.sel() == Some(0usize),
            a.executed_command_result@.len() == 0,
            !a.modal_active,
            a.pending_command is None,
            a.execution_state is Idle,
            !a.result_modal_active,
            a.result_scroll_offset == 0,
            a.status_message@ == initial_status(dry_run),
            !a.should_quit,
    {
        let status = if dry_run {
            String::from_str("模式: DRY-RUN (命令不会实际执行)")
        } else {
            String::from_str("就绪")
        };
        let a = App {
            active_tab: 0,
            sys_info: SystemInfoModule::new(),
            pkg_mgr: PackageManagerModule::new(pkg_mgr),
            systemd: SystemdModule::new(),
            network: NetworkModule::new(),
            desktop_fixes: DesktopFixesModule::new(desktop),
            log_viewer: LogViewerModule::new(),
            optimizations: OptimizationsModule::new(),
            executor: CommandExecutor::new(dry_run),
            modal_active: false,
            pending_command: None,
            execution_state: CommandExecutionState::Idle,
            result_modal_active: false,
            executed_command_name: String::new(),
            executed_command_result: String::new(),
            executed_command_success: false,
            result_scroll_offset: 0,
            status_message: status,
            should_quit: false,
            dry_run,
        };
        a
    }

    /// The text of the status bar: the keys of the result dialog while it is
    /// shown, else the mode (when dry-running), the status message and the
    /// keys.
    pub fn status_text(&self) -> (t: String)
        ensures
            t@ == (if self.result_modal_active {
                "  ↑↓/PgUp/PgDn 滚动查看结果  │  Enter/Esc/q 关闭弹窗  │  ferio-linux-helper"@
            } else {
                " "@ + (if self.dry_run {
                    " [DRY-RUN] "@
                } else {
                    ""@
                }) + self.status_message@ + "  │  ←→/Tab 切换  │  ↑↓ 选择  │  Enter 确认  │  Esc/q 退出"@
            }),
    {
        if self.result_modal_active {
            String::from_str("  ↑↓/PgUp/PgDn 滚动查看结果  │  Enter/Esc/q 关闭弹窗  │  ferio-linux-helper")
        } else {
            let mode = if self.dry_run {
                " [DRY-RUN] "
            } else {
                ""
            };
            let a = cat3(" ", mode, self.status_message.as_str());
            cat(a.as_str(), "  │  ←→/Tab 切换  │  ↑↓ 选择  │  Enter 确认  │  Esc/q 退出")
        }
    }

    /// The lines of the result shown in a dialog of `height` lines: from the
    /// scroll offset, as many as fit; and the number of lines.
    pub fn result_window(&self, height: usize) -> (r: (usize, usize, usize))
        ensures
            r.2 == lines(self.executed_command_result@).len(),
            r.0 == self.result_scroll_offset,
            r.1 == window_end(r.0 as nat, height as nat, r.2 as nat),
    {
        let all = split_lines(self.executed_command_result.as_str());
        assert(views(all@).len() == all@.len());
        let count = all.len();
        let start = self.result_scroll_offset;
        (start, window(start, height, count), count)
    }

    /// The title of the result dialog for a dialog of `height` lines: success
    /// mark, command name, the lines shown (first counted from 1, 0 when
    /// there are none) and the number of lines.
    pub fn result_title(&self, height: usize) -> (t: String)
        requires
            self.result_scroll_offset < usize::MAX,
        ensures
            ({
                let n = lines(self.executed_command_result@).len();
                let start = self.result_scroll_offset as nat;
                let first: nat = if n == 0 {
                    0
                } else {
                    start + 1
                };
                t@ == (if self.executed_command_success {
                    " ✔ "@
                } else {
                    " ✗ "@
                }) + " 执行结果: "@ + self.executed_command_name@ + " [行 "@ + decimal(first) + "-"@
                    + decimal(window_end(start, height as nat, n)) + "/共 "@ + decimal(n) + " 行] "@
            }),
    {
        let (start, end, count) = self.result_window(height);
        let icon = if self.executed_command_success {
            " ✔ "
        } else {
            " ✗ "
        };
        let first: u64 = if count == 0 {
            0
        } else {
            start as u64 + 1
        };
        let a = cat3(icon, " 执行结果: ", self.executed_command_name.as_str());
        let f = decimal_string(first);
        let b = cat3(a.as_str(), " [行 ", f.as_str());
        let e = decimal_string(end as u64);
        let c = cat3(b.as_str(), "-", e.as_str());
        let n = decimal_string(count as u64);
        let d = cat3(c.as_str(), "/共 ", n.as_str());
        cat(d.as_str(), " 行] ")
    }

    /// What the confirmation dialog shows of the pending command: the
    /// operation, the full command, the risk note when the command has one,
    /// the dry-run notice when dry-running, and the keys; nothing when no
    /// command is pending.
    pub fn confirmation_text(&self) -> (t: Option<ConfirmationText>)
        ensures
            match self.pending_command {
                Some(c) => t matches Some(x) && {
                    &&& x.operation@ == "  操作: "@ + c.display_name@
                    &&& x.command@ == c.command_string@
                    &&& opt_view(x.warning) == match c.risk_warning {
                        Some(w) => Some("  ⚠ 风险提示: "@ + w@),
                        None => None,
                    }
                    &&& opt_view(x.dry_run_notice) == (if self.dry_run {
                        Some("  📋 DRY-RUN 模式: 命令不会实际执行，仅记录日志"@)
                    } else {
                        None
                    })
                    &&& x.keys@ == "  按 [Y/Enter] 确认  │  按 [N/Esc] 取消"@
                },
                None => t is None,
            },
    {
        match &self.pending_command {
            Some(c) => {
                let warning = match &c.risk_warning {
                    Some(w) => Some(cat("  ⚠ 风险提示: ", w.as_str())),
                    None => None,
                };
                let dry_run_notice = if self.dry_run {
                    Some(String::from_str("  📋 DRY-RUN 模式: 命令不会实际执行，仅记录日志"))
                } else {
                    None
                };
                Some(
                    ConfirmationText {
                        operation: cat("  操作: ", c.display_name.as_str()),
                        command: c.command_string.clone(),
                        warning,
                        dry_run_notice,
                        keys: String::from_str("  按 [Y/Enter] 确认  │  按 [N/Esc] 取消"),
                    },
                )
            },
            None => None,
        }
    }

    /// Whether a command runs in the background.
    pub fn is_running(&self) -> (b: bool)
        ensures
            b == self.execution_state is Running,
    {
        match self.execution_state {
            CommandExecutionState::Running { .. } => true,
            CommandExecutionState::Idle => false,
        }
    }

    /// Refreshes the data of the active screen.
    pub fn refresh_active_module(&mut self)
        ensures
            old(self).wf() ==> final(self).wf(),
            Self::refresh_step(*old(self), *final(self)),
    {
        match self.active_tab {
            0 => self.sys_info.refresh(),
            1 => self.pkg_mgr.refresh(),
            2 => self.systemd.refresh(),
            3 => self.network.refresh(),
            4 => self.desktop_fixes.refresh(),
            5 => self.log_viewer.refresh(),
            6 => self.optimizations.refresh(),
            _ => {},
        }
    }

    fn handle_result_key(&mut self, key: KeyEvent)
        ensures
            old(self).wf() ==> final(self).wf(),
            Self::result_key_step(*old(self), *final(self), key),
    {
        let code = key.code;
        let close = match code {
            KeyCode::Esc | KeyCode::Enter => true,
            KeyCode::Char(c) => c == 'q' || c == 'y' || c == 'n',
            _ => false,
        };
        if close {
            self.result_modal_active = false;
            return;
        }
        let all = split_lines(self.executed_command_result.as_str());
        let count = all.len();
        assert(views(all@).len() == count);
        let last = if count > 0 {
            count - 1
        } else {
            0
        };
        if key_is_up(code) {
            if self.result_scroll_offset > 0 {
                self.result_scroll_offset = self.result_scroll_offset - 1;
            }
        } else if key_is_down(code) {
            if self.result_scroll_offset < last {
                self.result_scroll_offset = self.result_scroll_offset + 1;
            }
        } else if code == KeyCode::PageUp {
            self.result_scroll_offset = if self.result_scroll_offset >= 10 {
                self.result_scroll_offset - 10
            } else {
                0
            };
        } else if code == KeyCode::PageDown {
            self.result_scroll_offset = if self.result_scroll_offset < last && last
                - self.result_scroll_offset >= 10 {
                self.result_scroll_offset + 10
            } else {
                last
            };
        }
    }

    fn handle_confirm_key(&mut self, key: KeyEvent) -> (out: Option<CommandToExecute>)
        ensures
            old(self).wf() ==> final(self).wf(),
            Self::confirm_step(*old(self), *final(self), key, out),
    {
        let code = key.code;
        if code == KeyCode::Char('y') || code == KeyCode::Enter {
            let taken = self.pending_command.take();
            self.modal_active = false;
            match taken {
                Some(cmd) => {
                    self.executor.history.push(cmd.command_string.clone());
                    self.status_message = cat3("正在执行: ", cmd.display_name.as_str(), "...");
                    self.execution_state = CommandExecutionState::Running {
                        display_name: cmd.display_name.clone(),
                        command_string: cmd.command_string.clone(),
                    };
                    Some(cmd)
                },
                None => None,
            }
        } else if code == KeyCode::Char('n') || code == KeyCode::Esc {
            self.pending_command = None;
            self.status_message = String::from_str("操作已取消");
            self.modal_active = false;
            None
        } else {
            None
        }
    }

    fn route_key(&mut self, key: KeyEvent)
        requires
            !old(self).modal_active,
        ensures
            old(self).wf() ==> final(self).wf(),
            Self::route_step(*old(self), *final(self), key),
    {
        let cmd = match self.active_tab {
            0 => self.sys_info.handle_key_event(key),
            1 => self.pkg_mgr.handle_key_event(key),
            2 => self.systemd.handle_key_event(key),
            3 => self.network.handle_key_event(key),
            4 => self.desktop_fixes.handle_key_event(key),
            5 => self.log_viewer.handle_key_event(key),
            6 => self.optimizations.handle_key_event(key),
            _ => None,
        };
        if let Some(c) = cmd {
            self.pending_command = Some(c);
            self.modal_active = true;
        }
    }

    /// Handles one key press; see `key_step`. The result is the command that
    /// the user just confirmed, to be started in the background (in the
    /// application's dry-run mode).
    pub fn handle_key_event(&mut self, key: KeyEvent) -> (out: Option<CommandToExecute>)
        ensures
            old(self).wf() ==> final(self).wf(),
            Self::key_step(*old(self), *final(self), key, out),
            // Nothing is started but what the user confirmed in the dialog.
            out matches Some(c) ==> old(self).modal_active && old(self).pending_command == Some(c)
                && is_confirm_key(key.code) && old(self).execution_state is Idle
                && !old(self).result_modal_active,
            // Ctrl+C quits in every state and changes nothing else.
            is_force_quit(key) ==> *final(self) == (App { should_quit: true, ..*old(self) }),
            // While a command runs, every other key is ignored.
            old(self).execution_state is Running && !is_force_quit(key) ==> *final(self) == *old(
                self,
            ),
    {
        if key.code == KeyCode::Char('c') && key.ctrl {
            self.should_quit = true;
            return None;
        }
        if self.is_running() {
            return None;
        }
        if self.result_modal_active {
            self.handle_result_key(key);
            return None;
        }
        if self.modal_active {
            return self.handle_confirm_key(key);
        }
        let code = key.code;
        if code == KeyCode::Char('q') {
            self.should_quit = true;
            return None;
        }
        if code == KeyCode::Tab || code == KeyCode::Right {
            let t = self.active_tab;
            assert((t % 7 + 1) % 7 == (t + 1) % 7);
            self.active_tab = (t % TAB_COUNT + 1) % TAB_COUNT;
            self.refresh_active_module();
            return None;
        }
        if code == KeyCode::BackTab || code == KeyCode::Left {
            self.active_tab = if self.active_tab == 0 {
                6
            } else {
                self.active_tab - 1
            };
            self.refresh_active_module();
            return None;
        }
        if let KeyCode::Char(c) = code {
            let u = c as u32;
            if '1' as u32 <= u && u <= '7' as u32 {
                self.active_tab = (u - '1' as u32) as usize;
                self.refresh_active_module();
                return None;
            }
        }
        self.route_key(key);
        None
    }

    /// Takes the answer of the running command, if it has come; see
    /// `tick_step`.
    pub fn tick(&mut self, received: Option<Result<String, String>>)
        ensures
            old(self).wf() ==> final(self).wf(),
            Self::tick_step(*old(self), *final(self), received),
    {
        let name = match &self.execution_state {
            CommandExecutionState::Running { display_name, .. } => display_name.clone(),
            CommandExecutionState::Idle => {
                return;
            },
        };
        let res = match received {
            Some(r) => r,
            None => {
                return;
            },
        };
        let (success, output) = match res {
            Ok(out) => (true, out),
            Err(err) => (false, err),
        };
        self.status_message = cat("就绪 - 上次操作: ", name.as_str());
        self.executed_command_name = name;
        self.executor.last_result = Some(CommandResult { success, output: output.clone() });
        self.executed_command_result = output;
        self.executed_command_success = success;
        self.result_scroll_offset = 0;
        self.result_modal_active = true;
        self.execution_state = CommandExecutionState::Idle;
        self.refresh_active_module();
    }
}

/// Moving a tab to the right and back to the left returns to the same tab.
pub proof fn lemma_tab_right_then_left(t: usize)
    requires
        t < TAB_COUNT,
    ensures
        prev_tab(next_tab(t)) == t,
        next_tab(prev_tab(t)) == t,
        next_tab(t) < TAB_COUNT,
        prev_tab(t) < TAB_COUNT,
{
}

/// Nothing is started but the command that the confirmation dialog showed,
/// and only by a confirming key, with no command running and no result shown.
pub proof fn lemma_started_only_when_confirmed(
    old: App,
    new: App,
    key: KeyEvent,
    out: Option<CommandToExecute>,
)
    requires
        App::key_step(old, new, key, out),
        out is Some,
    ensures
        old.modal_active,
        old.pending_command == out,
        is_confirm_key(key.code),
        old.execution_state is Idle,
        !old.result_modal_active,
{
}

/// A command that a screen asks for is never started by the key that asked
/// for it: it waits in the confirmation dialog.
pub proof fn lemma_screen_commands_wait_for_confirmation(
    old: App,
    new: App,
    key: KeyEvent,
    out: Option<CommandToExecute>,
)
    requires
        App::key_step(old, new, key, out),
        !old.modal_active,
    ensures
        out is None,
        new.execution_state == old.execution_state,
        new.executor == old.executor,
        new.modal_active ==> new.pending_command is Some,
{
}

/// While a command runs, no key but Ctrl+C changes anything.
pub proof fn lemma_running_ignores_keys(
    old: App,
    new: App,
    key: KeyEvent,
    out: Option<CommandToExecute>,
)
    requires
        App::key_step(old, new, key, out),
        old.execution_state is Running,
        !is_force_quit(key),
    ensures
        new == old,
        out is None,
{
}

/// Cancelling the confirmation dialog drops the pending command and starts
/// nothing.
pub proof fn lemma_cancel_starts_nothing(
    old: App,
    new: App,
    key: KeyEvent,
    out: Option<CommandToExecute>,
)
    requires
        App::key_step(old, new, key, out),
        old.execution_state is Idle,
        !old.result_modal_active,
        old.modal_active,
        is_cancel_key(key.code),
    ensures
        out is None,
        new.pending_command is None,
        !new.modal_active,
        new.executor == old.executor,
        new.execution_state == old.execution_state,
{
}

/// Every command that a screen asks for comes to the confirmation dialog
/// with a risk note.
pub proof fn lemma_every_command_has_risk_note(
    old: App,
    new: App,
    key: KeyEvent,
    out: Option<CommandToExecute>,
)
    requires
        App::key_step(old, new, key, out),
        !old.modal_active,
        new.modal_active,
    ensures
        new.pending_command matches Some(c) && c.risk_warning is Some,
{
}

/// `R` does what `r` does (refresh the screen's data) wherever no text is
/// being typed.
pub proof fn lemma_upper_r_refreshes_like_r(
    old: App,
    new: App,
    ctrl: bool,
    out: Option<CommandToExecute>,
)
    requires
        !(old.active_tab == 2 && old.systemd.is_searching),
        !(old.active_tab == 5 && old.log_viewer.is_entering_service),
    ensures
        App::key_step(old, new, KeyEvent { code: KeyCode::Char('R'), ctrl }, out) <==> App::key_step(
            old,
            new,
            KeyEvent { code: KeyCode::Char('r'), ctrl },
            out,
        ),
{
}

/// Ctrl+C quits in every state (while a command runs, with either dialog
/// shown, while text is typed) and changes nothing else.
pub proof fn lemma_ctrl_c_always_quits(
    old: App,
    new: App,
    key: KeyEvent,
    out: Option<CommandToExecute>,
)
    requires
        App::key_step(old, new, key, out),
        key.code == KeyCode::Char('c'),
        key.ctrl,
    ensures
        new.should_quit,
        new == (App { should_quit: true, ..old }),
        out is None,
{
}

/// A confirmed command, once its answer arrives, is reported in the result
/// dialog under its own name with that answer, recorded as the last result,
/// and the history ends with it.
pub proof fn lemma_confirmed_command_is_reported(
    a0: App,
    a1: App,
    a2: App,
    key: KeyEvent,
    cmd: CommandToExecute,
    answer: Result<String, String>,
)
    requires
        App::key_step(a0, a1, key, Some(cmd)),
        App::tick_step(a1, a2, Some(answer)),
    ensures
        a2.result_modal_active,
        a2.result_scroll_offset == 0,
        a2.executed_command_name == cmd.display_name,
        a2.executed_command_result == (match answer {
            Ok(o) => o,
            Err(e) => e,
        }),
        a2.executed_command_success == answer is Ok,
        a2.executor.history@ == a0.executor.history@.push(cmd.command_string),
        a2.executor.last_result == Some(
            CommandResult {
                success: answer is Ok,
                output: match answer {
                    Ok(o) => o,
                    Err(e) => e,
                },
            },
        ),
        a2.execution_state is Idle,
        a2.active_tab == a0.active_tab,
{
}


/// Tab keys, with nothing running and no dialog shown: `1`–`7` show that
/// screen, Tab/→ the next one (after the last, the first), BackTab/← the
/// previous one (before the first, the last); `q` quits.
pub proof fn lemma_tab_keys(old: App, new: App, key: KeyEvent, out: Option<CommandToExecute>)
    requires
        App::key_step(old, new, key, out),
        old.wf(),
        old.execution_state is Idle,
        !old.result_modal_active,
        !old.modal_active,
        !is_force_quit(key),
    ensures
        out is None,
        key.code == KeyCode::Char('q') ==> new.should_quit && new.active_tab == old.active_tab,
        key.code == KeyCode::Char('1') ==> new.active_tab == 0,
        key.code == KeyCode::Char('4') ==> new.active_tab == 3,
        key.code == KeyCode::Char('7') ==> new.active_tab == 6,
        forall|d: char|
            '1' <= d <= '7' && key.code == KeyCode::Char(d) ==> new.active_tab == d as int
                - '1' as int,
        key.code == KeyCode::Tab || key.code == KeyCode::Right ==> new.active_tab == (if old.active_tab
            == 6 {
            0
        } else {
            old.active_tab + 1
        }),
        key.code == KeyCode::BackTab || key.code == KeyCode::Left ==> new.active_tab == (
        if old.active_tab == 0 {
            6
        } else {
            old.active_tab - 1
        }),
{
}

/// The result dialog scrolls a line at a time with ↑↓ and ten lines a page,
/// never before the first line of the result nor past its last.
pub proof fn lemma_result_scrolling(old: App, new: App, key: KeyEvent)
    requires
        App::result_key_step(old, new, key),
        lines(old.executed_command_result@).len() <= usize::MAX,
    ensures
        ({
            let o = old.result_scroll_offset as int;
            let last = max_scroll(lines(old.executed_command_result@).len()) as int;
            &&& key.code == KeyCode::PageDown ==> new.result_scroll_offset == (if o + 10 <= last {
                o + 10
            } else {
                last
            })
            &&& key.code == KeyCode::PageUp ==> new.result_scroll_offset == (if o >= 10 {
                o - 10
            } else {
                0
            })
            &&& key.code == KeyCode::Down && o < last ==> new.result_scroll_offset == o + 1
            &&& key.code == KeyCode::Up && o > 0 ==> new.result_scroll_offset == o - 1
        }),
        is_close_key(key.code) ==> !new.result_modal_active,
{
}

} // verus!
