//! Repairs for the desktop environment (shell restarts, cache cleaning).

use vstd::prelude::*;
use crate::commands::{CommandToExecute, is_command};
use crate::keys::{
    KeyCode, KeyEvent, is_up, is_down, is_refresh, key_is_up, key_is_down, key_is_refresh,
};
use crate::text::{views, lemma_views_push, lowercase, to_lowercase, uppercase, to_uppercase, cat, cat3};
use crate::tui::widgets::{SelectableList, next_sel, prev_sel, index_of};
use crate::modules::optimizations::{RiskLevel, risk_note, make_risk_note};

verus! {

pub const FIX_COUNT: usize = 8;

pub const FIX_NAMES: [&'static str; 8] = [
    "重启 KDE Plasma Shell",
    "重启 GNOME Shell",
    "重启用户级 systemd 服务",
    "清理缩略图缓存",
    "清理图标缓存",
    "重置 KDE 面板配置",
    "重启 PipeWire 音频",
    "查看当前图形会话信息",
];

pub const FIX_DESCRIPTIONS: [&'static str; 8] = [
    "终止并重启 plasmashell 进程，修复桌面面板和小组件问题",
    "通过 D-Bus 重启 GNOME Shell（仅 X11）",
    "重启当前用户的所有 systemd 用户级服务",
    "删除 ~/.cache/thumbnails 下的所有缩略图缓存文件",
    "重建图标缓存，修复图标显示异常",
    "删除 KDE 面板配置文件并重启 plasmashell（将恢复默认面板布局）",
    "重启 PipeWire 和 WirePlumber 音频服务",
    "显示当前的显示服务器、桌面环境和会话类型",
];

pub const FIX_COMMANDS: [&'static str; 8] = [
    "kquitapp5 plasmashell || killall plasmashell; sleep 1; kstart5 plasmashell &",
    "busctl --user call org.gnome.Shell /org/gnome/Shell org.gnome.Shell Eval s 'Meta.restart(\"Restarting…\")' 2>/dev/null || gnome-shell --replace &",
    "systemctl --user daemon-reload && systemctl --user restart --all",
    "rm -rf ~/.cache/thumbnails/*",
    "gtk-update-icon-cache -f /usr/share/icons/hicolor 2>/dev/null; update-icon-caches /usr/share/icons/* 2>/dev/null",
    "mv ~/.config/plasma-org.kde.plasma.desktop-appletsrc ~/.config/plasma-org.kde.plasma.desktop-appletsrc.bak && kquitapp5 plasmashell; sleep 1; kstart5 plasmashell &",
    "systemctl --user restart pipewire pipewire-pulse wireplumber 2>/dev/null",
    "echo \"Session: $XDG_SESSION_TYPE\"; echo \"Desktop: $XDG_CURRENT_DESKTOP\"; echo \"Display: $DISPLAY\"; echo \"Wayland: $WAYLAND_DISPLAY\"; loginctl show-session $(loginctl | grep $(whoami) | awk '{print $1}') -p Type -p Class -p Service 2>/dev/null",
];

/// What to expect from each repair.
pub const FIX_WARNINGS: [&'static str; 8] = [
    "桌面面板会短暂消失后重新加载",
    "GNOME Shell 会短暂闪烁",
    "所有用户级服务会短暂重启，可能影响正在运行的应用",
    "缩略图缓存将被删除，浏览图片时会重新生成",
    "图标缓存将被重建，图标可能短暂显示异常",
    "当前面板布局将丢失，原配置已备份为 .bak 文件",
    "音频会短暂中断",
    "只读操作，仅显示会话信息，不修改系统",
];

/// The risk level of each repair.
pub const FIX_LEVELS: [RiskLevel; 8] = [
    RiskLevel::Low,
    RiskLevel::Low,
    RiskLevel::Medium,
    RiskLevel::Low,
    RiskLevel::Low,
    RiskLevel::Medium,
    RiskLevel::Low,
    RiskLevel::Low,
];

/// The risk note of repair `i`: its level, then what to expect.
pub open spec fn fix_warning(i: int) -> Seq<char> {
    risk_note(FIX_LEVELS[i], FIX_WARNINGS[i]@)
}

pub struct DesktopFixesModule {
    pub selected_index: usize,
    pub list: SelectableList,
    /// The current desktop environment, in lower case.
    pub current_de: String,
    /// The desktop environment is to be read anew (see `set_desktop`).
    pub wants_data: bool,
}

impl DesktopFixesModule {
    /// What one key does: `↑`/`k` and `↓`/`j` move the selection (wrapping);
    /// `r`/`R` refreshes (see `refresh_step`); Enter asks for the selected
    /// repair, with its risk note; any other key does nothing.
    pub open spec fn key_step(
        old: Self,
        new: Self,
        key: KeyEvent,
        out: Option<CommandToExecute>,
    ) -> bool {
        let len = old.list.item_views().len();
        if is_up(key.code) || is_down(key.code) {
            &&& new.list.item_views() == old.list.item_views()
            &&& new.list.sel() == if is_up(key.code) {
                prev_sel(old.list.sel(), len)
            } else {
                next_sel(old.list.sel(), len)
            }
            &&& new.selected_index == index_of(new.list.sel())
            &&& new.current_de == old.current_de
            &&& new.wants_data == old.wants_data
            &&& out is None
        } else if is_refresh(key.code) {
            Self::refresh_step(old, new) && out is None
        } else if key.code == KeyCode::Enter {
            let i = index_of(old.list.sel());
            &&& new == old
            &&& if i < FIX_COUNT {
                out matches Some(c) && is_command(
                    c,
                    FIX_NAMES[i as int]@,
                    FIX_COMMANDS[i as int]@,
                    Some(fix_warning(i as int)),
                )
            } else {
                out is None
            }
        } else {
            new == old && out is None
        }
    }

    /// The list of all repairs, the first selected; `desktop` is the value of
    /// `XDG_CURRENT_DESKTOP` (empty when unset).
    pub fn new(desktop: &str) -> (m: Self)
        ensures
            m.list.item_views() == Seq::new(8, |i: int| FIX_NAMES[i]@),
            m.list.sel() == Some(0usize),
            m.selected_index == 0,
            m.current_de@ == lowercase(desktop@),
            !m.wants_data,
    {
        let mut items: Vec<String> = Vec::new();
        let mut i: usize = 0;
        while i < FIX_COUNT
            invariant
                i <= FIX_COUNT,
                views(items@) == Seq::new(i as nat, |k: int| FIX_NAMES[k]@),
            decreases FIX_COUNT - i,
        {
            let name = FIX_NAMES[i];
            assert(name == FIX_NAMES[i as int]);
            let item = String::from_str(name);
            proof {
                lemma_views_push(items@, item);
            }
            assert(views(items@).push(item@) =~= Seq::new((i + 1) as nat, |k: int| FIX_NAMES[k]@));
            items.push(item);
            i += 1;
        }
        DesktopFixesModule {
            selected_index: 0,
            list: SelectableList::new(items),
            current_de: to_lowercase(desktop),
            wants_data: false,
        }
    }

    pub fn handle_key_event(&mut self, key: KeyEvent) -> (out: Option<CommandToExecute>)
        ensures
            Self::key_step(*old(self), *final(self), key, out),
    {
        if key_is_up(key.code) {
            self.list.previous();
            self.selected_index = self.list.selected_index();
            None
        } else if key_is_down(key.code) {
            self.list.next();
            self.selected_index = self.list.selected_index();
            None
        } else if key_is_refresh(key.code) {
            self.refresh();
            None
        } else if key.code == KeyCode::Enter {
            let idx = self.list.selected_index();
            if idx < FIX_COUNT {
                let warning = make_risk_note(FIX_LEVELS[idx], FIX_WARNINGS[idx]);
                Some(
                    CommandToExecute {
                        display_name: String::from_str(FIX_NAMES[idx]),
                        command_string: String::from_str(FIX_COMMANDS[idx]),
                        risk_warning: Some(warning),
                    },
                )
            } else {
                None
            }
        } else {
            None
        }
    }

    /// The explanation of the selected repair: description, command and
    /// risk note; empty when nothing is selected.
    pub fn description(&self) -> (t: String)
        ensures
            ({
                let i = index_of(self.list.sel()) as int;
                t@ == if i < FIX_COUNT {
                    "  "@ + FIX_DESCRIPTIONS[i]@ + "\n  命令: "@ + FIX_COMMANDS[i]@ + "\n  ⚠ "@
                        + fix_warning(i)
                } else {
                    ""@
                }
            }),
    {
        let idx = self.list.selected_index();
        if idx < FIX_COUNT {
            let a = cat3("  ", FIX_DESCRIPTIONS[idx], "\n  命令: ");
            let b = cat(a.as_str(), FIX_COMMANDS[idx]);
            let w = make_risk_note(FIX_LEVELS[idx], FIX_WARNINGS[idx]);
            cat3(b.as_str(), "\n  ⚠ ", w.as_str())
        } else {
            String::from_str("")
        }
    }

    /// The desktop shown in the hint line, in upper case.
    pub fn desktop_text(&self) -> (t: String)
        ensures
            t@ == (if self.current_de@.len() == 0 {
                "未检测到桌面环境"@
            } else {
                "当前桌面: "@ + uppercase(self.current_de@)
            }),
    {
        if self.current_de.as_str().is_empty() {
            String::from_str("未检测到桌面环境")
        } else {
            let up = to_uppercase(self.current_de.as_str());
            cat("当前桌面: ", up.as_str())
        }
    }

    /// What `refresh` does: ask for the desktop environment to be read anew.
    pub open spec fn refresh_step(old: Self, new: Self) -> bool {
        new == (DesktopFixesModule { wants_data: true, ..old })
    }

    pub fn refresh(&mut self)
        ensures
            Self::refresh_step(*old(self), *final(self)),
    {
        self.wants_data = true;
    }

    /// Takes the desktop environment (`desktop` as in `new`).
    pub fn set_desktop(&mut self, desktop: &str)
        ensures
            final(self).current_de@ == lowercase(desktop@),
            !final(self).wants_data,
            final(self).list == old(self).list,
            final(self).selected_index == old(self).selected_index,
    {
        self.current_de = to_lowercase(desktop);
        self.wants_data = false;
    }
}

} // verus!
