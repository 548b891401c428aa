use ferio_linux_helper::keys::{KeyCode, KeyEvent};
use ferio_linux_helper::modules::desktop_fixes::DesktopFixesModule;
use ferio_linux_helper::modules::log_viewer::{
    log_line_severity, LineSeverity, LogViewerModule,
};
use ferio_linux_helper::modules::network::{NetworkFacts, NetworkModule};
use ferio_linux_helper::modules::optimizations::{OptimizationsModule, RiskLevel};
use ferio_linux_helper::modules::package_manager::{PackageManager, PackageManagerModule};
use ferio_linux_helper::shell::shell_quoted;

fn key(code: KeyCode) -> KeyEvent {
    KeyEvent::new(code)
}

fn ok(s: &str) -> Result<String, String> {
    Ok(s.to_string())
}

fn err(s: &str) -> Result<String, String> {
    Err(s.to_string())
}

#[test]
fn optimizations_carry_their_risk_level() {
    let mut m = OptimizationsModule::new();
    assert_eq!(m.list.len(), 8);
    assert_eq!(m.list.items()[0], "[低] 降低 Swappiness (10)");
    assert_eq!(m.list.items()[3], "[中] 清理临时文件");
    let c = m.handle_key_event(key(KeyCode::Enter)).unwrap();
    assert_eq!(c.display_name, "降低 Swappiness (10)");
    assert_eq!(c.command_string, "sysctl -w vm.swappiness=10");
    assert_eq!(
        c.risk_warning.as_deref(),
        Some("[低风险] 仅在当前会话生效，重启后恢复默认值。如需永久生效需修改 /etc/sysctl.conf")
    );
    m.handle_key_event(key(KeyCode::Up));
    assert_eq!(m.selected_index, 7);
    m.handle_key_event(key(KeyCode::Char('k')));
    m.handle_key_event(key(KeyCode::Char('j')));
    m.handle_key_event(key(KeyCode::Down));
    assert_eq!(m.selected_index, 0);
    for _ in 0..3 {
        m.handle_key_event(key(KeyCode::Down));
    }
    let c = m.handle_key_event(key(KeyCode::Enter)).unwrap();
    assert_eq!(c.risk_warning.as_deref(), Some("[中风险] 正在运行的程序可能依赖 /tmp 中的文件"));
    assert!(m.handle_key_event(key(KeyCode::Char('x'))).is_none());
    assert_eq!(RiskLevel::High.label(), "高风险");
}

#[test]
fn desktop_fixes_know_the_desktop_in_lower_case() {
    let mut m = DesktopFixesModule::new("KDE");
    assert_eq!(m.current_de, "kde");
    assert_eq!(m.list.items()[1], "重启 GNOME Shell");
    let c = m.handle_key_event(key(KeyCode::Enter)).unwrap();
    assert_eq!(c.display_name, "重启 KDE Plasma Shell");
    assert_eq!(c.risk_warning.as_deref(), Some("[低风险] 桌面面板会短暂消失后重新加载"));
    for _ in 0..3 {
        m.handle_key_event(key(KeyCode::Down));
    }
    let c = m.handle_key_event(key(KeyCode::Enter)).unwrap();
    assert_eq!(c.display_name, "清理缩略图缓存");
    assert_eq!(c.command_string, "rm -rf ~/.cache/thumbnails/*");
    assert_eq!(
        c.risk_warning.as_deref(),
        Some("[低风险] 缩略图缓存将被删除，浏览图片时会重新生成")
    );
    m.refresh();
    assert!(m.wants_data);
    m.set_desktop("GNOME");
    assert_eq!(m.current_de, "gnome");
    assert!(!m.wants_data);
}

#[test]
fn package_manager_detection_order() {
    assert_eq!(PackageManager::detect(true, true, true, true), PackageManager::Pacman);
    assert_eq!(PackageManager::detect(false, true, true, false), PackageManager::Dnf);
    assert_eq!(PackageManager::detect(false, false, true, true), PackageManager::Apt);
    assert_eq!(PackageManager::detect(false, false, false, true), PackageManager::Zypper);
    assert_eq!(PackageManager::detect(false, false, false, false), PackageManager::Unknown);
    assert_eq!(PackageManager::Zypper.name(), "zypper");
    assert_eq!(PackageManager::Pacman.actions().len(), 7);
    assert_eq!(PackageManager::Unknown.actions().len(), 0);
    assert_eq!(
        PackageManager::Apt.actions()[2],
        ("升级系统", "apt upgrade -y", Some("将升级所有软件包"))
    );
}

#[test]
fn package_actions_ask_for_their_command() {
    let mut m = PackageManagerModule::new(PackageManager::Pacman);
    assert_eq!(m.list.items()[0], "刷新软件源 (pacman -Sy)");
    m.handle_key_event(key(KeyCode::Up));
    let c = m.handle_key_event(key(KeyCode::Enter)).unwrap();
    assert_eq!(c.display_name, "删除孤立包");
    assert_eq!(c.command_string, "pacman -Rns $(pacman -Qdtq) --noconfirm");
    assert_eq!(c.risk_warning.as_deref(), Some("[高风险] 将移除所有不再被依赖的包"));
    let mut u = PackageManagerModule::new(PackageManager::Unknown);
    assert!(u.handle_key_event(key(KeyCode::Enter)).is_none());
}

#[test]
fn redetection_replaces_only_a_different_manager() {
    let mut m = PackageManagerModule::new(PackageManager::Dnf);
    m.handle_key_event(key(KeyCode::Down));
    m.refresh();
    assert!(m.wants_detection);
    m.apply_detection(PackageManager::Dnf);
    assert!(!m.wants_detection);
    assert_eq!(m.list.selected_index(), 1);
    m.apply_detection(PackageManager::Apt);
    assert_eq!(m.pkg_mgr, PackageManager::Apt);
    assert_eq!(m.list.len(), 5);
    assert_eq!(m.list.selected_index(), 0);
}

fn network_facts(addresses: Result<String, String>, wifi: Result<String, String>) -> NetworkFacts {
    NetworkFacts {
        addresses,
        gateway: ok("192.168.1.1"),
        dns: err(""),
        nm_status: err("inactive"),
        wifi,
        hostname: ok("box"),
    }
}

fn row(a: &str, b: &str) -> (String, String) {
    (a.to_string(), b.to_string())
}

#[test]
fn network_overview_rows() {
    let mut m = NetworkModule::new();
    m.refresh();
    assert!(m.wants_data);
    let text = "eth0             UP             192.168.1.5/24 fe80::1/64\nwlan0 DOWN\ndocker0 UP 172.17.0.1/16";
    m.gather_info(&network_facts(ok(text), ok("HomeNet")));
    assert!(m.loaded && !m.wants_data);
    assert_eq!(
        m.info_lines,
        vec![
            row("eth0", "192.168.1.5/24, fe80::1/64 (UP)"),
            row("docker0", "172.17.0.1/16 (UP)"),
            row("默认网关", "192.168.1.1"),
            row("DNS 服务器", "未知"),
            row("NetworkManager", "未安装"),
            row("WiFi SSID", "HomeNet"),
            row("主机名", "box"),
        ]
    );
    m.gather_info(&network_facts(err("x"), ok("")));
    assert_eq!(m.info_lines.len(), 4);
    assert_eq!(m.info_lines[3], row("主机名", "box"));
}

#[test]
fn network_keys() {
    let mut m = NetworkModule::new();
    assert!(m.handle_key_event(key(KeyCode::Char('r'))).is_none());
    assert!(m.wants_data);
    m.handle_key_event(key(KeyCode::Down));
    m.handle_key_event(key(KeyCode::Down));
    m.handle_key_event(key(KeyCode::Down));
    let c = m.handle_key_event(key(KeyCode::Enter)).unwrap();
    assert_eq!(c.display_name, "重启 NetworkManager");
    assert_eq!(c.command_string, "systemctl restart NetworkManager");
    assert_eq!(c.risk_warning.as_deref(), Some("[中风险] 重启网络管理器会导致网络短暂断开"));
    m.handle_key_event(key(KeyCode::Up));
    let c = m.handle_key_event(key(KeyCode::Enter)).unwrap();
    assert_eq!(c.command_string, "ping -c 4 baidu.com");
    assert_eq!(
        c.risk_warning.as_deref(),
        Some("[低风险] 只读操作，将向目标发送 4 个 ICMP 探测包")
    );
}

#[test]
fn log_viewer_loads_on_first_refresh() {
    let mut m = LogViewerModule::new();
    m.refresh();
    assert!(m.loaded);
    assert_eq!(
        m.pending_query.as_deref(),
        Some("journalctl -p 3 -n 200 --no-pager 2>/dev/null")
    );
    m.receive_log(&ok("l1\nl2\nl3"));
    assert_eq!(m.log_content, vec!["l1", "l2", "l3"]);
    assert!(m.pending_query.is_none());
    m.refresh();
    assert!(m.pending_query.is_none());
}

#[test]
fn log_viewer_answers() {
    let mut m = LogViewerModule::new();
    m.receive_log(&ok(""));
    assert_eq!(m.log_content, vec!["（无日志条目）"]);
    m.receive_log(&err("permission denied"));
    assert_eq!(m.log_content, vec!["加载日志失败: permission denied"]);
}

#[test]
fn log_viewer_scrolls_within_the_content() {
    let mut m = LogViewerModule::new();
    let text: Vec<String> = (0..50).map(|i| format!("line {}", i)).collect();
    m.receive_log(&Ok(text.join("\n")));
    m.handle_key_event(key(KeyCode::Up));
    assert_eq!(m.scroll_offset, 0);
    m.handle_key_event(key(KeyCode::Char('j')));
    assert_eq!(m.scroll_offset, 1);
    m.handle_key_event(key(KeyCode::PageDown));
    assert_eq!(m.scroll_offset, 21);
    m.handle_key_event(key(KeyCode::PageDown));
    m.handle_key_event(key(KeyCode::PageDown));
    assert_eq!(m.scroll_offset, 49);
    m.handle_key_event(key(KeyCode::Down));
    assert_eq!(m.scroll_offset, 49);
    m.handle_key_event(key(KeyCode::PageUp));
    assert_eq!(m.scroll_offset, 29);
    m.handle_key_event(key(KeyCode::Home));
    assert_eq!(m.scroll_offset, 0);
    m.handle_key_event(key(KeyCode::End));
    assert_eq!(m.scroll_offset, 49);
    m.handle_key_event(key(KeyCode::Char('r')));
    assert_eq!(m.scroll_offset, 0);
    assert!(m.pending_query.is_some());
}

#[test]
fn log_viewer_service_query() {
    let mut m = LogViewerModule::new();
    m.handle_key_event(key(KeyCode::Char('4')));
    assert!(m.is_entering_service);
    m.handle_key_event(key(KeyCode::Enter));
    assert!(!m.is_entering_service);
    assert_eq!(m.log_content, vec!["请输入服务名后按 Enter 查询"]);
    assert!(m.pending_query.is_none());
    assert_eq!(m.current_category, 3);
    m.handle_key_event(key(KeyCode::Char('4')));
    for c in "sshdx".chars() {
        m.handle_key_event(key(KeyCode::Char(c)));
    }
    m.handle_key_event(key(KeyCode::Backspace));
    assert_eq!(m.service_query, "sshd");
    m.handle_key_event(key(KeyCode::Enter));
    assert_eq!(
        m.pending_query.as_deref(),
        Some("journalctl -u 'sshd' -n 200 --no-pager 2>/dev/null")
    );
    m.handle_key_event(key(KeyCode::Char('2')));
    assert_eq!(
        m.pending_query.as_deref(),
        Some("journalctl -b -n 200 --no-pager 2>/dev/null")
    );
    m.handle_key_event(key(KeyCode::Char('3')));
    assert_eq!(m.current_category, 2);
    m.handle_key_event(key(KeyCode::Char('4')));
    m.handle_key_event(key(KeyCode::Esc));
    assert!(!m.is_entering_service);
}

#[test]
fn log_view_texts_and_highlighting() {
    let mut m = LogViewerModule::new();
    assert_eq!(m.category_text(), "  [1] 错误日志  [2] 启动日志  [3] 内核日志  [4] 指定服务");
    m.handle_key_event(key(KeyCode::Char('4')));
    m.handle_key_event(key(KeyCode::Char('x')));
    assert_eq!(m.category_text(), "  输入服务名: x_");
    let text: Vec<String> = (0..30).map(|i| format!("l{}", i)).collect();
    m.receive_log(&Ok(text.join("\n")));
    assert_eq!(m.title(), " 📋 日志查看  [1/30] ");
    assert_eq!(m.visible_range(10), (0, 10));
    m.scroll_offset = 25;
    assert_eq!(m.visible_range(10), (25, 30));
    assert_eq!(m.title(), " 📋 日志查看  [26/30] ");
    assert_eq!(log_line_severity("unit failed to start"), LineSeverity::Error);
    assert_eq!(log_line_severity("ERROR: disk"), LineSeverity::Error);
    assert_eq!(log_line_severity("Error: disk"), LineSeverity::Normal);
    assert_eq!(log_line_severity("WARNING low"), LineSeverity::Warning);
    assert_eq!(log_line_severity("all good"), LineSeverity::Normal);
}

#[test]
fn screen_texts() {
    let m = PackageManagerModule::new(PackageManager::Dnf);
    assert_eq!(m.header_text(), "  检测到包管理器: dnf  │  共 6 个可用操作");
    let mut d = DesktopFixesModule::new("kde");
    assert_eq!(d.desktop_text(), "当前桌面: KDE");
    assert_eq!(
        d.description(),
        "  终止并重启 plasmashell 进程，修复桌面面板和小组件问题\n  命令: kquitapp5 plasmashell || killall plasmashell; sleep 1; kstart5 plasmashell &\n  ⚠ [低风险] 桌面面板会短暂消失后重新加载"
    );
    d.handle_key_event(key(KeyCode::Up));
    assert!(d
        .description()
        .ends_with("2>/dev/null\n  ⚠ [低风险] 只读操作，仅显示会话信息，不修改系统"));
    assert_eq!(DesktopFixesModule::new("").desktop_text(), "未检测到桌面环境");
}

#[test]
fn a_typed_service_name_is_quoted_as_one_argument() {
    let mut m = LogViewerModule::new();
    m.handle_key_event(key(KeyCode::Char('4')));
    for c in "x; touch /tmp/pwned".chars() {
        m.handle_key_event(key(KeyCode::Char(c)));
    }
    m.handle_key_event(key(KeyCode::Enter));
    assert_eq!(m.service_query, "x; touch /tmp/pwned");
    assert_eq!(
        m.pending_query.as_deref(),
        Some("journalctl -u 'x; touch /tmp/pwned' -n 200 --no-pager 2>/dev/null")
    );
    assert_eq!(m.current_category, 3);
    let mut v = LogViewerModule::new();
    v.handle_key_event(key(KeyCode::Char('4')));
    for c in "nginx*".chars() {
        v.handle_key_event(key(KeyCode::Char(c)));
    }
    v.handle_key_event(key(KeyCode::Enter));
    assert_eq!(
        v.pending_query.as_deref(),
        Some("journalctl -u 'nginx*' -n 200 --no-pager 2>/dev/null")
    );
}

#[test]
fn shell_quoting() {
    assert_eq!(shell_quoted("sshd"), "'sshd'");
    assert_eq!(shell_quoted(""), "''");
    assert_eq!(shell_quoted("a'b"), "'a'\\''b'");
    assert_eq!(shell_quoted("$(id)"), "'$(id)'");
    assert_eq!(shell_quoted("dev-sda1\\x2d.device"), "'dev-sda1\\x2d.device'");
    assert_eq!(shell_quoted("日志 "), "'日志 '");
}

#[test]
fn refresh_key_in_both_cases() {
    let mut n = NetworkModule::new();
    assert!(n.handle_key_event(key(KeyCode::Char('R'))).is_none());
    assert!(n.wants_data);
    let mut p = PackageManagerModule::new(PackageManager::Dnf);
    assert!(p.handle_key_event(key(KeyCode::Char('r'))).is_none());
    assert!(p.wants_detection);
    let mut d = DesktopFixesModule::new("");
    assert!(d.handle_key_event(key(KeyCode::Char('R'))).is_none());
    assert!(d.wants_data);
    let mut m = LogViewerModule::new();
    m.handle_key_event(key(KeyCode::Char('2')));
    m.receive_log(&ok("x"));
    m.handle_key_event(key(KeyCode::Char('R')));
    assert_eq!(
        m.pending_query.as_deref(),
        Some("journalctl -b -n 200 --no-pager 2>/dev/null")
    );
    // While a service name is typed, r and R are letters of the name.
    m.handle_key_event(key(KeyCode::Char('4')));
    m.handle_key_event(key(KeyCode::Char('R')));
    m.handle_key_event(key(KeyCode::Char('r')));
    assert_eq!(m.service_query, "Rr");
}

#[test]
fn every_desktop_fix_has_a_risk_note() {
    let mut m = DesktopFixesModule::new("KDE");
    let mut notes = Vec::new();
    for _ in 0..8 {
        let c = m.handle_key_event(key(KeyCode::Enter)).unwrap();
        notes.push(c.risk_warning.unwrap());
        m.handle_key_event(key(KeyCode::Down));
    }
    assert_eq!(notes[4], "[低风险] 图标缓存将被重建，图标可能短暂显示异常");
    assert_eq!(notes[5], "[中风险] 当前面板布局将丢失，原配置已备份为 .bak 文件");
    assert_eq!(notes[7], "[低风险] 只读操作，仅显示会话信息，不修改系统");
    assert!(m.description().ends_with("\n  ⚠ [低风险] 桌面面板会短暂消失后重新加载"));
}

#[test]
fn optimization_detail_panel() {
    let mut m = OptimizationsModule::new();
    m.handle_key_event(key(KeyCode::Up));
    let d = m.detail().unwrap();
    assert_eq!(d.description, "  清理 ~/.cache 下超过 30 天的缓存文件。");
    assert_eq!(d.command, "find ~/.cache -type f -atime +30 -delete 2>/dev/null");
    assert_eq!(d.warning, "  ⚠ [低风险] 部分应用可能需要重新生成缓存");
    assert_eq!(d.level, RiskLevel::Low);
}
