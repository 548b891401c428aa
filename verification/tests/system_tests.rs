use ferio_linux_helper::keys::{KeyCode, KeyEvent};
use ferio_linux_helper::modules::system_info::{read_os_field, to_mb, SystemFacts, SystemInfoModule};
use ferio_linux_helper::modules::systemd::{ServiceInfo, SystemdModule, SystemdView};

const OS_RELEASE: &str = "NAME=\"Arch Linux\"\nPRETTY_NAME=\"Arch Linux\"\nID=arch\nBUILD_ID=rolling\n";

#[test]
fn os_release_fields() {
    assert_eq!(read_os_field(OS_RELEASE, "PRETTY_NAME"), Some("Arch Linux".to_string()));
    assert_eq!(read_os_field(OS_RELEASE, "ID"), Some("arch".to_string()));
    assert_eq!(read_os_field(OS_RELEASE, "VERSION"), None);
    assert_eq!(read_os_field("PRETTY_NAME\nPRETTY_NAME=x", "PRETTY_NAME"), None);
    assert_eq!(read_os_field("A=b=c", "A"), Some("b=c".to_string()));
    assert_eq!(read_os_field("", "A"), None);
}

fn facts() -> SystemFacts {
    SystemFacts {
        os_release: Some(OS_RELEASE.to_string()),
        kernel: Ok("6.9.1-arch1".to_string()),
        arch: Ok("x86_64".to_string()),
        hostname: Err("x".to_string()),
        user: Ok("root".to_string()),
        xdg_current_desktop: None,
        desktop_session: Some("plasma".to_string()),
        session_type: None,
        cpu_brands: vec!["Ryzen 7".to_string(), "Ryzen 7".to_string()],
        total_memory: 16 * 1024 * 1024 * 1024,
        used_memory: 4 * 1024 * 1024 * 1024 + 5,
        total_swap: 0,
        used_swap: 0,
        memory_percent: "25".to_string(),
        disk: Ok("20G / 100G (20% used)".to_string()),
        gpu: Ok(String::new()),
        uptime: Ok("up 2 hours".to_string()),
        systemd_state: Ok("running".to_string()),
    }
}

#[test]
fn system_overview_rows() {
    let mut m = SystemInfoModule::new();
    m.refresh();
    assert!(m.wants_data);
    m.gather_info(&facts());
    assert!(m.loaded && !m.wants_data);
    let values: Vec<&str> = m.info_lines.iter().map(|(_, v)| v.as_str()).collect();
    assert_eq!(
        values,
        vec![
            "Arch Linux",
            "6.9.1-arch1",
            "x86_64",
            "Unknown",
            "root",
            "plasma",
            "Unknown",
            "Ryzen 7 (2 cores)",
            "4096 MB / 16384 MB (25%)",
            "未启用",
            "20G / 100G (20% used)",
            "Unknown",
            "up 2 hours",
            "running",
        ]
    );
    assert_eq!(m.info_lines[0].0, "发行版");
    assert_eq!(m.info_lines[13].0, "systemd 状态");
}

#[test]
fn system_overview_fallbacks() {
    let mut f = facts();
    f.os_release = None;
    f.cpu_brands = vec![];
    f.total_swap = 2048 * 1024 * 1024;
    f.used_swap = 1024 * 1024;
    f.xdg_current_desktop = Some("KDE".to_string());
    f.gpu = Ok("NVIDIA".to_string());
    let mut m = SystemInfoModule::new();
    m.gather_info(&f);
    assert_eq!(m.info_lines[0].1, "Unknown");
    assert_eq!(m.info_lines[5].1, "KDE");
    assert_eq!(m.info_lines[7].1, "Unknown");
    assert_eq!(m.info_lines[9].1, "1 MB / 2048 MB");
    assert_eq!(m.info_lines[11].1, "NVIDIA");
    assert_eq!(to_mb(3 * 1024 * 1024 - 1), 2);
    let mut r = SystemInfoModule::new();
    assert!(r.handle_key_event(KeyEvent::new(KeyCode::Char('r'))).is_none());
    assert!(r.wants_data);
}

const UNITS: &str = "  accounts-daemon.service loaded active running Accounts Service\n\
●NetworkManager.service loaded failed failed Network Manager\n\
  short line\n\
  sshd.service loaded inactive dead OpenSSH Daemon\n";

fn loaded_module() -> SystemdModule {
    let mut m = SystemdModule::new();
    let units = SystemdModule::parse_units(&Ok(UNITS.to_string()));
    let enabled = vec![Ok("enabled".to_string()), Err("".to_string()), Ok("disabled".to_string())];
    m.load_services(&units, &enabled);
    m
}

#[test]
fn unit_listing_is_parsed() {
    let units = SystemdModule::parse_units(&Ok(UNITS.to_string()));
    assert_eq!(
        units,
        vec![
            ("accounts-daemon.service".to_string(), "active".to_string()),
            ("NetworkManager.service".to_string(), "failed".to_string()),
            ("sshd.service".to_string(), "inactive".to_string()),
        ]
    );
    assert!(SystemdModule::parse_units(&Err("no systemd".to_string())).is_empty());
    // A marker standing apart is a word of its own: the name is then empty
    // and the load state takes the place of the active state.
    assert_eq!(
        SystemdModule::parse_units(&Ok("● x.service loaded failed failed X".to_string())),
        vec![(String::new(), "loaded".to_string())]
    );
    assert_eq!(
        SystemdModule::enabled_query("sshd.service"),
        "systemctl is-enabled sshd.service 2>/dev/null"
    );
}

#[test]
fn services_are_listed_with_status() {
    let m = loaded_module();
    assert_eq!(m.services.len(), 3);
    assert_eq!(m.services[1].enabled, "unknown");
    assert_eq!(
        m.list.items(),
        &vec![
            "🟢 accounts-daemon.service [active] [enabled]".to_string(),
            "🔴 NetworkManager.service [failed] [unknown]".to_string(),
            "⚪ sshd.service [inactive] [disabled]".to_string(),
        ]
    );
    let odd = ServiceInfo { name: "x".to_string(), status: "activating".to_string(), enabled: "static".to_string() };
    let mut m2 = SystemdModule::new();
    m2.services.push(odd);
    m2.update_list_items();
    assert_eq!(m2.list.items()[0], "⚫ x [activating] [static]");
}

fn key(code: KeyCode) -> KeyEvent {
    KeyEvent::new(code)
}

#[test]
fn search_filters_without_regard_to_case() {
    let mut m = loaded_module();
    m.handle_key_event(key(KeyCode::Char('/')));
    assert!(m.is_searching);
    for c in "NETWORK".chars() {
        m.handle_key_event(key(KeyCode::Char(c)));
    }
    assert_eq!(m.list.len(), 1);
    assert_eq!(m.get_selected_service_name(), Some("NetworkManager.service".to_string()));
    m.handle_key_event(key(KeyCode::Char('x')));
    assert_eq!(m.list.len(), 0);
    assert_eq!(m.get_selected_service_name(), None);
    m.handle_key_event(key(KeyCode::Backspace));
    assert_eq!(m.search_query, "NETWORK");
    assert_eq!(m.list.len(), 1);
    m.handle_key_event(key(KeyCode::Enter));
    assert!(!m.is_searching);
}

#[test]
fn action_menu_asks_for_systemctl_commands() {
    let mut m = loaded_module();
    m.handle_key_event(key(KeyCode::Down));
    assert_eq!(m.selected_index, 1);
    assert!(m.handle_key_event(key(KeyCode::Enter)).is_none());
    assert_eq!(m.view, SystemdView::ActionMenu);
    let c = m.handle_key_event(key(KeyCode::Enter)).unwrap();
    assert_eq!(c.display_name, "查看状态: NetworkManager.service");
    assert_eq!(c.command_string, "systemctl status NetworkManager.service");
    assert_eq!(c.risk_warning.as_deref(), Some("[低风险] 只读操作，不修改系统"));
    m.handle_key_event(key(KeyCode::Down));
    m.handle_key_event(key(KeyCode::Down));
    let c = m.handle_key_event(key(KeyCode::Enter)).unwrap();
    assert_eq!(c.command_string, "systemctl stop NetworkManager.service");
    assert_eq!(c.risk_warning.as_deref(), Some("[高风险] 停止服务可能导致功能不可用"));
    m.handle_key_event(key(KeyCode::Up));
    m.handle_key_event(key(KeyCode::Up));
    m.handle_key_event(key(KeyCode::Up));
    assert!(m.handle_key_event(key(KeyCode::Enter)).is_none());
    assert_eq!(m.view, SystemdView::ServiceList);
    m.handle_key_event(key(KeyCode::Enter));
    assert_eq!(m.view, SystemdView::ActionMenu);
    m.handle_key_event(key(KeyCode::Esc));
    assert_eq!(m.view, SystemdView::ServiceList);
}

#[test]
fn empty_service_list_has_no_menu() {
    let mut m = SystemdModule::new();
    assert!(m.handle_key_event(key(KeyCode::Enter)).is_none());
    assert_eq!(m.view, SystemdView::ServiceList);
    m.refresh();
    assert!(m.wants_data);
}

#[test]
fn systemd_texts() {
    let mut m = loaded_module();
    assert_eq!(m.search_bar_text(), "  按 / 搜索  │  共 3 个服务");
    m.handle_key_event(key(KeyCode::Char('/')));
    assert_eq!(m.search_bar_text(), "  搜索: _");
    m.handle_key_event(key(KeyCode::Char('s')));
    assert_eq!(m.search_bar_text(), "  搜索: s_");
    m.handle_key_event(key(KeyCode::Esc));
    assert_eq!(m.search_bar_text(), "  搜索: s");
    assert_eq!(m.menu_title(), "⚙ accounts-daemon.service - 操作");
    let e = SystemdModule::new();
    assert_eq!(e.menu_title(), "⚙  - 操作");
}

#[test]
fn systemd_refresh_key_only_in_the_service_list() {
    let mut m = loaded_module();
    assert!(m.handle_key_event(KeyEvent::new(KeyCode::Char('R'))).is_none());
    assert!(m.wants_data);
    m.wants_data = false;
    m.handle_key_event(KeyEvent::new(KeyCode::Enter));
    assert_eq!(m.view, SystemdView::ActionMenu);
    m.handle_key_event(KeyEvent::new(KeyCode::Char('r')));
    assert!(!m.wants_data);
    assert_eq!(m.view, SystemdView::ActionMenu);
    m.handle_key_event(KeyEvent::new(KeyCode::Esc));
    m.handle_key_event(KeyEvent::new(KeyCode::Char('/')));
    m.handle_key_event(KeyEvent::new(KeyCode::Char('r')));
    assert!(!m.wants_data);
    assert_eq!(m.search_query, "r");
}

#[test]
fn every_systemd_action_has_a_risk_note() {
    let mut m = loaded_module();
    m.handle_key_event(KeyEvent::new(KeyCode::Enter));
    for _ in 0..4 {
        m.handle_key_event(KeyEvent::new(KeyCode::Down));
    }
    let c = m.handle_key_event(KeyEvent::new(KeyCode::Enter)).unwrap();
    assert_eq!(c.command_string, "systemctl enable accounts-daemon.service");
    assert_eq!(c.risk_warning.as_deref(), Some("[低风险] 服务将在开机时自动启动"));
}

#[test]
fn system_overview_refreshes_with_upper_case_r() {
    let mut m = SystemInfoModule::new();
    assert!(m.handle_key_event(KeyEvent::new(KeyCode::Char('R'))).is_none());
    assert!(m.wants_data);
}
