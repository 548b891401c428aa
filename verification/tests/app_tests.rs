use ferio_linux_helper::keys::{KeyCode, KeyEvent};
use ferio_linux_helper::modules::package_manager::PackageManager;
use ferio_linux_helper::modules::log_viewer::LineSeverity;
use ferio_linux_helper::tui::app::{result_line_severity, spinner, App, CommandExecutionState};

fn key(code: KeyCode) -> KeyEvent {
    KeyEvent::new(code)
}

fn app() -> App {
    App::new(false, PackageManager::Apt, "GNOME")
}

#[test]
fn new_app_is_idle_on_the_first_tab() {
    let a = app();
    assert_eq!(a.active_tab, 0);
    assert_eq!(a.status_message, "就绪");
    assert!(!a.modal_active && !a.result_modal_active && !a.should_quit);
    assert!(!a.is_running());
    let d = App::new(true, PackageManager::Unknown, "");
    assert_eq!(d.status_message, "模式: DRY-RUN (命令不会实际执行)");
    assert!(d.executor.dry_run);
    assert_eq!(a.desktop_fixes.current_de, "gnome");
}

#[test]
fn tabs_wrap_both_ways_and_digits_pick_one() {
    let mut a = app();
    a.handle_key_event(key(KeyCode::BackTab));
    assert_eq!(a.active_tab, 6);
    a.handle_key_event(key(KeyCode::Tab));
    assert_eq!(a.active_tab, 0);
    a.handle_key_event(key(KeyCode::Right));
    a.handle_key_event(key(KeyCode::Left));
    assert_eq!(a.active_tab, 0);
    a.handle_key_event(key(KeyCode::Char('3')));
    assert_eq!(a.active_tab, 2);
    assert!(a.systemd.wants_data);
    a.handle_key_event(key(KeyCode::Char('6')));
    assert_eq!(a.active_tab, 5);
    assert!(a.log_viewer.pending_query.is_some());
    a.handle_key_event(key(KeyCode::Char('8')));
    assert_eq!(a.active_tab, 5);
}

#[test]
fn quit_keys() {
    let mut a = app();
    a.handle_key_event(key(KeyCode::Char('c')));
    assert!(!a.should_quit);
    a.handle_key_event(KeyEvent::with_ctrl(KeyCode::Char('c')));
    assert!(a.should_quit);
    let mut b = app();
    b.handle_key_event(key(KeyCode::Char('q')));
    assert!(b.should_quit);
}

#[test]
fn a_command_runs_only_after_confirmation() {
    let mut a = app();
    a.handle_key_event(key(KeyCode::Char('7')));
    assert!(a.handle_key_event(key(KeyCode::Enter)).is_none());
    assert!(a.modal_active);
    assert_eq!(a.pending_command.as_ref().unwrap().command_string, "sysctl -w vm.swappiness=10");
    assert!(a.executor.history.is_empty());
    // Other keys leave the dialog as it is.
    assert!(a.handle_key_event(key(KeyCode::Down)).is_none());
    assert!(a.modal_active);
    let started = a.handle_key_event(key(KeyCode::Char('y'))).unwrap();
    assert_eq!(started.command_string, "sysctl -w vm.swappiness=10");
    assert!(!a.modal_active && a.pending_command.is_none());
    assert_eq!(a.executor.history, vec!["sysctl -w vm.swappiness=10".to_string()]);
    assert_eq!(a.status_message, "正在执行: 降低 Swappiness (10)...");
    assert!(a.is_running());
    match &a.execution_state {
        CommandExecutionState::Running { display_name, command_string } => {
            assert_eq!(display_name, "降低 Swappiness (10)");
            assert_eq!(command_string, "sysctl -w vm.swappiness=10");
        }
        CommandExecutionState::Idle => panic!("expected a running command"),
    }
}

#[test]
fn cancelled_commands_are_dropped() {
    let mut a = app();
    a.handle_key_event(key(KeyCode::Char('5')));
    a.handle_key_event(key(KeyCode::Enter));
    assert!(a.modal_active);
    assert!(a.handle_key_event(key(KeyCode::Esc)).is_none());
    assert!(!a.modal_active && a.pending_command.is_none());
    assert_eq!(a.status_message, "操作已取消");
    assert!(a.executor.history.is_empty());
    assert!(!a.is_running());
}

#[test]
fn keys_are_ignored_while_a_command_runs_and_the_result_is_shown_after() {
    let mut a = app();
    a.handle_key_event(key(KeyCode::Char('4')));
    a.handle_key_event(key(KeyCode::Enter));
    a.handle_key_event(key(KeyCode::Enter)).unwrap();
    a.handle_key_event(key(KeyCode::Char('q')));
    a.handle_key_event(key(KeyCode::Tab));
    assert!(!a.should_quit);
    assert_eq!(a.active_tab, 3);
    a.tick(None);
    assert!(a.is_running());
    a.tick(Some(Ok("PING 8.8.8.8\n4 packets transmitted\nrtt ok".to_string())));
    assert!(!a.is_running());
    assert!(a.result_modal_active);
    assert!(a.executed_command_success);
    assert_eq!(a.executed_command_name, "Ping Google DNS");
    assert_eq!(a.status_message, "就绪 - 上次操作: Ping Google DNS");
    let last = a.executor.last_result.clone().unwrap();
    assert!(last.success);
    assert_eq!(last.output, "PING 8.8.8.8\n4 packets transmitted\nrtt ok");
    // Scrolling stays within the three lines.
    a.handle_key_event(key(KeyCode::Down));
    a.handle_key_event(key(KeyCode::Char('j')));
    a.handle_key_event(key(KeyCode::Down));
    assert_eq!(a.result_scroll_offset, 2);
    a.handle_key_event(key(KeyCode::PageUp));
    assert_eq!(a.result_scroll_offset, 0);
    a.handle_key_event(key(KeyCode::PageDown));
    assert_eq!(a.result_scroll_offset, 2);
    a.handle_key_event(key(KeyCode::Char('k')));
    assert_eq!(a.result_scroll_offset, 1);
    a.handle_key_event(key(KeyCode::Char('q')));
    assert!(!a.result_modal_active);
    assert!(!a.should_quit);
}

#[test]
fn failed_commands_are_reported() {
    let mut a = app();
    a.handle_key_event(key(KeyCode::Char('7')));
    a.handle_key_event(key(KeyCode::Enter));
    a.handle_key_event(key(KeyCode::Char('y')));
    a.tick(Some(Err("permission denied".to_string())));
    assert!(a.result_modal_active);
    assert!(!a.executed_command_success);
    assert_eq!(a.executed_command_result, "permission denied");
    assert!(!a.executor.last_result.clone().unwrap().success);
}

#[test]
fn refresh_of_the_first_screen_asks_for_the_overview() {
    let mut a = app();
    a.refresh_active_module();
    assert!(a.sys_info.wants_data);
    assert!(!a.network.wants_data);
}

#[test]
fn display_texts() {
    let mut a = app();
    assert_eq!(
        a.status_text(),
        " 就绪  │  ←→/Tab 切换  │  ↑↓ 选择  │  Enter 确认  │  Esc/q 退出"
    );
    let d = App::new(true, PackageManager::Apt, "");
    assert!(d.status_text().starts_with("  [DRY-RUN] 模式"));
    a.handle_key_event(key(KeyCode::Char('7')));
    a.handle_key_event(key(KeyCode::Enter));
    a.handle_key_event(key(KeyCode::Enter));
    a.tick(Some(Ok("a\nb\nc\nd".to_string())));
    assert_eq!(a.result_window(2), (0, 2, 4));
    assert_eq!(a.result_title(2), " ✔  执行结果: 降低 Swappiness (10) [行 1-2/共 4 行] ");
    a.handle_key_event(key(KeyCode::PageDown));
    assert_eq!(a.result_window(2), (3, 4, 4));
    assert_eq!(
        a.status_text(),
        "  ↑↓/PgUp/PgDn 滚动查看结果  │  Enter/Esc/q 关闭弹窗  │  ferio-linux-helper"
    );
    let mut b = app();
    b.handle_key_event(key(KeyCode::Char('7')));
    b.handle_key_event(key(KeyCode::Enter));
    b.handle_key_event(key(KeyCode::Enter));
    b.tick(Some(Err(String::new())));
    assert_eq!(b.result_title(5), " ✗  执行结果: 降低 Swappiness (10) [行 0-0/共 0 行] ");
    assert_eq!(result_line_severity("Build FAILED"), LineSeverity::Error);
    assert_eq!(result_line_severity("Warning: x"), LineSeverity::Warning);
    assert_eq!(result_line_severity("ok"), LineSeverity::Normal);
    assert_eq!(spinner(0), "⠋");
    assert_eq!(spinner(5), "⠙");
    assert_eq!(spinner(7), "⠸");
}

#[test]
fn ctrl_c_quits_while_a_command_runs() {
    let mut a = app();
    a.handle_key_event(key(KeyCode::Char('4')));
    a.handle_key_event(key(KeyCode::Enter));
    a.handle_key_event(key(KeyCode::Enter)).unwrap();
    assert!(a.is_running());
    assert!(a.handle_key_event(KeyEvent::with_ctrl(KeyCode::Char('c'))).is_none());
    assert!(a.should_quit);
    assert!(a.is_running());
    assert_eq!(a.active_tab, 3);
}

#[test]
fn ctrl_c_quits_from_either_dialog() {
    let mut a = app();
    a.handle_key_event(key(KeyCode::Char('7')));
    a.handle_key_event(key(KeyCode::Enter));
    assert!(a.modal_active);
    assert!(a.handle_key_event(KeyEvent::with_ctrl(KeyCode::Char('c'))).is_none());
    assert!(a.should_quit);
    assert!(a.modal_active && a.pending_command.is_some());
    assert!(a.executor.history.is_empty());

    let mut b = app();
    b.handle_key_event(key(KeyCode::Char('4')));
    b.handle_key_event(key(KeyCode::Enter));
    b.handle_key_event(key(KeyCode::Enter)).unwrap();
    b.tick(Some(Err("unreachable".to_string())));
    assert!(b.result_modal_active);
    b.handle_key_event(KeyEvent::with_ctrl(KeyCode::Char('c')));
    assert!(b.should_quit);
    assert!(b.result_modal_active);
}

#[test]
fn ctrl_c_quits_while_a_service_name_is_typed() {
    let mut a = app();
    a.handle_key_event(key(KeyCode::Char('6')));
    a.log_viewer.is_entering_service = true;
    a.handle_key_event(KeyEvent::with_ctrl(KeyCode::Char('c')));
    assert!(a.should_quit);
    assert_eq!(a.log_viewer.service_query, "");
}

#[test]
fn upper_case_r_refreshes_the_active_screen() {
    let mut a = app();
    a.refresh_active_module();
    a.sys_info.wants_data = false;
    a.sys_info.loaded = true;
    a.handle_key_event(key(KeyCode::Char('R')));
    assert!(a.sys_info.wants_data);
    a.handle_key_event(key(KeyCode::Char('2')));
    a.pkg_mgr.wants_detection = false;
    a.handle_key_event(key(KeyCode::Char('R')));
    assert!(a.pkg_mgr.wants_detection);
    a.handle_key_event(key(KeyCode::Char('3')));
    a.systemd.wants_data = false;
    a.handle_key_event(key(KeyCode::Char('r')));
    assert!(a.systemd.wants_data);
    a.handle_key_event(key(KeyCode::Char('5')));
    a.desktop_fixes.wants_data = false;
    a.handle_key_event(key(KeyCode::Char('R')));
    assert!(a.desktop_fixes.wants_data);
    a.handle_key_event(key(KeyCode::Char('6')));
    a.log_viewer.receive_log(&Ok("a\nb".to_string()));
    a.handle_key_event(key(KeyCode::Char('R')));
    assert_eq!(
        a.log_viewer.pending_query.as_deref(),
        Some("journalctl -p 3 -n 200 --no-pager 2>/dev/null")
    );
    a.handle_key_event(key(KeyCode::Char('7')));
    a.handle_key_event(key(KeyCode::Down));
    a.handle_key_event(key(KeyCode::Char('R')));
    assert_eq!(a.optimizations.selected_index, 1);
    assert!(!a.modal_active);
}

#[test]
fn every_screen_command_has_a_risk_note() {
    let mut a = app();
    for tab in ['2', '4', '5', '7'] {
        a.handle_key_event(key(KeyCode::Char(tab)));
        for _ in 0..8 {
            a.handle_key_event(key(KeyCode::Enter));
            assert!(a.modal_active);
            let w = a.pending_command.as_ref().unwrap().risk_warning.clone().unwrap();
            assert!(w.starts_with("[低风险] ") || w.starts_with("[中风险] ") || w.starts_with("[高风险] "));
            a.handle_key_event(key(KeyCode::Esc));
            a.handle_key_event(key(KeyCode::Down));
        }
    }
}

#[test]
fn the_confirmation_dialog_shows_the_full_command_and_note() {
    let mut a = App::new(true, PackageManager::Apt, "");
    assert!(a.confirmation_text().is_none());
    a.handle_key_event(key(KeyCode::Char('2')));
    a.handle_key_event(key(KeyCode::Down));
    a.handle_key_event(key(KeyCode::Down));
    a.handle_key_event(key(KeyCode::Enter));
    let t = a.confirmation_text().unwrap();
    assert_eq!(t.operation, "  操作: 升级系统");
    assert_eq!(t.command, "apt upgrade -y");
    assert_eq!(t.warning.as_deref(), Some("  ⚠ 风险提示: [高风险] 将升级所有软件包"));
    assert_eq!(
        t.dry_run_notice.as_deref(),
        Some("  📋 DRY-RUN 模式: 命令不会实际执行，仅记录日志")
    );
    assert_eq!(t.keys, "  按 [Y/Enter] 确认  │  按 [N/Esc] 取消");
    let mut b = app();
    b.handle_key_event(key(KeyCode::Char('4')));
    b.handle_key_event(key(KeyCode::Enter));
    assert!(b.confirmation_text().unwrap().dry_run_notice.is_none());
}
