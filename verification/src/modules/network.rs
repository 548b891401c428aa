//! Network overview (addresses, gateway, DNS, NetworkManager, Wi-Fi) and
//! network diagnostics.

use vstd::prelude::*;
use crate::commands::{CommandToExecute, is_command};
use crate::keys::{
    KeyCode, KeyEvent, is_up, is_down, is_refresh, key_is_up, key_is_down, key_is_refresh,
};
use crate::text::{
    views, lemma_views_push, row_views, lemma_row_views_push, ok_or, result_or, push_row, lines,
    words, join, split_lines, split_words, join_from, cat, cat3,
};
use crate::tui::widgets::{SelectableList, next_sel, prev_sel, index_of};
use crate::modules::optimizations::{RiskLevel, risk_note, make_risk_note};

verus! {

pub const NETWORK_ACTION_COUNT: usize = 6;

pub const NETWORK_ACTION_ITEMS: [&'static str; 6] = [
    "Ping 8.8.8.8 (Google DNS)",
    "Ping 223.5.5.5 (阿里 DNS)",
    "Ping baidu.com",
    "重启 NetworkManager",
    "显示路由表",
    "显示 DNS 配置",
];

pub const NETWORK_ACTION_NAMES: [&'static str; 6] = [
    "Ping Google DNS",
    "Ping 阿里 DNS",
    "Ping baidu.com",
    "重启 NetworkManager",
    "显示路由表",
    "显示 DNS 配置",
];

pub const NETWORK_ACTION_COMMANDS: [&'static str; 6] = [
    "ping -c 4 8.8.8.8",
    "ping -c 4 223.5.5.5",
    "ping -c 4 baidu.com",
    "systemctl restart NetworkManager",
    "ip route show",
    "cat /etc/resolv.conf",
];

/// What to expect from each action.
pub const NETWORK_ACTION_WARNINGS: [&'static str; 6] = [
    "只读操作，将向目标发送 4 个 ICMP 探测包",
    "只读操作，将向目标发送 4 个 ICMP 探测包",
    "只读操作，将向目标发送 4 个 ICMP 探测包",
    "重启网络管理器会导致网络短暂断开",
    "只读操作，不修改系统",
    "只读操作，不修改系统",
];

/// The risk level of each action.
pub const NETWORK_ACTION_LEVELS: [RiskLevel; 6] = [
    RiskLevel::Low,
    RiskLevel::Low,
    RiskLevel::Low,
    RiskLevel::Medium,
    RiskLevel::Low,
    RiskLevel::Low,
];

/// The risk note of action `i`: its level, then what to expect.
pub open spec fn network_warning(i: int) -> Seq<char> {
    risk_note(NETWORK_ACTION_LEVELS[i], NETWORK_ACTION_WARNINGS[i]@)
}

/// What the network queries answered (the answers of silently run commands).
pub struct NetworkFacts {
    /// Brief address list, one interface per line: name, state, addresses.
    pub addresses: Result<String, String>,
    pub gateway: Result<String, String>,
    pub dns: Result<String, String>,
    pub nm_status: Result<String, String>,
    /// The SSID of the active Wi-Fi connection.
    pub wifi: Result<String, String>,
    pub hostname: Result<String, String>,
}

/// The row of one line of the address list, if it has at least three words:
/// the interface, then its addresses (comma separated) and state in brackets.
pub open spec fn address_row(line: Seq<char>) -> Option<(Seq<char>, Seq<char>)> {
    let parts = words(line);
    if parts.len() >= 3 {
        Some((parts[0], join(parts.skip(2), ", "@) + " ("@ + parts[1] + ")"@))
    } else {
        None
    }
}

pub open spec fn address_rows(ls: Seq<Seq<char>>) -> Seq<(Seq<char>, Seq<char>)>
    decreases ls.len(),
{
    if ls.len() == 0 {
        seq![]
    } else {
        let rest = address_rows(ls.drop_last());
        match address_row(ls.last()) {
            Some(r) => rest.push(r),
            None => rest,
        }
    }
}

/// The rows that the network overview shows for the given answers.
pub open spec fn network_rows(f: NetworkFacts) -> Seq<(Seq<char>, Seq<char>)> {
    let a = address_rows(lines(ok_or(f.addresses, "未知"@)));
    let base = a + seq![
        ("默认网关"@, ok_or(f.gateway, "未知"@)),
        ("DNS 服务器"@, ok_or(f.dns, "未知"@)),
        ("NetworkManager"@, ok_or(f.nm_status, "未安装"@)),
    ];
    let wifi = ok_or(f.wifi, ""@);
    let with_wifi = if wifi.len() > 0 {
        base.push(("WiFi SSID"@, wifi))
    } else {
        base
    };
    with_wifi.push(("主机名"@, ok_or(f.hostname, "未知"@)))
}

pub struct NetworkModule {
    pub info_lines: Vec<(String, String)>,
    pub action_list: SelectableList,
    pub loaded: bool,
    /// The overview is to be gathered (see `gather_info`).
    pub wants_data: bool,
}

fn address_rows_of(text: &str) -> (rows: Vec<(String, String)>)
    ensures
        row_views(rows@) == address_rows(lines(text@)),
{
    let ls = split_lines(text);
    let mut rows: Vec<(String, String)> = Vec::new();
    let mut i: usize = 0;
    assert(views(ls@).take(0) =~= seq![]);
    while i < ls.len()
        invariant
            i <= ls.len(),
            views(ls@) == lines(text@),
            row_views(rows@) == address_rows(views(ls@).take(i as int)),
        decreases ls.len() - i,
    {
        let ghost pre = views(ls@).take(i + 1);
        assert(pre.drop_last() =~= views(ls@).take(i as int));
        assert(pre.last() == ls@[i as int]@);
        let parts = split_words(ls[i].as_str());
        if parts.len() >= 3 {
            assert(views(parts@).len() == parts@.len());
            let joined = join_from(&parts, 2, ", ");
            let left = cat(joined.as_str(), " (");
            let value = cat3(left.as_str(), parts[1].as_str(), ")");
            let label = parts[0].clone();
            let row = (label, value);
            proof {
                lemma_row_views_push(rows@, row);
            }
            rows.push(row);
        } else {
            assert(views(parts@).len() == parts@.len());
        }
        i += 1;
    }
    assert(views(ls@).take(ls.len() as int) =~= views(ls@));
    rows
}

impl NetworkModule {
    /// What one key does: `↑`/`k` and `↓`/`j` move the selection (wrapping);
    /// `r`/`R` asks for the overview to be gathered anew; Enter asks for the
    /// selected diagnostic, with its risk note; any other key does nothing.
    pub open spec fn key_step(
        old: Self,
        new: Self,
        key: KeyEvent,
        out: Option<CommandToExecute>,
    ) -> bool {
        let len = old.action_list.item_views().len();
        if is_up(key.code) || is_down(key.code) {
            &&& new.action_list.item_views() == old.action_list.item_views()
            &&& new.action_list.sel() == if is_up(key.code) {
                prev_sel(old.action_list.sel(), len)
            } else {
                next_sel(old.action_list.sel(), len)
            }
            &&& new.info_lines == old.info_lines
            &&& new.loaded == old.loaded
            &&& new.wants_data == old.wants_data
            &&& out is None
        } else if is_refresh(key.code) {
            new == (NetworkModule { wants_data: true, ..old }) && out is None
        } else if key.code == KeyCode::Enter {
            let i = index_of(old.action_list.sel());
            &&& new == old
            &&& if i < NETWORK_ACTION_COUNT {
                out matches Some(c) && is_command(
                    c,
                    NETWORK_ACTION_NAMES[i as int]@,
                    NETWORK_ACTION_COMMANDS[i as int]@,
                    Some(network_warning(i as int)),
                )
            } else {
                out is None
            }
        } else {
            new == old && out is None
        }
    }

    /// No overview yet; the diagnostics listed, the first selected.
    pub fn new() -> (m: Self)
        ensures
            m.info_lines@.len() == 0,
            m.action_list.item_views() == Seq::new(6, |i: int| NETWORK_ACTION_ITEMS[i]@),
            m.action_list.sel() == Some(0usize),
            !m.loaded,
            !m.wants_data,
    {
        let mut items: Vec<String> = Vec::new();
        let mut i: usize = 0;
        while i < NETWORK_ACTION_COUNT
            invariant
                i <= NETWORK_ACTION_COUNT,
                views(items@) == Seq::new(i as nat, |k: int| NETWORK_ACTION_ITEMS[k]@),
            decreases NETWORK_ACTION_COUNT - i,
        {
            let t = NETWORK_ACTION_ITEMS[i];
            assert(t == NETWORK_ACTION_ITEMS[i as int]);
            let item = String::from_str(t);
            proof {
                lemma_views_push(items@, item);
            }
            assert(views(items@).push(item@) =~= Seq::new(
                (i + 1) as nat,
                |k: int| NETWORK_ACTION_ITEMS[k]@,
            ));
            items.push(item);
            i += 1;
        }
        NetworkModule {
            info_lines: Vec::new(),
            action_list: SelectableList::new(items),
            loaded: false,
            wants_data: false,
        }
    }

    /// Builds the overview from the answers of the network queries: one row
    /// per interface with at least three fields, then gateway, DNS servers
    /// and NetworkManager state ("未知"/"未安装" when a query failed), the
    /// Wi-Fi SSID when there is one, and the host name.
    pub fn gather_info(&mut self, facts: &NetworkFacts)
        ensures
            row_views(final(self).info_lines@) == network_rows(*facts),
            final(self).loaded,
            !final(self).wants_data,
            final(self).action_list == old(self).action_list,
    {
        let addr_text = result_or(&facts.addresses, "未知");
        let mut info = address_rows_of(addr_text.as_str());
        let ghost a = row_views(info@);
        push_row(&mut info, "默认网关", result_or(&facts.gateway, "未知"));
        push_row(&mut info, "DNS 服务器", result_or(&facts.dns, "未知"));
        push_row(&mut info, "NetworkManager", result_or(&facts.nm_status, "未安装"));
        let ghost base = row_views(info@);
        assert(base =~= a + seq![
            ("默认网关"@, ok_or(facts.gateway, "未知"@)),
            ("DNS 服务器"@, ok_or(facts.dns, "未知"@)),
            ("NetworkManager"@, ok_or(facts.nm_status, "未安装"@)),
        ]);
        let wifi = result_or(&facts.wifi, "");
        if !wifi.as_str().is_empty() {
            push_row(&mut info, "WiFi SSID", wifi);
        }
        push_row(&mut info, "主机名", result_or(&facts.hostname, "未知"));
        self.info_lines = info;
        self.loaded = true;
        self.wants_data = false;
    }

    pub fn handle_key_event(&mut self, key: KeyEvent) -> (out: Option<CommandToExecute>)
        ensures
            Self::key_step(*old(self), *final(self), key, out),
    {
        if key_is_up(key.code) {
            self.action_list.previous();
            None
        } else if key_is_down(key.code) {
            self.action_list.next();
            None
        } else if key_is_refresh(key.code) {
            self.wants_data = true;
            None
        } else if key.code == KeyCode::Enter {
            let idx = self.action_list.selected_index();
            if idx < NETWORK_ACTION_COUNT {
                let warning = make_risk_note(
                    NETWORK_ACTION_LEVELS[idx],
                    NETWORK_ACTION_WARNINGS[idx],
                );
                Some(
                    CommandToExecute {
                        display_name: String::from_str(NETWORK_ACTION_NAMES[idx]),
                        command_string: String::from_str(NETWORK_ACTION_COMMANDS[idx]),
                        risk_warning: Some(warning),
                    },
                )
            } else {
                None
            }
        } else {
            None
        }
    }

    /// What `refresh` does: ask for the overview when it was never gathered.
    pub open spec fn refresh_step(old: Self, new: Self) -> bool {
        new == (NetworkModule { wants_data: old.wants_data || !old.loaded, ..old })
    }

    pub fn refresh(&mut self)
        ensures
            Self::refresh_step(*old(self), *final(self)),
    {
        if !self.loaded {
            self.wants_data = true;
        }
    }
}


/// Each diagnostic runs the command its list entry names: the three pings
/// (to 8.8.8.8, 223.5.5.5 and baidu.com, four packets each), the restart of
/// NetworkManager, the routing table and the DNS configuration.
pub proof fn lemma_diagnostic_commands(
    old: NetworkModule,
    new: NetworkModule,
    key: KeyEvent,
    c: CommandToExecute,
)
    requires
        NetworkModule::key_step(old, new, key, Some(c)),
    ensures
        key.code == KeyCode::Enter,
        new == old,
        ({
            let i = index_of(old.action_list.sel());
            &&& i < 6
            &&& c.command_string@ == if i == 0 {
                "ping -c 4 8.8.8.8"@
            } else if i == 1 {
                "ping -c 4 223.5.5.5"@
            } else if i == 2 {
                "ping -c 4 baidu.com"@
            } else if i == 3 {
                "systemctl restart NetworkManager"@
            } else if i == 4 {
                "ip route show"@
            } else {
                "cat /etc/resolv.conf"@
            }
        }),
{
}

} // verus!
