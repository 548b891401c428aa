//! System overview: distribution, kernel, desktop, CPU, memory, disk, GPU.

use vstd::prelude::*;
use crate::keys::KeyEvent;
use crate::commands::CommandToExecute;
use crate::keys::{is_refresh, key_is_refresh};
use crate::text::{
    views, row_views, ok_or, some_or, result_or, option_or, push_row, lines, starts_with,
    trim_by, is_char, split_lines, has_prefix, chars_of, string_of_range, trim_char, cat, cat3,
    decimal, decimal_string,
};

verus! {

/// The text after the first `c` in `line`, if `c` occurs.
pub open spec fn after_first(line: Seq<char>, c: char) -> Option<Seq<char>>
    decreases line.len(),
{
    if line.len() == 0 {
        None
    } else if line[0] == c {
        Some(line.drop_first())
    } else {
        after_first(line.drop_first(), c)
    }
}

/// The value of `field` in os-release lines: the first line that starts with
/// `field` decides; its text after the first `=`, without surrounding
/// double quotes; nothing when that line has no `=` or no line matches.
pub open spec fn os_field(ls: Seq<Seq<char>>, field: Seq<char>) -> Option<Seq<char>>
    decreases ls.len(),
{
    if ls.len() == 0 {
        None
    } else if starts_with(ls[0], field) {
        match after_first(ls[0], '=') {
            Some(v) => Some(trim_by(v, is_char('"'))),
            None => None,
        }
    } else {
        os_field(ls.drop_first(), field)
    }
}

fn value_after_equals(line: &str) -> (r: Option<String>)
    ensures
        match r {
            Some(s) => after_first(line@, '=') == Some(s@),
            None => after_first(line@, '=') is None,
        },
{
    let v = chars_of(line);
    let n: usize = v.len();
    let mut k: usize = 0;
    assert(line@.skip(0) =~= line@);
    while k < n
        invariant
            v@ == line@,
            n == v.len(),
            k <= n,
            after_first(line@, '=') == after_first(line@.skip(k as int), '='),
        decreases n - k,
    {
        if v[k] == '=' {
            assert(line@.skip(k as int)[0] == '=');
            assert(line@.skip(k as int).drop_first() =~= line@.subrange(k + 1, n as int));
            return Some(string_of_range(&v, k + 1, n));
        }
        assert(line@.skip(k as int).drop_first() =~= line@.skip(k + 1));
        k += 1;
    }
    assert(line@.skip(n as int).len() == 0);
    None
}

pub fn read_os_field(content: &str, field: &str) -> (r: Option<String>)
    ensures
        match r {
            Some(s) => os_field(lines(content@), field@) == Some(s@),
            None => os_field(lines(content@), field@) is None,
        },
{
    let ls = split_lines(content);
    let mut i: usize = 0;
    assert(views(ls@).skip(0) =~= views(ls@));
    while i < ls.len()
        invariant
            i <= ls.len(),
            views(ls@) == lines(content@),
            os_field(lines(content@), field@) == os_field(views(ls@).skip(i as int), field@),
        decreases ls.len() - i,
    {
        let line = ls[i].as_str();
        assert(views(ls@).skip(i as int)[0] == line@);
        if has_prefix(line, field) {
            return match value_after_equals(line) {
                Some(v) => Some(trim_char(v.as_str(), '"')),
                None => None,
            };
        }
        assert(views(ls@).skip(i as int).drop_first() =~= views(ls@).skip(i + 1));
        i += 1;
    }
    assert(views(ls@).skip(i as int).len() == 0);
    None
}

/// What the system queries answered.
pub struct SystemFacts {
    /// The content of `/etc/os-release`, if it could be read.
    pub os_release: Option<String>,
    pub kernel: Result<String, String>,
    pub arch: Result<String, String>,
    pub hostname: Result<String, String>,
    pub user: Result<String, String>,
    /// `XDG_CURRENT_DESKTOP`, `DESKTOP_SESSION` and `XDG_SESSION_TYPE`.
    pub xdg_current_desktop: Option<String>,
    pub desktop_session: Option<String>,
    pub session_type: Option<String>,
    /// The brand of every CPU.
    pub cpu_brands: Vec<String>,
    /// Memory and swap in bytes.
    pub total_memory: u64,
    pub used_memory: u64,
    pub total_swap: u64,
    pub used_swap: u64,
    /// The used share of memory in percent, as displayed (no decimals).
    pub memory_percent: String,
    pub disk: Result<String, String>,
    pub gpu: Result<String, String>,
    pub uptime: Result<String, String>,
    pub systemd_state: Result<String, String>,
}

pub open spec fn mb(bytes: u64) -> nat {
    (bytes / 1024 / 1024) as nat
}

/// Bytes in whole mebibytes.
pub fn to_mb(bytes: u64) -> (m: u64)
    ensures
        m == mb(bytes),
{
    bytes / 1024 / 1024
}

pub open spec fn cpu_text(brands: Seq<Seq<char>>) -> Seq<char> {
    if brands.len() > 0 {
        brands[0] + " ("@ + decimal(brands.len()) + " cores)"@
    } else {
        "Unknown"@
    }
}

pub open spec fn memory_text(f: SystemFacts) -> Seq<char> {
    decimal(mb(f.used_memory)) + " MB / "@ + decimal(mb(f.total_memory)) + " MB ("@
        + f.memory_percent@ + "%)"@
}

pub open spec fn swap_text(f: SystemFacts) -> Seq<char> {
    if mb(f.total_swap) > 0 {
        decimal(mb(f.used_swap)) + " MB / "@ + decimal(mb(f.total_swap)) + " MB"@
    } else {
        "未启用"@
    }
}

pub open spec fn gpu_text(r: Result<String, String>) -> Seq<char> {
    let g = ok_or(r, "Unknown"@);
    if g.len() == 0 {
        "Unknown"@
    } else {
        g
    }
}

pub open spec fn distro_text(os_release: Option<String>) -> Seq<char> {
    match os_release {
        Some(c) => match os_field(lines(c@), "PRETTY_NAME"@) {
            Some(v) => v,
            None => "Unknown"@,
        },
        None => "Unknown"@,
    }
}

/// The rows of the system overview for the given answers ("Unknown" for
/// anything that could not be found out).
pub open spec fn system_rows(f: SystemFacts) -> Seq<(Seq<char>, Seq<char>)> {
    seq![
        ("发行版"@, distro_text(f.os_release)),
        ("内核版本"@, ok_or(f.kernel, "Unknown"@)),
        ("架构"@, ok_or(f.arch, "Unknown"@)),
        ("主机名"@, ok_or(f.hostname, "Unknown"@)),
        ("当前用户"@, ok_or(f.user, "Unknown"@)),
        ("桌面环境"@, some_or(f.xdg_current_desktop, some_or(f.desktop_session, "Unknown"@))),
        ("会话类型"@, some_or(f.session_type, "Unknown"@)),
        ("CPU"@, cpu_text(views(f.cpu_brands@))),
        ("内存"@, memory_text(f)),
        ("交换空间"@, swap_text(f)),
        ("磁盘 (/)"@, ok_or(f.disk, "Unknown"@)),
        ("显卡"@, gpu_text(f.gpu)),
        ("运行时间"@, ok_or(f.uptime, "Unknown"@)),
        ("systemd 状态"@, ok_or(f.systemd_state, "Unknown"@)),
    ]
}

pub struct SystemInfoModule {
    pub info_lines: Vec<(String, String)>,
    pub loaded: bool,
    /// The overview is to be gathered (see `gather_info`).
    pub wants_data: bool,
}

fn distro_of(os_release: &Option<String>) -> (s: String)
    ensures
        s@ == distro_text(*os_release),
{
    match os_release {
        Some(c) => match read_os_field(c.as_str(), "PRETTY_NAME") {
            Some(v) => v,
            None => String::from_str("Unknown"),
        },
        None => String::from_str("Unknown"),
    }
}

fn cpu_of(brands: &Vec<String>) -> (s: String)
    ensures
        s@ == cpu_text(views(brands@)),
{
    if brands.len() > 0 {
        let count = decimal_string(brands.len() as u64);
        let head = cat(brands[0].as_str(), " (");
        cat3(head.as_str(), count.as_str(), " cores)")
    } else {
        String::from_str("Unknown")
    }
}

fn memory_of(f: &SystemFacts) -> (s: String)
    ensures
        s@ == memory_text(*f),
{
    let used = decimal_string(to_mb(f.used_memory));
    let total = decimal_string(to_mb(f.total_memory));
    let a = cat3(used.as_str(), " MB / ", total.as_str());
    let b = cat3(a.as_str(), " MB (", f.memory_percent.as_str());
    cat(b.as_str(), "%)")
}

fn swap_of(f: &SystemFacts) -> (s: String)
    ensures
        s@ == swap_text(*f),
{
    let total = to_mb(f.total_swap);
    if total > 0 {
        let used = decimal_string(to_mb(f.used_swap));
        let t = decimal_string(total);
        let a = cat3(used.as_str(), " MB / ", t.as_str());
        cat(a.as_str(), " MB")
    } else {
        String::from_str("未启用")
    }
}

fn gpu_of(r: &Result<String, String>) -> (s: String)
    ensures
        s@ == gpu_text(*r),
{
    let g = result_or(r, "Unknown");
    if g.as_str().is_empty() {
        String::from_str("Unknown")
    } else {
        g
    }
}

impl SystemInfoModule {
    pub fn new() -> (m: Self)
        ensures
            m.info_lines@.len() == 0,
            !m.loaded,
            !m.wants_data,
    {
        SystemInfoModule { info_lines: Vec::new(), loaded: false, wants_data: false }
    }

    /// Builds the overview from what the system queries answered.
    pub fn gather_info(&mut self, facts: &SystemFacts)
        ensures
            row_views(final(self).info_lines@) == system_rows(*facts),
            final(self).loaded,
            !final(self).wants_data,
    {
        let mut info: Vec<(String, String)> = Vec::new();
        push_row(&mut info, "发行版", distro_of(&facts.os_release));
        push_row(&mut info, "内核版本", result_or(&facts.kernel, "Unknown"));
        push_row(&mut info, "架构", result_or(&facts.arch, "Unknown"));
        push_row(&mut info, "主机名", result_or(&facts.hostname, "Unknown"));
        push_row(&mut info, "当前用户", result_or(&facts.user, "Unknown"));
        let session_fallback = option_or(&facts.desktop_session, "Unknown");
        push_row(
            &mut info,
            "桌面环境",
            option_or(&facts.xdg_current_desktop, session_fallback.as_str()),
        );
        push_row(&mut info, "会话类型", option_or(&facts.session_type, "Unknown"));
        push_row(&mut info, "CPU", cpu_of(&facts.cpu_brands));
        push_row(&mut info, "内存", memory_of(facts));
        push_row(&mut info, "交换空间", swap_of(facts));
        push_row(&mut info, "磁盘 (/)", result_or(&facts.disk, "Unknown"));
        push_row(&mut info, "显卡", gpu_of(&facts.gpu));
        push_row(&mut info, "运行时间", result_or(&facts.uptime, "Unknown"));
        push_row(&mut info, "systemd 状态", result_or(&facts.systemd_state, "Unknown"));
        assert(row_views(info@) =~= system_rows(*facts));
        self.info_lines = info;
        self.loaded = true;
        self.wants_data = false;
    }

    /// What one key does: `r`/`R` asks for the overview to be gathered
    /// anew; no key asks for a command.
    pub open spec fn key_step(old: Self, new: Self, key: KeyEvent, out: Option<CommandToExecute>) -> bool {
        &&& out is None
        &&& if is_refresh(key.code) {
            new == (SystemInfoModule { wants_data: true, ..old })
        } else {
            new == old
        }
    }

    pub fn handle_key_event(&mut self, key: KeyEvent) -> (out: Option<CommandToExecute>)
        ensures
            Self::key_step(*old(self), *final(self), key, out),
    {
        if key_is_refresh(key.code) {
            self.wants_data = true;
        }
        None
    }

    /// What `refresh` does: ask for the overview when it was never gathered.
    pub open spec fn refresh_step(old: Self, new: Self) -> bool {
        new == (SystemInfoModule { wants_data: old.wants_data || !old.loaded, ..old })
    }

    pub fn refresh(&mut self)
        ensures
            Self::refresh_step(*old(self), *final(self)),
    {
        if !self.loaded {
            self.wants_data = true;
        }
    }
}

/// The swap row says "未启用" exactly when there is less than one mebibyte
/// of swap; otherwise it shows the used and the total swap in whole
/// mebibytes, whatever share of it is used.
pub proof fn lemma_swap_row(f: SystemFacts)
    ensures
        f.total_swap < 1048576 ==> swap_text(f) == "未启用"@,
        f.total_swap >= 1048576 ==> swap_text(f) == decimal((f.used_swap / 1048576) as nat)
            + " MB / "@ + decimal((f.total_swap / 1048576) as nat) + " MB"@,
{
    assert(f.total_swap / 1024 / 1024 == f.total_swap / 1048576) by (nonlinear_arith);
    assert(f.used_swap / 1024 / 1024 == f.used_swap / 1048576) by (nonlinear_arith);
}

} // verus!
