//! The journal viewer: error, boot, kernel and per-service logs, scrollable.

use vstd::prelude::*;
use crate::commands::CommandToExecute;
use crate::shell::{shell_quote, shell_quoted, sh_word, lemma_quoted_is_one_word};
use crate::keys::{
    KeyCode, KeyEvent, is_up, is_down, is_refresh, key_is_up, key_is_down, key_is_refresh,
};
use crate::text::{
    views, lines, split_lines, cat, cat3, without_last, with_char, contains, has_substring,
    decimal, decimal_string,
};

verus! {

/// The largest scroll offset for `len` lines: the last line (0 when empty).
pub open spec fn max_scroll(len: nat) -> nat {
    if len == 0 {
        0
    } else {
        (len - 1) as nat
    }
}

/// The journal query of a category: 0 errors, 1 this boot, 2 kernel, 3 the
/// service `service` as it was typed, quoted as one shell word (none while
/// no service is named); none for others.
pub open spec fn log_query(category: usize, service: Seq<char>) -> Option<Seq<char>> {
    if category == 0 {
        Some("journalctl -p 3 -n 200 --no-pager 2>/dev/null"@)
    } else if category == 1 {
        Some("journalctl -b -n 200 --no-pager 2>/dev/null"@)
    } else if category == 2 {
        Some("journalctl -k -n 200 --no-pager 2>/dev/null"@)
    } else if category == 3 && service.len() > 0 {
        Some("journalctl -u "@ + shell_quote(service) + " -n 200 --no-pager 2>/dev/null"@)
    } else {
        None
    }
}

/// The lines shown for the answer of a journal query.
pub open spec fn log_lines(r: Result<String, String>) -> Seq<Seq<char>> {
    match r {
        Ok(o) => if o@.len() == 0 {
            seq!["（无日志条目）"@]
        } else {
            lines(o@)
        },
        Err(e) => seq!["加载日志失败: "@ + e@],
    }
}

/// How a line of text is highlighted.
#[derive(Clone, Copy, Debug, PartialEq, Eq, Structural)]
pub enum LineSeverity {
    Error,
    Warning,
    Normal,
}

/// A journal line is an error when it mentions `error`, `ERROR` or `failed`,
/// else a warning when it mentions `warning` or `WARNING`.
pub open spec fn log_severity(l: Seq<char>) -> LineSeverity {
    if contains(l, "error"@) || contains(l, "ERROR"@) || contains(l, "failed"@) {
        LineSeverity::Error
    } else if contains(l, "warning"@) || contains(l, "WARNING"@) {
        LineSeverity::Warning
    } else {
        LineSeverity::Normal
    }
}

pub fn log_line_severity(line: &str) -> (s: LineSeverity)
    ensures
        s == log_severity(line@),
{
    if has_substring(line, "error") || has_substring(line, "ERROR") || has_substring(line, "failed") {
        LineSeverity::Error
    } else if has_substring(line, "warning") || has_substring(line, "WARNING") {
        LineSeverity::Warning
    } else {
        LineSeverity::Normal
    }
}

/// The window of at most `height` lines from `start` within `len` lines:
/// its end is `start + height`, cut at `len` (an empty window from `start`
/// past the end).
pub open spec fn window_end(start: nat, height: nat, len: nat) -> nat {
    if start + height <= len {
        start + height
    } else {
        len
    }
}

pub fn window(start: usize, height: usize, len: usize) -> (end: usize)
    ensures
        end == window_end(start as nat, height as nat, len as nat),
{
    if start >= len {
        len
    } else if len - start <= height {
        len
    } else {
        start + height
    }
}

pub struct LogViewerModule {
    pub log_content: Vec<String>,
    pub scroll_offset: usize,
    pub service_query: String,
    pub is_entering_service: bool,
    pub current_category: usize,
    pub loaded: bool,
    /// The journal query to run, whose answer goes to `receive_log`.
    pub pending_query: Option<String>,
}

impl LogViewerModule {
    /// The scroll offset stays on a line of the content.
    pub open spec fn wf(&self) -> bool {
        self.scroll_offset <= max_scroll(self.log_content@.len())
    }

    /// What `load_log(category)` does: select the category, scroll to the top
    /// and ask for its query; for a service category with no service named,
    /// show a prompt instead.
    pub open spec fn load_step(old: Self, new: Self, category: usize) -> bool {
        &&& new.current_category == category
        &&& new.scroll_offset == 0
        &&& new.service_query == old.service_query
        &&& new.is_entering_service == old.is_entering_service
        &&& new.loaded == old.loaded
        &&& match log_query(category, old.service_query@) {
            Some(q) => new.pending_query matches Some(p) && p@ == q && new.log_content
                == old.log_content,
            None => if category == 3 {
                views(new.log_content@) == seq!["请输入服务名后按 Enter 查询"@]
                    && new.pending_query == old.pending_query
            } else {
                new.log_content == old.log_content && new.pending_query == old.pending_query
            },
        }
    }

    /// What one key does. While a service name is typed: Esc stops typing,
    /// Backspace deletes, Enter loads that service's log, other characters
    /// are typed. Otherwise: `1`–`3` load a category, `4` starts typing a
    /// service name, `↑↓`/`jk` scroll by a line, PageUp/PageDown by 20, Home
    /// and End go to the first and last line, `r`/`R` reloads. No key asks
    /// for a command.
    pub open spec fn key_step(old: Self, new: Self, key: KeyEvent) -> bool {
        let len = old.log_content@.len();
        let same_but_scroll = |s: usize|
            new == (LogViewerModule { scroll_offset: s, ..old });
        if old.is_entering_service {
            match key.code {
                KeyCode::Esc => new == (LogViewerModule { is_entering_service: false, ..old }),
                KeyCode::Backspace => {
                    &&& new.service_query@ == (if old.service_query@.len() > 0 {
                        old.service_query@.drop_last()
                    } else {
                        old.service_query@
                    })
                    &&& new == (LogViewerModule { service_query: new.service_query, ..old })
                },
                KeyCode::Enter => Self::load_step(
                    LogViewerModule { is_entering_service: false, ..old },
                    new,
                    3,
                ),
                KeyCode::Char(c) => {
                    &&& new.service_query@ == old.service_query@.push(c)
                    &&& new == (LogViewerModule { service_query: new.service_query, ..old })
                },
                _ => new == old,
            }
        } else if key.code == KeyCode::Char('1') {
            Self::load_step(old, new, 0)
        } else if key.code == KeyCode::Char('2') {
            Self::load_step(old, new, 1)
        } else if key.code == KeyCode::Char('3') {
            Self::load_step(old, new, 2)
        } else if key.code == KeyCode::Char('4') {
            new == (LogViewerModule { is_entering_service: true, ..old })
        } else if is_up(key.code) {
            same_but_scroll(
                if old.scroll_offset > 0 {
                    (old.scroll_offset - 1) as usize
                } else {
                    old.scroll_offset
                },
            )
        } else if is_down(key.code) {
            same_but_scroll(
                if old.scroll_offset < max_scroll(len) {
                    (old.scroll_offset + 1) as usize
                } else {
                    old.scroll_offset
                },
            )
        } else if key.code == KeyCode::PageUp {
            same_but_scroll(
                if old.scroll_offset >= 20 {
                    (old.scroll_offset - 20) as usize
                } else {
                    0usize
                },
            )
        } else if key.code == KeyCode::PageDown {
            same_but_scroll(
                if old.scroll_offset + 20 <= max_scroll(len) {
                    (old.scroll_offset + 20) as usize
                } else {
                    max_scroll(len) as usize
                },
            )
        } else if key.code == KeyCode::Home {
            same_but_scroll(0)
        } else if key.code == KeyCode::End {
            same_but_scroll(max_scroll(len) as usize)
        } else if is_refresh(key.code) {
            Self::load_step(old, new, old.current_category)
        } else {
            new == old
        }
    }

    /// The lines shown in a pane of `height` lines: from the scroll offset
    /// (cut at the end of the content), as many as fit.
    pub fn visible_range(&self, height: usize) -> (r: (usize, usize))
        ensures
            r.0 == (if self.scroll_offset <= self.log_content@.len() {
                self.scroll_offset as nat
            } else {
                self.log_content@.len()
            }),
            r.1 == window_end(r.0 as nat, height as nat, self.log_content@.len()),
            r.0 <= r.1 <= self.log_content@.len(),
    {
        let len = self.log_content.len();
        let start = if self.scroll_offset <= len {
            self.scroll_offset
        } else {
            len
        };
        (start, window(start, height, len))
    }

    /// The text of the category bar: the service name being typed, or the
    /// categories.
    pub fn category_text(&self) -> (t: String)
        ensures
            t@ == (if self.is_entering_service {
                "  输入服务名: "@ + self.service_query@ + "_"@
            } else {
                "  [1] 错误日志  [2] 启动日志  [3] 内核日志  [4] 指定服务"@
            }),
    {
        if self.is_entering_service {
            cat3("  输入服务名: ", self.service_query.as_str(), "_")
        } else {
            String::from_str("  [1] 错误日志  [2] 启动日志  [3] 内核日志  [4] 指定服务")
        }
    }

    /// The title of the log pane: the line number at the top (counted from
    /// 1) and the number of lines.
    pub fn title(&self) -> (t: String)
        requires
            self.scroll_offset < usize::MAX,
        ensures
            t@ == " 📋 日志查看  ["@ + decimal((self.scroll_offset + 1) as nat) + "/"@ + decimal(
                self.log_content@.len(),
            ) + "] "@,
    {
        let top = decimal_string(self.scroll_offset as u64 + 1);
        let count = decimal_string(self.log_content.len() as u64);
        let a = cat3(" 📋 日志查看  [", top.as_str(), "/");
        cat3(a.as_str(), count.as_str(), "] ")
    }

    pub fn new() -> (m: Self)
        ensures
            m.wf(),
            m.log_content@.len() == 0,
            m.scroll_offset == 0,
            m.service_query@.len() == 0,
            !m.is_entering_service,
            m.current_category == 0,
            !m.loaded,
            m.pending_query is None,
    {
        LogViewerModule {
            log_content: Vec::new(),
            scroll_offset: 0,
            service_query: String::new(),
            is_entering_service: false,
            current_category: 0,
            loaded: false,
            pending_query: None,
        }
    }

    /// Selects a log category; see `load_step`.
    pub fn load_log(&mut self, category: usize)
        ensures
            final(self).wf(),
            Self::load_step(*old(self), *final(self), category),
    {
        self.current_category = category;
        self.scroll_offset = 0;
        let query = if category == 0 {
            String::from_str("journalctl -p 3 -n 200 --no-pager 2>/dev/null")
        } else if category == 1 {
            String::from_str("journalctl -b -n 200 --no-pager 2>/dev/null")
        } else if category == 2 {
            String::from_str("journalctl -k -n 200 --no-pager 2>/dev/null")
        } else if category == 3 {
            if self.service_query.as_str().is_empty() {
                let mut prompt: Vec<String> = Vec::new();
                prompt.push(String::from_str("请输入服务名后按 Enter 查询"));
                assert(views(prompt@) =~= seq!["请输入服务名后按 Enter 查询"@]);
                self.log_content = prompt;
                return;
            }
            let quoted = shell_quoted(self.service_query.as_str());
            cat3("journalctl -u ", quoted.as_str(), " -n 200 --no-pager 2>/dev/null")
        } else {
            return;
        };
        self.pending_query = Some(query);
    }

    /// Shows the answer of the pending journal query, from the top.
    pub fn receive_log(&mut self, result: &Result<String, String>)
        ensures
            final(self).wf(),
            views(final(self).log_content@) == log_lines(*result),
            final(self).scroll_offset == 0,
            final(self).pending_query is None,
            final(self).service_query == old(self).service_query,
            final(self).is_entering_service == old(self).is_entering_service,
            final(self).current_category == old(self).current_category,
            final(self).loaded == old(self).loaded,
    {
        let content = match result {
            Ok(output) => {
                if output.as_str().is_empty() {
                    let mut v: Vec<String> = Vec::new();
                    v.push(String::from_str("（无日志条目）"));
                    assert(views(v@) =~= seq!["（无日志条目）"@]);
                    v
                } else {
                    split_lines(output.as_str())
                }
            },
            Err(e) => {
                let mut v: Vec<String> = Vec::new();
                v.push(cat("加载日志失败: ", e.as_str()));
                assert(views(v@) =~= seq!["加载日志失败: "@ + e@]);
                v
            },
        };
        self.log_content = content;
        self.scroll_offset = 0;
        self.pending_query = None;
    }

    pub fn handle_key_event(&mut self, key: KeyEvent) -> (out: Option<CommandToExecute>)
        ensures
            old(self).wf() ==> final(self).wf(),
            Self::key_step(*old(self), *final(self), key),
            out is None,
    {
        if self.is_entering_service {
            match key.code {
                KeyCode::Esc => {
                    self.is_entering_service = false;
                },
                KeyCode::Backspace => {
                    self.service_query = without_last(self.service_query.as_str());
                },
                KeyCode::Enter => {
                    self.is_entering_service = false;
                    self.load_log(3);
                },
                KeyCode::Char(c) => {
                    self.service_query = with_char(self.service_query.as_str(), c);
                },
                _ => {},
            }
            return None;
        }
        let len = self.log_content.len();
        let last = if len > 0 {
            len - 1
        } else {
            0
        };
        if key.code == KeyCode::Char('1') {
            self.load_log(0);
        } else if key.code == KeyCode::Char('2') {
            self.load_log(1);
        } else if key.code == KeyCode::Char('3') {
            self.load_log(2);
        } else if key.code == KeyCode::Char('4') {
            self.is_entering_service = true;
        } else if key_is_up(key.code) {
            if self.scroll_offset > 0 {
                self.scroll_offset = self.scroll_offset - 1;
            }
        } else if key_is_down(key.code) {
            if self.scroll_offset < last {
                self.scroll_offset = self.scroll_offset + 1;
            }
        } else if key.code == KeyCode::PageUp {
            self.scroll_offset = if self.scroll_offset >= 20 {
                self.scroll_offset - 20
            } else {
                0
            };
        } else if key.code == KeyCode::PageDown {
            self.scroll_offset = if self.scroll_offset < last && last - self.scroll_offset >= 20 {
                self.scroll_offset + 20
            } else {
                last
            };
        } else if key.code == KeyCode::Home {
            self.scroll_offset = 0;
        } else if key.code == KeyCode::End {
            self.scroll_offset = last;
        } else if key_is_refresh(key.code) {
            let c = self.current_category;
            self.load_log(c);
        }
        None
    }

    /// What `refresh` does: load the error log the first time the screen is
    /// shown.
    pub open spec fn refresh_step(old: Self, new: Self) -> bool {
        if old.loaded {
            new == old
        } else {
            new.loaded && Self::load_step(old, LogViewerModule { loaded: false, ..new }, 0)
        }
    }

    pub fn refresh(&mut self)
        ensures
            old(self).wf() ==> final(self).wf(),
            !old(self).loaded ==> final(self).wf(),
            Self::refresh_step(*old(self), *final(self)),
    {
        if !self.loaded {
            self.load_log(0);
            self.loaded = true;
        }
    }
}

/// Typed text can never add a command: every journal query is a fixed
/// text, or, for the service log, the typed name quoted between fixed
/// texts; and `sh` reads that quoted name, whatever it holds, back as
/// exactly one argument, going on after it with the fixed text.
pub proof fn lemma_log_query_is_safe(category: usize, service: Seq<char>)
    ensures
        log_query(category, service) matches Some(q) ==> {
            ||| q == "journalctl -p 3 -n 200 --no-pager 2>/dev/null"@
            ||| q == "journalctl -b -n 200 --no-pager 2>/dev/null"@
            ||| q == "journalctl -k -n 200 --no-pager 2>/dev/null"@
            ||| (category == 3 && q == "journalctl -u "@ + shell_quote(service)
                + " -n 200 --no-pager 2>/dev/null"@)
        },
        sh_word(shell_quote(service) + " -n 200 --no-pager 2>/dev/null"@, false) == Some(
            (service, shell_quote(service).len()),
        ),
        category == 0 ==> log_query(category, service) == Some(
            "journalctl -p 3 -n 200 --no-pager 2>/dev/null"@,
        ),
        category == 1 ==> log_query(category, service) == Some(
            "journalctl -b -n 200 --no-pager 2>/dev/null"@,
        ),
        category == 2 ==> log_query(category, service) == Some(
            "journalctl -k -n 200 --no-pager 2>/dev/null"@,
        ),
        category == 3 && service.len() > 0 ==> log_query(category, service) is Some,
        category > 3 || (category == 3 && service.len() == 0) ==> log_query(category, service)
            is None,
{
    let rest = " -n 200 --no-pager 2>/dev/null"@;
    reveal_strlit(" -n 200 --no-pager 2>/dev/null");
    lemma_quoted_is_one_word(service, rest);
}

/// How journal lines are highlighted: a line that mentions `error`,
/// `ERROR` or `failed` is an error, whatever else it holds; one that
/// mentions none of them but `warning` or `WARNING` is a warning; a line
/// that mentions none of the five is normal.
pub proof fn lemma_log_severity_by_keywords(l: Seq<char>)
    ensures
        contains(l, "error"@) ==> log_severity(l) == LineSeverity::Error,
        contains(l, "ERROR"@) ==> log_severity(l) == LineSeverity::Error,
        contains(l, "failed"@) ==> log_severity(l) == LineSeverity::Error,
        log_severity(l) == LineSeverity::Error ==> contains(l, "error"@) || contains(l, "ERROR"@)
            || contains(l, "failed"@),
        log_severity(l) == LineSeverity::Warning <==> !contains(l, "error"@) && !contains(
            l,
            "ERROR"@,
        ) && !contains(l, "failed"@) && (contains(l, "warning"@) || contains(l, "WARNING"@)),
{
}


/// Scrolling the journal (no service name being typed): a line up or down,
/// twenty lines a page, never before the first line nor past the last.
pub proof fn lemma_log_scrolling(old: LogViewerModule, new: LogViewerModule, key: KeyEvent)
    requires
        LogViewerModule::key_step(old, new, key),
        !old.is_entering_service,
    ensures
        ({
            let o = old.scroll_offset as int;
            let last = max_scroll(old.log_content@.len()) as int;
            &&& key.code == KeyCode::PageDown ==> new.scroll_offset == (if o + 20 <= last {
                o + 20
            } else {
                last
            })
            &&& key.code == KeyCode::PageUp ==> new.scroll_offset == (if o >= 20 {
                o - 20
            } else {
                0
            })
            &&& key.code == KeyCode::Down && o < last ==> new.scroll_offset == o + 1
            &&& key.code == KeyCode::Up && o > 0 ==> new.scroll_offset == o - 1
            &&& key.code == KeyCode::Home ==> new.scroll_offset == 0
            &&& key.code == KeyCode::End ==> new.scroll_offset == last
            &&& (key.code == KeyCode::PageDown || key.code == KeyCode::PageUp || key.code
                == KeyCode::Up || key.code == KeyCode::Down || key.code == KeyCode::Home
                || key.code == KeyCode::End) ==> new.log_content == old.log_content
                && new.pending_query == old.pending_query
        }),
{
    assert(old.log_content.len() == old.log_content@.len());
}

} // verus!
