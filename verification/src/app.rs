//! Dashboard state: the bounded log buffer with its scroll, filter, search
//! and pause controls, and the run-state machine of the supervised process.
//!
//! Every mutation of the session state goes through a method here.  The
//! surrounding binary owns the child process, the terminal and the clock; it
//! feeds events in and performs the actions handed back.

use std::collections::VecDeque;
use vstd::prelude::*;

use crate::config::Config;
use crate::filter::{spec_matches, spec_next, LevelFilter};
use crate::line::{line_of, system_line, LineView, LogLine};
use crate::search::{pattern_compiles, pattern_matches, SearchPattern};
use crate::text::{spec_dec, string_push, string_pop, u64_to_string, usize_to_string};
use crate::types::{timestamp_wf, LogData, LogLevel, LogMessage, MessageView};
use vstd::string::StringExecFns;

verus! {

broadcast use vstd::std_specs::vecdeque::axiom_spec_len;

/// Run state of the supervised session.
#[derive(Debug, Clone, Copy, PartialEq, Eq, Structural)]
pub enum AppState {
    Running,
    WaitingCountdown(u8),
    Restarting,
}

/// Input mode of the dashboard.
#[derive(Debug, Clone, Copy, PartialEq, Eq, Structural)]
pub enum InputMode {
    Normal,
    Search,
    Help,
    SavePrompt,
}

/// A keyboard event, already mapped from the terminal backend.
#[derive(Debug, Clone, Copy, PartialEq, Eq, Structural)]
pub enum Key {
    Char(char),
    Enter,
    Esc,
    Backspace,
    Up,
    Down,
    PageUp,
    PageDown,
    Home,
    End,
    Other,
}

/// A mouse event, already mapped from the terminal backend.
#[derive(Debug, Clone, Copy, PartialEq, Eq, Structural)]
pub enum Mouse {
    ScrollUp,
    ScrollDown,
    Press(usize),
    Other,
}

/// Outside work the dashboard asks its caller to perform after an event.
#[derive(Debug, Clone, Copy, PartialEq, Eq, Structural)]
pub enum Action {
    Nothing,
    Restart,
    SaveLogs,
}

/// The buffer contents kept after trimming to capacity: the most recently
/// appended `cap` lines, in arrival order.
pub open spec fn trim_to_cap(s: Seq<LineView>, cap: nat) -> Seq<LineView> {
    if s.len() <= cap {
        s
    } else {
        s.subrange(s.len() - cap, s.len() as int)
    }
}

/// One line appended under the capacity rule.
pub open spec fn push_trimmed(s: Seq<LineView>, l: LineView, cap: nat) -> Seq<LineView> {
    trim_to_cap(s.push(l), cap)
}

/// Lines appended one by one under the capacity rule.
pub open spec fn push_all(s: Seq<LineView>, ls: Seq<LineView>, cap: nat) -> Seq<LineView>
    decreases ls.len(),
{
    if ls.len() == 0 {
        s
    } else {
        push_all(push_trimmed(s, ls.first(), cap), ls.drop_first(), cap)
    }
}

/// The display projection of a sequence of captured records.
pub open spec fn lines_of(rs: Seq<MessageView>) -> Seq<LineView> {
    rs.map_values(|m: MessageView| line_of(m.data))
}

/// Trimming never leaves more than `cap` lines, and keeps a suffix.
pub proof fn lemma_trim_len(s: Seq<LineView>, cap: nat)
    ensures
        trim_to_cap(s, cap).len() == if s.len() <= cap {
            s.len()
        } else {
            cap
        },
{
}

/// Trimming before appending more lines does not change the final trimmed
/// buffer: only the last `cap` lines ever survive.
pub proof fn lemma_trim_then_append(a: Seq<LineView>, b: Seq<LineView>, cap: nat)
    ensures
        trim_to_cap(trim_to_cap(a, cap) + b, cap) == trim_to_cap(a + b, cap),
{
    if a.len() <= cap {
        assert(trim_to_cap(a, cap) == a);
    } else {
        assert(trim_to_cap(trim_to_cap(a, cap) + b, cap) =~= trim_to_cap(a + b, cap));
    }
}

/// Flushing a batch of pending lines through one trim at the end gives the
/// same buffer as pushing each line under the capacity rule in turn, from any
/// buffer that is within capacity.  This is why pausing and resuming leaves
/// the buffer exactly as if capture had never been paused — up to the one
/// "Resumed capture" status line appended afterwards, which at exact
/// capacity evicts the oldest line like any other append.
pub proof fn lemma_flush_matches_pushes(s: Seq<LineView>, ls: Seq<LineView>, cap: nat)
    requires
        s.len() <= cap,
    ensures
        push_all(s, ls, cap) == trim_to_cap(s + ls, cap),
    decreases ls.len(),
{
    if ls.len() == 0 {
        assert(s + ls =~= s);
    } else {
        let s1 = push_trimmed(s, ls.first(), cap);
        lemma_trim_len(s.push(ls.first()), cap);
        lemma_flush_matches_pushes(s1, ls.drop_first(), cap);
        lemma_trim_then_append(s.push(ls.first()), ls.drop_first(), cap);
        assert(s.push(ls.first()) + ls.drop_first() =~= s + ls);
    }
}

/// Eviction invariant: starting within capacity, any sequence of pushes
/// leaves at most `cap` lines, and they are exactly the most recently pushed
/// lines in arrival order.
pub proof fn lemma_eviction_invariant(s: Seq<LineView>, ls: Seq<LineView>, cap: nat)
    requires
        s.len() <= cap,
    ensures
        push_all(s, ls, cap).len() <= cap,
        s.len() + ls.len() <= cap ==> push_all(s, ls, cap) == s + ls,
        s.len() + ls.len() > cap ==> push_all(s, ls, cap) == (s + ls).subrange(
            s.len() + ls.len() - cap,
            (s.len() + ls.len()) as int,
        ),
{
    lemma_flush_matches_pushes(s, ls, cap);
    lemma_trim_len(s + ls, cap);
}

/// The largest scroll offset that still fills the viewport.
pub open spec fn spec_max_offset(len: nat, height: nat) -> nat {
    if len > height {
        (len - height) as nat
    } else {
        0
    }
}

/// A buffer transition that appended one agent status line with text
/// `message` (and a clock timestamp) under the capacity rule.
pub open spec fn pushed_system(
    old_logs: Seq<LineView>,
    new_logs: Seq<LineView>,
    message: Seq<char>,
    cap: nat,
) -> bool {
    exists|ts: Seq<char>|
        ts.len() == 8 && new_logs == #[trigger] push_trimmed(old_logs, system_line(ts, message), cap)
}

/// State of one dashboard session.
pub struct App {
    /// Bounded display buffer, oldest line first.
    pub logs: VecDeque<LogLine>,
    /// Capacity of the display buffer.
    pub max_logs: usize,
    /// Scroll offset counted from the bottom: 0 shows the newest lines.
    pub scroll_offset: usize,
    /// Whether the view follows new lines.
    pub auto_scroll: bool,
    /// Selected line, as an index into the full buffer.
    pub selected_line: Option<usize>,
    /// Run state of the supervised process.
    pub state: AppState,
    /// Process id of the child, when one is running.
    pub pid: Option<u32>,
    /// Session clock reading at the last (re)start, in milliseconds.
    pub start_ms: u64,
    /// Set when the session should end.
    pub should_quit: bool,
    /// Project tag carried on every record.
    pub project: String,
    /// The supervised command, program first.
    pub command: Vec<String>,
    /// Immutable configuration snapshot.
    pub config: Config,
    /// Height of the log viewport, in lines.
    pub visible_height: usize,
    /// Set when the screen needs redrawing.
    pub needs_redraw: bool,
    /// Current input mode.
    pub input_mode: InputMode,
    /// Text being typed in the search or save prompt.
    pub input_buffer: String,
    /// Active search pattern, if any.
    pub search_regex: Option<SearchPattern>,
    /// Status text of the last search action.
    pub search_message: Option<String>,
    /// Active level filter.
    pub level_filter: LevelFilter,
    /// Whether capture is paused.
    pub paused: bool,
    /// Records held back while paused, in arrival order.
    pub paused_logs: Vec<LogMessage>,
    /// Number of records received over the session.
    pub total_logs_received: usize,
    /// Number of records handed to the forwarder.
    pub total_logs_sent: usize,
    /// Clock reading when the last record arrived, in milliseconds.
    pub last_log_ms: Option<u64>,
}

impl App {
    /// Structural invariant: the buffer is within capacity, the scroll offset
    /// and selection are in range, and held-back records carry well-formed
    /// timestamps.
    pub open spec fn wf(&self) -> bool {
        &&& self.logs.deep_view().len() <= self.max_logs
        &&& self.scroll_offset <= spec_max_offset(
            self.logs.deep_view().len(),
            self.visible_height as nat,
        )
        &&& match self.selected_line {
            Some(i) => i < self.logs.deep_view().len(),
            None => true,
        }
        &&& forall|i: int|
            0 <= i < self.paused_logs.deep_view().len() ==> timestamp_wf(
                #[trigger] self.paused_logs.deep_view()[i].data.timestamp,
            )
    }

    /// Fields a buffer operation never touches.
    pub open spec fn same_session(&self, o: &App) -> bool {
        &&& self.state == o.state
        &&& self.pid == o.pid
        &&& self.start_ms == o.start_ms
        &&& self.should_quit == o.should_quit
        &&& self.project == o.project
        &&& self.command == o.command
        &&& self.max_logs == o.max_logs
        &&& self.visible_height == o.visible_height
    }

    /// Input-mode fields.
    pub open spec fn same_input(&self, o: &App) -> bool {
        &&& self.input_mode == o.input_mode
        &&& self.input_buffer == o.input_buffer
        &&& self.search_regex == o.search_regex
        &&& self.search_message == o.search_message
        &&& self.level_filter == o.level_filter
    }

    /// Pause gate and its held-back records.
    pub open spec fn same_pause(&self, o: &App) -> bool {
        &&& self.paused == o.paused
        &&& self.paused_logs.deep_view() == o.paused_logs.deep_view()
    }

    /// Throughput counters.
    pub open spec fn same_stats(&self, o: &App) -> bool {
        &&& self.total_logs_received == o.total_logs_received
        &&& self.total_logs_sent == o.total_logs_sent
        &&& self.last_log_ms == o.last_log_ms
    }

    /// Scroll and selection state.
    pub open spec fn same_scroll(&self, o: &App) -> bool {
        &&& self.scroll_offset == o.scroll_offset
        &&& self.auto_scroll == o.auto_scroll
        &&& self.selected_line == o.selected_line
    }

    /// A fresh session around `command`, in `Running` state with an empty
    /// buffer and default controls.
    pub fn new(project: String, command: Vec<String>, config: Config, now_ms: u64) -> (r: App)
        ensures
            r.wf(),
            r.logs.deep_view() == Seq::<LineView>::empty(),
            r.max_logs == config.performance.tui.max_logs,
            r.scroll_offset == 0,
            r.auto_scroll,
            r.selected_line is None,
            r.state is Running,
            r.pid is None,
            r.start_ms == now_ms,
            !r.should_quit,
            r.project == project,
            r.command == command,
            r.config == config,
            r.visible_height == 20,
            r.needs_redraw,
            r.input_mode is Normal,
            r.input_buffer@.len() == 0,
            r.search_regex is None,
            r.search_message is None,
            r.level_filter is All,
            !r.paused,
            r.paused_logs.deep_view() == Seq::<MessageView>::empty(),
            r.total_logs_received == 0,
            r.total_logs_sent == 0,
            r.last_log_ms is None,
    {
        let max_logs = config.performance.tui.max_logs;
        let r = App {
            logs: VecDeque::new(),
            max_logs,
            scroll_offset: 0,
            auto_scroll: true,
            selected_line: None,
            state: AppState::Running,
            pid: None,
            start_ms: now_ms,
            should_quit: false,
            project,
            command,
            config,
            visible_height: 20,
            needs_redraw: true,
            input_mode: InputMode::Normal,
            input_buffer: String::new(),
            search_regex: None,
            search_message: None,
            level_filter: LevelFilter::All,
            paused: false,
            paused_logs: Vec::new(),
            total_logs_received: 0,
            total_logs_sent: 0,
            last_log_ms: None,
        };
        proof {
            assert(r.logs.deep_view() =~= Seq::<LineView>::empty());
            assert(r.paused_logs.deep_view() =~= Seq::<MessageView>::empty());
        }
        r
    }

    /// Append one display line under the capacity rule, keeping the view at
    /// the bottom when auto-scroll is on.
    fn push_display_line(&mut self, line: LogLine)
        requires
            old(self).wf(),
        ensures
            final(self).wf(),
            final(self).logs.deep_view() == push_trimmed(
                old(self).logs.deep_view(),
                line@,
                old(self).max_logs as nat,
            ),
            final(self).scroll_offset == if old(self).auto_scroll {
                0
            } else {
                old(self).scroll_offset
            },
            final(self).auto_scroll == old(self).auto_scroll,
            final(self).selected_line == old(self).selected_line,
            final(self).needs_redraw,
            final(self).same_session(&*old(self)),
            final(self).same_input(&*old(self)),
            final(self).same_pause(&*old(self)),
            final(self).same_stats(&*old(self)),
            final(self).config == old(self).config,
    {
        let ghost before = self.logs.deep_view();
        let ghost cap = self.max_logs as nat;
        self.logs.push_back(line);
        proof {
            assert(self.logs.deep_view() =~= before.push(line@));
        }
        evict_over_cap(&mut self.logs, self.max_logs);
        if self.auto_scroll {
            self.scroll_offset = 0;
        }
        self.needs_redraw = true;
        proof {
            lemma_trim_len(before.push(line@), cap);
        }
    }

    /// Take in one captured record: append it for display, or hold it back
    /// while capture is paused.
    pub fn add_log(&mut self, log: LogMessage, now_ms: u64)
        requires
            old(self).wf(),
            old(self).total_logs_received < usize::MAX,
            timestamp_wf(log@.data.timestamp),
        ensures
            final(self).wf(),
            final(self).total_logs_received == old(self).total_logs_received + 1,
            final(self).last_log_ms == Some(now_ms),
            final(self).total_logs_sent == old(self).total_logs_sent,
            old(self).paused ==> {
                &&& final(self).paused
                &&& final(self).paused_logs.deep_view() == old(self).paused_logs.deep_view().push(
                    log@,
                )
                &&& final(self).logs.deep_view() == old(self).logs.deep_view()
                &&& final(self).same_scroll(&*old(self))
                &&& final(self).needs_redraw == old(self).needs_redraw
            },
            !old(self).paused ==> {
                &&& !final(self).paused
                &&& final(self).paused_logs.deep_view() == old(self).paused_logs.deep_view()
                &&& final(self).logs.deep_view() == push_trimmed(
                    old(self).logs.deep_view(),
                    line_of(log@.data),
                    old(self).max_logs as nat,
                )
                &&& final(self).scroll_offset == if old(self).auto_scroll {
                    0
                } else {
                    old(self).scroll_offset
                }
                &&& final(self).auto_scroll == old(self).auto_scroll
                &&& final(self).selected_line == old(self).selected_line
                &&& final(self).needs_redraw
            },
            final(self).same_session(&*old(self)),
            final(self).same_input(&*old(self)),
            final(self).config == old(self).config,
    {
        self.total_logs_received = self.total_logs_received + 1;
        self.last_log_ms = Some(now_ms);
        if self.paused {
            let ghost pending = self.paused_logs.deep_view();
            self.paused_logs.push(log);
            proof {
                assert(self.paused_logs.deep_view() =~= pending.push(log@));
            }
            return;
        }
        let line = LogLine::from_record(log);
        self.push_display_line(line);
    }

    /// Append an agent status line, stamped with the local clock.
    pub fn add_system_log(&mut self, message: String)
        requires
            old(self).wf(),
        ensures
            final(self).wf(),
            pushed_system(
                old(self).logs.deep_view(),
                final(self).logs.deep_view(),
                message@,
                old(self).max_logs as nat,
            ),
            final(self).scroll_offset == if old(self).auto_scroll {
                0
            } else {
                old(self).scroll_offset
            },
            final(self).auto_scroll == old(self).auto_scroll,
            final(self).selected_line == old(self).selected_line,
            final(self).needs_redraw,
            final(self).same_session(&*old(self)),
            final(self).same_input(&*old(self)),
            final(self).same_pause(&*old(self)),
            final(self).same_stats(&*old(self)),
            final(self).config == old(self).config,
    {
        let line = LogLine::system(message);
        let ghost ts = line@.timestamp;
        let ghost before = self.logs.deep_view();
        let ghost cap = self.max_logs as nat;
        self.push_display_line(line);
        proof {
            assert(self.logs.deep_view() == push_trimmed(before, system_line(ts, message@), cap));
        }
    }

    /// Empty the buffer, reset scroll and selection, and note the clear with
    /// one status line.
    pub fn clear_logs(&mut self)
        requires
            old(self).wf(),
        ensures
            final(self).wf(),
            pushed_system(
                Seq::<LineView>::empty(),
                final(self).logs.deep_view(),
                "Logs cleared"@,
                old(self).max_logs as nat,
            ),
            final(self).scroll_offset == 0,
            final(self).selected_line is None,
            final(self).auto_scroll == old(self).auto_scroll,
            final(self).needs_redraw,
            final(self).same_session(&*old(self)),
            final(self).same_input(&*old(self)),
            final(self).same_pause(&*old(self)),
            final(self).same_stats(&*old(self)),
            final(self).config == old(self).config,
    {
        self.logs.clear();
        self.scroll_offset = 0;
        self.selected_line = None;
        proof {
            assert(self.logs.deep_view() =~= Seq::<LineView>::empty());
        }
        self.add_system_log("Logs cleared".to_owned());
    }

    /// Scroll up by `n` lines, clamped to the oldest line, leaving the
    /// auto-follow mode off.
    pub fn scroll_up(&mut self, n: usize)
        requires
            old(self).wf(),
        ensures
            final(self).wf(),
            final(self).scroll_offset == if old(self).scroll_offset + n <= spec_max_offset(
                old(self).logs.deep_view().len(),
                old(self).visible_height as nat,
            ) {
                old(self).scroll_offset + n
            } else {
                spec_max_offset(old(self).logs.deep_view().len(), old(self).visible_height as nat)
                    as int
            },
            !final(self).auto_scroll,
            final(self).needs_redraw,
            final(self).selected_line == old(self).selected_line,
            final(self).logs.deep_view() == old(self).logs.deep_view(),
            final(self).same_session(&*old(self)),
            final(self).same_input(&*old(self)),
            final(self).same_pause(&*old(self)),
            final(self).same_stats(&*old(self)),
            final(self).config == old(self).config,
    {
        let max_offset = self.logs.len().saturating_sub(self.visible_height);
        let desired = self.scroll_offset.saturating_add(n);
        self.scroll_offset = if desired <= max_offset {
            desired
        } else {
            max_offset
        };
        self.auto_scroll = false;
        self.needs_redraw = true;
    }

    /// Scroll down by `n` lines; reaching the bottom — landing on offset 0 —
    /// turns auto-follow back on.
    pub fn scroll_down(&mut self, n: usize)
        requires
            old(self).wf(),
        ensures
            final(self).wf(),
            final(self).scroll_offset == spec_scrolled_down(&*old(self), n as nat),
            final(self).auto_scroll == spec_scrolled_down_auto(&*old(self), n as nat),
            final(self).scroll_offset == 0 ==> final(self).auto_scroll,
            final(self).needs_redraw,
            final(self).selected_line == old(self).selected_line,
            final(self).logs.deep_view() == old(self).logs.deep_view(),
            final(self).same_session(&*old(self)),
            final(self).same_input(&*old(self)),
            final(self).same_pause(&*old(self)),
            final(self).same_stats(&*old(self)),
            final(self).config == old(self).config,
    {
        if self.scroll_offset > n {
            self.scroll_offset = self.scroll_offset - n;
        } else {
            self.scroll_offset = 0;
            self.auto_scroll = true;
        }
        self.needs_redraw = true;
    }

    /// Jump to the oldest line.
    pub fn scroll_to_top(&mut self)
        requires
            old(self).wf(),
        ensures
            final(self).wf(),
            final(self).scroll_offset == spec_max_offset(
                old(self).logs.deep_view().len(),
                old(self).visible_height as nat,
            ),
            !final(self).auto_scroll,
            final(self).needs_redraw,
            final(self).selected_line == old(self).selected_line,
            final(self).logs.deep_view() == old(self).logs.deep_view(),
            final(self).same_session(&*old(self)),
            final(self).same_input(&*old(self)),
            final(self).same_pause(&*old(self)),
            final(self).same_stats(&*old(self)),
            final(self).config == old(self).config,
    {
        self.scroll_offset = self.logs.len().saturating_sub(self.visible_height);
        self.auto_scroll = false;
        self.needs_redraw = true;
    }

    /// Jump to the newest line, turn auto-follow on and clear the selection.
    pub fn scroll_to_bottom(&mut self)
        requires
            old(self).wf(),
        ensures
            final(self).wf(),
            final(self).scroll_offset == 0,
            final(self).auto_scroll,
            final(self).selected_line is None,
            final(self).needs_redraw,
            final(self).logs.deep_view() == old(self).logs.deep_view(),
            final(self).same_session(&*old(self)),
            final(self).same_input(&*old(self)),
            final(self).same_pause(&*old(self)),
            final(self).same_stats(&*old(self)),
            final(self).config == old(self).config,
    {
        self.scroll_offset = 0;
        self.auto_scroll = true;
        self.selected_line = None;
        self.needs_redraw = true;
    }

    /// Select the buffer line shown on terminal row `row`, if any; rows
    /// outside the log area are ignored.
    pub fn select_line_at(&mut self, row: usize)
        requires
            old(self).wf(),
        ensures
            final(self).wf(),
            match spec_select_index(
                old(self).logs.deep_view().len(),
                old(self).visible_height as nat,
                old(self).scroll_offset as nat,
                row as nat,
            ) {
                Some(idx) => {
                    &&& final(self).selected_line == Some(idx as usize)
                    &&& !final(self).auto_scroll
                    &&& final(self).needs_redraw
                },
                None => {
                    &&& final(self).selected_line == old(self).selected_line
                    &&& final(self).auto_scroll == old(self).auto_scroll
                    &&& final(self).needs_redraw == old(self).needs_redraw
                },
            },
            final(self).scroll_offset == old(self).scroll_offset,
            final(self).logs.deep_view() == old(self).logs.deep_view(),
            final(self).same_session(&*old(self)),
            final(self).same_input(&*old(self)),
            final(self).same_pause(&*old(self)),
            final(self).same_stats(&*old(self)),
            final(self).config == old(self).config,
    {
        if row < 1 {
            return;
        }
        let log_row = row - 1;
        let total = self.logs.len();
        if total == 0 {
            return;
        }
        let visible_start = total.saturating_sub(self.visible_height.saturating_add(self.scroll_offset));
        let log_index = visible_start.saturating_add(log_row);
        if log_index < total {
            self.selected_line = Some(log_index);
            self.auto_scroll = false;
            self.needs_redraw = true;
        }
    }

    /// Record the viewport height the renderer is using, re-clamping the
    /// scroll offset to it.
    pub fn set_visible_height(&mut self, height: usize)
        requires
            old(self).wf(),
        ensures
            final(self).wf(),
            final(self).visible_height == height,
            final(self).scroll_offset == if old(self).scroll_offset <= spec_max_offset(
                old(self).logs.deep_view().len(),
                height as nat,
            ) {
                old(self).scroll_offset as int
            } else {
                spec_max_offset(old(self).logs.deep_view().len(), height as nat) as int
            },
            final(self).auto_scroll == old(self).auto_scroll,
            final(self).selected_line == old(self).selected_line,
            final(self).needs_redraw == old(self).needs_redraw,
            final(self).logs.deep_view() == old(self).logs.deep_view(),
            final(self).state == old(self).state,
            final(self).pid == old(self).pid,
            final(self).start_ms == old(self).start_ms,
            final(self).should_quit == old(self).should_quit,
            final(self).project == old(self).project,
            final(self).command == old(self).command,
            final(self).max_logs == old(self).max_logs,
            final(self).same_input(&*old(self)),
            final(self).same_pause(&*old(self)),
            final(self).same_stats(&*old(self)),
            final(self).config == old(self).config,
    {
        self.visible_height = height;
        let max_offset = self.logs.len().saturating_sub(height);
        if self.scroll_offset > max_offset {
            self.scroll_offset = max_offset;
        }
    }

    /// The elapsed session time, rendered as seconds, minutes and seconds,
    /// or hours and minutes.
    pub fn uptime(&self, now_ms: u64) -> (r: String)
        ensures
            r@ == spec_uptime(spec_elapsed_secs(self.start_ms, now_ms)),
    {
        let secs = now_ms.saturating_sub(self.start_ms) / 1000;
        if secs < 60 {
            let mut s = u64_to_string(secs);
            string_push(&mut s, 's');
            proof {
                assert(s@ =~= spec_uptime(spec_elapsed_secs(self.start_ms, now_ms)));
            }
            s
        } else if secs < 3600 {
            let mut s = u64_to_string(secs / 60);
            string_push(&mut s, 'm');
            let rest = u64_to_string(secs % 60);
            s.append(rest.as_str());
            string_push(&mut s, 's');
            proof {
                assert(s@ =~= spec_uptime(spec_elapsed_secs(self.start_ms, now_ms)));
            }
            s
        } else {
            let mut s = u64_to_string(secs / 3600);
            string_push(&mut s, 'h');
            let rest = u64_to_string((secs % 3600) / 60);
            s.append(rest.as_str());
            string_push(&mut s, 'm');
            proof {
                assert(s@ =~= spec_uptime(spec_elapsed_secs(self.start_ms, now_ms)));
            }
            s
        }
    }

    /// Record the child's process id for display.
    pub fn set_pid(&mut self, pid: Option<u32>)
        requires
            old(self).wf(),
        ensures
            final(self).wf(),
            final(self).pid == pid,
            final(self).needs_redraw,
            *final(self) == (App { pid, needs_redraw: true, ..*old(self) }),
    {
        self.pid = pid;
        self.needs_redraw = true;
    }

    /// Move the run-state machine to `state`.
    pub fn set_state(&mut self, state: AppState)
        requires
            old(self).wf(),
        ensures
            final(self).wf(),
            final(self).state == state,
            final(self).needs_redraw,
            *final(self) == (App { state, needs_redraw: true, ..*old(self) }),
    {
        self.state = state;
        self.needs_redraw = true;
    }

    /// Restart the uptime clock from `now_ms`.
    pub fn reset_start_time(&mut self, now_ms: u64)
        requires
            old(self).wf(),
        ensures
            final(self).wf(),
            final(self).start_ms == now_ms,
            final(self).needs_redraw,
            *final(self) == (App { start_ms: now_ms, needs_redraw: true, ..*old(self) }),
    {
        self.start_ms = now_ms;
        self.needs_redraw = true;
    }

    /// The supervised command, joined with single spaces.
    pub fn command_str(&self) -> (r: String)
        ensures
            r@ == spec_join_spaces(self.command.deep_view()),
    {
        let mut out = String::new();
        let ghost parts = self.command.deep_view();
        let n = self.command.len();
        let mut i: usize = 0;
        while i < n
            invariant
                n == self.command.len(),
                parts == self.command.deep_view(),
                parts.len() == n,
                i <= n,
                out@ == spec_join_spaces(parts.take(i as int)),
            decreases n - i,
        {
            if i > 0 {
                string_push(&mut out, ' ');
            }
            out.append(self.command[i].as_str());
            proof {
                assert(parts.take(i + 1).drop_last() =~= parts.take(i as int));
                assert(parts.take(i + 1).last() == parts[i as int]);
                assert(self.command@[i as int]@ == parts[i as int]);
                if i == 0 {
                    assert(out@ =~= spec_join_spaces(parts.take(1)));
                }
            }
            i += 1;
        }
        proof {
            assert(parts.take(n as int) =~= parts);
        }
        out
    }

    /// Count one record handed to the forwarder.
    pub fn increment_sent(&mut self)
        requires
            old(self).wf(),
            old(self).total_logs_sent < usize::MAX,
        ensures
            final(self).wf(),
            final(self).total_logs_sent == old(self).total_logs_sent + 1,
            *final(self) == (App { total_logs_sent: (old(self).total_logs_sent + 1) as usize, ..*old(self) }),
    {
        self.total_logs_sent = self.total_logs_sent + 1;
    }

    /// Open the search prompt with an empty input line.
    pub fn enter_search_mode(&mut self)
        requires
            old(self).wf(),
        ensures
            final(self).wf(),
            final(self).input_mode is Search,
            final(self).input_buffer@.len() == 0,
            final(self).search_message is None,
            final(self).search_regex == old(self).search_regex,
            final(self).needs_redraw,
            final(self).logs.deep_view() == old(self).logs.deep_view(),
            final(self).level_filter == old(self).level_filter,
            final(self).same_session(&*old(self)),
            final(self).same_pause(&*old(self)),
            final(self).same_stats(&*old(self)),
            final(self).same_scroll(&*old(self)),
            final(self).config == old(self).config,
    {
        self.input_mode = InputMode::Search;
        self.input_buffer = String::new();
        self.search_message = None;
        self.needs_redraw = true;
    }

    /// Open the save prompt, pre-filled with a file name derived from the
    /// project tag.
    pub fn enter_save_mode(&mut self)
        requires
            old(self).wf(),
        ensures
            final(self).wf(),
            final(self).input_mode is SavePrompt,
            final(self).input_buffer@ == old(self).project@ + "_logs.txt"@,
            final(self).needs_redraw,
            final(self).search_regex == old(self).search_regex,
            final(self).search_message == old(self).search_message,
            final(self).level_filter == old(self).level_filter,
            final(self).logs.deep_view() == old(self).logs.deep_view(),
            final(self).same_session(&*old(self)),
            final(self).same_pause(&*old(self)),
            final(self).same_stats(&*old(self)),
            final(self).same_scroll(&*old(self)),
            final(self).config == old(self).config,
    {
        let mut name = self.project.clone();
        name.append("_logs.txt");
        self.input_mode = InputMode::SavePrompt;
        self.input_buffer = name;
        self.needs_redraw = true;
    }

    /// Show the help overlay, or leave it when it is already up.
    pub fn toggle_help(&mut self)
        requires
            old(self).wf(),
        ensures
            final(self).wf(),
            final(self).input_mode == if old(self).input_mode is Help {
                InputMode::Normal
            } else {
                InputMode::Help
            },
            final(self).needs_redraw,
            final(self).input_buffer == old(self).input_buffer,
            final(self).search_regex == old(self).search_regex,
            final(self).search_message == old(self).search_message,
            final(self).level_filter == old(self).level_filter,
            final(self).logs.deep_view() == old(self).logs.deep_view(),
            final(self).same_session(&*old(self)),
            final(self).same_pause(&*old(self)),
            final(self).same_stats(&*old(self)),
            final(self).same_scroll(&*old(self)),
            final(self).config == old(self).config,
    {
        self.input_mode = if self.input_mode == InputMode::Help {
            InputMode::Normal
        } else {
            InputMode::Help
        };
        self.needs_redraw = true;
    }

    /// Leave the search or save prompt, dropping the input line and any
    /// active search.
    pub fn exit_input_mode(&mut self)
        requires
            old(self).wf(),
        ensures
            final(self).wf(),
            final(self).input_mode is Normal,
            final(self).input_buffer@.len() == 0,
            final(self).search_regex is None,
            final(self).search_message is None,
            final(self).needs_redraw,
            final(self).level_filter == old(self).level_filter,
            final(self).logs.deep_view() == old(self).logs.deep_view(),
            final(self).same_session(&*old(self)),
            final(self).same_pause(&*old(self)),
            final(self).same_stats(&*old(self)),
            final(self).same_scroll(&*old(self)),
            final(self).config == old(self).config,
    {
        self.input_mode = InputMode::Normal;
        self.input_buffer = String::new();
        self.search_regex = None;
        self.search_message = None;
        self.needs_redraw = true;
    }

    /// Append one typed character to the prompt input.
    pub fn input_char(&mut self, c: char)
        requires
            old(self).wf(),
        ensures
            final(self).wf(),
            final(self).input_buffer@ == old(self).input_buffer@.push(c),
            final(self).needs_redraw,
            final(self).input_mode == old(self).input_mode,
            final(self).search_regex == old(self).search_regex,
            final(self).search_message == old(self).search_message,
            final(self).level_filter == old(self).level_filter,
            final(self).logs.deep_view() == old(self).logs.deep_view(),
            final(self).same_session(&*old(self)),
            final(self).same_pause(&*old(self)),
            final(self).same_stats(&*old(self)),
            final(self).same_scroll(&*old(self)),
            final(self).config == old(self).config,
    {
        string_push(&mut self.input_buffer, c);
        self.needs_redraw = true;
    }

    /// Erase the last typed character of the prompt input, if any.
    pub fn input_backspace(&mut self)
        requires
            old(self).wf(),
        ensures
            final(self).wf(),
            final(self).input_buffer@ == if old(self).input_buffer@.len() > 0 {
                old(self).input_buffer@.drop_last()
            } else {
                old(self).input_buffer@
            },
            final(self).needs_redraw,
            final(self).input_mode == old(self).input_mode,
            final(self).search_regex == old(self).search_regex,
            final(self).search_message == old(self).search_message,
            final(self).level_filter == old(self).level_filter,
            final(self).logs.deep_view() == old(self).logs.deep_view(),
            final(self).same_session(&*old(self)),
            final(self).same_pause(&*old(self)),
            final(self).same_stats(&*old(self)),
            final(self).same_scroll(&*old(self)),
            final(self).config == old(self).config,
    {
        let _ = string_pop(&mut self.input_buffer);
        self.needs_redraw = true;
    }

    /// Confirm the search prompt: an empty input clears the search; a valid
    /// pattern becomes the active search and its match count is reported; an
    /// invalid pattern leaves search state alone and reports the error.
    pub fn confirm_search(&mut self)
        requires
            old(self).wf(),
        ensures
            final(self).wf(),
            confirm_search_outcome(&*old(self), &*final(self)),
            final(self).needs_redraw,
            final(self).logs.deep_view() == old(self).logs.deep_view(),
            final(self).level_filter == old(self).level_filter,
            final(self).same_session(&*old(self)),
            final(self).same_pause(&*old(self)),
            final(self).same_stats(&*old(self)),
            final(self).same_scroll(&*old(self)),
            final(self).config == old(self).config,
    {
        if self.input_buffer.as_str().is_empty() {
            self.search_regex = None;
            self.search_message = None;
            self.input_mode = InputMode::Normal;
            self.needs_redraw = true;
            return;
        }
        match SearchPattern::compile(self.input_buffer.as_str()) {
            Ok(pattern) => {
                let count = self.count_matches(&pattern);
                let mut msg = usize_to_string(count);
                msg.append(" matches");
                self.search_regex = Some(pattern);
                self.search_message = Some(msg);
                self.input_mode = InputMode::Normal;
            }
            Err(e) => {
                let mut msg = "Invalid regex: ".to_owned();
                msg.append(e.as_str());
                proof {
                    reveal_strlit("Invalid regex: ");
                    assert(msg@.subrange(0, 15) =~= "Invalid regex: "@);
                }
                self.search_message = Some(msg);
            }
        }
        self.needs_redraw = true;
    }

    /// Count the buffer lines whose text the pattern matches.
    fn count_matches(&self, pattern: &SearchPattern) -> (r: usize)
        ensures
            r == spec_match_count(self.logs.deep_view(), pattern@),
    {
        let ghost lines = self.logs.deep_view();
        let n = self.logs.len();
        let mut count: usize = 0;
        let mut i: usize = 0;
        while i < n
            invariant
                n == self.logs.deep_view().len(),
                lines == self.logs.deep_view(),
                i <= n,
                count <= i,
                count == spec_match_count(lines.take(i as int), pattern@),
            decreases n - i,
        {
            let hit = pattern.is_match(self.logs[i].message.as_str());
            proof {
                assert(lines.take(i + 1).drop_last() =~= lines.take(i as int));
                assert(lines.take(i + 1).last() == lines[i as int]);
                assert(self.logs@[i as int]@ == lines[i as int]);
            }
            if hit {
                count += 1;
            }
            i += 1;
        }
        proof {
            assert(lines.take(n as int) =~= lines);
        }
        count
    }

    /// Count the buffer lines that pass both the level filter and the
    /// search, as the status bar reports.
    pub fn filtered_count(&self) -> (r: usize)
        ensures
            r == spec_passing_count(
                self.logs.deep_view(),
                self.level_filter,
                active_pattern(self.search_regex),
            ),
    {
        let ghost lines = self.logs.deep_view();
        let ghost pat = active_pattern(self.search_regex);
        let n = self.logs.len();
        let mut count: usize = 0;
        let mut i: usize = 0;
        while i < n
            invariant
                n == self.logs.deep_view().len(),
                lines == self.logs.deep_view(),
                pat == active_pattern(self.search_regex),
                i <= n,
                count <= i,
                count == spec_passing_count(lines.take(i as int), self.level_filter, pat),
            decreases n - i,
        {
            let line = &self.logs[i];
            let search_match = match &self.search_regex {
                Some(re) => re.is_match(line.message.as_str()),
                None => true,
            };
            let level_match = line.is_system || self.level_filter.matches(&line.level);
            proof {
                assert(lines.take(i + 1).drop_last() =~= lines.take(i as int));
                assert(lines.take(i + 1).last() == lines[i as int]);
                assert(self.logs@[i as int]@ == lines[i as int]);
            }
            if search_match && level_match {
                count += 1;
            }
            i += 1;
        }
        proof {
            assert(lines.take(n as int) =~= lines);
        }
        count
    }

    /// The window of the buffer the renderer should show, each line paired
    /// with its buffer index and whether it passes the filters.  Lines that
    /// fail a filter are still returned, so the renderer can dim rather than
    /// drop them.
    pub fn filtered_visible_logs(&self) -> (r: Vec<(usize, LogLine, bool)>)
        requires
            self.wf(),
        ensures
            ({
                let lines = self.logs.deep_view();
                let lo = spec_window_start(
                    lines.len(),
                    self.visible_height as nat,
                    self.scroll_offset as nat,
                );
                let hi = spec_window_end(lines.len(), self.scroll_offset as nat);
                &&& r@.len() == hi - lo
                &&& forall|t: int|
                    0 <= t < r@.len() ==> {
                        &&& (#[trigger] r@[t]).0 == lo + t
                        &&& r@[t].1@ == lines[lo + t]
                        &&& r@[t].2 == line_passes(
                            lines[lo + t],
                            self.level_filter,
                            active_pattern(self.search_regex),
                        )
                    }
            }),
    {
        let ghost lines = self.logs.deep_view();
        let total = self.logs.len();
        let start = total.saturating_sub(self.visible_height.saturating_add(self.scroll_offset));
        let end = total.saturating_sub(self.scroll_offset);
        let mut out: Vec<(usize, LogLine, bool)> = Vec::new();
        let mut i: usize = start;
        proof {
            assert(start == spec_window_start(
                lines.len(),
                self.visible_height as nat,
                self.scroll_offset as nat,
            ));
            assert(end == spec_window_end(lines.len(), self.scroll_offset as nat));
        }
        while i < end
            invariant
                lines == self.logs.deep_view(),
                start <= i <= end || (i == start && start >= end),
                end <= lines.len(),
                start == spec_window_start(
                    lines.len(),
                    self.visible_height as nat,
                    self.scroll_offset as nat,
                ),
                out@.len() == i - start,
                i >= start,
                forall|t: int|
                    0 <= t < out@.len() ==> {
                        &&& (#[trigger] out@[t]).0 == start + t
                        &&& out@[t].1@ == lines[start + t]
                        &&& out@[t].2 == line_passes(
                            lines[start + t],
                            self.level_filter,
                            active_pattern(self.search_regex),
                        )
                    },
            decreases end - i,
        {
            let line = &self.logs[i];
            let search_match = match &self.search_regex {
                Some(re) => re.is_match(line.message.as_str()),
                None => true,
            };
            let level_match = line.is_system || self.level_filter.matches(&line.level);
            let hit = search_match && level_match;
            let copied = clone_line(line);
            proof {
                assert(self.logs@[i as int]@ == lines[i as int]);
            }
            out.push((i, copied, hit));
            i += 1;
        }
        out
    }

    /// Pause or resume capture.  Pausing gates new records into the pending
    /// queue; resuming flushes them, in arrival order, through the same
    /// capacity rule as ordinary appends, so the buffer ends as if capture
    /// had never been paused ([`lemma_flush_matches_pushes`]) — followed by
    /// one "Resumed capture" status line under the same rule.
    pub fn toggle_pause(&mut self)
        requires
            old(self).wf(),
        ensures
            final(self).wf(),
            final(self).paused == !old(self).paused,
            final(self).needs_redraw,
            old(self).paused && old(self).paused_logs.deep_view().len() > 0 ==> {
                &&& final(self).paused_logs.deep_view() == Seq::<MessageView>::empty()
                &&& pushed_system(
                    trim_to_cap(
                        old(self).logs.deep_view() + lines_of(old(self).paused_logs.deep_view()),
                        old(self).max_logs as nat,
                    ),
                    final(self).logs.deep_view(),
                    "Resumed capture"@,
                    old(self).max_logs as nat,
                )
            },
            old(self).paused && old(self).paused_logs.deep_view().len() == 0 ==> {
                &&& final(self).paused_logs.deep_view() == old(self).paused_logs.deep_view()
                &&& final(self).logs.deep_view() == old(self).logs.deep_view()
                &&& final(self).same_scroll(&*old(self))
            },
            !old(self).paused ==> {
                &&& final(self).paused_logs.deep_view() == old(self).paused_logs.deep_view()
                &&& pushed_system(
                    old(self).logs.deep_view(),
                    final(self).logs.deep_view(),
                    "Paused capture"@,
                    old(self).max_logs as nat,
                )
            },
            final(self).same_session(&*old(self)),
            final(self).same_input(&*old(self)),
            final(self).same_stats(&*old(self)),
            final(self).config == old(self).config,
    {
        self.paused = !self.paused;
        if !self.paused && self.paused_logs.len() > 0 {
            let ghost before = self.logs.deep_view();
            let ghost pend = self.paused_logs.deep_view();
            let ghost cap = self.max_logs as nat;
            let converted = lines_from_records(&self.paused_logs);
            append_lines(&mut self.logs, &converted);
            evict_over_cap(&mut self.logs, self.max_logs);
            self.paused_logs = Vec::new();
            proof {
                assert(self.paused_logs.deep_view() =~= Seq::<MessageView>::empty());
                assert(self.logs.deep_view() == trim_to_cap(before + lines_of(pend), cap));
                lemma_trim_len(before + lines_of(pend), cap);
                assert(self.logs.deep_view().len() >= before.len());
            }
            self.add_system_log("Resumed capture".to_owned());
        } else if self.paused {
            self.add_system_log("Paused capture".to_owned());
        }
        self.needs_redraw = true;
    }

    /// The text the copy action hands to the clipboard: the selected line,
    /// rendered exactly as in a saved log file but without the newline.
    pub fn selected_text(&self) -> (r: Option<String>)
        requires
            self.wf(),
        ensures
            match self.selected_line {
                Some(index) => (match r {
                    Some(text) => text@ == spec_copied_text(
                        self.logs.deep_view()[index as int],
                    ),
                    None => false,
                }),
                None => r is None,
            },
    {
        match self.selected_line {
            None => None,
            Some(index) => {
                let line = &self.logs[index];
                let mut text = String::new();
                string_push(&mut text, '[');
                text.append(line.timestamp.as_str());
                text.append("] ");
                text.append(line.level.name());
                string_push(&mut text, ' ');
                text.append(line.message.as_str());
                proof {
                    assert(self.logs@[index as int]@ == self.logs.deep_view()[index as int]);
                    assert(text@ =~= spec_copied_text(self.logs.deep_view()[index as int]));
                }
                Some(text)
            }
        }
    }

    /// Copy the selected line to the clipboard, or note that nothing is
    /// selected.  What is copied is exactly [`App::selected_text`]; a
    /// clipboard failure is handed back for the caller to report.
    pub fn copy_selected_line(&mut self) -> (r: Result<(), String>)
        requires
            old(self).wf(),
        ensures
            final(self).wf(),
            old(self).selected_line is None ==> r is Ok && pushed_system(
                old(self).logs.deep_view(),
                final(self).logs.deep_view(),
                "No line selected"@,
                old(self).max_logs as nat,
            ),
            old(self).selected_line is Some && r is Ok ==> pushed_system(
                old(self).logs.deep_view(),
                final(self).logs.deep_view(),
                "Copied to clipboard"@,
                old(self).max_logs as nat,
            ),
            r is Err ==> final(self).logs.deep_view() == old(self).logs.deep_view()
                && final(self).same_scroll(&*old(self)),
            final(self).same_session(&*old(self)),
            final(self).same_input(&*old(self)),
            final(self).same_pause(&*old(self)),
            final(self).same_stats(&*old(self)),
            final(self).config == old(self).config,
    {
        match self.selected_text() {
            None => {
                self.add_system_log("No line selected".to_owned());
                Ok(())
            }
            Some(text) => {
                match clipboard_new() {
                    Ok(mut clipboard) => {
                        match clipboard_set(&mut clipboard, text.as_str()) {
                            Ok(()) => {
                                self.add_system_log("Copied to clipboard".to_owned());
                                Ok(())
                            }
                            Err(e) => Err(e),
                        }
                    }
                    Err(e) => Err(e),
                }
            }
        }
    }

    /// Advance the level filter one step in its cycle.
    pub fn cycle_level_filter(&mut self)
        requires
            old(self).wf(),
        ensures
            final(self).wf(),
            final(self).level_filter == spec_next(old(self).level_filter),
            final(self).needs_redraw,
            final(self).input_mode == old(self).input_mode,
            final(self).input_buffer == old(self).input_buffer,
            final(self).search_regex == old(self).search_regex,
            final(self).search_message == old(self).search_message,
            final(self).logs.deep_view() == old(self).logs.deep_view(),
            final(self).same_session(&*old(self)),
            final(self).same_pause(&*old(self)),
            final(self).same_stats(&*old(self)),
            final(self).same_scroll(&*old(self)),
            final(self).config == old(self).config,
    {
        self.level_filter = self.level_filter.next();
        self.needs_redraw = true;
    }

    /// The file name the save prompt will write to: the typed name, or a
    /// default derived from the project tag.
    pub fn save_filename(&self) -> (r: String)
        ensures
            r@ == if self.input_buffer@.len() == 0 {
                self.project@ + "_logs.txt"@
            } else {
                self.input_buffer@
            },
    {
        if self.input_buffer.as_str().is_empty() {
            let mut name = self.project.clone();
            name.append("_logs.txt");
            name
        } else {
            self.input_buffer.clone()
        }
    }

    /// The whole buffer rendered as saveable text, one line per entry.
    pub fn logs_text(&self) -> (r: String)
        ensures
            r@ == spec_logs_text(self.logs.deep_view()),
    {
        let ghost lines = self.logs.deep_view();
        let n = self.logs.len();
        let mut out = String::new();
        let mut i: usize = 0;
        while i < n
            invariant
                n == self.logs.deep_view().len(),
                lines == self.logs.deep_view(),
                i <= n,
                out@ == spec_logs_text(lines.take(i as int)),
            decreases n - i,
        {
            let line = &self.logs[i];
            string_push(&mut out, '[');
            out.append(line.timestamp.as_str());
            out.append("] ");
            out.append(line.level.name());
            string_push(&mut out, ' ');
            out.append(line.message.as_str());
            string_push(&mut out, '\n');
            proof {
                assert(self.logs@[i as int]@ == lines[i as int]);
                assert(lines.take(i + 1).drop_last() =~= lines.take(i as int));
                assert(lines.take(i + 1).last() == lines[i as int]);
                assert(out@ =~= spec_logs_text(lines.take(i + 1)));
            }
            i += 1;
        }
        proof {
            assert(lines.take(n as int) =~= lines);
        }
        out
    }

    /// Note the outcome of writing the buffer to a file, and leave the save
    /// prompt either way.
    pub fn on_save_result(&mut self, result: Result<usize, String>, filename: String)
        requires
            old(self).wf(),
        ensures
            final(self).wf(),
            final(self).input_mode is Normal,
            final(self).input_buffer@.len() == 0,
            final(self).needs_redraw,
            result matches Ok(count) ==> pushed_system(
                old(self).logs.deep_view(),
                final(self).logs.deep_view(),
                "Saved "@ + spec_dec(count as nat) + " logs to "@ + filename@,
                old(self).max_logs as nat,
            ),
            result matches Err(e) ==> pushed_system(
                old(self).logs.deep_view(),
                final(self).logs.deep_view(),
                "Save failed: "@ + e@,
                old(self).max_logs as nat,
            ),
            final(self).search_regex == old(self).search_regex,
            final(self).level_filter == old(self).level_filter,
            final(self).same_session(&*old(self)),
            final(self).same_pause(&*old(self)),
            final(self).same_stats(&*old(self)),
            final(self).config == old(self).config,
    {
        match result {
            Ok(count) => {
                let mut msg = "Saved ".to_owned();
                let counted = usize_to_string(count);
                msg.append(counted.as_str());
                msg.append(" logs to ");
                msg.append(filename.as_str());
                self.add_system_log(msg);
            }
            Err(e) => {
                let mut msg = "Save failed: ".to_owned();
                msg.append(e.as_str());
                self.add_system_log(msg);
            }
        }
        self.input_mode = InputMode::Normal;
        self.input_buffer = String::new();
        self.needs_redraw = true;
    }

    /// One clock tick: advance the countdown state machine, report whether
    /// the caller should poll for process exit, and ask for a redraw so the
    /// uptime display stays fresh.
    pub fn on_tick(&mut self) -> (poll: bool)
        requires
            old(self).wf(),
        ensures
            final(self).wf(),
            (final(self).state, final(self).should_quit) == spec_tick_state(
                old(self).state,
                old(self).should_quit,
            ),
            poll == (final(self).state is Running),
            final(self).needs_redraw,
            final(self).logs.deep_view() == old(self).logs.deep_view(),
            final(self).pid == old(self).pid,
            final(self).start_ms == old(self).start_ms,
            final(self).same_input(&*old(self)),
            final(self).same_pause(&*old(self)),
            final(self).same_stats(&*old(self)),
            final(self).same_scroll(&*old(self)),
            final(self).config == old(self).config,
    {
        match self.state {
            AppState::WaitingCountdown(n) => {
                if n <= 1 {
                    if n == 1 {
                        self.set_state(AppState::WaitingCountdown(0));
                    } else {
                        self.should_quit = true;
                    }
                } else {
                    self.set_state(AppState::WaitingCountdown(n - 1));
                }
            }
            _ => {}
        }
        let poll = matches!(self.state, AppState::Running);
        self.needs_redraw = true;
        poll
    }

    /// Note that the child exited: clear the process id, report the status,
    /// and either end the session (auto-quit) or start the countdown.
    pub fn on_process_exit(&mut self, success: bool, status: String)
        requires
            old(self).wf(),
        ensures
            final(self).wf(),
            final(self).pid is None,
            success ==> pushed_system(
                old(self).logs.deep_view(),
                final(self).logs.deep_view(),
                "Process exited successfully"@,
                old(self).max_logs as nat,
            ),
            !success ==> pushed_system(
                old(self).logs.deep_view(),
                final(self).logs.deep_view(),
                "Process exited with status: "@ + status@,
                old(self).max_logs as nat,
            ),
            old(self).config.agent.auto_quit ==> final(self).should_quit && final(self).state
                == old(self).state,
            !old(self).config.agent.auto_quit ==> final(self).state
                == AppState::WaitingCountdown(5)
                && final(self).should_quit == old(self).should_quit,
            final(self).needs_redraw,
            final(self).same_input(&*old(self)),
            final(self).same_pause(&*old(self)),
            final(self).same_stats(&*old(self)),
            final(self).start_ms == old(self).start_ms,
            final(self).config == old(self).config,
    {
        self.set_pid(None);
        if success {
            self.add_system_log("Process exited successfully".to_owned());
        } else {
            let mut msg = "Process exited with status: ".to_owned();
            msg.append(status.as_str());
            self.add_system_log(msg);
        }
        if self.config.agent.auto_quit {
            self.should_quit = true;
        } else {
            self.set_state(AppState::WaitingCountdown(5));
        }
    }

    /// Note the outcome of a restart: on success the session is `Running`
    /// again with a fresh process id and a reset uptime clock; on failure
    /// the countdown starts.
    pub fn on_restart_result(&mut self, result: Result<u32, String>, now_ms: u64)
        requires
            old(self).wf(),
        ensures
            final(self).wf(),
            result matches Ok(pid) ==> {
                &&& final(self).pid == Some(pid)
                &&& final(self).state is Running
                &&& final(self).start_ms == now_ms
                &&& pushed_system(
                    old(self).logs.deep_view(),
                    final(self).logs.deep_view(),
                    "Process restarted (PID: "@ + spec_dec(pid as nat) + ")"@,
                    old(self).max_logs as nat,
                )
            },
            result matches Err(e) ==> {
                &&& final(self).state == AppState::WaitingCountdown(5)
                &&& final(self).pid == old(self).pid
                &&& final(self).start_ms == old(self).start_ms
                &&& pushed_system(
                    old(self).logs.deep_view(),
                    final(self).logs.deep_view(),
                    "Restart failed: "@ + e@,
                    old(self).max_logs as nat,
                )
            },
            final(self).needs_redraw,
            final(self).should_quit == old(self).should_quit,
            final(self).same_input(&*old(self)),
            final(self).same_pause(&*old(self)),
            final(self).same_stats(&*old(self)),
            final(self).config == old(self).config,
    {
        match result {
            Ok(pid) => {
                self.set_pid(Some(pid));
                self.set_state(AppState::Running);
                self.reset_start_time(now_ms);
                let mut msg = "Process restarted (PID: ".to_owned();
                let rendered = u64_to_string(pid as u64);
                msg.append(rendered.as_str());
                msg.append(")");
                self.add_system_log(msg);
            }
            Err(e) => {
                let mut msg = "Restart failed: ".to_owned();
                msg.append(e.as_str());
                self.add_system_log(msg);
                self.set_state(AppState::WaitingCountdown(5));
            }
        }
    }

    /// Dispatch a mouse event: wheel scrolling moves three lines, a press
    /// selects the line under the cursor.
    pub fn handle_mouse(&mut self, mouse: Mouse)
        requires
            old(self).wf(),
        ensures
            final(self).wf(),
            mouse is ScrollUp ==> final(self).scroll_offset == spec_scrolled_up(&*old(self), 3)
                && !final(self).auto_scroll,
            mouse is ScrollDown ==> final(self).scroll_offset == spec_scrolled_down(
                &*old(self),
                3,
            ) && final(self).auto_scroll == spec_scrolled_down_auto(&*old(self), 3),
            mouse matches Mouse::Press(row) ==> (match spec_select_index(
                old(self).logs.deep_view().len(),
                old(self).visible_height as nat,
                old(self).scroll_offset as nat,
                row as nat,
            ) {
                Some(idx) => final(self).selected_line == Some(idx as usize)
                    && !final(self).auto_scroll,
                None => final(self).selected_line == old(self).selected_line,
            }),
            mouse is Other ==> *final(self) == *old(self),
            final(self).logs.deep_view() == old(self).logs.deep_view(),
            final(self).same_session(&*old(self)),
            final(self).same_input(&*old(self)),
            final(self).same_pause(&*old(self)),
            final(self).same_stats(&*old(self)),
            final(self).config == old(self).config,
    {
        match mouse {
            Mouse::ScrollUp => self.scroll_up(3),
            Mouse::ScrollDown => self.scroll_down(3),
            Mouse::Press(row) => self.select_line_at(row),
            Mouse::Other => {}
        }
    }

    /// Dispatch a keyboard event.  The quit key works in every mode; other
    /// keys act according to the current input mode.  The returned action
    /// names outside work (a restart, a file write) the caller must perform
    /// and then report back.
    pub fn handle_key(&mut self, key: Key) -> (act: Action)
        requires
            old(self).wf(),
        ensures
            final(self).wf(),
            key == Key::Char('q') ==> *final(self) == (App { should_quit: true, ..*old(self) })
                && act is Nothing,
            (act is Restart <==> (key != Key::Char('q') && old(self).input_mode is Normal && key
                == Key::Char('r'))),
            (act is SaveLogs <==> (key != Key::Char('q') && old(self).input_mode is SavePrompt
                && key is Enter)),
            key != Key::Char('q') && old(self).input_mode is Normal ==> normal_key_outcome(
                &*old(self),
                &*final(self),
                key,
            ),
            key != Key::Char('q') && (old(self).input_mode is Search
                || old(self).input_mode is SavePrompt) ==> prompt_key_outcome(
                &*old(self),
                &*final(self),
                key,
            ),
            key != Key::Char('q') && old(self).input_mode is Help
                ==> final(self).input_mode is Normal,
            final(self).same_stats(&*old(self)),
            final(self).project == old(self).project,
            final(self).command == old(self).command,
            final(self).max_logs == old(self).max_logs,
            final(self).visible_height == old(self).visible_height,
            final(self).config == old(self).config,
    {
        if key == Key::Char('q') {
            self.should_quit = true;
            return Action::Nothing;
        }
        match self.input_mode {
            InputMode::Normal => {
                match key {
                    Key::Char('r') => {
                        self.add_system_log("Restarting...".to_owned());
                        self.set_state(AppState::Restarting);
                        return Action::Restart;
                    }
                    Key::Char('c') => self.clear_logs(),
                    Key::Char('f') => self.cycle_level_filter(),
                    Key::Char('/') => self.enter_search_mode(),
                    Key::Char('s') => self.enter_save_mode(),
                    Key::Char('p') | Key::Char(' ') => self.toggle_pause(),
                    Key::Char('y') => {
                        match self.copy_selected_line() {
                            Ok(()) => {}
                            Err(e) => {
                                let mut msg = "Copy failed: ".to_owned();
                                msg.append(e.as_str());
                                self.add_system_log(msg);
                            }
                        }
                    }
                    Key::Char('?') => self.toggle_help(),
                    Key::Up | Key::Char('k') => self.scroll_up(1),
                    Key::Down | Key::Char('j') => self.scroll_down(1),
                    Key::PageUp => self.scroll_up(10),
                    Key::PageDown => self.scroll_down(10),
                    Key::Home => self.scroll_to_top(),
                    Key::End => self.scroll_to_bottom(),
                    _ => {}
                }
                Action::Nothing
            }
            InputMode::Search | InputMode::SavePrompt => {
                match key {
                    Key::Enter => {
                        if self.input_mode == InputMode::Search {
                            self.confirm_search();
                            Action::Nothing
                        } else {
                            Action::SaveLogs
                        }
                    }
                    Key::Esc => {
                        self.exit_input_mode();
                        Action::Nothing
                    }
                    Key::Backspace => {
                        self.input_backspace();
                        Action::Nothing
                    }
                    Key::Char(c) => {
                        self.input_char(c);
                        Action::Nothing
                    }
                    _ => Action::Nothing,
                }
            }
            InputMode::Help => {
                self.toggle_help();
                Action::Nothing
            }
        }
    }
}

/// A key the normal mode ignores.
pub open spec fn unhandled_normal_key(key: Key) -> bool {
    match key {
        Key::Char(c) => !(c == 'r' || c == 'c' || c == 'f' || c == '/' || c == 's' || c == 'p'
            || c == ' ' || c == 'y' || c == '?' || c == 'k' || c == 'j'),
        Key::Enter | Key::Esc | Key::Backspace | Key::Other => true,
        _ => false,
    }
}

/// What each normal-mode key leaves behind.
pub open spec fn normal_key_outcome(pre: &App, post: &App, key: Key) -> bool {
    let cap = pre.max_logs as nat;
    &&& key == Key::Char('r') ==> post.state is Restarting && pushed_system(
        pre.logs.deep_view(),
        post.logs.deep_view(),
        "Restarting..."@,
        cap,
    )
    &&& key == Key::Char('c') ==> pushed_system(
        Seq::<LineView>::empty(),
        post.logs.deep_view(),
        "Logs cleared"@,
        cap,
    ) && post.scroll_offset == 0 && post.selected_line is None
    &&& key == Key::Char('f') ==> post.level_filter == spec_next(pre.level_filter)
    &&& key == Key::Char('/') ==> post.input_mode is Search && post.input_buffer@.len() == 0
    &&& key == Key::Char('s') ==> post.input_mode is SavePrompt && post.input_buffer@
        == pre.project@ + "_logs.txt"@
    &&& (key == Key::Char('p') || key == Key::Char(' ')) ==> post.paused == !pre.paused
    &&& key == Key::Char('y') && pre.selected_line is None ==> pushed_system(
        pre.logs.deep_view(),
        post.logs.deep_view(),
        "No line selected"@,
        cap,
    )
    &&& key == Key::Char('y') && pre.selected_line is Some ==> (pushed_system(
        pre.logs.deep_view(),
        post.logs.deep_view(),
        "Copied to clipboard"@,
        cap,
    ) || (exists|e: Seq<char>|
        pushed_system(pre.logs.deep_view(), post.logs.deep_view(), "Copy failed: "@ + e, cap)))
    &&& key == Key::Char('?') ==> post.input_mode is Help
    &&& (key == Key::Up || key == Key::Char('k')) ==> post.scroll_offset == spec_scrolled_up(
        pre,
        1,
    ) && !post.auto_scroll
    &&& (key == Key::Down || key == Key::Char('j')) ==> post.scroll_offset == spec_scrolled_down(
        pre,
        1,
    ) && post.auto_scroll == spec_scrolled_down_auto(pre, 1)
    &&& key == Key::PageUp ==> post.scroll_offset == spec_scrolled_up(pre, 10)
        && !post.auto_scroll
    &&& key == Key::PageDown ==> post.scroll_offset == spec_scrolled_down(pre, 10)
        && post.auto_scroll == spec_scrolled_down_auto(pre, 10)
    &&& key == Key::Home ==> post.scroll_offset == spec_max_offset(
        pre.logs.deep_view().len(),
        pre.visible_height as nat,
    ) && !post.auto_scroll
    &&& key == Key::End ==> post.scroll_offset == 0 && post.auto_scroll
        && post.selected_line is None
    &&& unhandled_normal_key(key) ==> *post == *pre
}

/// A key the search and save prompts ignore.
pub open spec fn unhandled_prompt_key(key: Key) -> bool {
    match key {
        Key::Up | Key::Down | Key::PageUp | Key::PageDown | Key::Home | Key::End | Key::Other =>
            true,
        _ => false,
    }
}

/// What each key leaves behind while a prompt is open.
pub open spec fn prompt_key_outcome(pre: &App, post: &App, key: Key) -> bool {
    &&& key is Esc ==> post.input_mode is Normal && post.input_buffer@.len() == 0
        && post.search_regex is None && post.search_message is None
    &&& key is Backspace ==> post.input_buffer@ == (if pre.input_buffer@.len() > 0 {
        pre.input_buffer@.drop_last()
    } else {
        pre.input_buffer@
    }) && post.input_mode == pre.input_mode
    &&& key matches Key::Char(c) ==> post.input_buffer@ == pre.input_buffer@.push(c)
        && post.input_mode == pre.input_mode
    &&& pre.input_mode is Search && key is Enter ==> confirm_search_outcome(pre, post)
    &&& pre.input_mode is SavePrompt && key is Enter ==> *post == *pre
    &&& unhandled_prompt_key(key) ==> *post == *pre
}

/// The buffer index selected by a press on terminal row `row`: the log area
/// starts on row 1, and the visible window begins `height + offset` lines
/// from the end of the buffer.
pub open spec fn spec_select_index(len: nat, height: nat, offset: nat, row: nat) -> Option<int> {
    if row < 1 || len == 0 {
        None
    } else {
        let visible_start: int = if len > height + offset {
            len - (height + offset)
        } else {
            0
        };
        let idx = visible_start + row - 1;
        if idx < len {
            Some(idx)
        } else {
            None
        }
    }
}

/// Whole seconds elapsed between two clock readings.
pub open spec fn spec_elapsed_secs(start: u64, now: u64) -> nat {
    if now >= start {
        (((now - start) as nat) / 1000) as nat
    } else {
        0
    }
}

/// The uptime display: seconds under a minute, minutes and seconds under an
/// hour, hours and minutes beyond.
pub open spec fn spec_uptime(secs: nat) -> Seq<char> {
    if secs < 60 {
        spec_dec(secs) + seq!['s']
    } else if secs < 3600 {
        spec_dec(secs / 60) + seq!['m'] + spec_dec(secs % 60) + seq!['s']
    } else {
        spec_dec(secs / 3600) + seq!['h'] + spec_dec((secs % 3600) / 60) + seq!['m']
    }
}

/// The command parts joined with single spaces.
pub open spec fn spec_join_spaces(parts: Seq<Seq<char>>) -> Seq<char>
    decreases parts.len(),
{
    if parts.len() == 0 {
        Seq::empty()
    } else if parts.len() == 1 {
        parts[0]
    } else {
        spec_join_spaces(parts.drop_last()) + seq![' '] + parts.last()
    }
}

/// The pattern text of the active search, if one is set.
pub open spec fn active_pattern(s: Option<SearchPattern>) -> Option<Seq<char>> {
    match s {
        Some(p) => Some(p@),
        None => None,
    }
}

/// Whether a display line passes the level filter and the search: status
/// lines always pass the level filter, and a search, when set, applies to
/// every line's text.
pub open spec fn line_passes(l: LineView, f: LevelFilter, pat: Option<Seq<char>>) -> bool {
    &&& match pat {
        Some(p) => pattern_matches(p, l.message),
        None => true,
    }
    &&& (l.is_system || spec_matches(f, l.level))
}

/// How many lines the search pattern matches.
pub open spec fn spec_match_count(lines: Seq<LineView>, pat: Seq<char>) -> nat
    decreases lines.len(),
{
    if lines.len() == 0 {
        0
    } else {
        spec_match_count(lines.drop_last(), pat) + if pattern_matches(pat, lines.last().message) {
            1nat
        } else {
            0nat
        }
    }
}

/// How many lines pass both filters.
pub open spec fn spec_passing_count(
    lines: Seq<LineView>,
    f: LevelFilter,
    pat: Option<Seq<char>>,
) -> nat
    decreases lines.len(),
{
    if lines.len() == 0 {
        0
    } else {
        spec_passing_count(lines.drop_last(), f, pat) + if line_passes(lines.last(), f, pat) {
            1nat
        } else {
            0nat
        }
    }
}

/// First buffer index of the visible window.
pub open spec fn spec_window_start(len: nat, height: nat, offset: nat) -> int {
    if len > height + offset {
        len - (height + offset)
    } else {
        0
    }
}

/// One past the last buffer index of the visible window.
pub open spec fn spec_window_end(len: nat, offset: nat) -> int {
    if len > offset {
        len - offset
    } else {
        0
    }
}

/// What confirming the search prompt leaves behind: an empty input clears
/// the search, a valid pattern becomes active with its match count reported,
/// and an invalid one changes nothing but the report.
pub open spec fn confirm_search_outcome(pre: &App, post: &App) -> bool {
    &&& pre.input_buffer@.len() == 0 ==> {
        &&& post.search_regex is None
        &&& post.search_message is None
        &&& post.input_mode is Normal
    }
    &&& pre.input_buffer@.len() > 0 && pattern_compiles(pre.input_buffer@) ==> {
        &&& match post.search_regex {
            Some(p) => p@ == pre.input_buffer@,
            None => false,
        }
        &&& match post.search_message {
            Some(m) => m@ == spec_dec(spec_match_count(pre.logs.deep_view(), pre.input_buffer@))
                + " matches"@,
            None => false,
        }
        &&& post.input_mode is Normal
    }
    &&& pre.input_buffer@.len() > 0 && !pattern_compiles(pre.input_buffer@) ==> {
        &&& post.search_regex == pre.search_regex
        &&& post.input_mode == pre.input_mode
        &&& match post.search_message {
            Some(m) => m@.len() >= 15 && m@.subrange(0, 15) == "Invalid regex: "@,
            None => false,
        }
    }
}

/// A field-for-field copy of a display line.
fn clone_line(l: &LogLine) -> (r: LogLine)
    ensures
        r@ == l@,
{
    LogLine {
        timestamp: l.timestamp.clone(),
        level: l.level,
        message: l.message.clone(),
        source: l.source,
        is_system: l.is_system,
    }
}

/// A field-for-field copy of a captured record.
fn clone_message(m: &LogMessage) -> (r: LogMessage)
    ensures
        r@ == m@,
{
    LogMessage {
        version: m.version.clone(),
        msg_type: m.msg_type.clone(),
        data: LogData {
            timestamp: m.data.timestamp.clone(),
            level: m.data.level,
            source: m.data.source,
            project: m.data.project.clone(),
            message: m.data.message.clone(),
            pid: m.data.pid,
        },
    }
}

/// The display projection of each held-back record, in order.
fn lines_from_records(records: &Vec<LogMessage>) -> (r: Vec<LogLine>)
    requires
        forall|i: int|
            0 <= i < records.deep_view().len() ==> timestamp_wf(
                #[trigger] records.deep_view()[i].data.timestamp,
            ),
    ensures
        r.deep_view() == lines_of(records.deep_view()),
{
    let ghost rs = records.deep_view();
    let n = records.len();
    let mut out: Vec<LogLine> = Vec::new();
    let mut i: usize = 0;
    while i < n
        invariant
            n == records.deep_view().len(),
            rs == records.deep_view(),
            forall|k: int| 0 <= k < rs.len() ==> timestamp_wf(#[trigger] rs[k].data.timestamp),
            i <= n,
            out.deep_view() == lines_of(rs.take(i as int)),
        decreases n - i,
    {
        let copied = clone_message(&records[i]);
        proof {
            assert(records@[i as int]@ == rs[i as int]);
        }
        let line = LogLine::from_record(copied);
        let ghost outs = out.deep_view();
        out.push(line);
        proof {
            assert(out.deep_view() =~= outs.push(line@));
            assert(lines_of(rs.take(i + 1)).len() == i + 1);
            assert(forall|k: int|
                0 <= k < i + 1 ==> #[trigger] lines_of(rs.take(i + 1))[k] == line_of(
                    rs.take(i + 1)[k].data,
                ));
            assert(forall|k: int|
                0 <= k < i ==> #[trigger] lines_of(rs.take(i as int))[k] == line_of(
                    rs.take(i as int)[k].data,
                ));
            assert(out.deep_view() =~= lines_of(rs.take(i + 1)));
        }
        i += 1;
    }
    proof {
        assert(rs.take(n as int) =~= rs);
    }
    out
}

/// Declares `arboard::Clipboard` to the verifier; values of it are opaque
/// here.
#[verifier::external_type_specification]
#[verifier::external_body]
pub struct ExClipboard(arboard::Clipboard);

/// Relies on `arboard::Clipboard::new`: opens a handle to the system
/// clipboard, or fails when none is available.
#[verifier::external_body]
fn clipboard_new() -> (r: Result<arboard::Clipboard, String>) {
    match arboard::Clipboard::new() {
        Ok(clipboard) => Ok(clipboard),
        Err(e) => Err(e.to_string()),
    }
}

/// Relies on `arboard::Clipboard::set_text`: stores `text` as the clipboard
/// contents.
#[verifier::external_body]
fn clipboard_set(clipboard: &mut arboard::Clipboard, text: &str) -> (r: Result<(), String>) {
    match clipboard.set_text(text.to_owned()) {
        Ok(()) => Ok(()),
        Err(e) => Err(e.to_string()),
    }
}

/// Where scrolling up by `n` lands: the old offset plus `n`, clamped to the
/// oldest line.
pub open spec fn spec_scrolled_up(o: &App, n: nat) -> int {
    let cap = spec_max_offset(o.logs.deep_view().len(), o.visible_height as nat);
    if o.scroll_offset + n <= cap {
        o.scroll_offset + n
    } else {
        cap as int
    }
}

/// Where scrolling down by `n` lands: the old offset minus `n`, stopping at
/// the bottom.
pub open spec fn spec_scrolled_down(o: &App, n: nat) -> int {
    if o.scroll_offset >= n {
        o.scroll_offset - n
    } else {
        0
    }
}

/// Whether auto-follow is on after scrolling down by `n`: reaching the
/// bottom re-enables it, otherwise it is unchanged.
pub open spec fn spec_scrolled_down_auto(o: &App, n: nat) -> bool {
    if o.scroll_offset <= n {
        true
    } else {
        o.auto_scroll
    }
}

/// One tick of the run-state machine: a countdown above one decrements, one
/// becomes zero (so "0s" is rendered once), and zero ends the session on the
/// following tick.  Other states are untouched.
pub open spec fn spec_tick_state(state: AppState, quit: bool) -> (AppState, bool) {
    match state {
        AppState::WaitingCountdown(n) => if n > 1 {
            (AppState::WaitingCountdown((n - 1) as u8), quit)
        } else if n == 1 {
            (AppState::WaitingCountdown(0u8), quit)
        } else {
            (state, true)
        },
        _ => (state, quit),
    }
}

/// The run state and quit flag after `n` ticks with no other input.
pub open spec fn spec_tick_n(state: AppState, quit: bool, n: nat) -> (AppState, bool)
    decreases n,
{
    if n == 0 {
        (state, quit)
    } else {
        let s = spec_tick_n(state, quit, (n - 1) as nat);
        spec_tick_state(s.0, s.1)
    }
}

/// Countdown exactness: from `WaitingCountdown(5)`, five ticks reach zero
/// without ending the session, and the sixth tick ends it.
pub proof fn lemma_countdown_five_then_quit()
    ensures
        spec_tick_n(AppState::WaitingCountdown(5), false, 5) == (
            AppState::WaitingCountdown(0u8),
            false,
        ),
        spec_tick_n(AppState::WaitingCountdown(5), false, 6).1,
        forall|k: nat| k <= 5 ==> !spec_tick_n(AppState::WaitingCountdown(5), false, k).1,
{
    let s0 = AppState::WaitingCountdown(5);
    reveal_with_fuel(spec_tick_n, 8);
    assert(spec_tick_n(s0, false, 1) == (AppState::WaitingCountdown(4u8), false));
    assert(spec_tick_n(s0, false, 2) == (AppState::WaitingCountdown(3u8), false));
    assert(spec_tick_n(s0, false, 3) == (AppState::WaitingCountdown(2u8), false));
    assert(spec_tick_n(s0, false, 4) == (AppState::WaitingCountdown(1u8), false));
    assert(spec_tick_n(s0, false, 5) == (AppState::WaitingCountdown(0u8), false));
    assert(spec_tick_n(s0, false, 6).1);
    assert forall|k: nat| k <= 5 implies !spec_tick_n(s0, false, k).1 by {
        if k == 0 {
        } else if k == 1 {
            assert(spec_tick_n(s0, false, 1) == (AppState::WaitingCountdown(4u8), false));
        } else if k == 2 {
        } else if k == 3 {
        } else if k == 4 {
        } else {
            assert(k == 5);
        }
    }
}

/// A freshly reset uptime clock reads "0s".
pub proof fn lemma_uptime_zero()
    ensures
        spec_elapsed_secs(0, 0) == 0,
        spec_uptime(0) == seq!['0', 's'],
        forall|now: u64| spec_elapsed_secs(now, now) == 0,
{
    assert(spec_uptime(0) =~= seq!['0', 's']);
}

/// The name of a severity, as written into saved log files.
pub open spec fn spec_level_name(level: LogLevel) -> Seq<char> {
    match level {
        LogLevel::Info => "Info"@,
        LogLevel::Warn => "Warn"@,
        LogLevel::Error => "Error"@,
        LogLevel::Debug => "Debug"@,
    }
}

/// One buffer line rendered as clock reading, severity and text; what the
/// copy action puts on the clipboard.
pub open spec fn spec_copied_text(l: LineView) -> Seq<char> {
    seq!['['] + l.timestamp + "] "@ + spec_level_name(l.level) + seq![' '] + l.message
}

/// One buffer line rendered for a saved log file.
pub open spec fn spec_line_text(l: LineView) -> Seq<char> {
    spec_copied_text(l) + seq!['\n']
}

/// The whole buffer rendered for a saved log file.
pub open spec fn spec_logs_text(lines: Seq<LineView>) -> Seq<char>
    decreases lines.len(),
{
    if lines.len() == 0 {
        Seq::empty()
    } else {
        spec_logs_text(lines.drop_last()) + spec_line_text(lines.last())
    }
}

/// Append a batch of display lines at the tail, oldest first.
fn append_lines(logs: &mut VecDeque<LogLine>, lines: &Vec<LogLine>)
    ensures
        final(logs).deep_view() == old(logs).deep_view() + lines.deep_view(),
{
    let ghost before = logs.deep_view();
    let ghost ls = lines.deep_view();
    let n = lines.len();
    let mut i: usize = 0;
    while i < n
        invariant
            n == lines.deep_view().len(),
            ls == lines.deep_view(),
            i <= n,
            logs.deep_view() == before + ls.take(i as int),
        decreases n - i,
    {
        let copied = clone_line(&lines[i]);
        let ghost cur = logs.deep_view();
        logs.push_back(copied);
        proof {
            assert(lines@[i as int]@ == ls[i as int]);
            assert(logs.deep_view() =~= cur.push(ls[i as int]));
            assert(cur.push(ls[i as int]) =~= before + ls.take(i + 1));
        }
        i += 1;
    }
    proof {
        assert(ls.take(n as int) =~= ls);
    }
}

/// Drop lines from the head until the buffer is within capacity.
fn evict_over_cap(logs: &mut VecDeque<LogLine>, cap: usize)
    ensures
        final(logs).deep_view() == trim_to_cap(old(logs).deep_view(), cap as nat),
{
    let ghost full = logs.deep_view();
    while logs.len() > cap
        invariant
            trim_to_cap(logs.deep_view(), cap as nat) == trim_to_cap(full, cap as nat),
        decreases logs.deep_view().len(),
    {
        let ghost cur = logs.deep_view();
        logs.pop_front();
        proof {
            assert(logs.deep_view() =~= cur.subrange(1, cur.len() as int));
            assert(trim_to_cap(logs.deep_view(), cap as nat) =~= trim_to_cap(cur, cap as nat));
        }
    }
    proof {
        assert(trim_to_cap(logs.deep_view(), cap as nat) == logs.deep_view());
    }
}

} // verus!
