//! Configuration snapshot consumed by the dashboard: agent settings, output
//! formatting, colors and performance knobs.  Loading and merging the files
//! that produce a `Config` is the surrounding binary's concern; the core only
//! reads the values.

use std::collections::HashMap;
use vstd::prelude::*;

verus! {

/// A color: a named terminal color, a `#RRGGBB` hex triple, or raw RGB.
#[derive(Debug, Clone, PartialEq, Eq)]
pub enum Color {
    Hex(String),
    Rgb(u8, u8, u8),
    Named(ColorName),
}

/// The sixteen standard terminal colors.
#[derive(Debug, Clone, Copy, PartialEq, Eq, Structural)]
pub enum ColorName {
    Black,
    Red,
    Green,
    Yellow,
    Blue,
    Magenta,
    Cyan,
    White,
    BrightBlack,
    BrightRed,
    BrightGreen,
    BrightYellow,
    BrightBlue,
    BrightMagenta,
    BrightCyan,
    BrightWhite,
}

/// Text styling attributes.
#[derive(Debug, Clone, Copy, PartialEq, Eq, Structural)]
pub enum Style {
    Bold,
    Dimmed,
    Italic,
    Underline,
    Blink,
    Reverse,
    Strikethrough,
}

/// Foreground, background and style attributes for one class of text.
#[derive(Debug, Clone)]
pub struct ColorStyle {
    pub fg: Option<Color>,
    pub bg: Option<Color>,
    pub style: Vec<Style>,
}

/// A predefined command: a bare argument vector or one with options.
#[derive(Debug, Clone)]
pub enum CommandConfig {
    Simple(Vec<String>),
    Detailed { command: Vec<String>, watch: bool },
}

/// Colors for each log level and for agent status messages.
#[derive(Debug, Clone)]
pub struct ColorConfig {
    pub error: ColorStyle,
    pub warn: ColorStyle,
    pub debug: ColorStyle,
    pub info: ColorStyle,
    pub system: SystemColorConfig,
}

/// Colors for agent-generated status messages.
#[derive(Debug, Clone)]
pub struct SystemColorConfig {
    pub success: ColorStyle,
    pub error: ColorStyle,
    pub info: ColorStyle,
    pub dim: ColorStyle,
}

/// Core agent settings.
#[derive(Debug, Clone)]
pub struct AgentConfig {
    pub socket_path: String,
    pub default_project: String,
    pub default_command: Option<Vec<String>>,
    pub commands: HashMap<String, CommandConfig>,
    pub verbose: bool,
    pub watch: bool,
    pub connection_timeout: u64,
    pub retry_attempts: u32,
    pub auto_quit: bool,
    pub auto_quit_delay: u8,
}

/// Output formatting settings.
#[derive(Debug, Clone)]
pub struct OutputConfig {
    pub colors: bool,
    pub format: OutputFormat,
    pub show_timestamps: bool,
    pub show_pid: bool,
}

/// How captured lines are printed outside the dashboard.
#[derive(Debug, Clone, Copy, PartialEq, Eq, Structural)]
pub enum OutputFormat {
    Colored,
    Plain,
    Json,
}

/// Log filtering settings.
#[derive(Debug, Clone)]
pub struct FilterConfig {
    pub ignore_patterns: Vec<String>,
    pub min_level: LogLevel,
}

/// Minimum level knob used by the filter configuration.
#[derive(Debug, Clone, Copy, PartialEq, Eq, Structural)]
pub enum LogLevel {
    Debug,
    Info,
    Warn,
    Error,
}

/// Performance tuning settings.
#[derive(Debug, Clone)]
pub struct PerformanceConfig {
    pub buffer_size: usize,
    pub flush_interval: u64,
    pub tui: TuiConfig,
}

/// Dashboard tuning settings.
#[derive(Debug, Clone)]
pub struct TuiConfig {
    pub max_logs: usize,
    pub tick_rate_ms: u64,
    pub frame_rate_ms: u64,
    pub colors: TuiColorConfig,
}

/// Colors of the dashboard chrome.
#[derive(Debug, Clone)]
pub struct TuiColorConfig {
    pub header_bg: Color,
    pub header_fg: Color,
    pub status_bg: Color,
    pub status_fg: Color,
    pub border: Color,
    pub selected_bg: Color,
    pub selected_fg: Color,
    pub search_match: Color,
    pub search_dimmed: Color,
    pub help_bg: Color,
    pub help_fg: Color,
}

/// The whole configuration snapshot.
#[derive(Debug, Clone)]
pub struct Config {
    pub agent: AgentConfig,
    pub output: OutputConfig,
    pub theme: String,
    pub colors: ColorConfig,
    pub filters: FilterConfig,
    pub performance: PerformanceConfig,
}

pub fn default_theme_name() -> (r: String)
    ensures
        r@ == "default"@,
{
    "default".to_owned()
}

pub fn default_socket_path() -> (r: String)
    ensures
        r@ == "/tmp/log-agent.sock"@,
{
    "/tmp/log-agent.sock".to_owned()
}

pub fn default_project_name() -> (r: String)
    ensures
        r@ == "default"@,
{
    "default".to_owned()
}

pub fn default_connection_timeout() -> (r: u64)
    ensures
        r == 5,
{
    5
}

pub fn default_retry_attempts() -> (r: u32)
    ensures
        r == 3,
{
    3
}

pub fn default_auto_quit_delay() -> (r: u8)
    ensures
        r == 5,
{
    5
}

pub fn default_true() -> (r: bool)
    ensures
        r,
{
    true
}

pub fn default_max_logs() -> (r: usize)
    ensures
        r == 5000,
{
    5000
}

pub fn default_tick_rate() -> (r: u64)
    ensures
        r == 250,
{
    250
}

pub fn default_frame_rate() -> (r: u64)
    ensures
        r == 100,
{
    100
}

pub fn default_buffer_size() -> (r: usize)
    ensures
        r == 1000,
{
    1000
}

pub fn default_flush_interval() -> (r: u64)
    ensures
        r == 100,
{
    100
}

/// The default style for one class of text: the given foreground, no
/// background, and the given attributes.
pub open spec fn is_plain_style(s: ColorStyle, fg: ColorName, styles: Seq<Style>) -> bool {
    &&& s.fg == Some(Color::Named(fg))
    &&& s.bg is None
    &&& s.style@ == styles
}

/// A style with both a named foreground and a named background.
pub open spec fn is_bg_style(s: ColorStyle, fg: ColorName, bg: ColorName, styles: Seq<Style>) -> bool {
    &&& s.fg == Some(Color::Named(fg))
    &&& s.bg == Some(Color::Named(bg))
    &&& s.style@ == styles
}

pub fn default_error_color() -> (r: ColorStyle)
    ensures
        is_plain_style(r, ColorName::Red, seq![Style::Bold]),
{
    let r = ColorStyle { fg: Some(Color::Named(ColorName::Red)), bg: None, style: vec![Style::Bold] };
    proof {
        assert(r.style@ =~= seq![Style::Bold]);
    }
    r
}

pub fn default_warn_color() -> (r: ColorStyle)
    ensures
        is_plain_style(r, ColorName::Yellow, Seq::empty()),
{
    let r = ColorStyle { fg: Some(Color::Named(ColorName::Yellow)), bg: None, style: Vec::new() };
    proof {
        assert(r.style@ =~= Seq::<Style>::empty());
    }
    r
}

pub fn default_debug_color() -> (r: ColorStyle)
    ensures
        is_plain_style(r, ColorName::Blue, Seq::empty()),
{
    let r = ColorStyle { fg: Some(Color::Named(ColorName::Blue)), bg: None, style: Vec::new() };
    proof {
        assert(r.style@ =~= Seq::<Style>::empty());
    }
    r
}

pub fn default_info_color() -> (r: ColorStyle)
    ensures
        is_plain_style(r, ColorName::White, Seq::empty()),
{
    let r = ColorStyle { fg: Some(Color::Named(ColorName::White)), bg: None, style: Vec::new() };
    proof {
        assert(r.style@ =~= Seq::<Style>::empty());
    }
    r
}

pub fn default_success_color() -> (r: ColorStyle)
    ensures
        is_plain_style(r, ColorName::Green, seq![Style::Bold]),
{
    let r = ColorStyle { fg: Some(Color::Named(ColorName::Green)), bg: None, style: vec![Style::Bold] };
    proof {
        assert(r.style@ =~= seq![Style::Bold]);
    }
    r
}

pub fn default_system_error_color() -> (r: ColorStyle)
    ensures
        is_plain_style(r, ColorName::Red, seq![Style::Bold]),
{
    let r = ColorStyle { fg: Some(Color::Named(ColorName::Red)), bg: None, style: vec![Style::Bold] };
    proof {
        assert(r.style@ =~= seq![Style::Bold]);
    }
    r
}

pub fn default_system_info_color() -> (r: ColorStyle)
    ensures
        is_plain_style(r, ColorName::Cyan, Seq::empty()),
{
    let r = ColorStyle { fg: Some(Color::Named(ColorName::Cyan)), bg: None, style: Vec::new() };
    proof {
        assert(r.style@ =~= Seq::<Style>::empty());
    }
    r
}

pub fn default_dim_color() -> (r: ColorStyle)
    ensures
        is_plain_style(r, ColorName::BrightBlack, Seq::empty()),
{
    let r = ColorStyle { fg: Some(Color::Named(ColorName::BrightBlack)), bg: None, style: Vec::new() };
    proof {
        assert(r.style@ =~= Seq::<Style>::empty());
    }
    r
}

pub fn default_tui_header_bg() -> (r: Color)
    ensures
        r == Color::Named(ColorName::Blue),
{
    Color::Named(ColorName::Blue)
}

pub fn default_tui_header_fg() -> (r: Color)
    ensures
        r == Color::Named(ColorName::White),
{
    Color::Named(ColorName::White)
}

pub fn default_tui_status_bg() -> (r: Color)
    ensures
        r == Color::Named(ColorName::Black),
{
    Color::Named(ColorName::Black)
}

pub fn default_tui_status_fg() -> (r: Color)
    ensures
        r == Color::Named(ColorName::Cyan),
{
    Color::Named(ColorName::Cyan)
}

pub fn default_tui_border() -> (r: Color)
    ensures
        r == Color::Named(ColorName::Cyan),
{
    Color::Named(ColorName::Cyan)
}

pub fn default_tui_selected_bg() -> (r: Color)
    ensures
        r == Color::Named(ColorName::Cyan),
{
    Color::Named(ColorName::Cyan)
}

pub fn default_tui_selected_fg() -> (r: Color)
    ensures
        r == Color::Named(ColorName::Black),
{
    Color::Named(ColorName::Black)
}

pub fn default_tui_search_match() -> (r: Color)
    ensures
        r == Color::Named(ColorName::Yellow),
{
    Color::Named(ColorName::Yellow)
}

pub fn default_tui_search_dimmed() -> (r: Color)
    ensures
        r == Color::Named(ColorName::BrightBlack),
{
    Color::Named(ColorName::BrightBlack)
}

pub fn default_tui_help_bg() -> (r: Color)
    ensures
        r == Color::Named(ColorName::Black),
{
    Color::Named(ColorName::Black)
}

pub fn default_tui_help_fg() -> (r: Color)
    ensures
        r == Color::Named(ColorName::White),
{
    Color::Named(ColorName::White)
}

/// A value-equal copy of a color.
pub fn clone_color(c: &Color) -> (r: Color)
    ensures
        r == *c,
{
    match c {
        Color::Hex(h) => Color::Hex(h.clone()),
        Color::Rgb(a, b, g) => Color::Rgb(*a, *b, *g),
        Color::Named(n) => Color::Named(*n),
    }
}

/// A value-equal copy of an optional color.
pub fn clone_opt_color(c: &Option<Color>) -> (r: Option<Color>)
    ensures
        r == *c,
{
    match c {
        Some(color) => Some(clone_color(color)),
        None => None,
    }
}

/// A value-equal copy of a style list.
pub fn clone_styles(v: &Vec<Style>) -> (r: Vec<Style>)
    ensures
        r@ == v@,
{
    let mut out: Vec<Style> = Vec::new();
    let n = v.len();
    let mut i: usize = 0;
    while i < n
        invariant
            n == v@.len(),
            i <= n,
            out@ == v@.take(i as int),
        decreases n - i,
    {
        out.push(v[i]);
        proof {
            assert(out@ =~= v@.take(i + 1));
        }
        i += 1;
    }
    proof {
        assert(v@.take(n as int) =~= v@);
    }
    out
}

/// A value-equal copy of one text style.
pub fn clone_color_style(s: &ColorStyle) -> (r: ColorStyle)
    ensures
        r.fg == s.fg,
        r.bg == s.bg,
        r.style@ == s.style@,
{
    ColorStyle { fg: clone_opt_color(&s.fg), bg: clone_opt_color(&s.bg), style: clone_styles(&s.style) }
}

/// Whether two styles agree field for field.
pub open spec fn same_style(a: ColorStyle, b: ColorStyle) -> bool {
    a.fg == b.fg && a.bg == b.bg && a.style@ == b.style@
}

/// Whether two log palettes agree field for field.
pub open spec fn same_color_config(a: ColorConfig, b: ColorConfig) -> bool {
    &&& same_style(a.error, b.error)
    &&& same_style(a.warn, b.warn)
    &&& same_style(a.debug, b.debug)
    &&& same_style(a.info, b.info)
    &&& same_style(a.system.success, b.system.success)
    &&& same_style(a.system.error, b.system.error)
    &&& same_style(a.system.info, b.system.info)
    &&& same_style(a.system.dim, b.system.dim)
}

/// A value-equal copy of the log palette.
pub fn clone_color_config(c: &ColorConfig) -> (r: ColorConfig)
    ensures
        same_color_config(r, *c),
{
    ColorConfig {
        error: clone_color_style(&c.error),
        warn: clone_color_style(&c.warn),
        debug: clone_color_style(&c.debug),
        info: clone_color_style(&c.info),
        system: SystemColorConfig {
            success: clone_color_style(&c.system.success),
            error: clone_color_style(&c.system.error),
            info: clone_color_style(&c.system.info),
            dim: clone_color_style(&c.system.dim),
        },
    }
}

/// A value-equal copy of the dashboard chrome palette.
pub fn clone_tui_colors(c: &TuiColorConfig) -> (r: TuiColorConfig)
    ensures
        r == *c,
{
    TuiColorConfig {
        header_bg: clone_color(&c.header_bg),
        header_fg: clone_color(&c.header_fg),
        status_bg: clone_color(&c.status_bg),
        status_fg: clone_color(&c.status_fg),
        border: clone_color(&c.border),
        selected_bg: clone_color(&c.selected_bg),
        selected_fg: clone_color(&c.selected_fg),
        search_match: clone_color(&c.search_match),
        search_dimmed: clone_color(&c.search_dimmed),
        help_bg: clone_color(&c.help_bg),
        help_fg: clone_color(&c.help_fg),
    }
}

/// The default agent settings.
pub open spec fn is_default_agent(a: AgentConfig) -> bool {
    &&& a.socket_path@ == "/tmp/log-agent.sock"@
    &&& a.default_project@ == "default"@
    &&& a.default_command is None
    &&& !a.verbose
    &&& !a.watch
    &&& a.connection_timeout == 5
    &&& a.retry_attempts == 3
    &&& !a.auto_quit
    &&& a.auto_quit_delay == 5
}

impl Default for AgentConfig {
    fn default() -> (r: Self)
        ensures
            is_default_agent(r),
    {
        AgentConfig {
            socket_path: default_socket_path(),
            default_project: default_project_name(),
            default_command: None,
            commands: HashMap::new(),
            verbose: false,
            watch: false,
            connection_timeout: default_connection_timeout(),
            retry_attempts: default_retry_attempts(),
            auto_quit: false,
            auto_quit_delay: default_auto_quit_delay(),
        }
    }
}

/// The default output settings.
pub open spec fn is_default_output(o: OutputConfig) -> bool {
    &&& o.colors
    &&& o.format is Colored
    &&& !o.show_timestamps
    &&& !o.show_pid
}

impl Default for OutputConfig {
    fn default() -> (r: Self)
        ensures
            is_default_output(r),
    {
        OutputConfig {
            colors: default_true(),
            format: OutputFormat::Colored,
            show_timestamps: false,
            show_pid: false,
        }
    }
}

/// The default log colors: red errors, yellow warnings, blue debug, white
/// info, and the standard system palette.
pub open spec fn is_default_colors(c: ColorConfig) -> bool {
    &&& is_plain_style(c.error, ColorName::Red, seq![Style::Bold])
    &&& is_plain_style(c.warn, ColorName::Yellow, Seq::empty())
    &&& is_plain_style(c.debug, ColorName::Blue, Seq::empty())
    &&& is_plain_style(c.info, ColorName::White, Seq::empty())
    &&& is_default_system_colors(c.system)
}

/// The default system-message colors.
pub open spec fn is_default_system_colors(c: SystemColorConfig) -> bool {
    &&& is_plain_style(c.success, ColorName::Green, seq![Style::Bold])
    &&& is_plain_style(c.error, ColorName::Red, seq![Style::Bold])
    &&& is_plain_style(c.info, ColorName::Cyan, Seq::empty())
    &&& is_plain_style(c.dim, ColorName::BrightBlack, Seq::empty())
}

impl Default for SystemColorConfig {
    fn default() -> (r: Self)
        ensures
            is_default_system_colors(r),
    {
        SystemColorConfig {
            success: default_success_color(),
            error: default_system_error_color(),
            info: default_system_info_color(),
            dim: default_dim_color(),
        }
    }
}

impl Default for ColorConfig {
    fn default() -> (r: Self)
        ensures
            is_default_colors(r),
    {
        ColorConfig {
            error: default_error_color(),
            warn: default_warn_color(),
            debug: default_debug_color(),
            info: default_info_color(),
            system: SystemColorConfig::default(),
        }
    }
}

/// The default filter settings: keep everything.
pub open spec fn is_default_filters(f: FilterConfig) -> bool {
    &&& f.ignore_patterns@.len() == 0
    &&& f.min_level is Debug
}

impl Default for FilterConfig {
    fn default() -> (r: Self)
        ensures
            is_default_filters(r),
    {
        FilterConfig { ignore_patterns: Vec::new(), min_level: LogLevel::Debug }
    }
}

/// The default dashboard chrome colors.
pub open spec fn is_default_tui_colors(c: TuiColorConfig) -> bool {
    &&& c.header_bg == Color::Named(ColorName::Blue)
    &&& c.header_fg == Color::Named(ColorName::White)
    &&& c.status_bg == Color::Named(ColorName::Black)
    &&& c.status_fg == Color::Named(ColorName::Cyan)
    &&& c.border == Color::Named(ColorName::Cyan)
    &&& c.selected_bg == Color::Named(ColorName::Cyan)
    &&& c.selected_fg == Color::Named(ColorName::Black)
    &&& c.search_match == Color::Named(ColorName::Yellow)
    &&& c.search_dimmed == Color::Named(ColorName::BrightBlack)
    &&& c.help_bg == Color::Named(ColorName::Black)
    &&& c.help_fg == Color::Named(ColorName::White)
}

impl Default for TuiColorConfig {
    fn default() -> (r: Self)
        ensures
            is_default_tui_colors(r),
    {
        TuiColorConfig {
            header_bg: default_tui_header_bg(),
            header_fg: default_tui_header_fg(),
            status_bg: default_tui_status_bg(),
            status_fg: default_tui_status_fg(),
            border: default_tui_border(),
            selected_bg: default_tui_selected_bg(),
            selected_fg: default_tui_selected_fg(),
            search_match: default_tui_search_match(),
            search_dimmed: default_tui_search_dimmed(),
            help_bg: default_tui_help_bg(),
            help_fg: default_tui_help_fg(),
        }
    }
}

/// The default dashboard tuning: 5000 kept lines, 250 ms ticks, 100 ms frames.
pub open spec fn is_default_tui(t: TuiConfig) -> bool {
    &&& t.max_logs == 5000
    &&& t.tick_rate_ms == 250
    &&& t.frame_rate_ms == 100
    &&& is_default_tui_colors(t.colors)
}

impl Default for TuiConfig {
    fn default() -> (r: Self)
        ensures
            is_default_tui(r),
    {
        TuiConfig {
            max_logs: default_max_logs(),
            tick_rate_ms: default_tick_rate(),
            frame_rate_ms: default_frame_rate(),
            colors: TuiColorConfig::default(),
        }
    }
}

/// The default performance settings: 1000-slot channel, 100 ms flushes.
pub open spec fn is_default_performance(p: PerformanceConfig) -> bool {
    &&& p.buffer_size == 1000
    &&& p.flush_interval == 100
    &&& is_default_tui(p.tui)
}

impl Default for PerformanceConfig {
    fn default() -> (r: Self)
        ensures
            is_default_performance(r),
    {
        PerformanceConfig {
            buffer_size: default_buffer_size(),
            flush_interval: default_flush_interval(),
            tui: TuiConfig::default(),
        }
    }
}

/// The default configuration snapshot.
pub open spec fn is_default_config(c: Config) -> bool {
    &&& is_default_agent(c.agent)
    &&& is_default_output(c.output)
    &&& c.theme@ == "default"@
    &&& is_default_colors(c.colors)
    &&& is_default_filters(c.filters)
    &&& is_default_performance(c.performance)
}

impl Default for Config {
    fn default() -> (r: Self)
        ensures
            is_default_config(r),
    {
        Config {
            agent: AgentConfig::default(),
            output: OutputConfig::default(),
            theme: default_theme_name(),
            colors: ColorConfig::default(),
            filters: FilterConfig::default(),
            performance: PerformanceConfig::default(),
        }
    }
}

} // verus!
