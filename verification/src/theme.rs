//! Themes: named palettes for both log output and the dashboard chrome,
//! stored as files.  Reading and writing the files is the surrounding
//! binary's concern; here live the theme data itself and the path layout.

use vstd::prelude::*;
use vstd::string::StringExecFns;

use crate::config::{
    is_plain_style, Color, ColorConfig, ColorName, ColorStyle, Style, SystemColorConfig,
    TuiColorConfig,
};
use crate::loader::path_exists;

verus! {

/// A whole theme: identity plus the two palettes.
#[derive(Debug, Clone)]
pub struct ThemeConfig {
    pub name: String,
    pub description: Option<String>,
    pub author: Option<String>,
    pub colors: ColorConfig,
    pub tui: TuiColorConfig,
}

/// Keeper of the themes directory.
#[derive(Debug, Clone)]
pub struct ThemeManager {
    themes_dir: String,
}

impl View for ThemeManager {
    type V = Seq<char>;

    closed spec fn view(&self) -> Seq<char> {
        self.themes_dir@
    }
}

impl ThemeManager {
    /// A manager rooted at `config_dir`'s `themes` subdirectory.
    pub fn new(config_dir: String) -> (r: ThemeManager)
        ensures
            r@ == config_dir@ + "/themes"@,
    {
        let mut themes_dir = config_dir;
        themes_dir.append("/themes");
        ThemeManager { themes_dir }
    }

    /// The themes directory.
    pub fn themes_dir(&self) -> (r: &String)
        ensures
            r@ == self@,
    {
        &self.themes_dir
    }

    /// The file a theme of this name is stored in.
    pub fn theme_path(&self, theme_name: &str) -> (r: String)
        ensures
            r@ == self@ + "/"@ + theme_name@ + ".toml"@,
    {
        let mut path = self.themes_dir.clone();
        path.append("/");
        path.append(theme_name);
        path.append(".toml");
        path
    }

    /// Whether a theme of this name is stored on disk.
    pub fn theme_exists(&self, theme_name: &str) -> bool {
        let path = self.theme_path(theme_name);
        path_exists(path.as_str())
    }

    /// Bundle the current palettes as a named theme.
    pub fn export_from_config(
        &self,
        name: &str,
        colors: &ColorConfig,
        tui: &TuiColorConfig,
        description: Option<String>,
        author: Option<String>,
    ) -> (r: ThemeConfig)
        ensures
            r.name@ == name@,
            r.description == description,
            r.author == author,
            crate::config::same_color_config(r.colors, *colors),
            r.tui == *tui,
    {
        ThemeConfig {
            name: name.to_owned(),
            description,
            author,
            colors: crate::config::clone_color_config(colors),
            tui: crate::config::clone_tui_colors(tui),
        }
    }
}

/// A new theme derived from a stored template: renamed, with a derived
/// description, no author, and the template's palettes unchanged.
pub fn rebrand_template(template: ThemeConfig, new_name: &str, template_name: &str) -> (r:
    ThemeConfig)
    ensures
        r.name@ == new_name@,
        (match r.description {
            Some(d) => d@ == "Custom theme based on "@ + template_name@,
            None => false,
        }),
        r.author is None,
        r.colors == template.colors,
        r.tui == template.tui,
{
    let mut theme = template;
    theme.name = new_name.to_owned();
    let mut description = "Custom theme based on ".to_owned();
    description.append(template_name);
    theme.description = Some(description);
    theme.author = None;
    theme
}

/// A hex style: the given foreground, no background, the given attributes.
pub open spec fn hex_style(s: ColorStyle, hex: Seq<char>, styles: Seq<Style>) -> bool {
    &&& match s.fg {
        Some(Color::Hex(h)) => h@ == hex,
        _ => false,
    }
    &&& s.bg is None
    &&& s.style@ == styles
}

/// A hex color value.
pub open spec fn hex_color(c: Color, hex: Seq<char>) -> bool {
    match c {
        Color::Hex(h) => h@ == hex,
        _ => false,
    }
}

fn style_hex_bold(hex: &str) -> (r: ColorStyle)
    ensures
        hex_style(r, hex@, seq![Style::Bold]),
{
    let r = ColorStyle { fg: Some(Color::Hex(hex.to_owned())), bg: None, style: vec![Style::Bold] };
    proof {
        assert(r.style@ =~= seq![Style::Bold]);
    }
    r
}

fn style_hex_plain(hex: &str) -> (r: ColorStyle)
    ensures
        hex_style(r, hex@, Seq::empty()),
{
    let r = ColorStyle { fg: Some(Color::Hex(hex.to_owned())), bg: None, style: Vec::new() };
    proof {
        assert(r.style@ =~= Seq::<Style>::empty());
    }
    r
}

fn style_hex_dimmed(hex: &str) -> (r: ColorStyle)
    ensures
        hex_style(r, hex@, seq![Style::Dimmed]),
{
    let r = ColorStyle {
        fg: Some(Color::Hex(hex.to_owned())),
        bg: None,
        style: vec![Style::Dimmed],
    };
    proof {
        assert(r.style@ =~= seq![Style::Dimmed]);
    }
    r
}

fn style_named_bold(name: ColorName) -> (r: ColorStyle)
    ensures
        is_plain_style(r, name, seq![Style::Bold]),
{
    let r = ColorStyle { fg: Some(Color::Named(name)), bg: None, style: vec![Style::Bold] };
    proof {
        assert(r.style@ =~= seq![Style::Bold]);
    }
    r
}

fn style_named_plain(name: ColorName) -> (r: ColorStyle)
    ensures
        is_plain_style(r, name, Seq::empty()),
{
    let r = ColorStyle { fg: Some(Color::Named(name)), bg: None, style: Vec::new() };
    proof {
        assert(r.style@ =~= Seq::<Style>::empty());
    }
    r
}

fn style_named_dimmed(name: ColorName) -> (r: ColorStyle)
    ensures
        is_plain_style(r, name, seq![Style::Dimmed]),
{
    let r = ColorStyle { fg: Some(Color::Named(name)), bg: None, style: vec![Style::Dimmed] };
    proof {
        assert(r.style@ =~= seq![Style::Dimmed]);
    }
    r
}

/// The stock theme of vivid named colors.
pub open spec fn is_default_theme(t: ThemeConfig) -> bool {
    &&& t.name@ == "default"@
    &&& t.description is Some
    &&& t.author is Some
    &&& is_plain_style(t.colors.error, ColorName::BrightRed, seq![Style::Bold])
    &&& is_plain_style(t.colors.warn, ColorName::BrightYellow, Seq::empty())
    &&& is_plain_style(t.colors.info, ColorName::BrightCyan, Seq::empty())
    &&& is_plain_style(t.colors.debug, ColorName::BrightBlue, Seq::empty())
    &&& is_plain_style(t.colors.system.success, ColorName::BrightGreen, seq![Style::Bold])
    &&& is_plain_style(t.colors.system.error, ColorName::BrightRed, seq![Style::Bold])
    &&& is_plain_style(t.colors.system.info, ColorName::BrightCyan, Seq::empty())
    &&& is_plain_style(t.colors.system.dim, ColorName::BrightBlack, seq![Style::Dimmed])
    &&& t.tui.header_bg == Color::Named(ColorName::Blue)
    &&& t.tui.header_fg == Color::Named(ColorName::White)
    &&& t.tui.status_bg == Color::Named(ColorName::Black)
    &&& t.tui.status_fg == Color::Named(ColorName::Green)
    &&& t.tui.border == Color::Named(ColorName::Cyan)
    &&& t.tui.selected_bg == Color::Named(ColorName::BrightBlack)
    &&& t.tui.selected_fg == Color::Named(ColorName::White)
    &&& t.tui.search_match == Color::Named(ColorName::Yellow)
    &&& t.tui.search_dimmed == Color::Named(ColorName::BrightBlack)
    &&& t.tui.help_bg == Color::Named(ColorName::Black)
    &&& t.tui.help_fg == Color::Named(ColorName::White)
}

pub fn create_default_theme() -> (r: ThemeConfig)
    ensures
        is_default_theme(r),
{
    ThemeConfig {
        name: "default".to_owned(),
        description: Some("Default color theme with vibrant colors".to_owned()),
        author: Some("mcp-log-agent".to_owned()),
        colors: ColorConfig {
            error: style_named_bold(ColorName::BrightRed),
            warn: style_named_plain(ColorName::BrightYellow),
            info: style_named_plain(ColorName::BrightCyan),
            debug: style_named_plain(ColorName::BrightBlue),
            system: SystemColorConfig {
                success: style_named_bold(ColorName::BrightGreen),
                error: style_named_bold(ColorName::BrightRed),
                info: style_named_plain(ColorName::BrightCyan),
                dim: style_named_dimmed(ColorName::BrightBlack),
            },
        },
        tui: TuiColorConfig {
            header_bg: Color::Named(ColorName::Blue),
            header_fg: Color::Named(ColorName::White),
            status_bg: Color::Named(ColorName::Black),
            status_fg: Color::Named(ColorName::Green),
            border: Color::Named(ColorName::Cyan),
            selected_bg: Color::Named(ColorName::BrightBlack),
            selected_fg: Color::Named(ColorName::White),
            search_match: Color::Named(ColorName::Yellow),
            search_dimmed: Color::Named(ColorName::BrightBlack),
            help_bg: Color::Named(ColorName::Black),
            help_fg: Color::Named(ColorName::White),
        },
    }
}

/// The four level colors and the chrome of a hex-based theme.
pub open spec fn is_hex_theme(
    t: ThemeConfig,
    name: Seq<char>,
    error: Seq<char>,
    warn: Seq<char>,
    info: Seq<char>,
    debug: Seq<char>,
    success: Seq<char>,
    dim: Seq<char>,
    chrome_bg: Seq<char>,
    chrome_fg: Seq<char>,
    border: Seq<char>,
    selected_bg: Seq<char>,
    selected_fg: Seq<char>,
    search_match: Seq<char>,
) -> bool {
    &&& t.name@ == name
    &&& t.description is Some
    &&& t.author is Some
    &&& hex_style(t.colors.error, error, seq![Style::Bold])
    &&& hex_style(t.colors.warn, warn, Seq::empty())
    &&& hex_style(t.colors.info, info, Seq::empty())
    &&& hex_style(t.colors.debug, debug, Seq::empty())
    &&& hex_style(t.colors.system.success, success, seq![Style::Bold])
    &&& hex_style(t.colors.system.error, error, seq![Style::Bold])
    &&& hex_style(t.colors.system.info, info, Seq::empty())
    &&& hex_style(t.colors.system.dim, dim, seq![Style::Dimmed])
    &&& hex_color(t.tui.header_bg, chrome_bg)
    &&& hex_color(t.tui.header_fg, chrome_fg)
    &&& hex_color(t.tui.status_bg, chrome_bg)
    &&& hex_color(t.tui.status_fg, success)
    &&& hex_color(t.tui.border, border)
    &&& hex_color(t.tui.selected_bg, selected_bg)
    &&& hex_color(t.tui.selected_fg, selected_fg)
    &&& hex_color(t.tui.search_match, search_match)
    &&& hex_color(t.tui.search_dimmed, dim)
    &&& hex_color(t.tui.help_bg, chrome_bg)
    &&& hex_color(t.tui.help_fg, chrome_fg)
}

fn hex_theme(
    name: &str,
    description: &str,
    error: &str,
    warn: &str,
    info: &str,
    debug: &str,
    success: &str,
    dim: &str,
    chrome_bg: &str,
    chrome_fg: &str,
    border: &str,
    selected_bg: &str,
    selected_fg: &str,
    search_match: &str,
) -> (r: ThemeConfig)
    ensures
        is_hex_theme(
            r,
            name@,
            error@,
            warn@,
            info@,
            debug@,
            success@,
            dim@,
            chrome_bg@,
            chrome_fg@,
            border@,
            selected_bg@,
            selected_fg@,
            search_match@,
        ),
{
    ThemeConfig {
        name: name.to_owned(),
        description: Some(description.to_owned()),
        author: Some("mcp-log-agent".to_owned()),
        colors: ColorConfig {
            error: style_hex_bold(error),
            warn: style_hex_plain(warn),
            info: style_hex_plain(info),
            debug: style_hex_plain(debug),
            system: SystemColorConfig {
                success: style_hex_bold(success),
                error: style_hex_bold(error),
                info: style_hex_plain(info),
                dim: style_hex_dimmed(dim),
            },
        },
        tui: TuiColorConfig {
            header_bg: Color::Hex(chrome_bg.to_owned()),
            header_fg: Color::Hex(chrome_fg.to_owned()),
            status_bg: Color::Hex(chrome_bg.to_owned()),
            status_fg: Color::Hex(success.to_owned()),
            border: Color::Hex(border.to_owned()),
            selected_bg: Color::Hex(selected_bg.to_owned()),
            selected_fg: Color::Hex(selected_fg.to_owned()),
            search_match: Color::Hex(search_match.to_owned()),
            search_dimmed: Color::Hex(dim.to_owned()),
            help_bg: Color::Hex(chrome_bg.to_owned()),
            help_fg: Color::Hex(chrome_fg.to_owned()),
        },
    }
}

pub fn create_dracula_theme() -> (r: ThemeConfig)
    ensures
        is_hex_theme(
            r,
            "dracula"@,
            "FF5555"@,
            "FFB86C"@,
            "8BE9FD"@,
            "BD93F9"@,
            "50FA7B"@,
            "6272A4"@,
            "282A36"@,
            "F8F8F2"@,
            "BD93F9"@,
            "44475A"@,
            "F8F8F2"@,
            "F1FA8C"@,
        ),
{
    hex_theme(
        "dracula",
        "Dracula dark theme with purple accents",
        "FF5555",
        "FFB86C",
        "8BE9FD",
        "BD93F9",
        "50FA7B",
        "6272A4",
        "282A36",
        "F8F8F2",
        "BD93F9",
        "44475A",
        "F8F8F2",
        "F1FA8C",
    )
}

pub fn create_nord_theme() -> (r: ThemeConfig)
    ensures
        is_hex_theme(
            r,
            "nord"@,
            "BF616A"@,
            "EBCB8B"@,
            "88C0D0"@,
            "81A1C1"@,
            "A3BE8C"@,
            "4C566A"@,
            "2E3440"@,
            "ECEFF4"@,
            "88C0D0"@,
            "3B4252"@,
            "ECEFF4"@,
            "EBCB8B"@,
        ),
{
    hex_theme(
        "nord",
        "Nord arctic, north-bluish color palette",
        "BF616A",
        "EBCB8B",
        "88C0D0",
        "81A1C1",
        "A3BE8C",
        "4C566A",
        "2E3440",
        "ECEFF4",
        "88C0D0",
        "3B4252",
        "ECEFF4",
        "EBCB8B",
    )
}

pub fn create_monokai_theme() -> (r: ThemeConfig)
    ensures
        is_hex_theme(
            r,
            "monokai"@,
            "F92672"@,
            "E6DB74"@,
            "66D9EF"@,
            "AE81FF"@,
            "A6E22E"@,
            "75715E"@,
            "272822"@,
            "F8F8F2"@,
            "66D9EF"@,
            "49483E"@,
            "F8F8F2"@,
            "E6DB74"@,
        ),
{
    hex_theme(
        "monokai",
        "Monokai Pro color scheme",
        "F92672",
        "E6DB74",
        "66D9EF",
        "AE81FF",
        "A6E22E",
        "75715E",
        "272822",
        "F8F8F2",
        "66D9EF",
        "49483E",
        "F8F8F2",
        "E6DB74",
    )
}

pub fn create_solarized_dark_theme() -> (r: ThemeConfig)
    ensures
        is_hex_theme(
            r,
            "solarized-dark"@,
            "DC322F"@,
            "B58900"@,
            "2AA198"@,
            "268BD2"@,
            "859900"@,
            "586E75"@,
            "002B36"@,
            "839496"@,
            "586E75"@,
            "073642"@,
            "93A1A1"@,
            "B58900"@,
        ),
{
    hex_theme(
        "solarized-dark",
        "Solarized Dark color scheme",
        "DC322F",
        "B58900",
        "2AA198",
        "268BD2",
        "859900",
        "586E75",
        "002B36",
        "839496",
        "586E75",
        "073642",
        "93A1A1",
        "B58900",
    )
}

/// The monochrome theme of named grays.
pub open spec fn is_minimal_theme(t: ThemeConfig) -> bool {
    &&& t.name@ == "minimal"@
    &&& t.description is Some
    &&& t.author is Some
    &&& is_plain_style(t.colors.error, ColorName::White, seq![Style::Bold])
    &&& is_plain_style(t.colors.warn, ColorName::White, Seq::empty())
    &&& is_plain_style(t.colors.info, ColorName::White, Seq::empty())
    &&& is_plain_style(t.colors.debug, ColorName::BrightBlack, Seq::empty())
    &&& is_plain_style(t.colors.system.success, ColorName::White, seq![Style::Bold])
    &&& is_plain_style(t.colors.system.error, ColorName::White, seq![Style::Bold])
    &&& is_plain_style(t.colors.system.info, ColorName::White, Seq::empty())
    &&& is_plain_style(t.colors.system.dim, ColorName::BrightBlack, seq![Style::Dimmed])
    &&& t.tui.header_bg == Color::Named(ColorName::Black)
    &&& t.tui.header_fg == Color::Named(ColorName::White)
    &&& t.tui.border == Color::Named(ColorName::BrightBlack)
    &&& t.tui.selected_bg == Color::Named(ColorName::BrightBlack)
    &&& t.tui.search_match == Color::Named(ColorName::White)
    &&& t.tui.search_dimmed == Color::Named(ColorName::BrightBlack)
}

pub fn create_minimal_theme() -> (r: ThemeConfig)
    ensures
        is_minimal_theme(r),
{
    ThemeConfig {
        name: "minimal".to_owned(),
        description: Some("Minimal monochrome theme".to_owned()),
        author: Some("mcp-log-agent".to_owned()),
        colors: ColorConfig {
            error: style_named_bold(ColorName::White),
            warn: style_named_plain(ColorName::White),
            info: style_named_plain(ColorName::White),
            debug: style_named_plain(ColorName::BrightBlack),
            system: SystemColorConfig {
                success: style_named_bold(ColorName::White),
                error: style_named_bold(ColorName::White),
                info: style_named_plain(ColorName::White),
                dim: style_named_dimmed(ColorName::BrightBlack),
            },
        },
        tui: TuiColorConfig {
            header_bg: Color::Named(ColorName::Black),
            header_fg: Color::Named(ColorName::White),
            status_bg: Color::Named(ColorName::Black),
            status_fg: Color::Named(ColorName::White),
            border: Color::Named(ColorName::BrightBlack),
            selected_bg: Color::Named(ColorName::BrightBlack),
            selected_fg: Color::Named(ColorName::White),
            search_match: Color::Named(ColorName::White),
            search_dimmed: Color::Named(ColorName::BrightBlack),
            help_bg: Color::Named(ColorName::Black),
            help_fg: Color::Named(ColorName::White),
        },
    }
}

/// The fallback theme used when no theme file can be loaded: the default
/// palettes under the name `fallback`.
pub fn create_fallback_theme() -> (r: ThemeConfig)
    ensures
        r.name@ == "fallback"@,
        r.description is None,
        r.author is None,
        crate::config::is_default_colors(r.colors),
        crate::config::is_default_tui_colors(r.tui),
{
    ThemeConfig {
        name: "fallback".to_owned(),
        description: None,
        author: None,
        colors: ColorConfig::default(),
        tui: TuiColorConfig::default(),
    }
}

} // verus!
