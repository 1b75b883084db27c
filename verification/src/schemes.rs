//! Built-in color schemes for log output, selectable by name.

use vstd::prelude::*;

use crate::config::{
    is_bg_style, is_default_colors, is_plain_style, Color, ColorConfig, ColorName, ColorStyle,
    Style, SystemColorConfig,
};
use crate::text::str_eq_str;
use crate::types::{lower_of, to_lower};

verus! {

broadcast use vstd::string::group_string_axioms;

/// The default scheme: red errors, yellow warnings.
pub fn default() -> (r: ColorConfig)
    ensures
        is_default_colors(r),
{
    ColorConfig::default()
}

/// The Solarized Dark palette.
pub open spec fn is_solarized_dark(c: ColorConfig) -> bool {
    &&& is_plain_style(c.error, ColorName::BrightRed, seq![Style::Bold])
    &&& is_plain_style(c.warn, ColorName::BrightYellow, Seq::empty())
    &&& is_plain_style(c.debug, ColorName::Cyan, Seq::empty())
    &&& is_plain_style(c.info, ColorName::BrightWhite, Seq::empty())
    &&& is_plain_style(c.system.success, ColorName::Green, Seq::empty())
    &&& is_plain_style(c.system.error, ColorName::BrightRed, seq![Style::Bold])
    &&& is_plain_style(c.system.info, ColorName::BrightCyan, Seq::empty())
    &&& is_plain_style(c.system.dim, ColorName::BrightBlack, seq![Style::Italic])
}

pub fn solarized_dark() -> (r: ColorConfig)
    ensures
        is_solarized_dark(r),
{
    let r = ColorConfig {
        error: ColorStyle {
            fg: Some(Color::Named(ColorName::BrightRed)),
            bg: None,
            style: vec![Style::Bold],
        },
        warn: ColorStyle {
            fg: Some(Color::Named(ColorName::BrightYellow)),
            bg: None,
            style: Vec::new(),
        },
        debug: ColorStyle { fg: Some(Color::Named(ColorName::Cyan)), bg: None, style: Vec::new() },
        info: ColorStyle {
            fg: Some(Color::Named(ColorName::BrightWhite)),
            bg: None,
            style: Vec::new(),
        },
        system: SystemColorConfig {
            success: ColorStyle {
                fg: Some(Color::Named(ColorName::Green)),
                bg: None,
                style: Vec::new(),
            },
            error: ColorStyle {
                fg: Some(Color::Named(ColorName::BrightRed)),
                bg: None,
                style: vec![Style::Bold],
            },
            info: ColorStyle {
                fg: Some(Color::Named(ColorName::BrightCyan)),
                bg: None,
                style: Vec::new(),
            },
            dim: ColorStyle {
                fg: Some(Color::Named(ColorName::BrightBlack)),
                bg: None,
                style: vec![Style::Italic],
            },
        },
    };
    proof {
        assert(r.error.style@ =~= seq![Style::Bold]);
        assert(r.warn.style@ =~= Seq::<Style>::empty());
        assert(r.debug.style@ =~= Seq::<Style>::empty());
        assert(r.info.style@ =~= Seq::<Style>::empty());
        assert(r.system.success.style@ =~= Seq::<Style>::empty());
        assert(r.system.error.style@ =~= seq![Style::Bold]);
        assert(r.system.info.style@ =~= Seq::<Style>::empty());
        assert(r.system.dim.style@ =~= seq![Style::Italic]);
    }
    r
}

/// The high-contrast palette: every class on a black background.
pub open spec fn is_high_contrast(c: ColorConfig) -> bool {
    &&& is_bg_style(c.error, ColorName::Red, ColorName::Black, seq![Style::Bold, Style::Underline])
    &&& is_bg_style(c.warn, ColorName::Yellow, ColorName::Black, seq![Style::Bold])
    &&& is_bg_style(c.debug, ColorName::Cyan, ColorName::Black, Seq::empty())
    &&& is_bg_style(c.info, ColorName::White, ColorName::Black, Seq::empty())
    &&& is_bg_style(c.system.success, ColorName::Green, ColorName::Black, seq![Style::Bold])
    &&& is_bg_style(c.system.error, ColorName::Red, ColorName::Black, seq![Style::Bold])
    &&& is_bg_style(c.system.info, ColorName::Cyan, ColorName::Black, Seq::empty())
    &&& is_bg_style(c.system.dim, ColorName::BrightBlack, ColorName::Black, Seq::empty())
}

pub fn high_contrast() -> (r: ColorConfig)
    ensures
        is_high_contrast(r),
{
    let r = ColorConfig {
        error: ColorStyle {
            fg: Some(Color::Named(ColorName::Red)),
            bg: Some(Color::Named(ColorName::Black)),
            style: vec![Style::Bold, Style::Underline],
        },
        warn: ColorStyle {
            fg: Some(Color::Named(ColorName::Yellow)),
            bg: Some(Color::Named(ColorName::Black)),
            style: vec![Style::Bold],
        },
        debug: ColorStyle {
            fg: Some(Color::Named(ColorName::Cyan)),
            bg: Some(Color::Named(ColorName::Black)),
            style: Vec::new(),
        },
        info: ColorStyle {
            fg: Some(Color::Named(ColorName::White)),
            bg: Some(Color::Named(ColorName::Black)),
            style: Vec::new(),
        },
        system: SystemColorConfig {
            success: ColorStyle {
                fg: Some(Color::Named(ColorName::Green)),
                bg: Some(Color::Named(ColorName::Black)),
                style: vec![Style::Bold],
            },
            error: ColorStyle {
                fg: Some(Color::Named(ColorName::Red)),
                bg: Some(Color::Named(ColorName::Black)),
                style: vec![Style::Bold],
            },
            info: ColorStyle {
                fg: Some(Color::Named(ColorName::Cyan)),
                bg: Some(Color::Named(ColorName::Black)),
                style: Vec::new(),
            },
            dim: ColorStyle {
                fg: Some(Color::Named(ColorName::BrightBlack)),
                bg: Some(Color::Named(ColorName::Black)),
                style: Vec::new(),
            },
        },
    };
    proof {
        assert(r.error.style@ =~= seq![Style::Bold, Style::Underline]);
        assert(r.warn.style@ =~= seq![Style::Bold]);
        assert(r.debug.style@ =~= Seq::<Style>::empty());
        assert(r.info.style@ =~= Seq::<Style>::empty());
        assert(r.system.success.style@ =~= seq![Style::Bold]);
        assert(r.system.error.style@ =~= seq![Style::Bold]);
        assert(r.system.info.style@ =~= Seq::<Style>::empty());
        assert(r.system.dim.style@ =~= Seq::<Style>::empty());
    }
    r
}

/// The minimal palette: soft colors, nothing bold.
pub open spec fn is_minimal(c: ColorConfig) -> bool {
    &&& is_plain_style(c.error, ColorName::BrightRed, Seq::empty())
    &&& is_plain_style(c.warn, ColorName::BrightYellow, Seq::empty())
    &&& is_plain_style(c.debug, ColorName::BrightBlue, Seq::empty())
    &&& is_plain_style(c.info, ColorName::White, Seq::empty())
    &&& is_plain_style(c.system.success, ColorName::BrightGreen, Seq::empty())
    &&& is_plain_style(c.system.error, ColorName::BrightRed, Seq::empty())
    &&& is_plain_style(c.system.info, ColorName::BrightCyan, Seq::empty())
    &&& is_plain_style(c.system.dim, ColorName::BrightBlack, Seq::empty())
}

pub fn minimal() -> (r: ColorConfig)
    ensures
        is_minimal(r),
{
    let r = ColorConfig {
        error: ColorStyle {
            fg: Some(Color::Named(ColorName::BrightRed)),
            bg: None,
            style: Vec::new(),
        },
        warn: ColorStyle {
            fg: Some(Color::Named(ColorName::BrightYellow)),
            bg: None,
            style: Vec::new(),
        },
        debug: ColorStyle {
            fg: Some(Color::Named(ColorName::BrightBlue)),
            bg: None,
            style: Vec::new(),
        },
        info: ColorStyle { fg: Some(Color::Named(ColorName::White)), bg: None, style: Vec::new() },
        system: SystemColorConfig {
            success: ColorStyle {
                fg: Some(Color::Named(ColorName::BrightGreen)),
                bg: None,
                style: Vec::new(),
            },
            error: ColorStyle {
                fg: Some(Color::Named(ColorName::BrightRed)),
                bg: None,
                style: Vec::new(),
            },
            info: ColorStyle {
                fg: Some(Color::Named(ColorName::BrightCyan)),
                bg: None,
                style: Vec::new(),
            },
            dim: ColorStyle {
                fg: Some(Color::Named(ColorName::BrightBlack)),
                bg: None,
                style: Vec::new(),
            },
        },
    };
    proof {
        assert(r.error.style@ =~= Seq::<Style>::empty());
        assert(r.warn.style@ =~= Seq::<Style>::empty());
        assert(r.debug.style@ =~= Seq::<Style>::empty());
        assert(r.info.style@ =~= Seq::<Style>::empty());
        assert(r.system.success.style@ =~= Seq::<Style>::empty());
        assert(r.system.error.style@ =~= Seq::<Style>::empty());
        assert(r.system.info.style@ =~= Seq::<Style>::empty());
        assert(r.system.dim.style@ =~= Seq::<Style>::empty());
    }
    r
}

/// The monochrome palette: shades of gray only.
pub open spec fn is_monochrome(c: ColorConfig) -> bool {
    &&& is_plain_style(c.error, ColorName::White, seq![Style::Bold, Style::Underline])
    &&& is_plain_style(c.warn, ColorName::BrightWhite, seq![Style::Bold])
    &&& is_plain_style(c.debug, ColorName::BrightBlack, Seq::empty())
    &&& is_plain_style(c.info, ColorName::White, Seq::empty())
    &&& is_plain_style(c.system.success, ColorName::BrightWhite, seq![Style::Bold])
    &&& is_plain_style(c.system.error, ColorName::White, seq![Style::Bold, Style::Underline])
    &&& is_plain_style(c.system.info, ColorName::White, Seq::empty())
    &&& is_plain_style(c.system.dim, ColorName::BrightBlack, seq![Style::Dimmed])
}

pub fn monochrome() -> (r: ColorConfig)
    ensures
        is_monochrome(r),
{
    let r = ColorConfig {
        error: ColorStyle {
            fg: Some(Color::Named(ColorName::White)),
            bg: None,
            style: vec![Style::Bold, Style::Underline],
        },
        warn: ColorStyle {
            fg: Some(Color::Named(ColorName::BrightWhite)),
            bg: None,
            style: vec![Style::Bold],
        },
        debug: ColorStyle {
            fg: Some(Color::Named(ColorName::BrightBlack)),
            bg: None,
            style: Vec::new(),
        },
        info: ColorStyle { fg: Some(Color::Named(ColorName::White)), bg: None, style: Vec::new() },
        system: SystemColorConfig {
            success: ColorStyle {
                fg: Some(Color::Named(ColorName::BrightWhite)),
                bg: None,
                style: vec![Style::Bold],
            },
            error: ColorStyle {
                fg: Some(Color::Named(ColorName::White)),
                bg: None,
                style: vec![Style::Bold, Style::Underline],
            },
            info: ColorStyle {
                fg: Some(Color::Named(ColorName::White)),
                bg: None,
                style: Vec::new(),
            },
            dim: ColorStyle {
                fg: Some(Color::Named(ColorName::BrightBlack)),
                bg: None,
                style: vec![Style::Dimmed],
            },
        },
    };
    proof {
        assert(r.error.style@ =~= seq![Style::Bold, Style::Underline]);
        assert(r.warn.style@ =~= seq![Style::Bold]);
        assert(r.debug.style@ =~= Seq::<Style>::empty());
        assert(r.info.style@ =~= Seq::<Style>::empty());
        assert(r.system.success.style@ =~= seq![Style::Bold]);
        assert(r.system.error.style@ =~= seq![Style::Bold, Style::Underline]);
        assert(r.system.info.style@ =~= Seq::<Style>::empty());
        assert(r.system.dim.style@ =~= seq![Style::Dimmed]);
    }
    r
}

/// Whether a scheme of this (case-folded) name exists.
pub open spec fn known_scheme(lower: Seq<char>) -> bool {
    ||| lower == "default"@
    ||| lower == "solarized-dark"@
    ||| lower == "solarized_dark"@
    ||| lower == "high-contrast"@
    ||| lower == "high_contrast"@
    ||| lower == "minimal"@
    ||| lower == "monochrome"@
}

/// Look a scheme up by name, case-insensitively.
pub fn get_scheme(name: &str) -> (r: Option<ColorConfig>)
    ensures
        r is Some <==> known_scheme(lower_of(name@)),
        lower_of(name@) == "default"@ ==> (match r {
            Some(c) => is_default_colors(c),
            None => false,
        }),
        (lower_of(name@) == "solarized-dark"@ || lower_of(name@) == "solarized_dark"@) ==> (
        match r {
            Some(c) => is_solarized_dark(c),
            None => false,
        }),
        (lower_of(name@) == "high-contrast"@ || lower_of(name@) == "high_contrast"@) ==> (match r {
            Some(c) => is_high_contrast(c),
            None => false,
        }),
        lower_of(name@) == "minimal"@ ==> (match r {
            Some(c) => is_minimal(c),
            None => false,
        }),
        lower_of(name@) == "monochrome"@ ==> (match r {
            Some(c) => is_monochrome(c),
            None => false,
        }),
{
    proof {
        reveal_strlit("default");
        reveal_strlit("solarized-dark");
        reveal_strlit("solarized_dark");
        reveal_strlit("high-contrast");
        reveal_strlit("high_contrast");
        reveal_strlit("minimal");
        reveal_strlit("monochrome");
        assert("default"@ != "minimal"@) by {
            assert("default"@[0] != "minimal"@[0]);
        }
        assert("solarized-dark"@ != "solarized_dark"@) by {
            assert("solarized-dark"@[9] != "solarized_dark"@[9]);
        }
        assert("high-contrast"@ != "high_contrast"@) by {
            assert("high-contrast"@[4] != "high_contrast"@[4]);
        }
        assert("default"@.len() == 7 && "solarized-dark"@.len() == 14 && "solarized_dark"@.len()
            == 14 && "high-contrast"@.len() == 13 && "high_contrast"@.len() == 13
            && "minimal"@.len() == 7 && "monochrome"@.len() == 10);
    }
    let lower = to_lower(name);
    let l = lower.as_str();
    if str_eq_str(l, "default") {
        Some(default())
    } else if str_eq_str(l, "solarized-dark") || str_eq_str(l, "solarized_dark") {
        Some(solarized_dark())
    } else if str_eq_str(l, "high-contrast") || str_eq_str(l, "high_contrast") {
        Some(high_contrast())
    } else if str_eq_str(l, "minimal") {
        Some(minimal())
    } else if str_eq_str(l, "monochrome") {
        Some(monochrome())
    } else {
        None
    }
}

/// The selectable scheme names, each with a short description.
pub fn list_schemes() -> (r: Vec<(&'static str, &'static str)>)
    ensures
        r@.len() == 5,
        r@[0].0@ == "default"@,
        r@[1].0@ == "solarized-dark"@,
        r@[2].0@ == "high-contrast"@,
        r@[3].0@ == "minimal"@,
        r@[4].0@ == "monochrome"@,
{
    let mut out: Vec<(&'static str, &'static str)> = Vec::new();
    out.push(("default", "Default colors (red errors, yellow warnings)"));
    out.push(("solarized-dark", "Solarized Dark theme"));
    out.push(("high-contrast", "High contrast for accessibility"));
    out.push(("minimal", "Minimal colors, no bold"));
    out.push(("monochrome", "Shades of gray only"));
    out
}

} // verus!
