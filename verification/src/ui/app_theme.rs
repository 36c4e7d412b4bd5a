//! Application themes: the light/dark mode, the built-in themes and their
//! terminal palettes, and the manager that switches between them.

use vstd::prelude::*;
use vstd::string::*;

use crate::text::{contains_seq, eq_ignore_ascii_case, eq_ignore_ascii_case_spec, lowercase_of, owned, str_contains, to_lowercase, trim, trim_spec};

verus! {

/// Light, dark, or whatever the system uses.
#[derive(Debug, Clone, Copy, PartialEq, Eq, Structural)]
pub enum ThemeMode {
    Light,
    Dark,
    /// Follow the system's setting.
    System,
}

impl ThemeMode {
    /// The mode's label.
    pub fn display_name(&self) -> (r: &'static str)
        ensures
            r@ == (match *self {
                ThemeMode::Light => "Light"@,
                ThemeMode::Dark => "Dark"@,
                ThemeMode::System => "System"@,
            }),
    {
        match self {
            ThemeMode::Light => "Light",
            ThemeMode::Dark => "Dark",
            ThemeMode::System => "System",
        }
    }

    /// Whether the mode is dark; `System` follows `system_is_dark`, what
    /// the system reports.
    pub fn is_dark(&self, system_is_dark: bool) -> (r: bool)
        ensures
            r == (match *self {
                ThemeMode::Light => false,
                ThemeMode::Dark => true,
                ThemeMode::System => system_is_dark,
            }),
    {
        match self {
            ThemeMode::Light => false,
            ThemeMode::Dark => true,
            ThemeMode::System => system_is_dark,
        }
    }
}

impl Default for ThemeMode {
    fn default() -> (r: Self)
        ensures
            r == ThemeMode::Dark,
    {
        ThemeMode::Dark
    }
}

/// What the Windows registry query for `AppsUseLightTheme` says about dark
/// mode: dark for `0x0`, light for `0x1`, dark when the output says neither
/// or the query could not run (`None`).
pub fn windows_dark_mode_from(output: Option<&str>) -> (r: bool)
    ensures
        r == (match output {
            Some(s) => contains_seq(s@, "0x0"@) || !contains_seq(s@, "0x1"@),
            None => true,
        }),
{
    match output {
        Some(s) => {
            if str_contains(s, "0x0") {
                true
            } else if str_contains(s, "0x1") {
                false
            } else {
                true
            }
        },
        None => true,
    }
}

/// What `defaults read -g AppleInterfaceStyle` says about dark mode: dark
/// when its output, trimmed, is `dark` in any ASCII case, light for any
/// other output; when the query could not run (`None`), detection failed
/// and dark mode is assumed.
pub fn macos_dark_mode_from(output: Option<&str>) -> (r: bool)
    ensures
        r == (match output {
            Some(s) => eq_ignore_ascii_case_spec(trim_spec(s@), "dark"@),
            None => true,
        }),
{
    match output {
        Some(s) => {
            let t = trim(s);
            eq_ignore_ascii_case(t.as_str(), "dark")
        },
        None => true,
    }
}

/// The Linux dark mode rule over what the sources said: the desktop
/// portal's `color-scheme` (dark for `uint32 1`, light for `uint32 2`),
/// else the `GTK_THEME` variable (dark when its lowercase holds `dark`),
/// else GNOME's `color-scheme` setting (dark for `prefer-dark`, light for
/// `prefer-light` or `default`), else dark. `None` is a source that gave
/// nothing.
pub open spec fn linux_dark_mode(portal: Option<Seq<char>>, gtk_theme: Option<Seq<char>>, gsettings: Option<Seq<char>>) -> bool {
    let portal_says = match portal {
        Some(p) => if contains_seq(p, "uint32 1"@) {
            Some(true)
        } else if contains_seq(p, "uint32 2"@) {
            Some(false)
        } else {
            None
        },
        None => None,
    };
    match portal_says {
        Some(d) => d,
        None => match gtk_theme {
            Some(g) => contains_seq(lowercase_of(g), "dark"@),
            None => match gsettings {
                Some(q) => if contains_seq(q, "prefer-dark"@) {
                    true
                } else {
                    !(contains_seq(q, "prefer-light"@) || contains_seq(q, "default"@))
                },
                None => true,
            },
        },
    }
}

/// The text of an optional string.
pub open spec fn opt_view(o: Option<&str>) -> Option<Seq<char>> {
    match o {
        Some(s) => Some(s@),
        None => None,
    }
}

/// Applies the Linux dark mode rule to what the desktop portal, the
/// `GTK_THEME` variable and GNOME's settings said.
pub fn linux_dark_mode_from(portal: Option<&str>, gtk_theme: Option<&str>, gsettings: Option<&str>) -> (r: bool)
    ensures
        r == linux_dark_mode(opt_view(portal), opt_view(gtk_theme), opt_view(gsettings)),
{
    if let Some(p) = portal {
        if str_contains(p, "uint32 1") {
            return true;
        } else if str_contains(p, "uint32 2") {
            return false;
        }
    }
    if let Some(g) = gtk_theme {
        let lower = to_lowercase(g);
        return str_contains(lower.as_str(), "dark");
    }
    if let Some(q) = gsettings {
        if str_contains(q, "prefer-dark") {
            return true;
        } else if str_contains(q, "prefer-light") || str_contains(q, "default") {
            return false;
        }
    }
    true
}

/// The built-in themes.
#[derive(Debug, Clone, Copy, PartialEq, Eq, Structural)]
pub enum BuiltinTheme {
    Dark,
    Light,
    Dracula,
    OneDark,
    SolarizedDark,
    SolarizedLight,
    Nord,
    Monokai,
    GruvboxDark,
    TokyoNight,
}

impl Default for BuiltinTheme {
    fn default() -> (r: Self)
        ensures
            r == BuiltinTheme::Dark,
    {
        BuiltinTheme::Dark
    }
}

/// The themes in the order the application cycles through them.
pub open spec fn all_themes() -> Seq<BuiltinTheme> {
    seq![
        BuiltinTheme::Dark,
        BuiltinTheme::Light,
        BuiltinTheme::Dracula,
        BuiltinTheme::OneDark,
        BuiltinTheme::SolarizedDark,
        BuiltinTheme::SolarizedLight,
        BuiltinTheme::Nord,
        BuiltinTheme::Monokai,
        BuiltinTheme::GruvboxDark,
        BuiltinTheme::TokyoNight,
    ]
}

/// The place of a theme in `all_themes`.
pub open spec fn theme_index(t: BuiltinTheme) -> int {
    match t {
        BuiltinTheme::Dark => 0,
        BuiltinTheme::Light => 1,
        BuiltinTheme::Dracula => 2,
        BuiltinTheme::OneDark => 3,
        BuiltinTheme::SolarizedDark => 4,
        BuiltinTheme::SolarizedLight => 5,
        BuiltinTheme::Nord => 6,
        BuiltinTheme::Monokai => 7,
        BuiltinTheme::GruvboxDark => 8,
        BuiltinTheme::TokyoNight => 9,
    }
}

/// Whether a theme is dark: all are but the two light ones.
pub open spec fn theme_is_dark(t: BuiltinTheme) -> bool {
    t != BuiltinTheme::Light && t != BuiltinTheme::SolarizedLight
}

/// The theme's name.
pub open spec fn theme_name(t: BuiltinTheme) -> Seq<char> {
    match t {
        BuiltinTheme::Dark => "Dark"@,
        BuiltinTheme::Light => "Light"@,
        BuiltinTheme::Dracula => "Dracula"@,
        BuiltinTheme::OneDark => "One Dark"@,
        BuiltinTheme::SolarizedDark => "Solarized Dark"@,
        BuiltinTheme::SolarizedLight => "Solarized Light"@,
        BuiltinTheme::Nord => "Nord"@,
        BuiltinTheme::Monokai => "Monokai"@,
        BuiltinTheme::GruvboxDark => "Gruvbox Dark"@,
        BuiltinTheme::TokyoNight => "Tokyo Night"@,
    }
}

/// The colors that this module defines for a theme (`None` for the themes
/// whose palettes the terminal view defines).
pub open spec fn builtin_colors(t: BuiltinTheme) -> Option<Seq<Rgb>> {
    match t {
        BuiltinTheme::SolarizedLight => Some(solarized_light_colors()),
        BuiltinTheme::Nord => Some(nord_colors()),
        BuiltinTheme::Monokai => Some(monokai_colors()),
        BuiltinTheme::GruvboxDark => Some(gruvbox_dark_colors()),
        BuiltinTheme::TokyoNight => Some(tokyo_night_colors()),
        _ => None,
    }
}

proof fn lemma_all_themes_index(t: BuiltinTheme)
    ensures
        0 <= theme_index(t) < 10,
        all_themes()[theme_index(t)] == t,
        all_themes().len() == 10,
{
}

impl BuiltinTheme {
    /// The theme's label.
    pub fn display_name(&self) -> (r: &'static str)
        ensures
            r@ == theme_name(*self),
    {
        match self {
            BuiltinTheme::Dark => "Dark",
            BuiltinTheme::Light => "Light",
            BuiltinTheme::Dracula => "Dracula",
            BuiltinTheme::OneDark => "One Dark",
            BuiltinTheme::SolarizedDark => "Solarized Dark",
            BuiltinTheme::SolarizedLight => "Solarized Light",
            BuiltinTheme::Nord => "Nord",
            BuiltinTheme::Monokai => "Monokai",
            BuiltinTheme::GruvboxDark => "Gruvbox Dark",
            BuiltinTheme::TokyoNight => "Tokyo Night",
        }
    }

    /// Whether the theme is dark.
    pub fn is_dark(&self) -> (r: bool)
        ensures
            r == theme_is_dark(*self),
    {
        match self {
            BuiltinTheme::Light | BuiltinTheme::SolarizedLight => false,
            _ => true,
        }
    }

    /// Every built-in theme, in cycling order.
    pub fn all() -> (r: Vec<BuiltinTheme>)
        ensures
            r@ == all_themes(),
    {
        let r = vec![
            BuiltinTheme::Dark,
            BuiltinTheme::Light,
            BuiltinTheme::Dracula,
            BuiltinTheme::OneDark,
            BuiltinTheme::SolarizedDark,
            BuiltinTheme::SolarizedLight,
            BuiltinTheme::Nord,
            BuiltinTheme::Monokai,
            BuiltinTheme::GruvboxDark,
            BuiltinTheme::TokyoNight,
        ];
        proof {
            assert(r@ =~= all_themes());
        }
        r
    }

    /// The dark themes, in cycling order.
    pub fn dark_themes() -> (r: Vec<BuiltinTheme>)
        ensures
            r@ == all_themes().filter(|t: BuiltinTheme| theme_is_dark(t)),
            forall|i: int| 0 <= i < r@.len() ==> theme_is_dark(#[trigger] r@[i]),
    {
        let r = themes_where(true);
        proof {
            assert((|t: BuiltinTheme| theme_is_dark(t) == true) =~= (|t: BuiltinTheme| theme_is_dark(t)));
            assert forall|i: int| 0 <= i < r@.len() implies theme_is_dark(#[trigger] r@[i]) by {
                all_themes().lemma_filter_pred(|t: BuiltinTheme| theme_is_dark(t), i);
            }
        }
        r
    }

    /// The light themes, in cycling order.
    pub fn light_themes() -> (r: Vec<BuiltinTheme>)
        ensures
            r@ == all_themes().filter(|t: BuiltinTheme| !theme_is_dark(t)),
            forall|i: int| 0 <= i < r@.len() ==> !theme_is_dark(#[trigger] r@[i]),
    {
        let r = themes_where(false);
        proof {
            assert((|t: BuiltinTheme| theme_is_dark(t) == false) =~= (|t: BuiltinTheme| !theme_is_dark(t)));
            assert forall|i: int| 0 <= i < r@.len() implies !theme_is_dark(#[trigger] r@[i]) by {
                all_themes().lemma_filter_pred(|t: BuiltinTheme| !theme_is_dark(t), i);
            }
        }
        r
    }

    /// The terminal theme of this theme: its name and darkness, and the
    /// colors that `builtin_colors` gives where it gives them.
    pub fn to_terminal_theme(&self) -> (r: TerminalTheme)
        ensures
            r.name@ == theme_name(*self),
            r.is_dark == theme_is_dark(*self),
            match builtin_colors(*self) {
                Some(cs) => r.colors matches Some(c) && colors_seq(c) == cs && c.selection.foreground is None,
                None => r.colors is None,
            },
    {
        match self {
            BuiltinTheme::Dark => TerminalTheme::named(owned("Dark"), true),
            BuiltinTheme::Light => TerminalTheme::named(owned("Light"), false),
            BuiltinTheme::Dracula => TerminalTheme::named(owned("Dracula"), true),
            BuiltinTheme::OneDark => TerminalTheme::named(owned("One Dark"), true),
            BuiltinTheme::SolarizedDark => TerminalTheme::named(owned("Solarized Dark"), true),
            BuiltinTheme::SolarizedLight => create_solarized_light(),
            BuiltinTheme::Nord => create_nord_theme(),
            BuiltinTheme::Monokai => create_monokai_theme(),
            BuiltinTheme::GruvboxDark => create_gruvbox_dark_theme(),
            BuiltinTheme::TokyoNight => create_tokyo_night_theme(),
        }
    }
}

fn themes_where(dark: bool) -> (r: Vec<BuiltinTheme>)
    ensures
        r@ == all_themes().filter(|t: BuiltinTheme| theme_is_dark(t) == dark),
{
    let all = BuiltinTheme::all();
    let ghost p = |t: BuiltinTheme| theme_is_dark(t) == dark;
    let mut r: Vec<BuiltinTheme> = Vec::new();
    let mut i: usize = 0;
    while i < all.len()
        invariant
            all@ == all_themes(),
            0 <= i <= all@.len(),
            p == (|t: BuiltinTheme| theme_is_dark(t) == dark),
            r@ == all@.subrange(0, i as int).filter(p),
        decreases all@.len() - i,
    {
        let t = all[i];
        proof {
            assert(all@.subrange(0, i + 1) =~= all@.subrange(0, i as int).push(t));
            crate::seqs::lemma_filter_push(all@.subrange(0, i as int), p, t);
        }
        if t.is_dark() == dark {
            r.push(t);
        }
        i = i + 1;
    }
    proof {
        assert(all@.subrange(0, i as int) =~= all@);
        assert(p =~= (|t: BuiltinTheme| theme_is_dark(t) == dark));
    }
    r
}

/// An RGB color.
#[derive(Debug, Clone, Copy, PartialEq, Eq, Structural)]
pub struct Rgb {
    pub r: u8,
    pub g: u8,
    pub b: u8,
}

/// The color with the given channels.
pub open spec fn rgb(r: u8, g: u8, b: u8) -> Rgb {
    Rgb { r, g, b }
}

impl Rgb {
    /// The color with the given channels.
    pub fn new(r: u8, g: u8, b: u8) -> (c: Rgb)
        ensures
            c == rgb(r, g, b),
    {
        Rgb { r, g, b }
    }
}

/// The sixteen ANSI colors and the default foreground and background.
#[derive(Debug)]
pub struct ColorPalette {
    pub base_colors: Vec<Rgb>,
    pub foreground: Rgb,
    pub background: Rgb,
}

/// The cursor's colors.
#[derive(Debug, Clone, Copy)]
pub struct CursorColors {
    pub color: Rgb,
    pub text_color: Rgb,
}

/// The selection's colors (no foreground: the text keeps its own).
#[derive(Debug, Clone, Copy)]
pub struct SelectionColors {
    pub background: Rgb,
    pub foreground: Option<Rgb>,
}

/// The colors of the terminal's chrome.
#[derive(Debug, Clone, Copy)]
pub struct UiColors {
    pub border: Rgb,
    pub scrollbar: Rgb,
    pub scrollbar_hover: Rgb,
    pub search_match: Rgb,
    pub search_match_active: Rgb,
}

/// Every color of a terminal theme.
#[derive(Debug)]
pub struct ThemeColors {
    pub palette: ColorPalette,
    pub cursor: CursorColors,
    pub selection: SelectionColors,
    pub ui: UiColors,
}

/// The colors of a theme in a fixed order: the sixteen ANSI colors, the
/// foreground, the background, the cursor and its text, the selection
/// background, then border, scrollbar, hovered scrollbar, search match and
/// active search match.
pub open spec fn colors_seq(c: ThemeColors) -> Seq<Rgb> {
    c.palette.base_colors@ + seq![
        c.palette.foreground,
        c.palette.background,
        c.cursor.color,
        c.cursor.text_color,
        c.selection.background,
        c.ui.border,
        c.ui.scrollbar,
        c.ui.scrollbar_hover,
        c.ui.search_match,
        c.ui.search_match_active,
    ]
}

/// A terminal theme: a name, whether it is dark, and its colors. A theme
/// without colors is one whose palette the terminal view defines under
/// its name.
#[derive(Debug)]
pub struct TerminalTheme {
    pub name: String,
    pub is_dark: bool,
    pub colors: Option<ThemeColors>,
}

impl TerminalTheme {
    /// A theme that the terminal view knows by name.
    pub fn named(name: String, is_dark: bool) -> (t: TerminalTheme)
        ensures
            t.name == name,
            t.is_dark == is_dark,
            t.colors is None,
    {
        TerminalTheme { name, is_dark, colors: None }
    }
}

/// The colors of the Solarized Light theme, in the order of `colors_seq`.
pub open spec fn solarized_light_colors() -> Seq<Rgb> {
    seq![
        rgb(0x07, 0x36, 0x42),
        rgb(0xdc, 0x32, 0x2f),
        rgb(0x85, 0x99, 0x00),
        rgb(0xb5, 0x89, 0x00),
        rgb(0x26, 0x8b, 0xd2),
        rgb(0xd3, 0x36, 0x82),
        rgb(0x2a, 0xa1, 0x98),
        rgb(0xee, 0xe8, 0xd5),
        rgb(0x00, 0x2b, 0x36),
        rgb(0xcb, 0x4b, 0x16),
        rgb(0x58, 0x6e, 0x75),
        rgb(0x65, 0x7b, 0x83),
        rgb(0x83, 0x94, 0x96),
        rgb(0x6c, 0x71, 0xc4),
        rgb(0x93, 0xa1, 0xa1),
        rgb(0xfd, 0xf6, 0xe3),
        rgb(0x65, 0x7b, 0x83),
        rgb(0xfd, 0xf6, 0xe3),
        rgb(0x65, 0x7b, 0x83),
        rgb(0xfd, 0xf6, 0xe3),
        rgb(0xee, 0xe8, 0xd5),
        rgb(0xee, 0xe8, 0xd5),
        rgb(0x93, 0xa1, 0xa1),
        rgb(0x83, 0x94, 0x96),
        rgb(0xb5, 0x89, 0x00),
        rgb(0xcb, 0x4b, 0x16),
    ]
}

/// The colors of the Nord theme, in the order of `colors_seq`.
pub open spec fn nord_colors() -> Seq<Rgb> {
    seq![
        rgb(0x3b, 0x42, 0x52),
        rgb(0xbf, 0x61, 0x6a),
        rgb(0xa3, 0xbe, 0x8c),
        rgb(0xeb, 0xcb, 0x8b),
        rgb(0x81, 0xa1, 0xc1),
        rgb(0xb4, 0x8e, 0xad),
        rgb(0x88, 0xc0, 0xd0),
        rgb(0xe5, 0xe9, 0xf0),
        rgb(0x4c, 0x56, 0x6a),
        rgb(0xbf, 0x61, 0x6a),
        rgb(0xa3, 0xbe, 0x8c),
        rgb(0xeb, 0xcb, 0x8b),
        rgb(0x81, 0xa1, 0xc1),
        rgb(0xb4, 0x8e, 0xad),
        rgb(0x8f, 0xbc, 0xbb),
        rgb(0xec, 0xef, 0xf4),
        rgb(0xd8, 0xde, 0xe9),
        rgb(0x2e, 0x34, 0x40),
        rgb(0xd8, 0xde, 0xe9),
        rgb(0x2e, 0x34, 0x40),
        rgb(0x43, 0x4c, 0x5e),
        rgb(0x43, 0x4c, 0x5e),
        rgb(0x43, 0x4c, 0x5e),
        rgb(0x4c, 0x56, 0x6a),
        rgb(0xeb, 0xcb, 0x8b),
        rgb(0x88, 0xc0, 0xd0),
    ]
}

/// The colors of the Monokai theme, in the order of `colors_seq`.
pub open spec fn monokai_colors() -> Seq<Rgb> {
    seq![
        rgb(0x27, 0x28, 0x22),
        rgb(0xf9, 0x26, 0x72),
        rgb(0xa6, 0xe2, 0x2e),
        rgb(0xf4, 0xbf, 0x75),
        rgb(0x66, 0xd9, 0xef),
        rgb(0xae, 0x81, 0xff),
        rgb(0xa1, 0xef, 0xe4),
        rgb(0xf8, 0xf8, 0xf2),
        rgb(0x75, 0x71, 0x5e),
        rgb(0xf9, 0x26, 0x72),
        rgb(0xa6, 0xe2, 0x2e),
        rgb(0xf4, 0xbf, 0x75),
        rgb(0x66, 0xd9, 0xef),
        rgb(0xae, 0x81, 0xff),
        rgb(0xa1, 0xef, 0xe4),
        rgb(0xf9, 0xf8, 0xf5),
        rgb(0xf8, 0xf8, 0xf2),
        rgb(0x27, 0x28, 0x22),
        rgb(0xf8, 0xf8, 0xf0),
        rgb(0x27, 0x28, 0x22),
        rgb(0x49, 0x48, 0x3e),
        rgb(0x49, 0x48, 0x3e),
        rgb(0x49, 0x48, 0x3e),
        rgb(0x75, 0x71, 0x5e),
        rgb(0xf4, 0xbf, 0x75),
        rgb(0xf9, 0x26, 0x72),
    ]
}

/// The colors of the Gruvbox Dark theme, in the order of `colors_seq`.
pub open spec fn gruvbox_dark_colors() -> Seq<Rgb> {
    seq![
        rgb(0x28, 0x28, 0x28),
        rgb(0xcc, 0x24, 0x1d),
        rgb(0x98, 0x97, 0x1a),
        rgb(0xd7, 0x99, 0x21),
        rgb(0x45, 0x85, 0x88),
        rgb(0xb1, 0x62, 0x86),
        rgb(0x68, 0x9d, 0x6a),
        rgb(0xa8, 0x99, 0x84),
        rgb(0x92, 0x83, 0x74),
        rgb(0xfb, 0x49, 0x34),
        rgb(0xb8, 0xbb, 0x26),
        rgb(0xfa, 0xbd, 0x2f),
        rgb(0x83, 0xa5, 0x98),
        rgb(0xd3, 0x86, 0x9b),
        rgb(0x8e, 0xc0, 0x7c),
        rgb(0xeb, 0xdb, 0xb2),
        rgb(0xeb, 0xdb, 0xb2),
        rgb(0x28, 0x28, 0x28),
        rgb(0xeb, 0xdb, 0xb2),
        rgb(0x28, 0x28, 0x28),
        rgb(0x50, 0x49, 0x45),
        rgb(0x50, 0x49, 0x45),
        rgb(0x50, 0x49, 0x45),
        rgb(0x66, 0x5c, 0x54),
        rgb(0xfa, 0xbd, 0x2f),
        rgb(0xfe, 0x80, 0x19),
    ]
}

/// The colors of the Tokyo Night theme, in the order of `colors_seq`.
pub open spec fn tokyo_night_colors() -> Seq<Rgb> {
    seq![
        rgb(0x1a, 0x1b, 0x26),
        rgb(0xf7, 0x76, 0x8e),
        rgb(0x9e, 0xce, 0x6a),
        rgb(0xe0, 0xaf, 0x68),
        rgb(0x7a, 0xa2, 0xf7),
        rgb(0xbb, 0x9a, 0xf7),
        rgb(0x7d, 0xcf, 0xff),
        rgb(0xc0, 0xca, 0xf5),
        rgb(0x41, 0x4d, 0x68),
        rgb(0xf7, 0x76, 0x8e),
        rgb(0x9e, 0xce, 0x6a),
        rgb(0xe0, 0xaf, 0x68),
        rgb(0x7a, 0xa2, 0xf7),
        rgb(0xbb, 0x9a, 0xf7),
        rgb(0x7d, 0xcf, 0xff),
        rgb(0xc0, 0xca, 0xf5),
        rgb(0xc0, 0xca, 0xf5),
        rgb(0x1a, 0x1b, 0x26),
        rgb(0xc0, 0xca, 0xf5),
        rgb(0x1a, 0x1b, 0x26),
        rgb(0x28, 0x2d, 0x3e),
        rgb(0x28, 0x2d, 0x3e),
        rgb(0x28, 0x2d, 0x3e),
        rgb(0x41, 0x4d, 0x68),
        rgb(0xe0, 0xaf, 0x68),
        rgb(0xff, 0x9e, 0x64),
    ]
}

/// The Solarized Light terminal theme.
fn create_solarized_light() -> (t: TerminalTheme)
    ensures
        t.name@ == "Solarized Light"@,
        t.is_dark == false,
        t.colors matches Some(c) && colors_seq(c) == solarized_light_colors() && c.selection.foreground is None,
{
    let base_colors = vec![
            Rgb::new(0x07, 0x36, 0x42),
            Rgb::new(0xdc, 0x32, 0x2f),
            Rgb::new(0x85, 0x99, 0x00),
            Rgb::new(0xb5, 0x89, 0x00),
            Rgb::new(0x26, 0x8b, 0xd2),
            Rgb::new(0xd3, 0x36, 0x82),
            Rgb::new(0x2a, 0xa1, 0x98),
            Rgb::new(0xee, 0xe8, 0xd5),
            Rgb::new(0x00, 0x2b, 0x36),
            Rgb::new(0xcb, 0x4b, 0x16),
            Rgb::new(0x58, 0x6e, 0x75),
            Rgb::new(0x65, 0x7b, 0x83),
            Rgb::new(0x83, 0x94, 0x96),
            Rgb::new(0x6c, 0x71, 0xc4),
            Rgb::new(0x93, 0xa1, 0xa1),
            Rgb::new(0xfd, 0xf6, 0xe3),
        ];
    let colors = ThemeColors {
        palette: ColorPalette { base_colors, foreground: Rgb::new(0x65, 0x7b, 0x83), background: Rgb::new(0xfd, 0xf6, 0xe3) },
        cursor: CursorColors { color: Rgb::new(0x65, 0x7b, 0x83), text_color: Rgb::new(0xfd, 0xf6, 0xe3) },
        selection: SelectionColors { background: Rgb::new(0xee, 0xe8, 0xd5), foreground: None },
        ui: UiColors {
            border: Rgb::new(0xee, 0xe8, 0xd5),
            scrollbar: Rgb::new(0x93, 0xa1, 0xa1),
            scrollbar_hover: Rgb::new(0x83, 0x94, 0x96),
            search_match: Rgb::new(0xb5, 0x89, 0x00),
            search_match_active: Rgb::new(0xcb, 0x4b, 0x16),
        },
    };
    proof {
        assert(colors_seq(colors) =~= solarized_light_colors());
    }
    TerminalTheme { name: owned("Solarized Light"), is_dark: false, colors: Some(colors) }
}

/// The Nord terminal theme.
fn create_nord_theme() -> (t: TerminalTheme)
    ensures
        t.name@ == "Nord"@,
        t.is_dark == true,
        t.colors matches Some(c) && colors_seq(c) == nord_colors() && c.selection.foreground is None,
{
    let base_colors = vec![
            Rgb::new(0x3b, 0x42, 0x52),
            Rgb::new(0xbf, 0x61, 0x6a),
            Rgb::new(0xa3, 0xbe, 0x8c),
            Rgb::new(0xeb, 0xcb, 0x8b),
            Rgb::new(0x81, 0xa1, 0xc1),
            Rgb::new(0xb4, 0x8e, 0xad),
            Rgb::new(0x88, 0xc0, 0xd0),
            Rgb::new(0xe5, 0xe9, 0xf0),
            Rgb::new(0x4c, 0x56, 0x6a),
            Rgb::new(0xbf, 0x61, 0x6a),
            Rgb::new(0xa3, 0xbe, 0x8c),
            Rgb::new(0xeb, 0xcb, 0x8b),
            Rgb::new(0x81, 0xa1, 0xc1),
            Rgb::new(0xb4, 0x8e, 0xad),
            Rgb::new(0x8f, 0xbc, 0xbb),
            Rgb::new(0xec, 0xef, 0xf4),
        ];
    let colors = ThemeColors {
        palette: ColorPalette { base_colors, foreground: Rgb::new(0xd8, 0xde, 0xe9), background: Rgb::new(0x2e, 0x34, 0x40) },
        cursor: CursorColors { color: Rgb::new(0xd8, 0xde, 0xe9), text_color: Rgb::new(0x2e, 0x34, 0x40) },
        selection: SelectionColors { background: Rgb::new(0x43, 0x4c, 0x5e), foreground: None },
        ui: UiColors {
            border: Rgb::new(0x43, 0x4c, 0x5e),
            scrollbar: Rgb::new(0x43, 0x4c, 0x5e),
            scrollbar_hover: Rgb::new(0x4c, 0x56, 0x6a),
            search_match: Rgb::new(0xeb, 0xcb, 0x8b),
            search_match_active: Rgb::new(0x88, 0xc0, 0xd0),
        },
    };
    proof {
        assert(colors_seq(colors) =~= nord_colors());
    }
    TerminalTheme { name: owned("Nord"), is_dark: true, colors: Some(colors) }
}

/// The Monokai terminal theme.
fn create_monokai_theme() -> (t: TerminalTheme)
    ensures
        t.name@ == "Monokai"@,
        t.is_dark == true,
        t.colors matches Some(c) && colors_seq(c) == monokai_colors() && c.selection.foreground is None,
{
    let base_colors = vec![
            Rgb::new(0x27, 0x28, 0x22),
            Rgb::new(0xf9, 0x26, 0x72),
            Rgb::new(0xa6, 0xe2, 0x2e),
            Rgb::new(0xf4, 0xbf, 0x75),
            Rgb::new(0x66, 0xd9, 0xef),
            Rgb::new(0xae, 0x81, 0xff),
            Rgb::new(0xa1, 0xef, 0xe4),
            Rgb::new(0xf8, 0xf8, 0xf2),
            Rgb::new(0x75, 0x71, 0x5e),
            Rgb::new(0xf9, 0x26, 0x72),
            Rgb::new(0xa6, 0xe2, 0x2e),
            Rgb::new(0xf4, 0xbf, 0x75),
            Rgb::new(0x66, 0xd9, 0xef),
            Rgb::new(0xae, 0x81, 0xff),
            Rgb::new(0xa1, 0xef, 0xe4),
            Rgb::new(0xf9, 0xf8, 0xf5),
        ];
    let colors = ThemeColors {
        palette: ColorPalette { base_colors, foreground: Rgb::new(0xf8, 0xf8, 0xf2), background: Rgb::new(0x27, 0x28, 0x22) },
        cursor: CursorColors { color: Rgb::new(0xf8, 0xf8, 0xf0), text_color: Rgb::new(0x27, 0x28, 0x22) },
        selection: SelectionColors { background: Rgb::new(0x49, 0x48, 0x3e), foreground: None },
        ui: UiColors {
            border: Rgb::new(0x49, 0x48, 0x3e),
            scrollbar: Rgb::new(0x49, 0x48, 0x3e),
            scrollbar_hover: Rgb::new(0x75, 0x71, 0x5e),
            search_match: Rgb::new(0xf4, 0xbf, 0x75),
            search_match_active: Rgb::new(0xf9, 0x26, 0x72),
        },
    };
    proof {
        assert(colors_seq(colors) =~= monokai_colors());
    }
    TerminalTheme { name: owned("Monokai"), is_dark: true, colors: Some(colors) }
}

/// The Gruvbox Dark terminal theme.
fn create_gruvbox_dark_theme() -> (t: TerminalTheme)
    ensures
        t.name@ == "Gruvbox Dark"@,
        t.is_dark == true,
        t.colors matches Some(c) && colors_seq(c) == gruvbox_dark_colors() && c.selection.foreground is None,
{
    let base_colors = vec![
            Rgb::new(0x28, 0x28, 0x28),
            Rgb::new(0xcc, 0x24, 0x1d),
            Rgb::new(0x98, 0x97, 0x1a),
            Rgb::new(0xd7, 0x99, 0x21),
            Rgb::new(0x45, 0x85, 0x88),
            Rgb::new(0xb1, 0x62, 0x86),
            Rgb::new(0x68, 0x9d, 0x6a),
            Rgb::new(0xa8, 0x99, 0x84),
            Rgb::new(0x92, 0x83, 0x74),
            Rgb::new(0xfb, 0x49, 0x34),
            Rgb::new(0xb8, 0xbb, 0x26),
            Rgb::new(0xfa, 0xbd, 0x2f),
            Rgb::new(0x83, 0xa5, 0x98),
            Rgb::new(0xd3, 0x86, 0x9b),
            Rgb::new(0x8e, 0xc0, 0x7c),
            Rgb::new(0xeb, 0xdb, 0xb2),
        ];
    let colors = ThemeColors {
        palette: ColorPalette { base_colors, foreground: Rgb::new(0xeb, 0xdb, 0xb2), background: Rgb::new(0x28, 0x28, 0x28) },
        cursor: CursorColors { color: Rgb::new(0xeb, 0xdb, 0xb2), text_color: Rgb::new(0x28, 0x28, 0x28) },
        selection: SelectionColors { background: Rgb::new(0x50, 0x49, 0x45), foreground: None },
        ui: UiColors {
            border: Rgb::new(0x50, 0x49, 0x45),
            scrollbar: Rgb::new(0x50, 0x49, 0x45),
            scrollbar_hover: Rgb::new(0x66, 0x5c, 0x54),
            search_match: Rgb::new(0xfa, 0xbd, 0x2f),
            search_match_active: Rgb::new(0xfe, 0x80, 0x19),
        },
    };
    proof {
        assert(colors_seq(colors) =~= gruvbox_dark_colors());
    }
    TerminalTheme { name: owned("Gruvbox Dark"), is_dark: true, colors: Some(colors) }
}

/// The Tokyo Night terminal theme.
fn create_tokyo_night_theme() -> (t: TerminalTheme)
    ensures
        t.name@ == "Tokyo Night"@,
        t.is_dark == true,
        t.colors matches Some(c) && colors_seq(c) == tokyo_night_colors() && c.selection.foreground is None,
{
    let base_colors = vec![
            Rgb::new(0x1a, 0x1b, 0x26),
            Rgb::new(0xf7, 0x76, 0x8e),
            Rgb::new(0x9e, 0xce, 0x6a),
            Rgb::new(0xe0, 0xaf, 0x68),
            Rgb::new(0x7a, 0xa2, 0xf7),
            Rgb::new(0xbb, 0x9a, 0xf7),
            Rgb::new(0x7d, 0xcf, 0xff),
            Rgb::new(0xc0, 0xca, 0xf5),
            Rgb::new(0x41, 0x4d, 0x68),
            Rgb::new(0xf7, 0x76, 0x8e),
            Rgb::new(0x9e, 0xce, 0x6a),
            Rgb::new(0xe0, 0xaf, 0x68),
            Rgb::new(0x7a, 0xa2, 0xf7),
            Rgb::new(0xbb, 0x9a, 0xf7),
            Rgb::new(0x7d, 0xcf, 0xff),
            Rgb::new(0xc0, 0xca, 0xf5),
        ];
    let colors = ThemeColors {
        palette: ColorPalette { base_colors, foreground: Rgb::new(0xc0, 0xca, 0xf5), background: Rgb::new(0x1a, 0x1b, 0x26) },
        cursor: CursorColors { color: Rgb::new(0xc0, 0xca, 0xf5), text_color: Rgb::new(0x1a, 0x1b, 0x26) },
        selection: SelectionColors { background: Rgb::new(0x28, 0x2d, 0x3e), foreground: None },
        ui: UiColors {
            border: Rgb::new(0x28, 0x2d, 0x3e),
            scrollbar: Rgb::new(0x28, 0x2d, 0x3e),
            scrollbar_hover: Rgb::new(0x41, 0x4d, 0x68),
            search_match: Rgb::new(0xe0, 0xaf, 0x68),
            search_match_active: Rgb::new(0xff, 0x9e, 0x64),
        },
    };
    proof {
        assert(colors_seq(colors) =~= tokyo_night_colors());
    }
    TerminalTheme { name: owned("Tokyo Night"), is_dark: true, colors: Some(colors) }
}

/// The persisted theme settings.
#[derive(Debug)]
pub struct ThemeConfig {
    pub mode: ThemeMode,
    pub theme: BuiltinTheme,
    /// A custom theme file, if any.
    pub custom_theme_path: Option<String>,
    /// The terminal's opacity in thousandths, from 0 (transparent) to 1000
    /// (opaque).
    pub terminal_opacity: u16,
    pub use_system_font: bool,
}

/// The terminal's full opacity, in thousandths.
pub const FULL_OPACITY: u16 = 1000;

impl Default for ThemeConfig {
    fn default() -> (r: Self)
        ensures
            r.mode == ThemeMode::Dark,
            r.theme == BuiltinTheme::Dark,
            r.custom_theme_path is None,
            r.terminal_opacity == FULL_OPACITY,
            !r.use_system_font,
    {
        ThemeConfig {
            mode: ThemeMode::Dark,
            theme: BuiltinTheme::Dark,
            custom_theme_path: None,
            terminal_opacity: FULL_OPACITY,
            use_system_font: false,
        }
    }
}

impl Clone for ThemeConfig {
    fn clone(&self) -> (r: Self)
        ensures
            r == *self,
    {
        ThemeConfig {
            mode: self.mode,
            theme: self.theme,
            custom_theme_path: crate::entities::clone_opt_string(&self.custom_theme_path),
            terminal_opacity: self.terminal_opacity,
            use_system_font: self.use_system_font,
        }
    }
}

/// A change of the theme settings.
#[derive(Debug, Clone, Copy, PartialEq, Eq, Structural)]
pub enum ThemeEvent {
    ThemeChanged { old_theme: BuiltinTheme, new_theme: BuiltinTheme },
    ModeChanged { old_mode: ThemeMode, new_mode: ThemeMode },
    /// The opacity, in thousandths.
    OpacityChanged { opacity: u16 },
}

/// The theme that `set_mode` leaves when it switches to `mode`: a theme of
/// the wrong darkness is replaced by the default dark or light theme.
pub open spec fn theme_for_mode(theme: BuiltinTheme, mode: ThemeMode, system_is_dark: bool) -> BuiltinTheme {
    let want_dark = match mode {
        ThemeMode::Light => false,
        ThemeMode::Dark => true,
        ThemeMode::System => system_is_dark,
    };
    if want_dark && !theme_is_dark(theme) {
        BuiltinTheme::Dark
    } else if !want_dark && theme_is_dark(theme) {
        BuiltinTheme::Light
    } else {
        theme
    }
}

/// The mode that toggling dark and light leads to from the theme `t`.
pub open spec fn toggled_mode(t: BuiltinTheme) -> ThemeMode {
    if theme_is_dark(t) {
        ThemeMode::Light
    } else {
        ThemeMode::Dark
    }
}

/// The theme that toggling dark and light leads to from the theme `t`: the
/// default theme of the other darkness.
pub open spec fn toggled_theme(t: BuiltinTheme) -> BuiltinTheme {
    if theme_is_dark(t) {
        BuiltinTheme::Light
    } else {
        BuiltinTheme::Dark
    }
}

/// The events of a mode switch from `old` to `new`: none when they are the
/// same.
pub open spec fn mode_switch_events(old: ThemeMode, new: ThemeMode) -> Seq<ThemeEvent> {
    if old == new {
        Seq::<ThemeEvent>::empty()
    } else {
        seq![ThemeEvent::ModeChanged { old_mode: old, new_mode: new }]
    }
}

/// The theme after `t` in cycling order.
pub open spec fn next_of(t: BuiltinTheme) -> BuiltinTheme {
    all_themes()[(theme_index(t) + 1) % 10]
}

/// The theme before `t` in cycling order.
pub open spec fn prev_of(t: BuiltinTheme) -> BuiltinTheme {
    all_themes()[if theme_index(t) == 0 { 9 } else { theme_index(t) - 1 }]
}

/// The events of a theme switch from `old` to `new`: none when they are
/// the same.
pub open spec fn theme_switch_events(old: BuiltinTheme, new: BuiltinTheme) -> Seq<ThemeEvent> {
    if old == new {
        Seq::<ThemeEvent>::empty()
    } else {
        seq![ThemeEvent::ThemeChanged { old_theme: old, new_theme: new }]
    }
}

/// The application's theme settings and the changes not yet handed out.
pub struct AppThemeManager {
    config: ThemeConfig,
    events: Vec<ThemeEvent>,
}

impl AppThemeManager {
    /// The settings.
    pub closed spec fn config_spec(&self) -> ThemeConfig {
        self.config
    }

    /// The changes not yet handed out, oldest first.
    pub closed spec fn events_spec(&self) -> Seq<ThemeEvent> {
        self.events@
    }

    /// A manager with the default settings.
    pub fn new() -> (r: AppThemeManager)
        ensures
            r.config_spec().mode == ThemeMode::Dark,
            r.config_spec().theme == BuiltinTheme::Dark,
            r.config_spec().custom_theme_path is None,
            r.config_spec().terminal_opacity == FULL_OPACITY,
            !r.config_spec().use_system_font,
            r.events_spec().len() == 0,
    {
        AppThemeManager { config: ThemeConfig::default(), events: Vec::new() }
    }

    /// A manager with the given settings.
    pub fn with_config(config: ThemeConfig) -> (r: AppThemeManager)
        ensures
            r.config_spec() == config,
            r.events_spec().len() == 0,
    {
        AppThemeManager { config, events: Vec::new() }
    }

    /// The settings.
    pub fn config(&self) -> (r: &ThemeConfig)
        ensures
            *r == self.config_spec(),
    {
        &self.config
    }

    /// The current theme.
    pub fn current_theme(&self) -> (r: BuiltinTheme)
        ensures
            r == self.config_spec().theme,
    {
        self.config.theme
    }

    /// The terminal theme of the current theme.
    pub fn terminal_theme(&self) -> (r: TerminalTheme)
        ensures
            r.name@ == theme_name(self.config_spec().theme),
            r.is_dark == theme_is_dark(self.config_spec().theme),
            match builtin_colors(self.config_spec().theme) {
                Some(cs) => r.colors matches Some(c) && colors_seq(c) == cs,
                None => r.colors is None,
            },
    {
        self.config.theme.to_terminal_theme()
    }

    /// The mode.
    pub fn mode(&self) -> (r: ThemeMode)
        ensures
            r == self.config_spec().mode,
    {
        self.config.mode
    }

    /// Whether the current theme is dark.
    pub fn is_dark_mode(&self) -> (r: bool)
        ensures
            r == theme_is_dark(self.config_spec().theme),
    {
        self.config.theme.is_dark()
    }

    /// The terminal's opacity, in thousandths.
    pub fn terminal_opacity(&self) -> (r: u16)
        ensures
            r == self.config_spec().terminal_opacity,
    {
        self.config.terminal_opacity
    }

    /// Switches to `theme`; a change is recorded as an event (the owner
    /// saves the settings on it).
    pub fn set_theme(&mut self, theme: BuiltinTheme)
        ensures
            final(self).config_spec().theme == theme,
            final(self).config_spec().mode == old(self).config_spec().mode,
            final(self).config_spec().terminal_opacity == old(self).config_spec().terminal_opacity,
            final(self).config_spec().custom_theme_path == old(self).config_spec().custom_theme_path,
            final(self).config_spec().use_system_font == old(self).config_spec().use_system_font,
            final(self).events_spec() == old(self).events_spec() + theme_switch_events(
                old(self).config_spec().theme,
                theme,
            ),
    {
        let old_theme = self.config.theme;
        if old_theme != theme {
            self.config.theme = theme;
            self.events.push(ThemeEvent::ThemeChanged { old_theme, new_theme: theme });
        }
        proof {
            assert(self.events@ =~= old(self).events@ + theme_switch_events(old_theme, theme));
        }
    }

    /// Switches to `mode`. When the mode changes, a theme of the wrong
    /// darkness gives way to the default dark or light theme (for `System`,
    /// the darkness is `system_is_dark`, what the system reports), and the
    /// mode change is recorded after any theme change.
    pub fn set_mode(&mut self, mode: ThemeMode, system_is_dark: bool)
        ensures
            final(self).config_spec().mode == mode,
            final(self).config_spec().terminal_opacity == old(self).config_spec().terminal_opacity,
            final(self).config_spec().custom_theme_path == old(self).config_spec().custom_theme_path,
            final(self).config_spec().use_system_font == old(self).config_spec().use_system_font,
            old(self).config_spec().mode == mode ==> final(self).config_spec().theme == old(self).config_spec().theme && final(self).events_spec() == old(self).events_spec(),
            old(self).config_spec().mode != mode ==> {
                let t = theme_for_mode(old(self).config_spec().theme, mode, system_is_dark);
                &&& final(self).config_spec().theme == t
                &&& final(self).events_spec() == old(self).events_spec() + theme_switch_events(
                    old(self).config_spec().theme,
                    t,
                ).push(ThemeEvent::ModeChanged { old_mode: old(self).config_spec().mode, new_mode: mode })
            },
    {
        let old_mode = self.config.mode;
        if old_mode != mode {
            self.config.mode = mode;
            let want_dark = match mode {
                ThemeMode::Light => false,
                ThemeMode::Dark => true,
                ThemeMode::System => system_is_dark,
            };
            let dark = self.config.theme.is_dark();
            if want_dark && !dark {
                self.set_theme(BuiltinTheme::Dark);
            } else if !want_dark && dark {
                self.set_theme(BuiltinTheme::Light);
            }
            let ghost before = self.events@;
            self.events.push(ThemeEvent::ModeChanged { old_mode, new_mode: mode });
            proof {
                assert(self.events@ == before.push(ThemeEvent::ModeChanged { old_mode, new_mode: mode }));
            }
        }
    }

    /// Sets the terminal's opacity, in thousandths, clamped to 0..=1000; a
    /// change is recorded as an event.
    pub fn set_terminal_opacity(&mut self, opacity: i32)
        ensures
            ({
                let clamped: int = if opacity < 0 {
                    0
                } else if opacity > 1000 {
                    1000
                } else {
                    opacity as int
                };
                &&& final(self).config_spec().terminal_opacity == clamped
                &&& final(self).events_spec() == if clamped == old(self).config_spec().terminal_opacity {
                    old(self).events_spec()
                } else {
                    old(self).events_spec().push(ThemeEvent::OpacityChanged { opacity: clamped as u16 })
                }
            }),
            final(self).config_spec().theme == old(self).config_spec().theme,
            final(self).config_spec().mode == old(self).config_spec().mode,
            final(self).config_spec().custom_theme_path == old(self).config_spec().custom_theme_path,
            final(self).config_spec().use_system_font == old(self).config_spec().use_system_font,
    {
        let clamped: u16 = if opacity < 0 {
            0
        } else if opacity > 1000 {
            FULL_OPACITY
        } else {
            opacity as u16
        };
        if clamped != self.config.terminal_opacity {
            self.config.terminal_opacity = clamped;
            self.events.push(ThemeEvent::OpacityChanged { opacity: clamped });
        }
    }

    /// Switches between dark and light: from a dark theme to the light mode
    /// and the default light theme, from a light one to the dark mode and
    /// the default dark theme. A theme change is recorded first, then a
    /// mode change.
    pub fn toggle_dark_light(&mut self)
        ensures
            final(self).config_spec() == (ThemeConfig {
                mode: toggled_mode(old(self).config_spec().theme),
                theme: toggled_theme(old(self).config_spec().theme),
                ..old(self).config_spec()
            }),
            final(self).events_spec() == old(self).events_spec() + theme_switch_events(
                old(self).config_spec().theme,
                toggled_theme(old(self).config_spec().theme),
            ) + mode_switch_events(old(self).config_spec().mode, toggled_mode(old(self).config_spec().theme)),
    {
        let dark = self.is_dark_mode();
        let (mode, theme) = if dark {
            (ThemeMode::Light, BuiltinTheme::Light)
        } else {
            (ThemeMode::Dark, BuiltinTheme::Dark)
        };
        if self.config.mode != mode {
            self.set_mode(mode, !dark);
        } else {
            self.set_theme(theme);
        }
        proof {
            assert(self.events@ =~= old(self).events@ + theme_switch_events(old(self).config.theme, theme)
                + mode_switch_events(old(self).config.mode, mode));
        }
    }

    /// Switches to the next theme in cycling order.
    pub fn next_theme(&mut self)
        ensures
            final(self).config_spec().theme == next_of(old(self).config_spec().theme),
            final(self).config_spec().mode == old(self).config_spec().mode,
            final(self).config_spec().terminal_opacity == old(self).config_spec().terminal_opacity,
            final(self).events_spec() == old(self).events_spec() + theme_switch_events(
                old(self).config_spec().theme,
                next_of(old(self).config_spec().theme),
            ),
    {
        let all = BuiltinTheme::all();
        let i = theme_position(&all, self.config.theme);
        let next = (i + 1) % all.len();
        self.set_theme(all[next]);
    }

    /// Switches to the previous theme in cycling order.
    pub fn prev_theme(&mut self)
        ensures
            final(self).config_spec().theme == prev_of(old(self).config_spec().theme),
            final(self).config_spec().mode == old(self).config_spec().mode,
            final(self).config_spec().terminal_opacity == old(self).config_spec().terminal_opacity,
            final(self).events_spec() == old(self).events_spec() + theme_switch_events(
                old(self).config_spec().theme,
                prev_of(old(self).config_spec().theme),
            ),
    {
        let all = BuiltinTheme::all();
        let i = theme_position(&all, self.config.theme);
        let prev = if i == 0 { all.len() - 1 } else { i - 1 };
        self.set_theme(all[prev]);
    }

    /// Every built-in theme.
    pub fn available_themes(&self) -> (r: Vec<BuiltinTheme>)
        ensures
            r@ == all_themes(),
    {
        BuiltinTheme::all()
    }

    /// Hands out the recorded changes, oldest first, and forgets them.
    pub fn take_events(&mut self) -> (r: Vec<ThemeEvent>)
        ensures
            r@ == old(self).events_spec(),
            final(self).events_spec().len() == 0,
            final(self).config_spec() == old(self).config_spec(),
    {
        let mut r: Vec<ThemeEvent> = Vec::new();
        std::mem::swap(&mut r, &mut self.events);
        r
    }
}

impl Default for AppThemeManager {
    fn default() -> (r: Self)
        ensures
            r.config_spec().mode == ThemeMode::Dark,
            r.config_spec().theme == BuiltinTheme::Dark,
            r.config_spec().custom_theme_path is None,
            r.config_spec().terminal_opacity == FULL_OPACITY,
            !r.config_spec().use_system_font,
            r.events_spec().len() == 0,
    {
        AppThemeManager::new()
    }
}

fn theme_position(all: &Vec<BuiltinTheme>, t: BuiltinTheme) -> (r: usize)
    requires
        all@ == all_themes(),
    ensures
        r == theme_index(t),
{
    proof {
        lemma_all_themes_index(t);
    }
    let mut i: usize = 0;
    while i < all.len()
        invariant
            all@ == all_themes(),
            0 <= i <= all@.len(),
            forall|k: int| 0 <= k < i ==> all@[k] != t,
            all@[theme_index(t)] == t,
        decreases all@.len() - i,
    {
        if all[i] == t {
            proof {
                assert(all_themes()[i as int] == t);
            }
            return i;
        }
        i = i + 1;
    }
    proof {
        assert(all@[theme_index(t)] != t);
    }
    0
}

/// After a change of mode, the theme's darkness is the mode's: light for
/// `Light`, dark for `Dark`, the system's for `System`.
pub proof fn law_mode_change_sets_darkness(theme: BuiltinTheme, mode: ThemeMode, system_is_dark: bool)
    ensures
        theme_is_dark(theme_for_mode(theme, mode, system_is_dark)) == (match mode {
            ThemeMode::Light => false,
            ThemeMode::Dark => true,
            ThemeMode::System => system_is_dark,
        }),
{
}

/// Cycling forward then back returns to the same theme, and back then
/// forward too.
pub proof fn law_next_prev_inverse(t: BuiltinTheme)
    ensures
        prev_of(next_of(t)) == t,
        next_of(prev_of(t)) == t,
{
}

} // verus!
