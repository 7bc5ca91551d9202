//! The status bar and the window layouts, as plain values: which widgets the
//! bar holds, in which order, drawn how; and how the layouts leave room for it.

use vstd::prelude::*;
use crate::widgets::{Style, TextSpec};

verus! {

/// The height of the bar in pixels, which the layouts leave free at the top.
pub const BAR_HEIGHT_PX: u32 = 18;

/// The colours, font and bar height that the bar and the window borders are
/// drawn with. Colours are `0xRRGGBBAA`.
#[derive(Debug)]
pub struct Theme {
    /// Light colours, lightest first.
    pub light: Vec<u32>,
    /// Dark colours, darkest first.
    pub dark: Vec<u32>,
    pub orange: u32,
    pub blue: u32,
    pub green: u32,
    pub bar_height_px: u32,
    pub font: String,
    pub point_size: u8,
}

/// Where a piece of the bar gets its text from, each time it is refreshed.
#[derive(Clone, Copy, Debug, PartialEq, Eq)]
pub enum Source {
    Weather,
    Updates,
    Battery,
    Date,
    Time,
}

/// Where the bar stands on the screen.
#[derive(Clone, Copy, Debug, PartialEq, Eq)]
pub enum BarPosition {
    Top,
    Bottom,
}

/// A widget of the bar.
#[derive(Debug)]
pub enum WidgetSpec {
    /// The workspace tags, the focused one highlighted and the empty ones
    /// drawn in `empty_fg`.
    Workspaces { style: Style, highlight: u32, empty_fg: u32 },
    /// The title of the focused window, cut to `max_chars` characters.
    ActiveWindowName { max_chars: usize, style: Style, is_greedy: bool, right_justified: bool },
    /// A fixed piece of text.
    Text(TextSpec),
    /// What the chosen media player plays.
    Media(Style),
    /// Text from `source`, fetched again every `interval_secs` seconds.
    Interval { style: Style, source: Source, interval_secs: u64 },
}

/// The status bar: where it stands, its height, background, font and widgets
/// from left to right.
#[derive(Debug)]
pub struct BarSpec {
    pub position: BarPosition,
    pub height: u32,
    pub bg: u32,
    pub font: String,
    pub point_size: u8,
    pub widgets: Vec<WidgetSpec>,
}

/// How the layouts are wrapped: a band of `reserve_top` pixels left free at
/// the top for the bar, and gaps of `outer_gap` pixels round the screen and
/// `inner_gap` pixels between windows.
#[derive(Clone, Copy, Debug, PartialEq, Eq)]
pub struct LayoutSpec {
    pub reserve_top: u32,
    pub outer_gap: u32,
    pub inner_gap: u32,
}

/// The window-manager settings that do not come from the layouts or keys.
#[derive(Debug)]
pub struct WmSpec {
    pub focused_border: u32,
    pub normal_border: u32,
    pub focus_follow_mouse: bool,
    pub border_width: u32,
    pub startup_script: String,
}

/// Text in colour `fg` on the darkest background, with `pad` pixels of
/// padding on the left.
pub open spec fn style_on_dark(theme: &Theme, fg: u32, pad: u32) -> Style {
    Style { fg, bg: Some(theme.dark[0]), padding: (pad, 0) }
}

/// The styles of the bar: plain light text, the thin separator, and the
/// orange, blue and green accents.
pub open spec fn plain_style(theme: &Theme) -> Style {
    style_on_dark(theme, theme.light[0], 10)
}

pub open spec fn separator_style(theme: &Theme) -> Style {
    style_on_dark(theme, theme.light[0], 0)
}

pub open spec fn orange_style(theme: &Theme) -> Style {
    style_on_dark(theme, theme.orange, 10)
}

pub open spec fn blue_style(theme: &Theme) -> Style {
    style_on_dark(theme, theme.blue, 10)
}

pub open spec fn green_style(theme: &Theme) -> Style {
    style_on_dark(theme, theme.green, 10)
}

/// Whether `w` is the fixed text `text` in `style`, not greedy and justified
/// to the right.
pub open spec fn is_label(w: WidgetSpec, text: Seq<char>, style: Style) -> bool {
    &&& w matches WidgetSpec::Text(t)
    &&& t.text@ == text
    &&& t.style == style
    &&& !t.is_greedy
    &&& t.right_justified
}

/// Whether `w` is text from `source` in `style`, fetched every `secs` seconds.
pub open spec fn is_interval(w: WidgetSpec, style: Style, source: Source, secs: u64) -> bool {
    w == WidgetSpec::Interval { style, source, interval_secs: secs }
}

/// A style with colour `fg` on the darkest background.
fn dark_style(theme: &Theme, fg: u32, pad: u32) -> (s: Style)
    requires
        theme.dark.len() >= 1,
    ensures
        s == style_on_dark(theme, fg, pad),
{
    Style { fg, bg: Some(theme.dark[0]), padding: (pad, 0) }
}

/// A fixed piece of text in `style`, not greedy, justified to the right.
fn label(text: &str, style: Style) -> (w: WidgetSpec)
    ensures
        is_label(w, text@, style),
{
    WidgetSpec::Text(
        TextSpec { text: String::from_str(text), style, is_greedy: false, right_justified: true },
    )
}

/// Whether `widgets` are the bar's widgets, from left to right: the
/// workspaces, the focused window's title, then the media, weather, updates,
/// battery and clock segments, each after a `|` and a label.
pub open spec fn bar_widgets(theme: &Theme, widgets: Seq<WidgetSpec>) -> bool {
    &&& widgets.len() == 20
    &&& widgets[0] == WidgetSpec::Workspaces { style: plain_style(theme), highlight: theme.dark[3], empty_fg: theme.dark[1] }
    &&& widgets[1] == WidgetSpec::ActiveWindowName { max_chars: 40, style: green_style(theme), is_greedy: true, right_justified: false }
    &&& is_label(widgets[2], "|"@, plain_style(theme))
    &&& is_label(widgets[3], "PLAY:"@, blue_style(theme))
    &&& widgets[4] == WidgetSpec::Media(green_style(theme))
    &&& is_label(widgets[5], "|"@, plain_style(theme))
    &&& is_label(widgets[6], "WTTR:"@, blue_style(theme))
    &&& is_interval(widgets[7], plain_style(theme), Source::Weather, 3600)
    &&& is_label(widgets[8], "|"@, plain_style(theme))
    &&& is_label(widgets[9], "PKGS:"@, blue_style(theme))
    &&& is_interval(widgets[10], orange_style(theme), Source::Updates, 900)
    &&& is_label(widgets[11], "|"@, plain_style(theme))
    &&& is_label(widgets[12], "BATT:"@, blue_style(theme))
    &&& is_interval(widgets[13], orange_style(theme), Source::Battery, 1)
    &&& is_label(widgets[14], "|"@, plain_style(theme))
    &&& is_label(widgets[15], "TIME:"@, blue_style(theme))
    &&& is_interval(widgets[16], green_style(theme), Source::Date, 1)
    &&& is_label(widgets[17], ","@, separator_style(theme))
    &&& is_interval(widgets[18], orange_style(theme), Source::Time, 1)
    &&& is_label(widgets[19], " "@, plain_style(theme))
}

/// The status bar drawn with `theme`: at the top, of the theme's height, on the
/// darkest colour, with the widgets that `bar_widgets` lists.
pub fn create_bar(theme: &Theme) -> (bar: BarSpec)
    requires
        theme.light.len() >= 1,
        theme.dark.len() >= 4,
    ensures
        bar.position == BarPosition::Top,
        bar.height == theme.bar_height_px,
        bar.bg == theme.dark[0],
        bar.font@ == theme.font@,
        bar.point_size == theme.point_size,
        bar_widgets(theme, bar.widgets@),
{
    let plain = dark_style(theme, theme.light[0], 10);
    let separator = dark_style(theme, theme.light[0], 0);
    let orange = dark_style(theme, theme.orange, 10);
    let blue = dark_style(theme, theme.blue, 10);
    let green = dark_style(theme, theme.green, 10);
    let mut widgets: Vec<WidgetSpec> = Vec::new();
    widgets.push(
        WidgetSpec::Workspaces { style: plain, highlight: theme.dark[3], empty_fg: theme.dark[1] },
    );
    widgets.push(
        WidgetSpec::ActiveWindowName {
            max_chars: 40,
            style: green,
            is_greedy: true,
            right_justified: false,
        },
    );
    widgets.push(label("|", plain));
    widgets.push(label("PLAY:", blue));
    widgets.push(WidgetSpec::Media(green));
    widgets.push(label("|", plain));
    widgets.push(label("WTTR:", blue));
    widgets.push(WidgetSpec::Interval { style: plain, source: Source::Weather, interval_secs: 3600 });
    widgets.push(label("|", plain));
    widgets.push(label("PKGS:", blue));
    widgets.push(WidgetSpec::Interval { style: orange, source: Source::Updates, interval_secs: 900 });
    widgets.push(label("|", plain));
    widgets.push(label("BATT:", blue));
    widgets.push(WidgetSpec::Interval { style: orange, source: Source::Battery, interval_secs: 1 });
    widgets.push(label("|", plain));
    widgets.push(label("TIME:", blue));
    widgets.push(WidgetSpec::Interval { style: green, source: Source::Date, interval_secs: 1 });
    widgets.push(label(",", separator));
    widgets.push(WidgetSpec::Interval { style: orange, source: Source::Time, interval_secs: 1 });
    widgets.push(label(" ", plain));
    BarSpec {
        position: BarPosition::Top,
        height: theme.bar_height_px,
        bg: theme.dark[0],
        font: theme.font.clone(),
        point_size: theme.point_size,
        widgets,
    }
}

/// The layouts keep the bar's band free and leave gaps of 4 pixels.
pub fn layouts() -> (l: LayoutSpec)
    ensures
        l == (LayoutSpec { reserve_top: BAR_HEIGHT_PX, outer_gap: 4, inner_gap: 4 }),
{
    LayoutSpec { reserve_top: BAR_HEIGHT_PX, outer_gap: 4, inner_gap: 4 }
}

/// The window-manager settings drawn with `theme`: a light border round the
/// focused window and a dark one round the others, one pixel wide; focus
/// follows the mouse; the startup script runs when the window manager starts.
pub fn wm_config(theme: &Theme) -> (c: WmSpec)
    requires
        theme.light.len() >= 3,
        theme.dark.len() >= 3,
    ensures
        c.focused_border == theme.light[2],
        c.normal_border == theme.dark[2],
        c.focus_follow_mouse,
        c.border_width == 1,
        c.startup_script@ == "/usr/local/scripts/startup.sh"@,
{
    WmSpec {
        focused_border: theme.light[2],
        normal_border: theme.dark[2],
        focus_follow_mouse: true,
        border_width: 1,
        startup_script: String::from_str("/usr/local/scripts/startup.sh"),
    }
}

} // verus!
