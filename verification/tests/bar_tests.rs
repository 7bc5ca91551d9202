use kdwm::bar::{create_bar, layouts, wm_config, BarPosition, Source, Theme, WidgetSpec, BAR_HEIGHT_PX};
use kdwm::widgets::{any_require_draw, combined_extent, MultiText, Style};

fn theme() -> Theme {
    Theme {
        light: vec![0xebdbb2ff, 0xd5c4a1ff, 0xbdae93ff],
        dark: vec![0x282828ff, 0x3c3836ff, 0x504945ff, 0x665c54ff],
        orange: 0xfe8019ff,
        blue: 0x83a598ff,
        green: 0xb8bb26ff,
        bar_height_px: 18,
        font: "Ubuntu Mono".to_string(),
        point_size: 12,
    }
}

fn label_text(w: &WidgetSpec) -> Option<&str> {
    match w {
        WidgetSpec::Text(t) => Some(t.text.as_str()),
        _ => None,
    }
}

#[test]
fn bar_stands_at_the_top_with_the_theme() {
    let t = theme();
    let bar = create_bar(&t);
    assert_eq!(bar.position, BarPosition::Top);
    assert_eq!(bar.height, 18);
    assert_eq!(bar.bg, 0x282828ff);
    assert_eq!(bar.font, "Ubuntu Mono");
    assert_eq!(bar.point_size, 12);
    assert_eq!(bar.widgets.len(), 20);
}

#[test]
fn bar_widgets_in_order() {
    let t = theme();
    let bar = create_bar(&t);
    let plain = Style { fg: 0xebdbb2ff, bg: Some(0x282828ff), padding: (10, 0) };
    let green = Style { fg: 0xb8bb26ff, bg: Some(0x282828ff), padding: (10, 0) };
    let orange = Style { fg: 0xfe8019ff, bg: Some(0x282828ff), padding: (10, 0) };
    match &bar.widgets[0] {
        WidgetSpec::Workspaces { style, highlight, empty_fg } => {
            assert_eq!(*style, plain);
            assert_eq!(*highlight, 0x665c54ff);
            assert_eq!(*empty_fg, 0x3c3836ff);
        }
        _ => panic!("workspaces first"),
    }
    match &bar.widgets[1] {
        WidgetSpec::ActiveWindowName { max_chars, style, is_greedy, right_justified } => {
            assert_eq!(*max_chars, 40);
            assert_eq!(*style, green);
            assert!(*is_greedy);
            assert!(!*right_justified);
        }
        _ => panic!("window title second"),
    }
    let labels: Vec<Option<&str>> = bar.widgets.iter().map(label_text).collect();
    assert_eq!(
        labels,
        vec![
            None, None, Some("|"), Some("PLAY:"), None, Some("|"), Some("WTTR:"), None, Some("|"),
            Some("PKGS:"), None, Some("|"), Some("BATT:"), None, Some("|"), Some("TIME:"), None,
            Some(","), None, Some(" ")
        ]
    );
    assert!(matches!(&bar.widgets[4], WidgetSpec::Media(s) if *s == green));
    let intervals: Vec<(Source, u64, Style)> = bar
        .widgets
        .iter()
        .filter_map(|w| match w {
            WidgetSpec::Interval { style, source, interval_secs } => Some((*source, *interval_secs, *style)),
            _ => None,
        })
        .collect();
    assert_eq!(
        intervals,
        vec![
            (Source::Weather, 3600, plain),
            (Source::Updates, 900, orange),
            (Source::Battery, 1, orange),
            (Source::Date, 1, green),
            (Source::Time, 1, orange),
        ]
    );
    match &bar.widgets[17] {
        WidgetSpec::Text(t) => assert_eq!(t.style.padding, (0, 0)),
        _ => panic!("separator"),
    }
}

#[test]
fn layouts_keep_the_bar_free() {
    let l = layouts();
    assert_eq!(l.reserve_top, BAR_HEIGHT_PX);
    assert_eq!(l.reserve_top, 18);
    assert_eq!((l.outer_gap, l.inner_gap), (4, 4));
}

#[test]
fn wm_config_borders() {
    let c = wm_config(&theme());
    assert_eq!(c.focused_border, 0xbdae93ff);
    assert_eq!(c.normal_border, 0x504945ff);
    assert!(c.focus_follow_mouse);
    assert_eq!(c.border_width, 1);
    assert_eq!(c.startup_script, "/usr/local/scripts/startup.sh");
}

#[test]
fn multi_text_pairs_texts_with_styles() {
    let a = Style { fg: 1, bg: None, padding: (0, 0) };
    let b = Style { fg: 2, bg: Some(3), padding: (1, 2) };
    let m = MultiText::new(vec!["x", "y"], vec![a, b, a], true);
    assert_eq!(m.text.len(), 2);
    assert_eq!(m.text[0].text, "x");
    assert_eq!(m.text[1].style, b);
    assert!(m.text.iter().all(|t| !t.is_greedy && t.right_justified));
    assert_eq!(m.styles.len(), 3);
    assert!(m.right_justified);
    assert!(!m.is_greedy());
}

#[test]
fn combined_extent_sums_widths_into_both() {
    assert_eq!(combined_extent(&vec![Some((3, 4)), None, Some((5, 9))]), (8, 8));
    assert_eq!(combined_extent(&vec![]), (0, 0));
    assert_eq!(combined_extent(&vec![None, None]), (0, 0));
}

#[test]
fn any_require_draw_is_any() {
    assert!(!any_require_draw(&vec![]));
    assert!(!any_require_draw(&vec![false, false]));
    assert!(any_require_draw(&vec![false, true]));
}
