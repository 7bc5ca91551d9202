use kdwm::status::{
    battery_file, battery_line, battery_reading, battery_status, get_battery_helper,
    get_updates, get_weather, updates_command, weather_command,
};

fn s(x: &str) -> Option<String> {
    Some(x.to_string())
}

#[test]
fn updates_shows_the_count() {
    assert_eq!(get_updates(s("12\n")), s("12"));
    assert_eq!(get_updates(s("  3  ")), s("3"));
}

#[test]
fn updates_shows_zero_for_no_output() {
    assert_eq!(get_updates(s("")), s("0"));
    assert_eq!(get_updates(s(" \n")), s("0"));
    assert_eq!(get_updates(None), s("0"));
}

#[test]
fn updates_command_counts_with_checkupdates() {
    let c = updates_command();
    assert_eq!(c.program, "sh");
    assert_eq!(c.args, vec!["-c", "checkupdates | wc -l"]);
}

#[test]
fn weather_is_trimmed_output() {
    assert_eq!(get_weather(s("  \u{2600} +20\u{b0}C\n")), s("\u{2600} +20\u{b0}C"));
    assert_eq!(get_weather(None), s(""));
}

#[test]
fn weather_command_asks_wttr() {
    let c = weather_command();
    assert_eq!(c.program, "curl");
    assert_eq!(c.args, vec!["-s", "http://wttr.in?format=1"]);
}

#[test]
fn battery_files_live_under_sysfs() {
    assert_eq!(battery_file("BAT0", "charge_full"), "/sys/class/power_supply/BAT0/charge_full");
    assert_eq!(battery_file("BAT0", "status"), "/sys/class/power_supply/BAT0/status");
}

#[test]
fn battery_helper_reads_numbers() {
    assert_eq!(get_battery_helper(s("4000000\n")), Some(4000000));
    assert_eq!(get_battery_helper(s(" 17 ")), Some(17));
}

#[test]
fn battery_helper_refuses_other_content() {
    assert_eq!(get_battery_helper(None), None);
    assert_eq!(get_battery_helper(s("abc")), None);
    assert_eq!(get_battery_helper(s("")), None);
    assert_eq!(get_battery_helper(s("99999999999")), None);
    assert_eq!(get_battery_helper(s("-5")), None);
}

#[test]
fn battery_status_symbols() {
    assert_eq!(battery_status(s("Charging\n")), "\u{25b2}");
    assert_eq!(battery_status(s("Discharging\n")), "\u{25bc}");
    assert_eq!(battery_status(s("Full\n")), "-");
    assert_eq!(battery_status(s("charging")), "-");
    assert_eq!(battery_status(None), "");
}

#[test]
fn battery_reading_needs_both_values() {
    assert_eq!(battery_reading(Some(10), Some(5)), Some((10, 5)));
    assert_eq!(battery_reading(Some(10), None), None);
    assert_eq!(battery_reading(None, Some(5)), None);
    assert_eq!(battery_reading(None, None), None);
}

#[test]
fn battery_line_joins_percent_and_status() {
    assert_eq!(battery_line(s("50.00"), "\u{25b2}"), "50.00% \u{25b2}");
    assert_eq!(battery_line(s("7.25"), ""), "7.25% ");
    assert_eq!(battery_line(None, "-"), "");
}

#[test]
fn battery_segment_reads_bat0() {
    let f = kdwm::status::battery_files();
    assert_eq!(f.full, "/sys/class/power_supply/BAT0/charge_full");
    assert_eq!(f.now, "/sys/class/power_supply/BAT0/charge_now");
    assert_eq!(f.status, "/sys/class/power_supply/BAT0/status");
}
