use hypr_utils::args::{JsonFormat, Options, SystemCmd};
use hypr_utils::system::handle_cmd;

fn battery_cmd(
    num_spaces: u32,
    override_percentage: Option<u8>,
    override_charging: Option<bool>,
) -> SystemCmd {
    SystemCmd::Battery { num_spaces, override_percentage, override_charging }
}

#[test]
fn battery_line_shows_icon_spaces_and_percentage() {
    let line = handle_cmd(&battery_cmd(1, Some(50), Some(false)), 0, false);
    assert_eq!(line, "\u{f242} 50%\n");

    let line = handle_cmd(&battery_cmd(3, Some(7), Some(false)), 0, false);
    assert_eq!(line, "\u{f244}   7%\n");

    let line = handle_cmd(&battery_cmd(0, Some(100), Some(false)), 0, false);
    assert_eq!(line, "\u{f240}100%\n");
}

#[test]
fn charging_always_shows_the_charger_icon() {
    let line = handle_cmd(&battery_cmd(1, Some(5), Some(true)), 0, false);
    assert_eq!(line, "\u{f1e6} 5%\n");
    let line = handle_cmd(&battery_cmd(1, None, None), 42, true);
    assert_eq!(line, "\u{f1e6} 42%\n");
    // On the charger the level is not capped at 100.
    let line = handle_cmd(&battery_cmd(1, Some(200), Some(true)), 0, false);
    assert_eq!(line, "\u{f1e6} 200%\n");
}

#[test]
fn icon_steps_with_the_charge_level() {
    let expect = [
        (0, '\u{f244}'),
        (19, '\u{f244}'),
        (20, '\u{f243}'),
        (39, '\u{f243}'),
        (40, '\u{f242}'),
        (59, '\u{f242}'),
        (60, '\u{f241}'),
        (79, '\u{f241}'),
        (80, '\u{f240}'),
        (100, '\u{f240}'),
    ];
    for (level, icon) in expect {
        let line = handle_cmd(&battery_cmd(1, None, Some(false)), level, false);
        assert_eq!(line.chars().next().unwrap(), icon, "at level {level}");
    }
}

#[test]
fn defaults_are_the_convenient_format() {
    let options = Options::default();
    assert_eq!(options.json_format, JsonFormat::Convenient);
    assert_eq!(options.config_dir, String::new());
    assert_eq!(JsonFormat::default(), JsonFormat::Convenient);
}
