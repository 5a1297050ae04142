use sway_alttab::command::{focus_command, Settings};
use sway_alttab::text::push_decimal;

fn decimal(value: i64) -> String {
    let mut out = String::new();
    push_decimal(&mut out, value);
    out
}

#[test]
fn focus_command_names_the_window() {
    assert_eq!(focus_command(2), "[con_id=2] focus");
    assert_eq!(focus_command(3), "[con_id=3] focus");
    assert_eq!(focus_command(94_371_840), "[con_id=94371840] focus");
}

#[test]
fn focus_command_of_zero_and_negative_identifiers() {
    assert_eq!(focus_command(0), "[con_id=0] focus");
    assert_eq!(focus_command(-17), "[con_id=-17] focus");
}

#[test]
fn decimal_text_of_single_digits() {
    for value in 0..10_i64 {
        assert_eq!(decimal(value), value.to_string());
    }
}

#[test]
fn decimal_text_at_powers_of_ten() {
    let mut value: i64 = 1;
    for _ in 0..18 {
        assert_eq!(decimal(value), value.to_string());
        assert_eq!(decimal(value - 1), (value - 1).to_string());
        assert_eq!(decimal(-value), (-value).to_string());
        value *= 10;
    }
}

#[test]
fn decimal_text_at_the_limits() {
    assert_eq!(decimal(i64::MAX), "9223372036854775807");
    assert_eq!(decimal(i64::MIN), "-9223372036854775808");
    assert_eq!(decimal(i64::MIN + 1), "-9223372036854775807");
    assert_eq!(decimal(-1), "-1");
}

#[test]
fn decimal_text_is_appended_to_what_is_there() {
    let mut out = String::from("id ");
    push_decimal(&mut out, 1205);
    assert_eq!(out, "id 1205");
    push_decimal(&mut out, -3);
    assert_eq!(out, "id 1205-3");
}

#[test]
fn settings_take_their_defaults() {
    let settings = Settings::new(None, None);
    assert_eq!(settings.key_combo(), "Mod1+Tab");
    assert_eq!(settings.runtime_dir(), "/tmp");
    assert_eq!(settings.pid_file(), "/tmp/sway-alttab.pid");
}

#[test]
fn settings_keep_what_was_chosen() {
    let settings = Settings::new(
        Some(String::from("Mod4+grave")),
        Some(String::from("/run/user/1000")),
    );
    assert_eq!(settings.key_combo(), "Mod4+grave");
    assert_eq!(settings.runtime_dir(), "/run/user/1000");
    assert_eq!(settings.pid_file(), "/run/user/1000/sway-alttab.pid");
}

#[test]
fn each_setting_defaults_on_its_own() {
    let only_combo = Settings::new(Some(String::from("Mod1+q")), None);
    assert_eq!(only_combo.key_combo(), "Mod1+q");
    assert_eq!(only_combo.pid_file(), "/tmp/sway-alttab.pid");
    let only_dir = Settings::new(None, Some(String::from("/var/run")));
    assert_eq!(only_dir.key_combo(), "Mod1+Tab");
    assert_eq!(only_dir.pid_file(), "/var/run/sway-alttab.pid");
}

#[test]
fn bind_command_with_defaults() {
    let settings = Settings::new(None, None);
    assert_eq!(
        settings.bind_command(),
        "bindsym Mod1+Tab exec pkill -USR1 -F /tmp/sway-alttab.pid"
    );
}

#[test]
fn unbind_command_with_defaults() {
    let settings = Settings::new(None, None);
    assert_eq!(
        settings.unbind_command(),
        "unbindsym Mod1+Tab exec pkill -USR1 -F /tmp/sway-alttab.pid"
    );
}

#[test]
fn bind_and_unbind_name_the_same_chord_and_pid_file() {
    let settings = Settings::new(
        Some(String::from("Mod4+Tab")),
        Some(String::from("/run/user/1000")),
    );
    let bind = settings.bind_command();
    let unbind = settings.unbind_command();
    assert_eq!(bind, "bindsym Mod4+Tab exec pkill -USR1 -F /run/user/1000/sway-alttab.pid");
    assert_eq!(unbind, format!("un{}", bind));
    assert!(bind.ends_with(&settings.pid_file()));
}

#[test]
fn empty_settings_are_kept_empty() {
    let settings = Settings::new(Some(String::new()), Some(String::new()));
    assert_eq!(settings.key_combo(), "");
    assert_eq!(settings.pid_file(), "/sway-alttab.pid");
    assert_eq!(settings.bind_command(), "bindsym  exec pkill -USR1 -F /sway-alttab.pid");
}

#[test]
fn different_windows_get_different_commands() {
    let windows: [i64; 9] = [0, 1, -1, 10, 100, 101, 110, -110, i64::MAX];
    for a in windows {
        for b in windows {
            assert_eq!(focus_command(a) == focus_command(b), a == b);
        }
    }
}
