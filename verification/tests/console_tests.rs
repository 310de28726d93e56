use waveshare_s3_3p::config::{Config, OrientationMode, StoredConfig};
use waveshare_s3_3p::console::{
    apply_debug, decide_flip, mask_key, post_request, print_help, process_line, record_flip,
    record_setting, Command, CommandKind, FlipOutcome, LineEditor,
};
use waveshare_s3_3p::debug_flags::{is_on, DebugFlags, DebugModule, Requests};

fn kind(line: &str) -> CommandKind {
    let c = process_line(line);
    assert_eq!(c.arg2, "");
    c.kind
}

fn parsed(line: &str) -> (CommandKind, String, String) {
    let c = process_line(line);
    (c.kind, c.arg, c.arg2)
}

fn one(k: CommandKind, arg: &str) -> (CommandKind, String, String) {
    (k, String::from(arg), String::new())
}

fn defaults() -> Config {
    let stored = StoredConfig {
        wifi_ssid: None,
        wifi_pass: None,
        weather_api_key: None,
        weather_query: None,
        timezone: None,
        use_celsius: None,
        orientation: None,
        orientation_flip: None,
        flash_time: None,
        alerts_enabled: None,
        alerts_auto_scope: None,
        nws_user_agent: None,
        nws_scope: None,
        nws_zone: None,
    };
    Config::load(&stored, &(None, None, None))
}

fn type_bytes(editor: &mut LineEditor, bytes: &[u8]) -> Vec<String> {
    let mut lines = Vec::new();
    for b in bytes {
        if let Some(line) = editor.feed(*b) {
            lines.push(line);
        }
    }
    lines
}

#[test]
fn editor_collects_lines() {
    let mut e = LineEditor::new();
    assert_eq!(type_bytes(&mut e, b"status\nhelp\r"), vec!["status", "help"]);
    assert_eq!(type_bytes(&mut e, b"\n\r\n"), Vec::<String>::new());
    assert_eq!(type_bytes(&mut e, b"wifi show\r\n"), vec!["wifi show"]);
}

#[test]
fn editor_handles_backspace_and_delete() {
    let mut e = LineEditor::new();
    assert_eq!(type_bytes(&mut e, b"\x08\x7fhelpx\x7f\n"), vec!["help"]);
    assert_eq!(type_bytes(&mut e, b"ab\x08\x08\x08c\n"), vec!["c"]);
    assert_eq!(type_bytes(&mut e, b"a\x08\n"), Vec::<String>::new());
}

#[test]
fn editor_drops_escape_sequences() {
    let mut e = LineEditor::new();
    assert_eq!(type_bytes(&mut e, b"he\x1b[Alp\n"), vec!["help"]);
    assert_eq!(type_bytes(&mut e, b"a\x1b[15~b\n"), vec!["ab"]);
    assert_eq!(type_bytes(&mut e, b"a\x1b[1;5\nCb\n"), vec!["ab"]);
    assert_eq!(type_bytes(&mut e, b"\x1b\x1bZok\n"), vec!["ok"]);
}

#[test]
fn editor_drops_control_bytes_and_keeps_high_bytes() {
    let mut e = LineEditor::new();
    assert_eq!(type_bytes(&mut e, b"a\x00\x01\x09\x1fb \n"), vec!["ab "]);
    assert_eq!(type_bytes(&mut e, &[0xE9, 0xFF, b'\n']), vec!["\u{e9}\u{ff}"]);
}

#[test]
fn empty_lines() {
    assert_eq!(kind(""), CommandKind::Empty);
    assert_eq!(kind("   \t "), CommandKind::Empty);
    assert_eq!(kind(" \\\\ "), CommandKind::Empty);
}

#[test]
fn simple_commands() {
    assert_eq!(kind("help"), CommandKind::Help);
    assert_eq!(kind("?"), CommandKind::Help);
    assert_eq!(kind("  status  "), CommandKind::Status);
    assert_eq!(kind("reboot"), CommandKind::Reboot);
    assert_eq!(kind("reboot\\"), CommandKind::Reboot);
    assert_eq!(kind("help me please"), CommandKind::Help);
}

#[test]
fn unknown_commands_keep_their_name() {
    assert_eq!(parsed("frobnicate now"), one(CommandKind::Unknown, "frobnicate"));
    assert_eq!(parsed("HELP"), one(CommandKind::Unknown, "HELP"));
    assert_eq!(parsed("wifi\\x"), one(CommandKind::Unknown, "wifi\\x"));
}

#[test]
fn wifi_commands() {
    assert_eq!(kind("wifi show"), CommandKind::WifiShow);
    assert_eq!(kind("wifi scan"), CommandKind::WifiScan);
    assert_eq!(kind("wifi clear"), CommandKind::WifiClear);
    assert_eq!(kind("wifi"), CommandKind::Help);
    assert_eq!(kind("wifi frob"), CommandKind::Help);
    assert_eq!(kind("wifi set"), CommandKind::WifiSetUsage);
    assert_eq!(kind("wifi set \"\""), CommandKind::WifiSetUsage);
    assert_eq!(
        parsed("wifi set home secret"),
        (CommandKind::WifiSet, String::from("home"), String::from("secret"))
    );
    assert_eq!(
        parsed("wifi set 'home' \"my pass word\" "),
        (CommandKind::WifiSet, String::from("home"), String::from("my pass word"))
    );
    assert_eq!(
        parsed("wifi set open"),
        (CommandKind::WifiSet, String::from("open"), String::new())
    );
    assert_eq!(
        parsed("wifi set home    spaced  "),
        (CommandKind::WifiSet, String::from("home"), String::from("spaced"))
    );
}

#[test]
fn doubled_space_leaves_the_action_empty() {
    assert_eq!(kind("wifi  show"), CommandKind::Help);
    assert_eq!(kind("alerts  on"), CommandKind::AlertsShow);
    assert_eq!(kind("i2c  bogus"), CommandKind::I2cScan);
}

#[test]
fn api_commands() {
    assert_eq!(kind("api show"), CommandKind::ApiShow);
    assert_eq!(kind("api clear"), CommandKind::ApiClear);
    assert_eq!(kind("api"), CommandKind::Help);
    assert_eq!(kind("api set-key"), CommandKind::ApiSetKeyUsage);
    assert_eq!(kind("api set-key ''"), CommandKind::ApiSetKeyUsage);
    assert_eq!(kind("api set-query   "), CommandKind::ApiSetQueryUsage);
    assert_eq!(parsed("api set-key abc123"), one(CommandKind::ApiSetKey, "abc123"));
    assert_eq!(parsed("api set-key \"'abc123'\""), one(CommandKind::ApiSetKey, "abc123"));
    assert_eq!(parsed("api set-query q=New York,US"), one(CommandKind::ApiSetQuery, "q=New York,US"));
    assert_eq!(parsed("api set-query \"zip=1,US\""), one(CommandKind::ApiSetQuery, "zip=1,US"));
}

#[test]
fn alerts_commands() {
    assert_eq!(kind("alerts"), CommandKind::AlertsShow);
    assert_eq!(kind("alerts show"), CommandKind::AlertsShow);
    for word in ["on", "enable", "enabled"] {
        assert_eq!(kind(&format!("alerts {}", word)), CommandKind::AlertsOn);
        assert_eq!(kind(&format!("alerts auto-scope {}", word)), CommandKind::AlertsAutoScopeOn);
    }
    for word in ["off", "disable", "disabled"] {
        assert_eq!(kind(&format!("alerts {}", word)), CommandKind::AlertsOff);
        assert_eq!(kind(&format!("alerts auto-scope {}", word)), CommandKind::AlertsAutoScopeOff);
    }
    assert_eq!(kind("alerts auto-scope TRUE"), CommandKind::AlertsAutoScopeOn);
    assert_eq!(kind("alerts auto-scope 0"), CommandKind::AlertsAutoScopeOff);
    assert_eq!(kind("alerts auto-scope"), CommandKind::AlertsAutoScopeShow);
    assert_eq!(kind("alerts auto-scope Show"), CommandKind::AlertsAutoScopeShow);
    assert_eq!(kind("alerts auto-scope maybe"), CommandKind::AlertsAutoScopeUsage);
    assert_eq!(kind("alerts zone"), CommandKind::AlertsZoneShow);
    assert_eq!(kind("alerts zone show"), CommandKind::AlertsZoneShow);
    assert_eq!(kind("alerts zone CLEAR"), CommandKind::AlertsZoneClear);
    assert_eq!(kind("alerts zone drop"), CommandKind::AlertsZoneUsage);
    assert_eq!(kind("alerts ua"), CommandKind::AlertsUaUsage);
    assert_eq!(kind("alerts scope"), CommandKind::AlertsScopeUsage);
    assert_eq!(kind("alerts On"), CommandKind::AlertsUsage);
    assert_eq!(kind("alerts bogus"), CommandKind::AlertsUsage);
    assert_eq!(parsed("alerts ua me/1.0 (me@x.org)"), one(CommandKind::AlertsUa, "me/1.0 (me@x.org)"));
    assert_eq!(parsed("alerts scope area=KS"), one(CommandKind::AlertsScope, "area=KS"));
}

#[test]
fn flash_commands() {
    assert_eq!(kind("flash"), CommandKind::FlashShow);
    assert_eq!(kind("flash show"), CommandKind::FlashShow);
    assert_eq!(kind("flash set-time"), CommandKind::FlashSetTimeUsage);
    assert_eq!(kind("flash erase"), CommandKind::FlashUsage);
    assert_eq!(
        parsed("flash set-time 2024-05-01 12:00"),
        one(CommandKind::FlashSetTime, "2024-05-01 12:00")
    );
}

#[test]
fn orientation_commands() {
    assert_eq!(kind("orientation"), CommandKind::OrientationShow);
    assert_eq!(kind("orientation show"), CommandKind::OrientationShow);
    assert_eq!(kind("orientation auto"), CommandKind::OrientationSet(OrientationMode::Auto));
    assert_eq!(kind("orientation Landscape"), CommandKind::OrientationSet(OrientationMode::Landscape));
    assert_eq!(kind("orientation PORTRAIT x"), CommandKind::OrientationSet(OrientationMode::Portrait));
    assert_eq!(kind("orientation sideways"), CommandKind::OrientationUsage);
    assert_eq!(kind("orientation flip"), CommandKind::FlipToggle);
    assert_eq!(kind("orientation flip toggle"), CommandKind::FlipToggle);
    assert_eq!(kind("orientation flip show"), CommandKind::FlipShow);
    for word in ["on", "1", "true"] {
        assert_eq!(kind(&format!("orientation flip {}", word)), CommandKind::FlipOn);
    }
    for word in ["off", "0", "false"] {
        assert_eq!(kind(&format!("orientation flip {}", word)), CommandKind::FlipOff);
    }
    assert_eq!(kind("orientation flip ON"), CommandKind::FlipUsage);
    assert_eq!(kind("orientation flip sideways"), CommandKind::FlipUsage);
}

#[test]
fn diagnostic_commands() {
    assert_eq!(kind("i2c"), CommandKind::I2cScan);
    assert_eq!(kind("i2c scan"), CommandKind::I2cScan);
    assert_eq!(kind("i2c read"), CommandKind::I2cUsage);
    assert_eq!(kind("imu"), CommandKind::ImuRead);
    assert_eq!(kind("imu read"), CommandKind::ImuRead);
    assert_eq!(kind("imu scan"), CommandKind::ImuUsage);
    assert_eq!(kind("debug"), CommandKind::DebugShow);
    assert_eq!(kind("debug show"), CommandKind::DebugShow);
    assert_eq!(kind("debug touch"), CommandKind::DebugToggle(DebugModule::Touch));
    for word in ["bme280", "bme", "sensor"] {
        assert_eq!(kind(&format!("debug {}", word)), CommandKind::DebugToggle(DebugModule::Bme280));
    }
    assert_eq!(kind("debug wifi"), CommandKind::DebugToggle(DebugModule::Wifi));
    assert_eq!(kind("debug weather"), CommandKind::DebugToggle(DebugModule::Weather));
    assert_eq!(kind("debug api"), CommandKind::DebugToggle(DebugModule::Weather));
    assert_eq!(kind("debug imu"), CommandKind::DebugToggle(DebugModule::Imu));
    assert_eq!(kind("debug all"), CommandKind::DebugAll);
    assert_eq!(parsed("debug radio"), one(CommandKind::DebugUnknown, "radio"));
}

#[test]
fn debug_commands_switch_the_flags() {
    let mut flags = DebugFlags::new();
    assert_eq!(apply_debug(&mut flags, CommandKind::DebugToggle(DebugModule::Imu)), Some(true));
    assert!(is_on(&flags, DebugModule::Imu));
    assert_eq!(apply_debug(&mut flags, CommandKind::DebugAll), Some(true));
    assert_eq!(flags, DebugFlags { touch: true, bme280: true, wifi: true, weather: true, imu: true });
    assert_eq!(apply_debug(&mut flags, CommandKind::DebugAll), Some(false));
    assert_eq!(flags, DebugFlags::new());
    assert_eq!(apply_debug(&mut flags, CommandKind::DebugShow), None);
    assert_eq!(apply_debug(&mut flags, CommandKind::Status), None);
    assert_eq!(flags, DebugFlags::new());
}

#[test]
fn commands_post_their_requests() {
    let mut requests = Requests::new();
    assert!(!post_request(&mut requests, CommandKind::Status));
    assert!(!post_request(&mut requests, CommandKind::FlipOn));
    assert!(!requests.i2c_scan.is_pending());
    assert!(post_request(&mut requests, CommandKind::I2cScan));
    assert!(post_request(&mut requests, CommandKind::ImuRead));
    assert!(post_request(&mut requests, CommandKind::OrientationSet(OrientationMode::Portrait)));
    assert_eq!(requests.i2c_scan.take(), Some(()));
    assert_eq!(requests.imu_read.take(), Some(()));
    assert_eq!(requests.orientation_mode.take(), Some(OrientationMode::Portrait));
    assert_eq!(requests.orientation_flip.take(), None);
}

#[test]
fn flip_is_unavailable_in_auto_mode() {
    let cfg = defaults();
    for k in [
        CommandKind::FlipToggle,
        CommandKind::FlipShow,
        CommandKind::FlipOn,
        CommandKind::FlipOff,
        CommandKind::FlipUsage,
    ] {
        assert_eq!(decide_flip(&cfg, k), FlipOutcome::Unavailable);
    }
    assert_eq!(decide_flip(&cfg, CommandKind::Status), FlipOutcome::NotAFlip);
}

#[test]
fn flip_in_a_locked_mode() {
    let mut cfg = defaults();
    cfg.orientation_mode = OrientationMode::Landscape;
    assert_eq!(decide_flip(&cfg, CommandKind::FlipToggle), FlipOutcome::Store(true));
    assert_eq!(decide_flip(&cfg, CommandKind::FlipOn), FlipOutcome::Store(true));
    assert_eq!(decide_flip(&cfg, CommandKind::FlipOff), FlipOutcome::Store(false));
    assert_eq!(decide_flip(&cfg, CommandKind::FlipShow), FlipOutcome::Show);
    assert_eq!(decide_flip(&cfg, CommandKind::FlipUsage), FlipOutcome::Usage);
    let mut requests = Requests::new();
    record_flip(&mut cfg, &mut requests, true);
    assert!(cfg.orientation_flip);
    assert_eq!(requests.orientation_flip.take(), Some(true));
    assert_eq!(decide_flip(&cfg, CommandKind::FlipToggle), FlipOutcome::Store(false));
}

fn command(k: CommandKind, arg: &str, arg2: &str) -> Command {
    Command { kind: k, arg: String::from(arg), arg2: String::from(arg2) }
}

#[test]
fn stored_settings_are_recorded() {
    let mut cfg = defaults();
    record_setting(&mut cfg, &command(CommandKind::WifiSet, "home", "secret"));
    assert_eq!((cfg.wifi_ssid.as_str(), cfg.wifi_pass.as_str()), ("home", "secret"));
    record_setting(&mut cfg, &command(CommandKind::ApiSetKey, "abc", ""));
    assert_eq!(cfg.weather_api_key, "abc");
    record_setting(&mut cfg, &command(CommandKind::ApiSetQuery, "q=Oslo,NO", ""));
    assert_eq!(cfg.weather_query, "q=Oslo,NO");
    record_setting(&mut cfg, &command(CommandKind::AlertsOff, "", ""));
    assert!(!cfg.alerts_enabled);
    record_setting(&mut cfg, &command(CommandKind::AlertsOn, "", ""));
    assert!(cfg.alerts_enabled);
    record_setting(&mut cfg, &command(CommandKind::AlertsAutoScopeOff, "", ""));
    assert!(!cfg.alerts_auto_scope);
    record_setting(&mut cfg, &command(CommandKind::AlertsAutoScopeOn, "", ""));
    assert!(cfg.alerts_auto_scope);
    record_setting(&mut cfg, &command(CommandKind::AlertsUa, "me/1.0", ""));
    assert_eq!(cfg.nws_user_agent, "me/1.0");
    record_setting(&mut cfg, &command(CommandKind::AlertsScope, "area=KS", ""));
    assert_eq!(cfg.nws_scope, "area=KS");
    cfg.nws_zone = String::from("KSZ001");
    record_setting(&mut cfg, &command(CommandKind::AlertsZoneClear, "", ""));
    assert_eq!(cfg.nws_zone, "");
    record_setting(&mut cfg, &command(CommandKind::FlashSetTime, "today", ""));
    assert_eq!(cfg.flash_time, "today");
    record_setting(&mut cfg, &command(CommandKind::OrientationSet(OrientationMode::Portrait), "", ""));
    assert_eq!(cfg.orientation_mode, OrientationMode::Portrait);
    record_setting(&mut cfg, &command(CommandKind::WifiClear, "", ""));
    assert_eq!((cfg.wifi_ssid.as_str(), cfg.wifi_pass.as_str()), ("", ""));
    record_setting(&mut cfg, &command(CommandKind::ApiClear, "", ""));
    assert_eq!(cfg.weather_api_key, "");
    assert_eq!(cfg.weather_query, "q=New York,US");
}

#[test]
fn other_commands_record_nothing() {
    let mut cfg = defaults();
    for k in [CommandKind::Status, CommandKind::WifiShow, CommandKind::FlipOn, CommandKind::Unknown] {
        record_setting(&mut cfg, &command(k, "x", "y"));
    }
    assert_eq!(cfg.wifi_ssid, "");
    assert_eq!(cfg.weather_query, "zip=00000,US");
    assert_eq!(cfg.orientation_mode, OrientationMode::Auto);
    assert!(!cfg.orientation_flip);
}

#[test]
fn secrets_are_masked() {
    assert_eq!(mask_key(""), "");
    assert_eq!(mask_key("abcd"), "abcd");
    assert_eq!(mask_key("abcde"), "****bcde");
    assert_eq!(mask_key("0123456789abcdef"), "****cdef");
    assert_eq!(mask_key("schlüssel"), "****ssel");
}

#[test]
fn help_text() {
    let lines = print_help();
    assert_eq!(lines.len(), 26);
    assert_eq!(lines[0], "commands:");
    assert_eq!(lines[19], "  orientation auto|landscape|portrait");
    assert_eq!(lines[25], "  reboot                     - reboot device");
}
