use kiosk_serial::config::{
    apply_config_update, config_key, default_config, default_manager_ip_url,
    default_popup_timers, default_primary_server_url, default_qr_server_url,
    default_rfid_server_url, default_secondary_server_url, fresh_default_config, parse_bool,
    set_serial_data, ConfigError, ConfigKey, ConfigUpdate, SerialData,
};
use kiosk_serial::logging::{LogLevel, Logger};
use kiosk_serial::login::{login_headers, login_url, login_verdict, LoginVerdict, RELEASE_VERSION};

#[test]
fn default_urls() {
    assert_eq!(default_primary_server_url(), "http://k-rsv.snu.ac.kr:8011/NEW_SNU_BOOKING/");
    assert_eq!(default_secondary_server_url(), "http://k-rsv.snu.ac.kr:8012/SEATAPI/");
    assert_eq!(default_qr_server_url(), "https://libapp.snu.ac.kr/SNU_MOB/qrCheck.do");
    assert_eq!(default_rfid_server_url(), "https://libapp.snu.ac.kr/SNU_MOB/qrCheck.do");
    assert_eq!(default_manager_ip_url(), "http://192.168.1.3:5841");
}

#[test]
fn default_timers_are_ten_active_numbered_timers() {
    let t = default_popup_timers();
    assert_eq!(t.len(), 10);
    for (i, timer) in t.iter().enumerate() {
        assert_eq!(timer.id as usize, i + 1);
        assert!(timer.state);
    }
    assert_eq!(t[0].name, "KEYBOARD TIMER");
    assert_eq!(t[0].time, Some(30));
    assert_eq!(t[6].time, Some(180));
    assert_eq!(t[8].name, "SESSION TIMER REMINDER");
    assert_eq!(t[9].name, "RESET TIMER ON TOUCH");
    assert_eq!(t[9].time, None);
}

#[test]
fn default_config_for_machine() {
    let c = default_config("m-1".to_string());
    assert_eq!(c.machine_id, "m-1");
    assert_eq!(c.primary_server_url, "http://k-rsv.snu.ac.kr:8011/NEW_SNU_BOOKING");
    assert_eq!(c.qr_server_url, "https://libapp.snu.ac.kr/SNU_MOB");
    assert!(c.kiosk_mode);
    assert!(!c.debug_mode);
    assert_eq!(c.serialdata.len(), 7);
    assert_eq!(c.serialdata[6].name, "HUMAN_SENSOR");
    assert_eq!(c.serialdata[6].baudrate, 9600);
    assert_eq!(c.serialdata[0].baudrate, 0);
    assert_eq!(c.serialdata[0].port, "");
    assert_eq!(c.popup_timers.len(), 10);
}

#[test]
fn fresh_default_config_gets_a_random_identity() {
    let a = fresh_default_config();
    let b = fresh_default_config();
    assert_eq!(a.machine_id.len(), 36);
    assert_ne!(a.machine_id, b.machine_id);
}

#[test]
fn update_sets_an_address() {
    let mut c = default_config("m".to_string());
    assert_eq!(apply_config_update(&mut c, "qr_server_url", "http://x/"), Ok(ConfigUpdate::Applied));
    assert_eq!(c.qr_server_url, "http://x/");
    assert_eq!(c.rfid_server_url, "https://libapp.snu.ac.kr/SNU_MOB");
}

#[test]
fn update_kiosk_mode_reads_booleans() {
    let mut c = default_config("m".to_string());
    assert_eq!(apply_config_update(&mut c, "kiosk_mode", "false"), Ok(ConfigUpdate::Applied));
    assert!(!c.kiosk_mode);
    assert_eq!(apply_config_update(&mut c, "kiosk_mode", "yes"), Err(ConfigError::InvalidBool));
    assert!(!c.kiosk_mode);
    assert_eq!(parse_bool("true"), Some(true));
    assert_eq!(parse_bool("True"), None);
}

#[test]
fn update_unknown_key_changes_nothing() {
    let mut c = default_config("m".to_string());
    assert_eq!(apply_config_update(&mut c, "colour", "red"), Ok(ConfigUpdate::UnknownKey));
    assert_eq!(c.manager_ip_url, "http://192.168.1.3:5841");
}

#[test]
fn update_serial_data_is_handed_back() {
    let mut c = default_config("m".to_string());
    assert_eq!(apply_config_update(&mut c, "serialdata", "[]"), Ok(ConfigUpdate::SerialDataPending));
    assert_eq!(c.serialdata.len(), 7);
    let d = SerialData {
        id: 1,
        port: "COM3".to_string(),
        baudrate: 115200,
        name: "RFID".to_string(),
        stopbit: 1,
        databit: 8,
        parity: 0,
    };
    set_serial_data(&mut c, vec![d]);
    assert_eq!(c.serialdata.len(), 1);
    assert_eq!(c.serialdata[0].port, "COM3");
    assert_eq!(config_key("serialdata"), Some(ConfigKey::SerialData));
}

#[test]
fn log_levels() {
    assert_eq!(LogLevel::WARN.as_str(), "WARN");
    assert_eq!(LogLevel::DEBUG.as_str(), "DEBUG");
    assert_eq!(LogLevel::from_name("error"), LogLevel::ERROR);
    assert_eq!(LogLevel::from_name("debug"), LogLevel::DEBUG);
    assert_eq!(LogLevel::from_name("loud"), LogLevel::INFO);
}

#[test]
fn login_url_trims_trailing_slashes() {
    assert_eq!(
        login_url("http://h:8011/NEW_SNU_BOOKING//", "abc"),
        "http://h:8011/NEW_SNU_BOOKINGapi/v1/kiosk/login/abc?version=1.1.3"
    );
    assert_eq!(login_url("", "x"), "api/v1/kiosk/login/x?version=1.1.3");
}

#[test]
fn login_headers_carry_identity_and_version() {
    let h = login_headers("id-7");
    assert_eq!(h[0], ("x-kiosk-uuid".to_string(), "id-7".to_string()));
    assert_eq!(h[1], ("x-kiosk-version".to_string(), RELEASE_VERSION.to_string()));
    assert_eq!(h[2], ("x-machine-id".to_string(), "id-7".to_string()));
}

#[test]
fn login_verdicts() {
    assert_eq!(login_verdict(false, true, true), LoginVerdict::NetworkError);
    assert_eq!(login_verdict(true, true, false), LoginVerdict::UndecodableBody);
    assert_eq!(login_verdict(true, true, true), LoginVerdict::Accepted);
    assert_eq!(login_verdict(true, false, true), LoginVerdict::Rejected);
}

#[test]
fn log_lines_are_laid_out() {
    assert_eq!(Logger::log_file_name("2025-10-28"), "2025-10-28.log");
    assert_eq!(Logger::log_line("[t]", LogLevel::INFO, "hello"), "[t] [INFO] hello\n");
    assert_eq!(
        Logger::error_line("[t]", "serial.rs", "open", 4207, "bad"),
        "[t] [ERROR] f@serial.rs | fn@->open | line@4207 bad\n"
    );
    assert_eq!(Logger::error_line("[t]", "a", "b", 0, "c"), "[t] [ERROR] f@a | fn@->b | line@0 c\n");
    let l = Logger::new("/var/log/kiosk".to_string());
    assert_eq!(l.log_dir(), "/var/log/kiosk");
}
