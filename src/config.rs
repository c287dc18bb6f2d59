//! The configuration record consumed by the core: per-device serial settings,
//! server addresses, popup timers, and its defaults and key updates.
use vstd::prelude::*;
use crate::text::str_equals;

verus! {

/// Serial settings of one logical device.
#[derive(Clone, Debug)]
pub struct SerialData {
    pub id: u32,
    pub port: String,
    pub baudrate: u32,
    pub name: String,
    pub stopbit: u32,
    pub databit: u32,
    pub parity: u32,
}

/// Timeout and state of one UI popup.
#[derive(Clone, Debug)]
pub struct PopupTimer {
    pub id: u32,
    pub name: String,
    /// Timeout in seconds, if the popup has one.
    pub time: Option<u32>,
    pub state: bool,
}

/// The whole configuration record.
#[derive(Debug)]
pub struct Config {
    pub machine_id: String,
    pub primary_server_url: String,
    pub secondary_server_url: String,
    pub qr_server_url: String,
    pub rfid_server_url: String,
    pub manager_ip_url: String,
    pub kiosk_mode: bool,
    pub debug_mode: bool,
    pub serialdata: Vec<SerialData>,
    pub popup_timers: Vec<PopupTimer>,
}

/// A text value as a `String`.
fn text(s: &str) -> (r: String)
    ensures
        r@ == s@,
{
    s.to_owned()
}

/// Primary server address used when the record names none.
pub fn default_primary_server_url() -> (r: String)
    ensures
        r@ == "http://k-rsv.snu.ac.kr:8011/NEW_SNU_BOOKING/"@,
{
    text("http://k-rsv.snu.ac.kr:8011/NEW_SNU_BOOKING/")
}

/// Secondary server address used when the record names none.
pub fn default_secondary_server_url() -> (r: String)
    ensures
        r@ == "http://k-rsv.snu.ac.kr:8012/SEATAPI/"@,
{
    text("http://k-rsv.snu.ac.kr:8012/SEATAPI/")
}

/// QR check address used when the record names none.
pub fn default_qr_server_url() -> (r: String)
    ensures
        r@ == "https://libapp.snu.ac.kr/SNU_MOB/qrCheck.do"@,
{
    text("https://libapp.snu.ac.kr/SNU_MOB/qrCheck.do")
}

/// RFID check address used when the record names none.
pub fn default_rfid_server_url() -> (r: String)
    ensures
        r@ == "https://libapp.snu.ac.kr/SNU_MOB/qrCheck.do"@,
{
    text("https://libapp.snu.ac.kr/SNU_MOB/qrCheck.do")
}

/// Manager address used when the record names none.
pub fn default_manager_ip_url() -> (r: String)
    ensures
        r@ == "http://192.168.1.3:5841"@,
{
    text("http://192.168.1.3:5841")
}

/// Name of the default popup timer at position `i`.
pub open spec fn default_timer_name(i: int) -> Seq<char> {
    if i == 0 {
        "KEYBOARD TIMER"@
    } else if i == 1 {
        "HISTORY PAGE TIMER"@
    } else if i == 2 {
        "SUCCESS TIMER"@
    } else if i == 3 {
        "ERROR TIMER"@
    } else if i == 4 {
        "WARNING TIMER"@
    } else if i == 5 {
        "PRINTER TIMER"@
    } else if i == 6 {
        "LOG OUT TIMER"@
    } else if i == 7 {
        "LOG OUT FLOOR TIMER"@
    } else if i == 8 {
        "SESSION TIMER REMINDER"@
    } else {
        "RESET TIMER ON TOUCH"@
    }
}

/// Timeout of the default popup timer at position `i`.
pub open spec fn default_timer_time(i: int) -> Option<u32> {
    if i == 0 {
        Some(30u32)
    } else if i == 1 {
        Some(15u32)
    } else if i == 2 {
        Some(2u32)
    } else if i == 3 {
        Some(3u32)
    } else if i == 4 {
        Some(3u32)
    } else if i == 5 {
        Some(5u32)
    } else if i == 6 || i == 7 {
        Some(180u32)
    } else if i == 8 {
        Some(60u32)
    } else {
        None
    }
}

/// The ten default popup timers, numbered from one, all active.
pub open spec fn is_default_timers(ts: Seq<PopupTimer>) -> bool {
    &&& ts.len() == 10
    &&& forall|i: int|
        0 <= i < 10 ==> {
            &&& #[trigger] ts[i].id == i + 1
            &&& ts[i].name@ == default_timer_name(i)
            &&& ts[i].time == default_timer_time(i)
            &&& ts[i].state
        }
}

fn timer(id: u32, name: &str, time: Option<u32>) -> (r: PopupTimer)
    ensures
        r.id == id,
        r.name@ == name@,
        r.time == time,
        r.state,
{
    PopupTimer { id, name: text(name), time, state: true }
}

/// The popup timers used when the record names none.
pub fn default_popup_timers() -> (r: Vec<PopupTimer>)
    ensures
        is_default_timers(r@),
{
    let mut v: Vec<PopupTimer> = Vec::new();
    v.push(timer(1, "KEYBOARD TIMER", Some(30)));
    v.push(timer(2, "HISTORY PAGE TIMER", Some(15)));
    v.push(timer(3, "SUCCESS TIMER", Some(2)));
    v.push(timer(4, "ERROR TIMER", Some(3)));
    v.push(timer(5, "WARNING TIMER", Some(3)));
    v.push(timer(6, "PRINTER TIMER", Some(5)));
    v.push(timer(7, "LOG OUT TIMER", Some(180)));
    v.push(timer(8, "LOG OUT FLOOR TIMER", Some(180)));
    v.push(timer(9, "SESSION TIMER REMINDER", Some(60)));
    v.push(timer(10, "RESET TIMER ON TOUCH", None));
    v
}

/// Name of the default device at position `i`.
pub open spec fn default_device_name(i: int) -> Seq<char> {
    if i == 0 {
        "RFID"@
    } else if i == 1 {
        "QR"@
    } else if i == 2 {
        "BARCODE"@
    } else if i == 3 {
        "BIOMATRIC"@
    } else if i == 4 {
        "FACE"@
    } else if i == 5 {
        "PRINTER"@
    } else {
        "HUMAN_SENSOR"@
    }
}

/// The seven default devices, numbered from one, with no port chosen, one stop
/// bit, eight data bits and no parity; only the presence sensor has a baud rate.
pub open spec fn is_default_devices(ds: Seq<SerialData>) -> bool {
    &&& ds.len() == 7
    &&& forall|i: int|
        0 <= i < 7 ==> {
            &&& #[trigger] ds[i].id == i + 1
            &&& ds[i].name@ == default_device_name(i)
            &&& ds[i].port@.len() == 0
            &&& ds[i].baudrate == (if i == 6 {
                9600u32
            } else {
                0u32
            })
            &&& ds[i].stopbit == 1
            &&& ds[i].databit == 8
            &&& ds[i].parity == 0
        }
}

fn device(id: u32, name: &str, baudrate: u32) -> (r: SerialData)
    ensures
        r.id == id,
        r.name@ == name@,
        r.port@.len() == 0,
        r.baudrate == baudrate,
        r.stopbit == 1,
        r.databit == 8,
        r.parity == 0,
{
    SerialData { id, port: String::new(), baudrate, name: text(name), stopbit: 1, databit: 8, parity: 0 }
}

/// The record written when none exists yet, for the given machine identity.
pub fn default_config(machine_id: String) -> (r: Config)
    ensures
        r.machine_id@ == machine_id@,
        r.primary_server_url@ == "http://k-rsv.snu.ac.kr:8011/NEW_SNU_BOOKING"@,
        r.secondary_server_url@ == "http://k-rsv.snu.ac.kr:8012/SEATAPI"@,
        r.qr_server_url@ == "https://libapp.snu.ac.kr/SNU_MOB"@,
        r.rfid_server_url@ == "https://libapp.snu.ac.kr/SNU_MOB"@,
        r.manager_ip_url@ == "http://192.168.1.3:5841"@,
        r.kiosk_mode,
        !r.debug_mode,
        is_default_devices(r.serialdata@),
        is_default_timers(r.popup_timers@),
{
    let mut devices: Vec<SerialData> = Vec::new();
    devices.push(device(1, "RFID", 0));
    devices.push(device(2, "QR", 0));
    devices.push(device(3, "BARCODE", 0));
    devices.push(device(4, "BIOMATRIC", 0));
    devices.push(device(5, "FACE", 0));
    devices.push(device(6, "PRINTER", 0));
    devices.push(device(7, "HUMAN_SENSOR", 9600));
    Config {
        machine_id,
        primary_server_url: text("http://k-rsv.snu.ac.kr:8011/NEW_SNU_BOOKING"),
        secondary_server_url: text("http://k-rsv.snu.ac.kr:8012/SEATAPI"),
        qr_server_url: text("https://libapp.snu.ac.kr/SNU_MOB"),
        rfid_server_url: text("https://libapp.snu.ac.kr/SNU_MOB"),
        manager_ip_url: text("http://192.168.1.3:5841"),
        kiosk_mode: true,
        debug_mode: false,
        serialdata: devices,
        popup_timers: default_popup_timers(),
    }
}

/// Relies on `uuid::Uuid::new_v4` and its `Display`: a random version-4
/// identifier in hyphenated form, 36 characters long.
#[verifier::external_body]
fn new_machine_id() -> (r: String)
    ensures
        r@.len() == 36,
{
    uuid::Uuid::new_v4().to_string()
}

/// The default record for a newly generated random machine identity.
pub fn fresh_default_config() -> (r: Config)
    ensures
        r.machine_id@.len() == 36,
        r.primary_server_url@ == "http://k-rsv.snu.ac.kr:8011/NEW_SNU_BOOKING"@,
        r.secondary_server_url@ == "http://k-rsv.snu.ac.kr:8012/SEATAPI"@,
        r.qr_server_url@ == "https://libapp.snu.ac.kr/SNU_MOB"@,
        r.rfid_server_url@ == "https://libapp.snu.ac.kr/SNU_MOB"@,
        r.manager_ip_url@ == "http://192.168.1.3:5841"@,
        r.kiosk_mode,
        !r.debug_mode,
        is_default_devices(r.serialdata@),
        is_default_timers(r.popup_timers@),
{
    default_config(new_machine_id())
}

/// The keys of the record that can be updated one at a time.
#[derive(Clone, Copy, Debug, PartialEq, Eq, Structural)]
pub enum ConfigKey {
    PrimaryServerUrl,
    SecondaryServerUrl,
    QrServerUrl,
    RfidServerUrl,
    ManagerIpUrl,
    SerialData,
    KioskMode,
}

/// The key that a name selects.
pub open spec fn config_key_of(k: Seq<char>) -> Option<ConfigKey> {
    if k == "primary_server_url"@ {
        Some(ConfigKey::PrimaryServerUrl)
    } else if k == "secondary_server_url"@ {
        Some(ConfigKey::SecondaryServerUrl)
    } else if k == "qr_server_url"@ {
        Some(ConfigKey::QrServerUrl)
    } else if k == "rfid_server_url"@ {
        Some(ConfigKey::RfidServerUrl)
    } else if k == "manager_ip_url"@ {
        Some(ConfigKey::ManagerIpUrl)
    } else if k == "serialdata"@ {
        Some(ConfigKey::SerialData)
    } else if k == "kiosk_mode"@ {
        Some(ConfigKey::KioskMode)
    } else {
        None
    }
}

/// The key that a name selects, if any.
pub fn config_key(key: &str) -> (r: Option<ConfigKey>)
    ensures
        r == config_key_of(key@),
{
    if str_equals(key, "primary_server_url") {
        Some(ConfigKey::PrimaryServerUrl)
    } else if str_equals(key, "secondary_server_url") {
        Some(ConfigKey::SecondaryServerUrl)
    } else if str_equals(key, "qr_server_url") {
        Some(ConfigKey::QrServerUrl)
    } else if str_equals(key, "rfid_server_url") {
        Some(ConfigKey::RfidServerUrl)
    } else if str_equals(key, "manager_ip_url") {
        Some(ConfigKey::ManagerIpUrl)
    } else if str_equals(key, "serialdata") {
        Some(ConfigKey::SerialData)
    } else if str_equals(key, "kiosk_mode") {
        Some(ConfigKey::KioskMode)
    } else {
        None
    }
}

/// A boolean written as `true` or `false`, exactly.
pub open spec fn bool_of(s: Seq<char>) -> Option<bool> {
    if s == "true"@ {
        Some(true)
    } else if s == "false"@ {
        Some(false)
    } else {
        None
    }
}

/// Reads `true` or `false`; anything else is refused.
pub fn parse_bool(s: &str) -> (r: Option<bool>)
    ensures
        r == bool_of(s@),
{
    if str_equals(s, "true") {
        Some(true)
    } else if str_equals(s, "false") {
        Some(false)
    } else {
        None
    }
}

/// What an update did.
#[derive(Clone, Copy, Debug, PartialEq, Eq, Structural)]
pub enum ConfigUpdate {
    /// The field was set.
    Applied,
    /// The value is a JSON list of devices, left to the caller to decode and
    /// store with `set_serial_data`.
    SerialDataPending,
    /// The key names no field; nothing changed.
    UnknownKey,
}

/// Why an update was refused.
#[derive(Clone, Copy, Debug, PartialEq, Eq, Structural)]
pub enum ConfigError {
    /// The kiosk mode is neither `true` nor `false`.
    InvalidBool,
}

/// Every field but the one that `k` selects is the same in `a` and `b`.
pub open spec fn same_except(a: Config, b: Config, k: Option<ConfigKey>) -> bool {
    &&& a.machine_id == b.machine_id
    &&& a.debug_mode == b.debug_mode
    &&& a.popup_timers == b.popup_timers
    &&& k != Some(ConfigKey::PrimaryServerUrl) ==> a.primary_server_url == b.primary_server_url
    &&& k != Some(ConfigKey::SecondaryServerUrl) ==> a.secondary_server_url
        == b.secondary_server_url
    &&& k != Some(ConfigKey::QrServerUrl) ==> a.qr_server_url == b.qr_server_url
    &&& k != Some(ConfigKey::RfidServerUrl) ==> a.rfid_server_url == b.rfid_server_url
    &&& k != Some(ConfigKey::ManagerIpUrl) ==> a.manager_ip_url == b.manager_ip_url
    &&& k != Some(ConfigKey::SerialData) ==> a.serialdata == b.serialdata
    &&& k != Some(ConfigKey::KioskMode) ==> a.kiosk_mode == b.kiosk_mode
}

/// Sets the field that `key` names to `value`. An address is taken as it is;
/// the kiosk mode must read `true` or `false`; the device list is handed back
/// to the caller; an unknown key changes nothing.
pub fn apply_config_update(config: &mut Config, key: &str, value: &str) -> (r: Result<
    ConfigUpdate,
    ConfigError,
>)
    ensures
        match config_key_of(key@) {
            None => r == Ok::<ConfigUpdate, ConfigError>(ConfigUpdate::UnknownKey) && *final(config)
                == *old(config),
            Some(ConfigKey::SerialData) => r == Ok::<ConfigUpdate, ConfigError>(
                ConfigUpdate::SerialDataPending,
            ) && *final(config) == *old(config),
            Some(ConfigKey::KioskMode) => match bool_of(value@) {
                None => r == Err::<ConfigUpdate, ConfigError>(ConfigError::InvalidBool)
                    && *final(config) == *old(config),
                Some(b) => r == Ok::<ConfigUpdate, ConfigError>(ConfigUpdate::Applied)
                    && final(config).kiosk_mode == b && same_except(
                    *old(config),
                    *final(config),
                    Some(ConfigKey::KioskMode),
                ),
            },
            Some(k) => {
                &&& r == Ok::<ConfigUpdate, ConfigError>(ConfigUpdate::Applied)
                &&& same_except(*old(config), *final(config), Some(k))
                &&& k == ConfigKey::PrimaryServerUrl ==> final(config).primary_server_url@
                    == value@
                &&& k == ConfigKey::SecondaryServerUrl ==> final(config).secondary_server_url@
                    == value@
                &&& k == ConfigKey::QrServerUrl ==> final(config).qr_server_url@ == value@
                &&& k == ConfigKey::RfidServerUrl ==> final(config).rfid_server_url@ == value@
                &&& k == ConfigKey::ManagerIpUrl ==> final(config).manager_ip_url@ == value@
            },
        },
{
    match config_key(key) {
        None => Ok(ConfigUpdate::UnknownKey),
        Some(ConfigKey::SerialData) => Ok(ConfigUpdate::SerialDataPending),
        Some(ConfigKey::KioskMode) => match parse_bool(value) {
            None => Err(ConfigError::InvalidBool),
            Some(b) => {
                config.kiosk_mode = b;
                Ok(ConfigUpdate::Applied)
            },
        },
        Some(ConfigKey::PrimaryServerUrl) => {
            config.primary_server_url = text(value);
            Ok(ConfigUpdate::Applied)
        },
        Some(ConfigKey::SecondaryServerUrl) => {
            config.secondary_server_url = text(value);
            Ok(ConfigUpdate::Applied)
        },
        Some(ConfigKey::QrServerUrl) => {
            config.qr_server_url = text(value);
            Ok(ConfigUpdate::Applied)
        },
        Some(ConfigKey::RfidServerUrl) => {
            config.rfid_server_url = text(value);
            Ok(ConfigUpdate::Applied)
        },
        Some(ConfigKey::ManagerIpUrl) => {
            config.manager_ip_url = text(value);
            Ok(ConfigUpdate::Applied)
        },
    }
}

/// Stores a decoded device list.
pub fn set_serial_data(config: &mut Config, devices: Vec<SerialData>)
    ensures
        final(config).serialdata == devices,
        same_except(*old(config), *final(config), Some(ConfigKey::SerialData)),
{
    config.serialdata = devices;
}

} // verus!
