//! YubiKey tethering: unplugging the token locks the session and demotes the
//! posture; plugging it back restores the preferred one.
use vstd::prelude::*;
use crate::text::{owned, str_eq, trim_str, trimmed, opt_view};

verus! {

/// A connected YubiKey as the USB bus describes it.
#[derive(Debug, Clone)]
pub struct YubikeyDevice {
    pub vendor_id: String,
    pub product_id: String,
    pub product_name: String,
    pub serial: Option<String>,
}

/// The tether configuration.
#[derive(Debug, Clone)]
pub struct YubikeyTetherConfig {
    pub enabled: bool,
    pub lock_session_on_removal: bool,
    pub fallback_profile: String,
    pub restore_profile_on_insert: bool,
    pub preferred_profile: String,
    pub target_serial: Option<String>,
}

/// Tethering is off unless configured.
pub fn default_false() -> (r: bool)
    ensures
        !r,
{
    false
}

/// Locking and restoring are on unless configured otherwise.
pub fn default_true() -> (r: bool)
    ensures
        r,
{
    true
}

/// The posture taken when the token is removed.
pub fn default_fallback_profile() -> (r: String)
    ensures
        r@ == "travel"@,
{
    owned("travel")
}

/// The posture restored when the token returns.
pub fn default_preferred_profile() -> (r: String)
    ensures
        r@ == "work"@,
{
    owned("work")
}

impl Default for YubikeyTetherConfig {
    fn default() -> (r: Self)
        ensures
            !r.enabled,
            r.lock_session_on_removal,
            r.fallback_profile@ == "travel"@,
            r.restore_profile_on_insert,
            r.preferred_profile@ == "work"@,
            r.target_serial is None,
    {
        YubikeyTetherConfig {
            enabled: false,
            lock_session_on_removal: true,
            fallback_profile: owned("travel"),
            restore_profile_on_insert: true,
            preferred_profile: owned("work"),
            target_serial: None,
        }
    }
}

/// Yubico's USB vendor id.
pub const YUBICO_VENDOR_ID: &'static str = "1050";

/// The files of a USB device: `idVendor`, `idProduct`, `product` and
/// `serial` (`None` where a file could not be read).
#[derive(Debug)]
pub struct UsbDeviceFiles {
    pub vendor: Option<String>,
    pub product_id: Option<String>,
    pub product_name: Option<String>,
    pub serial: Option<String>,
}

/// The view of a token: vendor, product id, product name, serial.
pub open spec fn device_view(d: YubikeyDevice) -> (Seq<char>, Seq<char>, Seq<char>, Option<Seq<char>>) {
    (d.vendor_id@, d.product_id@, d.product_name@, opt_view(d.serial))
}

/// The token a USB device is, if its vendor (trimmed) is Yubico: its product
/// id and name trimmed (`unknown` and `YubiKey` when unreadable) and its
/// serial trimmed, if readable.
pub open spec fn usb_token(f: UsbDeviceFiles) -> Option<(Seq<char>, Seq<char>, Seq<char>, Option<Seq<char>>)> {
    match f.vendor {
        Some(v) => if trimmed(v@) == "1050"@ {
            Some(
                (
                    "1050"@,
                    match f.product_id {
                        Some(p) => trimmed(p@),
                        None => "unknown"@,
                    },
                    match f.product_name {
                        Some(p) => trimmed(p@),
                        None => "YubiKey"@,
                    },
                    match f.serial {
                        Some(p) => Some(trimmed(p@)),
                        None => None,
                    },
                ),
            )
        } else {
            None
        },
        None => None,
    }
}

fn trimmed_or(o: &Option<String>, d: &str) -> (r: String)
    ensures
        r@ == match o {
            Some(s) => trimmed(s@),
            None => d@,
        },
{
    match o {
        Some(s) => owned(trim_str(s.as_str())),
        None => owned(d),
    }
}

/// The token a USB device is, if it is one (see `usb_token`).
pub fn yubikey_from_usb(f: &UsbDeviceFiles) -> (r: Option<YubikeyDevice>)
    ensures
        match r {
            Some(d) => usb_token(*f) == Some(device_view(d)),
            None => usb_token(*f) is None,
        },
{
    match &f.vendor {
        Some(v) => if str_eq(trim_str(v.as_str()), YUBICO_VENDOR_ID) {
            let serial = match &f.serial {
                Some(s) => Some(owned(trim_str(s.as_str()))),
                None => None,
            };
            Some(
                YubikeyDevice {
                    vendor_id: owned(YUBICO_VENDOR_ID),
                    product_id: trimmed_or(&f.product_id, "unknown"),
                    product_name: trimmed_or(&f.product_name, "YubiKey"),
                    serial,
                },
            )
        } else {
            None
        },
        None => None,
    }
}

/// The tokens among the USB devices, in order.
pub fn detect_yubikeys(devices: &Vec<UsbDeviceFiles>) -> (r: Vec<YubikeyDevice>)
    ensures
        r@.map_values(|d: YubikeyDevice| device_view(d)) == tokens_among(devices@, devices@.len() as int),
{
    let mut r: Vec<YubikeyDevice> = Vec::new();
    let mut i: usize = 0;
    while i < devices.len()
        invariant
            i <= devices@.len(),
            r@.map_values(|d: YubikeyDevice| device_view(d)) == tokens_among(devices@, i as int),
        decreases devices.len() - i,
    {
        let ghost before = r@;
        match yubikey_from_usb(&devices[i]) {
            Some(d) => {
                r.push(d);
                assert(r@.map_values(|d: YubikeyDevice| device_view(d)) =~= before.map_values(
                    |d: YubikeyDevice| device_view(d),
                ).push(usb_token(devices@[i as int])->0));
            },
            None => {},
        }
        i = i + 1;
    }
    r
}

/// The tokens among the first `n` USB devices.
pub open spec fn tokens_among(devices: Seq<UsbDeviceFiles>, n: int) -> Seq<(Seq<char>, Seq<char>, Seq<char>, Option<Seq<char>>)>
    decreases n,
{
    if n <= 0 {
        Seq::empty()
    } else {
        match usb_token(devices[n - 1]) {
            Some(t) => tokens_among(devices, n - 1).push(t),
            None => tokens_among(devices, n - 1),
        }
    }
}

/// What a change of token presence asks for.
#[derive(Debug, Clone, PartialEq, Eq)]
pub enum TetherAction {
    LockAndDemote { fallback_profile: String },
    Restore { preferred_profile: String },
}

/// Whether a token is present among the detected devices: any token when no
/// serial is required, else one with exactly that serial.
pub open spec fn token_present(keys: Seq<YubikeyDevice>, target: Option<Seq<char>>) -> bool {
    keys.len() > 0 && match target {
        None => true,
        Some(s) => exists|i: int| 0 <= i < keys.len() && keys[i].serial is Some && keys[i].serial->0@ == s,
    }
}

/// Whether a YubiKey (with the required serial, if one is given) is among the detected devices.
#[verifier::loop_isolation(false)]
pub fn is_yubikey_present(keys: &Vec<YubikeyDevice>, target_serial: Option<&str>) -> (r: bool)
    ensures
        r == token_present(
            keys@,
            match target_serial {
                Some(s) => Some(s@),
                None => None,
            },
        ),
{
    if keys.len() == 0 {
        return false;
    }
    match target_serial {
        None => true,
        Some(expected) => {
            let mut i: usize = 0;
            while i < keys.len()
                invariant
                    i <= keys@.len(),
                    forall|j: int| 0 <= j < i ==> !(keys@[j].serial is Some && keys@[j].serial->0@ == expected@),
                decreases keys.len() - i,
            {
                if let Some(s) = &keys[i].serial {
                    if str_eq(s.as_str(), expected) {
                        assert(keys@[i as int].serial is Some && keys@[i as int].serial->0@ == expected@);
                        return true;
                    }
                }
                i = i + 1;
            }
            false
        },
    }
}

/// An action as (lock and demote?, profile).
pub open spec fn tether_view(a: Option<TetherAction>) -> Option<(bool, Seq<char>)> {
    match a {
        Some(TetherAction::LockAndDemote { fallback_profile }) => Some((true, fallback_profile@)),
        Some(TetherAction::Restore { preferred_profile }) => Some((false, preferred_profile@)),
        None => None,
    }
}

/// What a token presence change asks for, as (lock and demote?, profile).
pub open spec fn tether_outcome(was_present: bool, is_present: bool, config: YubikeyTetherConfig, current: Seq<char>) -> Option<(bool, Seq<char>)> {
    if !config.enabled {
        None
    } else if was_present && !is_present {
        if current != config.fallback_profile@ {
            Some((true, config.fallback_profile@))
        } else {
            None
        }
    } else if !was_present && is_present && config.restore_profile_on_insert && current == config.fallback_profile@ {
        Some((false, config.preferred_profile@))
    } else {
        None
    }
}

/// What a token presence change asks for. Nothing while disabled. Removal
/// (present before, absent now) demotes to the fallback profile unless it is
/// already active; insertion restores the preferred profile, if restoring is
/// on and the fallback profile is the active one.
pub fn evaluate_tether_transition(
    was_present: bool,
    is_present: bool,
    config: &YubikeyTetherConfig,
    current_profile: &str,
) -> (r: Option<TetherAction>)
    ensures
        !config.enabled ==> r is None,
        config.enabled && was_present && !is_present ==> if current_profile@ != config.fallback_profile@ {
            r matches Some(TetherAction::LockAndDemote { fallback_profile }) && fallback_profile@
                == config.fallback_profile@
        } else {
            r is None
        },
        config.enabled && !was_present && is_present ==> if config.restore_profile_on_insert
            && current_profile@ == config.fallback_profile@ {
            r matches Some(TetherAction::Restore { preferred_profile }) && preferred_profile@
                == config.preferred_profile@
        } else {
            r is None
        },
        was_present == is_present ==> r is None,
        tether_view(r) == tether_outcome(was_present, is_present, *config, current_profile@),
{
    if !config.enabled {
        return None;
    }
    if was_present && !is_present {
        if !str_eq(current_profile, config.fallback_profile.as_str()) {
            return Some(
                TetherAction::LockAndDemote { fallback_profile: owned(config.fallback_profile.as_str()) },
            );
        }
    } else if !was_present && is_present && config.restore_profile_on_insert {
        if str_eq(current_profile, config.fallback_profile.as_str()) {
            return Some(
                TetherAction::Restore { preferred_profile: owned(config.preferred_profile.as_str()) },
            );
        }
    }
    None
}

} // verus!
