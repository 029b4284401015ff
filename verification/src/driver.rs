//! Data model of driver listings, and the verified pieces of their parsing:
//! the status mapping, the date normalisation and lookup by id. The raw
//! listing itself comes from the system and is parsed outside.

use vstd::prelude::*;

use crate::text::{chars_eq, chars_to_string, contains_chars, lower_chars, str_chars,
    to_lower_chars};

verus! {

/// One installed driver.
#[derive(Debug, Clone)]
pub struct DriverInfo {
    pub id: String,
    pub name: String,
    pub version: String,
    pub date: String,
    pub provider: String,
    pub status: DriverStatus,
    pub driver_type: String,
    pub device_name: String,
    pub inf_name: String,
    pub signed: bool,
}

/// The running state a driver reports.
#[derive(Debug, Clone, Copy, PartialEq, Eq, Structural)]
pub enum DriverStatus {
    Running,
    Stopped,
    Error,
    Unknown,
}

impl DriverStatus {
    pub fn display_name(&self) -> (r: &'static str) {
        match self {
            DriverStatus::Running => "running",
            DriverStatus::Stopped => "stopped",
            DriverStatus::Error => "faulted",
            DriverStatus::Unknown => "unknown",
        }
    }
}

/// The status named by a raw status word, compared case folded: the healthy
/// words map to Running, the failure words to Error, the resting words to
/// Stopped; an empty word is Unknown and anything else counts as Running.
pub open spec fn spec_driver_status(s: Seq<char>) -> DriverStatus {
    let w = lower_chars(s);
    if w == "ok"@ || w == "starting"@ || w == "running"@ {
        DriverStatus::Running
    } else if w == "error"@ || w == "degraded"@ || w == "pred fail"@ || w == "nonrecover"@ || w
        == "notpresent"@ {
        DriverStatus::Error
    } else if w == "stopped"@ || w == "stopping"@ || w == "disabled"@ || w == "service"@ || w
        == "stressed"@ || w == "unknown"@ {
        DriverStatus::Stopped
    } else if s.len() == 0 {
        DriverStatus::Unknown
    } else {
        DriverStatus::Running
    }
}

/// Map a raw status word to a driver status.
pub fn driver_status_from_str(s: &str) -> (r: DriverStatus)
    ensures
        r == spec_driver_status(s@),
{
    let chars = str_chars(s);
    let lowered = to_lower_chars(chars.as_slice());
    let ok_w = str_chars("ok");
    let starting_w = str_chars("starting");
    let running_w = str_chars("running");
    if chars_eq(lowered.as_slice(), ok_w.as_slice()) || chars_eq(
        lowered.as_slice(),
        starting_w.as_slice(),
    ) || chars_eq(lowered.as_slice(), running_w.as_slice()) {
        return DriverStatus::Running;
    }
    let error_w = str_chars("error");
    let degraded_w = str_chars("degraded");
    let pred_fail_w = str_chars("pred fail");
    let nonrecover_w = str_chars("nonrecover");
    let notpresent_w = str_chars("notpresent");
    if chars_eq(lowered.as_slice(), error_w.as_slice()) || chars_eq(
        lowered.as_slice(),
        degraded_w.as_slice(),
    ) || chars_eq(lowered.as_slice(), pred_fail_w.as_slice()) || chars_eq(
        lowered.as_slice(),
        nonrecover_w.as_slice(),
    ) || chars_eq(lowered.as_slice(), notpresent_w.as_slice()) {
        return DriverStatus::Error;
    }
    let stopped_w = str_chars("stopped");
    let stopping_w = str_chars("stopping");
    let disabled_w = str_chars("disabled");
    let service_w = str_chars("service");
    let stressed_w = str_chars("stressed");
    let unknown_w = str_chars("unknown");
    if chars_eq(lowered.as_slice(), stopped_w.as_slice()) || chars_eq(
        lowered.as_slice(),
        stopping_w.as_slice(),
    ) || chars_eq(lowered.as_slice(), disabled_w.as_slice()) || chars_eq(
        lowered.as_slice(),
        service_w.as_slice(),
    ) || chars_eq(lowered.as_slice(), stressed_w.as_slice()) || chars_eq(
        lowered.as_slice(),
        unknown_w.as_slice(),
    ) {
        return DriverStatus::Stopped;
    }
    if chars.len() == 0 {
        DriverStatus::Unknown
    } else {
        DriverStatus::Running
    }
}

/// Normalise a raw driver date: keep the first ten characters, with the
/// marker between date and time turned into a space; a shorter date stays
/// as it is.
pub fn normalize_driver_date(d: &str) -> (r: String)
    ensures
        d@.len() < 10 ==> r@ == d@,
        d@.len() >= 10 ==> r@.len() == 10,
{
    let chars = str_chars(d);
    if chars.len() < 10 {
        return d.to_owned();
    }
    let mut out: Vec<char> = Vec::new();
    let mut i: usize = 0;
    while i < 10
        invariant
            chars@.len() >= 10,
            i <= 10,
            out@.len() == i,
        decreases 10 - i,
    {
        let c = chars[i];
        if c == 'T' {
            out.push(' ');
        } else {
            out.push(c);
        }
        i = i + 1;
    }
    chars_to_string(&out)
}

/// The kind of device a driver serves, guessed from its device name.
pub fn determine_driver_type(device_name: &str) -> (r: &'static str) {
    let chars = str_chars(device_name);
    let lowered = to_lower_chars(chars.as_slice());
    let display = str_chars("display");
    let audio = str_chars("audio");
    let network = str_chars("net");
    let storage = str_chars("disk");
    let usb = str_chars("usb");
    if contains_chars(lowered.as_slice(), display.as_slice()) {
        "display"
    } else if contains_chars(lowered.as_slice(), audio.as_slice()) {
        "audio"
    } else if contains_chars(lowered.as_slice(), network.as_slice()) {
        "network"
    } else if contains_chars(lowered.as_slice(), storage.as_slice()) {
        "storage"
    } else if contains_chars(lowered.as_slice(), usb.as_slice()) {
        "usb"
    } else {
        "other"
    }
}

/// The first driver with the asked id.
pub fn get_driver_by_id(drivers: &Vec<DriverInfo>, device_id: &str) -> (r: Option<DriverInfo>)
    ensures
        match r {
            Some(d) => exists|i: int|
                0 <= i < drivers@.len() && (#[trigger] drivers@[i]).id@ == device_id@ && d.id@
                    == device_id@,
            None => forall|i: int|
                0 <= i < drivers@.len() ==> (#[trigger] drivers@[i]).id@ != device_id@,
        },
{
    let mut i: usize = 0;
    while i < drivers.len()
        invariant
            i <= drivers@.len(),
            forall|j: int| 0 <= j < i ==> (#[trigger] drivers@[j]).id@ != device_id@,
        decreases drivers@.len() - i,
    {
        let matches = {
            let cand = str_chars(drivers[i].id.as_str());
            let target = str_chars(device_id);
            chars_eq(cand.as_slice(), target.as_slice())
        };
        if matches {
            let d = &drivers[i];
            proof {
                assert((#[trigger] drivers@[i as int]).id@ == device_id@);
            }
            return Some(
                DriverInfo {
                    id: d.id.clone(),
                    name: d.name.clone(),
                    version: d.version.clone(),
                    date: d.date.clone(),
                    provider: d.provider.clone(),
                    status: d.status,
                    driver_type: d.driver_type.clone(),
                    device_name: d.device_name.clone(),
                    inf_name: d.inf_name.clone(),
                    signed: d.signed,
                },
            );
        }
        i = i + 1;
    }
    None
}

} // verus!
