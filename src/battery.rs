use vstd::prelude::*;

use vstd::string::StringExecFns;

use crate::services::{decimal, percent_text};

verus! {

/// Charging state of a battery.
#[derive(Clone, Copy, Debug, PartialEq, Eq, Structural)]
pub enum BatteryState {
    Unknown,
    Charging,
    Discharging,
    Empty,
    Full,
}

/// State of several batteries taken together: charging if any charges, else discharging if
/// any discharges, else the common state; an unknown state yields to a known one, and two
/// different known states give an unknown one.
pub open spec fn combined_state(a: BatteryState, b: BatteryState) -> BatteryState {
    if a == BatteryState::Charging || b == BatteryState::Charging {
        BatteryState::Charging
    } else if a == BatteryState::Discharging || b == BatteryState::Discharging {
        BatteryState::Discharging
    } else if a == b {
        a
    } else if a == BatteryState::Unknown {
        b
    } else if b == BatteryState::Unknown {
        a
    } else {
        BatteryState::Unknown
    }
}

/// Energy held and energy when full, in milliwatt-hours, with the charging state.
#[derive(Clone, Copy, Debug, PartialEq, Eq, Structural)]
pub struct BatteryInfo {
    pub energy: u64,
    pub full: u64,
    pub state: BatteryState,
}

impl BatteryInfo {
    /// No battery: nothing held, nothing to hold, state unknown.
    pub fn empty() -> (b: BatteryInfo)
        ensures
            b == (BatteryInfo { energy: 0, full: 0, state: BatteryState::Unknown }),
    {
        BatteryInfo { energy: 0, full: 0, state: BatteryState::Unknown }
    }

    /// Two batteries taken as one.
    pub fn add(self, rhs: BatteryInfo) -> (r: BatteryInfo)
        requires
            self.energy + rhs.energy <= u64::MAX,
            self.full + rhs.full <= u64::MAX,
        ensures
            r.energy == self.energy + rhs.energy,
            r.full == self.full + rhs.full,
            r.state == combined_state(self.state, rhs.state),
    {
        let a = self.state;
        let b = rhs.state;
        let state = if a == BatteryState::Charging || b == BatteryState::Charging {
            BatteryState::Charging
        } else if a == BatteryState::Discharging || b == BatteryState::Discharging {
            BatteryState::Discharging
        } else if a == b {
            a
        } else if a == BatteryState::Unknown {
            b
        } else if b == BatteryState::Unknown {
            a
        } else {
            BatteryState::Unknown
        };
        BatteryInfo { energy: self.energy + rhs.energy, full: self.full + rhs.full, state }
    }

    /// Charge in whole percent, rounded to nearest, or `None` without capacity.
    pub fn percentage(&self) -> (p: Option<u128>)
        ensures
            p is Some <==> self.full > 0,
            p matches Some(v) ==> v == (200 * (self.energy as int) + self.full) / (2 * (self.full as int)),
    {
        if self.full == 0 {
            return None;
        }
        let e = self.energy as u128;
        let f = self.full as u128;
        Some((200 * e + f) / (2 * f))
    }
}

/// Symbols shown for the charge, one per ten percent from zero to a hundred.
pub struct BatterySettings {
    pub battery_not_charging: [char; 11],
    pub battery_charging: [char; 11],
}

pub fn battery_not_charging_default() -> (r: [char; 11])
    ensures
        r@.len() == 11,
{
    ['\u{f008e}', '\u{f007a}', '\u{f007b}', '\u{f007c}', '\u{f007d}', '\u{f007e}', '\u{f007f}', '\u{f0080}', '\u{f0081}', '\u{f0082}', '\u{f0079}']
}

pub fn battery_charging_default() -> (r: [char; 11])
    ensures
        r@.len() == 11,
{
    ['\u{f089f}', '\u{f089c}', '\u{f0086}', '\u{f0087}', '\u{f0088}', '\u{f089d}', '\u{f0089}', '\u{f089e}', '\u{f008a}', '\u{f008b}', '\u{f0085}']
}

impl BatterySettings {
    pub fn default() -> (s: BatterySettings)
        ensures
            s.battery_not_charging@.len() == 11,
            s.battery_charging@.len() == 11,
    {
        BatterySettings {
            battery_not_charging: battery_not_charging_default(),
            battery_charging: battery_charging_default(),
        }
    }
}

/// The slot of the symbol for a charge: one per ten percent, a full battery above a hundred.
pub open spec fn charge_slot(percent: int) -> int {
    if percent >= 100 {
        10
    } else {
        percent / 10
    }
}

/// What a battery widget shows: an icon and a text.
pub struct BatteryDisplay {
    prev_charge: Option<u128>,
    shown_error: bool,
}

impl BatteryDisplay {
    pub closed spec fn previous(self) -> Option<u128> {
        self.prev_charge
    }

    pub closed spec fn showing_error(self) -> bool {
        self.shown_error
    }

    pub fn new() -> (d: BatteryDisplay)
        ensures
            d.previous() is None,
            !d.showing_error(),
    {
        BatteryDisplay { prev_charge: None, shown_error: false }
    }

    /// Decides what to show for the latest reading. Returns the new icon and text when they
    /// change: the charge symbol and `<percent>%`, or no icon and `ERR` when there is no
    /// reading.
    pub fn update(&mut self, settings: &BatterySettings, info: Option<BatteryInfo>) -> (r: Option<(char, String)>)
        ensures
            info is Some && info->Some_0.full > 0 ==> {
                let i = info->Some_0;
                let p = (200 * (i.energy as int) + i.full) / (2 * (i.full as int));
                let symbols = if i.state == BatteryState::Charging {
                    settings.battery_charging@
                } else {
                    settings.battery_not_charging@
                };
                &&& final(self).previous() == Some(p as u128)
                &&& !final(self).showing_error()
                &&& (old(self).previous() == Some(p as u128) && !old(self).showing_error()) <==> r is None
                &&& r matches Some((c, t)) ==> c == symbols[charge_slot(p)] && t@ == decimal(p as nat).push('%')
            },
            !(info is Some && info->Some_0.full > 0) ==> {
                &&& final(self).previous() is None
                &&& final(self).showing_error()
                &&& old(self).showing_error() <==> r is None
                &&& r matches Some((c, t)) ==> c == ' ' && t@ == seq!['E', 'R', 'R']
            },
    {
        let reading = match info {
            Some(i) => match i.percentage() {
                Some(p) => Some((p, i.state)),
                None => None,
            },
            None => None,
        };
        match reading {
            Some((p, state)) => {
                if self.prev_charge == Some(p) && !self.shown_error {
                    return None;
                }
                self.prev_charge = Some(p);
                self.shown_error = false;
                let slot: usize = if p >= 100 { 10 } else { (p / 10) as usize };
                let icon = if state == BatteryState::Charging {
                    settings.battery_charging[slot]
                } else {
                    settings.battery_not_charging[slot]
                };
                Some((icon, percent_text(p)))
            },
            None => {
                self.prev_charge = None;
                if self.shown_error {
                    return None;
                }
                self.shown_error = true;
                let text = String::from_str("ERR");
                proof {
                    reveal_strlit("ERR");
                }
                Some((' ', text))
            },
        }
    }
}

} // verus!
