use vstd::prelude::*;

use crate::text::{bytes_eq, push_bytes, push_decimal, spec_decimal};

verus! {

/// Charging state of the battery, as the power-supply class reports it.
#[derive(Clone, Copy, Debug, PartialEq, Eq, Structural)]
pub enum Status {
    Charging,
    Full,
    Other,
}

/// `Charging`
pub open spec fn charging_name() -> Seq<u8> {
    seq![67u8, 104, 97, 114, 103, 105, 110, 103]
}

/// `Full`
pub open spec fn full_name() -> Seq<u8> {
    seq![70u8, 117, 108, 108]
}

impl Status {
    pub open spec fn spec_from_bytes(s: Seq<u8>) -> Status {
        if s == charging_name() {
            Status::Charging
        } else if s == full_name() {
            Status::Full
        } else {
            Status::Other
        }
    }

    /// Seconds between two polls of the battery: shorter while it is full or
    /// charging.
    pub fn poll_seconds(self) -> (r: u64)
        ensures
            r == if self == Status::Full || self == Status::Charging { 3u64 } else { 6u64 },
    {
        match self {
            Status::Full | Status::Charging => 3,
            Status::Other => 6,
        }
    }

    /// Reads a `POWER_SUPPLY_STATUS` value.
    pub fn from_bytes(s: &[u8]) -> (r: Status)
        ensures
            r == Status::spec_from_bytes(s@),
    {
        let charging: [u8; 8] = [67, 104, 97, 114, 103, 105, 110, 103];
        let full: [u8; 4] = [70, 117, 108, 108];
        if bytes_eq(s, &charging) {
            Status::Charging
        } else if bytes_eq(s, &full) {
            Status::Full
        } else {
            Status::Other
        }
    }
}

/// A snapshot of the battery: energies in microwatt-hours, power in
/// microwatts.
#[derive(Clone, Copy, Debug, PartialEq, Eq, Structural)]
pub struct Info {
    pub status: Status,
    pub power_now: u32,
    pub energy_now: u32,
    pub energy_full: u32,
}

impl Info {
    /// The charge can be computed: a full energy of at least one milliwatt-hour,
    /// no more energy left to charge than the full energy, and a power draw
    /// that is zero or at least ten microwatts.
    pub open spec fn wf(self) -> bool {
        &&& self.energy_full >= 1000
        &&& (self.status == Status::Charging ==> self.energy_now <= self.energy_full)
        &&& (self.power_now == 0 || self.power_now >= 10)
    }

    pub open spec fn spec_percentage(self) -> nat {
        (self.energy_now * 10) as nat / (self.energy_full / 1000) as nat
    }

    pub open spec fn spec_energy_remaining(self) -> nat {
        if self.status == Status::Charging {
            (self.energy_full - self.energy_now) as nat
        } else {
            self.energy_now as nat
        }
    }

    pub open spec fn spec_minutes_remaining(self) -> nat {
        if self.power_now == 0 {
            0
        } else {
            self.spec_energy_remaining() * 6 / (self.power_now / 10) as nat
        }
    }

    pub fn charging(&self) -> (r: bool)
        ensures
            r == (self.status == Status::Charging),
    {
        self.status == Status::Charging
    }

    /// Charge in hundredths of a percent.
    pub fn percentage(&self) -> (r: u64)
        requires
            self.wf(),
        ensures
            r == self.spec_percentage(),
    {
        (self.energy_now as u64 * 10) / (self.energy_full as u64 / 1000)
    }

    /// Full, or charged beyond 99 percent.
    pub fn charged(&self) -> (r: bool)
        requires
            self.wf(),
        ensures
            r == (self.status == Status::Full || self.spec_percentage() > 9900),
    {
        self.status == Status::Full || self.percentage() > 9900
    }

    /// Energy still to charge while charging, else energy left.
    pub fn energy_remaining(&self) -> (r: u32)
        requires
            self.wf(),
        ensures
            r == self.spec_energy_remaining(),
    {
        if self.charging() {
            self.energy_full - self.energy_now
        } else {
            self.energy_now
        }
    }

    /// Minutes until full or empty at the present draw; zero without draw.
    pub fn minutes_remaining(&self) -> (r: u64)
        requires
            self.wf(),
        ensures
            r == self.spec_minutes_remaining(),
    {
        if self.power_now == 0 {
            0
        } else {
            self.energy_remaining() as u64 * 6 / (self.power_now as u64 / 10)
        }
    }

    /// The tooltip text: `CAP% W.FFW HhM`, with the charge rounded to whole
    /// percent (a remainder over one half rounds up), the draw in watts with
    /// two decimals, and the time left in hours and minutes.
    pub open spec fn spec_tooltip(self) -> Seq<u8> {
        let power = self.power_now / 1_000_000;
        let frac = (self.power_now - power * 1_000_000) / 10_000;
        let p = self.spec_percentage();
        let cap = p / 100 + if p % 100 > 50 { 1nat } else { 0nat };
        let minutes = self.spec_minutes_remaining();
        spec_decimal(cap) + seq![37u8, 32u8] + spec_decimal(power as nat) + seq![46u8]
            + (if frac < 10 { seq![48u8] } else { seq![] }) + spec_decimal(frac as nat) + seq![87u8, 32u8]
            + spec_decimal(minutes / 60) + seq![104u8] + spec_decimal(minutes % 60)
    }

    pub fn tooltip(&self) -> (r: Vec<u8>)
        requires
            self.wf(),
        ensures
            r@ == self.spec_tooltip(),
    {
        let power = self.power_now / 1_000_000;
        let frac = (self.power_now - power * 1_000_000) / 10_000;
        let p = self.percentage();
        let cap = p / 100 + if p % 100 > 50 { 1 } else { 0 };
        let minutes = self.minutes_remaining();
        let mut r: Vec<u8> = Vec::new();
        push_decimal(&mut r, cap);
        r.push(37);
        r.push(32);
        push_decimal(&mut r, power as u64);
        r.push(46);
        if frac < 10 {
            r.push(48);
        }
        push_decimal(&mut r, frac as u64);
        r.push(87);
        r.push(32);
        push_decimal(&mut r, minutes / 60);
        r.push(104);
        push_decimal(&mut r, minutes % 60);
        proof {
            assert(r@ =~= self.spec_tooltip());
        }
        r
    }
}

/// `battery-level-`
pub open spec fn icon_prefix() -> Seq<u8> {
    seq![98u8, 97, 116, 116, 101, 114, 121, 45, 108, 101, 118, 101, 108, 45]
}

/// `-charging`
pub open spec fn icon_charging() -> Seq<u8> {
    seq![45u8, 99, 104, 97, 114, 103, 105, 110, 103]
}

/// `-symbolic`
pub open spec fn icon_suffix() -> Seq<u8> {
    seq![45u8, 115, 121, 109, 98, 111, 108, 105, 99]
}

/// `100-charged`
pub open spec fn icon_charged() -> Seq<u8> {
    seq![49u8, 48, 48, 45, 99, 104, 97, 114, 103, 101, 100]
}

/// The symbolic icon name for a charge level: full when charged, else the
/// level rounded down to tens, marked while charging.
pub open spec fn spec_icon_name(charged: bool, level: nat, charging: bool) -> Seq<u8> {
    if charged {
        icon_prefix() + icon_charged() + icon_suffix()
    } else {
        icon_prefix() + spec_decimal(level / 10 * 10) + (if charging {
            icon_charging()
        } else {
            seq![]
        }) + icon_suffix()
    }
}

/// Builds `spec_icon_name`.
pub fn icon_name(charged: bool, level: u64, charging: bool) -> (r: Vec<u8>)
    ensures
        r@ == spec_icon_name(charged, level as nat, charging),
{
    let prefix: [u8; 14] = [98, 97, 116, 116, 101, 114, 121, 45, 108, 101, 118, 101, 108, 45];
    let suffix: [u8; 9] = [45, 115, 121, 109, 98, 111, 108, 105, 99];
    let mut r: Vec<u8> = Vec::new();
    push_bytes(&mut r, &prefix);
    if charged {
        let full: [u8; 11] = [49, 48, 48, 45, 99, 104, 97, 114, 103, 101, 100];
        push_bytes(&mut r, &full);
    } else {
        push_decimal(&mut r, level / 10 * 10);
        if charging {
            let mark: [u8; 9] = [45, 99, 104, 97, 114, 103, 105, 110, 103];
            push_bytes(&mut r, &mark);
        }
    }
    push_bytes(&mut r, &suffix);
    proof {
        assert(r@ =~= spec_icon_name(charged, level as nat, charging));
    }
    r
}

impl Info {
    /// The icon for the snapshot; the level is the whole percent.
    pub fn icon(&self) -> (r: Vec<u8>)
        requires
            self.wf(),
        ensures
            r@ == spec_icon_name(
                self.status == Status::Full || self.spec_percentage() > 9900,
                self.spec_percentage() / 100,
                self.status == Status::Charging,
            ),
    {
        icon_name(self.charged(), self.percentage() / 100, self.charging())
    }
}

/// The panel's view of the battery: the last reported line-power state,
/// status and capacity in percent.
#[derive(Clone, Copy, Debug, PartialEq, Eq, Structural)]
pub struct BatteryStatus {
    pub charging: Option<bool>,
    pub status: Status,
    pub capacity: u8,
}

impl BatteryStatus {
    pub fn new(status: Status, capacity: u8) -> (r: BatteryStatus)
        ensures
            r == (BatteryStatus { charging: None, status, capacity }),
    {
        BatteryStatus { charging: None, status, capacity }
    }

    pub open spec fn spec_charged(self) -> bool {
        self.status == Status::Full || self.capacity >= 99
    }

    pub open spec fn spec_charging(self) -> bool {
        self.charging == Some(true) || self.status == Status::Charging
    }

    /// Full, or at 99 percent or more.
    pub fn charged(&self) -> (r: bool)
        ensures
            r == self.spec_charged(),
    {
        self.status == Status::Full || self.capacity >= 99
    }

    /// On line power, or reported charging.
    pub fn charging(&self) -> (r: bool)
        ensures
            r == self.spec_charging(),
    {
        self.charging == Some(true) || self.status == Status::Charging
    }

    pub fn icon(&self) -> (r: Vec<u8>)
        ensures
            r@ == spec_icon_name(self.spec_charged(), self.capacity as nat, self.spec_charging()),
    {
        icon_name(self.charged(), self.capacity as u64, self.charging())
    }
}

} // verus!
