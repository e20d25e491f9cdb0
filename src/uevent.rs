use vstd::prelude::*;
use vstd::slice::slice_subrange;

use crate::battery::{Info, Status};
use crate::panel::BatteryEvent;
use crate::text::{bytes_eq, is_first, lemma_split_step, parse_decimal, position, spec_parse_decimal, split_on};

verus! {

/// `SUBSYSTEM`
pub open spec fn subsystem_key() -> Seq<u8> {
    seq![83u8, 85, 66, 83, 89, 83, 84, 69, 77]
}

/// `backlight`
pub open spec fn backlight_value() -> Seq<u8> {
    seq![98u8, 97, 99, 107, 108, 105, 103, 104, 116]
}

/// `power_supply`
pub open spec fn power_supply_value() -> Seq<u8> {
    seq![112u8, 111, 119, 101, 114, 95, 115, 117, 112, 112, 108, 121]
}

/// `POWER_SUPPLY_TYPE`
pub open spec fn type_key() -> Seq<u8> {
    seq![80u8, 79, 87, 69, 82, 95, 83, 85, 80, 80, 76, 89, 95, 84, 89, 80, 69]
}

/// `Battery`
pub open spec fn battery_value() -> Seq<u8> {
    seq![66u8, 97, 116, 116, 101, 114, 121]
}

/// `POWER_SUPPLY_ONLINE`
pub open spec fn online_key() -> Seq<u8> {
    seq![80u8, 79, 87, 69, 82, 95, 83, 85, 80, 80, 76, 89, 95, 79, 78, 76, 73, 78, 69]
}

/// `0`
pub open spec fn offline_value() -> Seq<u8> {
    seq![48u8]
}

/// `POWER_SUPPLY_CAPACITY`
pub open spec fn capacity_key() -> Seq<u8> {
    seq![80u8, 79, 87, 69, 82, 95, 83, 85, 80, 80, 76, 89, 95, 67, 65, 80, 65, 67, 73, 84, 89]
}

/// `POWER_SUPPLY_STATUS`
pub open spec fn status_key() -> Seq<u8> {
    seq![80u8, 79, 87, 69, 82, 95, 83, 85, 80, 80, 76, 89, 95, 83, 84, 65, 84, 85, 83]
}

/// The device class that a kernel notification is about.
#[derive(Clone, Copy, Debug, PartialEq, Eq, Structural)]
pub enum Subsystem {
    Backlight,
    PowerSupply,
}

/// What the key/value lines of a notification said so far.
#[derive(Clone, Copy, Debug, PartialEq, Eq, Structural)]
pub struct Scan {
    pub subsystem: Option<Subsystem>,
    pub is_battery: bool,
    pub online: Option<bool>,
    pub capacity: Option<u8>,
    pub status: Option<Status>,
    /// A line without `=` ended the key/value lines.
    pub stopped: bool,
}

/// Nothing read yet.
pub open spec fn scan_start() -> Scan {
    Scan { subsystem: None, is_battery: false, online: None, capacity: None, status: None, stopped: false }
}

/// `s` after one more line; the last value of a key wins, and a capacity
/// that is not a number up to 255 is passed over.
pub open spec fn spec_step(s: Scan, line: Seq<u8>) -> Scan {
    if s.stopped {
        s
    } else {
        match crate::text::first_index(line, 61) {
            None => Scan { stopped: true, ..s },
            Some(i) => {
                let k = line.subrange(0, i);
                let v = line.subrange(i + 1, line.len() as int);
                if k == subsystem_key() {
                    if v == backlight_value() {
                        Scan { subsystem: Some(Subsystem::Backlight), ..s }
                    } else if v == power_supply_value() {
                        Scan { subsystem: Some(Subsystem::PowerSupply), ..s }
                    } else {
                        s
                    }
                } else if k == type_key() {
                    if v == battery_value() {
                        Scan { is_battery: true, ..s }
                    } else {
                        s
                    }
                } else if k == online_key() {
                    Scan { online: Some(v != offline_value()), ..s }
                } else if k == capacity_key() {
                    match spec_parse_decimal(v, 255) {
                        Some(c) => Scan { capacity: Some(c as u8), ..s },
                        None => s,
                    }
                } else if k == status_key() {
                    Scan { status: Some(Status::spec_from_bytes(v)), ..s }
                } else {
                    s
                }
            },
        }
    }
}

/// `s` after all of `lines`, in order.
pub open spec fn scan_from(s: Scan, lines: Seq<Seq<u8>>) -> Scan
    decreases lines.len(),
{
    if lines.len() == 0 {
        s
    } else {
        scan_from(spec_step(s, lines[0]), lines.drop_first())
    }
}

/// The battery events of a finished scan: for a battery, its capacity then
/// its status where given; for another power supply, whether it is online.
pub open spec fn scan_events(s: Scan) -> Seq<BatteryEvent> {
    if s.subsystem == Some(Subsystem::PowerSupply) {
        if s.is_battery {
            (match s.capacity {
                Some(c) => seq![BatteryEvent::Capacity(c)],
                None => seq![],
            }) + match s.status {
                Some(st) => seq![BatteryEvent::Status(st)],
                None => seq![],
            }
        } else {
            match s.online {
                Some(true) => seq![BatteryEvent::PowerOnline],
                Some(false) => seq![BatteryEvent::PowerOffline],
                None => seq![],
            }
        }
    } else {
        seq![]
    }
}

/// The events of a kernel notification: NUL-separated lines, a header, then
/// key/value lines.
pub open spec fn spec_parse_uevent(msg: Seq<u8>) -> Seq<BatteryEvent> {
    scan_events(scan_from(scan_start(), split_on(msg, 0).drop_first()))
}

/// Reads one line of a notification.
pub fn step(s: Scan, line: &[u8]) -> (r: Scan)
    ensures
        r == spec_step(s, line@),
{
    if s.stopped {
        return s;
    }
    let i = match position(line, 61) {
        Some(i) => i,
        None => {
            return Scan { stopped: true, ..s };
        },
    };
    let n = line.len();
    let k = slice_subrange(line, 0, i);
    let v = slice_subrange(line, i + 1, n);
    proof {
        assert(crate::text::first_index(line@, 61) == Some(i as int));
    }
    let subsystem_key_bytes: [u8; 9] = [83, 85, 66, 83, 89, 83, 84, 69, 77];
    let backlight_value_bytes: [u8; 9] = [98, 97, 99, 107, 108, 105, 103, 104, 116];
    let power_supply_value_bytes: [u8; 12] = [112, 111, 119, 101, 114, 95, 115, 117, 112, 112, 108, 121];
    let type_key_bytes: [u8; 17] = [80, 79, 87, 69, 82, 95, 83, 85, 80, 80, 76, 89, 95, 84, 89, 80, 69];
    let battery_value_bytes: [u8; 7] = [66, 97, 116, 116, 101, 114, 121];
    let online_key_bytes: [u8; 19] = [80, 79, 87, 69, 82, 95, 83, 85, 80, 80, 76, 89, 95, 79, 78, 76, 73, 78, 69];
    let offline_value_bytes: [u8; 1] = [48];
    let capacity_key_bytes: [u8; 21] = [80, 79, 87, 69, 82, 95, 83, 85, 80, 80, 76, 89, 95, 67, 65, 80, 65, 67, 73, 84, 89];
    let status_key_bytes: [u8; 19] = [80, 79, 87, 69, 82, 95, 83, 85, 80, 80, 76, 89, 95, 83, 84, 65, 84, 85, 83];
    proof {
        assert(subsystem_key_bytes@ == subsystem_key());
        assert(backlight_value_bytes@ == backlight_value());
        assert(power_supply_value_bytes@ == power_supply_value());
        assert(type_key_bytes@ == type_key());
        assert(battery_value_bytes@ == battery_value());
        assert(online_key_bytes@ == online_key());
        assert(offline_value_bytes@ == offline_value());
        assert(capacity_key_bytes@ == capacity_key());
        assert(status_key_bytes@ == status_key());
        assert(k@ == line@.subrange(0, i as int));
        assert(v@ == line@.subrange(i + 1, line@.len() as int));
    }
    if bytes_eq(k, &subsystem_key_bytes) {
        if bytes_eq(v, &backlight_value_bytes) {
            Scan { subsystem: Some(Subsystem::Backlight), ..s }
        } else if bytes_eq(v, &power_supply_value_bytes) {
            Scan { subsystem: Some(Subsystem::PowerSupply), ..s }
        } else {
            s
        }
    } else if bytes_eq(k, &type_key_bytes) {
        if bytes_eq(v, &battery_value_bytes) {
            Scan { is_battery: true, ..s }
        } else {
            s
        }
    } else if bytes_eq(k, &online_key_bytes) {
        Scan { online: Some(!bytes_eq(v, &offline_value_bytes)), ..s }
    } else if bytes_eq(k, &capacity_key_bytes) {
        match parse_decimal(v, 255) {
            Some(c) => Scan { capacity: Some(c as u8), ..s },
            None => s,
        }
    } else if bytes_eq(k, &status_key_bytes) {
        Scan { status: Some(Status::from_bytes(v)), ..s }
    } else {
        s
    }
}

proof fn lemma_scan_cons(s: Scan, x: Seq<u8>, rest: Seq<Seq<u8>>)
    ensures
        scan_from(s, seq![x] + rest) == scan_from(spec_step(s, x), rest),
{
    let l = seq![x] + rest;
    assert(l[0] == x);
    assert(l.drop_first() =~= rest);
}

/// The battery events of one kernel notification; see `spec_parse_uevent`.
pub fn parse_uevent(msg: &[u8]) -> (r: Vec<BatteryEvent>)
    ensures
        r@ == spec_parse_uevent(msg@),
{
    let head = match position(msg, 0) {
        Some(h) => h,
        None => {
            proof {
                assert(!exists|k: int| is_first(msg@, 0, k));
                assert(split_on(msg@, 0).drop_first() =~= Seq::<Seq<u8>>::empty());
            }
            return Vec::new();
        },
    };
    proof {
        lemma_split_step(msg@, 0, head as int);
        assert((seq![msg@.subrange(0, head as int)] + split_on(msg@.subrange(head + 1, msg@.len() as int), 0)).drop_first()
            =~= split_on(msg@.subrange(head + 1, msg@.len() as int), 0));
    }
    let ghost lines = split_on(msg@.subrange(head + 1, msg@.len() as int), 0);
    let mut s = Scan { subsystem: None, is_battery: false, online: None, capacity: None, status: None, stopped: false };
    let n = msg.len();
    let mut start: usize = head + 1;
    let mut done = false;
    while !done
        invariant
            head + 1 <= start <= msg@.len(),
            lines == split_on(msg@.subrange(head + 1, msg@.len() as int), 0),
            !done ==> scan_from(s, split_on(msg@.subrange(start as int, msg@.len() as int), 0)) == scan_from(scan_start(), lines),
            done ==> s == scan_from(scan_start(), lines),
        decreases msg@.len() - start + if done { 0int } else { 1int },
    {
        let rest = slice_subrange(msg, start, msg.len());
        match position(rest, 0) {
            Some(i) => {
                let line = slice_subrange(rest, 0, i);
                let ghost before = s;
                s = step(s, line);
                proof {
                    lemma_split_step(rest@, 0, i as int);
                    lemma_scan_cons(before, line@, split_on(rest@.subrange(i + 1, rest@.len() as int), 0));
                    assert(rest@.subrange(i + 1, rest@.len() as int) =~= msg@.subrange(start + i + 1, msg@.len() as int));
                }
                start = start + i + 1;
            },
            None => {
                let ghost before = s;
                s = step(s, rest);
                proof {
                    assert(!exists|k: int| is_first(rest@, 0, k));
                    assert(split_on(rest@, 0) == seq![rest@]);
                    lemma_scan_cons(before, rest@, Seq::empty());
                    assert(seq![rest@] + Seq::<Seq<u8>>::empty() =~= seq![rest@]);
                }
                done = true;
            },
        }
    }
    let mut r: Vec<BatteryEvent> = Vec::new();
    if s.subsystem == Some(Subsystem::PowerSupply) {
        if s.is_battery {
            if let Some(c) = s.capacity {
                r.push(BatteryEvent::Capacity(c));
            }
            if let Some(st) = s.status {
                r.push(BatteryEvent::Status(st));
            }
        } else {
            match s.online {
                Some(true) => r.push(BatteryEvent::PowerOnline),
                Some(false) => r.push(BatteryEvent::PowerOffline),
                None => {},
            }
        }
    }
    proof {
        assert(r@ =~= scan_events(s));
    }
    r
}

/// `DEVTYPE`
pub open spec fn devtype_key() -> Seq<u8> {
    seq![68u8, 69, 86, 84, 89, 80, 69]
}

/// `POWER_SUPPLY_NAME`
pub open spec fn name_key() -> Seq<u8> {
    seq![80u8, 79, 87, 69, 82, 95, 83, 85, 80, 80, 76, 89, 95, 78, 65, 77, 69]
}

/// `POWER_SUPPLY_POWER_NOW`
pub open spec fn power_now_key() -> Seq<u8> {
    seq![80u8, 79, 87, 69, 82, 95, 83, 85, 80, 80, 76, 89, 95, 80, 79, 87, 69, 82, 95, 78, 79, 87]
}

/// `POWER_SUPPLY_ENERGY_FULL`
pub open spec fn energy_full_key() -> Seq<u8> {
    seq![80u8, 79, 87, 69, 82, 95, 83, 85, 80, 80, 76, 89, 95, 69, 78, 69, 82, 71, 89, 95, 70, 85, 76, 76]
}

/// `POWER_SUPPLY_ENERGY_NOW`
pub open spec fn energy_now_key() -> Seq<u8> {
    seq![80u8, 79, 87, 69, 82, 95, 83, 85, 80, 80, 76, 89, 95, 69, 78, 69, 82, 71, 89, 95, 78, 79, 87]
}

/// `change`
pub open spec fn change_action() -> Seq<u8> {
    seq![99u8, 104, 97, 110, 103, 101]
}

/// Where reading a battery record stands.
#[derive(Clone, Copy, Debug, PartialEq, Eq, Structural)]
pub enum Phase {
    Reading,
    /// The record is not the battery's, or a line of it cannot be read.
    Rejected,
    /// All four values were read.
    Complete,
}

/// The values of a battery record read so far.
#[derive(Clone, Copy, Debug, PartialEq, Eq, Structural)]
pub struct InfoScan {
    pub status: Option<Status>,
    pub power_now: Option<u32>,
    pub energy_now: Option<u32>,
    pub energy_full: Option<u32>,
    pub phase: Phase,
}

pub open spec fn info_start() -> InfoScan {
    InfoScan { status: None, power_now: None, energy_now: None, energy_full: None, phase: Phase::Reading }
}

/// `s` once a line's values are taken: complete when all four are known.
pub open spec fn settle(s: InfoScan) -> InfoScan {
    if s.phase == Phase::Reading && s.status is Some && s.power_now is Some && s.energy_now is Some
        && s.energy_full is Some {
        InfoScan { phase: Phase::Complete, ..s }
    } else {
        s
    }
}

/// `s` after one more line of a record: a line without `=`, a device that
/// is not a battery power supply, another name than `filter`, or a number
/// that does not read as a `u32` rejects the record. Nothing changes once
/// the record is rejected or complete.
pub open spec fn spec_info_step(s: InfoScan, line: Seq<u8>, filter: Option<Seq<u8>>) -> InfoScan {
    if s.phase != Phase::Reading {
        s
    } else {
        match crate::text::first_index(line, 61) {
            None => InfoScan { phase: Phase::Rejected, ..s },
            Some(i) => {
                let k = line.subrange(0, i);
                let v = line.subrange(i + 1, line.len() as int);
                let rejected = InfoScan { phase: Phase::Rejected, ..s };
                if k == devtype_key() {
                    if v != power_supply_value() { rejected } else { s }
                } else if k == name_key() {
                    if filter matches Some(f) && v != f { rejected } else { s }
                } else if k == type_key() {
                    if v != battery_value() { rejected } else { s }
                } else if k == status_key() {
                    settle(InfoScan { status: Some(Status::spec_from_bytes(v)), ..s })
                } else if k == power_now_key() {
                    match spec_parse_decimal(v, u32::MAX as nat) {
                        Some(n) => settle(InfoScan { power_now: Some(n as u32), ..s }),
                        None => rejected,
                    }
                } else if k == energy_full_key() {
                    match spec_parse_decimal(v, u32::MAX as nat) {
                        Some(n) => settle(InfoScan { energy_full: Some(n as u32), ..s }),
                        None => rejected,
                    }
                } else if k == energy_now_key() {
                    match spec_parse_decimal(v, u32::MAX as nat) {
                        Some(n) => settle(InfoScan { energy_now: Some(n as u32), ..s }),
                        None => rejected,
                    }
                } else {
                    s
                }
            },
        }
    }
}

pub open spec fn info_scan_from(s: InfoScan, lines: Seq<Seq<u8>>, filter: Option<Seq<u8>>) -> InfoScan
    decreases lines.len(),
{
    if lines.len() == 0 {
        s
    } else {
        info_scan_from(spec_info_step(s, lines[0], filter), lines.drop_first(), filter)
    }
}

/// The snapshot of a finished record: one when all four values were read
/// and nothing rejected it.
pub open spec fn info_of(s: InfoScan) -> Option<Info> {
    if s.phase == Phase::Complete && s.status is Some && s.power_now is Some && s.energy_now is Some
        && s.energy_full is Some {
        Some(Info {
            status: s.status->0,
            power_now: s.power_now->0,
            energy_now: s.energy_now->0,
            energy_full: s.energy_full->0,
        })
    } else {
        None
    }
}

/// The battery snapshot in the `sep`-separated record `data`.
pub open spec fn spec_parse_lines(data: Seq<u8>, sep: u8, filter: Option<Seq<u8>>) -> Option<Info> {
    info_of(info_scan_from(info_start(), split_on(data, sep), filter))
}

/// The filter as a sequence.
pub open spec fn filter_view(filter: Option<&[u8]>) -> Option<Seq<u8>> {
    match filter {
        Some(f) => Some(f@),
        None => None,
    }
}

fn read_u32(v: &[u8]) -> (r: Option<u32>)
    ensures
        r is Some <==> spec_parse_decimal(v@, u32::MAX as nat) is Some,
        r matches Some(n) ==> n as nat == spec_parse_decimal(v@, u32::MAX as nat)->0,
{
    match parse_decimal(v, u32::MAX as u64) {
        Some(n) => Some(n as u32),
        None => None,
    }
}

fn settle_exec(s: InfoScan) -> (r: InfoScan)
    ensures
        r == settle(s),
{
    if s.phase == Phase::Reading && s.status.is_some() && s.power_now.is_some() && s.energy_now.is_some()
        && s.energy_full.is_some() {
        InfoScan { phase: Phase::Complete, ..s }
    } else {
        s
    }
}

/// Reads one line of a battery record.
pub fn info_step(s: InfoScan, line: &[u8], filter: Option<&[u8]>) -> (r: InfoScan)
    ensures
        r == spec_info_step(s, line@, filter_view(filter)),
{
    if s.phase != Phase::Reading {
        return s;
    }
    let i = match position(line, 61) {
        Some(i) => i,
        None => {
            return InfoScan { phase: Phase::Rejected, ..s };
        },
    };
    let n = line.len();
    let k = slice_subrange(line, 0, i);
    let v = slice_subrange(line, i + 1, n);
    let rejected = InfoScan { phase: Phase::Rejected, ..s };
    let devtype_key_bytes: [u8; 7] = [68, 69, 86, 84, 89, 80, 69];
    let name_key_bytes: [u8; 17] = [80, 79, 87, 69, 82, 95, 83, 85, 80, 80, 76, 89, 95, 78, 65, 77, 69];
    let power_now_key_bytes: [u8; 22] = [80, 79, 87, 69, 82, 95, 83, 85, 80, 80, 76, 89, 95, 80, 79, 87, 69, 82, 95, 78, 79, 87];
    let energy_full_key_bytes: [u8; 24] = [80, 79, 87, 69, 82, 95, 83, 85, 80, 80, 76, 89, 95, 69, 78, 69, 82, 71, 89, 95, 70, 85, 76, 76];
    let energy_now_key_bytes: [u8; 23] = [80, 79, 87, 69, 82, 95, 83, 85, 80, 80, 76, 89, 95, 69, 78, 69, 82, 71, 89, 95, 78, 79, 87];
    let power_supply_value_bytes: [u8; 12] = [112, 111, 119, 101, 114, 95, 115, 117, 112, 112, 108, 121];
    let type_key_bytes: [u8; 17] = [80, 79, 87, 69, 82, 95, 83, 85, 80, 80, 76, 89, 95, 84, 89, 80, 69];
    let battery_value_bytes: [u8; 7] = [66, 97, 116, 116, 101, 114, 121];
    let status_key_bytes: [u8; 19] = [80, 79, 87, 69, 82, 95, 83, 85, 80, 80, 76, 89, 95, 83, 84, 65, 84, 85, 83];
    proof {
        assert(devtype_key_bytes@ == devtype_key());
        assert(name_key_bytes@ == name_key());
        assert(power_now_key_bytes@ == power_now_key());
        assert(energy_full_key_bytes@ == energy_full_key());
        assert(energy_now_key_bytes@ == energy_now_key());
        assert(power_supply_value_bytes@ == power_supply_value());
        assert(type_key_bytes@ == type_key());
        assert(battery_value_bytes@ == battery_value());
        assert(status_key_bytes@ == status_key());
        assert(k@ == line@.subrange(0, i as int));
        assert(v@ == line@.subrange(i + 1, line@.len() as int));
    }
    if bytes_eq(k, &devtype_key_bytes) {
        if !bytes_eq(v, &power_supply_value_bytes) { rejected } else { s }
    } else if bytes_eq(k, &name_key_bytes) {
        match filter {
            Some(f) => if !bytes_eq(v, f) { rejected } else { s },
            None => s,
        }
    } else if bytes_eq(k, &type_key_bytes) {
        if !bytes_eq(v, &battery_value_bytes) { rejected } else { s }
    } else if bytes_eq(k, &status_key_bytes) {
        settle_exec(InfoScan { status: Some(Status::from_bytes(v)), ..s })
    } else if bytes_eq(k, &power_now_key_bytes) {
        match read_u32(v) {
            Some(x) => settle_exec(InfoScan { power_now: Some(x), ..s }),
            None => rejected,
        }
    } else if bytes_eq(k, &energy_full_key_bytes) {
        match read_u32(v) {
            Some(x) => settle_exec(InfoScan { energy_full: Some(x), ..s }),
            None => rejected,
        }
    } else if bytes_eq(k, &energy_now_key_bytes) {
        match read_u32(v) {
            Some(x) => settle_exec(InfoScan { energy_now: Some(x), ..s }),
            None => rejected,
        }
    } else {
        s
    }
}

proof fn lemma_info_cons(s: InfoScan, x: Seq<u8>, rest: Seq<Seq<u8>>, filter: Option<Seq<u8>>)
    ensures
        info_scan_from(s, seq![x] + rest, filter) == info_scan_from(spec_info_step(s, x, filter), rest, filter),
{
    let l = seq![x] + rest;
    assert(l[0] == x);
    assert(l.drop_first() =~= rest);
}

/// The battery snapshot in the record that starts at `start` of `data`,
/// lines separated by `sep`; see `spec_parse_lines`.
pub fn parse_lines(data: &[u8], start: usize, sep: u8, filter: Option<&[u8]>) -> (r: Option<Info>)
    requires
        start <= data@.len(),
    ensures
        r == spec_parse_lines(data@.subrange(start as int, data@.len() as int), sep, filter_view(filter)),
{
    let ghost lines = split_on(data@.subrange(start as int, data@.len() as int), sep);
    let ghost fv = filter_view(filter);
    let mut s = InfoScan { status: None, power_now: None, energy_now: None, energy_full: None, phase: Phase::Reading };
    let mut at: usize = start;
    let mut done = false;
    while !done
        invariant
            start <= at <= data@.len(),
            lines == split_on(data@.subrange(start as int, data@.len() as int), sep),
            fv == filter_view(filter),
            !done ==> info_scan_from(s, split_on(data@.subrange(at as int, data@.len() as int), sep), fv)
                == info_scan_from(info_start(), lines, fv),
            done ==> s == info_scan_from(info_start(), lines, fv),
        decreases data@.len() - at + if done { 0int } else { 1int },
    {
        let rest = slice_subrange(data, at, data.len());
        match position(rest, sep) {
            Some(i) => {
                let line = slice_subrange(rest, 0, i);
                let ghost before = s;
                s = info_step(s, line, filter);
                proof {
                    lemma_split_step(rest@, sep, i as int);
                    lemma_info_cons(before, line@, split_on(rest@.subrange(i + 1, rest@.len() as int), sep), fv);
                    assert(rest@.subrange(i + 1, rest@.len() as int) =~= data@.subrange(at + i + 1, data@.len() as int));
                }
                at = at + i + 1;
            },
            None => {
                let ghost before = s;
                s = info_step(s, rest, filter);
                proof {
                    assert(!exists|k: int| is_first(rest@, sep, k));
                    assert(split_on(rest@, sep) == seq![rest@]);
                    lemma_info_cons(before, rest@, Seq::empty(), fv);
                    assert(seq![rest@] + Seq::<Seq<u8>>::empty() =~= seq![rest@]);
                }
                done = true;
            },
        }
    }
    if s.phase == Phase::Complete {
        match (s.status, s.power_now, s.energy_now, s.energy_full) {
            (Some(status), Some(power_now), Some(energy_now), Some(energy_full)) => Some(Info {
                status,
                power_now,
                energy_now,
                energy_full,
            }),
            _ => None,
        }
    } else {
        None
    }
}

/// The battery snapshot of a kernel notification: a `change@...` header,
/// then a NUL-separated record; none for another action.
pub open spec fn spec_parse_listen(data: Seq<u8>, filter: Option<Seq<u8>>) -> Option<Info> {
    let pieces = split_on(data, 0);
    let head = pieces[0];
    match crate::text::first_index(head, 64) {
        None => None,
        Some(a) => if head.subrange(0, a) != change_action() {
            None
        } else {
            info_of(info_scan_from(info_start(), pieces.drop_first(), filter))
        },
    }
}

/// Reads the battery snapshot of a kernel notification; see
/// `spec_parse_listen`.
pub fn parse_listen(data: &[u8], filter: Option<&[u8]>) -> (r: Option<Info>)
    ensures
        r == spec_parse_listen(data@, filter_view(filter)),
{
    let h = match position(data, 0) {
        Some(h) => h,
        None => {
            proof {
                assert(!exists|k: int| is_first(data@, 0, k));
                assert(split_on(data@, 0).drop_first() =~= Seq::<Seq<u8>>::empty());
            }
            return None;
        },
    };
    proof {
        lemma_split_step(data@, 0, h as int);
        assert((seq![data@.subrange(0, h as int)] + split_on(data@.subrange(h + 1, data@.len() as int), 0)).drop_first()
            =~= split_on(data@.subrange(h + 1, data@.len() as int), 0));
    }
    let head = slice_subrange(data, 0, h);
    let a = match position(head, 64) {
        Some(a) => a,
        None => {
            return None;
        },
    };
    let change: [u8; 6] = [99, 104, 97, 110, 103, 101];
    proof {
        assert(change@ == change_action());
    }
    if !bytes_eq(slice_subrange(head, 0, a), &change) {
        return None;
    }
    let n = data.len();
    proof {
        assert(h < n);
    }
    parse_lines(data, h + 1, 0, filter)
}

} // verus!
