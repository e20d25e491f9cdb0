use vstd::prelude::*;

use crate::geometry::trunc_div;
use crate::text::push_bytes;

verus! {

/// A local date and time, as the panel shows it.
#[derive(Clone, Copy, Debug, PartialEq, Eq, Structural)]
pub struct Clock {
    pub year: i32,
    /// Month from 0 (January) to 11.
    pub month0: u32,
    /// Day of the month from 1.
    pub day: u32,
    pub hour: u32,
    pub minute: u32,
    pub second: u32,
    /// Day of the week from 1 (Monday) to 7 (Sunday).
    pub weekday: u32,
}

/// Relies on chrono's `Local::now` and its `Datelike`, `Timelike` and
/// `Weekday::number_from_monday` accessors, for the ranges they document.
#[verifier::external_body]
fn local_now() -> (r: Clock)
    ensures
        r.wf(),
{
    let t = chrono::Local::now();
    Clock {
        year: chrono::Datelike::year(&t),
        month0: chrono::Datelike::month0(&t),
        day: chrono::Datelike::day(&t),
        hour: chrono::Timelike::hour(&t),
        minute: chrono::Timelike::minute(&t),
        second: chrono::Timelike::second(&t),
        weekday: chrono::Datelike::weekday(&t).number_from_monday(),
    }
}

/// Abbreviated month names, from 0.
pub open spec fn month_name(m: u32) -> Seq<u8> {
    match m {
        0 => seq![74u8, 65, 78],
        1 => seq![70u8, 195, 137, 86],
        2 => seq![77u8, 65, 82],
        3 => seq![65u8, 86, 82],
        4 => seq![77u8, 65, 73],
        5 => seq![74u8, 85, 78],
        6 => seq![74u8, 85, 76],
        7 => seq![65u8, 79, 85],
        8 => seq![83u8, 195, 137, 80],
        9 => seq![79u8, 67, 84],
        10 => seq![78u8, 79, 86],
        _ => seq![68u8, 195, 137, 67],
    }
}

/// Day-of-week names, from Sunday.
pub open spec fn weekday_name(d: u32) -> Seq<u8> {
    match d {
        0 => seq![230u8, 151, 165],
        1 => seq![230u8, 156, 136],
        2 => seq![231u8, 129, 171],
        3 => seq![230u8, 176, 180],
        4 => seq![230u8, 156, 168],
        5 => seq![233u8, 135, 145],
        _ => seq![229u8, 156, 159],
    }
}

/// Remainder of `a` by the positive `d`, with the sign of `a`.
pub open spec fn trunc_rem(a: int, d: int) -> int {
    a - d * trunc_div(a, d)
}

/// The byte of a digit place `v`: `v` as a byte, plus `0`, wrapping.
pub open spec fn wrap_digit(v: int) -> u8 {
    ((v % 256 + 48) % 256) as u8
}

fn tdiv(v: i64, d: i64) -> (r: i64)
    requires
        0 < d < 0x1_0000,
        -0x1_0000_0000 <= v <= 0x1_0000_0000,
    ensures
        r == trunc_div(v as int, d as int),
        -0x1_0000_0000 <= r <= 0x1_0000_0000,
{
    if v >= 0 {
        (v as u64 / d as u64) as i64
    } else {
        -(((-v) as u64 / d as u64) as i64)
    }
}

fn trem(v: i64, d: i64) -> (r: i64)
    requires
        0 < d < 0x1_0000,
        -0x1_0000_0000 <= v <= 0x1_0000_0000,
    ensures
        r == trunc_rem(v as int, d as int),
        -0x1_0000_0000 <= r <= 0x1_0000_0000,
{
    let q = tdiv(v, d);
    proof {
        let (vi, di, qi) = (v as int, d as int, q as int);
        if vi >= 0 {
            assert(qi == vi / di);
            assert(0 <= vi - di * qi < di) by (nonlinear_arith)
                requires vi >= 0, di > 0, qi == vi / di;
        } else {
            assert(qi == -((-vi) / di));
            assert(0 <= (-vi) - di * ((-vi) / di) < di) by (nonlinear_arith)
                requires -vi > 0, di > 0;
            assert(di * qi == -(di * ((-vi) / di))) by (nonlinear_arith)
                requires qi == -((-vi) / di);
        }
    }
    v - d * q
}

fn wrapped_digit(v: i64) -> (r: u8)
    ensures
        r == wrap_digit(v as int),
{
    let m: u64 = if v >= 0 {
        (v as u64) % 256
    } else {
        let a = ((-(v as i128)) as u128 % 256) as u64;
        proof {
            let (vi, ai) = (v as int, a as int);
            assert(ai == (-vi) % 256);
            assert((vi % 256) == (if ai == 0 { 0 } else { 256 - ai })) by (nonlinear_arith)
                requires ai == (-vi) % 256, vi < 0;
        }
        if a == 0 { 0 } else { 256 - a }
    };
    ((m + 48) % 256) as u8
}

/// The ASCII digit of `d`.
pub open spec fn digit(d: int) -> u8 {
    (d + 48) as u8
}

impl Clock {
    /// The fields are in the ranges of a calendar date and a time of day.
    pub open spec fn wf(self) -> bool {
        &&& self.month0 < 12
        &&& 1 <= self.day <= 31
        &&& self.hour < 24
        &&& self.minute < 60
        &&& self.second < 60
        &&& 1 <= self.weekday <= 7
    }

    /// The four digits of the year, as a four-digit year shows them; other
    /// years keep the same arithmetic, each place taken modulo 256 and
    /// offset from `0` with wrap-around.
    pub open spec fn spec_year(self) -> Seq<u8> {
        let y = self.year as int;
        seq![
            wrap_digit(trunc_div(y, 1000)),
            wrap_digit(trunc_rem(trunc_div(y, 100), 10)),
            wrap_digit(trunc_rem(trunc_div(y, 10), 10)),
            wrap_digit(trunc_rem(y, 10)),
        ]
    }

    /// The two digits of the day.
    pub open spec fn spec_day(self) -> Seq<u8> {
        seq![digit((self.day / 10) as int), digit((self.day % 10) as int)]
    }

    /// The local time now.
    pub fn now() -> (r: Clock)
        ensures
            r.wf(),
    {
        local_now()
    }

    /// The year in four digits.
    pub fn year(&self) -> (r: [u8; 4])
        ensures
            r@ == self.spec_year(),
    {
        let y = self.year as i64;
        let r = [
            wrapped_digit(tdiv(y, 1000)),
            wrapped_digit(trem(tdiv(y, 100), 10)),
            wrapped_digit(trem(tdiv(y, 10), 10)),
            wrapped_digit(trem(y, 10)),
        ];
        proof {
            assert(r@ =~= self.spec_year());
        }
        r
    }

    /// The abbreviated month name.
    pub fn month(&self) -> (r: Vec<u8>)
        ensures
            r@ == month_name(self.month0),
    {
        let mut r: Vec<u8> = Vec::new();
        match self.month0 {
            0 => {
                let n: [u8; 3] = [74, 65, 78];
                push_bytes(&mut r, &n);
            },
            1 => {
                let n: [u8; 4] = [70, 195, 137, 86];
                push_bytes(&mut r, &n);
            },
            2 => {
                let n: [u8; 3] = [77, 65, 82];
                push_bytes(&mut r, &n);
            },
            3 => {
                let n: [u8; 3] = [65, 86, 82];
                push_bytes(&mut r, &n);
            },
            4 => {
                let n: [u8; 3] = [77, 65, 73];
                push_bytes(&mut r, &n);
            },
            5 => {
                let n: [u8; 3] = [74, 85, 78];
                push_bytes(&mut r, &n);
            },
            6 => {
                let n: [u8; 3] = [74, 85, 76];
                push_bytes(&mut r, &n);
            },
            7 => {
                let n: [u8; 3] = [65, 79, 85];
                push_bytes(&mut r, &n);
            },
            8 => {
                let n: [u8; 4] = [83, 195, 137, 80];
                push_bytes(&mut r, &n);
            },
            9 => {
                let n: [u8; 3] = [79, 67, 84];
                push_bytes(&mut r, &n);
            },
            10 => {
                let n: [u8; 3] = [78, 79, 86];
                push_bytes(&mut r, &n);
            },
            _ => {
                let n: [u8; 4] = [68, 195, 137, 67];
                push_bytes(&mut r, &n);
            },
        }
        r
    }

    /// The day of the month in two digits.
    pub fn day(&self) -> (r: [u8; 2])
        requires
            self.wf(),
        ensures
            r@ == self.spec_day(),
    {
        let r = [(self.day / 10) as u8 + 48, (self.day % 10) as u8 + 48];
        proof {
            assert(r@ =~= self.spec_day());
        }
        r
    }

    /// `YYYY MON DD`.
    pub fn date(&self) -> (r: Vec<u8>)
        requires
            self.wf(),
        ensures
            r@ == self.spec_year() + seq![32u8] + month_name(self.month0) + seq![32u8] + self.spec_day(),
    {
        let mut r: Vec<u8> = Vec::new();
        let y = self.year();
        push_bytes(&mut r, &y);
        r.push(32);
        let m = self.month();
        push_bytes(&mut r, m.as_slice());
        r.push(32);
        let d = self.day();
        push_bytes(&mut r, &d);
        r
    }

    /// `HH:MM:SS`.
    pub fn time(&self) -> (r: [u8; 8])
        requires
            self.wf(),
        ensures
            r@ == seq![
                digit((self.hour / 10) as int),
                digit((self.hour % 10) as int),
                58u8,
                digit((self.minute / 10) as int),
                digit((self.minute % 10) as int),
                58u8,
                digit((self.second / 10) as int),
                digit((self.second % 10) as int),
            ],
    {
        let (h, m, s) = (self.hour as u8, self.minute as u8, self.second as u8);
        let r = [h / 10 + 48, h % 10 + 48, 58, m / 10 + 48, m % 10 + 48, 58, s / 10 + 48, s % 10 + 48];
        proof {
            assert(r@ =~= seq![
                digit((self.hour / 10) as int),
                digit((self.hour % 10) as int),
                58u8,
                digit((self.minute / 10) as int),
                digit((self.minute % 10) as int),
                58u8,
                digit((self.second / 10) as int),
                digit((self.second % 10) as int),
            ]);
        }
        r
    }

    /// The day of the week, one kanji.
    pub fn weekday(&self) -> (r: Vec<u8>)
        requires
            self.wf(),
        ensures
            r@ == weekday_name(self.weekday % 7),
    {
        let mut r: Vec<u8> = Vec::new();
        match self.weekday % 7 {
            0 => {
                let n: [u8; 3] = [230, 151, 165];
                push_bytes(&mut r, &n);
            },
            1 => {
                let n: [u8; 3] = [230, 156, 136];
                push_bytes(&mut r, &n);
            },
            2 => {
                let n: [u8; 3] = [231, 129, 171];
                push_bytes(&mut r, &n);
            },
            3 => {
                let n: [u8; 3] = [230, 176, 180];
                push_bytes(&mut r, &n);
            },
            4 => {
                let n: [u8; 3] = [230, 156, 168];
                push_bytes(&mut r, &n);
            },
            5 => {
                let n: [u8; 3] = [233, 135, 145];
                push_bytes(&mut r, &n);
            },
            _ => {
                let n: [u8; 3] = [229, 156, 159];
                push_bytes(&mut r, &n);
            },
        }
        r
    }
}

} // verus!
