use vstd::prelude::*;

verus! {

/// A civil calendar date in the reference time zone (UTC+9).
#[derive(Clone, Copy, Debug, PartialEq, Eq, Structural)]
pub struct CivilDate {
    pub year: u32,
    pub month: u32,
    pub day: u32,
}

impl CivilDate {
    /// Month and day lie in their calendar ranges.
    pub open spec fn wf(&self) -> bool {
        1 <= self.month <= 12 && 1 <= self.day <= 31
    }
}

/// The integer encoding `YYYYMMDD` of a date.
pub open spec fn ymd_code(year: int, month: int, day: int) -> int {
    year * 10000 + month * 100 + day
}

/// The integer encoding `MMDD` of a day of the year.
pub open spec fn md_code(month: int, day: int) -> int {
    month * 100 + day
}

/// The year in which a date written as month and day, seen on `now`, falls:
/// a January date seen in December belongs to the next year; every other
/// date belongs to the year of `now`.
pub open spec fn resolved_year(now: CivilDate, month: int) -> int {
    if now.month == 12 && month == 1 {
        now.year + 1
    } else {
        now.year as int
    }
}

/// The absolute date, encoded `YYYYMMDD`, of `month`/`day` as seen on `now`.
pub open spec fn resolved_date(now: CivilDate, month: int, day: int) -> int {
    ymd_code(resolved_year(now, month), month, day)
}

/// Resolves a month and day observed on `now` into an absolute date,
/// encoded `YYYYMMDD`.
pub fn resolve_end_date(now: &CivilDate, month: u32, day: u32) -> (r: u64)
    ensures
        r == resolved_date(*now, month as int, day as int),
{
    let mut year: u64 = now.year as u64;
    if now.month == 12 && month == 1 {
        year = year + 1;
    }
    proof {
        assert(year * 10000 <= 0x1_0000_0000u64 * 10000) by (nonlinear_arith)
            requires year <= 0x1_0000_0000u64;
        assert(month as u64 * 100 <= 0xffff_ffffu64 * 100) by (nonlinear_arith)
            requires month <= 0xffff_ffffu32;
    }
    year * 10000 + month as u64 * 100 + day as u64
}

/// `date` encoded as `YYYYMMDD`.
pub fn encode_ymd(date: &CivilDate) -> (r: u64)
    ensures
        r == ymd_code(date.year as int, date.month as int, date.day as int),
{
    proof {
        assert(date.year as u64 * 10000 <= 0xffff_ffffu64 * 10000) by (nonlinear_arith)
            requires date.year <= 0xffff_ffffu32;
        assert(date.month as u64 * 100 <= 0xffff_ffffu64 * 100) by (nonlinear_arith)
            requires date.month <= 0xffff_ffffu32;
    }
    date.year as u64 * 10000 + date.month as u64 * 100 + date.day as u64
}

/// `date`'s month and day encoded as `MMDD`.
pub fn encode_md(date: &CivilDate) -> (r: u32)
    requires
        date.wf(),
    ensures
        r == md_code(date.month as int, date.day as int),
{
    date.month * 100 + date.day
}

/// A January date seen in December resolves to the following year; any
/// other month, or any other month of observation, keeps the observed year.
/// For a valid month and day, the year stands in the leading digits of the
/// encoding and the month and day in its last four.
pub proof fn lemma_year_rollover(now: CivilDate, month: int, day: int)
    requires
        1 <= month <= 12,
        1 <= day <= 31,
    ensures
        now.month == 12 && month == 1 ==> resolved_year(now, month) == now.year + 1,
        !(now.month == 12 && month == 1) ==> resolved_year(now, month) == now.year,
        resolved_date(now, month, day) / 10000 == resolved_year(now, month),
        resolved_date(now, month, day) % 10000 == md_code(month, day),
{
    let y = resolved_year(now, month);
    let rest = month * 100 + day;
    assert(0 <= rest < 10000);
    assert(resolved_date(now, month, day) == y * 10000 + rest);
    assert((y * 10000 + rest) / 10000 == y && (y * 10000 + rest) % 10000 == rest)
        by (nonlinear_arith)
        requires 0 <= rest < 10000;
}

} // verus!
