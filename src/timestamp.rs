use vstd::prelude::*;

verus! {

/// An instant in UTC, held as its calendar fields.
#[derive(Clone, Copy, Debug, PartialEq, Eq, Structural)]
pub struct UtcTimestamp {
    pub year: i32,
    pub month: u32,
    pub day: u32,
    pub hour: u32,
    pub minute: u32,
    pub second: u32,
    /// Nanoseconds past the second; a leap second is held as `1_000_000_000`
    /// and more.
    pub nanosecond: u32,
}

impl UtcTimestamp {
    /// Each field lies in its calendar range.
    pub open spec fn wf(&self) -> bool {
        &&& 1 <= self.month <= 12
        &&& 1 <= self.day <= 31
        &&& self.hour < 24
        &&& self.minute < 60
        &&& self.second < 60
        &&& self.nanosecond < 2_000_000_000
    }

    /// The instant used where a row's observation time cannot be read:
    /// 1967-10-28T10:11:12Z.
    pub open spec fn spec_sentinel() -> UtcTimestamp {
        UtcTimestamp {
            year: 1967,
            month: 10,
            day: 28,
            hour: 10,
            minute: 11,
            second: 12,
            nanosecond: 0,
        }
    }

    /// Returns 1967-10-28T10:11:12Z, the fallback observation time.
    pub fn sentinel() -> (r: UtcTimestamp)
        ensures
            r == Self::spec_sentinel(),
            r.wf(),
    {
        UtcTimestamp { year: 1967, month: 10, day: 28, hour: 10, minute: 11, second: 12, nanosecond: 0 }
    }
}

} // verus!
