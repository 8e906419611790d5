use vstd::prelude::*;

verus! {

/// Seconds in a minute.
pub const SECONDS_PER_MINUTE: i64 = 60;

/// A point in time, as whole seconds since the Unix epoch.
#[derive(Clone, Copy, Debug, PartialEq, Eq, Structural)]
pub struct Instant {
    pub seconds_since_unix_epoch: i64,
}

/// The last full minute at or before the given second.
pub open spec fn minute_floor(seconds: int) -> int {
    seconds - seconds % 60
}

/// The instant a number of days after `start`; `None` where the days in
/// seconds, or the sum, leave the range of a timestamp.
pub open spec fn days_after(start: Instant, days: i64) -> Option<Instant> {
    let shift = days as int * 86_400;
    let end = start.seconds_since_unix_epoch as int + shift;
    if i64::MIN <= shift <= i64::MAX && i64::MIN <= end <= i64::MAX {
        Some(Instant { seconds_since_unix_epoch: end as i64 })
    } else {
        None
    }
}

/// Calls `add_days` of `scrypto::prelude::Instant`. Trusted: it multiplies
/// the days by 86 400 and adds the seconds, both checked in 64 bits, and
/// answers `None` where either overflows.
#[verifier::external_body]
pub(crate) fn shifted_by_days(start: Instant, days: i64) -> (r: Option<Instant>)
    ensures
        r == days_after(start, days),
{
    match scrypto::prelude::Instant::new(start.seconds_since_unix_epoch).add_days(days) {
        Some(end) => Some(Instant { seconds_since_unix_epoch: end.seconds_since_unix_epoch }),
        None => None,
    }
}

impl Instant {
    /// The instant with the given seconds since the Unix epoch.
    pub fn new(seconds_since_unix_epoch: i64) -> (r: Instant)
        ensures
            r.seconds_since_unix_epoch == seconds_since_unix_epoch,
    {
        Instant { seconds_since_unix_epoch }
    }

    /// The instant rounded down to the full minute; `None` where that minute
    /// lies before the earliest timestamp.
    pub fn rounded_to_minutes(&self) -> (r: Option<Instant>)
        ensures
            r == if minute_floor(self.seconds_since_unix_epoch as int) >= i64::MIN {
                Some(
                    Instant {
                        seconds_since_unix_epoch: minute_floor(
                            self.seconds_since_unix_epoch as int,
                        ) as i64,
                    },
                )
            } else {
                None
            },
    {
        let s: i64 = self.seconds_since_unix_epoch;
        if s >= 0 {
            Some(Instant { seconds_since_unix_epoch: s - s % SECONDS_PER_MINUTE })
        } else {
            // Below zero the machine's remainder is negative or zero.
            let back: i64 = -(s + 1);
            let past: i64 = SECONDS_PER_MINUTE - 1 - back % SECONDS_PER_MINUTE;
            assert(past as int == s as int % 60) by {
                let q: int = (back as int) / 60;
                vstd::arithmetic::div_mod::lemma_fundamental_div_mod(back as int, 60);
                assert(s as int == 60 * (-q - 1) + past as int);
                vstd::arithmetic::div_mod::lemma_fundamental_div_mod_converse(
                    s as int,
                    60,
                    -q - 1,
                    past as int,
                );
            }
            if s - i64::MIN >= past {
                Some(Instant { seconds_since_unix_epoch: s - past })
            } else {
                None
            }
        }
    }

    /// The instant `days` days later; `None` where it leaves the range of a
    /// timestamp.
    pub fn add_days(&self, days: i64) -> (r: Option<Instant>)
        ensures
            r == days_after(*self, days),
    {
        shifted_by_days(*self, days)
    }
}

} // verus!
