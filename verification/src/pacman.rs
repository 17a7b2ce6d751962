//! The package-database side of the report: given each installed package's
//! optional install date (epoch seconds), find the newest one, and turn it
//! into an age relative to the current time.
use vstd::prelude::*;

verus! {

/// The newest install date among the packages, or `None` when no package
/// has one (or there are no packages at all).
pub fn latest_install_date(dates: &Vec<Option<i64>>) -> (r: Option<i64>)
    ensures
        match r {
            Some(m) => (exists|i: int| 0 <= i < dates@.len() && dates@[i] == Some(m)) && (forall|
                i: int,
            |
                0 <= i < dates@.len() && #[trigger] dates@[i] is Some ==> dates@[i]->0 <= m),
            None => forall|i: int| 0 <= i < dates@.len() ==> #[trigger] dates@[i] is None,
        },
{
    let mut best: Option<i64> = None;
    let mut idx: usize = 0;
    while idx < dates.len()
        invariant
            idx <= dates@.len(),
            match best {
                Some(m) => (exists|i: int| 0 <= i < idx && dates@[i] == Some(m)) && (forall|
                    i: int,
                |
                    0 <= i < idx && #[trigger] dates@[i] is Some ==> dates@[i]->0 <= m),
                None => forall|i: int| 0 <= i < idx ==> #[trigger] dates@[i] is None,
            },
        decreases dates@.len() - idx,
    {
        let cur = dates[idx];
        match cur {
            Some(d) => {
                best = match best {
                    Some(b) => if d > b {
                        Some(d)
                    } else {
                        Some(b)
                    },
                    None => Some(d),
                };
            },
            None => {},
        }
        idx = idx + 1;
    }
    best
}

/// The age of a past moment: `now - target` in seconds, or `None` when the
/// target lies in the future of `now` (a clock that went backwards).
pub fn seconds_since(now_secs: u64, target_secs: u64) -> (r: Option<u64>)
    ensures
        r == if now_secs >= target_secs {
            Some((now_secs - target_secs) as u64)
        } else {
            None::<u64>
        },
{
    if now_secs >= target_secs {
        Some(now_secs - target_secs)
    } else {
        None
    }
}

} // verus!
