//! Coarse human-readable rendering of a duration: whole days, hours,
//! minutes or seconds, whichever is the largest unit that fits.
use crate::text::dec_rep;
use vstd::prelude::*;
use vstd::string::StringExecFns;

verus! {

/// A duration in whole seconds, rendered at the largest fitting unit.
#[derive(Clone, Copy, Debug)]
pub struct HumanDuration(pub u64);

/// How a second count renders: the count divided down to days (`d`),
/// hours (`h`), minutes (`m`) or, below a minute, seconds (`s`).
pub open spec fn human_rep(secs: u64) -> Seq<char> {
    if secs >= 86400 {
        dec_rep((secs / 86400) as nat) + "d"@
    } else if secs >= 3600 {
        dec_rep((secs / 3600) as nat) + "h"@
    } else if secs >= 60 {
        dec_rep((secs / 60) as nat) + "m"@
    } else {
        dec_rep(secs as nat) + "s"@
    }
}

impl HumanDuration {
    /// Render the duration.
    pub fn render(&self) -> (s: String)
        ensures
            s@ == human_rep(self.0),
    {
        let secs = self.0;
        let value: u64;
        let unit: &'static str;
        if secs >= 86400 {
            value = secs / 86400;
            unit = "d";
        } else if secs >= 3600 {
            value = secs / 3600;
            unit = "h";
        } else if secs >= 60 {
            value = secs / 60;
            unit = "m";
        } else {
            value = secs;
            unit = "s";
        }
        let mut s = crate::text::u64_to_string(value);
        s.append(unit);
        s
    }
}

} // verus!
