//! Reconstruction of per-stage boot durations from the raw monotonic
//! timestamps that the init manager publishes as each stage completes.
//!
//! All timestamps are microsecond counts; a raw value of zero means the
//! stage has not been reached (or its timestamp has not been published),
//! never a measured zero. The derived record keeps that distinction: a
//! stage that cannot be determined is `None`, a measured zero is `Some(0)`.
use crate::text::dec_rep;
use vstd::prelude::*;
use vstd::string::StringExecFns;

verus! {

/// One batch of raw monotonic stage timestamps, in microseconds.
/// A value of zero means the init manager has not published that stage yet.
#[derive(Clone, Copy, Debug)]
pub struct RawTimestamps {
    pub firmware_ts: u64,
    pub loader_ts: u64,
    pub initrd_ts: u64,
    pub userspace_ts: u64,
    pub finish_ts: u64,
}

/// The derived record: one optional duration per stage plus an optional
/// total, all in microseconds. `None` means "could not be determined".
#[derive(Clone, Copy, Debug)]
pub struct BootTimeRecord {
    pub firmware: Option<u64>,
    pub loader: Option<u64>,
    pub kernel: Option<u64>,
    pub initrd: Option<u64>,
    pub userspace: Option<u64>,
    pub total: Option<u64>,
}

/// Saturating (floor-at-zero) difference: out-of-order readings from a live
/// system yield a zero duration, never an error or a wrapped value.
pub open spec fn sat_sub(a: u64, b: u64) -> u64 {
    if a >= b {
        (a - b) as u64
    } else {
        0
    }
}

/// The timestamp at which the kernel stage ends: the initrd timestamp when
/// an initrd ran, otherwise the userspace-start timestamp.
pub open spec fn kernel_marker(raw: RawTimestamps) -> u64 {
    if raw.initrd_ts > 0 {
        raw.initrd_ts
    } else {
        raw.userspace_ts
    }
}

/// What `BootTimeRecord::derive` returns, field by field.
///
/// The total is the finish timestamp alone: loader, kernel, initrd,
/// userspace and finish timestamps all count microseconds since power-on in
/// one reference frame, so the elapsed boot time is exactly the finish
/// reading; the firmware timestamp is a backward-measured hand-off counter
/// and is already folded into that frame, so it is not added on top.
pub open spec fn derived_record(raw: RawTimestamps) -> BootTimeRecord {
    BootTimeRecord {
        firmware: if raw.firmware_ts > 0 && raw.loader_ts > 0 {
            Some(sat_sub(raw.firmware_ts, raw.loader_ts))
        } else {
            None
        },
        loader: if raw.loader_ts > 0 {
            Some(raw.loader_ts)
        } else {
            None
        },
        kernel: if kernel_marker(raw) > 0 {
            Some(kernel_marker(raw))
        } else {
            None
        },
        initrd: if raw.initrd_ts > 0 && raw.userspace_ts > 0 {
            Some(sat_sub(raw.userspace_ts, raw.initrd_ts))
        } else {
            None
        },
        userspace: if raw.userspace_ts > 0 && raw.finish_ts > 0 {
            Some(sat_sub(raw.finish_ts, raw.userspace_ts))
        } else {
            None
        },
        total: if raw.finish_ts > 0 {
            Some(raw.finish_ts)
        } else {
            None
        },
    }
}

/// What `resolve_timestamps` returns: the same batch with the two
/// unfinished-boot fallbacks applied. A missing userspace-start timestamp is
/// replaced by the init process's start time when that read succeeded; a
/// missing finish timestamp is replaced by the current monotonic reading.
pub open spec fn resolved(raw: RawTimestamps, pid1_start_us: Option<u64>, now_us: u64) -> RawTimestamps {
    RawTimestamps {
        firmware_ts: raw.firmware_ts,
        loader_ts: raw.loader_ts,
        initrd_ts: raw.initrd_ts,
        userspace_ts: if raw.userspace_ts == 0 && pid1_start_us is Some {
            pid1_start_us->0
        } else {
            raw.userspace_ts
        },
        finish_ts: if raw.finish_ts == 0 {
            now_us
        } else {
            raw.finish_ts
        },
    }
}

/// Apply the unfinished-boot fallbacks to one batch of raw timestamps.
///
/// `pid1_start_us` is the init process's start time in microseconds, if the
/// process-accounting read succeeded; `now_us` is the current monotonic
/// clock reading. Neither fallback touches the other three timestamps.
pub fn resolve_timestamps(raw: &RawTimestamps, pid1_start_us: Option<u64>, now_us: u64) -> (r:
    RawTimestamps)
    ensures
        r == resolved(*raw, pid1_start_us, now_us),
{
    let userspace_ts: u64 = if raw.userspace_ts == 0 {
        match pid1_start_us {
            Some(ts) => ts,
            None => 0,
        }
    } else {
        raw.userspace_ts
    };
    let finish_ts: u64 = if raw.finish_ts == 0 {
        now_us
    } else {
        raw.finish_ts
    };
    RawTimestamps {
        firmware_ts: raw.firmware_ts,
        loader_ts: raw.loader_ts,
        initrd_ts: raw.initrd_ts,
        userspace_ts,
        finish_ts,
    }
}

/// The exact value of the tick conversion, over unbounded integers:
/// whole seconds in microseconds plus the remainder scaled to microseconds.
pub open spec fn ticks_to_micros_val(ticks: int, tps: int) -> int
    recommends
        tps > 0,
{
    (ticks / tps) * 1_000_000 + ((ticks % tps) * 1_000_000) / tps
}

/// Convert a process start time from clock ticks to microseconds, given the
/// system's ticks-per-second rate. A zero rate (the platform query failed)
/// disables the conversion, as does a result that does not fit in 64 bits.
pub fn ticks_to_micros(ticks: u64, tps: u64) -> (r: Option<u64>)
    ensures
        tps == 0 ==> r is None,
        tps > 0 ==> {
            let v = ticks_to_micros_val(ticks as int, tps as int);
            if v <= u64::MAX {
                r == Some(v as u64)
            } else {
                r is None
            }
        },
{
    if tps == 0 {
        return None;
    }
    let sec: u128 = (ticks / tps) as u128;
    let rem: u128 = (ticks % tps) as u128;
    let micros: u128 = (rem * 1_000_000) / (tps as u128);
    let v: u128 = sec * 1_000_000 + micros;
    if v <= u64::MAX as u128 {
        Some(v as u64)
    } else {
        None
    }
}

impl BootTimeRecord {
    /// Derive the per-stage durations and the total from one batch of raw
    /// timestamps. Pure: the record is exactly `derived_record(*raw)`.
    pub fn derive(raw: &RawTimestamps) -> (r: BootTimeRecord)
        ensures
            r == derived_record(*raw),
    {
        let kernel_end_ts: u64 = if raw.initrd_ts > 0 {
            raw.initrd_ts
        } else {
            raw.userspace_ts
        };
        BootTimeRecord {
            firmware: if raw.firmware_ts > 0 && raw.loader_ts > 0 {
                Some(raw.firmware_ts.saturating_sub(raw.loader_ts))
            } else {
                None
            },
            loader: if raw.loader_ts > 0 {
                Some(raw.loader_ts)
            } else {
                None
            },
            kernel: if kernel_end_ts > 0 {
                Some(kernel_end_ts)
            } else {
                None
            },
            initrd: if raw.initrd_ts > 0 && raw.userspace_ts > 0 {
                Some(raw.userspace_ts.saturating_sub(raw.initrd_ts))
            } else {
                None
            },
            userspace: if raw.userspace_ts > 0 && raw.finish_ts > 0 {
                Some(raw.finish_ts.saturating_sub(raw.userspace_ts))
            } else {
                None
            },
            total: if raw.finish_ts > 0 {
                Some(raw.finish_ts)
            } else {
                None
            },
        }
    }

    /// The whole reconstruction: apply the unfinished-boot fallbacks to
    /// the raw batch, then derive the record from the resolved batch.
    pub fn reconstruct(raw: &RawTimestamps, pid1_start_us: Option<u64>, now_us: u64) -> (r:
        BootTimeRecord)
        ensures
            r == derived_record(resolved(*raw, pid1_start_us, now_us)),
    {
        let res = resolve_timestamps(raw, pid1_start_us, now_us);
        BootTimeRecord::derive(&res)
    }

    /// The total elapsed boot time in microseconds, unknown when the boot
    /// has no finish timestamp.
    pub fn total_duration(&self) -> (t: Option<u64>)
        ensures
            t == self.total,
    {
        self.total
    }
}

/// A batch without a firmware timestamp reports the firmware duration as
/// unknown, whatever the loader timestamp says.
pub proof fn lemma_firmware_unknown_without_firmware(raw: RawTimestamps)
    requires
        raw.firmware_ts == 0,
    ensures
        derived_record(raw).firmware is None,
{
}

/// Without an initrd timestamp the initrd duration is unknown and the
/// kernel stage ends at the userspace-start timestamp instead.
pub proof fn lemma_no_initrd_marker(raw: RawTimestamps)
    requires
        raw.initrd_ts == 0,
    ensures
        derived_record(raw).initrd is None,
        kernel_marker(raw) == raw.userspace_ts,
        derived_record(raw).kernel == if raw.userspace_ts > 0 {
            Some(raw.userspace_ts)
        } else {
            None::<u64>
        },
{
}

/// A successful process-start fallback replaces a missing userspace-start
/// timestamp with the value it read, and touches nothing else.
pub proof fn lemma_userspace_fallback(raw: RawTimestamps, ts: u64, now_us: u64)
    requires
        raw.userspace_ts == 0,
    ensures
        resolved(raw, Some(ts), now_us).userspace_ts == ts,
        resolved(raw, Some(ts), now_us).firmware_ts == raw.firmware_ts,
        resolved(raw, Some(ts), now_us).loader_ts == raw.loader_ts,
        resolved(raw, Some(ts), now_us).initrd_ts == raw.initrd_ts,
{
}

/// When the finish timestamp is missing, the clock fallback value is what
/// flows downstream: it becomes the finish timestamp, and the userspace
/// duration derived from the resolved batch is the saturating difference
/// between it and the resolved userspace-start timestamp.
pub proof fn lemma_finish_fallback(raw: RawTimestamps, pid1_start_us: Option<u64>, t: u64)
    requires
        raw.finish_ts == 0,
    ensures
        resolved(raw, pid1_start_us, t).finish_ts == t,
        derived_record(resolved(raw, pid1_start_us, t)).userspace == {
            let us = resolved(raw, pid1_start_us, t).userspace_ts;
            if us > 0 && t > 0 {
                Some(sat_sub(t, us))
            } else {
                None::<u64>
            }
        },
{
}

/// How one optional duration renders: its millisecond count suffixed `ms`,
/// or `?` when unknown.
pub open spec fn opt_ms_rep(o: Option<u64>) -> Seq<char> {
    match o {
        Some(us) => dec_rep((us / 1000) as nat) + "ms"@,
        None => "?"@,
    }
}

/// The rendered record line.
pub open spec fn record_line(r: BootTimeRecord) -> Seq<char> {
    opt_ms_rep(r.firmware) + " (firmware) + "@ + opt_ms_rep(r.loader) + " (loader) + "@
        + opt_ms_rep(r.kernel) + " (kernel) + "@ + opt_ms_rep(r.initrd) + " (initrd) + "@
        + opt_ms_rep(r.userspace) + " (userspace) = "@ + opt_ms_rep(r.total)
}

fn render_opt_ms(o: &Option<u64>) -> (s: String)
    ensures
        s@ == opt_ms_rep(*o),
{
    match o {
        Some(us) => {
            let mut s = crate::text::u64_to_string(*us / 1000);
            s.append("ms");
            s
        },
        None => "?".to_owned(),
    }
}

impl BootTimeRecord {
    /// Render the record as one line: each stage as milliseconds (or `?`
    /// when unknown), then the total. A pure projection of the record.
    pub fn render(&self) -> (s: String)
        ensures
            s@ == record_line(*self),
    {
        let mut s = render_opt_ms(&self.firmware);
        s.append(" (firmware) + ");
        s.append(render_opt_ms(&self.loader).as_str());
        s.append(" (loader) + ");
        s.append(render_opt_ms(&self.kernel).as_str());
        s.append(" (kernel) + ");
        s.append(render_opt_ms(&self.initrd).as_str());
        s.append(" (initrd) + ");
        s.append(render_opt_ms(&self.userspace).as_str());
        s.append(" (userspace) = ");
        s.append(render_opt_ms(&self.total).as_str());
        proof {
            assert(s@ =~= record_line(*self));
        }
        s
    }
}

} // verus!
