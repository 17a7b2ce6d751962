//! Extraction of the init process's start time from its one-line
//! process-accounting record: whitespace-separated fields, of which the
//! twenty-second (index 21) is the start time in clock ticks since boot.
use vstd::prelude::*;

verus! {

/// Index of the start-time field (zero-based) in the accounting line.
pub const START_TIME_FIELD: usize = 21;

/// ASCII whitespace, the separators of the accounting line.
pub open spec fn is_ws(b: u8) -> bool {
    b == 32 || (9 <= b && b <= 13)
}

/// The first index at or after `i` holding a non-whitespace byte, or the
/// length when only whitespace remains.
pub open spec fn next_non_ws(s: Seq<u8>, i: int) -> int
    decreases s.len() - i when i <= s.len()
{
    if i >= s.len() {
        s.len() as int
    } else if !is_ws(s[i]) {
        i
    } else {
        next_non_ws(s, i + 1)
    }
}

/// The first index at or after `i` holding a whitespace byte, or the
/// length when none follows.
pub open spec fn next_ws(s: Seq<u8>, i: int) -> int
    decreases s.len() - i when i <= s.len()
{
    if i >= s.len() {
        s.len() as int
    } else if is_ws(s[i]) {
        i
    } else {
        next_ws(s, i + 1)
    }
}

/// Where the `n`-th whitespace-separated field begins; the length when the
/// line has no such field.
pub open spec fn field_start(s: Seq<u8>, n: nat) -> int
    decreases n,
{
    if n == 0 {
        next_non_ws(s, 0)
    } else {
        next_non_ws(s, next_ws(s, field_start(s, (n - 1) as nat)))
    }
}

/// Every byte is a decimal digit.
pub open spec fn all_digits(s: Seq<u8>) -> bool {
    forall|i: int| 0 <= i < s.len() ==> 48 <= #[trigger] s[i] <= 57
}

/// The value of a digit string, most significant digit first.
pub open spec fn dec_val(s: Seq<u8>) -> int
    decreases s.len(),
{
    if s.len() == 0 {
        0
    } else {
        dec_val(s.drop_last()) * 10 + (s.last() - 48)
    }
}

/// How a field parses as an unsigned count: it must be non-empty, all
/// digits, and fit in 64 bits; anything else is a failed parse.
pub open spec fn parse_dec(s: Seq<u8>) -> Option<u64> {
    if s.len() > 0 && all_digits(s) && dec_val(s) <= u64::MAX {
        Some(dec_val(s) as u64)
    } else {
        None
    }
}

/// The start-time field of an accounting line, parsed; `None` when the
/// line has too few fields or the field is not a plain digit string.
pub open spec fn stat_start_ticks(s: Seq<u8>) -> Option<u64> {
    let a = field_start(s, START_TIME_FIELD as nat);
    if a < s.len() {
        parse_dec(s.subrange(a, next_ws(s, a)))
    } else {
        None
    }
}

fn byte_is_ws(b: u8) -> (r: bool)
    ensures
        r == is_ws(b),
{
    b == 32 || (9 <= b && b <= 13)
}

fn skip_ws(s: &[u8], from: usize) -> (r: usize)
    requires
        from <= s@.len(),
    ensures
        from <= r <= s@.len(),
        r as int == next_non_ws(s@, from as int),
{
    let mut i = from;
    while i < s.len()
        invariant
            from <= i <= s@.len(),
            next_non_ws(s@, from as int) == next_non_ws(s@, i as int),
        decreases s@.len() - i,
    {
        if !byte_is_ws(s[i]) {
            return i;
        }
        i = i + 1;
    }
    i
}

fn skip_field(s: &[u8], from: usize) -> (r: usize)
    requires
        from <= s@.len(),
    ensures
        from <= r <= s@.len(),
        r as int == next_ws(s@, from as int),
{
    let mut i = from;
    while i < s.len()
        invariant
            from <= i <= s@.len(),
            next_ws(s@, from as int) == next_ws(s@, i as int),
        decreases s@.len() - i,
    {
        if byte_is_ws(s[i]) {
            return i;
        }
        i = i + 1;
    }
    i
}

/// The byte range `[start, end)` of the `n`-th whitespace-separated field,
/// or `None` when the line has fewer than `n + 1` fields.
pub fn nth_field_range(s: &[u8], n: usize) -> (r: Option<(usize, usize)>)
    ensures
        ({
            let a = field_start(s@, n as nat);
            if a < s@.len() {
                r == Some((a as usize, next_ws(s@, a) as usize)) && 0 <= a <= next_ws(s@, a)
                    <= s@.len()
            } else {
                r is None
            }
        }),
{
    let mut k: usize = 0;
    let mut i: usize = skip_ws(s, 0);
    while k < n
        invariant
            k <= n,
            i <= s@.len(),
            i as int == field_start(s@, k as nat),
        decreases n - k,
    {
        let e = skip_field(s, i);
        i = skip_ws(s, e);
        k = k + 1;
    }
    if i < s.len() {
        let e = skip_field(s, i);
        Some((i, e))
    } else {
        None
    }
}

proof fn lemma_dec_val_nonneg(s: Seq<u8>)
    requires
        all_digits(s),
    ensures
        dec_val(s) >= 0,
    decreases s.len(),
{
    if s.len() > 0 {
        assert(all_digits(s.drop_last()));
        lemma_dec_val_nonneg(s.drop_last());
    }
}

proof fn lemma_dec_val_prefix_le(s: Seq<u8>, i: int)
    requires
        all_digits(s),
        0 <= i <= s.len(),
    ensures
        dec_val(s.subrange(0, i)) <= dec_val(s),
    decreases s.len() - i,
{
    if i == s.len() {
        assert(s.subrange(0, i) =~= s);
    } else {
        let p = s.subrange(0, i);
        let q = s.subrange(0, i + 1);
        assert(q.drop_last() =~= p);
        assert(all_digits(p));
        lemma_dec_val_nonneg(p);
        assert(dec_val(q) == dec_val(p) * 10 + (s[i] - 48));
        lemma_dec_val_prefix_le(s, i + 1);
    }
}

/// Parse a field as a decimal count: exactly `parse_dec` of its bytes.
pub fn parse_u64(f: &[u8]) -> (r: Option<u64>)
    ensures
        r == parse_dec(f@),
{
    if f.len() == 0 {
        return None;
    }
    let mut acc: u64 = 0;
    let mut i: usize = 0;
    while i < f.len()
        invariant
            i <= f@.len(),
            f@.len() > 0,
            all_digits(f@.subrange(0, i as int)),
            acc == dec_val(f@.subrange(0, i as int)),
        decreases f@.len() - i,
    {
        let b = f[i];
        if b < 48 || b > 57 {
            proof {
                assert(!all_digits(f@));
            }
            return None;
        }
        let d: u64 = (b - 48) as u64;
        proof {
            vstd::arithmetic::div_mod::lemma_fundamental_div_mod((u64::MAX - d) as int, 10);
            assert(f@.subrange(0, i + 1).drop_last() =~= f@.subrange(0, i as int));
            assert(all_digits(f@.subrange(0, i + 1)));
            assert(dec_val(f@.subrange(0, i + 1)) == acc * 10 + d);
        }
        if acc > (u64::MAX - d) / 10 {
            proof {
                if all_digits(f@) {
                    lemma_dec_val_prefix_le(f@, i + 1);
                }
            }
            return None;
        }
        acc = acc * 10 + d;
        i = i + 1;
    }
    proof {
        assert(f@.subrange(0, f@.len() as int) =~= f@);
    }
    Some(acc)
}

/// The start time of the init process in clock ticks, read out of its
/// accounting line; `None` when the line is malformed or truncated.
pub fn pid1_start_ticks(stat: &[u8]) -> (r: Option<u64>)
    ensures
        r == stat_start_ticks(stat@),
{
    let len = stat.len();
    match nth_field_range(stat, START_TIME_FIELD) {
        Some((a, b)) => {
            proof {
                let fs = field_start(stat@, START_TIME_FIELD as nat);
                assert(a as int == fs && b as int == next_ws(stat@, fs));
            }
            let fld = vstd::slice::slice_subrange(stat, a, b);
            parse_u64(fld)
        },
        None => None,
    }
}

} // verus!
