//! Human-readable renderings of byte counts and durations.

use crate::text::{decimal, decimal_string};
use vstd::prelude::*;
use vstd::string::StringExecFns;

verus! {

/// Below this many bytes a count is shown in bytes.
pub const BASE_UNIT_LIMIT: u64 = 1_000;

/// Below this many kilobytes a magnitude is shown in kB.
pub const KILO_LIMIT: u64 = 100_000;

/// Below this many kilobytes a magnitude is shown in MB.
pub const MEGA_LIMIT: u64 = 10_000_000;

/// Below this many kilobytes a magnitude is shown in GB; from here on in TB.
pub const GIGA_LIMIT: u64 = 10_000_000_000;

/// One part of a duration: the count followed by its unit letter and a
/// space, or nothing at all when the count is zero.
pub open spec fn duration_part(count: nat, unit: char) -> Seq<char> {
    if count > 0 {
        decimal(count) + seq![unit, ' ']
    } else {
        Seq::empty()
    }
}

/// A duration of `t` seconds as days, hours, minutes and seconds. A zero
/// count of days, hours or minutes is left out; the seconds always stand.
pub open spec fn duration_text(t: nat) -> Seq<char> {
    duration_part(t / 86_400, 'd') + duration_part(t / 3_600 % 24, 'h') + duration_part(
        t / 60 % 60,
        'm',
    ) + decimal(t % 60) + seq!['s']
}

/// Appends one part of a duration to `out`.
fn push_duration_part(out: &mut String, count: u64, unit: &str)
    requires
        unit@.len() == 2,
        unit@[1] == ' ',
    ensures
        final(out)@ == old(out)@ + duration_part(count as nat, unit@[0]),
{
    if count > 0 {
        let digits = decimal_string(count);
        out.append(digits.as_str());
        out.append(unit);
        assert(unit@ =~= seq![unit@[0], ' ']);
        assert(out@ =~= old(out)@ + duration_part(count as nat, unit@[0]));
    } else {
        assert(out@ =~= old(out)@ + duration_part(count as nat, unit@[0]));
    }
}

/// Renders a run time given in seconds, for instance `"1m 5s"` for 65 and
/// `"1h 0s"` for 3600.
pub fn format_time(t: u64) -> (s: String)
    ensures
        s@ == duration_text(t as nat),
{
    proof {
        reveal_strlit("d ");
        reveal_strlit("h ");
        reveal_strlit("m ");
        reveal_strlit("s");
    }
    let mut s = String::new();
    push_duration_part(&mut s, t / 86_400, "d ");
    push_duration_part(&mut s, t / 3_600 % 24, "h ");
    push_duration_part(&mut s, t / 60 % 60, "m ");
    let seconds = decimal_string(t % 60);
    s.append(seconds.as_str());
    s.append("s");
    assert(s@ =~= duration_text(t as nat));
    s
}

/// The unit suffix under which a magnitude of `kb` kilobytes is shown.
pub open spec fn magnitude_unit(kb: nat) -> Seq<char> {
    if kb < KILO_LIMIT {
        seq!['k', 'B']
    } else if kb < MEGA_LIMIT {
        seq!['M', 'B']
    } else if kb < GIGA_LIMIT {
        seq!['G', 'B']
    } else {
        seq!['T', 'B']
    }
}

/// The divisor that turns kilobytes into the unit of `magnitude_unit`.
pub open spec fn magnitude_divisor(kb: nat) -> nat {
    if kb < KILO_LIMIT {
        1
    } else if kb < MEGA_LIMIT {
        1_000
    } else if kb < GIGA_LIMIT {
        1_000_000
    } else {
        1_000_000_000
    }
}

/// A byte count in the largest fitting unit: bytes below one thousand, then
/// whole kB, MB, GB or TB, the number and the unit parted by a space.
pub open spec fn bytes_text(n: nat) -> Seq<char> {
    if n < BASE_UNIT_LIMIT {
        decimal(n) + seq![' ', 'B']
    } else {
        decimal((n / 1_000) / magnitude_divisor(n / 1_000)) + seq![' '] + magnitude_unit(
            n / 1_000,
        )
    }
}

/// Renders a byte count, for instance `"999 B"`, `"1 kB"`, `"100 MB"`.
pub fn format_bytes(n: u64) -> (s: String)
    ensures
        s@ == bytes_text(n as nat),
{
    proof {
        reveal_strlit(" B");
        reveal_strlit(" kB");
        reveal_strlit(" MB");
        reveal_strlit(" GB");
        reveal_strlit(" TB");
    }
    if n < BASE_UNIT_LIMIT {
        let mut s = decimal_string(n);
        s.append(" B");
        assert(s@ =~= bytes_text(n as nat));
        s
    } else {
        let kb: u64 = n / 1_000;
        if kb < KILO_LIMIT {
            let mut s = decimal_string(kb);
            s.append(" kB");
            assert(s@ =~= bytes_text(n as nat));
            s
        } else if kb < MEGA_LIMIT {
            let mut s = decimal_string(kb / 1_000);
            s.append(" MB");
            assert(s@ =~= bytes_text(n as nat));
            s
        } else if kb < GIGA_LIMIT {
            let mut s = decimal_string(kb / 1_000_000);
            s.append(" GB");
            assert(s@ =~= bytes_text(n as nat));
            s
        } else {
            let mut s = decimal_string(kb / 1_000_000_000);
            s.append(" TB");
            assert(s@ =~= bytes_text(n as nat));
            s
        }
    }
}

} // verus!
