use vstd::prelude::*;
use vstd::string::*;
use crate::text::{decimal, two_digits, push_decimal, push_two_digits};

verus! {

/// Base units in one native unit.
pub const LAMPORTS_PER_SOL: u64 = 1_000_000_000;

/// Base units in the smallest shown step, a ten-thousandth of a native unit.
pub const LAMPORTS_PER_STEP: u64 = 100_000;

/// The short form of an address: its first four characters, "..", its last
/// four. An address of fewer than eight characters is shown whole.
pub open spec fn short_form(a: Seq<char>) -> Seq<char> {
    if a.len() < 8 {
        a
    } else {
        a.subrange(0, 4) + seq!['.', '.'] + a.subrange(a.len() - 4, a.len() as int)
    }
}

/// `lamports` in ten-thousandths of a native unit, rounded to the nearest, halves up.
pub open spec fn steps_of(lamports: nat) -> nat {
    ((lamports + LAMPORTS_PER_STEP as nat / 2) / (LAMPORTS_PER_STEP as nat)) as nat
}

/// `lamports` in native units with four decimal places, as `5.0000`.
pub open spec fn sol_text(lamports: nat) -> Seq<char> {
    let q = steps_of(lamports);
    decimal(q / 10000) + seq!['.'] + two_digits(q / 100) + two_digits(q)
}

/// Shortens an address for display.
pub fn shortify_sol_address(address: &str) -> (r: String)
    ensures
        r@ == short_form(address@),
{
    let n = address.unicode_len();
    if n < 8 {
        return address.to_owned();
    }
    let mut r = String::from_str(address.substring_char(0, 4));
    proof {
        reveal_strlit("..");
    }
    r.append("..");
    r.append(address.substring_char(n - 4, n));
    assert(r@ =~= short_form(address@));
    r
}

/// A balance in base units, written in native units to four decimal places.
pub fn lamports_to_sol(lamports: u64) -> (r: String)
    ensures
        r@ == sol_text(lamports as nat),
{
    let rest = lamports % LAMPORTS_PER_STEP;
    let q: u64 = lamports / LAMPORTS_PER_STEP + if rest >= LAMPORTS_PER_STEP / 2 { 1 } else { 0 };
    assert(q == steps_of(lamports as nat)) by (nonlinear_arith)
        requires
            rest == lamports % 100_000,
            q == lamports / 100_000 + if rest >= 50_000 { 1int } else { 0int },
    {
    }
    let mut r = String::new();
    push_decimal(&mut r, q / 10000);
    proof {
        reveal_strlit(".");
    }
    r.append(".");
    push_two_digits(&mut r, q / 100);
    push_two_digits(&mut r, q);
    assert(r@ =~= sol_text(lamports as nat));
    r
}

/// The first second of the dates that chrono represents (-262143-01-01 UTC).
pub const MIN_CLOCK_SECS: i64 = -8_334_601_228_800;

/// The last second of the dates that chrono represents (262142-12-31 UTC).
pub const MAX_CLOCK_SECS: i64 = 8_210_266_876_799;

/// Seconds in a day.
pub const DAY_SECS: u32 = 86_400;

/// The addresses of the chain: 32 to 44 characters of the base-58 alphabet.
pub const SOL_ADDRESS_PATTERN: &'static str = "[1-9A-HJ-NP-Za-km-z]{32,44}";

/// A character of the base-58 alphabet: digits but `0`, letters but `I`, `O`, `l`.
pub open spec fn base58_char(c: char) -> bool {
    ('1' <= c && c <= '9') || ('A' <= c && c <= 'H') || ('J' <= c && c <= 'N') || ('P' <= c
        && c <= 'Z') || ('a' <= c && c <= 'k') || ('m' <= c && c <= 'z')
}

/// Whether `s` holds 32 consecutive base-58 characters: exactly where the
/// unanchored `SOL_ADDRESS_PATTERN` finds a match.
pub open spec fn has_base58_run(s: Seq<char>) -> bool {
    exists|i: int| #[trigger] base58_run_at(s, i)
}

/// Whether the 32 characters of `s` from `i` on are all base-58 characters.
pub open spec fn base58_run_at(s: Seq<char>, i: int) -> bool {
    0 <= i && i + 32 <= s.len() && forall|k: int| i <= k < i + 32 ==> base58_char(#[trigger] s[k])
}

/// Relies on regex::Regex::new, which compiles `SOL_ADDRESS_PATTERN` (a valid
/// expression), and on Regex::is_match, which is true where the expression
/// matches somewhere in `haystack`: a run of 32 to 44 characters of the class
/// holds one of 32, and a run of 32 or more holds a match.
#[verifier::external_body]
fn regex_search(pattern: &str, haystack: &str) -> (r: Option<bool>)
    requires
        pattern@ == SOL_ADDRESS_PATTERN@,
    ensures
        r == Some(has_base58_run(haystack@)),
{
    match regex::Regex::new(pattern) {
        Ok(re) => Some(re.is_match(haystack)),
        Err(_) => None,
    }
}

/// Whether `address` has the shape of an address of the chain.
pub fn is_sol_address(address: &str) -> (r: bool)
    ensures
        r == has_base58_run(address@),
{
    match regex_search(SOL_ADDRESS_PATTERN, address) {
        Some(found) => found,
        None => false,
    }
}

/// Relies on chrono::DateTime::from_timestamp, which gives a UTC date and time
/// exactly for the timestamps of chrono's range of years (-262143 to 262142),
/// and whose time of day (read back with Timelike::num_seconds_from_midnight)
/// is `secs` modulo a day.
#[verifier::external_body]
fn utc_seconds_of_day(secs: i64) -> (r: Option<u32>)
    ensures
        r == (if MIN_CLOCK_SECS <= secs <= MAX_CLOCK_SECS {
            Some((secs as int % (DAY_SECS as int)) as u32)
        } else {
            None
        }),
{
    chrono::DateTime::from_timestamp(secs, 0).map(|d| chrono::Timelike::num_seconds_from_midnight(&d))
}

/// `t` read as a signed 64-bit number, as the cast `t as i64` does.
pub open spec fn as_signed(t: u64) -> int {
    if t <= i64::MAX {
        t as int
    } else {
        t - 0x1_0000_0000_0000_0000
    }
}

/// A time of day in UTC.
#[derive(Clone, Copy, Debug, PartialEq, Eq, Structural)]
pub struct ClockTime {
    pub hour: u32,
    pub minute: u32,
    pub second: u32,
}

impl ClockTime {
    pub open spec fn wf(self) -> bool {
        self.hour < 24 && self.minute < 60 && self.second < 60
    }

    /// The time of day `t` seconds after midnight.
    pub open spec fn of_seconds(t: nat) -> ClockTime {
        ClockTime {
            hour: (t / 3600) as u32,
            minute: ((t % 3600) / 60) as u32,
            second: (t % 60) as u32,
        }
    }

    /// `HH:MM:SS AM` before noon, `HH:MM:SS PM` from noon on, the hour from 00 to 23.
    pub open spec fn text(self) -> Seq<char> {
        two_digits(self.hour as nat) + seq![':'] + two_digits(self.minute as nat) + seq![':']
            + two_digits(self.second as nat) + if self.hour < 12 {
            seq![' ', 'A', 'M']
        } else {
            seq![' ', 'P', 'M']
        }
    }

    pub fn format(&self) -> (r: String)
        ensures
            r@ == self.text(),
    {
        proof {
            reveal_strlit(":");
            reveal_strlit(" AM");
            reveal_strlit(" PM");
        }
        let mut r = String::new();
        push_two_digits(&mut r, self.hour as u64);
        r.append(":");
        push_two_digits(&mut r, self.minute as u64);
        r.append(":");
        push_two_digits(&mut r, self.second as u64);
        if self.hour < 12 {
            r.append(" AM");
        } else {
            r.append(" PM");
        }
        assert(r@ =~= self.text());
        r
    }
}

/// The UTC time of day of a moment given in seconds since the Unix epoch
/// (read as a signed number); a moment out of the representable range of
/// dates reads as midnight.
pub open spec fn clock_of(time: u64) -> ClockTime {
    let s = as_signed(time);
    if MIN_CLOCK_SECS <= s <= MAX_CLOCK_SECS {
        ClockTime::of_seconds((s % (DAY_SECS as int)) as nat)
    } else {
        ClockTime::of_seconds(0)
    }
}

pub fn epoch_to_datetime(time: u64) -> (r: ClockTime)
    ensures
        r.wf(),
        r == clock_of(time),
{
    let secs: i64 = if time <= i64::MAX as u64 {
        time as i64
    } else {
        (time - 0x8000_0000_0000_0000) as i64 + i64::MIN
    };
    let t = match utc_seconds_of_day(secs) {
        Some(t) => t,
        None => 0,
    };
    ClockTime { hour: t / 3600, minute: (t % 3600) / 60, second: t % 60 }
}

#[verifier::external_type_specification]
#[verifier::external_body]
pub struct ExSystemTime(std::time::SystemTime);

#[verifier::external_type_specification]
#[verifier::external_body]
pub struct ExSystemTimeError(std::time::SystemTimeError);

/// Relies on std::time::SystemTime::now, which reads the system clock.
pub assume_specification[ std::time::SystemTime::now ]() -> std::time::SystemTime;

/// Relies on std::time::SystemTime::duration_since, which fails where `earlier`
/// is later than `self`.
pub assume_specification[ std::time::SystemTime::duration_since ](
    t: &std::time::SystemTime,
    earlier: std::time::SystemTime,
) -> core::result::Result<core::time::Duration, std::time::SystemTimeError>;

/// Relies on core::time::Duration::as_secs, the whole seconds of a duration.
pub assume_specification[ core::time::Duration::as_secs ](d: &core::time::Duration) -> u64;

/// Relies on std::time::UNIX_EPOCH, the moment 1970-01-01 00:00:00 UTC.
#[verifier::external_body]
fn unix_epoch() -> std::time::SystemTime {
    std::time::UNIX_EPOCH
}

/// The present time in whole seconds since the Unix epoch; a clock set before
/// the epoch reads as the epoch itself.
pub fn get_epoch_time() -> u64 {
    match std::time::SystemTime::now().duration_since(unix_epoch()) {
        Ok(d) => d.as_secs(),
        Err(_) => 0,
    }
}

} // verus!
