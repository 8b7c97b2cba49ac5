//! The scheduler's configuration: when and where the daily tip is posted.

use vstd::prelude::*;
use vstd::string::*;

verus! {

/// Number of hours in a day; a configured hour is below it.
pub const HOURS_PER_DAY: u32 = 24;

/// Number of minutes in an hour; a configured minute is below it.
pub const MINUTES_PER_HOUR: u32 = 60;

/// Where and at what local time of day the daily tip is posted.
#[derive(Clone, Copy, Debug, PartialEq, Eq, Structural)]
pub struct SchedulerConfig {
    pub channel: u64,
    pub hour: u32,
    pub minute: u32,
}

impl SchedulerConfig {
    /// Hour and minute name a real time of day.
    pub open spec fn is_valid(&self) -> bool {
        self.hour < HOURS_PER_DAY && self.minute < MINUTES_PER_HOUR
    }
}

/// The fields a caller asks to change; an absent field is left as stored.
#[derive(Clone, Copy, Debug, PartialEq, Eq, Structural)]
pub struct ConfigUpdate {
    pub channel: Option<u64>,
    pub hour: Option<u32>,
    pub minute: Option<u32>,
}

/// Why a configuration request was turned down before anything was written.
#[derive(Clone, Copy, Debug, PartialEq, Eq, Structural)]
pub enum ValidationError {
    /// No configuration is stored yet and the request does not give every field.
    MissingFields,
    /// The hour is not below 24.
    HourOutOfRange,
    /// The minute is not below 60.
    MinuteOutOfRange,
    /// A time of day is not written as `HH:mm`.
    MalformedTime,
}

/// Errors that the scheduler's commands report to their caller.
#[derive(Clone, Debug, PartialEq, Eq)]
pub enum SchedulerError {
    /// No configuration is stored.
    NotConfigured,
    /// The request was invalid; nothing was written.
    Validation(ValidationError),
    /// The store failed; its message is kept.
    Store(String),
}

/// Checks the ranges of a complete configuration.
pub open spec fn validated(c: SchedulerConfig) -> Result<SchedulerConfig, SchedulerError> {
    if c.hour >= HOURS_PER_DAY {
        Err(SchedulerError::Validation(ValidationError::HourOutOfRange))
    } else if c.minute >= MINUTES_PER_HOUR {
        Err(SchedulerError::Validation(ValidationError::MinuteOutOfRange))
    } else {
        Ok(c)
    }
}

/// The value an optional field takes: the given one, else the stored one.
pub open spec fn field_or<T>(given: Option<T>, stored: T) -> T {
    match given {
        Some(v) => v,
        None => stored,
    }
}

/// The configuration that results from applying `update` to what is stored.
///
/// Fields that the update leaves out keep their stored value. With nothing
/// stored, every field must be given.
pub open spec fn merged_config(existing: Option<SchedulerConfig>, update: ConfigUpdate) -> Result<
    SchedulerConfig,
    SchedulerError,
> {
    match existing {
        Some(c) => validated(
            SchedulerConfig {
                channel: field_or(update.channel, c.channel),
                hour: field_or(update.hour, c.hour),
                minute: field_or(update.minute, c.minute),
            },
        ),
        None => {
            if update.channel is Some && update.hour is Some && update.minute is Some {
                validated(
                    SchedulerConfig {
                        channel: update.channel->Some_0,
                        hour: update.hour->Some_0,
                        minute: update.minute->Some_0,
                    },
                )
            } else {
                Err(SchedulerError::Validation(ValidationError::MissingFields))
            }
        },
    }
}

fn check_ranges(c: SchedulerConfig) -> (r: Result<SchedulerConfig, SchedulerError>)
    ensures
        r == validated(c),
{
    if c.hour >= HOURS_PER_DAY {
        Err(SchedulerError::Validation(ValidationError::HourOutOfRange))
    } else if c.minute >= MINUTES_PER_HOUR {
        Err(SchedulerError::Validation(ValidationError::MinuteOutOfRange))
    } else {
        Ok(c)
    }
}

/// Applies `update` to the stored configuration, if any, and validates the result.
///
/// On `Ok` the caller persists the returned record; on `Err` it writes nothing.
pub fn merge_config(existing: Option<SchedulerConfig>, update: ConfigUpdate) -> (r: Result<
    SchedulerConfig,
    SchedulerError,
>)
    ensures
        r == merged_config(existing, update),
        r is Ok ==> r->Ok_0.is_valid(),
{
    match existing {
        Some(c) => {
            let channel = match update.channel {
                Some(v) => v,
                None => c.channel,
            };
            let hour = match update.hour {
                Some(v) => v,
                None => c.hour,
            };
            let minute = match update.minute {
                Some(v) => v,
                None => c.minute,
            };
            check_ranges(SchedulerConfig { channel, hour, minute })
        },
        None => match (update.channel, update.hour, update.minute) {
            (Some(channel), Some(hour), Some(minute)) => check_ranges(
                SchedulerConfig { channel, hour, minute },
            ),
            _ => Err(SchedulerError::Validation(ValidationError::MissingFields)),
        },
    }
}

/// A decimal digit.
pub open spec fn is_digit(c: char) -> bool {
    '0' <= c && c <= '9'
}

/// A non-empty run of decimal digits.
pub open spec fn is_number(s: Seq<char>) -> bool {
    s.len() > 0 && forall|i: int| 0 <= i < s.len() ==> is_digit(#[trigger] s[i])
}

/// The value of a run of decimal digits, most significant first.
pub open spec fn digits_value(s: Seq<char>) -> nat
    decreases s.len(),
{
    if s.len() == 0 {
        0
    } else {
        digits_value(s.drop_last()) * 10 + (s.last() as int - '0' as int) as nat
    }
}

/// `s` is two numbers separated by the colon at index `i`.
pub open spec fn splits_at(s: Seq<char>, i: int) -> bool {
    0 <= i < s.len() && s[i] == ':' && is_number(s.take(i)) && is_number(s.skip(i + 1))
}

/// `s` has the shape `HH:mm`, whatever its values.
pub open spec fn has_time_shape(s: Seq<char>) -> bool {
    exists|i: int| splits_at(s, i)
}

/// The time of day that `s` names, or why it names none.
pub open spec fn time_of_day_of(s: Seq<char>) -> Result<(u32, u32), SchedulerError> {
    if !has_time_shape(s) {
        Err(SchedulerError::Validation(ValidationError::MalformedTime))
    } else {
        let i = choose|i: int| splits_at(s, i);
        let h = digits_value(s.take(i));
        let m = digits_value(s.skip(i + 1));
        if h >= HOURS_PER_DAY {
            Err(SchedulerError::Validation(ValidationError::HourOutOfRange))
        } else if m >= MINUTES_PER_HOUR {
            Err(SchedulerError::Validation(ValidationError::MinuteOutOfRange))
        } else {
            Ok((h as u32, m as u32))
        }
    }
}

proof fn lemma_split_unique(s: Seq<char>, i: int, j: int)
    requires
        splits_at(s, i),
        splits_at(s, j),
    ensures
        i == j,
{
    if i < j {
        assert(s.skip(i + 1)[j - i - 1] == s[j]);
    } else if j < i {
        assert(s.skip(j + 1)[i - j - 1] == s[i]);
    }
}

proof fn lemma_digits_value_push(s: Seq<char>, c: char)
    ensures
        digits_value(s.push(c)) == digits_value(s) * 10 + (c as int - '0' as int) as nat,
{
    assert(s.push(c).drop_last() =~= s);
}

/// Reads the digits of `s` between `from` and `to`, stopping at `cap`.
fn capped_value(s: &str, from: usize, to: usize, cap: u32) -> (r: u32)
    requires
        from <= to <= s@.len(),
        0 < cap <= 100,
        is_number(s@.subrange(from as int, to as int)),
    ensures
        r as nat == if digits_value(s@.subrange(from as int, to as int)) < cap as nat {
            digits_value(s@.subrange(from as int, to as int))
        } else {
            cap as nat
        },
{
    let mut acc: u32 = 0;
    let mut k: usize = from;
    while k < to
        invariant
            from <= k <= to <= s@.len(),
            0 < cap <= 100,
            is_number(s@.subrange(from as int, to as int)),
            acc as nat == if digits_value(s@.subrange(from as int, k as int)) < cap as nat {
                digits_value(s@.subrange(from as int, k as int))
            } else {
                cap as nat
            },
        decreases to - k,
    {
        let c = s.get_char(k);
        let ghost prefix = s@.subrange(from as int, k as int);
        assert(s@.subrange(from as int, k + 1) =~= prefix.push(c));
        assert(s@.subrange(from as int, to as int)[k - from] == c);
        proof {
            lemma_digits_value_push(prefix, c);
        }
        let d: u32 = (c as u32) - ('0' as u32);
        if acc < cap {
            let next: u32 = acc * 10 + d;
            acc = if next < cap {
                next
            } else {
                cap
            };
        }
        k = k + 1;
    }
    acc
}

/// Reads a time of day written `HH:mm`, such as `09:30`.
///
/// Both parts are runs of decimal digits around a single colon; the hour must
/// be below 24 and the minute below 60.
pub fn parse_time_of_day(text: &str) -> (r: Result<(u32, u32), SchedulerError>)
    ensures
        r == time_of_day_of(text@),
{
    let n = text.unicode_len();
    // Find the first colon.
    let mut i: usize = 0;
    while i < n && text.get_char(i) != ':'
        invariant
            i <= n == text@.len(),
            forall|k: int| 0 <= k < i ==> text@[k] != ':',
        decreases n - i,
    {
        i = i + 1;
    }
    if i == n {
        assert forall|j: int| !splits_at(text@, j) by {}
        assert(!has_time_shape(text@));
        return Err(SchedulerError::Validation(ValidationError::MalformedTime));
    }
    // Check that both sides are digits.
    let mut ok = i > 0 && i + 1 < n;
    let mut k: usize = 0;
    while k < n
        invariant
            i < n == text@.len(),
            k <= n,
            forall|q: int| 0 <= q < i ==> text@[q] != ':',
            text@[i as int] == ':',
            ok <==> (i > 0 && i + 1 < n && forall|q: int|
                0 <= q < k && q != i ==> is_digit(#[trigger] text@[q])),
        decreases n - k,
    {
        if k != i && !is_digit_char(text.get_char(k)) {
            ok = false;
        }
        k = k + 1;
    }
    let ghost s = text@;
    if !ok {
        assert forall|j: int| !splits_at(s, j) by {
            if splits_at(s, j) {
                if j < i {
                    assert(s.take(j)[j] == s[j]);
                } else if j > i {
                    assert(s.take(j)[i as int] == s[i as int]);
                    assert(is_digit(s.take(j)[i as int]));
                } else {
                    assert forall|q: int| 0 <= q < n && q != i implies is_digit(#[trigger] s[q]) by {
                        if q < i {
                            assert(s.take(j)[q] == s[q]);
                        } else {
                            assert(s.skip(j + 1)[q - j - 1] == s[q]);
                        }
                    }
                }
            }
        }
        assert(!has_time_shape(s));
        return Err(SchedulerError::Validation(ValidationError::MalformedTime));
    }
    assert(s.subrange(0, i as int) =~= s.take(i as int));
    assert(s.subrange(i + 1, n as int) =~= s.skip(i + 1));
    assert(is_number(s.take(i as int))) by {
        assert forall|q: int| 0 <= q < i implies is_digit(#[trigger] s.take(i as int)[q]) by {
            assert(s.take(i as int)[q] == s[q]);
        }
    }
    assert(is_number(s.skip(i + 1))) by {
        assert forall|q: int| 0 <= q < s.skip(i + 1).len() implies is_digit(
            #[trigger] s.skip(i + 1)[q],
        ) by {
            assert(s.skip(i + 1)[q] == s[q + i + 1]);
        }
    }
    assert(splits_at(s, i as int));
    let hour = capped_value(text, 0, i, HOURS_PER_DAY);
    let minute = capped_value(text, i + 1, n, MINUTES_PER_HOUR);
    proof {
        let j = choose|j: int| splits_at(s, j);
        lemma_split_unique(s, i as int, j);
    }
    if hour >= HOURS_PER_DAY {
        return Err(SchedulerError::Validation(ValidationError::HourOutOfRange));
    }
    if minute >= MINUTES_PER_HOUR {
        return Err(SchedulerError::Validation(ValidationError::MinuteOutOfRange));
    }
    Ok((hour, minute))
}

fn is_digit_char(c: char) -> (r: bool)
    ensures
        r == is_digit(c),
{
    '0' <= c && c <= '9'
}

} // verus!
