//! The local clock time at which a record was created, as the history shows it.
use vstd::prelude::*;

use crate::text::{decimal_char, decimal_string, string_push, two_digits};
use super::model::ClipboardRecord;

verus! {

#[verifier::external_type_specification]
#[verifier::external_body]
pub struct ExUtcOffset(time::UtcOffset);

/// time's `UtcOffset::current_local_offset`, with its error mapped to
/// `None`. The result depends on the machine, its time zone and the moment,
/// so nothing is stated of it.
#[verifier::external_body]
fn current_local_offset() -> Option<time::UtcOffset> {
    time::UtcOffset::current_local_offset().ok()
}

/// time's `UtcOffset::whole_seconds`: the offset's hours (within ±25),
/// minutes and seconds (each within ±59, all of one sign) as one count of
/// seconds, which therefore lies within ±93599.
#[verifier::external_body]
fn offset_whole_seconds(offset: time::UtcOffset) -> (seconds: i32)
    ensures
        -93599 <= seconds <= 93599,
{
    offset.whole_seconds()
}

/// `HH:MM:SS`, each part two digits.
pub open spec fn clock_label_spec(hour: nat, minute: nat, second: nat) -> Seq<char> {
    two_digits(hour) + seq![':'] + two_digits(minute) + seq![':'] + two_digits(second)
}

fn push_two_digits(out: &mut String, value: u8)
    ensures
        final(out)@ == old(out)@ + two_digits(value as nat),
{
    if value < 10 {
        string_push(out, '0');
        string_push(out, digit_char(value));
        assert(final(out)@ =~= old(out)@ + two_digits(value as nat));
    } else {
        let digits = decimal_string(value as u64);
        out.append(digits.as_str());
    }
}

fn digit_char(d: u8) -> (c: char)
    requires
        d < 10,
    ensures
        c == decimal_char(d as nat),
{
    if d == 0 { '0' }
    else if d == 1 { '1' }
    else if d == 2 { '2' }
    else if d == 3 { '3' }
    else if d == 4 { '4' }
    else if d == 5 { '5' }
    else if d == 6 { '6' }
    else if d == 7 { '7' }
    else if d == 8 { '8' }
    else { '9' }
}

/// Formats a clock time as `HH:MM:SS`.
pub fn clock_label(hour: u8, minute: u8, second: u8) -> (label: String)
    ensures
        label@ == clock_label_spec(hour as nat, minute as nat, second as nat),
{
    let mut out = String::new();
    push_two_digits(&mut out, hour);
    string_push(&mut out, ':');
    push_two_digits(&mut out, minute);
    string_push(&mut out, ':');
    push_two_digits(&mut out, second);
    assert(out@ =~= clock_label_spec(hour as nat, minute as nat, second as nat));
    out
}

/// The first second of the year -9999 and the last second of the year 9999,
/// as Unix timestamps: the range of date-times that the time crate holds.
pub open spec fn in_supported_years(seconds: int) -> bool {
    -377705116800 <= seconds <= 253402300799
}

/// The creation time of a record, in whole seconds since the Unix epoch
/// (rounded down); the epoch itself when it lies outside the supported years.
pub open spec fn utc_seconds(created_at_ms: int) -> int {
    let seconds = created_at_ms / 1000;
    if in_supported_years(seconds) { seconds } else { 0 }
}

/// `HH:MM:SS` of the second of the day at which the creation time falls in
/// the zone `offset` seconds east of UTC.
pub open spec fn local_clock_label_spec(created_at_ms: int, offset: int) -> Seq<char> {
    let of_day = (utc_seconds(created_at_ms) + offset) % 86400;
    clock_label_spec((of_day / 3600) as nat, (of_day % 3600 / 60) as nat, (of_day % 60) as nat)
}

/// The zones in which the creation time can be read: an offset within what a
/// `UtcOffset` holds, that keeps the local date-time within the supported years.
pub open spec fn readable_offset(created_at_ms: int, offset: int) -> bool {
    &&& -93599 <= offset <= 93599
    &&& in_supported_years(utc_seconds(created_at_ms) + offset)
}

/// The creation time in whole seconds, as `utc_seconds` gives it.
fn utc_seconds_at(created_at_ms: i64) -> (seconds: i128)
    ensures
        seconds == utc_seconds(created_at_ms as int),
{
    // floor division by 1000, taken on a shifted non-negative value
    let shifted: u128 = (created_at_ms as i128 + 10_000_000_000_000_000_000i128) as u128;
    let seconds: i128 = (shifted / 1000) as i128 - 10_000_000_000_000_000i128;
    proof {
        vstd::arithmetic::div_mod::lemma_hoist_over_denominator(
            created_at_ms as int,
            10_000_000_000_000_000,
            1000,
        );
        assert(seconds == created_at_ms as int / 1000);
    }
    if -377_705_116_800 <= seconds && seconds <= 253_402_300_799 { seconds } else { 0 }
}

/// Whether the creation time can be read in the zone `offset_seconds` east
/// of UTC.
pub fn offset_is_readable(created_at_ms: i64, offset_seconds: i32) -> (r: bool)
    ensures
        r == readable_offset(created_at_ms as int, offset_seconds as int),
{
    let local: i128 = utc_seconds_at(created_at_ms) + offset_seconds as i128;
    -93599 <= offset_seconds && offset_seconds <= 93599 && -377_705_116_800 <= local && local <= 253_402_300_799
}

/// The clock time of a record created at `created_at_ms` (milliseconds since
/// the Unix epoch), in the zone `offset_seconds` east of UTC. A zone that
/// would move the local date-time out of the supported years is not accepted.
pub fn record_clock_label_at(created_at_ms: i64, offset_seconds: i32) -> (label: String)
    requires
        readable_offset(created_at_ms as int, offset_seconds as int),
    ensures
        label@ == local_clock_label_spec(created_at_ms as int, offset_seconds as int),
{
    let local: i128 = utc_seconds_at(created_at_ms) + offset_seconds as i128;
    // the second of the day, taken on a value moved forward by whole days
    let of_day: u64 = ((local + 377_705_116_800i128) as u64) % 86400;
    proof {
        vstd::arithmetic::div_mod::lemma_mod_multiples_vanish(4_371_587, local as int, 86400);
        assert(of_day as int == local as int % 86400);
    }
    let hour: u8 = (of_day / 3600) as u8;
    let minute: u8 = (of_day % 3600 / 60) as u8;
    let second: u8 = (of_day % 60) as u8;
    clock_label(hour, minute, second)
}

/// The label shown for a record created at `created_at_ms` when the machine
/// reports the offset `reported` (`None`: no offset known): the clock time in
/// the reported zone when it can read the creation time, otherwise in UTC.
pub open spec fn record_time_label_spec(created_at_ms: int, reported: Option<int>) -> Seq<char> {
    match reported {
        Some(offset) => if readable_offset(created_at_ms, offset) {
            local_clock_label_spec(created_at_ms, offset)
        } else {
            local_clock_label_spec(created_at_ms, 0)
        },
        None => local_clock_label_spec(created_at_ms, 0),
    }
}

/// The label shown for a record created at `created_at_ms` when the machine
/// reports the offset `reported`, in seconds east of UTC.
pub fn record_time_label_in(created_at_ms: i64, reported: Option<i32>) -> (label: String)
    ensures
        label@ == record_time_label_spec(
            created_at_ms as int,
            match reported {
                Some(o) => Some(o as int),
                None => None,
            },
        ),
{
    let offset_seconds: i32 = match reported {
        Some(offset) => if offset_is_readable(created_at_ms, offset) { offset } else { 0 },
        None => 0,
    };
    record_clock_label_at(created_at_ms, offset_seconds)
}

/// The local clock time at which a record was created: the machine's current
/// offset from UTC read as `record_time_label_in` reads it. Which offset the
/// machine reports is left unsaid; as the offsets that the time crate holds
/// span more than a day, the contract fixes the label only through that
/// offset, and `record_time_label_in` fixes it for each one.
pub fn clipboard_record_time_label(record: &ClipboardRecord) -> (label: String)
    ensures
        exists|offset: int|
            readable_offset(record.created_at_ms as int, offset)
            && label@ == #[trigger] local_clock_label_spec(record.created_at_ms as int, offset),
        exists|reported: Option<int>|
            (reported matches Some(o) ==> -93599 <= o <= 93599)
            && label@ == #[trigger] record_time_label_spec(record.created_at_ms as int, reported),
{
    let reported: Option<i32> = match current_local_offset() {
        Some(offset) => Some(offset_whole_seconds(offset)),
        None => None,
    };
    let label = record_time_label_in(record.created_at_ms, reported);
    proof {
        let r = match reported {
            Some(o) => Some(o as int),
            None => None,
        };
        assert(label@ == record_time_label_spec(record.created_at_ms as int, r));
        let shown: int = match reported {
            Some(o) => if readable_offset(record.created_at_ms as int, o as int) { o as int } else { 0 },
            None => 0,
        };
        assert(readable_offset(record.created_at_ms as int, 0));
        assert(label@ == local_clock_label_spec(record.created_at_ms as int, shown));
    }
    label
}

/// Reading a record in the zone the machine reports is reading, in UTC, the
/// instant that many seconds later: the reported offset moves the clock
/// forward by exactly its own amount. No offset reported reads UTC.
pub proof fn law_reported_offset_moves_clock_forward(created_at_ms: int, offset: int)
    requires
        in_supported_years(created_at_ms / 1000),
        readable_offset(created_at_ms, offset),
    ensures
        record_time_label_spec(created_at_ms, Some(offset))
            == record_time_label_spec(created_at_ms + 1000 * offset, None),
        record_time_label_spec(created_at_ms, None) == record_time_label_spec(created_at_ms, Some(0)),
{
    let later = created_at_ms + 1000 * offset;
    vstd::arithmetic::div_mod::lemma_hoist_over_denominator(created_at_ms, offset, 1000);
    assert(later / 1000 == created_at_ms / 1000 + offset);
    assert(readable_offset(created_at_ms, 0));
}

} // verus!
